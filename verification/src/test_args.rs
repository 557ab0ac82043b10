//! The arguments of the `#[boast::test(..)]` attribute: which keys it takes, under
//! which names, and which are required.
use vstd::prelude::*;

use crate::text::{str_eq, texts};

verus! {

/// A setting that the test attribute takes.
#[derive(Debug, Clone, Copy, PartialEq, Eq)]
pub enum TestArgKey {
    /// `confidence` or `q`.
    Confidence,
    /// `outlier_rate` or `p`.
    OutlierRate,
    /// `pass_ratio`.
    PassRatio,
    /// `timeout`.
    Timeout,
}

/// The setting that a key names, if any.
pub open spec fn key_kind(key: Seq<char>) -> Option<TestArgKey> {
    if key == "confidence"@ || key == "q"@ {
        Some(TestArgKey::Confidence)
    } else if key == "outlier_rate"@ || key == "p"@ {
        Some(TestArgKey::OutlierRate)
    } else if key == "pass_ratio"@ {
        Some(TestArgKey::PassRatio)
    } else if key == "timeout"@ {
        Some(TestArgKey::Timeout)
    } else {
        None
    }
}

/// The setting that a key names, if any.
pub fn classify_key(key: &str) -> (kind: Option<TestArgKey>)
    ensures
        kind == key_kind(key@),
{
    if str_eq(key, "confidence") || str_eq(key, "q") {
        Some(TestArgKey::Confidence)
    } else if str_eq(key, "outlier_rate") || str_eq(key, "p") {
        Some(TestArgKey::OutlierRate)
    } else if str_eq(key, "pass_ratio") {
        Some(TestArgKey::PassRatio)
    } else if str_eq(key, "timeout") {
        Some(TestArgKey::Timeout)
    } else {
        None
    }
}

/// The position of the last of the first `n` keys that names `kind`.
pub open spec fn last_of(keys: Seq<Seq<char>>, kind: TestArgKey, n: nat) -> Option<nat>
    decreases n,
{
    if n == 0 {
        None
    } else if key_kind(keys[n - 1]) == Some(kind) {
        Some((n - 1) as nat)
    } else {
        last_of(keys, kind, (n - 1) as nat)
    }
}

/// The position of the first of the first `n` keys that names no setting.
pub open spec fn first_unknown(keys: Seq<Seq<char>>, n: nat) -> Option<nat>
    decreases n,
{
    if n == 0 {
        None
    } else {
        match first_unknown(keys, (n - 1) as nat) {
            Some(j) => Some(j),
            None => if key_kind(keys[n - 1]) is None {
                Some((n - 1) as nat)
            } else {
                None
            },
        }
    }
}

/// Where each setting's value stands among the attribute's arguments: the last
/// argument that names it.
#[derive(Debug, Clone, Copy, PartialEq, Eq)]
pub struct TestArgSlots {
    pub confidence: usize,
    pub outlier_rate: usize,
    pub pass_ratio: Option<usize>,
    pub timeout: Option<usize>,
}

/// Why the attribute's arguments were refused.
#[derive(Debug, Clone, Copy, PartialEq, Eq)]
pub enum TestArgError {
    /// The argument at this position names no setting.
    UnknownKey(usize),
    MissingConfidence,
    MissingOutlierRate,
}

/// The text that describes a refusal.
pub open spec fn test_arg_error_text(e: TestArgError) -> Seq<char> {
    match e {
        TestArgError::UnknownKey(_) => "Unknown argument key"@,
        TestArgError::MissingConfidence => "Missing required argument: confidence (or q)"@,
        TestArgError::MissingOutlierRate => "Missing required argument: outlier_rate (or p)"@,
    }
}

impl TestArgError {
    /// Describes the refusal in words.
    pub fn message(&self) -> (text: &'static str)
        ensures
            text@ == test_arg_error_text(*self),
    {
        match self {
            TestArgError::UnknownKey(_) => "Unknown argument key",
            TestArgError::MissingConfidence => "Missing required argument: confidence (or q)",
            TestArgError::MissingOutlierRate => "Missing required argument: outlier_rate (or p)",
        }
    }
}

/// How the keys of the attribute's arguments resolve: the first key that names no
/// setting is refused; otherwise the confidence and the outlier rate are required,
/// in that order, and each setting takes the last argument that names it.
pub open spec fn spec_resolve(keys: Seq<Seq<char>>) -> Result<TestArgSlots, TestArgError> {
    let n = keys.len();
    match first_unknown(keys, n) {
        Some(j) => Err(TestArgError::UnknownKey(j as usize)),
        None => match (
            last_of(keys, TestArgKey::Confidence, n),
            last_of(keys, TestArgKey::OutlierRate, n),
        ) {
            (None, _) => Err(TestArgError::MissingConfidence),
            (Some(_), None) => Err(TestArgError::MissingOutlierRate),
            (Some(c), Some(o)) => Ok(
                TestArgSlots {
                    confidence: c as usize,
                    outlier_rate: o as usize,
                    pass_ratio: match last_of(keys, TestArgKey::PassRatio, n) {
                        Some(i) => Some(i as usize),
                        None => None,
                    },
                    timeout: match last_of(keys, TestArgKey::Timeout, n) {
                        Some(i) => Some(i as usize),
                        None => None,
                    },
                },
            ),
        },
    }
}

/// The optional position as a `usize`.
pub open spec fn opt_usize(i: Option<nat>) -> Option<usize> {
    match i {
        Some(j) => Some(j as usize),
        None => None,
    }
}

/// Resolves the keys of the attribute's arguments, in the order written.
pub fn resolve_test_args(keys: &Vec<String>) -> (r: Result<TestArgSlots, TestArgError>)
    ensures
        r == spec_resolve(texts(keys@)),
{
    let ghost all = texts(keys@);
    let n = keys.len();
    let mut confidence: Option<usize> = None;
    let mut outlier_rate: Option<usize> = None;
    let mut pass_ratio: Option<usize> = None;
    let mut timeout: Option<usize> = None;
    let mut i: usize = 0;
    while i < n
        invariant
            n == keys@.len(),
            all == texts(keys@),
            i <= n,
            first_unknown(all, i as nat) is None,
            confidence == opt_usize(last_of(all, TestArgKey::Confidence, i as nat)),
            outlier_rate == opt_usize(last_of(all, TestArgKey::OutlierRate, i as nat)),
            pass_ratio == opt_usize(last_of(all, TestArgKey::PassRatio, i as nat)),
            timeout == opt_usize(last_of(all, TestArgKey::Timeout, i as nat)),
        decreases n - i,
    {
        assert(all[i as int] == keys@[i as int]@);
        match classify_key(keys[i].as_str()) {
            None => {
                proof {
                    lemma_first_unknown_stays(all, (i + 1) as nat, n as nat);
                }
                return Err(TestArgError::UnknownKey(i));
            },
            Some(TestArgKey::Confidence) => {
                confidence = Some(i);
            },
            Some(TestArgKey::OutlierRate) => {
                outlier_rate = Some(i);
            },
            Some(TestArgKey::PassRatio) => {
                pass_ratio = Some(i);
            },
            Some(TestArgKey::Timeout) => {
                timeout = Some(i);
            },
        }
        i = i + 1;
    }
    match (confidence, outlier_rate) {
        (None, _) => Err(TestArgError::MissingConfidence),
        (Some(_), None) => Err(TestArgError::MissingOutlierRate),
        (Some(c), Some(o)) => Ok(TestArgSlots { confidence: c, outlier_rate: o, pass_ratio, timeout }),
    }
}

/// Once the first unknown key is found, looking further does not change it.
pub proof fn lemma_first_unknown_stays(keys: Seq<Seq<char>>, m: nat, n: nat)
    requires
        m <= n,
        first_unknown(keys, m) is Some,
    ensures
        first_unknown(keys, n) == first_unknown(keys, m),
    decreases n - m,
{
    if m < n {
        lemma_first_unknown_stays(keys, m, (n - 1) as nat);
    }
}

} // verus!
