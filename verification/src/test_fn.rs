//! The shape that the `#[boast::test(..)]` attribute asks of the function it is put
//! on: exactly one parameter, a reference to a slice, with a `#[src = ..]`
//! attribute naming the function that gives the data source.
use vstd::prelude::*;

verus! {

/// The value of a `name = value` attribute, as far as the checks read it.
pub enum AttrValue {
    /// A path of one segment: an identifier.
    Ident(String),
    /// A path of more than one segment.
    LongPath,
    /// A string literal, with the identifier it reads as, if it reads as one.
    Str(Option<String>),
    /// Any other expression.
    Other,
}

/// An attribute of the test function's parameter, as far as the checks read it.
pub enum AttrShape {
    /// `#[src = value]`.
    SrcNameValue(AttrValue),
    /// `#[src ..]` in another form than `name = value`.
    SrcOther,
    /// An attribute with another name.
    Other,
}

/// The type of a typed parameter, as far as the checks read it.
#[derive(Debug, Clone, Copy, PartialEq, Eq)]
pub enum TypeShape {
    /// `&[T]` or `&mut [T]`.
    SliceRef,
    /// A reference to something other than a slice.
    OtherRef,
    /// Not a reference.
    NotRef,
}

/// A parameter of the test function, as far as the checks read it.
pub enum ParamShape {
    /// `self` in one of its forms.
    Receiver,
    /// A typed parameter with its attributes.
    Typed(TypeShape, Vec<AttrShape>),
}

/// Why an attribute of the parameter was refused.
#[derive(Debug, Clone, Copy, PartialEq, Eq)]
pub enum AttrError {
    /// Not `src`.
    UnknownAttribute,
    /// `src` but not `name = value`.
    NotNameValue,
    /// A path of more than one segment.
    NotSimpleIdent,
    /// A string literal that does not read as an identifier.
    InvalidIdentifier,
    /// Neither a path nor a string literal.
    NotIdentOrString,
}

/// Why the test function was refused.
#[derive(Debug, Clone, Copy, PartialEq, Eq)]
pub enum TestFnError {
    /// The function does not take exactly one parameter.
    NotOneParameter,
    /// The parameter is `self`.
    InvalidArgument,
    /// The parameter's type is not a reference.
    NotAReference,
    /// The parameter's type is a reference, but not to a slice.
    NotASlice,
    /// The attribute at this position among the parameter's attributes was refused.
    Attr(usize, AttrError),
    /// The parameter has no `#[src = ..]` attribute.
    MissingSrc,
}

/// The text that describes a refused attribute.
pub open spec fn attr_error_text(e: AttrError) -> Seq<char> {
    match e {
        AttrError::UnknownAttribute => "Unknown attribute"@,
        AttrError::NotNameValue => "Expected a name-value pair"@,
        AttrError::NotSimpleIdent => "Expected a simple identifier"@,
        AttrError::InvalidIdentifier => "Invalid identifier"@,
        AttrError::NotIdentOrString => "Expected an identifier or a string literal"@,
    }
}

/// The text that describes a refused test function.
pub open spec fn test_fn_error_text(e: TestFnError) -> Seq<char> {
    match e {
        TestFnError::NotOneParameter => "Test functions must take in exactly one parameter"@,
        TestFnError::InvalidArgument => "Invalid function argument"@,
        TestFnError::NotAReference => "Parameter must be a reference to a slice (&[T])"@,
        TestFnError::NotASlice => "Expected a slice [T]"@,
        TestFnError::Attr(_, a) => attr_error_text(a),
        TestFnError::MissingSrc => "Test function parameter must have a #[src=\"...\"] attribute"@,
    }
}

impl TestFnError {
    /// Describes the refusal in words.
    pub fn message(&self) -> (text: &'static str)
        ensures
            text@ == test_fn_error_text(*self),
    {
        match self {
            TestFnError::NotOneParameter => "Test functions must take in exactly one parameter",
            TestFnError::InvalidArgument => "Invalid function argument",
            TestFnError::NotAReference => "Parameter must be a reference to a slice (&[T])",
            TestFnError::NotASlice => "Expected a slice [T]",
            TestFnError::Attr(_, a) => match a {
                AttrError::UnknownAttribute => "Unknown attribute",
                AttrError::NotNameValue => "Expected a name-value pair",
                AttrError::NotSimpleIdent => "Expected a simple identifier",
                AttrError::InvalidIdentifier => "Invalid identifier",
                AttrError::NotIdentOrString => "Expected an identifier or a string literal",
            },
            TestFnError::MissingSrc => "Test function parameter must have a #[src=\"...\"] attribute",
        }
    }
}

/// The name that an attribute gives the data source function, or why it is
/// refused: only `#[src = ident]` and `#[src = "ident"]` are taken.
pub open spec fn spec_src_attr(attr: AttrShape) -> Result<Seq<char>, AttrError> {
    match attr {
        AttrShape::Other => Err(AttrError::UnknownAttribute),
        AttrShape::SrcOther => Err(AttrError::NotNameValue),
        AttrShape::SrcNameValue(value) => match value {
            AttrValue::Ident(name) => Ok(name@),
            AttrValue::LongPath => Err(AttrError::NotSimpleIdent),
            AttrValue::Str(Some(name)) => Ok(name@),
            AttrValue::Str(None) => Err(AttrError::InvalidIdentifier),
            AttrValue::Other => Err(AttrError::NotIdentOrString),
        },
    }
}

/// The name that an attribute gives the data source function, or why it is refused.
pub fn src_attr(attr: &AttrShape) -> (r: Result<String, AttrError>)
    ensures
        match r {
            Ok(name) => spec_src_attr(*attr) == Ok::<Seq<char>, AttrError>(name@),
            Err(e) => spec_src_attr(*attr) == Err::<Seq<char>, AttrError>(e),
        },
{
    match attr {
        AttrShape::Other => Err(AttrError::UnknownAttribute),
        AttrShape::SrcOther => Err(AttrError::NotNameValue),
        AttrShape::SrcNameValue(value) => match value {
            AttrValue::Ident(name) => Ok(name.clone()),
            AttrValue::LongPath => Err(AttrError::NotSimpleIdent),
            AttrValue::Str(Some(name)) => Ok(name.clone()),
            AttrValue::Str(None) => Err(AttrError::InvalidIdentifier),
            AttrValue::Other => Err(AttrError::NotIdentOrString),
        },
    }
}

/// Reads the first `n` attributes of the parameter: the position and reason of the
/// first refused one, or else the name given by the last of them, if any.
pub open spec fn scan_attrs(attrs: Seq<AttrShape>, n: nat) -> Result<Option<Seq<char>>, (nat, AttrError)>
    decreases n,
{
    if n == 0 {
        Ok(None)
    } else {
        match scan_attrs(attrs, (n - 1) as nat) {
            Err(e) => Err(e),
            Ok(prev) => match spec_src_attr(attrs[n - 1]) {
                Err(a) => Err(((n - 1) as nat, a)),
                Ok(name) => Ok(Some(name)),
            },
        }
    }
}

/// The name of the data source function that a test function's parameters give,
/// or why the function is refused.
pub open spec fn spec_check_test_fn(params: Seq<ParamShape>) -> Result<Seq<char>, TestFnError> {
    if params.len() != 1 {
        Err(TestFnError::NotOneParameter)
    } else {
        match params[0] {
            ParamShape::Receiver => Err(TestFnError::InvalidArgument),
            ParamShape::Typed(TypeShape::NotRef, _) => Err(TestFnError::NotAReference),
            ParamShape::Typed(TypeShape::OtherRef, _) => Err(TestFnError::NotASlice),
            ParamShape::Typed(TypeShape::SliceRef, attrs) => match scan_attrs(attrs@, attrs@.len()) {
                Err((i, a)) => Err(TestFnError::Attr(i as usize, a)),
                Ok(None) => Err(TestFnError::MissingSrc),
                Ok(Some(name)) => Ok(name),
            },
        }
    }
}

/// The name of the data source function that a test function's parameters give,
/// or why the function is refused.
pub fn check_test_fn(params: &Vec<ParamShape>) -> (r: Result<String, TestFnError>)
    ensures
        match r {
            Ok(name) => spec_check_test_fn(params@) == Ok::<Seq<char>, TestFnError>(name@),
            Err(e) => spec_check_test_fn(params@) == Err::<Seq<char>, TestFnError>(e),
        },
{
    if params.len() != 1 {
        return Err(TestFnError::NotOneParameter);
    }
    match &params[0] {
        ParamShape::Receiver => Err(TestFnError::InvalidArgument),
        ParamShape::Typed(TypeShape::NotRef, _) => Err(TestFnError::NotAReference),
        ParamShape::Typed(TypeShape::OtherRef, _) => Err(TestFnError::NotASlice),
        ParamShape::Typed(TypeShape::SliceRef, attrs) => {
            let mut name: Option<String> = None;
            let mut i: usize = 0;
            while i < attrs.len()
                invariant
                    i <= attrs@.len(),
                    params@.len() == 1,
                    params@[0] == ParamShape::Typed(TypeShape::SliceRef, *attrs),
                    scan_attrs(attrs@, i as nat) == Ok::<Option<Seq<char>>, (nat, AttrError)>(
                        match name {
                            Some(s) => Some(s@),
                            None => None,
                        },
                    ),
                decreases attrs@.len() - i,
            {
                match src_attr(&attrs[i]) {
                    Err(a) => {
                        proof {
                            lemma_scan_attrs_error_stays(attrs@, (i + 1) as nat, attrs@.len());
                        }
                        return Err(TestFnError::Attr(i, a));
                    },
                    Ok(s) => {
                        name = Some(s);
                    },
                }
                i = i + 1;
            }
            match name {
                None => Err(TestFnError::MissingSrc),
                Some(s) => Ok(s),
            }
        },
    }
}

/// Once an attribute is refused, reading further does not change the refusal.
pub proof fn lemma_scan_attrs_error_stays(attrs: Seq<AttrShape>, m: nat, n: nat)
    requires
        m <= n,
        scan_attrs(attrs, m) is Err,
    ensures
        scan_attrs(attrs, n) == scan_attrs(attrs, m),
    decreases n - m,
{
    if m < n {
        lemma_scan_attrs_error_stays(attrs, m, (n - 1) as nat);
    }
}

} // verus!
