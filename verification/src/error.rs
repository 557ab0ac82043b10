use vstd::prelude::*;

verus! {

/// Errors that can occur during the BOAST process.
#[derive(Debug, Clone, PartialEq)]
pub enum Error {
    /// The run reached its time limit before enough evidence was gathered.
    TimedOut,
    /// The data source had no further dataset to hand out.
    DataSourceExhausted,
    /// An internal failure, with a description.
    Internal(String),
}

/// The text that describes an error to a user.
pub open spec fn error_text(e: Error) -> Seq<char> {
    match e {
        Error::TimedOut => "Test timed out"@,
        Error::DataSourceExhausted => "Data source exhausted"@,
        Error::Internal(msg) => "Internal error: "@ + msg@,
    }
}

impl Error {
    /// Describes the error in words, as its `Display` text does.
    pub fn message(&self) -> (text: String)
        ensures
            text@ == error_text(*self),
    {
        match self {
            Error::TimedOut => String::from_str("Test timed out"),
            Error::DataSourceExhausted => String::from_str("Data source exhausted"),
            Error::Internal(msg) => {
                let mut text = String::from_str("Internal error: ");
                text.append(msg.as_str());
                text
            },
        }
    }
}

} // verus!
