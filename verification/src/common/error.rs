//! Why a bucket could not be discovered or sized.
use vstd::prelude::*;
use vstd::string::StringExecFns;

verus! {

/// A failure of discovery or sizing. Nothing is recovered from: each is handed
/// to the caller as it arose.
#[derive(Debug, Clone, PartialEq, Eq)]
pub enum Error {
    /// A request failed; the text is the transport's own.
    Transport(String),
    /// A response arrived that answers another request than the one sent.
    UnexpectedResponse,
    /// No statistics query for the bucket returned a data point.
    NoUsableData,
    /// Reported sizes added up to less than nothing.
    NegativeSize,
    /// Reported sizes added up to more than the total can hold.
    SizeOverflow,
}

/// The model of an [`Error`]: the same cases, text as characters.
pub enum ErrorModel {
    Transport(Seq<char>),
    UnexpectedResponse,
    NoUsableData,
    NegativeSize,
    SizeOverflow,
}

impl DeepView for Error {
    type V = ErrorModel;

    open spec fn deep_view(&self) -> ErrorModel {
        match self {
            Error::Transport(text) => ErrorModel::Transport(text@),
            Error::UnexpectedResponse => ErrorModel::UnexpectedResponse,
            Error::NoUsableData => ErrorModel::NoUsableData,
            Error::NegativeSize => ErrorModel::NegativeSize,
            Error::SizeOverflow => ErrorModel::SizeOverflow,
        }
    }
}

impl Error {
    /// The text shown for each case but [`Error::Transport`], which shows its own.
    pub open spec fn fixed_message(self) -> Seq<char> {
        match self {
            Error::Transport(text) => text@,
            Error::UnexpectedResponse => "Response does not answer the request that was sent"@,
            Error::NoUsableData => "Failed to fetch any CloudWatch datapoints!"@,
            Error::NegativeSize => "Reported sizes add up to a negative size"@,
            Error::SizeOverflow => "Reported sizes add up to more than a size can hold"@,
        }
    }

    /// What to show the user for this failure.
    pub fn message(&self) -> (text: String)
        ensures
            text@ == self.fixed_message(),
    {
        match self {
            Error::Transport(text) => text.clone(),
            Error::UnexpectedResponse => String::from_str(
                "Response does not answer the request that was sent",
            ),
            Error::NoUsableData => String::from_str("Failed to fetch any CloudWatch datapoints!"),
            Error::NegativeSize => String::from_str("Reported sizes add up to a negative size"),
            Error::SizeOverflow => String::from_str(
                "Reported sizes add up to more than a size can hold",
            ),
        }
    }
}

} // verus!
