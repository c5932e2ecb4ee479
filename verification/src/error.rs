use vstd::prelude::*;
use vstd::string::*;

verus! {

/// Error raised by the S3 operations: a human-readable message.
#[derive(Debug, Clone, PartialEq, Eq)]
pub struct S3ExampleError(pub String);

/// The message of an error reported by the service: its code and its reason,
/// each replaced by a placeholder when the service gave none.
pub open spec fn metadata_message(code: Option<Seq<char>>, message: Option<Seq<char>>) -> Seq<char> {
    let c = match code {
        Some(c) => c,
        None => "unknown code"@,
    };
    let m = match message {
        Some(m) => m,
        None => "missing reason"@,
    };
    c + ": "@ + m
}

/// The view of an optional borrowed string.
pub open spec fn opt_str_view(s: Option<&str>) -> Option<Seq<char>> {
    match s {
        Some(s) => Some(s@),
        None => None,
    }
}

impl S3ExampleError {
    /// The error's message.
    pub open spec fn msg(&self) -> Seq<char> {
        self.0@
    }

    /// The error for a failure that the service reported with an optional
    /// error code and an optional reason.
    pub fn from_metadata(code: Option<&str>, message: Option<&str>) -> (err: S3ExampleError)
        ensures
            err.msg() == metadata_message(opt_str_view(code), opt_str_view(message)),
    {
        let c = match code {
            Some(c) => String::from_str(c),
            None => String::from_str("unknown code"),
        };
        let m = match message {
            Some(m) => m,
            None => "missing reason",
        };
        S3ExampleError(c.concat(": ").concat(m))
    }

    /// The text shown for this error.
    pub fn to_string(&self) -> (s: String)
        ensures
            s@ == self.msg(),
    {
        self.0.clone()
    }
}

/// An error message gives the service's code, then ": ", then its reason;
/// "unknown code" and "missing reason" stand for what the service left out.
pub proof fn law_metadata_message(code: Seq<char>, message: Seq<char>)
    ensures
        metadata_message(Some(code), Some(message)) == code + ": "@ + message,
        metadata_message(None, Some(message)) == "unknown code"@ + ": "@ + message,
        metadata_message(Some(code), None) == code + ": "@ + "missing reason"@,
        metadata_message(None, None) == "unknown code"@ + ": "@ + "missing reason"@,
{
}

} // verus!
