use vstd::prelude::*;

use forensic_rs::prelude::ForensicError;

verus! {

/// std's I/O error, carried through unopened.
#[verifier::external_type_specification]
#[verifier::external_body]
pub struct ExIoError(std::io::Error);

/// forensic_rs's registry error, carried through unopened.
#[verifier::external_type_specification]
#[verifier::external_body]
pub struct ExForensicError(ForensicError);

/// Everything that can go wrong while locating or running the signing tool.
#[derive(Debug)]
pub enum SignToolError {
    /// The filesystem or the child process could not be used.
    Io(std::io::Error),
    /// The tool ran and reported failure.
    SignToolError { exit_code: i32, stderr: String },
    /// Discovery failed, or the parameters cannot be turned into arguments.
    Other(String),
}

impl SignToolError {
    /// The error that a registry failure reported by forensic_rs becomes.
    pub fn from_forensic(err: &ForensicError) -> (r: SignToolError)
        ensures
            r is Other,
    {
        SignToolError::Other(forensic_debug_text(err))
    }

    /// Whether this is the error of a tool run that ended in failure, with
    /// the given exit code and standard-error text.
    pub open spec fn is_tool_failure(self, code: i32, text: Seq<char>) -> bool {
        match self {
            SignToolError::SignToolError { exit_code, stderr } => exit_code == code && stderr@ == text,
            _ => false,
        }
    }

    /// Whether this is a descriptive error carrying the given message.
    pub open spec fn is_other_with(self, msg: Seq<char>) -> bool {
        match self {
            SignToolError::Other(m) => m@ == msg,
            _ => false,
        }
    }
}

/// Relies on the `Debug` impl of forensic_rs's `ForensicError` for a
/// readable description of the registry failure.
#[verifier::external_body]
fn forensic_debug_text(err: &ForensicError) -> String {
    format!("{:?}", err)
}

impl From<std::io::Error> for SignToolError {
    fn from(err: std::io::Error) -> SignToolError {
        SignToolError::Io(err)
    }
}

impl vstd::std_specs::convert::FromSpecImpl<std::io::Error> for SignToolError {
    open spec fn obeys_from_spec() -> bool {
        true
    }

    open spec fn from_spec(err: std::io::Error) -> SignToolError {
        SignToolError::Io(err)
    }
}

impl From<ForensicError> for SignToolError {
    /// A registry failure becomes a descriptive error.
    fn from(err: ForensicError) -> (r: SignToolError)
        ensures
            r is Other,
    {
        SignToolError::from_forensic(&err)
    }
}

/// The message is the outside error's `Debug` text, which nothing here can
/// state: the variant is given in the `ensures` of `from`, and `from_spec` is
/// not used, as `obeys_from_spec` is false.
impl vstd::std_specs::convert::FromSpecImpl<ForensicError> for SignToolError {
    open spec fn obeys_from_spec() -> bool {
        false
    }

    open spec fn from_spec(err: ForensicError) -> SignToolError {
        arbitrary()
    }
}

impl From<String> for SignToolError {
    fn from(err: String) -> SignToolError {
        SignToolError::Other(err)
    }
}

impl vstd::std_specs::convert::FromSpecImpl<String> for SignToolError {
    open spec fn obeys_from_spec() -> bool {
        true
    }

    open spec fn from_spec(err: String) -> SignToolError {
        SignToolError::Other(err)
    }
}

} // verus!
