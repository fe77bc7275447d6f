use vstd::prelude::*;

use crate::err::SignToolError;
use crate::params::{algorithm_text, timestamp_url_text, FileCertParams, SignParams};

verus! {

/// The message of the error for parameters that name no identity.
pub open spec fn missing_parameters_text() -> Seq<char> {
    "Cannot sign an executable without parameters"@
}

/// The message of the error for the provider identity, which has no
/// argument form.
pub open spec fn csp_unsupported_text() -> Seq<char> {
    "Signing through a cryptographic service provider is not supported"@
}

/// The views of a sequence of strings.
pub open spec fn texts(v: Seq<String>) -> Seq<Seq<char>> {
    v.map_values(|s: String| s@)
}

/// The tokens that the signing tool is given for an identity, before the
/// file to sign; `None` where the identity has no argument form.
pub open spec fn sign_tokens(p: SignParams) -> Option<Seq<Seq<char>>> {
    match p {
        SignParams::Thumbprint(t) => Some(
            seq![
                "sign"@,
                "/a"@,
                "/fd"@,
                algorithm_text(t.digest_algorithm),
                "/sha1"@,
                t.certificate_thumbprint@,
                "/t"@,
                timestamp_url_text(t.timestamp_url),
            ],
        ),
        SignParams::File(f) => Some(
            seq![
                "sign"@,
                "/a"@,
                "/fd"@,
                algorithm_text(f.digest_algorithm),
                "/f"@,
                f.certificate_location@,
                "/t"@,
                timestamp_url_text(f.timestamp_url),
            ] + match f.certificate_password {
                Some(pw) => seq!["/p"@, pw@],
                None => Seq::empty(),
            },
        ),
        SignParams::Csp(_) => None,
        SignParams::Unset => None,
    }
}

fn push_text(args: &mut Vec<String>, s: &str)
    ensures
        texts(final(args)@) == texts(old(args)@).push(s@),
{
    args.push(String::from_str(s));
    proof {
        assert(texts(args@) =~= texts(old(args)@).push(s@));
    }
}

/// Translates an identity into the signing tool's arguments.
pub fn args_from_params(params: &SignParams) -> (r: Result<Vec<String>, SignToolError>)
    ensures
        match r {
            Ok(v) => sign_tokens(*params) == Some(texts(v@)),
            Err(e) => sign_tokens(*params) is None && match *params {
                SignParams::Csp(_) => e.is_other_with(csp_unsupported_text()),
                _ => e.is_other_with(missing_parameters_text()),
            },
        },
        sign_tokens(*params) is Some ==> r is Ok,
{
    match params {
        SignParams::Thumbprint(t) => {
            let mut args: Vec<String> = Vec::new();
            push_text(&mut args, "sign");
            push_text(&mut args, "/a");
            push_text(&mut args, "/fd");
            push_text(&mut args, t.digest_algorithm.as_str());
            push_text(&mut args, "/sha1");
            push_text(&mut args, t.certificate_thumbprint.as_str());
            push_text(&mut args, "/t");
            push_text(&mut args, t.timestamp_url.url());
            proof {
                assert(texts(args@) =~= sign_tokens(*params).unwrap());
            }
            Ok(args)
        },
        SignParams::File(f) => {
            let mut args: Vec<String> = Vec::new();
            push_text(&mut args, "sign");
            push_text(&mut args, "/a");
            push_text(&mut args, "/fd");
            push_text(&mut args, f.digest_algorithm.as_str());
            push_text(&mut args, "/f");
            push_text(&mut args, f.certificate_location.as_str());
            push_text(&mut args, "/t");
            push_text(&mut args, f.timestamp_url.url());
            match &f.certificate_password {
                Some(password) => {
                    push_text(&mut args, "/p");
                    push_text(&mut args, password.as_str());
                },
                None => {},
            }
            proof {
                assert(texts(args@) =~= sign_tokens(*params).unwrap());
            }
            Ok(args)
        },
        SignParams::Csp(_) => Err(
            SignToolError::Other(
                String::from_str("Signing through a cryptographic service provider is not supported"),
            ),
        ),
        SignParams::Unset => Err(
            SignToolError::Other(String::from_str("Cannot sign an executable without parameters")),
        ),
    }
}


/// The tokens that the signing tool is given to sign `target` with an
/// identity; `None` where the identity has no argument form.
pub open spec fn command_tokens(p: SignParams, target: Seq<char>) -> Option<Seq<Seq<char>>> {
    match sign_tokens(p) {
        Some(t) => Some(t.push(target)),
        None => None,
    }
}

/// The full argument list for signing `target`: the identity's tokens, then
/// the file to sign.
pub fn sign_args(target: &str, params: &SignParams) -> (r: Result<Vec<String>, SignToolError>)
    ensures
        match r {
            Ok(v) => command_tokens(*params, target@) == Some(texts(v@)),
            Err(e) => command_tokens(*params, target@) is None && match *params {
                SignParams::Csp(_) => e.is_other_with(csp_unsupported_text()),
                _ => e.is_other_with(missing_parameters_text()),
            },
        },
        command_tokens(*params, target@) is Some ==> r is Ok,
{
    let mut args = args_from_params(params)?;
    push_text(&mut args, target);
    Ok(args)
}

/// What the tool's exit reports: success exactly on code 0, and otherwise
/// a failure with the code (-1 where none was reported) and the error text.
pub open spec fn exit_reported(code: Option<i32>, text: Seq<char>, r: Result<(), SignToolError>) -> bool {
    match code {
        Some(c) => if c == 0 {
            r is Ok
        } else {
            r matches Err(e) && e.is_tool_failure(c, text)
        },
        None => r matches Err(e) && e.is_tool_failure(-1i32, text),
    }
}

/// Classifies a finished run of the tool by its exit code and the text it
/// wrote to standard error.
pub fn exit_outcome(code: Option<i32>, stderr: String) -> (r: Result<(), SignToolError>)
    ensures
        exit_reported(code, stderr@, r),
{
    match code {
        Some(0) => Ok(()),
        Some(c) => Err(SignToolError::SignToolError { exit_code: c, stderr }),
        None => Err(SignToolError::SignToolError { exit_code: -1, stderr }),
    }
}

/// What decoding bytes as UTF-8, with invalid sequences replaced, gives.
pub uninterp spec fn lossy_text_of(b: Seq<u8>) -> Seq<char>;

/// Relies on `String::from_utf8_lossy`: the text depends on the bytes alone.
#[verifier::external_body]
fn decode_lossy(b: &[u8]) -> (r: String)
    ensures
        r@ == lossy_text_of(b@),
{
    String::from_utf8_lossy(b).into_owned()
}

/// Classifies a finished run of the tool by its exit code and the raw bytes
/// it wrote to standard error.
pub fn exit_outcome_bytes(code: Option<i32>, stderr: &[u8]) -> (r: Result<(), SignToolError>)
    ensures
        exit_reported(code, lossy_text_of(stderr@), r),
{
    exit_outcome(code, decode_lossy(stderr))
}

/// A located signing tool.
pub struct SignTool {
    signtool_path: Vec<String>,
}

impl View for SignTool {
    type V = Seq<Seq<char>>;

    /// The components of the tool's path.
    closed spec fn view(&self) -> Seq<Seq<char>> {
        texts(self.signtool_path@)
    }
}

impl SignTool {
    /// The tool at the path made of these components.
    pub fn at(signtool_path: Vec<String>) -> (r: SignTool)
        ensures
            r@ == texts(signtool_path@),
    {
        SignTool { signtool_path }
    }

    /// The components of the tool's path.
    pub fn path_components(&self) -> (r: &Vec<String>)
        ensures
            texts(r@) == self@,
    {
        &self.signtool_path
    }
}


/// The same file identity, with a password.
pub open spec fn with_password(f: FileCertParams, password: String) -> FileCertParams {
    FileCertParams { certificate_password: Some(password), ..f }
}

/// A password adds exactly `/p <password>` at the end of a file identity's
/// tokens, and nothing else.
pub proof fn lemma_password_appends(f: FileCertParams, password: String)
    requires
        f.certificate_password is None,
    ensures
        sign_tokens(SignParams::File(with_password(f, password))) == Some(
            sign_tokens(SignParams::File(f)).unwrap() + seq!["/p"@, password@],
        ),
        sign_tokens(SignParams::File(with_password(f, password))).unwrap().len() == sign_tokens(
            SignParams::File(f),
        ).unwrap().len() + 2,
{
    assert(sign_tokens(SignParams::File(f)).unwrap() + Seq::<Seq<char>>::empty() =~= sign_tokens(
        SignParams::File(f),
    ).unwrap());
}

} // verus!
