use vstd::prelude::*;

verus! {

/// Digest algorithm handed to the signing tool.
#[derive(Clone, Copy, Debug, PartialEq, Eq, Structural)]
pub enum SignAlgorithm {
    Sha512,
    Sha256,
    Sha1,
}

/// The token that names a digest algorithm on the tool's command line.
pub open spec fn algorithm_text(a: SignAlgorithm) -> Seq<char> {
    match a {
        SignAlgorithm::Sha512 => "SHA512"@,
        SignAlgorithm::Sha256 => "SHA256"@,
        SignAlgorithm::Sha1 => "SHA1"@,
    }
}

impl SignAlgorithm {
    /// The canonical upper-case name of the algorithm.
    pub fn as_str(&self) -> (r: &'static str)
        ensures
            r@ == algorithm_text(*self),
    {
        match self {
            SignAlgorithm::Sha512 => "SHA512",
            SignAlgorithm::Sha256 => "SHA256",
            SignAlgorithm::Sha1 => "SHA1",
        }
    }

    /// The canonical upper-case name of the algorithm, owned.
    pub fn to_string(&self) -> (r: String)
        ensures
            r@ == algorithm_text(*self),
    {
        String::from_str(self.as_str())
    }
}

impl From<SignAlgorithm> for &'static str {
    /// The canonical upper-case name of the algorithm.
    fn from(a: SignAlgorithm) -> (r: &'static str)
        ensures
            r@ == algorithm_text(a),
    {
        a.as_str()
    }
}

/// The result is stated in the `ensures` of `from`, over its view;
/// `from_spec` is not used, as `obeys_from_spec` is false.
impl vstd::std_specs::convert::FromSpecImpl<SignAlgorithm> for &'static str {
    open spec fn obeys_from_spec() -> bool {
        false
    }

    open spec fn from_spec(a: SignAlgorithm) -> &'static str {
        arbitrary()
    }
}

impl Default for SignAlgorithm {
    fn default() -> (r: SignAlgorithm)
        ensures
            r == SignAlgorithm::Sha256,
    {
        SignAlgorithm::Sha256
    }
}

/// The timestamp authority consulted while signing.
#[derive(Clone, Debug)]
pub enum TimestampUrl {
    Comodo,
    DigiCert,
    Other(String),
}

/// The URL of a timestamp authority: the two known services have fixed
/// addresses, any other one is used verbatim.
pub open spec fn timestamp_url_text(t: TimestampUrl) -> Seq<char> {
    match t {
        TimestampUrl::DigiCert => "http://timestamp.digicert.com"@,
        TimestampUrl::Comodo => "http://timestamp.comodoca.com"@,
        TimestampUrl::Other(v) => v@,
    }
}

/// What lower-casing a string gives.
pub uninterp spec fn lower_of(s: Seq<char>) -> Seq<char>;

/// Relies on `str::to_lowercase`: its result depends on the characters alone.
#[verifier::external_body]
fn lowercase(s: &str) -> (r: String)
    ensures
        r@ == lower_of(s@),
{
    s.to_lowercase()
}

/// `r` is what a name parses to, given the name (`raw`) and its lower-cased
/// form (`lowered`): the two known authorities by name, anything else kept
/// as it was written.
pub open spec fn parsed_timestamp(r: TimestampUrl, lowered: Seq<char>, raw: Seq<char>) -> bool {
    if lowered == "comodo"@ {
        r is Comodo
    } else if lowered == "digicert"@ {
        r is DigiCert
    } else {
        match r {
            TimestampUrl::Other(v) => v@ == raw,
            _ => false,
        }
    }
}

impl TimestampUrl {
    /// Classifies a name whose lower-cased form is already known.
    pub fn from_lowered(lowered: &str, raw: String) -> (r: TimestampUrl)
        ensures
            parsed_timestamp(r, lowered@, raw@),
    {
        let lowered = String::from_str(lowered);
        if lowered == String::from_str("comodo") {
            TimestampUrl::Comodo
        } else if lowered == String::from_str("digicert") {
            TimestampUrl::DigiCert
        } else {
            TimestampUrl::Other(raw)
        }
    }

    /// Parses a timestamp authority, ignoring case for the known names.
    pub fn parse(v: String) -> (r: TimestampUrl)
        ensures
            parsed_timestamp(r, lower_of(v@), v@),
    {
        let lowered = lowercase(v.as_str());
        TimestampUrl::from_lowered(lowered.as_str(), v)
    }

    /// The URL that the signing tool is given for this authority.
    pub fn url(&self) -> (r: &str)
        ensures
            r@ == timestamp_url_text(*self),
    {
        match self {
            TimestampUrl::DigiCert => "http://timestamp.digicert.com",
            TimestampUrl::Comodo => "http://timestamp.comodoca.com",
            TimestampUrl::Other(v) => v.as_str(),
        }
    }
}

impl Default for TimestampUrl {
    fn default() -> (r: TimestampUrl)
        ensures
            r is Comodo,
    {
        TimestampUrl::Comodo
    }
}

impl PartialEq for TimestampUrl {
    fn eq(&self, o: &TimestampUrl) -> (r: bool) {
        match self {
            TimestampUrl::Comodo => matches!(o, TimestampUrl::Comodo),
            TimestampUrl::DigiCert => matches!(o, TimestampUrl::DigiCert),
            TimestampUrl::Other(a) => match o {
                TimestampUrl::Other(b) => a.eq(b),
                _ => false,
            },
        }
    }
}

impl vstd::std_specs::cmp::PartialEqSpecImpl for TimestampUrl {
    open spec fn obeys_eq_spec() -> bool {
        true
    }

    open spec fn eq_spec(&self, o: &TimestampUrl) -> bool {
        match (*self, *o) {
            (TimestampUrl::Comodo, TimestampUrl::Comodo) => true,
            (TimestampUrl::DigiCert, TimestampUrl::DigiCert) => true,
            (TimestampUrl::Other(a), TimestampUrl::Other(b)) => a@ == b@,
            _ => false,
        }
    }
}

impl<'a> From<&'a str> for TimestampUrl {
    /// Parses a timestamp authority, ignoring case for the known names.
    fn from(v: &'a str) -> (r: TimestampUrl)
        ensures
            parsed_timestamp(r, lower_of(v@), v@),
    {
        TimestampUrl::parse(String::from_str(v))
    }
}

/// The conversion's result is stated by `parsed_timestamp` in the `ensures`
/// of `from`; `from_spec` is not used, as `obeys_from_spec` is false.
impl<'a> vstd::std_specs::convert::FromSpecImpl<&'a str> for TimestampUrl {
    open spec fn obeys_from_spec() -> bool {
        false
    }

    open spec fn from_spec(v: &'a str) -> TimestampUrl {
        arbitrary()
    }
}

impl From<String> for TimestampUrl {
    /// Parses a timestamp authority, ignoring case for the known names.
    fn from(v: String) -> (r: TimestampUrl)
        ensures
            parsed_timestamp(r, lower_of(v@), v@),
    {
        TimestampUrl::parse(v)
    }
}

/// The conversion's result is stated by `parsed_timestamp` in the `ensures`
/// of `from`; `from_spec` is not used, as `obeys_from_spec` is false.
impl vstd::std_specs::convert::FromSpecImpl<String> for TimestampUrl {
    open spec fn obeys_from_spec() -> bool {
        false
    }

    open spec fn from_spec(v: String) -> TimestampUrl {
        arbitrary()
    }
}

/// Sign with a certificate from the store, picked by its thumbprint.
#[derive(Clone, Debug, Default)]
pub struct ThumbprintParams {
    pub digest_algorithm: SignAlgorithm,
    /// Thumbprint of the certificate in SHA1 format
    pub certificate_thumbprint: String,
    pub timestamp_url: TimestampUrl,
}

/// Sign with a certificate file, optionally protected by a password.
#[derive(Clone, Debug, Default)]
pub struct FileCertParams {
    pub digest_algorithm: SignAlgorithm,
    /// Disk location of the Certificate File
    pub certificate_location: String,
    pub certificate_password: Option<String>,
    pub timestamp_url: TimestampUrl,
}

/// Sign using a cryptographic service provider.
#[derive(Clone, Debug, Default)]
pub struct CspParams {
    pub name: String,
    pub keypair_alias: String,
    pub digest_algorithm: SignAlgorithm,
    /// Disk location of the Certificate File
    pub certificate_location: String,
    pub timestamp_url: TimestampUrl,
    pub timestamp_digest_algorithm: SignAlgorithm,
}

/// The identity to sign with; `Unset` means that none was configured.
#[derive(Clone, Debug)]
pub enum SignParams {
    Thumbprint(ThumbprintParams),
    File(FileCertParams),
    Csp(CspParams),
    Unset,
}

impl Default for SignParams {
    fn default() -> (r: SignParams)
        ensures
            r is Unset,
    {
        SignParams::Unset
    }
}

} // verus!
