use crate::error::Error;
use vstd::prelude::*;

verus! {

/// What `url::Host::parse` yields for a given input: `None` when the
/// input is not valid host syntax, otherwise the canonical
/// serialization of the parsed host (domain name or IP literal).
pub uninterp spec fn host_parse(s: Seq<char>) -> Option<Seq<char>>;

/// Relies on `url::Host::parse`: parses a domain name or IP literal per
/// the WHATWG URL host grammar, deterministically from the input string
/// alone. Its source rejects an empty host outright and accepts the
/// plain ASCII domain name "localhost" unchanged. A parsed host is
/// handed back as its canonical serialization, written by `format!`.
#[verifier::external_body]
fn parse_host_raw(s: &str) -> (r: Option<String>)
    ensures
        r is Some <==> host_parse(s@) is Some,
        r is Some ==> r.unwrap()@ == host_parse(s@).unwrap(),
        s@.len() == 0 ==> r is None,
        s@ == "localhost"@ ==> r is Some,
{
    match url::Host::parse(s) {
        Ok(h) => Some(format!("{}", h)),
        Err(_) => None,
    }
}

/// A syntactically valid host, held as the canonical serialization the
/// host parser produced. Only a successfully parsed string ever becomes
/// a `Hostname`, so a validated configuration cannot carry an
/// unparsable one.
#[derive(Clone, Debug)]
pub struct Hostname {
    text: String,
}

impl View for Hostname {
    type V = Seq<char>;

    closed spec fn view(&self) -> Seq<char> {
        self.text@
    }
}

impl Hostname {
    /// A hostname is well-formed when it is the serialization of some
    /// successfully parsed host string.
    pub open spec fn wf(&self) -> bool {
        exists|s: Seq<char>| host_parse(s) == Some(self@)
    }

    /// The canonical serialization of the host.
    pub fn as_str(&self) -> (r: &str)
        ensures
            r@ == self@,
    {
        self.text.as_str()
    }
}

/// Parses and validates a hostname: a domain name or IP literal is
/// accepted and returned in canonical form; anything else — the empty
/// string included — is rejected with `Error::InvalidHostname`.
pub fn parse_hostname(s: &str) -> (r: Result<Hostname, Error>)
    ensures
        r is Ok <==> host_parse(s@) is Some,
        r is Ok ==> r.unwrap().wf() && r.unwrap()@ == host_parse(s@).unwrap(),
        r is Err ==> r.unwrap_err() == Error::InvalidHostname,
        s@.len() == 0 ==> r is Err,
        s@ == "localhost"@ ==> r is Ok,
{
    match parse_host_raw(s) {
        Some(t) => {
            let h = Hostname { text: t };
            proof {
                assert(host_parse(s@) == Some(h@));
            }
            Ok(h)
        },
        None => Err(Error::InvalidHostname),
    }
}

} // verus!
