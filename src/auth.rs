use vstd::prelude::*;

verus! {

/// The request header that carries the credential.
pub const AUTH_HEADER: &'static str = "Authorization";

/// The HTTP status sent back, in place of the protocol upgrade, to a caller
/// whose credential does not match.
pub const UNAUTHORIZED_STATUS: u16 = 401;

/// The byte string held by an optional borrowed value, if any.
pub open spec fn opt_bytes(o: Option<&[u8]>) -> Option<Seq<u8>> {
    match o {
        Some(s) => Some(s@),
        None => None,
    }
}

/// Whether a request passes: always when no credential is configured,
/// otherwise only when the request presents exactly the configured value.
pub open spec fn gate_accepts(expected: Option<Seq<u8>>, presented: Option<Seq<u8>>) -> bool {
    match expected {
        None => true,
        Some(e) => presented == Some(e),
    }
}

/// The decision taken on a handshake request.
#[derive(Clone, Copy, Debug, PartialEq, Eq, Structural)]
pub enum Verdict {
    Accept,
    Reject,
}

impl Verdict {
    /// The status that replaces the upgrade response, if the upgrade is refused.
    pub fn refusal_status(&self) -> (r: Option<u16>)
        ensures
            *self == Verdict::Accept ==> r.is_none(),
            *self == Verdict::Reject ==> r == Some(UNAUTHORIZED_STATUS),
    {
        match self {
            Verdict::Accept => None,
            Verdict::Reject => Some(UNAUTHORIZED_STATUS),
        }
    }
}

/// Whether two byte strings are identical, compared byte for byte.
pub fn bytes_equal(a: &[u8], b: &[u8]) -> (r: bool)
    ensures
        r == (a@ == b@),
{
    if a.len() != b.len() {
        return false;
    }
    let mut i: usize = 0;
    while i < a.len()
        invariant
            i <= a.len(),
            a.len() == b.len(),
            forall|j: int| 0 <= j < i ==> a@[j] == b@[j],
        decreases a.len() - i,
    {
        if a[i] != b[i] {
            return false;
        }
        i = i + 1;
    }
    assert(a@ =~= b@);
    true
}

/// Decides a handshake request from the configured credential and the value
/// of the request's authorization header (`None` where the header is absent).
/// The comparison is exact: no trimming, no case folding.
pub fn check_credential(expected: Option<&[u8]>, presented: Option<&[u8]>) -> (r: Verdict)
    ensures
        (r == Verdict::Accept) == gate_accepts(opt_bytes(expected), opt_bytes(presented)),
{
    match expected {
        None => Verdict::Accept,
        Some(e) => match presented {
            None => Verdict::Reject,
            Some(p) => {
                if bytes_equal(e, p) {
                    Verdict::Accept
                } else {
                    Verdict::Reject
                }
            },
        },
    }
}

/// With no configured credential, every request is let in, whatever header
/// it carries or lacks.
pub proof fn lemma_open_gate_accepts_all(presented: Option<Seq<u8>>)
    ensures
        gate_accepts(None, presented),
{
}

/// With a configured credential, a request is let in exactly when it presents
/// that very value; a request without the header is turned away.
pub proof fn lemma_closed_gate_exact(expected: Seq<u8>, presented: Option<Seq<u8>>)
    ensures
        gate_accepts(Some(expected), presented) <==> presented == Some(expected),
        !gate_accepts(Some(expected), None),
{
}

} // verus!
