//! Backend selection: the pure policy that maps the bytes observed by a
//! bounded, non-consuming look-ahead (or the absence of any bytes) to the
//! backend endpoint a session is relayed to.
//!
//! The policy is stated on the raw bytes. It agrees with stating it on a
//! replacement-decoded text of the peek: the banner it looks for is plain
//! ASCII, and ASCII bytes pass any such decoding unchanged, one for one.

use vstd::prelude::*;

use crate::scan::contains_seq;
use crate::scan::contains_bytes;

verus! {

/// A fixed backend endpoint. `Fallback` is the default data backend,
/// `Alternate` the other data backend, and `Control` the endpoint a
/// control-channel upgrade is handed to.
#[derive(Clone, Copy, Debug, PartialEq, Eq, Structural)]
pub enum Backend {
    Fallback,
    Alternate,
    Control,
}

impl Backend {
    /// The host part of the endpoint address.
    pub fn host(&self) -> (r: &'static str)
        ensures
            *self == Backend::Control ==> r@ == "0.0.0.0"@,
            *self != Backend::Control ==> r@ == "127.0.0.1"@,
    {
        match self {
            Backend::Control => "0.0.0.0",
            _ => "127.0.0.1",
        }
    }

    /// The port part of the endpoint address.
    pub fn port(&self) -> (r: u16)
        ensures
            *self == Backend::Fallback ==> r == 22,
            *self != Backend::Fallback ==> r == 1194,
    {
        match self {
            Backend::Fallback => 22,
            _ => 1194,
        }
    }
}

/// The banner substring that marks a default-protocol client: `"SSH"`.
pub open spec fn ssh_token() -> Seq<u8> {
    seq!['S' as u8, 'S' as u8, 'H' as u8]
}

/// The selection policy: an empty peek (no signal) or a peek containing
/// `"SSH"` picks the fallback endpoint; any other payload picks the
/// alternate endpoint.
pub open spec fn selected_backend(peeked: Seq<u8>) -> Backend {
    if peeked.len() == 0 || contains_seq(peeked, ssh_token()) {
        Backend::Fallback
    } else {
        Backend::Alternate
    }
}

/// What a bounded look-ahead produced: bytes, nothing within the timeout,
/// or a failed read. The two non-data outcomes count as "no signal".
#[derive(Debug)]
pub enum PeekOutcome {
    Data(Vec<u8>),
    TimedOut,
    Failed,
}

/// The bytes an outcome contributes to the selection decision: a timeout
/// and a read failure both count as an empty payload.
pub open spec fn peeked_view(o: PeekOutcome) -> Seq<u8> {
    match o {
        PeekOutcome::Data(d) => d@,
        PeekOutcome::TimedOut => Seq::<u8>::empty(),
        PeekOutcome::Failed => Seq::<u8>::empty(),
    }
}

/// Select the backend for a peeked payload.
pub fn select_backend(peeked: &[u8]) -> (b: Backend)
    ensures
        b == selected_backend(peeked@),
{
    let mut needle: Vec<u8> = Vec::new();
    needle.push('S' as u8);
    needle.push('S' as u8);
    needle.push('H' as u8);
    proof {
        assert(needle@ =~= ssh_token());
    }
    if peeked.len() == 0 || contains_bytes(peeked, needle.as_slice()) {
        Backend::Fallback
    } else {
        Backend::Alternate
    }
}

/// Select the backend for a whole peek outcome, folding a timeout or a
/// failed read into the empty payload.
pub fn select_from_peek(o: &PeekOutcome) -> (b: Backend)
    ensures
        b == selected_backend(peeked_view(*o)),
{
    match o {
        PeekOutcome::Data(d) => select_backend(d.as_slice()),
        PeekOutcome::TimedOut => Backend::Fallback,
        PeekOutcome::Failed => Backend::Fallback,
    }
}

/// Every peeked payload that contains `"SSH"` selects the fallback
/// endpoint.
pub proof fn lemma_ssh_selects_fallback(peeked: Seq<u8>)
    requires
        contains_seq(peeked, ssh_token()),
    ensures
        selected_backend(peeked) == Backend::Fallback,
{
}

/// Every empty peeked payload (which is also what a timeout or a read
/// failure contributes) selects the fallback endpoint.
pub proof fn lemma_empty_selects_fallback(peeked: Seq<u8>)
    requires
        peeked.len() == 0,
    ensures
        selected_backend(peeked) == Backend::Fallback,
{
}

/// A peek without a signal — a timeout or a failed read — selects the
/// fallback endpoint, exactly as an empty payload does.
pub proof fn lemma_no_signal_selects_fallback(o: PeekOutcome)
    requires
        !(o is Data),
    ensures
        selected_backend(peeked_view(o)) == Backend::Fallback,
{
}

/// Every non-empty peeked payload without `"SSH"` selects the alternate
/// endpoint.
pub proof fn lemma_other_selects_alternate(peeked: Seq<u8>)
    requires
        peeked.len() > 0,
        !contains_seq(peeked, ssh_token()),
    ensures
        selected_backend(peeked) == Backend::Alternate,
{
}

/// The peek-based policy only ever picks a data backend; the control
/// endpoint is reached through the upgrade negotiation alone.
pub proof fn lemma_selector_never_picks_control(peeked: Seq<u8>)
    ensures
        selected_backend(peeked) != Backend::Control,
{
}

} // verus!
