//! Control-channel negotiation: detect, inside the first payload a client
//! sends, an in-band upgrade request. The payload is split on the blank-line
//! delimiter `"\n\n"` into candidate fragments, scanned left to right as the
//! splitter of the surrounding ecosystem does; a fragment matches when it
//! holds both the control marker `GET-CONTROL` and the upgrade marker
//! `Upgrade: websocket`, each compared ASCII-case-insensitively.

use vstd::prelude::*;

use crate::scan::contains_ci;
use crate::scan::range_contains_ci;

verus! {

/// The control marker, upper-cased: `GET-CONTROL`.
pub open spec fn control_token() -> Seq<u8> {
    seq![
        'G' as u8,
        'E' as u8,
        'T' as u8,
        '-' as u8,
        'C' as u8,
        'O' as u8,
        'N' as u8,
        'T' as u8,
        'R' as u8,
        'O' as u8,
        'L' as u8,
    ]
}

/// The upgrade marker, upper-cased: `UPGRADE: WEBSOCKET`.
pub open spec fn upgrade_token() -> Seq<u8> {
    seq![
        'U' as u8,
        'P' as u8,
        'G' as u8,
        'R' as u8,
        'A' as u8,
        'D' as u8,
        'E' as u8,
        ':' as u8,
        ' ' as u8,
        'W' as u8,
        'E' as u8,
        'B' as u8,
        'S' as u8,
        'O' as u8,
        'C' as u8,
        'K' as u8,
        'E' as u8,
        'T' as u8,
    ]
}

/// A fragment asks for the control channel when it holds both markers,
/// ASCII-case-insensitively.
pub open spec fn fragment_matches(f: Seq<u8>) -> bool {
    contains_ci(f, control_token()) && contains_ci(f, upgrade_token())
}

/// Left-to-right scan of `s` for a matching fragment. `start` is where the
/// fragment under inspection begins; `cur` is how far it has been scanned
/// without meeting the `"\n\n"` delimiter. The first delimiter at or after
/// `cur` ends the fragment; the scan then continues behind it.
pub open spec fn control_scan(s: Seq<u8>, start: int, cur: int) -> bool
    decreases s.len() - cur,
    when 0 <= start <= cur <= s.len()
{
    if cur + 2 > s.len() {
        fragment_matches(s.subrange(start, s.len() as int))
    } else if s[cur] == '\n' as u8 && s[cur + 1] == '\n' as u8 {
        fragment_matches(s.subrange(start, cur)) || control_scan(s, cur + 2, cur + 2)
    } else {
        control_scan(s, start, cur + 1)
    }
}

/// Some fragment of the payload, split on `"\n\n"`, asks for the control
/// channel.
pub open spec fn is_control_request(s: Seq<u8>) -> bool {
    control_scan(s, 0, 0)
}

/// Does `s[lo..hi]` hold both markers, ASCII-case-insensitively?
fn range_matches(s: &[u8], lo: usize, hi: usize, control: &[u8], upgrade: &[u8]) -> (r: bool)
    requires
        lo <= hi <= s@.len(),
        control@ == control_token(),
        upgrade@ == upgrade_token(),
    ensures
        r == fragment_matches(s@.subrange(lo as int, hi as int)),
{
    range_contains_ci(s, lo, hi, control) && range_contains_ci(s, lo, hi, upgrade)
}

/// Build the control marker as bytes.
fn control_token_bytes() -> (v: Vec<u8>)
    ensures
        v@ == control_token(),
{
    let mut v: Vec<u8> = Vec::new();
    v.push('G' as u8);
    v.push('E' as u8);
    v.push('T' as u8);
    v.push('-' as u8);
    v.push('C' as u8);
    v.push('O' as u8);
    v.push('N' as u8);
    v.push('T' as u8);
    v.push('R' as u8);
    v.push('O' as u8);
    v.push('L' as u8);
    proof {
        assert(v@ =~= control_token());
    }
    v
}

/// Build the upgrade marker as bytes.
fn upgrade_token_bytes() -> (v: Vec<u8>)
    ensures
        v@ == upgrade_token(),
{
    let mut v: Vec<u8> = Vec::new();
    v.push('U' as u8);
    v.push('P' as u8);
    v.push('G' as u8);
    v.push('R' as u8);
    v.push('A' as u8);
    v.push('D' as u8);
    v.push('E' as u8);
    v.push(':' as u8);
    v.push(' ' as u8);
    v.push('W' as u8);
    v.push('E' as u8);
    v.push('B' as u8);
    v.push('S' as u8);
    v.push('O' as u8);
    v.push('C' as u8);
    v.push('K' as u8);
    v.push('E' as u8);
    v.push('T' as u8);
    proof {
        assert(v@ =~= upgrade_token());
    }
    v
}

/// Decide whether the first payload of a session asks for the
/// control-channel upgrade.
pub fn detect_control_upgrade(payload: &[u8]) -> (r: bool)
    ensures
        r == is_control_request(payload@),
{
    let control = control_token_bytes();
    let upgrade = upgrade_token_bytes();
    let mut start: usize = 0;
    let mut cur: usize = 0;
    loop
        invariant
            start <= cur <= payload@.len(),
            control@ == control_token(),
            upgrade@ == upgrade_token(),
            is_control_request(payload@) == control_scan(
                payload@,
                start as int,
                cur as int,
            ),
        decreases payload@.len() - cur,
    {
        if payload.len() < 2 || cur > payload.len() - 2 {
            return range_matches(payload, start, payload.len(), control.as_slice(), upgrade.as_slice());
        } else if payload[cur] == '\n' as u8 && payload[cur + 1] == '\n' as u8 {
            if range_matches(payload, start, cur, control.as_slice(), upgrade.as_slice()) {
                return true;
            }
            start = cur + 2;
            cur = cur + 2;
        } else {
            cur = cur + 1;
        }
    }
}

} // verus!
