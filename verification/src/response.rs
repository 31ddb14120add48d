//! The two response lines a session can send before relaying: the standard
//! `200` line that carries the configured handshake status text, and the
//! fixed `101 Switching Protocols` answer of the control-channel upgrade.

use vstd::prelude::*;

verus! {

/// The bytes of `"HTTP/1.1 200 "`, the line that precedes the status text.
pub open spec fn http_200_prefix() -> Seq<u8> {
    seq![
        'H' as u8,
        'T' as u8,
        'T' as u8,
        'P' as u8,
        '/' as u8,
        '1' as u8,
        '.' as u8,
        '1' as u8,
        ' ' as u8,
        '2' as u8,
        '0' as u8,
        '0' as u8,
        ' ' as u8,
    ]
}

/// The bytes of `"\r\n\r\n"`, the terminator of a response head.
pub open spec fn head_terminator() -> Seq<u8> {
    seq!['\r' as u8, '\n' as u8, '\r' as u8, '\n' as u8]
}

/// The whole standard response: `"HTTP/1.1 200 <status>\r\n\r\n"`.
pub open spec fn status_response_bytes(status: Seq<u8>) -> Seq<u8> {
    http_200_prefix() + status + head_terminator()
}

/// The fixed upgrade answer:
/// `"HTTP/1.1 101 Switching Protocols\r\nConnection: Upgrade\r\nUpgrade: Websocket\r\n\r\n"`.
pub open spec fn switching_protocols_bytes() -> Seq<u8> {
    seq![
        'H' as u8,
        'T' as u8,
        'T' as u8,
        'P' as u8,
        '/' as u8,
        '1' as u8,
        '.' as u8,
        '1' as u8,
        ' ' as u8,
        '1' as u8,
        '0' as u8,
        '1' as u8,
        ' ' as u8,
        'S' as u8,
        'w' as u8,
        'i' as u8,
        't' as u8,
        'c' as u8,
        'h' as u8,
        'i' as u8,
        'n' as u8,
        'g' as u8,
        ' ' as u8,
        'P' as u8,
        'r' as u8,
        'o' as u8,
        't' as u8,
        'o' as u8,
        'c' as u8,
        'o' as u8,
        'l' as u8,
        's' as u8,
        '\r' as u8,
        '\n' as u8,
        'C' as u8,
        'o' as u8,
        'n' as u8,
        'n' as u8,
        'e' as u8,
        'c' as u8,
        't' as u8,
        'i' as u8,
        'o' as u8,
        'n' as u8,
        ':' as u8,
        ' ' as u8,
        'U' as u8,
        'p' as u8,
        'g' as u8,
        'r' as u8,
        'a' as u8,
        'd' as u8,
        'e' as u8,
        '\r' as u8,
        '\n' as u8,
        'U' as u8,
        'p' as u8,
        'g' as u8,
        'r' as u8,
        'a' as u8,
        'd' as u8,
        'e' as u8,
        ':' as u8,
        ' ' as u8,
        'W' as u8,
        'e' as u8,
        'b' as u8,
        's' as u8,
        'o' as u8,
        'c' as u8,
        'k' as u8,
        'e' as u8,
        't' as u8,
        '\r' as u8,
        '\n' as u8,
        '\r' as u8,
        '\n' as u8,
    ]
}

/// Append every byte of `src` to `dst`.
fn push_all(dst: &mut Vec<u8>, src: &[u8])
    ensures
        final(dst)@ == old(dst)@ + src@,
{
    let mut i: usize = 0;
    while i < src.len()
        invariant
            i <= src@.len(),
            dst@ == old(dst)@ + src@.subrange(0, i as int),
        decreases src@.len() - i,
    {
        dst.push(src[i]);
        proof {
            assert(old(dst)@ + src@.subrange(0, i as int) + seq![src@[i as int]] =~= old(dst)@
                + src@.subrange(0, i + 1));
        }
        i = i + 1;
    }
    proof {
        assert(src@.subrange(0, src@.len() as int) =~= src@);
    }
}

/// Build the standard response around the configured status text.
pub fn standard_response(status: &[u8]) -> (r: Vec<u8>)
    ensures
        r@ == status_response_bytes(status@),
{
    let mut v: Vec<u8> = Vec::new();
    v.push('H' as u8);
    v.push('T' as u8);
    v.push('T' as u8);
    v.push('P' as u8);
    v.push('/' as u8);
    v.push('1' as u8);
    v.push('.' as u8);
    v.push('1' as u8);
    v.push(' ' as u8);
    v.push('2' as u8);
    v.push('0' as u8);
    v.push('0' as u8);
    v.push(' ' as u8);
    proof {
        assert(v@ =~= http_200_prefix());
    }
    push_all(&mut v, status);
    let mut tail: Vec<u8> = Vec::new();
    tail.push('\r' as u8);
    tail.push('\n' as u8);
    tail.push('\r' as u8);
    tail.push('\n' as u8);
    proof {
        assert(tail@ =~= head_terminator());
    }
    push_all(&mut v, tail.as_slice());
    v
}

/// Build the fixed switching-protocols answer.
pub fn switching_protocols_response() -> (r: Vec<u8>)
    ensures
        r@ == switching_protocols_bytes(),
{
    let mut v: Vec<u8> = Vec::new();
    v.push('H' as u8);
    v.push('T' as u8);
    v.push('T' as u8);
    v.push('P' as u8);
    v.push('/' as u8);
    v.push('1' as u8);
    v.push('.' as u8);
    v.push('1' as u8);
    v.push(' ' as u8);
    v.push('1' as u8);
    v.push('0' as u8);
    v.push('1' as u8);
    v.push(' ' as u8);
    v.push('S' as u8);
    v.push('w' as u8);
    v.push('i' as u8);
    v.push('t' as u8);
    v.push('c' as u8);
    v.push('h' as u8);
    v.push('i' as u8);
    v.push('n' as u8);
    v.push('g' as u8);
    v.push(' ' as u8);
    v.push('P' as u8);
    v.push('r' as u8);
    v.push('o' as u8);
    v.push('t' as u8);
    v.push('o' as u8);
    v.push('c' as u8);
    v.push('o' as u8);
    v.push('l' as u8);
    v.push('s' as u8);
    v.push('\r' as u8);
    v.push('\n' as u8);
    v.push('C' as u8);
    v.push('o' as u8);
    v.push('n' as u8);
    v.push('n' as u8);
    v.push('e' as u8);
    v.push('c' as u8);
    v.push('t' as u8);
    v.push('i' as u8);
    v.push('o' as u8);
    v.push('n' as u8);
    v.push(':' as u8);
    v.push(' ' as u8);
    v.push('U' as u8);
    v.push('p' as u8);
    v.push('g' as u8);
    v.push('r' as u8);
    v.push('a' as u8);
    v.push('d' as u8);
    v.push('e' as u8);
    v.push('\r' as u8);
    v.push('\n' as u8);
    v.push('U' as u8);
    v.push('p' as u8);
    v.push('g' as u8);
    v.push('r' as u8);
    v.push('a' as u8);
    v.push('d' as u8);
    v.push('e' as u8);
    v.push(':' as u8);
    v.push(' ' as u8);
    v.push('W' as u8);
    v.push('e' as u8);
    v.push('b' as u8);
    v.push('s' as u8);
    v.push('o' as u8);
    v.push('c' as u8);
    v.push('k' as u8);
    v.push('e' as u8);
    v.push('t' as u8);
    v.push('\r' as u8);
    v.push('\n' as u8);
    v.push('\r' as u8);
    v.push('\n' as u8);
    proof {
        assert(v@ =~= switching_protocols_bytes());
    }
    v
}

} // verus!
