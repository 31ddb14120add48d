//! Startup configuration: the listening port and the handshake status
//! text, read from the command-line words. A `--port <n>` flag sets the
//! port (default 80; a value that is not a `u16` falls back to the
//! default), a `--status <text>` flag sets the status text (default
//! `@RustyManager`); of repeated flags the last one wins, and a flag
//! without a following word is ignored.

use vstd::prelude::*;

use vstd::slice::slice_to_vec;

use crate::scan::bytes_eq;

verus! {

/// Is `b` an ASCII decimal digit?
pub open spec fn is_digit(b: u8) -> bool {
    '0' as u8 <= b <= '9' as u8
}

/// Every byte of `s` is an ASCII decimal digit.
pub open spec fn all_digits(s: Seq<u8>) -> bool {
    forall|i: int| 0 <= i < s.len() ==> is_digit(s[i])
}

/// The number a string of decimal digits denotes, most significant first.
pub open spec fn digits_value(s: Seq<u8>) -> int
    decreases s.len(),
{
    if s.len() == 0 {
        0
    } else {
        digits_value(s.drop_last()) * 10 + (s.last() - '0' as u8)
    }
}

/// The digits of a number word: one leading `+` is allowed and skipped.
pub open spec fn digit_part(s: Seq<u8>) -> Seq<u8> {
    if s.len() > 0 && s[0] == '+' as u8 {
        s.skip(1)
    } else {
        s
    }
}

/// What parsing a `u16` from a decimal word yields: the denoted number if
/// the word is non-empty, all digits after an optional `+`, and the value
/// fits; nothing otherwise.
pub open spec fn parse_u16_spec(s: Seq<u8>) -> Option<u16> {
    let d = digit_part(s);
    if d.len() > 0 && all_digits(d) && digits_value(d) <= 65535 {
        Some(digits_value(d) as u16)
    } else {
        None
    }
}

/// A digit string denotes a non-negative number.
proof fn lemma_digits_nonneg(s: Seq<u8>)
    requires
        all_digits(s),
    ensures
        digits_value(s) >= 0,
    decreases s.len(),
{
    if s.len() > 0 {
        assert(all_digits(s.drop_last()));
        lemma_digits_nonneg(s.drop_last());
    }
}

/// Parse a `u16` from a decimal word.
pub fn parse_u16(s: &[u8]) -> (r: Option<u16>)
    ensures
        r == parse_u16_spec(s@),
{
    let ghost d = digit_part(s@);
    let start: usize = if s.len() > 0 && s[0] == '+' as u8 {
        1
    } else {
        0
    };
    proof {
        assert(d =~= s@.subrange(start as int, s@.len() as int));
    }
    if start == s.len() {
        return None;
    }
    let mut acc: u32 = 0;
    let mut over = false;
    let mut j: usize = start;
    while j < s.len()
        invariant
            start <= j <= s@.len(),
            d == digit_part(s@),
            d == s@.subrange(start as int, s@.len() as int),
            all_digits(s@.subrange(start as int, j as int)),
            !over ==> acc == digits_value(s@.subrange(start as int, j as int)) && acc <= 65535,
            over ==> digits_value(s@.subrange(start as int, j as int)) > 65535,
        decreases s@.len() - j,
    {
        let ghost pre = s@.subrange(start as int, j as int);
        let ghost cur = s@.subrange(start as int, j + 1);
        proof {
            assert(cur.drop_last() =~= pre);
            assert(cur.last() == s@[j as int]);
        }
        let b = s[j];
        if b < '0' as u8 || b > '9' as u8 {
            proof {
                assert(d[j - start] == s@[j as int]);
                assert(!all_digits(d));
            }
            return None;
        }
        assert(all_digits(cur));
        if !over {
            acc = acc * 10 + ((b - '0' as u8) as u32);
            if acc > 65535 {
                over = true;
            }
        } else {
            proof {
                lemma_digits_nonneg(pre);
                assert(digits_value(cur) == digits_value(pre) * 10 + (b - '0' as u8));
            }
        }
        j = j + 1;
    }
    proof {
        assert(s@.subrange(start as int, s@.len() as int) =~= d);
    }
    if over {
        None
    } else {
        Some(acc as u16)
    }
}

/// The bytes of the flag word `--port`.
pub open spec fn port_flag() -> Seq<u8> {
    seq!['-' as u8, '-' as u8, 'p' as u8, 'o' as u8, 'r' as u8, 't' as u8]
}

/// The bytes of the flag word `--status`.
pub open spec fn status_flag() -> Seq<u8> {
    seq![
        '-' as u8,
        '-' as u8,
        's' as u8,
        't' as u8,
        'a' as u8,
        't' as u8,
        'u' as u8,
        's' as u8,
    ]
}

/// The bytes of the default status text, `@RustyManager`.
pub open spec fn default_status() -> Seq<u8> {
    seq![
        '@' as u8,
        'R' as u8,
        'u' as u8,
        's' as u8,
        't' as u8,
        'y' as u8,
        'M' as u8,
        'a' as u8,
        'n' as u8,
        'a' as u8,
        'g' as u8,
        'e' as u8,
        'r' as u8,
    ]
}

/// Scan the words from position `i` on for `--port` flags; `cur` is the
/// port the words before `i` yielded.
pub open spec fn port_from(args: Seq<Seq<u8>>, i: int, cur: u16) -> u16
    decreases args.len() - i,
{
    if i >= args.len() {
        cur
    } else {
        let next = if args[i] == port_flag() && i + 1 < args.len() {
            match parse_u16_spec(args[i + 1]) {
                Some(p) => p,
                None => 80,
            }
        } else {
            cur
        };
        port_from(args, i + 1, next)
    }
}

/// The port the command-line words configure: the value of the last
/// `--port` flag that a word follows, 80 when it does not parse as a
/// `u16`, and 80 when no such flag occurs. The first word (the program
/// name) is not scanned.
pub open spec fn port_of_args(args: Seq<Seq<u8>>) -> u16 {
    port_from(args, 1, 80)
}

/// Scan the words from position `i` on for `--status` flags; `cur` is the
/// status text the words before `i` yielded.
pub open spec fn status_from(args: Seq<Seq<u8>>, i: int, cur: Seq<u8>) -> Seq<u8>
    decreases args.len() - i,
{
    if i >= args.len() {
        cur
    } else {
        let next = if args[i] == status_flag() && i + 1 < args.len() {
            args[i + 1]
        } else {
            cur
        };
        status_from(args, i + 1, next)
    }
}

/// The status text the command-line words configure: the word after the
/// last `--status` flag that one follows, `@RustyManager` when no such
/// flag occurs. The first word (the program name) is not scanned.
pub open spec fn status_of_args(args: Seq<Seq<u8>>) -> Seq<u8> {
    status_from(args, 1, default_status())
}

/// Build the `--port` flag word.
fn port_flag_bytes() -> (v: Vec<u8>)
    ensures
        v@ == port_flag(),
{
    let mut v: Vec<u8> = Vec::new();
    v.push('-' as u8);
    v.push('-' as u8);
    v.push('p' as u8);
    v.push('o' as u8);
    v.push('r' as u8);
    v.push('t' as u8);
    proof {
        assert(v@ =~= port_flag());
    }
    v
}

/// Build the `--status` flag word.
fn status_flag_bytes() -> (v: Vec<u8>)
    ensures
        v@ == status_flag(),
{
    let mut v: Vec<u8> = Vec::new();
    v.push('-' as u8);
    v.push('-' as u8);
    v.push('s' as u8);
    v.push('t' as u8);
    v.push('a' as u8);
    v.push('t' as u8);
    v.push('u' as u8);
    v.push('s' as u8);
    proof {
        assert(v@ =~= status_flag());
    }
    v
}

/// The configured port: scan the command-line words for `--port`.
pub fn parse_port(args: &Vec<Vec<u8>>) -> (p: u16)
    ensures
        p == port_of_args(args.deep_view()),
{
    let ghost av = args.deep_view();
    let flag = port_flag_bytes();
    let mut cur: u16 = 80;
    let mut i: usize = 1;
    while i < args.len()
        invariant
            1 <= i,
            av == args.deep_view(),
            flag@ == port_flag(),
            port_of_args(av) == port_from(av, i as int, cur),
        decreases args.len() - i,
    {
        proof {
            assert(av[i as int] =~= args@[i as int]@);
        }
        if bytes_eq(args[i].as_slice(), flag.as_slice()) && i + 1 < args.len() {
            proof {
                assert(av[i + 1] =~= args@[i + 1]@);
            }
            cur = match parse_u16(args[i + 1].as_slice()) {
                Some(p) => p,
                None => 80,
            };
        }
        i = i + 1;
    }
    cur
}

/// The configured status text: scan the command-line words for `--status`.
pub fn parse_status(args: &Vec<Vec<u8>>) -> (s: Vec<u8>)
    ensures
        s@ == status_of_args(args.deep_view()),
{
    let ghost av = args.deep_view();
    let flag = status_flag_bytes();
    let mut cur: Vec<u8> = Vec::new();
    cur.push('@' as u8);
    cur.push('R' as u8);
    cur.push('u' as u8);
    cur.push('s' as u8);
    cur.push('t' as u8);
    cur.push('y' as u8);
    cur.push('M' as u8);
    cur.push('a' as u8);
    cur.push('n' as u8);
    cur.push('a' as u8);
    cur.push('g' as u8);
    cur.push('e' as u8);
    cur.push('r' as u8);
    proof {
        assert(cur@ =~= default_status());
    }
    let mut i: usize = 1;
    while i < args.len()
        invariant
            1 <= i,
            av == args.deep_view(),
            flag@ == status_flag(),
            status_of_args(av) == status_from(av, i as int, cur@),
        decreases args.len() - i,
    {
        proof {
            assert(av[i as int] =~= args@[i as int]@);
        }
        if bytes_eq(args[i].as_slice(), flag.as_slice()) && i + 1 < args.len() {
            proof {
                assert(av[i + 1] =~= args@[i + 1]@);
            }
            cur = slice_to_vec(args[i + 1].as_slice());
        }
        i = i + 1;
    }
    cur
}

} // verus!
