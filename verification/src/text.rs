//! Byte-level text building blocks: JSON string escaping and decimal
//! rendering of lengths, each proved against an exact specification.

use vstd::prelude::*;

verus! {

/// The lowercase hexadecimal digit for a nibble.
pub open spec fn hex_digit(n: u8) -> u8 {
    if n < 10 {
        (('0' as u8) + n) as u8
    } else {
        (('a' as u8) + (n - 10)) as u8
    }
}

/// How one byte of a JSON string is written: quote, backslash and the named
/// control characters get a two-byte escape, the remaining control bytes a
/// `\u00..` escape with lowercase hex digits, and every other byte stands
/// for itself.
pub open spec fn escaped_byte(b: u8) -> Seq<u8> {
    if b == ('"' as u8) {
        seq![('\\' as u8), ('"' as u8)]
    } else if b == ('\\' as u8) {
        seq![('\\' as u8), ('\\' as u8)]
    } else if b == 0x08 {
        seq![('\\' as u8), ('b' as u8)]
    } else if b == ('\t' as u8) {
        seq![('\\' as u8), ('t' as u8)]
    } else if b == ('\n' as u8) {
        seq![('\\' as u8), ('n' as u8)]
    } else if b == 0x0c {
        seq![('\\' as u8), ('f' as u8)]
    } else if b == ('\r' as u8) {
        seq![('\\' as u8), ('r' as u8)]
    } else if b < 0x20 {
        seq![('\\' as u8), ('u' as u8), ('0' as u8), ('0' as u8), hex_digit((b / 16) as u8), hex_digit((b % 16) as u8)]
    } else {
        seq![b]
    }
}

/// The JSON escaping of a byte string: each byte replaced by its escape.
pub open spec fn json_escaped(s: Seq<u8>) -> Seq<u8>
    decreases s.len(),
{
    if s.len() == 0 {
        Seq::empty()
    } else {
        escaped_byte(s[0]) + json_escaped(s.skip(1))
    }
}

/// Escaping distributes over concatenation.
pub proof fn lemma_json_escaped_concat(a: Seq<u8>, b: Seq<u8>)
    ensures
        json_escaped(a + b) == json_escaped(a) + json_escaped(b),
    decreases a.len(),
{
    if a.len() == 0 {
        assert(a + b =~= b);
        assert(json_escaped(a) + json_escaped(b) =~= json_escaped(b));
    } else {
        assert((a + b)[0] == a[0]);
        assert((a + b).skip(1) =~= a.skip(1) + b);
        lemma_json_escaped_concat(a.skip(1), b);
        assert(json_escaped(a + b) =~= json_escaped(a) + json_escaped(b));
    }
}

/// Escaping a one-byte string is escaping the byte.
pub proof fn lemma_json_escaped_singleton(b: u8)
    ensures
        json_escaped(seq![b]) == escaped_byte(b),
{
    assert(seq![b][0] == b);
    assert(seq![b].skip(1) =~= Seq::<u8>::empty());
    assert(json_escaped(Seq::<u8>::empty()) == Seq::<u8>::empty());
    assert(escaped_byte(b) + Seq::<u8>::empty() =~= escaped_byte(b));
    assert(json_escaped(seq![b]) =~= escaped_byte(b));
}

/// The lowercase hexadecimal digit for a nibble.
fn hex_digit_of(n: u8) -> (r: u8)
    requires
        n < 16,
    ensures
        r == hex_digit(n),
{
    if n < 10 {
        ('0' as u8) + n
    } else {
        ('a' as u8) + (n - 10)
    }
}

/// JSON-escapes a byte string, byte by byte.
pub fn json_escape_bytes(input: &[u8]) -> (out: Vec<u8>)
    ensures
        out@ == json_escaped(input@),
{
    let mut out: Vec<u8> = Vec::new();
    let mut i: usize = 0;
    while i < input.len()
        invariant
            i <= input@.len(),
            out@ == json_escaped(input@.take(i as int)),
        decreases input@.len() - i,
    {
        let b = input[i];
        if b == ('"' as u8) {
            out.push(('\\' as u8));
            out.push(('"' as u8));
        } else if b == ('\\' as u8) {
            out.push(('\\' as u8));
            out.push(('\\' as u8));
        } else if b == 0x08 {
            out.push(('\\' as u8));
            out.push(('b' as u8));
        } else if b == ('\t' as u8) {
            out.push(('\\' as u8));
            out.push(('t' as u8));
        } else if b == ('\n' as u8) {
            out.push(('\\' as u8));
            out.push(('n' as u8));
        } else if b == 0x0c {
            out.push(('\\' as u8));
            out.push(('f' as u8));
        } else if b == ('\r' as u8) {
            out.push(('\\' as u8));
            out.push(('r' as u8));
        } else if b < 0x20 {
            out.push(('\\' as u8));
            out.push(('u' as u8));
            out.push(('0' as u8));
            out.push(('0' as u8));
            out.push(hex_digit_of(b / 16));
            out.push(hex_digit_of(b % 16));
        } else {
            out.push(b);
        }
        proof {
            assert(input@.take(i as int + 1) =~= input@.take(i as int) + seq![input@[i as int]]);
            lemma_json_escaped_concat(input@.take(i as int), seq![input@[i as int]]);
            lemma_json_escaped_singleton(input@[i as int]);
            assert(out@ =~= json_escaped(input@.take(i as int + 1)));
        }
        i = i + 1;
    }
    proof {
        assert(input@.take(input@.len() as int) =~= input@);
    }
    out
}

/// The decimal digit string of a number: no leading zero except for the
/// number zero itself.
pub open spec fn decimal_digits(n: nat) -> Seq<u8>
    decreases n,
{
    if n < 10 {
        seq![(('0' as u8) + n) as u8]
    } else {
        decimal_digits(n / 10) + seq![(('0' as u8) + n % 10) as u8]
    }
}

/// Renders a number as its decimal digit bytes, least significant first into
/// a scratch vector, then reversed.
pub fn render_decimal(n: u64) -> (out: Vec<u8>)
    ensures
        out@ == decimal_digits(n as nat),
{
    let mut rev: Vec<u8> = Vec::new();
    let mut rest: u64 = n / 10;
    rev.push(('0' as u8) + (n % 10) as u8);
    proof {
        assert((rev@).reverse() =~= rev@);
        if n >= 10 {
            assert(decimal_digits(n as nat) == decimal_digits((n / 10) as nat) + seq![
                (('0' as u8) + (n as nat) % 10) as u8,
            ]);
            assert(decimal_digits(n as nat) =~= decimal_digits(rest as nat) + rev@.reverse());
        }
    }
    while rest > 0
        invariant
            rev@.len() > 0,
            decimal_digits(n as nat) == if rest == 0 {
                rev@.reverse()
            } else {
                decimal_digits(rest as nat) + rev@.reverse()
            },
        decreases rest,
    {
        let digit = ('0' as u8) + (rest % 10) as u8;
        let next: u64 = rest / 10;
        proof {
            if rest >= 10 {
                assert(decimal_digits(rest as nat) == decimal_digits(next as nat) + seq![
                    (('0' as u8) + (rest as nat) % 10) as u8,
                ]);
            }
            assert((rev@.push(digit)).reverse() =~= seq![digit] + rev@.reverse());
            if next == 0 {
                assert(decimal_digits(rest as nat) + rev@.reverse() =~= (rev@.push(
                    digit,
                )).reverse());
            } else {
                assert(decimal_digits(rest as nat) + rev@.reverse() =~= decimal_digits(
                    next as nat,
                ) + (rev@.push(digit)).reverse());
            }
        }
        rev.push(digit);
        rest = next;
    }
    let mut out: Vec<u8> = Vec::new();
    let mut i: usize = rev.len();
    while i > 0
        invariant
            i <= rev@.len(),
            out@ == rev@.reverse().take(rev@.len() - i),
        decreases i,
    {
        i = i - 1;
        out.push(rev[i]);
        proof {
            assert(out@ =~= rev@.reverse().take(rev@.len() - i));
        }
    }
    proof {
        assert(rev@.reverse().take(rev@.len() as int) =~= rev@.reverse());
        assert(out@ =~= decimal_digits(n as nat));
    }
    out
}

} // verus!
