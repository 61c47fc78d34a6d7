//! Hex and decimal codec for the Ethereum wire conventions.
//!
//! A "quantity" is a `0x`-prefixed, minimal-width, lowercase hex integer
//! (`0x0` for zero, never a leading zero digit otherwise); "data" is a
//! `0x`-prefixed lowercase hex byte string, two digits per byte. Decoding
//! accepts both digit cases, as the usual integer parsers do.

use vstd::prelude::*;
use vstd::string::StrSliceExecFns;
use vstd::string::StringExecFns;

verus! {

/// The sixteen lowercase hex digit characters, indexed by digit value.
pub open spec fn hex_char(d: int) -> char {
    seq!['0', '1', '2', '3', '4', '5', '6', '7', '8', '9', 'a', 'b', 'c', 'd', 'e', 'f'][d]
}

/// Minimal-width hex digit string of `n`, most significant digit first;
/// empty for zero.
pub open spec fn hex_digits(n: nat) -> Seq<char>
    decreases n,
{
    if n == 0 {
        Seq::empty()
    } else {
        hex_digits(n / 16).push(hex_char((n % 16) as int))
    }
}

/// The wire "quantity" form of `n`: `0x` plus minimal hex, `0x0` for zero.
pub open spec fn quantity_hex(n: nat) -> Seq<char> {
    seq!['0', 'x'] + (if n == 0 { seq!['0'] } else { hex_digits(n) })
}

/// Minimal-width decimal digit string of `n`; `0` is written out.
pub open spec fn dec_digits(n: nat) -> Seq<char>
    decreases n,
{
    if n == 0 {
        Seq::empty()
    } else {
        dec_digits(n / 10).push(hex_char((n % 10) as int))
    }
}

/// Decimal rendering of `n`, as ordinary formatting would print it.
pub open spec fn dec_str(n: nat) -> Seq<char> {
    if n == 0 {
        seq!['0']
    } else {
        dec_digits(n)
    }
}

/// The two lowercase hex characters of one byte, high nibble first.
pub open spec fn byte_hex(b: u8) -> Seq<char> {
    seq![hex_char(b as int / 16), hex_char(b as int % 16)]
}

/// Lowercase hex of a byte string, two characters per byte, no prefix.
pub open spec fn bytes_hex(s: Seq<u8>) -> Seq<char>
    decreases s.len(),
{
    if s.len() == 0 {
        Seq::empty()
    } else {
        bytes_hex(s.drop_last()) + byte_hex(s.last())
    }
}

/// Value of one hex digit character, either case; sixteen for a non-digit.
pub open spec fn hex_digit_val(c: char) -> int {
    let u = c as int;
    if 48 <= u && u <= 57 {
        u - 48  // '0' ..= '9'
    } else if 97 <= u && u <= 102 {
        u - 87  // 'a' ..= 'f'
    } else if 65 <= u && u <= 70 {
        u - 55  // 'A' ..= 'F'
    } else {
        16
    }
}

pub open spec fn is_hex_digit(c: char) -> bool {
    hex_digit_val(c) < 16
}

pub open spec fn all_hex(s: Seq<char>) -> bool {
    forall|i: int| 0 <= i < s.len() ==> is_hex_digit(#[trigger] s[i])
}

/// Value of a hex digit string read most significant digit first.
pub open spec fn hex_num(s: Seq<char>) -> int
    decreases s.len(),
{
    if s.len() == 0 {
        0
    } else {
        16 * hex_num(s.drop_last()) + hex_digit_val(s.last())
    }
}

/// The bytes written by a hex digit string of even length.
pub open spec fn hex_bytes(s: Seq<char>) -> Seq<u8> {
    Seq::new(s.len() / 2, |i: int| (16 * hex_digit_val(s[2 * i]) + hex_digit_val(s[2 * i + 1])) as u8)
}

/// Encoding and digit values agree: the character printed for a digit
/// reads back as that digit.
proof fn lemma_hex_char_val(d: int)
    requires
        0 <= d < 16,
    ensures
        hex_digit_val(hex_char(d)) == d,
{
    assert(hex_char(0) == '0');
    assert(hex_char(1) == '1');
    assert(hex_char(2) == '2');
    assert(hex_char(3) == '3');
    assert(hex_char(4) == '4');
    assert(hex_char(5) == '5');
    assert(hex_char(6) == '6');
    assert(hex_char(7) == '7');
    assert(hex_char(8) == '8');
    assert(hex_char(9) == '9');
    assert(hex_char(10) == 'a');
    assert(hex_char(11) == 'b');
    assert(hex_char(12) == 'c');
    assert(hex_char(13) == 'd');
    assert(hex_char(14) == 'e');
    assert(hex_char(15) == 'f');
}

/// A byte string's hex encoding has two characters per byte.
pub proof fn lemma_bytes_hex_len(b: Seq<u8>)
    ensures
        bytes_hex(b).len() == 2 * b.len(),
    decreases b.len(),
{
    if b.len() > 0 {
        lemma_bytes_hex_len(b.drop_last());
    }
}

/// Decoding inverts encoding: the hex data written for any byte string
/// reads back as exactly those bytes.
pub proof fn lemma_bytes_hex_round_trip(b: Seq<u8>)
    ensures
        hex_bytes(bytes_hex(b)) == b,
    decreases b.len(),
{
    lemma_bytes_hex_len(b);
    if b.len() == 0 {
        assert(hex_bytes(bytes_hex(b)) =~= b);
    } else {
        let front = b.drop_last();
        lemma_bytes_hex_round_trip(front);
        lemma_bytes_hex_len(front);
        let h = bytes_hex(b);
        let hf = bytes_hex(front);
        assert forall|i: int| 0 <= i < b.len() implies hex_bytes(h)[i] == b[i] by {
            if i < front.len() {
                assert(h[2 * i] == hf[2 * i]);
                assert(h[2 * i + 1] == hf[2 * i + 1]);
                assert(hex_bytes(hf)[i] == front[i]);
            } else {
                let last = b.last();
                assert(h[2 * i] == hex_char(last as int / 16));
                assert(h[2 * i + 1] == hex_char(last as int % 16));
                lemma_hex_char_val(last as int / 16);
                lemma_hex_char_val(last as int % 16);
            }
        }
        assert(hex_bytes(h) =~= b);
    }
}

/// Reading a minimal hex encoding back yields the encoded value: the
/// quantity codec loses nothing.
pub proof fn lemma_hex_digits_round_trip(n: nat)
    ensures
        hex_num(hex_digits(n)) == n,
    decreases n,
{
    if n > 0 {
        lemma_hex_digits_round_trip(n / 16);
        lemma_hex_char_val((n % 16) as int);
        assert(hex_digits(n).drop_last() =~= hex_digits(n / 16));
    }
}

/// A nonzero quantity is never printed with a leading zero digit: the
/// character right after the `0x` marker is not `'0'` unless the value is
/// zero (whose whole encoding is `0x0`).
pub proof fn lemma_no_leading_zero(n: nat)
    requires
        n > 0,
    ensures
        quantity_hex(n).len() > 2,
        quantity_hex(n)[2] != '0',
    decreases n,
{
    lemma_hex_digits_first_nonzero(n);
    assert(quantity_hex(n)[2] == hex_digits(n)[0]);
}

/// The most significant digit of a nonzero number is never zero.
proof fn lemma_hex_digits_first_nonzero(n: nat)
    requires
        n > 0,
    ensures
        hex_digits(n).len() > 0,
        hex_digits(n)[0] != '0',
    decreases n,
{
    if n < 16 {
        assert(hex_digits(0) == Seq::<char>::empty());
        assert(hex_digits(n) =~= seq![hex_char(n as int)]);
        assert(hex_char(1) == '1');
        assert(hex_char(2) == '2');
        assert(hex_char(3) == '3');
        assert(hex_char(4) == '4');
        assert(hex_char(5) == '5');
        assert(hex_char(6) == '6');
        assert(hex_char(7) == '7');
        assert(hex_char(8) == '8');
        assert(hex_char(9) == '9');
        assert(hex_char(10) == 'a');
        assert(hex_char(11) == 'b');
        assert(hex_char(12) == 'c');
        assert(hex_char(13) == 'd');
        assert(hex_char(14) == 'e');
        assert(hex_char(15) == 'f');
    } else {
        lemma_hex_digits_first_nonzero(n / 16);
        assert(hex_digits(n)[0] == hex_digits(n / 16)[0]);
    }
}

/// One lowercase digit character as a string slice, for values below sixteen.
pub fn hex_digit_str(d: u8) -> (r: &'static str)
    requires
        d < 16,
    ensures
        r@.len() == 1,
        r@[0] == hex_char(d as int),
{
    proof {
        reveal_strlit("0");
        reveal_strlit("1");
        reveal_strlit("2");
        reveal_strlit("3");
        reveal_strlit("4");
        reveal_strlit("5");
        reveal_strlit("6");
        reveal_strlit("7");
        reveal_strlit("8");
        reveal_strlit("9");
        reveal_strlit("a");
        reveal_strlit("b");
        reveal_strlit("c");
        reveal_strlit("d");
        reveal_strlit("e");
        reveal_strlit("f");
    }
    match d {
        0 => "0",
        1 => "1",
        2 => "2",
        3 => "3",
        4 => "4",
        5 => "5",
        6 => "6",
        7 => "7",
        8 => "8",
        9 => "9",
        10 => "a",
        11 => "b",
        12 => "c",
        13 => "d",
        14 => "e",
        _ => "f",
    }
}

/// Appends the minimal hex digits of `n` to `out`; nothing for zero.
fn push_hex_digits(n: u64, out: &mut String)
    ensures
        final(out)@ == old(out)@ + hex_digits(n as nat),
    decreases n,
{
    if n == 0 {
        proof {
            assert(old(out)@ + hex_digits(0) =~= old(out)@);
        }
        return ;
    }
    push_hex_digits(n / 16, out);
    let d: u8 = (n % 16) as u8;
    out.append(hex_digit_str(d));
    proof {
        assert(final(out)@ =~= old(out)@ + hex_digits(n as nat));
    }
}

/// Encodes a non-negative integer as a wire quantity: `0x`-prefixed,
/// lowercase, minimal width (`0x0` for zero).
pub fn num_to_hex(n: u64) -> (r: String)
    ensures
        r@ == quantity_hex(n as nat),
{
    let mut s = String::from_str("0x");
    proof {
        reveal_strlit("0x");
        assert(s@ =~= seq!['0', 'x']);
    }
    if n == 0 {
        proof {
            reveal_strlit("0");
        }
        s.append("0");
        proof {
            assert(s@ =~= quantity_hex(0));
        }
    } else {
        push_hex_digits(n, &mut s);
        proof {
            assert(s@ =~= quantity_hex(n as nat));
        }
    }
    s
}

/// Appends the decimal rendering of `n` to `out`; `0` is written out.
fn push_dec_digits(n: u64, out: &mut String)
    ensures
        final(out)@ == old(out)@ + dec_digits(n as nat),
    decreases n,
{
    if n == 0 {
        proof {
            assert(old(out)@ + dec_digits(0) =~= old(out)@);
        }
        return ;
    }
    push_dec_digits(n / 10, out);
    let d: u8 = (n % 10) as u8;
    out.append(hex_digit_str(d));
    proof {
        assert(final(out)@ =~= old(out)@ + dec_digits(n as nat));
    }
}

/// Appends the decimal rendering of `n` to `out`.
pub fn push_dec_str(n: u64, out: &mut String)
    ensures
        final(out)@ == old(out)@ + dec_str(n as nat),
{
    if n == 0 {
        proof {
            reveal_strlit("0");
        }
        out.append("0");
        proof {
            assert(final(out)@ =~= old(out)@ + dec_str(0));
        }
    } else {
        push_dec_digits(n, out);
    }
}

/// Encodes a byte string as lowercase hex, two digits per byte, no prefix.
pub fn bytes_to_hex_str(bytes: &Vec<u8>) -> (r: String)
    ensures
        r@ == bytes_hex(bytes@),
{
    let mut s = String::new();
    let mut i: usize = 0;
    while i < bytes.len()
        invariant
            i <= bytes@.len(),
            s@ == bytes_hex(bytes@.subrange(0, i as int)),
        decreases bytes@.len() - i,
    {
        let b = bytes[i];
        s.append(hex_digit_str(b / 16));
        s.append(hex_digit_str(b % 16));
        proof {
            let pre = bytes@.subrange(0, i + 1);
            assert(pre.drop_last() =~= bytes@.subrange(0, i as int));
            assert(s@ =~= bytes_hex(pre));
        }
        i = i + 1;
    }
    proof {
        assert(bytes@.subrange(0, bytes@.len() as int) =~= bytes@);
    }
    s
}

/// Prepends the `0x` marker to an already hex-encoded string.
pub fn hex_prefix(s: &str) -> (r: String)
    ensures
        r@ == seq!['0', 'x'] + s@,
{
    let mut r = String::from_str("0x");
    proof {
        reveal_strlit("0x");
    }
    r.append(s);
    proof {
        assert(r@ =~= seq!['0', 'x'] + s@);
    }
    r
}

/// Classifies one character as a hex digit and yields its value.
pub fn hex_digit_value(c: char) -> (r: Option<u8>)
    ensures
        r matches Some(v) ==> is_hex_digit(c) && v == hex_digit_val(c),
        r is None ==> !is_hex_digit(c),
{
    let u = c as u32;
    if 48 <= u && u <= 57 {
        Some((u - 48) as u8)
    } else if 97 <= u && u <= 102 {
        Some((u - 87) as u8)
    } else if 65 <= u && u <= 70 {
        Some((u - 55) as u8)
    } else {
        None
    }
}

/// Relates the value of a digit string to the value of its last-dropped
/// prefix, one digit at a time.
proof fn lemma_hex_num_step(s: Seq<char>, i: int)
    requires
        0 <= i < s.len(),
    ensures
        hex_num(s.subrange(0, i + 1)) == 16 * hex_num(s.subrange(0, i)) + hex_digit_val(s[i]),
{
    let pre = s.subrange(0, i + 1);
    assert(pre.drop_last() =~= s.subrange(0, i));
    assert(pre.last() == s[i]);
}

/// A hex digit string never has a negative value.
proof fn lemma_hex_num_nonneg(s: Seq<char>)
    ensures
        hex_num(s) >= 0,
    decreases s.len(),
{
    if s.len() > 0 {
        lemma_hex_num_nonneg(s.drop_last());
    }
}

/// Extending a digit string can only grow its value.
proof fn lemma_hex_num_prefix_le(s: Seq<char>, i: int)
    requires
        0 <= i <= s.len(),
    ensures
        hex_num(s.subrange(0, i)) <= hex_num(s),
    decreases s.len() - i,
{
    if i < s.len() {
        lemma_hex_num_step(s, i);
        lemma_hex_num_nonneg(s.subrange(0, i));
        lemma_hex_num_prefix_le(s, i + 1);
    } else {
        assert(s.subrange(0, i) =~= s);
    }
}

/// Parses a whole string of hex digits as a `u64`, most significant digit
/// first. `None` exactly when the string is empty, holds a non-digit, or
/// encodes a value above `u64::MAX`.
pub fn parse_hex_u64(s: &str) -> (r: Option<u64>)
    ensures
        r matches Some(v) ==> s@.len() > 0 && all_hex(s@) && v == hex_num(s@),
        r is None ==> !(s@.len() > 0 && all_hex(s@) && hex_num(s@) <= u64::MAX),
{
    let n = s.unicode_len();
    if n == 0 {
        return None;
    }
    let mut acc: u64 = 0;
    let mut i: usize = 0;
    while i < n
        invariant
            i <= n,
            n == s@.len(),
            all_hex(s@.subrange(0, i as int)),
            acc == hex_num(s@.subrange(0, i as int)),
        decreases n - i,
    {
        let c = s.get_char(i);
        match hex_digit_value(c) {
            None => {
                return None;
            },
            Some(d) => {
                if acc > (u64::MAX - (d as u64)) / 16 {
                    proof {
                        vstd::arithmetic::div_mod::lemma_fundamental_div_mod(
                            (u64::MAX - d) as int,
                            16,
                        );
                        lemma_hex_num_step(s@, i as int);
                        if all_hex(s@) {
                            lemma_hex_num_prefix_le(s@, i + 1);
                        }
                    }
                    return None;
                }
                proof {
                    vstd::arithmetic::div_mod::lemma_fundamental_div_mod((u64::MAX - d) as int, 16);
                    lemma_hex_num_step(s@, i as int);
                }
                acc = acc * 16 + (d as u64);
                i = i + 1;
            },
        }
    }
    proof {
        assert(s@.subrange(0, n as int) =~= s@);
    }
    Some(acc)
}

/// Decodes an even-length hex digit string into its bytes. `None` exactly
/// when some character is not a hex digit.
pub fn parse_hex_bytes(s: &str) -> (r: Option<Vec<u8>>)
    requires
        s@.len() % 2 == 0,
    ensures
        r matches Some(v) ==> all_hex(s@) && v@ == hex_bytes(s@),
        r is None ==> !all_hex(s@),
{
    let n = s.unicode_len();
    let mut out: Vec<u8> = Vec::new();
    let mut i: usize = 0;
    while i < n
        invariant
            i % 2 == 0,
            i <= n,
            n == s@.len(),
            n % 2 == 0,
            out@.len() == i / 2,
            forall|j: int| 0 <= j < out@.len() ==> out@[j] == hex_bytes(s@)[j],
            forall|j: int| 0 <= j < i ==> is_hex_digit(#[trigger] s@[j]),
        decreases n - i,
    {
        assert(i + 1 < n);
        let hi = match hex_digit_value(s.get_char(i)) {
            Some(v) => v,
            None => {
                return None;
            },
        };
        let lo = match hex_digit_value(s.get_char(i + 1)) {
            Some(v) => v,
            None => {
                return None;
            },
        };
        out.push(16 * hi + lo);
        i = i + 2;
    }
    proof {
        assert(i == n);
        assert(out@ =~= hex_bytes(s@));
    }
    Some(out)
}

} // verus!
