use vstd::prelude::*;
use vstd::string::*;

verus! {

/// The hexadecimal digit character of a value below 16.
pub open spec fn hex_char(d: int) -> char {
    if d == 0 {
        '0'
    } else if d == 1 {
        '1'
    } else if d == 2 {
        '2'
    } else if d == 3 {
        '3'
    } else if d == 4 {
        '4'
    } else if d == 5 {
        '5'
    } else if d == 6 {
        '6'
    } else if d == 7 {
        '7'
    } else if d == 8 {
        '8'
    } else if d == 9 {
        '9'
    } else if d == 10 {
        'a'
    } else if d == 11 {
        'b'
    } else if d == 12 {
        'c'
    } else if d == 13 {
        'd'
    } else if d == 14 {
        'e'
    } else if d == 15 {
        'f'
    } else {
        '?'
    }
}

/// The value of a hexadecimal digit character, if it is one.
pub open spec fn hex_val(c: char) -> Option<int> {
    if c == '0' {
        Some(0)
    } else if c == '1' {
        Some(1)
    } else if c == '2' {
        Some(2)
    } else if c == '3' {
        Some(3)
    } else if c == '4' {
        Some(4)
    } else if c == '5' {
        Some(5)
    } else if c == '6' {
        Some(6)
    } else if c == '7' {
        Some(7)
    } else if c == '8' {
        Some(8)
    } else if c == '9' {
        Some(9)
    } else if c == 'a' {
        Some(10)
    } else if c == 'b' {
        Some(11)
    } else if c == 'c' {
        Some(12)
    } else if c == 'd' {
        Some(13)
    } else if c == 'e' {
        Some(14)
    } else if c == 'f' {
        Some(15)
    } else {
        None
    }
}

/// 16 to the power `n`.
pub open spec fn pow16(n: nat) -> nat
    decreases n,
{
    if n == 0 {
        1
    } else {
        16 * pow16((n - 1) as nat)
    }
}

/// `pow16` grows monotonically.
pub proof fn lemma_pow16_le(a: nat, b: nat)
    requires
        a <= b,
    ensures
        pow16(a) <= pow16(b),
    decreases b,
{
    if a < b && b > 0 {
        lemma_pow16_le(a, (b - 1) as nat);
    }
}

/// `v` written as exactly `width` hexadecimal digits, most significant
/// first; only the low `width` digits of `v` are written.
pub open spec fn hex_digits(v: nat, width: nat) -> Seq<char>
    decreases width,
{
    if width == 0 {
        Seq::empty()
    } else {
        hex_digits(v / 16, (width - 1) as nat) + seq![hex_char((v % 16) as int)]
    }
}

/// The value a sequence of hexadecimal digit characters denotes, if every
/// character is one.
pub open spec fn hex_value(s: Seq<char>) -> Option<int>
    decreases s.len(),
{
    if s.len() == 0 {
        Some(0)
    } else {
        match (hex_value(s.drop_last()), hex_val(s.last())) {
            (Some(hi), Some(d)) => Some(16 * hi + d),
            _ => None,
        }
    }
}

/// Fixed-width hexadecimal writing is read back exactly: the digits of `v`
/// have length `width`, and for `v` below `16^width` they denote `v`.
pub proof fn lemma_hex_round_trip(v: nat, width: nat)
    ensures
        hex_digits(v, width).len() == width,
        v < pow16(width) ==> hex_value(hex_digits(v, width)) == Some(v as int),
    decreases width,
{
    if width > 0 {
        lemma_hex_round_trip(v / 16, (width - 1) as nat);
        let s = hex_digits(v, width);
        assert(s.drop_last() =~= hex_digits(v / 16, (width - 1) as nat));
        assert(s.last() == hex_char((v % 16) as int));
        assert(hex_val(hex_char((v % 16) as int)) == Some((v % 16) as int));
    }
}

/// A denoted value is non-negative and below `16^len`.
pub proof fn lemma_hex_value_bound(s: Seq<char>)
    ensures
        match hex_value(s) {
            Some(x) => 0 <= x < pow16(s.len()),
            None => true,
        },
    decreases s.len(),
{
    if s.len() > 0 {
        lemma_hex_value_bound(s.drop_last());
    }
}

/// One character that is no hexadecimal digit spoils the whole sequence.
pub proof fn lemma_hex_value_none(s: Seq<char>, i: int)
    requires
        0 <= i < s.len(),
        hex_val(s[i]) is None,
    ensures
        hex_value(s) is None,
    decreases s.len(),
{
    if i < s.len() - 1 {
        lemma_hex_value_none(s.drop_last(), i);
    }
}

/// The hexadecimal digit characters, one per value below 16.
pub(crate) fn hex_digit_str(d: u8) -> (r: &'static str)
    requires
        d < 16,
    ensures
        r@ =~= seq![hex_char(d as int)],
{
    proof {
        reveal_strlit("0");
        reveal_strlit("1");
        reveal_strlit("2");
        reveal_strlit("3");
        reveal_strlit("4");
        reveal_strlit("5");
        reveal_strlit("6");
        reveal_strlit("7");
        reveal_strlit("8");
        reveal_strlit("9");
        reveal_strlit("a");
        reveal_strlit("b");
        reveal_strlit("c");
        reveal_strlit("d");
        reveal_strlit("e");
        reveal_strlit("f");
    }
    match d {
        0 => "0",
        1 => "1",
        2 => "2",
        3 => "3",
        4 => "4",
        5 => "5",
        6 => "6",
        7 => "7",
        8 => "8",
        9 => "9",
        10 => "a",
        11 => "b",
        12 => "c",
        13 => "d",
        14 => "e",
        _ => "f",
    }
}

/// Writes `v` as exactly `width` hexadecimal digits, most significant first.
pub(crate) fn encode_hex(v: u128, width: u8) -> (r: String)
    ensures
        r@ == hex_digits(v as nat, width as nat),
    decreases width,
{
    if width == 0 {
        String::new()
    } else {
        let mut s = encode_hex(v / 16, width - 1);
        s.append(hex_digit_str((v % 16) as u8));
        proof {
            assert(s@ =~= hex_digits(v as nat, width as nat));
        }
        s
    }
}

/// The value of one hexadecimal digit character, if it is one.
fn hex_digit_val(c: char) -> (r: Option<u8>)
    ensures
        match (r, hex_val(c)) {
            (Some(d), Some(x)) => d as int == x && d < 16,
            (None, None) => true,
            _ => false,
        },
{
    match c {
        '0' => Some(0),
        '1' => Some(1),
        '2' => Some(2),
        '3' => Some(3),
        '4' => Some(4),
        '5' => Some(5),
        '6' => Some(6),
        '7' => Some(7),
        '8' => Some(8),
        '9' => Some(9),
        'a' => Some(10),
        'b' => Some(11),
        'c' => Some(12),
        'd' => Some(13),
        'e' => Some(14),
        'f' => Some(15),
        _ => None,
    }
}

/// What reading `width` hexadecimal digits of `s` at `pos` denotes, if they
/// are there and are digits.
pub open spec fn hex_at(s: Seq<char>, pos: int, width: int) -> Option<int> {
    if 0 <= pos && 0 <= width && pos + width <= s.len() {
        hex_value(s.subrange(pos, pos + width))
    } else {
        None
    }
}

/// Reads `width` hexadecimal digits of `s` at character position `pos`.
#[verifier::rlimit(50)]
pub(crate) fn decode_hex(s: &str, pos: usize, width: usize) -> (r: Option<u128>)
    requires
        width <= 32,
        pos + width <= usize::MAX,
    ensures
        match (r, hex_at(s@, pos as int, width as int)) {
            (Some(v), Some(x)) => v as int == x,
            (None, None) => true,
            _ => false,
        },
{
    let n = s.unicode_len();
    if pos > n || width > n - pos {
        return None;
    }
    let mut acc: u128 = 0;
    let mut k: usize = 0;
    proof {
        assert(s@.subrange(pos as int, pos as int) =~= Seq::<char>::empty());
        reveal_with_fuel(pow16, 33);
        assert(pow16(32) == 0x100000000000000000000000000000000nat);
    }
    while k < width
        invariant
            k <= width,
            width <= 32,
            pos + width <= usize::MAX,
            pos + width <= s@.len(),
            pow16(32) == 0x100000000000000000000000000000000nat,
            hex_value(s@.subrange(pos as int, pos as int + k as int)) == Some(acc as int),
            (acc as nat) < pow16(k as nat),
        decreases width - k,
    {
        let c = s.get_char(pos + k);
        let d = match hex_digit_val(c) {
            Some(d) => d,
            None => {
                proof {
                    lemma_hex_value_none(
                        s@.subrange(pos as int, pos as int + width as int),
                        k as int,
                    );
                }
                return None;
            },
        };
        proof {
            let whole = s@.subrange(pos as int, pos as int + k + 1);
            assert(whole.drop_last() =~= s@.subrange(pos as int, pos as int + k as int));
            assert(whole.last() == s@[pos as int + k]);
            lemma_pow16_le((k + 1) as nat, 32);
        }
        acc = acc * 16 + (d as u128);
        k = k + 1;
    }
    Some(acc)
}

} // verus!
