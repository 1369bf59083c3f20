//! Textual form of token identifiers and of the token store's keys and
//! values. An identifier travels as 32 lower-case hexadecimal digits; a
//! store entry's value couples the owning user with the sibling token id.

use vstd::prelude::*;
use vstd::arithmetic::div_mod::{lemma_mod_breakdown, lemma_small_mod};
use vstd::arithmetic::power::{pow, lemma_pow_positive, lemma_pow_increases};
use vstd::string::StrSliceExecFns;
use vstd::string::StringExecFns;

verus! {

/// The lower-case hexadecimal digit standing for `d` (meaningful for `0 <= d < 16`).
pub open spec fn hex_char_of(d: int) -> char {
    if d == 0 { '0' }
    else if d == 1 { '1' }
    else if d == 2 { '2' }
    else if d == 3 { '3' }
    else if d == 4 { '4' }
    else if d == 5 { '5' }
    else if d == 6 { '6' }
    else if d == 7 { '7' }
    else if d == 8 { '8' }
    else if d == 9 { '9' }
    else if d == 10 { 'a' }
    else if d == 11 { 'b' }
    else if d == 12 { 'c' }
    else if d == 13 { 'd' }
    else if d == 14 { 'e' }
    else if d == 15 { 'f' }
    else { '0' }
}

/// The numeric value of a lower-case hexadecimal digit, `None` for any other character.
pub open spec fn hex_val_of(c: char) -> Option<int> {
    if c == '0' { Some(0) }
    else if c == '1' { Some(1) }
    else if c == '2' { Some(2) }
    else if c == '3' { Some(3) }
    else if c == '4' { Some(4) }
    else if c == '5' { Some(5) }
    else if c == '6' { Some(6) }
    else if c == '7' { Some(7) }
    else if c == '8' { Some(8) }
    else if c == '9' { Some(9) }
    else if c == 'a' { Some(10) }
    else if c == 'b' { Some(11) }
    else if c == 'c' { Some(12) }
    else if c == 'd' { Some(13) }
    else if c == 'e' { Some(14) }
    else if c == 'f' { Some(15) }
    else { None }
}

/// The last `n` hexadecimal digits of `x`, most significant first.
pub open spec fn hex_digits_of(x: int, n: nat) -> Seq<char>
    decreases n,
{
    if n == 0 {
        Seq::empty()
    } else {
        hex_digits_of(x / 16, (n - 1) as nat).push(hex_char_of(x % 16))
    }
}

/// The canonical textual form of a 128-bit identifier: exactly 32 digits.
pub open spec fn hex32_of(x: u128) -> Seq<char> {
    hex_digits_of(x as int, 32)
}

pub proof fn lemma_hex_digits_len(x: int, n: nat)
    ensures
        hex_digits_of(x, n).len() == n,
    decreases n,
{
    if n > 0 {
        lemma_hex_digits_len(x / 16, (n - 1) as nat);
    }
}

/// The value of a sequence of hexadecimal digits, `None` as soon as one
/// character is not a lower-case hexadecimal digit.
pub open spec fn hex_seq_val_of(s: Seq<char>) -> Option<int>
    decreases s.len(),
{
    if s.len() == 0 {
        Some(0)
    } else {
        match hex_seq_val_of(s.drop_last()) {
            None => None,
            Some(hi) => match hex_val_of(s.last()) {
                None => None,
                Some(d) => Some(hi * 16 + d),
            },
        }
    }
}

/// A 32-digit lower-case hexadecimal sequence read back as a number;
/// `None` for any other sequence.
pub open spec fn parse_hex32_of(s: Seq<char>) -> Option<int> {
    if s.len() == 32 {
        hex_seq_val_of(s)
    } else {
        None
    }
}

proof fn lemma_hex_round_trip_rec(x: int, n: nat)
    requires
        0 <= x,
    ensures
        hex_seq_val_of(hex_digits_of(x, n)) == Some(x % pow(16, n)),
    decreases n,
{
    if n == 0 {
        assert(pow(16, 0) == 1) by {
            vstd::arithmetic::power::lemma_pow0(16);
        }
    } else {
        lemma_hex_round_trip_rec(x / 16, (n - 1) as nat);
        lemma_hex_digits_len(x / 16, (n - 1) as nat);
        let s = hex_digits_of(x, n);
        assert(s.drop_last() =~= hex_digits_of(x / 16, (n - 1) as nat));
        assert(hex_val_of(hex_char_of(x % 16)) == Some(x % 16));
        lemma_pow_positive(16, (n - 1) as nat);
        lemma_mod_breakdown(x, 16, pow(16, (n - 1) as nat));
        assert(pow(16, n) == 16 * pow(16, (n - 1) as nat)) by {
            reveal(pow);
        }
    }
}

proof fn lemma_pow16_31()
    ensures
        pow(16, 31) == 0x10000000000000000000000000000000,
{
    reveal_with_fuel(pow, 32);
}

proof fn lemma_pow16_32()
    ensures
        pow(16, 32) == 0x100000000000000000000000000000000,
{
    reveal_with_fuel(pow, 33);
}

/// Encoding an identifier and reading the digits back yields the identifier.
pub proof fn lemma_hex32_round_trip(x: u128)
    ensures
        parse_hex32_of(hex32_of(x)) == Some(x as int),
{
    lemma_hex_digits_len(x as int, 32);
    lemma_hex_round_trip_rec(x as int, 32);
    lemma_pow16_32();
    lemma_small_mod(x as nat, pow(16, 32) as nat);
}

fn hex_digit_str(d: u8) -> (s: &'static str)
    requires
        d < 16,
    ensures
        s@ == seq![hex_char_of(d as int)],
{
    match d {
        0 => { proof { reveal_strlit("0"); assert("0"@ =~= seq![hex_char_of(0)]); } "0" },
        1 => { proof { reveal_strlit("1"); assert("1"@ =~= seq![hex_char_of(1)]); } "1" },
        2 => { proof { reveal_strlit("2"); assert("2"@ =~= seq![hex_char_of(2)]); } "2" },
        3 => { proof { reveal_strlit("3"); assert("3"@ =~= seq![hex_char_of(3)]); } "3" },
        4 => { proof { reveal_strlit("4"); assert("4"@ =~= seq![hex_char_of(4)]); } "4" },
        5 => { proof { reveal_strlit("5"); assert("5"@ =~= seq![hex_char_of(5)]); } "5" },
        6 => { proof { reveal_strlit("6"); assert("6"@ =~= seq![hex_char_of(6)]); } "6" },
        7 => { proof { reveal_strlit("7"); assert("7"@ =~= seq![hex_char_of(7)]); } "7" },
        8 => { proof { reveal_strlit("8"); assert("8"@ =~= seq![hex_char_of(8)]); } "8" },
        9 => { proof { reveal_strlit("9"); assert("9"@ =~= seq![hex_char_of(9)]); } "9" },
        10 => { proof { reveal_strlit("a"); assert("a"@ =~= seq![hex_char_of(10)]); } "a" },
        11 => { proof { reveal_strlit("b"); assert("b"@ =~= seq![hex_char_of(11)]); } "b" },
        12 => { proof { reveal_strlit("c"); assert("c"@ =~= seq![hex_char_of(12)]); } "c" },
        13 => { proof { reveal_strlit("d"); assert("d"@ =~= seq![hex_char_of(13)]); } "d" },
        14 => { proof { reveal_strlit("e"); assert("e"@ =~= seq![hex_char_of(14)]); } "e" },
        _ => { proof { reveal_strlit("f"); assert("f"@ =~= seq![hex_char_of(15)]); } "f" },
    }
}

fn hex_digits(x: u128, n: usize) -> (s: String)
    ensures
        s@ == hex_digits_of(x as int, n as nat),
    decreases n,
{
    if n == 0 {
        let s = String::new();
        proof {
            assert(s@ =~= hex_digits_of(x as int, 0));
        }
        s
    } else {
        let rest = hex_digits(x / 16, n - 1);
        let ds = hex_digit_str((x % 16) as u8);
        let out = rest.concat(ds);
        proof {
            assert(out@ =~= hex_digits_of(x as int, n as nat));
        }
        out
    }
}

/// Writes an identifier in its canonical form: 32 lower-case hexadecimal digits.
pub fn hex32(x: u128) -> (s: String)
    ensures
        s@ == hex32_of(x),
{
    hex_digits(x, 32)
}

fn hex_val(c: char) -> (r: Option<u8>)
    ensures
        match r {
            Some(d) => hex_val_of(c) == Some(d as int) && d < 16,
            None => hex_val_of(c) == None::<int>,
        },
{
    if c == '0' { Some(0) }
    else if c == '1' { Some(1) }
    else if c == '2' { Some(2) }
    else if c == '3' { Some(3) }
    else if c == '4' { Some(4) }
    else if c == '5' { Some(5) }
    else if c == '6' { Some(6) }
    else if c == '7' { Some(7) }
    else if c == '8' { Some(8) }
    else if c == '9' { Some(9) }
    else if c == 'a' { Some(10) }
    else if c == 'b' { Some(11) }
    else if c == 'c' { Some(12) }
    else if c == 'd' { Some(13) }
    else if c == 'e' { Some(14) }
    else if c == 'f' { Some(15) }
    else { None }
}

proof fn lemma_hex_seq_val_none(s: Seq<char>, i: int)
    requires
        0 <= i < s.len(),
        hex_val_of(s[i]) == None::<int>,
    ensures
        hex_seq_val_of(s) == None::<int>,
    decreases s.len(),
{
    if i == s.len() - 1 {
    } else {
        lemma_hex_seq_val_none(s.drop_last(), i);
    }
}

/// Reads back a 32-digit lower-case hexadecimal identifier; any other
/// string yields `None`.
pub fn parse_hex32(s: &str) -> (r: Option<u128>)
    ensures
        match r {
            Some(v) => parse_hex32_of(s@) == Some(v as int),
            None => parse_hex32_of(s@) == None::<int>,
        },
{
    let n = s.unicode_len();
    if n != 32 {
        return None;
    }
    let mut acc: u128 = 0;
    let mut i: usize = 0;
    proof {
        vstd::arithmetic::power::lemma_pow0(16);
    }
    while i < 32
        invariant
            s@.len() == 32,
            0 <= i <= 32,
            hex_seq_val_of(s@.subrange(0, i as int)) == Some(acc as int),
            (acc as int) < pow(16, i as nat),
        decreases 32 - i,
    {
        let c = s.get_char(i);
        match hex_val(c) {
            None => {
                proof {
                    lemma_hex_seq_val_none(s@, i as int);
                }
                return None;
            },
            Some(d) => {
                proof {
                    lemma_pow_increases(16, i as nat, 31);
                    lemma_pow16_31();
                    assert(pow(16, (i + 1) as nat) == 16 * pow(16, i as nat)) by {
                        reveal(pow);
                    }
                    assert(s@.subrange(0, (i + 1) as int).drop_last() =~= s@.subrange(0, i as int));
                    assert(s@.subrange(0, (i + 1) as int).last() == s@[i as int]);
                }
                acc = acc * 16 + (d as u128);
                i = i + 1;
            },
        }
    }
    proof {
        assert(s@.subrange(0, 32) =~= s@);
    }
    Some(acc)
}

/// The store key under which an access token's entry lives.
pub open spec fn access_key_of(id: u128) -> Seq<char> {
    "ACCESS:"@ + hex32_of(id)
}

/// The store key under which a refresh token's entry lives.
pub open spec fn refresh_key_of(id: u128) -> Seq<char> {
    "REFRESH:"@ + hex32_of(id)
}

/// The composite value stored for either half of a pair: the owning user's
/// id, a separating colon, and the sibling token's id.
pub open spec fn entry_value_of(user: u128, sibling: u128) -> Seq<char> {
    hex32_of(user) + ":"@ + hex32_of(sibling)
}

/// Builds the access-side store key for a token id.
pub fn access_key(id: u128) -> (s: String)
    ensures
        s@ == access_key_of(id),
{
    let tail = hex32(id);
    "ACCESS:".to_owned().concat(tail.as_str())
}

/// Builds the refresh-side store key for a token id.
pub fn refresh_key(id: u128) -> (s: String)
    ensures
        s@ == refresh_key_of(id),
{
    let tail = hex32(id);
    "REFRESH:".to_owned().concat(tail.as_str())
}

/// Builds the composite value stored for a token: owner, colon, sibling.
pub fn entry_value(user: u128, sibling: u128) -> (s: String)
    ensures
        s@ == entry_value_of(user, sibling),
{
    let tail = hex32(sibling);
    hex32(user).concat(":").concat(tail.as_str())
}

/// A stored composite value read back as the owning user's id and the
/// sibling token's id, `None` for anything not in the canonical layout.
pub open spec fn parse_entry_of(s: Seq<char>) -> Option<(int, int)> {
    if s.len() == 65 && s[32] == ':' {
        match (parse_hex32_of(s.subrange(0, 32)), parse_hex32_of(s.subrange(33, 65))) {
            (Some(u), Some(t)) => Some((u, t)),
            _ => None,
        }
    } else {
        None
    }
}

/// Splits a stored composite value at its colon and reads both identifiers back.
pub fn parse_entry(s: &str) -> (r: Option<(u128, u128)>)
    ensures
        match r {
            Some(p) => parse_entry_of(s@) == Some((p.0 as int, p.1 as int)),
            None => parse_entry_of(s@) == None::<(int, int)>,
        },
{
    let n = s.unicode_len();
    if n != 65 {
        return None;
    }
    if s.get_char(32) != ':' {
        return None;
    }
    let left = s.substring_char(0, 32);
    let right = s.substring_char(33, 65);
    match (parse_hex32(left), parse_hex32(right)) {
        (Some(u), Some(t)) => Some((u, t)),
        _ => None,
    }
}

/// A stored composite value reads back exactly as the pair it was built from.
pub proof fn lemma_entry_value_round_trip(user: u128, sibling: u128)
    ensures
        parse_entry_of(entry_value_of(user, sibling)) == Some((user as int, sibling as int)),
{
    reveal_strlit(":");
    lemma_hex_digits_len(user as int, 32);
    lemma_hex_digits_len(sibling as int, 32);
    let s = entry_value_of(user, sibling);
    assert(s[32] == ':');
    assert(s.subrange(0, 32) =~= hex32_of(user));
    assert(s.subrange(33, 65) =~= hex32_of(sibling));
    lemma_hex32_round_trip(user);
    lemma_hex32_round_trip(sibling);
}

/// The access and refresh key families can never collide.
pub proof fn lemma_key_families_disjoint(a: u128, r: u128)
    ensures
        access_key_of(a) != refresh_key_of(r),
{
    reveal_strlit("ACCESS:");
    reveal_strlit("REFRESH:");
    assert(access_key_of(a)[0] == 'A');
    assert(refresh_key_of(r)[0] == 'R');
}

/// Within a key family, distinct token ids get distinct keys.
pub proof fn lemma_access_key_injective(a: u128, b: u128)
    requires
        access_key_of(a) == access_key_of(b),
    ensures
        a == b,
{
    reveal_strlit("ACCESS:");
    lemma_hex_digits_len(a as int, 32);
    lemma_hex_digits_len(b as int, 32);
    assert(access_key_of(a).subrange(7, 39) =~= hex32_of(a));
    assert(access_key_of(b).subrange(7, 39) =~= hex32_of(b));
    lemma_hex32_round_trip(a);
    lemma_hex32_round_trip(b);
}

} // verus!
