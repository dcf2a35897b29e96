//! Character and text utilities: string/character conversions, decimal
//! rendering of counters, and interpretation of integer number tokens.

use vstd::prelude::*;
use vstd::std_specs::iter::IteratorSpec;

verus! {

broadcast use vstd::string::group_string_axioms, vstd::seq::group_seq_axioms;

/// Relies on `core::char::from_u32`: it returns `Some` exactly for valid
/// Unicode scalar values (not a surrogate, at most `0x10FFFF`), and the
/// returned character has the given code point.
#[verifier::external_body]
pub(crate) fn char_from_u32(v: u32) -> (r: Option<char>)
    ensures
        r matches Some(c) ==> c as u32 == v,
        r is Some <==> (v < 0xD800 || (0xE000 <= v && v <= 0x10FFFF)),
{
    char::from_u32(v)
}

/// Relies on `String`'s `FromIterator<char>` implementation: collecting
/// characters yields a string holding exactly those characters in order.
#[verifier::external_body]
pub(crate) fn string_from_chars(v: &Vec<char>) -> (r: String)
    ensures
        r@ == v@,
{
    v.iter().collect()
}

/// Relies on `String::from_utf8`: it succeeds exactly on valid UTF-8 input
/// and returns its decoding.
#[verifier::external_body]
pub(crate) fn utf8_to_string(b: Vec<u8>) -> (r: Option<String>)
    ensures
        r is Some <==> vstd::utf8::valid_utf8(b@),
        r matches Some(s) ==> s@ == vstd::utf8::decode_utf8(b@),
{
    String::from_utf8(b).ok()
}

/// What `String::from_utf8_lossy` returns: a function of the bytes alone.
pub uninterp spec fn lossy_decode(b: Seq<u8>) -> Seq<char>;

/// Relies on `String::from_utf8_lossy`: the result depends on the bytes
/// alone, and valid UTF-8 input is decoded unchanged.
#[verifier::external_body]
pub(crate) fn utf8_to_string_lossy(b: &Vec<u8>) -> (r: String)
    ensures
        r@ == lossy_decode(b@),
        vstd::utf8::valid_utf8(b@) ==> r@ == vstd::utf8::decode_utf8(b@),
{
    String::from_utf8_lossy(b.as_slice()).into_owned()
}

/// The characters of `s`, as a vector.
pub fn chars_of(s: &str) -> (r: Vec<char>)
    ensures
        r@ == s@,
{
    let mut it = s.chars();
    let mut out: Vec<char> = Vec::new();
    loop
        invariant
            out@ + it.remaining() == s@,
        decreases s@.len() - out@.len(),
    {
        let ghost prev = it;
        match it.next() {
            Some(c) => {
                out.push(c);
                proof {
                    assert(prev.remaining()[0] == c);
                    assert(out@ + it.remaining() =~= s@);
                }
            },
            None => {
                proof {
                    assert(out@ + it.remaining() =~= out@);
                }
                return out;
            },
        }
    }
}

/// The decimal digit character for a value below ten.
pub open spec fn digit_char(d: int) -> char {
    if d == 0 {
        '0'
    } else if d == 1 {
        '1'
    } else if d == 2 {
        '2'
    } else if d == 3 {
        '3'
    } else if d == 4 {
        '4'
    } else if d == 5 {
        '5'
    } else if d == 6 {
        '6'
    } else if d == 7 {
        '7'
    } else if d == 8 {
        '8'
    } else {
        '9'
    }
}

/// The decimal rendering of a natural number, most significant digit first.
pub open spec fn dec_digits(n: int) -> Seq<char>
    decreases n,
{
    if n < 10 {
        seq![digit_char(n)]
    } else {
        dec_digits(n / 10) + seq![digit_char(n % 10)]
    }
}

/// Appends the decimal rendering of `n` to `out`.
pub fn push_dec_u64(n: u64, out: &mut Vec<char>)
    ensures
        final(out)@ == old(out)@ + dec_digits(n as int),
    decreases n,
{
    if n >= 10 {
        push_dec_u64(n / 10, out);
    }
    let d = n % 10;
    let c: char = if d == 0 {
        '0'
    } else if d == 1 {
        '1'
    } else if d == 2 {
        '2'
    } else if d == 3 {
        '3'
    } else if d == 4 {
        '4'
    } else if d == 5 {
        '5'
    } else if d == 6 {
        '6'
    } else if d == 7 {
        '7'
    } else if d == 8 {
        '8'
    } else {
        '9'
    };
    out.push(c);
    proof {
        assert(out@ =~= old(out)@ + dec_digits(n as int));
    }
}

/// The decimal rendering of `n`, as a string.
pub fn dec_string_u64(n: u64) -> (r: String)
    ensures
        r@ == dec_digits(n as int),
{
    let mut out: Vec<char> = Vec::new();
    push_dec_u64(n, &mut out);
    string_from_chars(&out)
}

/// Whether `c` is a decimal digit character.
pub open spec fn is_digit(c: char) -> bool {
    '0' <= c && c <= '9'
}

/// The value of a decimal digit character.
pub open spec fn digit_val(c: char) -> int {
    c as int - '0' as int
}

/// Whether `t` is a run of one or more decimal digits.
pub open spec fn all_digits(t: Seq<char>) -> bool {
    forall|i: int| 0 <= i < t.len() ==> is_digit(#[trigger] t[i])
}

/// The value of a run of decimal digits, most significant digit first.
pub open spec fn digits_val(t: Seq<char>) -> int
    decreases t.len(),
{
    if t.len() == 0 {
        0
    } else {
        digits_val(t.drop_last()) * 10 + digit_val(t.last())
    }
}

/// Whether `t` is an integer token: an optional minus sign followed by one
/// or more decimal digits.
pub open spec fn is_int_token(t: Seq<char>) -> bool {
    if t.len() > 0 && t[0] == '-' {
        t.len() > 1 && all_digits(t.skip(1))
    } else {
        t.len() > 0 && all_digits(t)
    }
}

/// The value of an integer token.
pub open spec fn int_token_val(t: Seq<char>) -> int {
    if t.len() > 0 && t[0] == '-' {
        -digits_val(t.skip(1))
    } else {
        digits_val(t)
    }
}

proof fn lemma_digits_val_bounds(t: Seq<char>)
    requires
        all_digits(t),
    ensures
        0 <= digits_val(t),
    decreases t.len(),
{
    if t.len() > 0 {
        assert(all_digits(t.drop_last()));
        lemma_digits_val_bounds(t.drop_last());
    }
}

/// Interprets a run of decimal digits, capping at `u128` scale: returns
/// `None` when the value does not fit in a `u64`.
fn digits_to_u64(t: &Vec<char>, from: usize) -> (r: Option<u64>)
    requires
        from < t@.len(),
        all_digits(t@.skip(from as int)),
    ensures
        r matches Some(v) ==> v == digits_val(t@.skip(from as int)),
        r is None ==> digits_val(t@.skip(from as int)) > u64::MAX,
{
    let ghost whole = t@.skip(from as int);
    let mut acc: u128 = 0;
    let mut i: usize = from;
    proof {
        assert(t@.skip(from as int).take(0) =~= Seq::<char>::empty());
    }
    while i < t.len()
        invariant
            from <= i <= t@.len(),
            whole == t@.skip(from as int),
            all_digits(whole),
            acc == digits_val(whole.take(i - from)),
            acc <= 0xFFFF_FFFF_FFFF_FFFFu128 * 11,
        decreases t@.len() - i,
    {
        proof {
            lemma_digits_val_bounds(whole.take(i - from));
        }
        if acc > 0xFFFF_FFFF_FFFF_FFFF {
            proof {
                lemma_digits_prefix_monotonic(whole, i - from);
            }
            return None;
        }
        let c = t[i];
        assert(c == whole[i - from]);
        let d: u32 = c as u32 - 48;
        acc = acc * 10 + d as u128;
        i = i + 1;
        proof {
            assert(whole.take(i - from).drop_last() =~= whole.take(i - from - 1));
            assert(whole.take(i - from).last() == c);
        }
    }
    proof {
        assert(whole.take(i - from) =~= whole);
        lemma_digits_val_bounds(whole);
    }
    if acc <= 0xFFFF_FFFF_FFFF_FFFF {
        Some(acc as u64)
    } else {
        None
    }
}

/// A digit run's value only grows as more digits are appended.
proof fn lemma_digits_prefix_monotonic(t: Seq<char>, k: int)
    requires
        all_digits(t),
        0 <= k <= t.len(),
    ensures
        digits_val(t) >= digits_val(t.take(k)),
    decreases t.len() - k,
{
    lemma_digits_val_bounds(t.take(k));
    if k < t.len() {
        lemma_digits_prefix_monotonic(t, k + 1);
        assert(t.take(k + 1).drop_last() =~= t.take(k));
        assert(digits_val(t.take(k + 1)) == digits_val(t.take(k)) * 10 + digit_val(
            t.take(k + 1).last(),
        ));
        lemma_digits_val_bounds(t.take(k + 1));
    } else {
        assert(t.take(k) =~= t);
    }
}

/// Interprets an integer token as an `i64`: `Some` exactly when `t` is an
/// integer token whose value fits.
pub fn int_token_to_i64(t: &Vec<char>) -> (r: Option<i64>)
    ensures
        r is Some <==> is_int_token(t@) && i64::MIN <= int_token_val(t@) <= i64::MAX,
        r matches Some(v) ==> v == int_token_val(t@),
{
    let n = t.len();
    if n == 0 {
        return None;
    }
    let neg = t[0] == '-';
    let start: usize = if neg {
        1
    } else {
        0
    };
    if start >= n {
        return None;
    }
    // every remaining character must be a digit
    let mut i: usize = start;
    while i < n
        invariant
            start <= i <= n,
            n == t@.len(),
            n > 0,
            neg == (t@[0] == '-'),
            start == if neg { 1int } else { 0int },
            forall|j: int| start <= j < i ==> is_digit(#[trigger] t@[j]),
        decreases n - i,
    {
        let c = t[i];
        if c < '0' || c > '9' {
            proof {
                assert(!is_digit(t@[i as int]));
                if neg {
                    assert(t@.skip(1)[i - 1] == t@[i as int]);
                    assert(!all_digits(t@.skip(1)));
                } else {
                    assert(!all_digits(t@));
                }
            }
            return None;
        }
        i = i + 1;
    }
    proof {
        assert(forall|j: int|
            0 <= j < t@.skip(start as int).len() ==> is_digit(#[trigger] t@.skip(start as int)[j]));
    }
    let mag = match digits_to_u64(t, start) {
        Some(v) => v,
        None => {
            proof {
                if neg {
                    assert(int_token_val(t@) == -digits_val(t@.skip(1)));
                } else {
                    assert(int_token_val(t@) == digits_val(t@));
                    assert(t@.skip(0) =~= t@);
                }
            }
            return None;
        },
    };
    proof {
        if !neg {
            assert(t@.skip(0) =~= t@);
        }
    }
    if neg {
        if mag > 0x8000_0000_0000_0000 {
            return None;
        }
        if mag == 0x8000_0000_0000_0000 {
            return Some(i64::MIN);
        }
        Some(-(mag as i64))
    } else {
        if mag > 0x7FFF_FFFF_FFFF_FFFF {
            return None;
        }
        Some(mag as i64)
    }
}

} // verus!


verus! {

/// Whether two strings hold the same characters.
pub fn str_eq(a: &str, b: &str) -> (r: bool)
    ensures
        r == (a@ == b@),
{
    let av = chars_of(a);
    let bv = chars_of(b);
    if av.len() != bv.len() {
        return false;
    }
    let mut k: usize = 0;
    while k < av.len()
        invariant
            0 <= k <= av@.len(),
            av@.len() == bv@.len(),
            av@ == a@,
            bv@ == b@,
            forall|j: int| 0 <= j < k ==> av@[j] == bv@[j],
        decreases av@.len() - k,
    {
        if av[k] != bv[k] {
            return false;
        }
        k = k + 1;
    }
    proof {
        assert(a@ =~= b@);
    }
    true
}

} // verus!
