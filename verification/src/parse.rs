//! Verified parsing of the decimal numbers that appear in header parameters:
//! the `rport` port and the `expires` seconds.
use vstd::prelude::*;

verus! {

/// Whether `c` is a decimal digit.
pub open spec fn is_digit(c: char) -> bool {
    '0' <= c && c <= '9'
}

/// Whether every character of `s` is a decimal digit.
pub open spec fn all_digits(s: Seq<char>) -> bool {
    forall|i: int| 0 <= i < s.len() ==> is_digit(s[i])
}

/// The numeric value of a digit character.
pub open spec fn digit_val(c: char) -> nat {
    (c as nat - '0' as nat) as nat
}

/// The value of `s` read as a decimal numeral.
pub open spec fn dec_val(s: Seq<char>) -> nat
    decreases s.len(),
{
    if s.len() == 0 {
        0
    } else {
        dec_val(s.drop_last()) * 10 + digit_val(s.last())
    }
}

proof fn lemma_dec_val_grows(s: Seq<char>, i: int)
    requires
        0 <= i <= s.len(),
    ensures
        dec_val(s.take(i)) <= dec_val(s),
    decreases s.len() - i,
{
    if i < s.len() {
        assert(s.take(i + 1).drop_last() =~= s.take(i));
        assert(dec_val(s.take(i)) <= dec_val(s.take(i + 1)));
        lemma_dec_val_grows(s, i + 1);
    } else {
        assert(s.take(i) =~= s);
    }
}

/// Reads `s` as a decimal numeral. Returns its value exactly when `s` is
/// non-empty, all digits, and the value fits in a `u32`.
pub fn parse_u32_dec(s: &String) -> (r: Option<u32>)
    ensures
        r is Some <==> s@.len() > 0 && all_digits(s@) && dec_val(s@) <= u32::MAX,
        r is Some ==> r->0 == dec_val(s@),
{
    let n = s.as_str().unicode_len();
    if n == 0 {
        return None;
    }
    let mut val: u32 = 0;
    let mut i: usize = 0;
    assert(s@.take(0) =~= Seq::<char>::empty());
    while i < n
        invariant
            i <= n,
            n == s@.len(),
            all_digits(s@.take(i as int)),
            val == dec_val(s@.take(i as int)),
        decreases n - i,
    {
        let c = s.as_str().get_char(i);
        assert(s@.take(i + 1).drop_last() =~= s@.take(i as int));
        if c < '0' || c > '9' {
            assert(!is_digit(s@[i as int]));
            return None;
        }
        let d: u32 = (c as u32) - ('0' as u32);
        assert(d == digit_val(s@[i as int]));
        let wide: u64 = (val as u64) * 10 + (d as u64);
        if wide > u32::MAX as u64 {
            proof {
                lemma_dec_val_grows(s@, i + 1);
            }
            assert(dec_val(s@) > u32::MAX);
            return None;
        }
        val = wide as u32;
        i += 1;
    }
    assert(s@.take(i as int) =~= s@);
    Some(val)
}

/// Reads `s` as a decimal numeral. Returns its value exactly when `s` is
/// non-empty, all digits, and the value fits in a `u16`.
pub fn parse_u16_dec(s: &String) -> (r: Option<u16>)
    ensures
        r is Some <==> s@.len() > 0 && all_digits(s@) && dec_val(s@) <= u16::MAX,
        r is Some ==> r->0 == dec_val(s@),
{
    match parse_u32_dec(s) {
        Some(v) => {
            if v <= u16::MAX as u32 {
                Some(v as u16)
            } else {
                None
            }
        },
        None => {
            proof {
                if s@.len() > 0 && all_digits(s@) && dec_val(s@) <= u16::MAX {
                    assert(dec_val(s@) <= u32::MAX);
                }
            }
            None
        },
    }
}

} // verus!
