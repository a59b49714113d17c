//! Construction of navigation targets: a school's page URL is the fixed
//! district base path with the school's numeric identifier in decimal.

use vstd::prelude::*;
use vstd::string::StringExecFns;
use crate::text::push_char;

verus! {

/// The decimal digit character for `d`.
pub open spec fn digit_char(d: int) -> char
    recommends
        0 <= d < 10,
{
    ((48 + d) as u8) as char
}

/// The decimal text of a non-negative number, most significant digit first.
pub open spec fn decimal_of(n: int) -> Seq<char>
    recommends
        n >= 0,
    decreases n,
{
    if n < 10 {
        seq![digit_char(n)]
    } else {
        decimal_of(n / 10) + seq![digit_char(n % 10)]
    }
}

/// The decimal text of a signed number.
pub open spec fn int_decimal(n: int) -> Seq<char> {
    if n < 0 {
        seq!['-'] + decimal_of(-n)
    } else {
        decimal_of(n)
    }
}

/// Render a school identifier in decimal.
pub fn i32_to_decimal(n: i32) -> (r: String)
    ensures
        r@ == int_decimal(n as int),
{
    let mut m: i64 = n as i64;
    let mut r = String::new();
    if m < 0 {
        push_char(&mut r, '-');
        m = -m;
    }
    let ghost abs = m as int;
    let mut digits: Vec<char> = Vec::new();
    loop
        invariant_except_break
            digits@.len() > 0 ==> m > 0,
        invariant
            0 <= m <= abs <= 0x8000_0000,
            digits@.len() == 0 ==> m == abs,
            decimal_of(abs) == (if digits@.len() == 0 {
                decimal_of(m as int)
            } else if m > 0 {
                decimal_of(m as int) + digits@
            } else {
                digits@
            }),
        ensures
            m == 0,
            digits@.len() > 0,
            decimal_of(abs) == digits@,
        decreases m,
    {
        let ghost old_digits = digits@;
        let ghost old_m = m as int;
        let d = (48 + (m % 10)) as u8 as char;
        proof {
            assert(d == digit_char(old_m % 10));
        }
        digits.insert(0, d);
        m = m / 10;
        proof {
            assert(digits@ =~= seq![d] + old_digits);
            if old_m < 10 {
                assert(decimal_of(old_m) == seq![digit_char(old_m)]);
                assert(digits@ =~= decimal_of(old_m) + old_digits);
                if old_digits.len() == 0 {
                    assert(digits@ =~= decimal_of(old_m));
                }
            } else {
                assert(decimal_of(old_m) == decimal_of(old_m / 10) + seq![digit_char(old_m % 10)]);
                if old_digits.len() == 0 {
                    assert(digits@ =~= seq![digit_char(old_m % 10)]);
                    assert(decimal_of(m as int) + digits@ =~= decimal_of(old_m));
                } else {
                    assert(decimal_of(m as int) + digits@ =~= (decimal_of(old_m / 10) + seq![
                        digit_char(old_m % 10),
                    ]) + old_digits);
                }
            }
        }
        if m == 0 {
            break;
        }
    }
    let mut i: usize = 0;
    let ghost signed = r@;
    while i < digits.len()
        invariant
            i <= digits@.len(),
            r@ == signed + digits@.subrange(0, i as int),
        decreases digits@.len() - i,
    {
        push_char(&mut r, digits[i]);
        proof {
            assert(digits@.subrange(0, i + 1) =~= digits@.subrange(0, i as int) + seq![
                digits@[i as int],
            ]);
        }
        i = i + 1;
    }
    proof {
        assert(digits@.subrange(0, digits@.len() as int) =~= digits@);
        if n < 0 {
            assert(signed =~= seq!['-']);
            assert(abs == -(n as int));
        } else {
            assert(signed =~= Seq::<char>::empty());
            assert(abs == n as int);
        }
        assert(r@ =~= int_decimal(n as int));
    }
    r
}

/// The fixed base path under which a school's page lives.
pub fn district_base_url() -> (r: &'static str)
    ensures
        r@ == "https://bcs.edsby.com/p/District/"@,
{
    "https://bcs.edsby.com/p/District/"
}

/// The navigation target for a school: the district base path followed by
/// the school's identifier in decimal.
pub fn get_school_url(school_id: i32) -> (r: String)
    ensures
        r@ == "https://bcs.edsby.com/p/District/"@ + int_decimal(school_id as int),
        r@.len() > 0,
{
    let mut r = String::from_str(district_base_url());
    let num = i32_to_decimal(school_id);
    r.append(num.as_str());
    proof {
        reveal_strlit("https://bcs.edsby.com/p/District/");
    }
    r
}

} // verus!
