//! Reading a money amount typed into a form, in minor units (cents).
//!
//! Accepted: decimal digits, optionally one `.` followed by at most two
//! digits, with at least one digit in all ("25", "25.5", "25.50", "5.", ".5").
use vstd::prelude::*;

verus! {

/// Largest amount, in cents.
pub const MAX_CENTS: u128 = 0xffff_ffff_ffff_ffff;

/// What has been read of an amount so far.
pub struct AmountScan {
    /// Nothing outside the grammar has been read.
    pub ok: bool,
    pub seen_dot: bool,
    /// Digits before the dot.
    pub int_digits: nat,
    /// Value of the whole part, held at `MAX_CENTS + 1` once it exceeds `MAX_CENTS`.
    pub int_value: nat,
    /// Digits after the dot, and their value.
    pub frac_digits: nat,
    pub frac_value: nat,
}

/// `c` is one of '0' to '9'.
pub open spec fn is_digit(c: char) -> bool {
    48 <= c as u32 <= 57
}

/// Value of the digit `c`.
pub open spec fn digit_value(c: char) -> nat {
    (c as u32 - 48) as nat
}

/// The scan after reading one more character.
pub open spec fn scan_step(st: AmountScan, c: char) -> AmountScan {
    if !st.ok {
        st
    } else if c == '.' {
        if st.seen_dot {
            AmountScan { ok: false, ..st }
        } else {
            AmountScan { seen_dot: true, ..st }
        }
    } else if is_digit(c) {
        if st.seen_dot {
            if st.frac_digits >= 2 {
                AmountScan { ok: false, ..st }
            } else {
                AmountScan {
                    frac_digits: st.frac_digits + 1,
                    frac_value: st.frac_value * 10 + digit_value(c),
                    ..st
                }
            }
        } else {
            let v = st.int_value * 10 + digit_value(c);
            AmountScan {
                int_digits: st.int_digits + 1,
                int_value: if v > MAX_CENTS { (MAX_CENTS + 1) as nat } else { v },
                ..st
            }
        }
    } else {
        AmountScan { ok: false, ..st }
    }
}

/// The scan of a whole text, character by character from the left.
pub open spec fn scan_amount(s: Seq<char>) -> AmountScan
    decreases s.len(),
{
    if s.len() == 0 {
        AmountScan {
            ok: true,
            seen_dot: false,
            int_digits: 0,
            int_value: 0,
            frac_digits: 0,
            frac_value: 0,
        }
    } else {
        scan_step(scan_amount(s.drop_last()), s.last())
    }
}

/// Cents that a scan stands for: the whole part times 100 plus the
/// fraction scaled to two digits.
pub open spec fn scan_cents(st: AmountScan) -> nat {
    st.int_value * 100 + if st.frac_digits == 1 { st.frac_value * 10 } else { st.frac_value }
}

/// The amount in cents that `s` denotes, or `None` where `s` is not an
/// amount or the amount exceeds `MAX_CENTS`.
pub open spec fn amount_cents(s: Seq<char>) -> Option<u64> {
    let st = scan_amount(s);
    if st.ok && st.int_digits + st.frac_digits >= 1 && scan_cents(st) <= MAX_CENTS {
        Some(scan_cents(st) as u64)
    } else {
        None
    }
}

/// Reads `text` as an amount in cents.
pub fn parse_amount(text: &str) -> (r: Option<u64>)
    ensures
        r == amount_cents(text@),
{
    let n = text.unicode_len();
    let mut ok = true;
    let mut seen_dot = false;
    let mut int_digits: usize = 0;
    let mut int_value: u128 = 0;
    let mut frac_digits: usize = 0;
    let mut frac_value: u128 = 0;
    let mut i: usize = 0;
    while i < n
        invariant
            n == text@.len(),
            i <= n,
            int_digits <= i,
            frac_digits <= 2,
            int_value <= MAX_CENTS + 1,
            frac_value < 100,
            frac_digits == 0 ==> frac_value == 0,
            frac_digits == 1 ==> frac_value < 10,
            ({
                let st = scan_amount(text@.take(i as int));
                &&& st.ok == ok
                &&& st.seen_dot == seen_dot
                &&& st.int_digits == int_digits
                &&& st.int_value == int_value
                &&& st.frac_digits == frac_digits
                &&& st.frac_value == frac_value
            }),
        decreases n - i,
    {
        let c = text.get_char(i);
        assert(text@.take(i + 1).drop_last() =~= text@.take(i as int));
        assert(text@.take(i + 1).last() == c);
        if ok {
            if c == '.' {
                if seen_dot {
                    ok = false;
                } else {
                    seen_dot = true;
                }
            } else if 48 <= c as u32 && c as u32 <= 57 {
                let d = (c as u32 - 48) as u128;
                if seen_dot {
                    if frac_digits >= 2 {
                        ok = false;
                    } else {
                        frac_digits = frac_digits + 1;
                        frac_value = frac_value * 10 + d;
                    }
                } else {
                    int_digits = int_digits + 1;
                    let v = int_value * 10 + d;
                    int_value = if v > MAX_CENTS { MAX_CENTS + 1 } else { v };
                }
            } else {
                ok = false;
            }
        }
        i = i + 1;
    }
    assert(text@.take(n as int) =~= text@);
    if ok && (int_digits > 0 || frac_digits > 0) {
        let cents = int_value * 100 + if frac_digits == 1 { frac_value * 10 } else { frac_value };
        if cents <= MAX_CENTS {
            return Some(cents as u64);
        }
    }
    None
}

} // verus!
