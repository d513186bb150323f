//! The single bounds-checking authority shared by every checked
//! container operation, and the one error kind this library raises.

use vstd::prelude::*;

verus! {

/// Relies on `String::push`: it appends exactly the one character.
#[verifier::external_body]
fn string_push(s: &mut String, c: char)
    ensures
        final(s)@ == old(s)@.push(c),
{
    s.push(c)
}

/// Relies on `String::push_str`: it appends exactly the given slice.
#[verifier::external_body]
fn string_push_str(s: &mut String, t: &str)
    ensures
        final(s)@ == old(s)@ + t@,
{
    s.push_str(t)
}

/// The character for one decimal digit.
pub open spec fn digit_char(d: nat) -> char
    recommends
        d < 10,
{
    if d == 0 {
        '0'
    } else if d == 1 {
        '1'
    } else if d == 2 {
        '2'
    } else if d == 3 {
        '3'
    } else if d == 4 {
        '4'
    } else if d == 5 {
        '5'
    } else if d == 6 {
        '6'
    } else if d == 7 {
        '7'
    } else if d == 8 {
        '8'
    } else {
        '9'
    }
}

/// The decimal rendering of a number: its digits in order, most
/// significant first, with no leading zero except for zero itself.
pub open spec fn decimal(n: nat) -> Seq<char>
    decreases n,
{
    if n < 10 {
        seq![digit_char(n)]
    } else {
        decimal(n / 10).push(digit_char(n % 10))
    }
}

/// The message an out-of-range error renders: the offending index and
/// the exclusive upper bound of the valid range, in decimal.
pub open spec fn out_of_range_message(index: nat, bound: nat) -> Seq<char> {
    "Index: "@ + decimal(index) + " out of bounds: 0.."@ + decimal(bound)
}

/// The character for one decimal digit, executably.
fn digit_to_char(d: usize) -> (c: char)
    requires
        d < 10,
    ensures
        c == digit_char(d as nat),
{
    if d == 0 {
        '0'
    } else if d == 1 {
        '1'
    } else if d == 2 {
        '2'
    } else if d == 3 {
        '3'
    } else if d == 4 {
        '4'
    } else if d == 5 {
        '5'
    } else if d == 6 {
        '6'
    } else if d == 7 {
        '7'
    } else if d == 8 {
        '8'
    } else {
        '9'
    }
}

/// The decimal digits of a number, most significant first.
fn decimal_digits(n: usize) -> (r: Vec<char>)
    ensures
        r@ == decimal(n as nat),
{
    let mut rev: Vec<char> = Vec::new();
    if n == 0 {
        rev.push('0');
        proof {
            assert(rev@.reverse() =~= decimal(0));
        }
    } else {
        let mut m: usize = n;
        proof {
            assert(decimal(n as nat) =~= decimal(n as nat) + rev@.reverse());
        }
        while m > 0
            invariant
                m > 0 ==> decimal(n as nat) == decimal(m as nat) + rev@.reverse(),
                m == 0 ==> decimal(n as nat) == rev@.reverse(),
            decreases m,
        {
            let ghost m0 = m as nat;
            let ghost rev0 = rev@;
            let d: usize = m % 10;
            rev.push(digit_to_char(d));
            m = m / 10;
            proof {
                assert(rev@.reverse() =~= seq![digit_char(m0 % 10)] + rev0.reverse());
                if m > 0 {
                    assert(decimal(m0) == decimal(m0 / 10).push(digit_char(m0 % 10)));
                    assert(decimal(m0 / 10).push(digit_char(m0 % 10)) =~= decimal(m0 / 10) + seq![
                        digit_char(m0 % 10),
                    ]);
                    assert(decimal(n as nat) =~= decimal(m as nat) + rev@.reverse());
                } else {
                    assert(decimal(m0) =~= seq![digit_char(m0 % 10)]);
                    assert(decimal(n as nat) =~= rev@.reverse());
                }
            }
        }
    }
    let mut out: Vec<char> = Vec::new();
    let mut j: usize = 0;
    proof {
        assert(out@ =~= rev@.reverse().take(0));
    }
    while j < rev.len()
        invariant
            j <= rev@.len(),
            decimal(n as nat) == rev@.reverse(),
            out@ == rev@.reverse().take(j as int),
        decreases rev@.len() - j,
    {
        out.push(rev[rev.len() - 1 - j]);
        proof {
            assert(out@ =~= rev@.reverse().take(j + 1));
        }
        j += 1;
    }
    proof {
        assert(rev@.reverse().take(rev@.len() as int) =~= rev@.reverse());
    }
    out
}

/// Appends the decimal rendering of a number to a string.
fn push_decimal(s: &mut String, n: usize)
    ensures
        final(s)@ == old(s)@ + decimal(n as nat),
{
    let digits = decimal_digits(n);
    let mut i: usize = 0;
    proof {
        assert(s@ =~= old(s)@ + digits@.take(0));
    }
    while i < digits.len()
        invariant
            i <= digits@.len(),
            digits@ == decimal(n as nat),
            s@ == old(s)@ + digits@.take(i as int),
        decreases digits@.len() - i,
    {
        string_push(s, digits[i]);
        proof {
            assert(s@ =~= old(s)@ + digits@.take(i + 1));
        }
        i += 1;
    }
    proof {
        assert(old(s)@ + digits@.take(digits@.len() as int) =~= old(s)@ + digits@);
    }
}

/// The out-of-range error: the one failure a checked container
/// operation can report. It carries the offending index and the
/// exclusive upper bound of the valid range, so a caller can see
/// exactly which access was rejected.
#[derive(Clone, Copy, Debug, PartialEq, Eq, Structural)]
pub struct OutOfRange {
    /// The index that was asked for.
    pub index: usize,
    /// The exclusive upper bound of the valid indices: the access was
    /// rejected because `index >= bound`.
    pub bound: usize,
}

impl OutOfRange {
    /// Renders the descriptive message: the offending index and the
    /// exclusive upper bound of the valid range, both in decimal.
    pub fn message(&self) -> (r: String)
        ensures
            r@ == out_of_range_message(self.index as nat, self.bound as nat),
    {
        let mut s = "Index: ".to_owned();
        push_decimal(&mut s, self.index);
        string_push_str(&mut s, " out of bounds: 0..");
        push_decimal(&mut s, self.bound);
        s
    }
}

/// Validates an index against an exclusive upper bound: succeeds
/// exactly when `index < len`, and otherwise reports the offending
/// index together with the bound.
pub fn index_check(index: usize, len: usize) -> (r: Result<(), OutOfRange>)
    ensures
        r is Ok <==> index < len,
        r is Err ==> r->Err_0 == (OutOfRange { index, bound: len }),
{
    if index >= len {
        Err(OutOfRange { index, bound: len })
    } else {
        Ok(())
    }
}

} // verus!
