use vstd::arithmetic::div_mod::{
    lemma_fundamental_div_mod, lemma_fundamental_div_mod_converse, lemma_mod_bound,
};
use vstd::prelude::*;

verus! {

/// A calendar date carried as plain year, month and day values, as stored in
/// the fixed ten-byte `YYYY-MM-DD` form; only such dates are representable.
#[derive(Debug, Clone, Copy, PartialEq, Eq, Structural)]
pub struct NDWrapper {
    pub year: u16,
    pub month: u8,
    pub day: u8,
}

/// Whether a year is a leap year.
pub open spec fn is_leap_year(y: int) -> bool {
    (y % 4 == 0 && y % 100 != 0) || y % 400 == 0
}

/// The number of days of a month.
pub open spec fn days_in_month(y: int, m: int) -> int {
    if m == 2 {
        if is_leap_year(y) {
            29
        } else {
            28
        }
    } else if m == 4 || m == 6 || m == 9 || m == 11 {
        30
    } else {
        31
    }
}

/// A date that the ten-byte form can carry: a four-digit year and a real
/// day of a real month.
pub open spec fn nd_valid(d: NDWrapper) -> bool {
    &&& d.year <= 9999
    &&& 1 <= d.month <= 12
    &&& 1 <= d.day <= days_in_month(d.year as int, d.month as int)
}

/// The ASCII byte of one decimal digit.
pub open spec fn digit8(d: int) -> u8 {
    (48 + d) as u8
}

/// The fixed ten-byte form of a date: four year digits, a dash, two month
/// digits, a dash, two day digits.
pub open spec fn date_bytes(d: NDWrapper) -> Seq<u8> {
    let y = d.year as int;
    let m = d.month as int;
    let dd = d.day as int;
    seq![
        digit8(y / 10 / 10 / 10),
        digit8(y / 10 / 10 % 10),
        digit8(y / 10 % 10),
        digit8(y % 10),
        45u8,
        digit8(m / 10),
        digit8(m % 10),
        45u8,
        digit8(dd / 10),
        digit8(dd % 10),
    ]
}

/// What the ten-byte form of a valid date looks like, and how its digit
/// bytes recombine into the date's fields.
proof fn lemma_date_bytes_facts(d0: NDWrapper)
    requires
        nd_valid(d0),
    ensures
        date_bytes(d0).len() == 10,
        date_bytes(d0)[4] == 45,
        date_bytes(d0)[7] == 45,
        forall|j: int|
            0 <= j < 10 && j != 4 && j != 7 ==> 48 <= #[trigger] date_bytes(d0)[j] <= 57,
        (date_bytes(d0)[0] - 48) * 1000 + (date_bytes(d0)[1] - 48) * 100 + (date_bytes(d0)[2]
            - 48) * 10 + (date_bytes(d0)[3] - 48) == d0.year,
        (date_bytes(d0)[5] - 48) * 10 + (date_bytes(d0)[6] - 48) == d0.month,
        (date_bytes(d0)[8] - 48) * 10 + (date_bytes(d0)[9] - 48) == d0.day,
{
    let y = d0.year as int;
    lemma_fundamental_div_mod(y, 10);
    lemma_fundamental_div_mod(y / 10, 10);
    lemma_fundamental_div_mod(y / 10 / 10, 10);
    lemma_mod_bound(y, 10);
    lemma_mod_bound(y / 10, 10);
    lemma_mod_bound(y / 10 / 10, 10);
    lemma_fundamental_div_mod(d0.month as int, 10);
    lemma_mod_bound(d0.month as int, 10);
    lemma_fundamental_div_mod(d0.day as int, 10);
    lemma_mod_bound(d0.day as int, 10);
    assert(0 <= y / 10 <= 999);
    assert(0 <= y / 10 / 10 <= 99);
    assert(0 <= y / 10 / 10 / 10 <= 9);
}

/// Distinct valid dates have distinct ten-byte forms.
pub proof fn lemma_date_bytes_injective(a: NDWrapper, b: NDWrapper)
    requires
        nd_valid(a),
        nd_valid(b),
        date_bytes(a) == date_bytes(b),
    ensures
        a == b,
{
    lemma_date_bytes_facts(a);
    lemma_date_bytes_facts(b);
}

impl NDWrapper {
    /// The number of days of this date's month.
    pub fn days_in_this_month(&self) -> (r: u8)
        requires
            1 <= self.month <= 12,
        ensures
            r == days_in_month(self.year as int, self.month as int),
    {
        if self.month == 2 {
            let leap = (self.year % 4 == 0 && self.year % 100 != 0) || self.year % 400 == 0;
            if leap {
                29
            } else {
                28
            }
        } else if self.month == 4 || self.month == 6 || self.month == 9 || self.month == 11 {
            30
        } else {
            31
        }
    }

    /// Write this date in its fixed ten-byte form.
    pub fn write_to(&self) -> (r: Vec<u8>)
        requires
            nd_valid(*self),
        ensures
            r@ == date_bytes(*self),
    {
        let y10 = self.year / 10;
        let y100 = y10 / 10;
        let y1000 = y100 / 10;
        let mut out: Vec<u8> = Vec::new();
        out.push(48 + y1000 as u8);
        out.push(48 + (y100 % 10) as u8);
        out.push(48 + (y10 % 10) as u8);
        out.push(48 + (self.year % 10) as u8);
        out.push(45);
        out.push(48 + self.month / 10);
        out.push(48 + self.month % 10);
        out.push(45);
        out.push(48 + self.day / 10);
        out.push(48 + self.day % 10);
        proof {
            assert(out@ =~= date_bytes(*self));
        }
        out
    }

    /// The number of bytes the ten-byte form always takes.
    pub fn bytes_needed(&self) -> (r: usize)
        ensures
            r == date_bytes(*self).len(),
    {
        10
    }

    /// The least number of bytes a reader must have at hand.
    pub fn minimum_bytes_needed() -> (r: usize)
        ensures
            r == 10,
    {
        10
    }

    /// Read a date back from its fixed ten-byte form. Exactly the byte
    /// sequences that some valid date writes are accepted, and reading
    /// recovers that date's fields.
    pub fn read_from(bytes: &[u8]) -> (r: Option<NDWrapper>)
        ensures
            r matches Some(d) ==> nd_valid(d) && date_bytes(d) == bytes@,
            r is None ==> !(exists|d0: NDWrapper|
                nd_valid(d0) && bytes@ == #[trigger] date_bytes(d0)),
    {
        if bytes.len() != 10 {
            proof {
                assert forall|d0: NDWrapper|
                    nd_valid(d0) && bytes@ == date_bytes(d0) implies false by {
                    lemma_date_bytes_facts(d0);
                }
            }
            return None;
        }
        if bytes[4] != 45 || bytes[7] != 45 {
            proof {
                assert forall|d0: NDWrapper|
                    nd_valid(d0) && bytes@ == date_bytes(d0) implies false by {
                    lemma_date_bytes_facts(d0);
                }
            }
            return None;
        }
        let mut i: usize = 0;
        while i < 10
            invariant
                i <= 10,
                bytes@.len() == 10,
                forall|j: int|
                    0 <= j < i as int && j != 4 && j != 7 ==> 48 <= #[trigger] bytes@[j] <= 57,
            decreases 10 - i,
        {
            if i != 4 && i != 7 && (bytes[i] < 48 || bytes[i] > 57) {
                proof {
                    assert forall|d0: NDWrapper|
                        nd_valid(d0) && bytes@ == date_bytes(d0) implies false by {
                        lemma_date_bytes_facts(d0);
                        assert(bytes@[i as int] == date_bytes(d0)[i as int]);
                    }
                }
                return None;
            }
            i = i + 1;
        }
        let b0 = bytes[0] - 48;
        let b1 = bytes[1] - 48;
        let b2 = bytes[2] - 48;
        let b3 = bytes[3] - 48;
        let b5 = bytes[5] - 48;
        let b6 = bytes[6] - 48;
        let b8 = bytes[8] - 48;
        let b9 = bytes[9] - 48;
        let year: u16 = b0 as u16 * 1000 + b1 as u16 * 100 + b2 as u16 * 10 + b3 as u16;
        let month: u8 = b5 * 10 + b6;
        let day: u8 = b8 * 10 + b9;
        let d = NDWrapper { year, month, day };
        let ok = 1 <= month && month <= 12 && 1 <= day && day <= d.days_in_this_month();
        if ok {
            proof {
                let y = year as int;
                lemma_fundamental_div_mod_converse(
                    y,
                    10,
                    b0 as int * 100 + b1 as int * 10 + b2 as int,
                    b3 as int,
                );
                lemma_fundamental_div_mod_converse(
                    y / 10,
                    10,
                    b0 as int * 10 + b1 as int,
                    b2 as int,
                );
                lemma_fundamental_div_mod_converse(y / 10 / 10, 10, b0 as int, b1 as int);
                lemma_fundamental_div_mod_converse(month as int, 10, b5 as int, b6 as int);
                lemma_fundamental_div_mod_converse(day as int, 10, b8 as int, b9 as int);
                assert(date_bytes(d) =~= bytes@);
            }
            Some(d)
        } else {
            proof {
                assert forall|d0: NDWrapper|
                    nd_valid(d0) && bytes@ == date_bytes(d0) implies false by {
                    lemma_date_bytes_facts(d0);
                    assert(d0.year == year && d0.month == month && d0.day == day);
                }
            }
            None
        }
    }
}

} // verus!
