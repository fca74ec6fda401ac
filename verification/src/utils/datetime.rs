//! Fiscal quarters.

use vstd::prelude::*;
use vstd::string::*;
use crate::utils::text::{decimal, u64_to_string};

verus! {

/// A quarter of a year.
#[derive(Clone, Copy, Debug, PartialEq, Eq, Structural)]
pub enum Quarter {
    Q1,
    Q2,
    Q3,
    Q4,
}

/// A quarter of a given year.
#[derive(Clone, Copy, Debug, PartialEq, Eq, Structural)]
pub struct FiscalQuarter {
    pub year: i32,
    pub quarter: Quarter,
}

/// `n` in decimal digits, with a minus sign before them where it is
/// negative.
pub open spec fn signed_decimal(n: int) -> Seq<char> {
    if n < 0 {
        "-"@ + decimal((-n) as nat)
    } else {
        decimal(n as nat)
    }
}

impl Quarter {
    /// The last day of the quarter, as month and day in two digits each.
    pub open spec fn end_day(self) -> Seq<char> {
        match self {
            Quarter::Q1 => "0331"@,
            Quarter::Q2 => "0630"@,
            Quarter::Q3 => "0930"@,
            Quarter::Q4 => "1231"@,
        }
    }

    /// The last day of the quarter, as month and day in two digits each.
    pub fn end_day_str(&self) -> (s: &'static str)
        ensures
            s@ == self.end_day(),
    {
        match self {
            Quarter::Q1 => "0331",
            Quarter::Q2 => "0630",
            Quarter::Q3 => "0930",
            Quarter::Q4 => "1231",
        }
    }
}

impl FiscalQuarter {
    /// The quarter before this one.
    pub open spec fn before(self) -> FiscalQuarter {
        match self.quarter {
            Quarter::Q1 => FiscalQuarter { year: (self.year - 1) as i32, quarter: Quarter::Q4 },
            Quarter::Q2 => FiscalQuarter { year: self.year, quarter: Quarter::Q1 },
            Quarter::Q3 => FiscalQuarter { year: self.year, quarter: Quarter::Q2 },
            Quarter::Q4 => FiscalQuarter { year: self.year, quarter: Quarter::Q3 },
        }
    }

    /// The quarter `steps` quarters before this one.
    pub open spec fn back(self, steps: nat) -> FiscalQuarter
        decreases steps,
    {
        if steps == 0 {
            self
        } else {
            self.back((steps - 1) as nat).before()
        }
    }

    /// The name of the quarter's last day in the data source: the year, then
    /// month and day.
    pub open spec fn end_date(self) -> Seq<char> {
        signed_decimal(self.year as int) + self.quarter.end_day()
    }

    /// The quarter before this one. The first quarter of the first year that
    /// `i32` holds has none.
    pub fn prev(&self) -> (q: Option<FiscalQuarter>)
        ensures
            (self.quarter == Quarter::Q1 && self.year == i32::MIN) ==> q is None,
            !(self.quarter == Quarter::Q1 && self.year == i32::MIN) ==> q == Some(self.before()),
    {
        match self.quarter {
            Quarter::Q1 => {
                if self.year == i32::MIN {
                    None
                } else {
                    Some(FiscalQuarter { year: self.year - 1, quarter: Quarter::Q4 })
                }
            },
            Quarter::Q2 => Some(FiscalQuarter { year: self.year, quarter: Quarter::Q1 }),
            Quarter::Q3 => Some(FiscalQuarter { year: self.year, quarter: Quarter::Q2 }),
            Quarter::Q4 => Some(FiscalQuarter { year: self.year, quarter: Quarter::Q3 }),
        }
    }

    /// The name of the quarter's last day in the data source.
    pub fn end_date_key(&self) -> (key: String)
        ensures
            key@ == self.end_date(),
    {
        let year = if self.year < 0 {
            let digits = u64_to_string((-(self.year as i64)) as u64);
            String::from_str("-").concat(digits.as_str())
        } else {
            u64_to_string(self.year as u64)
        };
        year.concat(self.quarter.end_day_str())
    }
}

/// The quarters to fetch: `first` and the quarters before it, `count` in
/// all, the latest first. The list ends early where `i32` holds no earlier
/// year.
pub fn quarters_back(first: FiscalQuarter, count: u64) -> (quarters: Vec<FiscalQuarter>)
    ensures
        quarters.len() <= count,
        forall|i: int| 0 <= i < quarters.len() ==> quarters[i] == first.back(i as nat),
        quarters.len() < count ==> quarters.len() > 0 && quarters[quarters.len() - 1]
            == (FiscalQuarter { year: i32::MIN, quarter: Quarter::Q1 }),
{
    let mut quarters: Vec<FiscalQuarter> = Vec::new();
    let mut current = first;
    let mut i: u64 = 0;
    while i < count
        invariant
            i <= count,
            quarters.len() == i,
            current == first.back(i as nat),
            forall|j: int| 0 <= j < quarters.len() ==> quarters[j] == first.back(j as nat),
        decreases count - i,
    {
        quarters.push(current);
        i += 1;
        match current.prev() {
            Some(q) => {
                current = q;
            },
            None => {
                return quarters;
            },
        }
    }
    quarters
}

} // verus!
