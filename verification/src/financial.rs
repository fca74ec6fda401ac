//! What an analysis concludes about a security.

use vstd::prelude::*;
use vstd::string::*;
use crate::utils::text::{eq_ignore_ascii_case, same_ignoring_ascii_case};

pub mod stock;

verus! {

/// The direction that an analyzer expects.
#[derive(Clone, Copy, Debug, PartialEq, Eq, Structural)]
pub enum Prospect {
    Bullish,
    Bearish,
    Neutral,
}

/// The prospect that `name` stands for, whatever the case of its letters.
pub open spec fn prospect_named(name: Seq<char>) -> Option<Prospect> {
    if same_ignoring_ascii_case(name, "Bullish"@) {
        Some(Prospect::Bullish)
    } else if same_ignoring_ascii_case(name, "Bearish"@) {
        Some(Prospect::Bearish)
    } else if same_ignoring_ascii_case(name, "Neutral"@) {
        Some(Prospect::Neutral)
    } else {
        None
    }
}

impl Prospect {
    /// The prospect's name.
    pub open spec fn name(self) -> Seq<char> {
        match self {
            Prospect::Bullish => "Bullish"@,
            Prospect::Bearish => "Bearish"@,
            Prospect::Neutral => "Neutral"@,
        }
    }

    /// The prospect's name.
    pub fn as_str(&self) -> (s: &'static str)
        ensures
            s@ == self.name(),
    {
        match self {
            Prospect::Bullish => "Bullish",
            Prospect::Bearish => "Bearish",
            Prospect::Neutral => "Neutral",
        }
    }

    /// The prospect's name.
    pub fn to_string(&self) -> (s: String)
        ensures
            s@ == self.name(),
    {
        String::from_str(self.as_str())
    }

    /// The prospect that `name` stands for, whatever the case of its letters.
    pub fn from_str(name: &str) -> (r: Option<Prospect>)
        ensures
            r == prospect_named(name@),
    {
        if eq_ignore_ascii_case(name, "Bullish") {
            Some(Prospect::Bullish)
        } else if eq_ignore_ascii_case(name, "Bearish") {
            Some(Prospect::Bearish)
        } else if eq_ignore_ascii_case(name, "Neutral") {
            Some(Prospect::Neutral)
        } else {
            None
        }
    }
}

/// Every prospect is found again under its own name.
pub proof fn lemma_prospect_name_round_trips(prospect: Prospect)
    ensures
        prospect_named(prospect.name()) == Some(prospect),
{
    reveal_strlit("Bullish");
    reveal_strlit("Bearish");
    reveal_strlit("Neutral");
    let b = crate::utils::text::ascii_lowered("Bullish"@);
    let e = crate::utils::text::ascii_lowered("Bearish"@);
    let n = crate::utils::text::ascii_lowered("Neutral"@);
    assert(b[1] == 'u' && e[1] == 'e' && n[1] == 'e');
    assert(e[0] == 'b' && n[0] == 'n');
}

/// Names that differ in the case of ASCII letters only stand for the same
/// prospect.
pub proof fn lemma_prospect_ignores_case(a: Seq<char>, b: Seq<char>)
    requires
        same_ignoring_ascii_case(a, b),
    ensures
        prospect_named(a) == prospect_named(b),
{
}

} // verus!
