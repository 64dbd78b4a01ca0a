//! Fuel grades: the tag a catalogue names them by, their display name and
//! their density.

use crate::text::same_text;
use vstd::prelude::*;

verus! {

/// The name and the density of a fuel grade.
#[derive(Debug, PartialEq, Eq)]
pub struct FuelProperties {
    pub name: String,
    /// Grams per litre.
    pub density: u32,
}

/// The fuel grades an aircraft record can name.
#[allow(non_camel_case_types)]
#[derive(Debug, Clone, Copy, PartialEq, Eq, Structural)]
pub enum Fuel {
    AVGAS100LL,
    AVGAS100,
    AVGAS82,
    AVGAS80,
    JET_A,
    JET_A1,
    JET_B,
    MOGAS,
}

/// The heaviest grade weighs this many grams per litre; all are lighter
/// than water.
pub const MAX_DENSITY: u32 = 820;

impl Fuel {
    /// Density of the grade in grams per litre.
    pub open spec fn spec_density(self) -> int {
        match self {
            Fuel::AVGAS100LL => 721,
            Fuel::AVGAS100 => 721,
            Fuel::AVGAS80 => 721,
            Fuel::AVGAS82 => 690,
            Fuel::JET_A => 804,
            Fuel::JET_A1 => 804,
            Fuel::JET_B => 820,
            Fuel::MOGAS => 745,
        }
    }

    /// The name the grade is sold under.
    pub open spec fn spec_name(self) -> Seq<char> {
        match self {
            Fuel::AVGAS100LL => "AVGAS 100LL"@,
            Fuel::AVGAS100 => "AVGAS 100"@,
            Fuel::AVGAS80 => "AVGAS 80"@,
            Fuel::AVGAS82 => "AVGAS 82"@,
            Fuel::JET_A => "JET A"@,
            Fuel::JET_A1 => "JET A-1"@,
            Fuel::JET_B => "JET B"@,
            Fuel::MOGAS => "MOGAS"@,
        }
    }

    /// The grade that a catalogue tag stands for. A tag that names no grade
    /// stands for `AVGAS100LL`.
    pub open spec fn spec_from_tag(tag: Seq<char>) -> Fuel {
        if tag == "AVGAS100LL"@ {
            Fuel::AVGAS100LL
        } else if tag == "AVGAS100"@ {
            Fuel::AVGAS100
        } else if tag == "AVGAS82"@ {
            Fuel::AVGAS82
        } else if tag == "AVGAS80"@ {
            Fuel::AVGAS80
        } else if tag == "JET_A"@ {
            Fuel::JET_A
        } else if tag == "JET_A1"@ {
            Fuel::JET_A1
        } else if tag == "JET_B"@ {
            Fuel::JET_B
        } else if tag == "MOGAS"@ {
            Fuel::MOGAS
        } else {
            Fuel::AVGAS100LL
        }
    }

    /// Density of the grade in grams per litre.
    pub fn density(&self) -> (d: u32)
        ensures
            d == self.spec_density(),
            0 < d <= MAX_DENSITY,
    {
        match self {
            Fuel::AVGAS100LL => 721,
            Fuel::AVGAS100 => 721,
            Fuel::AVGAS80 => 721,
            Fuel::AVGAS82 => 690,
            Fuel::JET_A => 804,
            Fuel::JET_A1 => 804,
            Fuel::JET_B => 820,
            Fuel::MOGAS => 745,
        }
    }

    /// The name and the density of the grade.
    pub fn properties(&self) -> (props: FuelProperties)
        ensures
            props.name@ == self.spec_name(),
            props.density == self.spec_density(),
    {
        match self {
            Fuel::AVGAS100LL => FuelProperties { name: "AVGAS 100LL".to_owned(), density: 721 },
            Fuel::AVGAS100 => FuelProperties { name: "AVGAS 100".to_owned(), density: 721 },
            Fuel::AVGAS80 => FuelProperties { name: "AVGAS 80".to_owned(), density: 721 },
            Fuel::AVGAS82 => FuelProperties { name: "AVGAS 82".to_owned(), density: 690 },
            Fuel::JET_A => FuelProperties { name: "JET A".to_owned(), density: 804 },
            Fuel::JET_A1 => FuelProperties { name: "JET A-1".to_owned(), density: 804 },
            Fuel::JET_B => FuelProperties { name: "JET B".to_owned(), density: 820 },
            Fuel::MOGAS => FuelProperties { name: "MOGAS".to_owned(), density: 745 },
        }
    }

    /// Reads the grade from the tag a catalogue record holds. A tag that
    /// names no grade gives `AVGAS100LL`.
    pub fn from_tag(tag: &str) -> (fuel: Fuel)
        ensures
            fuel == Self::spec_from_tag(tag@),
    {
        if same_text(tag, "AVGAS100LL") {
            Fuel::AVGAS100LL
        } else if same_text(tag, "AVGAS100") {
            Fuel::AVGAS100
        } else if same_text(tag, "AVGAS82") {
            Fuel::AVGAS82
        } else if same_text(tag, "AVGAS80") {
            Fuel::AVGAS80
        } else if same_text(tag, "JET_A") {
            Fuel::JET_A
        } else if same_text(tag, "JET_A1") {
            Fuel::JET_A1
        } else if same_text(tag, "JET_B") {
            Fuel::JET_B
        } else if same_text(tag, "MOGAS") {
            Fuel::MOGAS
        } else {
            Fuel::AVGAS100LL
        }
    }

    /// The tag that a catalogue names the grade by.
    pub open spec fn spec_tag(self) -> Seq<char> {
        match self {
            Fuel::AVGAS100LL => "AVGAS100LL"@,
            Fuel::AVGAS100 => "AVGAS100"@,
            Fuel::AVGAS82 => "AVGAS82"@,
            Fuel::AVGAS80 => "AVGAS80"@,
            Fuel::JET_A => "JET_A"@,
            Fuel::JET_A1 => "JET_A1"@,
            Fuel::JET_B => "JET_B"@,
            Fuel::MOGAS => "MOGAS"@,
        }
    }
}

/// Every grade is read back from its own tag: no two tags are the same text.
pub proof fn lemma_tag_round_trip(fuel: Fuel)
    ensures
        Fuel::spec_from_tag(fuel.spec_tag()) == fuel,
{
    reveal_strlit("AVGAS100LL");
    reveal_strlit("AVGAS100");
    reveal_strlit("AVGAS82");
    reveal_strlit("AVGAS80");
    reveal_strlit("JET_A");
    reveal_strlit("JET_A1");
    reveal_strlit("JET_B");
    reveal_strlit("MOGAS");
    assert("AVGAS100LL"@.len() == 10 && "AVGAS100"@.len() == 8);
    assert("AVGAS82"@.len() == 7 && "AVGAS80"@.len() == 7);
    assert("JET_A"@.len() == 5 && "JET_A1"@.len() == 6 && "JET_B"@.len() == 5);
    assert("MOGAS"@.len() == 5);
    assert("AVGAS82"@[6] != "AVGAS80"@[6]);
    assert("JET_A"@[4] != "JET_B"@[4]);
    assert("JET_A"@[0] != "MOGAS"@[0]);
    assert("JET_B"@[0] != "MOGAS"@[0]);
}

} // verus!
