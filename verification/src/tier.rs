//! The ladder of characters that the player climbs.

use vstd::prelude::*;
use vstd::string::*;

verus! {

/// One rung of the ladder, from the first character to the last.
#[derive(Clone, Copy, Debug, PartialEq, Eq, Structural)]
pub enum Tier {
    Apple,
    Orange,
    Pear,
    Pineapple,
    Banana,
}

impl Tier {
    /// The place on the ladder, from 0.
    pub open spec fn rank(self) -> nat {
        match self {
            Tier::Apple => 0,
            Tier::Orange => 1,
            Tier::Pear => 2,
            Tier::Pineapple => 3,
            Tier::Banana => 4,
        }
    }

    /// What it costs to leave this tier for the next one. The same number
    /// scales the reward for a kill while the character is equipped.
    pub open spec fn cost(self) -> nat {
        match self {
            Tier::Apple => 100,
            Tier::Orange => 100,
            Tier::Pear => 500,
            Tier::Pineapple => 1000,
            Tier::Banana => 10000,
        }
    }

    /// The next tier up; the last tier has none.
    pub open spec fn successor(self) -> Option<Tier> {
        match self {
            Tier::Apple => Some(Tier::Orange),
            Tier::Orange => Some(Tier::Pear),
            Tier::Pear => Some(Tier::Pineapple),
            Tier::Pineapple => Some(Tier::Banana),
            Tier::Banana => None,
        }
    }

    /// The character's name.
    pub open spec fn label(self) -> Seq<char> {
        match self {
            Tier::Apple => "Apple"@,
            Tier::Orange => "Orange"@,
            Tier::Pear => "Pear"@,
            Tier::Pineapple => "Pineapple"@,
            Tier::Banana => "Banana"@,
        }
    }

    /// The tier of the character with the given name, if there is one.
    pub open spec fn named(name: Seq<char>) -> Option<Tier> {
        if name == "Apple"@ {
            Some(Tier::Apple)
        } else if name == "Orange"@ {
            Some(Tier::Orange)
        } else if name == "Pear"@ {
            Some(Tier::Pear)
        } else if name == "Pineapple"@ {
            Some(Tier::Pineapple)
        } else if name == "Banana"@ {
            Some(Tier::Banana)
        } else {
            None
        }
    }

    /// The least reward for a kill with this tier equipped.
    pub open spec fn least_reward(self) -> nat {
        self.cost() / 100
    }

    /// The greatest reward for a kill with this tier equipped.
    pub open spec fn greatest_reward(self) -> nat {
        self.cost() / 10
    }

    pub fn price(&self) -> (p: usize)
        ensures
            p == self.cost(),
    {
        match self {
            Tier::Apple => 100,
            Tier::Orange => 100,
            Tier::Pear => 500,
            Tier::Pineapple => 1000,
            Tier::Banana => 10000,
        }
    }

    pub fn next(&self) -> (t: Option<Tier>)
        ensures
            t == self.successor(),
    {
        match self {
            Tier::Apple => Some(Tier::Orange),
            Tier::Orange => Some(Tier::Pear),
            Tier::Pear => Some(Tier::Pineapple),
            Tier::Pineapple => Some(Tier::Banana),
            Tier::Banana => None,
        }
    }

    pub fn name(&self) -> (s: String)
        ensures
            s@ == self.label(),
    {
        match self {
            Tier::Apple => String::from_str("Apple"),
            Tier::Orange => String::from_str("Orange"),
            Tier::Pear => String::from_str("Pear"),
            Tier::Pineapple => String::from_str("Pineapple"),
            Tier::Banana => String::from_str("Banana"),
        }
    }

    /// Looks a character up by its name. A name that is on no rung has no
    /// tier.
    pub fn from_name(name: &String) -> (t: Option<Tier>)
        ensures
            t == Tier::named(name@),
    {
        if *name == String::from_str("Apple") {
            Some(Tier::Apple)
        } else if *name == String::from_str("Orange") {
            Some(Tier::Orange)
        } else if *name == String::from_str("Pear") {
            Some(Tier::Pear)
        } else if *name == String::from_str("Pineapple") {
            Some(Tier::Pineapple)
        } else if *name == String::from_str("Banana") {
            Some(Tier::Banana)
        } else {
            None
        }
    }

    /// The bounds, both included, of the reward for a kill.
    pub fn reward_range(&self) -> (r: (u32, u32))
        ensures
            r.0 == self.least_reward(),
            r.1 == self.greatest_reward(),
            r.0 <= r.1,
    {
        match self {
            Tier::Apple => (1, 10),
            Tier::Orange => (1, 10),
            Tier::Pear => (5, 50),
            Tier::Pineapple => (10, 100),
            Tier::Banana => (100, 1000),
        }
    }
}

/// Each tier is found again under its own name.
pub proof fn lemma_name_finds_tier(t: Tier)
    ensures
        Tier::named(t.label()) == Some(t),
{
    reveal_strlit("Apple");
    reveal_strlit("Orange");
    reveal_strlit("Pear");
    reveal_strlit("Pineapple");
    reveal_strlit("Banana");
    assert("Apple"@.len() == 5);
    assert("Orange"@.len() == 6);
    assert("Pear"@.len() == 4);
    assert("Pineapple"@.len() == 9);
    assert("Banana"@.len() == 6);
    assert("Orange"@[0] == 'O');
    assert("Banana"@[0] == 'B');
}

/// The next tier stands exactly one rung higher, at every tier but the last.
pub proof fn lemma_successor_is_one_up(t: Tier)
    ensures
        t.successor() matches Some(n) ==> n.rank() == t.rank() + 1,
        t.successor() is None <==> t == Tier::Banana,
{
}

} // verus!
