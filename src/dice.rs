//! Dice and the advantage states in which a roll is made.
use rand::Rng;
use vstd::prelude::*;

verus! {

#[verifier::external_type_specification]
#[verifier::external_body]
pub struct ExThreadRng(rand::rngs::ThreadRng);

/// Relies on rand::thread_rng: a handle on this thread's generator.
#[verifier::external_body]
fn thread_generator() -> (r: rand::rngs::ThreadRng) {
    rand::thread_rng()
}

/// Relies on rand::Rng::gen_range over `1..=sides`: a value in that range.
/// A `ThreadRng` handle and its clones share one generator.
#[verifier::external_body]
fn draw_in_range(rng: &rand::rngs::ThreadRng, sides: u8) -> (r: u8)
    requires
        1 <= sides,
    ensures
        1 <= r <= sides,
{
    rng.clone().gen_range(1..=sides)
}

/// Rolls dice within given parameters.
///
/// The generator belongs to the thread that made the dice: to roll on
/// several threads, make dice for each.
pub struct Dice {
    rng: rand::rngs::ThreadRng,
}

/// Every advantage state in which a roll can be made.
#[derive(Clone, Copy, Debug, PartialEq, Eq, Structural)]
pub enum Advantage {
    /// Neither advantage nor disadvantage.
    Neutral,
    /// Advantage and disadvantage have canceled out: the roll is flat,
    /// and no further advantage state changes that.
    Canceled,
    /// Roll two, take the higher.
    Advantage,
    /// Roll two, take the lower.
    Disadvantage,
    /// The roll fails, whatever the dice show.
    Fail,
}

/// The rule that folds two advantage sources into one: a failure wins over
/// everything, a cancellation over everything else, advantage and
/// disadvantage cancel each other, and the neutral state changes nothing.
pub open spec fn combined(a: Advantage, b: Advantage) -> Advantage {
    match a {
        Advantage::Neutral => b,
        Advantage::Canceled => if b == Advantage::Fail {
            Advantage::Fail
        } else {
            Advantage::Canceled
        },
        Advantage::Fail => Advantage::Fail,
        Advantage::Advantage => match b {
            Advantage::Neutral | Advantage::Advantage => Advantage::Advantage,
            Advantage::Canceled | Advantage::Disadvantage => Advantage::Canceled,
            Advantage::Fail => Advantage::Fail,
        },
        Advantage::Disadvantage => match b {
            Advantage::Neutral | Advantage::Disadvantage => Advantage::Disadvantage,
            Advantage::Canceled | Advantage::Advantage => Advantage::Canceled,
            Advantage::Fail => Advantage::Fail,
        },
    }
}

/// The value kept from two rolls made in the given advantage state.
pub open spec fn selected(advantage: Advantage, roll_1: int, roll_2: int) -> int {
    match advantage {
        Advantage::Neutral | Advantage::Canceled => roll_1,
        Advantage::Advantage => if roll_1 >= roll_2 { roll_1 } else { roll_2 },
        Advantage::Disadvantage => if roll_1 <= roll_2 { roll_1 } else { roll_2 },
        Advantage::Fail => 0,
    }
}

/// The result of a roll whose two dice showed `a` and `b` before `modifier`
/// was added to each.
pub open spec fn outcome(advantage: Advantage, modifier: int, a: int, b: int) -> int {
    selected(advantage, a + modifier, b + modifier)
}

impl Advantage {
    /// Combine two advantage states according to the game rules.
    pub fn combine(self, other: Advantage) -> (r: Advantage)
        ensures
            r == combined(self, other),
    {
        match self {
            Advantage::Neutral => other,
            Advantage::Canceled => match other {
                Advantage::Fail => Advantage::Fail,
                _ => Advantage::Canceled,
            },
            Advantage::Fail => Advantage::Fail,
            Advantage::Advantage => match other {
                Advantage::Advantage => Advantage::Advantage,
                Advantage::Neutral => Advantage::Advantage,
                Advantage::Canceled => Advantage::Canceled,
                Advantage::Disadvantage => Advantage::Canceled,
                Advantage::Fail => Advantage::Fail,
            },
            Advantage::Disadvantage => match other {
                Advantage::Advantage => Advantage::Canceled,
                Advantage::Neutral => Advantage::Disadvantage,
                Advantage::Canceled => Advantage::Canceled,
                Advantage::Disadvantage => Advantage::Disadvantage,
                Advantage::Fail => Advantage::Fail,
            },
        }
    }
}

impl Dice {
    /// Dice that draw from this thread's generator.
    pub fn new() -> (r: Dice) {
        Dice { rng: thread_generator() }
    }

    /// Roll one die of `d` sides, flat, and add `modifier`.
    pub fn d_flat(&self, d: u8, modifier: i8) -> (r: i8)
        requires
            1 <= d,
            d + modifier <= i8::MAX,
        ensures
            1 + modifier <= r <= d + modifier,
    {
        let raw: u8 = draw_in_range(&self.rng, d);
        (raw as i16 + modifier as i16) as i8
    }

    /// Roll a die with the given advantage state.
    ///
    /// Two dice are always rolled; which one counts depends on the state.
    pub fn d(&self, d: u8, modifier: i8, advantage: Advantage) -> (r: i8)
        requires
            1 <= d,
            d + modifier <= i8::MAX,
        ensures
            exists|a: int, b: int|
                1 <= a <= d && 1 <= b <= d && r as int == #[trigger] outcome(
                    advantage,
                    modifier as int,
                    a,
                    b,
                ),
    {
        let roll_1: i8 = self.d_flat(d, modifier);
        let roll_2: i8 = self.d_flat(d, modifier);
        let r: i8 = select_roll(advantage, roll_1, roll_2);
        assert(outcome(advantage, modifier as int, roll_1 - modifier, roll_2 - modifier) == r);
        r
    }
}

impl core::ops::Add for Advantage {
    type Output = Advantage;

    /// Combine two advantage states, as [`Advantage::combine`] does.
    fn add(self, other: Advantage) -> Advantage {
        self.combine(other)
    }
}

impl vstd::std_specs::ops::AddSpecImpl for Advantage {
    open spec fn obeys_add_spec() -> bool {
        true
    }

    open spec fn add_req(self, rhs: Advantage) -> bool {
        true
    }

    open spec fn add_spec(self, rhs: Advantage) -> Advantage {
        combined(self, rhs)
    }
}

/// Pick the roll to keep from two rolls made in the given advantage state:
/// the first when flat, the higher with advantage, the lower with
/// disadvantage, and 0 when the roll fails.
pub fn select_roll(advantage: Advantage, roll_1: i8, roll_2: i8) -> (r: i8)
    ensures
        r as int == selected(advantage, roll_1 as int, roll_2 as int),
{
    match advantage {
        Advantage::Neutral => roll_1,
        Advantage::Canceled => roll_1,
        Advantage::Advantage => if roll_1 >= roll_2 { roll_1 } else { roll_2 },
        Advantage::Disadvantage => if roll_1 <= roll_2 { roll_1 } else { roll_2 },
        Advantage::Fail => 0,
    }
}

/// Combining advantage states: the neutral state changes nothing, a
/// failure on either side makes the roll fail, a cancellation on either
/// side cancels unless the other fails, advantage with disadvantage
/// cancels, and the order of the two sources does not matter.
pub proof fn lemma_combine_rules(a: Advantage, b: Advantage)
    ensures
        combined(Advantage::Neutral, b) == b,
        combined(a, Advantage::Neutral) == a,
        (a == Advantage::Fail || b == Advantage::Fail) ==> combined(a, b) == Advantage::Fail,
        (a == Advantage::Canceled || b == Advantage::Canceled) && a != Advantage::Fail && b
            != Advantage::Fail ==> combined(a, b) == Advantage::Canceled,
        combined(Advantage::Advantage, Advantage::Disadvantage) == Advantage::Canceled,
        combined(a, a) == a,
        combined(a, b) == combined(b, a),
{
}

/// Selection from two fixed rolls: with advantage the higher is kept, with
/// disadvantage the lower, and a failed roll gives 0 whatever the dice
/// showed and whatever the modifier.
pub proof fn lemma_selection(roll_1: int, roll_2: int, modifier: int)
    ensures
        selected(Advantage::Advantage, roll_1, roll_2) >= roll_1,
        selected(Advantage::Advantage, roll_1, roll_2) >= roll_2,
        selected(Advantage::Advantage, roll_1, roll_2) == roll_1 || selected(
            Advantage::Advantage,
            roll_1,
            roll_2,
        ) == roll_2,
        selected(Advantage::Disadvantage, roll_1, roll_2) <= roll_1,
        selected(Advantage::Disadvantage, roll_1, roll_2) <= roll_2,
        selected(Advantage::Disadvantage, roll_1, roll_2) == roll_1 || selected(
            Advantage::Disadvantage,
            roll_1,
            roll_2,
        ) == roll_2,
        outcome(Advantage::Fail, modifier, roll_1, roll_2) == 0,
{
}

} // verus!
