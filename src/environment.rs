//! The environment: circumstances that apply to every character, and that
//! change how their checks are rolled.
use vstd::prelude::*;

use crate::dice::{combined, Advantage};

verus! {

/// Lighting affects how well characters can make vision-related checks.
///
/// Characters with darkvision have an easier time in low light.
#[derive(Clone, Copy, Debug, PartialEq, Eq, Structural)]
pub enum Lighting {
    /// Characters without darkvision cannot see. Characters with
    /// darkvision see only with disadvantage.
    Dark,
    /// Characters without darkvision see only with disadvantage.
    Dim,
    /// Everyone can see without any problem.
    Light,
}

/// The advantage state that the lighting imposes on a vision-based check.
pub open spec fn lighting_rule(lighting: Lighting, has_darkvision: bool) -> Advantage {
    match lighting {
        Lighting::Dark => if has_darkvision { Advantage::Disadvantage } else { Advantage::Fail },
        Lighting::Dim => if has_darkvision { Advantage::Neutral } else { Advantage::Disadvantage },
        Lighting::Light => Advantage::Neutral,
    }
}

/// The advantage state that `lighting` imposes on a character who has
/// darkvision or not.
pub fn lighting_advantage(lighting: Lighting, has_darkvision: bool) -> (r: Advantage)
    ensures
        r == lighting_rule(lighting, has_darkvision),
{
    match lighting {
        Lighting::Dark => if has_darkvision { Advantage::Disadvantage } else { Advantage::Fail },
        Lighting::Dim => if has_darkvision { Advantage::Neutral } else { Advantage::Disadvantage },
        Lighting::Light => Advantage::Neutral,
    }
}

/// Lighting composed with any advantage state the caller asks for: in the
/// dark a character without darkvision always fails, while dim light for a
/// character with darkvision, and bright light for anyone, leave the
/// caller's state as it is.
pub proof fn lemma_lighting_composition(advantage: Advantage, has_darkvision: bool)
    ensures
        combined(advantage, lighting_rule(Lighting::Dark, false)) == Advantage::Fail,
        combined(advantage, lighting_rule(Lighting::Dim, true)) == advantage,
        combined(advantage, lighting_rule(Lighting::Light, has_darkvision)) == advantage,
{
}

impl Lighting {
    /// The name under which this lighting is shown.
    pub fn name(&self) -> (r: &'static str)
        ensures
            r@ == match *self {
                Lighting::Dark => "Dark Light"@,
                Lighting::Dim => "Dim Light"@,
                Lighting::Light => "Bright Light"@,
            },
    {
        match self {
            Lighting::Dark => "Dark Light",
            Lighting::Dim => "Dim Light",
            Lighting::Light => "Bright Light",
        }
    }
}

} // verus!
