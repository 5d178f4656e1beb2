//! The character sheet: ability scores, proficiencies and other traits,
//! and the rules by which a character rolls checks.
use vstd::prelude::*;

use crate::config::{
    has_faulty_entry, is_json_text, lemma_faulty_table, read_record, read_section, record_error,
    slot_value, ConfigError, ConfigRecord, Section,
};
use crate::dice::{combined, outcome, Advantage, Dice};
use crate::environment::{lighting_advantage, lighting_rule, Lighting};

verus! {

/// Ability score categories.
#[derive(Clone, Copy, Debug, PartialEq, Eq, Structural)]
pub enum Ability {
    Strength,
    Dexterity,
    Constitution,
    Intelligence,
    Wisdom,
    Charisma,
}

/// Things in which a character can be proficient.
#[derive(Clone, Copy, Debug, PartialEq, Eq, Structural)]
pub enum Proficiency {
    Insight,
    Investigation,
    Perception,
}

/// The number of abilities.
pub const ABILITY_COUNT: usize = 6;

/// The number of proficiencies.
pub const PROFICIENCY_COUNT: usize = 3;

/// The ability that a configuration names `name`, if any.
pub open spec fn ability_named(name: Seq<char>) -> Option<Ability> {
    if name == "strength"@ {
        Some(Ability::Strength)
    } else if name == "dexterity"@ {
        Some(Ability::Dexterity)
    } else if name == "constitution"@ {
        Some(Ability::Constitution)
    } else if name == "intelligence"@ {
        Some(Ability::Intelligence)
    } else if name == "wisdom"@ {
        Some(Ability::Wisdom)
    } else if name == "charisma"@ {
        Some(Ability::Charisma)
    } else {
        None
    }
}

/// The proficiency that a configuration names `name`, if any.
pub open spec fn proficiency_named(name: Seq<char>) -> Option<Proficiency> {
    if name == "insight"@ {
        Some(Proficiency::Insight)
    } else if name == "investigation"@ {
        Some(Proficiency::Investigation)
    } else if name == "perception"@ {
        Some(Proficiency::Perception)
    } else {
        None
    }
}

/// Position of an ability in a character's table of scores.
pub open spec fn ability_slot(a: Ability) -> int {
    match a {
        Ability::Strength => 0,
        Ability::Dexterity => 1,
        Ability::Constitution => 2,
        Ability::Intelligence => 3,
        Ability::Wisdom => 4,
        Ability::Charisma => 5,
    }
}

/// Position of a proficiency in a character's table of levels.
pub open spec fn proficiency_slot(p: Proficiency) -> int {
    match p {
        Proficiency::Insight => 0,
        Proficiency::Investigation => 1,
        Proficiency::Perception => 2,
    }
}

/// Half of `x`, rounded toward zero.
pub open spec fn half_toward_zero(x: int) -> int {
    if x >= 0 {
        x / 2
    } else {
        -((-x) / 2)
    }
}

/// The modifier that an ability score gives: `(score - 10) / 2`, rounded
/// toward zero.
pub open spec fn modifier_of_score(score: int) -> int {
    half_toward_zero(score - 10)
}

/// Whether two strings hold the same text.
fn same_text(a: &str, b: &str) -> (r: bool)
    ensures
        r == (a@ == b@),
{
    a.to_owned() == b.to_owned()
}

impl Ability {
    /// The position of this ability in a character's table of scores.
    pub fn slot(self) -> (r: usize)
        ensures
            r as int == ability_slot(self),
            r < ABILITY_COUNT,
    {
        match self {
            Ability::Strength => 0,
            Ability::Dexterity => 1,
            Ability::Constitution => 2,
            Ability::Intelligence => 3,
            Ability::Wisdom => 4,
            Ability::Charisma => 5,
        }
    }

    /// The ability named `name` in a configuration (lower case), if any.
    pub fn from_name(name: &str) -> (r: Option<Ability>)
        ensures
            r == ability_named(name@),
    {
        if same_text(name, "strength") {
            Some(Ability::Strength)
        } else if same_text(name, "dexterity") {
            Some(Ability::Dexterity)
        } else if same_text(name, "constitution") {
            Some(Ability::Constitution)
        } else if same_text(name, "intelligence") {
            Some(Ability::Intelligence)
        } else if same_text(name, "wisdom") {
            Some(Ability::Wisdom)
        } else if same_text(name, "charisma") {
            Some(Ability::Charisma)
        } else {
            None
        }
    }
}

impl Proficiency {
    /// The position of this proficiency in a character's table of levels.
    pub fn slot(self) -> (r: usize)
        ensures
            r as int == proficiency_slot(self),
            r < PROFICIENCY_COUNT,
    {
        match self {
            Proficiency::Insight => 0,
            Proficiency::Investigation => 1,
            Proficiency::Perception => 2,
        }
    }

    /// The proficiency named `name` in a configuration (lower case), if any.
    pub fn from_name(name: &str) -> (r: Option<Proficiency>)
        ensures
            r == proficiency_named(name@),
    {
        if same_text(name, "insight") {
            Some(Proficiency::Insight)
        } else if same_text(name, "investigation") {
            Some(Proficiency::Investigation)
        } else if same_text(name, "perception") {
            Some(Proficiency::Perception)
        } else {
            None
        }
    }
}

/// A player character.
///
/// It holds the values that numerically affect a check, and rolls checks
/// with dice that it borrows.
pub struct PC<'a> {
    /// The source of randomness that the character rolls with.
    dice: &'a Dice,
    /// The score of each ability, by slot; `None` where the configuration
    /// gave none.
    abilities: Vec<Option<u8>>,
    /// The level (0, 1, or 2 for expertise) of each proficiency, by slot;
    /// `None` where the configuration gave none.
    proficiencies: Vec<Option<u8>>,
    /// The character's proficiency bonus.
    proficiency_bonus: u8,
    /// Whether the character has darkvision.
    darkvision: bool,
}

impl<'a> PC<'a> {
    /// The tables hold one entry per ability and per proficiency.
    pub closed spec fn wf(&self) -> bool {
        self.abilities@.len() == ABILITY_COUNT && self.proficiencies@.len() == PROFICIENCY_COUNT
    }

    /// The score of ability `a`, if the character has one.
    pub closed spec fn score(&self, a: Ability) -> Option<u8> {
        self.abilities@[ability_slot(a)]
    }

    /// The level of proficiency `p`, if the character has one.
    pub closed spec fn level(&self, p: Proficiency) -> Option<u8> {
        self.proficiencies@[proficiency_slot(p)]
    }

    /// The character's proficiency bonus.
    pub closed spec fn bonus(&self) -> u8 {
        self.proficiency_bonus
    }

    /// Whether the character has darkvision.
    pub closed spec fn has_darkvision(&self) -> bool {
        self.darkvision
    }

    /// The proficiency modifier for `p`: the bonus times the level.
    pub open spec fn proficiency_mod(&self, p: Proficiency) -> int {
        self.bonus() * self.level(p).unwrap()
    }

    /// The ability modifier for `a`.
    pub open spec fn ability_mod(&self, a: Ability) -> int {
        modifier_of_score(self.score(a).unwrap() as int)
    }

    /// What a check of `a` and `p` adds to the die.
    pub open spec fn total_mod(&self, a: Ability, p: Proficiency) -> int {
        self.proficiency_mod(p) + self.ability_mod(a)
    }

    /// Whether a check of `a` and `p` can be rolled: both entries exist,
    /// and the modifiers fit the integer types that hold them.
    pub open spec fn can_check(&self, a: Ability, p: Proficiency) -> bool {
        &&& self.wf()
        &&& self.score(a) is Some
        &&& self.level(p) is Some
        &&& self.proficiency_mod(p) <= u8::MAX
        &&& self.total_mod(a, p) + 20 <= i8::MAX
    }

    /// Whether this character holds what `record` gives: each score and
    /// level from the last entry that names it, the bonus and the flag.
    pub open spec fn made_from(&self, record: ConfigRecord) -> bool {
        &&& self.wf()
        &&& forall|a: Ability|
            #![trigger self.score(a)]
            self.score(a) == slot_value(
                Section::Abilities,
                record.abilities.unwrap()@,
                ability_slot(a),
            )
        &&& forall|p: Proficiency|
            #![trigger self.level(p)]
            self.level(p) == slot_value(
                Section::Proficiencies,
                record.proficiencies.unwrap()@,
                proficiency_slot(p),
            )
        &&& self.bonus() == record.proficiency_bonus.unwrap()
        &&& self.has_darkvision() == record.darkvision.unwrap()
    }

    /// Make a character from a configuration record, rolling with `dice`.
    ///
    /// The record is rejected, with its first fault, unless every entry
    /// names a known ability or proficiency with a value, both tables are
    /// there, and so are the bonus and the darkvision flag. A record with
    /// an unknown name, or a value out of `0..=255`, in either table is
    /// always rejected, and no character is made from it.
    pub fn from_record(dice: &'a Dice, record: &ConfigRecord) -> (r: Result<PC<'a>, ConfigError>)
        ensures
            match r {
                Ok(pc) => record_error(*record) is None && pc.made_from(*record),
                Err(e) => record_error(*record) == Some(e) && e != ConfigError::Malformed,
            },
            has_faulty_entry(Section::Abilities, record.abilities) || has_faulty_entry(
                Section::Proficiencies,
                record.proficiencies,
            ) ==> r is Err,
    {
        proof {
            if has_faulty_entry(Section::Abilities, record.abilities) || has_faulty_entry(
                Section::Proficiencies,
                record.proficiencies,
            ) {
                lemma_faulty_table(*record);
            }
        }
        let abilities: Vec<Option<u8>> = match &record.abilities {
            None => {
                return Err(ConfigError::MissingAbilities);
            },
            Some(entries) => match read_section(Section::Abilities, entries) {
                Err(e) => {
                    return Err(e);
                },
                Ok(table) => table,
            },
        };
        let proficiencies: Vec<Option<u8>> = match &record.proficiencies {
            None => {
                return Err(ConfigError::MissingProficiencies);
            },
            Some(entries) => match read_section(Section::Proficiencies, entries) {
                Err(e) => {
                    return Err(e);
                },
                Ok(table) => table,
            },
        };
        let proficiency_bonus: u8 = match record.proficiency_bonus {
            None => {
                return Err(ConfigError::InvalidProficiencyBonus);
            },
            Some(b) => b,
        };
        let darkvision: bool = match record.darkvision {
            None => {
                return Err(ConfigError::InvalidDarkvision);
            },
            Some(d) => d,
        };
        Ok(PC { dice, abilities, proficiencies, proficiency_bonus, darkvision })
    }

    /// Make a character from the text of a JSON configuration, rolling
    /// with `dice`. Text that is no JSON is rejected as malformed; any other
    /// text gives the record that [`read_record`] reads from it, and the
    /// result is what [`PC::from_record`] makes of that record.
    pub fn new(dice: &'a Dice, config: &str) -> (r: Result<PC<'a>, ConfigError>)
        ensures
            r matches Err(ConfigError::Malformed) <==> !is_json_text(config@),
            match r {
                Ok(pc) => exists|record: ConfigRecord|
                    record_error(record) is None && #[trigger] pc.made_from(record),
                Err(e) => e == ConfigError::Malformed || exists|record: ConfigRecord|
                    #[trigger] record_error(record) == Some(e),
            },
    {
        match read_record(config) {
            Err(e) => Err(e),
            Ok(record) => PC::from_record(dice, &record),
        }
    }

    /// Whether a check of `ability` and `proficiency` can be rolled: the
    /// character has both, and the modifiers fit.
    pub fn can_roll(&self, ability: Ability, proficiency: Proficiency) -> (r: bool)
        requires
            self.wf(),
        ensures
            r == self.can_check(ability, proficiency),
    {
        match (self.abilities[ability.slot()], self.proficiencies[proficiency.slot()]) {
            (Some(score), Some(level)) => {
                let bonus: u32 = self.proficiency_bonus as u32;
                let level: u32 = level as u32;
                assert(bonus * level <= 255 * 255) by (nonlinear_arith)
                    requires
                        bonus <= 255,
                        level <= 255,
                ;
                let product: u32 = bonus * level;
                if product > 255 {
                    false
                } else {
                    let modifier: i8 = self.ability_modifier(ability);
                    product as i32 + modifier as i32 + 20 <= 127
                }
            },
            _ => false,
        }
    }

    /// The proficiency modifier: the proficiency bonus times the level of
    /// proficiency (0, 1, or 2 for expertise).
    pub fn proficiency_modifier(&self, proficiency: Proficiency) -> (r: u8)
        requires
            self.wf(),
            self.level(proficiency) is Some,
            self.proficiency_mod(proficiency) <= u8::MAX,
        ensures
            r == self.proficiency_mod(proficiency),
    {
        let level: u8 = self.proficiencies[proficiency.slot()].unwrap();
        self.proficiency_bonus * level
    }

    /// The ability modifier: `(score - 10) / 2`, rounded toward zero.
    pub fn ability_modifier(&self, ability: Ability) -> (r: i8)
        requires
            self.wf(),
            self.score(ability) is Some,
        ensures
            r == self.ability_mod(ability),
            -5 <= r <= 122,
    {
        let score: u8 = self.abilities[ability.slot()].unwrap();
        if score >= 10 {
            ((score - 10) / 2) as i8
        } else {
            -(((10 - score) / 2) as i8)
        }
    }

    /// Roll a check: a d20 plus the ability and proficiency modifiers, in
    /// the given advantage state.
    pub fn check(&self, ability: Ability, proficiency: Proficiency, advantage: Advantage) -> (r:
        i8)
        requires
            self.can_check(ability, proficiency),
        ensures
            exists|a: int, b: int|
                1 <= a <= 20 && 1 <= b <= 20 && r as int == #[trigger] outcome(
                    advantage,
                    self.total_mod(ability, proficiency),
                    a,
                    b,
                ),
    {
        let proficiency_bonus: u8 = self.proficiency_modifier(proficiency);
        let ability_score: i8 = self.ability_modifier(ability);
        let total_modifier: i8 = proficiency_bonus as i8 + ability_score;
        self.dice.d(20, total_modifier, advantage)
    }

    /// Roll a Wisdom (Perception) check, and return the result.
    ///
    /// The lighting, and whether the character has darkvision, give an
    /// advantage state that is combined with `advantage`.
    pub fn perception_roll(&self, advantage: Advantage, lighting: Lighting) -> (r: i8)
        requires
            self.can_check(Ability::Wisdom, Proficiency::Perception),
        ensures
            exists|a: int, b: int|
                1 <= a <= 20 && 1 <= b <= 20 && r as int == #[trigger] outcome(
                    combined(advantage, lighting_rule(lighting, self.has_darkvision())),
                    self.total_mod(Ability::Wisdom, Proficiency::Perception),
                    a,
                    b,
                ),
    {
        let from_lighting: Advantage = lighting_advantage(lighting, self.darkvision);
        self.check(Ability::Wisdom, Proficiency::Perception, advantage + from_lighting)
    }

    /// Roll a Wisdom (Perception) check, with all the modifiers that apply,
    /// including disadvantage from the lighting; the result is not kept.
    /// Use [`PC::perception_roll`] for the result.
    pub fn perception_check(&self, advantage: Advantage, lighting: Lighting)
        requires
            self.can_check(Ability::Wisdom, Proficiency::Perception),
    {
        let _ = self.perception_roll(advantage, lighting);
    }
}

} // verus!
