use rollforgrue::config::{read_record, ConfigEntry, ConfigError, ConfigRecord};
use rollforgrue::dice::{Advantage, Dice};
use rollforgrue::environment::Lighting;
use rollforgrue::pc::{Ability, Proficiency, PC};

fn sheet(strength: u32, wisdom: u32, perception: u32, bonus: u32, darkvision: bool) -> String {
    format!(
        "{{\"abilities\": {{\"strength\": {}, \"dexterity\": 12, \"constitution\": 10, \
         \"intelligence\": 8, \"wisdom\": {}, \"charisma\": 11}}, \
         \"proficiencies\": {{\"insight\": 0, \"investigation\": 2, \"perception\": {}}}, \
         \"proficiency_bonus\": {}, \"darkvision\": {}}}",
        strength, wisdom, perception, bonus, darkvision
    )
}

fn rejection(dice: &Dice, text: &str) -> ConfigError {
    match PC::new(dice, text) {
        Ok(_) => panic!("accepted: {}", text),
        Err(e) => e,
    }
}

fn entry(name: &str, value: Option<u8>) -> ConfigEntry {
    ConfigEntry { name: name.to_string(), value }
}

fn full_record() -> ConfigRecord {
    ConfigRecord {
        abilities: Some(vec![entry("wisdom", Some(14)), entry("strength", Some(9))]),
        proficiencies: Some(vec![entry("perception", Some(1))]),
        proficiency_bonus: Some(2),
        darkvision: Some(false),
    }
}

#[test]
fn ability_modifier_formula() {
    let dice = Dice::new();
    for (score, modifier) in [(10u32, 0i8), (11, 0), (8, -1), (20, 5), (1, -4), (0, -5), (9, 0), (255, 122)] {
        let pc = PC::new(&dice, &sheet(score, 10, 0, 2, false)).ok().unwrap();
        assert_eq!(pc.ability_modifier(Ability::Strength), modifier, "score {}", score);
    }
}

#[test]
fn proficiency_modifier_formula() {
    let dice = Dice::new();
    let pc = PC::new(&dice, &sheet(10, 10, 0, 3, false)).ok().unwrap();
    assert_eq!(pc.proficiency_modifier(Proficiency::Investigation), 6);
    assert_eq!(pc.proficiency_modifier(Proficiency::Perception), 0);
    assert_eq!(pc.proficiency_modifier(Proficiency::Insight), 0);
}

#[test]
fn dark_without_darkvision_fails() {
    let dice = Dice::new();
    let pc = PC::new(&dice, &sheet(10, 14, 1, 2, false)).ok().unwrap();
    assert_eq!(pc.ability_modifier(Ability::Wisdom), 2);
    assert_eq!(pc.proficiency_modifier(Proficiency::Perception), 2);
    let effective = Advantage::Neutral + rollforgrue::environment::lighting_advantage(Lighting::Dark, false);
    assert_eq!(effective, Advantage::Fail);
    for _ in 0..50 {
        assert_eq!(pc.perception_roll(Advantage::Neutral, Lighting::Dark), 0);
        assert_eq!(pc.check(Ability::Wisdom, Proficiency::Perception, effective), 0);
    }
    pc.perception_check(Advantage::Neutral, Lighting::Dark);
}

#[test]
fn dim_with_darkvision_keeps_advantage() {
    let dice = Dice::new();
    let pc = PC::new(&dice, &sheet(10, 14, 1, 2, true)).ok().unwrap();
    let from_lighting = rollforgrue::environment::lighting_advantage(Lighting::Dim, true);
    assert_eq!(from_lighting, Advantage::Neutral);
    assert_eq!(Advantage::Advantage + from_lighting, Advantage::Advantage);
    let n = 4000;
    let mut sum: i64 = 0;
    for _ in 0..n {
        let r = pc.perception_roll(Advantage::Advantage, Lighting::Dim);
        assert!((5..=24).contains(&r));
        sum += r as i64;
    }
    // Two d20s, the higher kept, average 13.825; plus 4.
    let mean = sum as f64 / n as f64;
    assert!(mean > 16.8 && mean < 18.8, "mean {}", mean);
}

#[test]
fn check_adds_both_modifiers() {
    let dice = Dice::new();
    let pc = PC::new(&dice, &sheet(10, 20, 2, 3, true)).ok().unwrap();
    for _ in 0..200 {
        let r = pc.check(Ability::Wisdom, Proficiency::Perception, Advantage::Neutral);
        assert!((12..=31).contains(&r));
    }
}

#[test]
fn out_of_range_ability_is_rejected() {
    let dice = Dice::new();
    assert_eq!(
        rejection(&dice, &sheet(300, 10, 1, 2, false)),
        ConfigError::InvalidAbilityScore("strength".to_string())
    );
    let negative = "{\"abilities\": {\"wisdom\": -1}, \"proficiencies\": {}, \
                    \"proficiency_bonus\": 2, \"darkvision\": true}";
    assert_eq!(rejection(&dice, negative), ConfigError::InvalidAbilityScore("wisdom".to_string()));
}

#[test]
fn unknown_names_are_rejected() {
    let dice = Dice::new();
    let ability = "{\"abilities\": {\"wisdom\": 10, \"luck\": 12}, \"proficiencies\": {}, \
                   \"proficiency_bonus\": 2, \"darkvision\": true}";
    assert_eq!(rejection(&dice, ability), ConfigError::UnknownAbility("luck".to_string()));
    let proficiency = "{\"abilities\": {}, \"proficiencies\": {\"stealth\": 1}, \
                       \"proficiency_bonus\": 2, \"darkvision\": true}";
    assert_eq!(rejection(&dice, proficiency), ConfigError::UnknownProficiency("stealth".to_string()));
    let level = "{\"abilities\": {}, \"proficiencies\": {\"insight\": 256}, \
                 \"proficiency_bonus\": 2, \"darkvision\": true}";
    assert_eq!(rejection(&dice, level), ConfigError::InvalidProficiencyLevel("insight".to_string()));
}

#[test]
fn missing_fields_are_rejected() {
    let dice = Dice::new();
    assert_eq!(rejection(&dice, "not json"), ConfigError::Malformed);
    assert_eq!(rejection(&dice, "{}"), ConfigError::MissingAbilities);
    assert_eq!(
        rejection(&dice, "{\"abilities\": {}, \"proficiency_bonus\": 2, \"darkvision\": true}"),
        ConfigError::MissingProficiencies
    );
    assert_eq!(
        rejection(&dice, "{\"abilities\": {}, \"proficiencies\": {}, \"darkvision\": true}"),
        ConfigError::InvalidProficiencyBonus
    );
    assert_eq!(
        rejection(&dice, "{\"abilities\": {}, \"proficiencies\": {}, \"proficiency_bonus\": 2}"),
        ConfigError::InvalidDarkvision
    );
    assert_eq!(
        rejection(
            &dice,
            "{\"abilities\": {}, \"proficiencies\": {}, \"proficiency_bonus\": 2, \"darkvision\": 1}"
        ),
        ConfigError::InvalidDarkvision
    );
}

#[test]
fn first_fault_is_reported() {
    let dice = Dice::new();
    let mut record = full_record();
    record.abilities = Some(vec![
        entry("wisdom", Some(14)),
        entry("speed", Some(3)),
        entry("strength", None),
    ]);
    record.proficiency_bonus = None;
    match PC::from_record(&dice, &record) {
        Ok(_) => panic!("accepted"),
        Err(e) => assert_eq!(e, ConfigError::UnknownAbility("speed".to_string())),
    }
}

#[test]
fn record_builds_character() {
    let dice = Dice::new();
    let pc = PC::from_record(&dice, &full_record()).ok().unwrap();
    assert_eq!(pc.ability_modifier(Ability::Wisdom), 2);
    assert_eq!(pc.ability_modifier(Ability::Strength), 0);
    assert_eq!(pc.proficiency_modifier(Proficiency::Perception), 2);
}

#[test]
fn later_entry_wins() {
    let dice = Dice::new();
    let mut record = full_record();
    record.abilities = Some(vec![entry("wisdom", Some(14)), entry("wisdom", Some(18))]);
    let pc = PC::from_record(&dice, &record).ok().unwrap();
    assert_eq!(pc.ability_modifier(Ability::Wisdom), 4);
}

#[test]
fn json_record_fields() {
    let record = match read_record(&sheet(13, 15, 1, 2, true)) {
        Ok(r) => r,
        Err(e) => panic!("{:?}", e),
    };
    let abilities = record.abilities.unwrap();
    assert_eq!(abilities.len(), 6);
    assert_eq!(abilities[0].name, "strength");
    assert_eq!(abilities[0].value, Some(13));
    assert_eq!(abilities[4].name, "wisdom");
    assert_eq!(abilities[4].value, Some(15));
    assert_eq!(record.proficiencies.unwrap().len(), 3);
    assert_eq!(record.proficiency_bonus, Some(2));
    assert_eq!(record.darkvision, Some(true));
}

#[test]
fn names_of_abilities_and_proficiencies() {
    assert_eq!(Ability::from_name("strength"), Some(Ability::Strength));
    assert_eq!(Ability::from_name("charisma"), Some(Ability::Charisma));
    assert_eq!(Ability::from_name("Strength"), None);
    assert_eq!(Proficiency::from_name("perception"), Some(Proficiency::Perception));
    assert_eq!(Proficiency::from_name("insight"), Some(Proficiency::Insight));
    assert_eq!(Proficiency::from_name("wisdom"), None);
}

#[test]
fn logger_shows_own_messages_only() {
    let logger = rollforgrue::debug::Debug {};
    assert!(logger.enabled("rollforgrue"));
    assert!(logger.enabled("rollforgrue::dice"));
    assert!(!logger.enabled("iced::window"));
    assert!(!logger.enabled("rollfor"));
}

#[test]
fn logger_compares_characters() {
    let logger = rollforgrue::debug::Debug {};
    assert!(logger.enabled("rollforgrue::é"));
    assert!(!logger.enabled("éollforgrue"));
    assert!(!logger.enabled(""));
}
