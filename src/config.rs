//! The configuration record from which a character is made, and the rules
//! that it must meet.
use vstd::prelude::*;

use crate::pc::{ability_named, ability_slot, proficiency_named, proficiency_slot};

verus! {

#[verifier::external_type_specification]
#[verifier::external_body]
pub struct ExJsonValue(json::JsonValue);

#[verifier::external_type_specification]
#[verifier::external_body]
pub struct ExJsonError(json::Error);

/// Whether json's parser accepts `text` as a JSON document.
pub uninterp spec fn is_json_text(text: Seq<char>) -> bool;

/// Relies on json::parse: the document that `text` holds, or why it holds
/// none; whether it succeeds depends on the text alone.
#[verifier::external_body]
fn parse_document(text: &str) -> (r: Result<json::JsonValue, json::Error>)
    ensures
        r is Ok <==> is_json_text(text@),
{
    json::parse(text)
}

/// Relies on json's `Index<&str>` for `JsonValue`: the member `key` of an
/// object, or null where there is none.
#[verifier::external_body]
fn member(v: &json::JsonValue, key: &str) -> (r: json::JsonValue) {
    v[key].clone()
}

/// Relies on json::object::Object::iter: the members of an object, in order;
/// `None` where `v` is no object.
#[verifier::external_body]
fn object_members(v: &json::JsonValue) -> (r: Option<Vec<(String, json::JsonValue)>>) {
    match v {
        json::JsonValue::Object(o) => Some(o.iter().map(|(k, x)| (k.to_string(), x.clone())).collect()),
        _ => None,
    }
}

/// Relies on json::JsonValue::as_u8: the value as an integer in `0..=255`, if
/// it is one.
#[verifier::external_body]
fn as_small_integer(v: &json::JsonValue) -> (r: Option<u8>) {
    v.as_u8()
}

/// Relies on json::JsonValue::as_bool: the value as a boolean, if it is one.
#[verifier::external_body]
fn as_boolean(v: &json::JsonValue) -> (r: Option<bool>) {
    v.as_bool()
}

/// One named entry of a configuration table: an ability with its score, or
/// a proficiency with its level. `value` is `None` where the configuration
/// holds no integer in `0..=255`.
pub struct ConfigEntry {
    pub name: String,
    pub value: Option<u8>,
}

/// A character's configuration, as read from its source. `None` marks a
/// field that is missing or has the wrong kind of value.
pub struct ConfigRecord {
    pub abilities: Option<Vec<ConfigEntry>>,
    pub proficiencies: Option<Vec<ConfigEntry>>,
    pub proficiency_bonus: Option<u8>,
    pub darkvision: Option<bool>,
}

/// Why a configuration was rejected.
#[derive(Debug, PartialEq, Eq)]
pub enum ConfigError {
    /// The text is not a well-formed document.
    Malformed,
    /// The document holds no table of abilities.
    MissingAbilities,
    /// The document holds no table of proficiencies.
    MissingProficiencies,
    /// No ability goes by this name.
    UnknownAbility(String),
    /// This ability's score is not an integer in `0..=255`.
    InvalidAbilityScore(String),
    /// No proficiency goes by this name.
    UnknownProficiency(String),
    /// This proficiency's level is not an integer in `0..=255`.
    InvalidProficiencyLevel(String),
    /// The proficiency bonus is missing or not an integer in `0..=255`.
    InvalidProficiencyBonus,
    /// The darkvision flag is missing or not a boolean.
    InvalidDarkvision,
}

/// The two tables of a configuration.
#[derive(Clone, Copy, Debug, PartialEq, Eq, Structural)]
pub enum Section {
    Abilities,
    Proficiencies,
}

/// The slot that `name` stands for in `section`, if any.
pub open spec fn slot_named(section: Section, name: Seq<char>) -> Option<int> {
    match section {
        Section::Abilities => match ability_named(name) {
            Some(a) => Some(ability_slot(a)),
            None => None,
        },
        Section::Proficiencies => match proficiency_named(name) {
            Some(p) => Some(proficiency_slot(p)),
            None => None,
        },
    }
}

/// The number of slots in `section`.
pub open spec fn slot_count(section: Section) -> int {
    match section {
        Section::Abilities => 6,
        Section::Proficiencies => 3,
    }
}

/// What is wrong with entry `e` of `section`, if anything: an unknown name
/// first, else a value out of range.
pub open spec fn entry_error(section: Section, e: ConfigEntry) -> Option<ConfigError> {
    if slot_named(section, e.name@) is None {
        Some(
            match section {
                Section::Abilities => ConfigError::UnknownAbility(e.name),
                Section::Proficiencies => ConfigError::UnknownProficiency(e.name),
            },
        )
    } else if e.value is None {
        Some(
            match section {
                Section::Abilities => ConfigError::InvalidAbilityScore(e.name),
                Section::Proficiencies => ConfigError::InvalidProficiencyLevel(e.name),
            },
        )
    } else {
        None
    }
}

/// The error of the first faulty entry of `entries`, if any.
pub open spec fn first_error(section: Section, entries: Seq<ConfigEntry>) -> Option<
    ConfigError,
>
    decreases entries.len(),
{
    if entries.len() == 0 {
        None
    } else if entry_error(section, entries[0]) is Some {
        entry_error(section, entries[0])
    } else {
        first_error(section, entries.drop_first())
    }
}

/// The value that `entries` gives to `slot`: that of the last entry that
/// names it, if one does.
pub open spec fn slot_value(section: Section, entries: Seq<ConfigEntry>, slot: int) -> Option<u8>
    decreases entries.len(),
{
    if entries.len() == 0 {
        None
    } else if slot_named(section, entries.last().name@) == Some(slot) {
        entries.last().value
    } else {
        slot_value(section, entries.drop_last(), slot)
    }
}

/// The table of values that `entries` gives, by slot.
pub open spec fn slot_table(section: Section, entries: Seq<ConfigEntry>) -> Seq<Option<u8>> {
    Seq::new(slot_count(section) as nat, |slot: int| slot_value(section, entries, slot))
}

/// What is wrong with a table of `section` that is present or not.
pub open spec fn section_error(section: Section, entries: Option<Vec<ConfigEntry>>) -> Option<
    ConfigError,
> {
    match entries {
        None => Some(
            match section {
                Section::Abilities => ConfigError::MissingAbilities,
                Section::Proficiencies => ConfigError::MissingProficiencies,
            },
        ),
        Some(v) => first_error(section, v@),
    }
}

/// What is wrong with a record, if anything: the first fault found when the
/// abilities, the proficiencies, the bonus and the darkvision flag are
/// checked in that order.
pub open spec fn record_error(record: ConfigRecord) -> Option<ConfigError> {
    if section_error(Section::Abilities, record.abilities) is Some {
        section_error(Section::Abilities, record.abilities)
    } else if section_error(Section::Proficiencies, record.proficiencies) is Some {
        section_error(Section::Proficiencies, record.proficiencies)
    } else if record.proficiency_bonus is None {
        Some(ConfigError::InvalidProficiencyBonus)
    } else if record.darkvision is None {
        Some(ConfigError::InvalidDarkvision)
    } else {
        None
    }
}

/// Any faulty entry makes its table faulty.
pub proof fn lemma_faulty_entry(section: Section, entries: Seq<ConfigEntry>, i: int)
    requires
        0 <= i < entries.len(),
        entry_error(section, entries[i]) is Some,
    ensures
        first_error(section, entries) is Some,
    decreases i,
{
    if i > 0 && entry_error(section, entries[0]) is None {
        lemma_faulty_entry(section, entries.drop_first(), i - 1);
    }
}

/// Whether a table of `section` that is present holds a faulty entry.
pub open spec fn has_faulty_entry(section: Section, entries: Option<Vec<ConfigEntry>>) -> bool {
    entries matches Some(v) && exists|i: int|
        0 <= i < v@.len() && #[trigger] entry_error(section, v@[i]) is Some
}

/// A record with an entry of an unknown name, or whose value is not an
/// integer in `0..=255`, in either table is rejected: no character is made
/// from it.
pub proof fn lemma_faulty_record(record: ConfigRecord, section: Section, i: int)
    requires
        match section {
            Section::Abilities => record.abilities matches Some(v) && 0 <= i < v@.len()
                && entry_error(section, v@[i]) is Some,
            Section::Proficiencies => record.proficiencies matches Some(v) && 0 <= i < v@.len()
                && entry_error(section, v@[i]) is Some,
        },
    ensures
        record_error(record) is Some,
{
    match section {
        Section::Abilities => lemma_faulty_entry(section, record.abilities.unwrap()@, i),
        Section::Proficiencies => lemma_faulty_entry(section, record.proficiencies.unwrap()@, i),
    }
}

/// A record with a faulty entry in either table has a fault.
pub proof fn lemma_faulty_table(record: ConfigRecord)
    requires
        has_faulty_entry(Section::Abilities, record.abilities) || has_faulty_entry(
            Section::Proficiencies,
            record.proficiencies,
        ),
    ensures
        record_error(record) is Some,
{
    if has_faulty_entry(Section::Abilities, record.abilities) {
        let i = choose|i: int|
            0 <= i < record.abilities.unwrap()@.len() && #[trigger] entry_error(
                Section::Abilities,
                record.abilities.unwrap()@[i],
            ) is Some;
        lemma_faulty_record(record, Section::Abilities, i);
    } else {
        let i = choose|i: int|
            0 <= i < record.proficiencies.unwrap()@.len() && #[trigger] entry_error(
                Section::Proficiencies,
                record.proficiencies.unwrap()@[i],
            ) is Some;
        lemma_faulty_record(record, Section::Proficiencies, i);
    }
}

/// The slot that `name` stands for in `section`, if any.
fn find_slot(section: Section, name: &String) -> (r: Option<usize>)
    ensures
        match r {
            Some(s) => slot_named(section, name@) == Some(s as int) && s < slot_count(section),
            None => slot_named(section, name@) is None,
        },
{
    match section {
        Section::Abilities => match crate::pc::Ability::from_name(name.as_str()) {
            Some(a) => Some(a.slot()),
            None => None,
        },
        Section::Proficiencies => match crate::pc::Proficiency::from_name(name.as_str()) {
            Some(p) => Some(p.slot()),
            None => None,
        },
    }
}

/// Read the entries of one table into a table by slot, or give the error
/// of its first faulty entry.
pub fn read_section(section: Section, entries: &Vec<ConfigEntry>) -> (r: Result<
    Vec<Option<u8>>,
    ConfigError,
>)
    ensures
        match r {
            Ok(table) => first_error(section, entries@) is None && table@ == slot_table(
                section,
                entries@,
            ),
            Err(e) => first_error(section, entries@) == Some(e) && e != ConfigError::Malformed,
        },
{
    let count: usize = match section {
        Section::Abilities => 6,
        Section::Proficiencies => 3,
    };
    let mut table: Vec<Option<u8>> = Vec::new();
    let mut k: usize = 0;
    while k < count
        invariant
            count == slot_count(section),
            k <= count,
            table@.len() == k,
            forall|j: int| 0 <= j < k ==> table@[j] is None,
        decreases count - k,
    {
        table.push(None);
        k = k + 1;
    }
    let mut i: usize = 0;
    assert(entries@.skip(0) =~= entries@);
    while i < entries.len()
        invariant
            i <= entries@.len(),
            count == slot_count(section),
            table@.len() == count,
            first_error(section, entries@) == first_error(section, entries@.skip(i as int)),
            forall|j: int|
                0 <= j < count ==> table@[j] == slot_value(section, entries@.take(i as int), j),
        decreases entries@.len() - i,
    {
        let entry: &ConfigEntry = &entries[i];
        assert(entries@.skip(i as int).drop_first() =~= entries@.skip(i + 1));
        assert(entries@.take(i + 1).drop_last() =~= entries@.take(i as int));
        match find_slot(section, &entry.name) {
            None => {
                return Err(
                    match section {
                        Section::Abilities => ConfigError::UnknownAbility(entry.name.clone()),
                        Section::Proficiencies => ConfigError::UnknownProficiency(
                            entry.name.clone(),
                        ),
                    },
                );
            },
            Some(slot) => match entry.value {
                None => {
                    return Err(
                        match section {
                            Section::Abilities => ConfigError::InvalidAbilityScore(
                                entry.name.clone(),
                            ),
                            Section::Proficiencies => ConfigError::InvalidProficiencyLevel(
                                entry.name.clone(),
                            ),
                        },
                    );
                },
                Some(v) => {
                    table.set(slot, Some(v));
                },
            },
        }
        i = i + 1;
    }
    assert(entries@.skip(i as int) =~= Seq::<ConfigEntry>::empty());
    assert(entries@.take(i as int) =~= entries@);
    assert(table@ =~= slot_table(section, entries@));
    Ok(table)
}

} // verus!

verus! {

/// The entries of the table at `key` of `doc`, or `None` if there is no
/// table there.
fn read_table(doc: &json::JsonValue, key: &str) -> (r: Option<Vec<ConfigEntry>>) {
    let table: json::JsonValue = member(doc, key);
    match object_members(&table) {
        None => None,
        Some(members) => {
            let mut entries: Vec<ConfigEntry> = Vec::new();
            let mut i: usize = 0;
            while i < members.len()
                invariant
                    i <= members@.len(),
                decreases members@.len() - i,
            {
                let (name, value) = &members[i];
                entries.push(ConfigEntry { name: name.clone(), value: as_small_integer(value) });
                i = i + 1;
            }
            Some(entries)
        },
    }
}

/// Read a configuration record from a JSON document with the fields
/// `abilities`, `proficiencies`, `proficiency_bonus` and `darkvision`.
/// The only error is [`ConfigError::Malformed`], exactly for text that is
/// no JSON; the record's own faults are left to [`record_error`].
pub fn read_record(text: &str) -> (r: Result<ConfigRecord, ConfigError>)
    ensures
        r is Ok <==> is_json_text(text@),
        r matches Err(e) ==> e == ConfigError::Malformed,
{
    match parse_document(text) {
        Err(_) => Err(ConfigError::Malformed),
        Ok(doc) => {
            let abilities = read_table(&doc, "abilities");
            let proficiencies = read_table(&doc, "proficiencies");
            let proficiency_bonus = as_small_integer(&member(&doc, "proficiency_bonus"));
            let darkvision = as_boolean(&member(&doc, "darkvision"));
            Ok(ConfigRecord { abilities, proficiencies, proficiency_bonus, darkvision })
        },
    }
}

} // verus!
