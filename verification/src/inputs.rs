//! The content model: the immutable, already-parsed representation of one
//! module, its spells and its rollable tables. Pure data with variant
//! fields; the emitters walk these types and never change them.

use vstd::prelude::*;
use vstd::string::StringExecFns;

verus! {

/// One of the six ability scores, as its canonical abbreviation.
pub enum AbilityScore {
    Strength,
    Dexterity,
    Constitution,
    Intelligence,
    Wisdom,
    Charisma,
}

/// The long-form spelling of an ability score, as the schema wants it.
pub open spec fn long_name_chars(a: AbilityScore) -> Seq<char> {
    match a {
        AbilityScore::Strength => "strength"@,
        AbilityScore::Dexterity => "dexterity"@,
        AbilityScore::Constitution => "constitution"@,
        AbilityScore::Intelligence => "intelligence"@,
        AbilityScore::Wisdom => "wisdom"@,
        AbilityScore::Charisma => "charisma"@,
    }
}

impl AbilityScore {
    /// The long-form spelling of this ability score.
    pub fn to_long_name(&self) -> (r: String)
        ensures
            r@ == long_name_chars(*self),
    {
        match self {
            AbilityScore::Strength => String::from_str("strength"),
            AbilityScore::Dexterity => String::from_str("dexterity"),
            AbilityScore::Constitution => String::from_str("constitution"),
            AbilityScore::Intelligence => String::from_str("intelligence"),
            AbilityScore::Wisdom => String::from_str("wisdom"),
            AbilityScore::Charisma => String::from_str("charisma"),
        }
    }
}

/// The long-form ability mapping is total and exact: each of the six
/// canonical abbreviations maps to exactly its long-form spelling.
pub proof fn lemma_ability_long_names()
    ensures
        long_name_chars(AbilityScore::Strength) == "strength"@,
        long_name_chars(AbilityScore::Dexterity) == "dexterity"@,
        long_name_chars(AbilityScore::Constitution) == "constitution"@,
        long_name_chars(AbilityScore::Intelligence) == "intelligence"@,
        long_name_chars(AbilityScore::Wisdom) == "wisdom"@,
        long_name_chars(AbilityScore::Charisma) == "charisma"@,
{
}

/// How long casting a spell takes.
pub enum SpellCastDuration {
    Instant,
    Reaction,
    BonusAction { count: u8 },
    Action { count: u8 },
    Forever,
}

/// The time unit of a finite effect duration.
pub enum TimeUnit {
    Round,
    Minute,
    Hour,
}

/// A finite effect duration: a count of time units.
pub struct SpellEffectDurationFinite {
    pub count: u8,
    pub unit: TimeUnit,
}

/// How long a spell effect lasts.
pub enum SpellEffectDuration {
    Finite(SpellEffectDurationFinite),
    Indefinite,
}

/// A spell's level: a cantrip or a numbered level.
pub enum SpellLevel {
    Cantrip,
    Level { number: u8 },
}

/// Whether an attack is made in melee or at range.
pub enum AttackRange {
    Melee,
    Ranged,
}

/// One attack action: its range and the save it asks for.
pub struct SpellRange {
    pub range: AttackRange,
    pub save: ToSave,
}

/// One saving-throw action.
pub struct SpellSave {
    pub is_magic: bool,
    pub stat: SpellStat,
    pub save: ToSave,
}

/// The statistic a save is rolled against.
pub enum SpellStat {
    AbilityScore { ability: AbilityScore },
}

/// A custom save difficulty based on an ability.
pub struct CustomSpellSave {
    pub stat: SpellStat,
    pub is_proficient: bool,
    pub bonus: u8,
}

/// The difficulty of a saving throw.
pub enum ToSave {
    Fixed { value: u8 },
    DC,
    Ability(CustomSpellSave),
}

/// The optional ability-score modifier of a damage roll.
pub enum DamageModifier {
    AbilityScore { ability: AbilityScore },
    NoModifier,
}

/// One dice specification, e.g. two six-sided dice as count 2, type "d6".
pub struct Dice {
    pub dice_type: String,
    pub count: u8,
}

/// One damage entry: its type and the dice rolled for it.
pub struct SpellDamage {
    pub modifier: DamageModifier,
    pub damage_type: String,
    pub dice: Vec<Dice>,
}

/// One lasting effect a spell applies.
pub struct SpellEffect {
    pub effect: String,
    pub duration: SpellEffectDuration,
    pub targets_self: bool,
}

/// One damage action: a group of damage entries.
pub struct ActionDamage {
    pub damage: Vec<SpellDamage>,
}

/// The four independently ordered action lists of a spell.
pub struct SpellActions {
    pub attacks: Vec<SpellRange>,
    pub saves: Vec<SpellSave>,
    pub damages: Vec<ActionDamage>,
    pub effects: Vec<SpellEffect>,
}

/// The allocator-assigned identifier of a spell record.
pub struct SpellId {
    value: u8,
}

impl View for SpellId {
    type V = u8;

    closed spec fn view(&self) -> u8 {
        self.value
    }
}

impl SpellId {
    /// A spell identifier holding the given value.
    pub fn new(value: u8) -> (r: Self)
        ensures
            r@ == value,
    {
        Self { value }
    }

    /// The identifier's value.
    pub fn get_id(&self) -> (r: u8)
        ensures
            r == self@,
    {
        self.value
    }
}

/// One spell record.
pub struct SpellDefinition {
    pub id: SpellId,
    pub name: String,
    pub short_description: Option<String>,
    pub description: String,
    pub duration: Option<String>,
    pub casting_time: SpellCastDuration,
    pub school: String,
    pub spell_level: SpellLevel,
    pub needs_preperation: bool,
    pub is_ritual: bool,
    pub group: String,
    pub actions: SpellActions,
}

/// The category of a module.
pub enum ModuleCategory {
    SourceBook,
}

/// One row of a rollable table: a roll range and its outcome.
pub struct TableRange {
    pub from: u8,
    pub until: u8,
    pub description: String,
}

/// One rollable-table record.
pub struct TableDefinition {
    pub id: u8,
    pub name: String,
    pub description: String,
    pub formatted_text: Option<String>,
    pub ranges: Vec<TableRange>,
}

impl TableDefinition {
    /// A fully populated sample table, the starting point the create-table
    /// command writes out for the author to edit.
    pub fn sample(name: String) -> (r: TableDefinition)
        ensures
            r.id == 1,
            r.name@ == name@,
            r.description@ == "A simple table"@,
            r.formatted_text is None,
            r.ranges@.len() == 2,
            r.ranges@[0].from == 1 && r.ranges@[0].until == 10 && r.ranges@[0].description@
                == "low"@,
            r.ranges@[1].from == 11 && r.ranges@[1].until == 100 && r.ranges@[1].description@
                == "high"@,
    {
        let mut ranges: Vec<TableRange> = Vec::new();
        ranges.push(
            TableRange { from: 1, until: 10, description: String::from_str("low") },
        );
        ranges.push(
            TableRange { from: 11, until: 100, description: String::from_str("high") },
        );
        TableDefinition {
            id: 1,
            name,
            description: String::from_str("A simple table"),
            formatted_text: None,
            ranges,
        }
    }
}

impl SpellDefinition {
    /// A fully populated sample spell, the starting point the create-spell
    /// command writes out for the author to edit: an instant cantrip with
    /// two attacks, two saves, one damage action and four effects.
    pub fn sample(name: String) -> (r: SpellDefinition)
        ensures
            r.id@ == 1,
            r.name@ == name@,
            r.short_description matches Some(t) && t@ == "Something simple"@,
            r.duration matches Some(t) && t@ == "1 minuite"@,
            r.casting_time is Instant,
            r.school@ == "Maaagic!"@,
            r.spell_level is Cantrip,
            !r.needs_preperation,
            !r.is_ritual,
            r.group@ == "A group"@,
            r.actions.attacks@.len() == 2,
            r.actions.attacks@[0] == (SpellRange { range: AttackRange::Melee, save: ToSave::DC }),
            r.actions.attacks@[1] == (SpellRange { range: AttackRange::Ranged, save: ToSave::DC }),
            r.actions.saves@.len() == 2,
            r.actions.damages@.len() == 1,
            r.actions.damages@[0].damage@.len() == 1,
            r.actions.damages@[0].damage@[0].dice@.len() == 1,
            r.actions.damages@[0].damage@[0].dice@[0].count == 1,
            r.actions.damages@[0].damage@[0].dice@[0].dice_type@ == "d4"@,
            r.actions.effects@.len() == 4,
    {
        let mut attacks: Vec<SpellRange> = Vec::new();
        attacks.push(SpellRange { range: AttackRange::Melee, save: ToSave::DC });
        attacks.push(SpellRange { range: AttackRange::Ranged, save: ToSave::DC });
        let mut saves: Vec<SpellSave> = Vec::new();
        saves.push(
            SpellSave {
                is_magic: false,
                stat: SpellStat::AbilityScore { ability: AbilityScore::Charisma },
                save: ToSave::DC,
            },
        );
        saves.push(
            SpellSave {
                is_magic: false,
                stat: SpellStat::AbilityScore { ability: AbilityScore::Charisma },
                save: ToSave::Ability(
                    CustomSpellSave {
                        bonus: 1,
                        stat: SpellStat::AbilityScore { ability: AbilityScore::Charisma },
                        is_proficient: true,
                    },
                ),
            },
        );
        let mut dice: Vec<Dice> = Vec::new();
        dice.push(Dice { dice_type: String::from_str("d4"), count: 1 });
        let mut damage: Vec<SpellDamage> = Vec::new();
        damage.push(
            SpellDamage {
                modifier: DamageModifier::AbilityScore { ability: AbilityScore::Constitution },
                damage_type: String::from_str("slashing"),
                dice,
            },
        );
        let mut damages: Vec<ActionDamage> = Vec::new();
        damages.push(ActionDamage { damage });
        let mut effects: Vec<SpellEffect> = Vec::new();
        effects.push(
            SpellEffect {
                effect: String::from_str("DMG: 4d4"),
                duration: SpellEffectDuration::Finite(
                    SpellEffectDurationFinite { count: 1, unit: TimeUnit::Minute },
                ),
                targets_self: true,
            },
        );
        effects.push(
            SpellEffect {
                effect: String::from_str("DMG: 4d4"),
                duration: SpellEffectDuration::Finite(
                    SpellEffectDurationFinite { count: 1, unit: TimeUnit::Round },
                ),
                targets_self: false,
            },
        );
        effects.push(
            SpellEffect {
                effect: String::from_str("DMG: 4d4"),
                duration: SpellEffectDuration::Finite(
                    SpellEffectDurationFinite { count: 1, unit: TimeUnit::Hour },
                ),
                targets_self: true,
            },
        );
        effects.push(
            SpellEffect {
                effect: String::from_str("DMG: 4d4"),
                duration: SpellEffectDuration::Finite(
                    SpellEffectDurationFinite { count: 1, unit: TimeUnit::Minute },
                ),
                targets_self: false,
            },
        );
        SpellDefinition {
            id: SpellId::new(1),
            name,
            short_description: Some(String::from_str("Something simple")),
            description: String::from_str(
                "\n# Simple Description\n\n- List item 1\n- List item 2\n",
            ),
            duration: Some(String::from_str("1 minuite")),
            casting_time: SpellCastDuration::Instant,
            school: String::from_str("Maaagic!"),
            spell_level: SpellLevel::Cantrip,
            needs_preperation: false,
            is_ritual: false,
            group: String::from_str("A group"),
            actions: SpellActions { attacks, saves, damages, effects },
        }
    }
}

/// The ruleset a module is written for.
pub enum RuleSet {
    FifthEdition,
}

/// The metadata of one module, with references to its content files.
pub struct ModuleDefinition {
    pub name: String,
    pub spell_files: Vec<String>,
    pub table_files: Vec<String>,
    pub source: String,
    pub category: ModuleCategory,
    pub author: String,
    pub ruleset: RuleSet,
}

} // verus!
