//! Tests of the spell emitter: action ordering, boolean encoding, effect
//! durations, dice strings and the ability-name mapping.

use fgumod::fgu_module::FGUModule;
use fgumod::inputs::AbilityScore;
use fgumod::inputs::ActionDamage;
use fgumod::inputs::AttackRange;
use fgumod::inputs::CustomSpellSave;
use fgumod::inputs::DamageModifier;
use fgumod::inputs::Dice;
use fgumod::inputs::ModuleCategory;
use fgumod::inputs::ModuleDefinition;
use fgumod::inputs::RuleSet;
use fgumod::inputs::SpellActions;
use fgumod::inputs::SpellCastDuration;
use fgumod::inputs::SpellDamage;
use fgumod::inputs::SpellDefinition;
use fgumod::inputs::SpellEffect;
use fgumod::inputs::SpellEffectDuration;
use fgumod::inputs::SpellEffectDurationFinite;
use fgumod::inputs::SpellId;
use fgumod::inputs::SpellLevel;
use fgumod::inputs::SpellRange;
use fgumod::inputs::SpellSave;
use fgumod::inputs::SpellStat;
use fgumod::inputs::TableDefinition;
use fgumod::inputs::TimeUnit;
use fgumod::inputs::ToSave;

fn test_module(name: &str) -> ModuleDefinition {
    ModuleDefinition {
        name: name.to_string(),
        spell_files: Vec::new(),
        table_files: Vec::new(),
        source: "src".to_string(),
        category: ModuleCategory::SourceBook,
        author: "someone".to_string(),
        ruleset: RuleSet::FifthEdition,
    }
}

fn bare_spell(name: &str) -> SpellDefinition {
    SpellDefinition {
        id: SpellId::new(1),
        name: name.to_string(),
        short_description: None,
        description: "plain words".to_string(),
        duration: None,
        casting_time: SpellCastDuration::Instant,
        school: "evocation".to_string(),
        spell_level: SpellLevel::Cantrip,
        needs_preperation: false,
        is_ritual: false,
        group: "attack spells".to_string(),
        actions: SpellActions {
            attacks: Vec::new(),
            saves: Vec::new(),
            damages: Vec::new(),
            effects: Vec::new(),
        },
    }
}

fn client_for_spell(spell: SpellDefinition) -> String {
    let module = FGUModule {
        module: test_module("Test Book"),
        spells: vec![spell],
        tables: Vec::new(),
    };
    module.client_file()
}

#[test]
fn action_orders_are_contiguous_in_category_order() {
    // the sample spell has 2 attacks, 2 saves, 1 damage and 4 effects
    let client = client_for_spell(SpellDefinition::sample("Zap".to_string()));
    for order in 1..=9 {
        let elem = format!("<order type=\"number\">{}</order>", order);
        assert!(client.contains(&elem), "missing order {}", order);
    }
    assert!(!client.contains("<order type=\"number\">10</order>"));
    assert_eq!(client.matches("<order").count(), 9);
    // categories appear in the fixed order: attacks, saves, damages, effects
    let first_attack = client.find("<atktype").unwrap();
    let first_save = client.find("<savemagic").unwrap();
    let first_damage = client.find("<damagelist").unwrap();
    let first_effect = client.find("<durunit").unwrap();
    assert!(first_attack < first_save);
    assert!(first_save < first_damage);
    assert!(first_damage < first_effect);
}

#[test]
fn boolean_fields_render_as_zero_or_one() {
    let mut spell = bare_spell("Rite");
    spell.is_ritual = true;
    spell.needs_preperation = false;
    let client = client_for_spell(spell);
    assert!(client.contains("<ritual type=\"number\">1</ritual>"));
    assert!(client.contains("<prepared type=\"number\">0</prepared>"));
    assert!(!client.contains(">true<"));
    assert!(!client.contains(">false<"));
}

#[test]
fn finite_effect_duration_emits_unit_and_count() {
    let mut spell = bare_spell("Linger");
    spell.actions.effects.push(SpellEffect {
        effect: "Slowed".to_string(),
        duration: SpellEffectDuration::Finite(SpellEffectDurationFinite {
            count: 2,
            unit: TimeUnit::Hour,
        }),
        targets_self: false,
    });
    let client = client_for_spell(spell);
    assert!(client.contains("<durunit type=\"string\">hour</durunit>"));
    assert!(client.contains("<durmod type=\"number\">2</durmod>"));
}

#[test]
fn indefinite_effect_duration_emits_neither_field() {
    let mut spell = bare_spell("Brand");
    spell.actions.effects.push(SpellEffect {
        effect: "Marked".to_string(),
        duration: SpellEffectDuration::Indefinite,
        targets_self: true,
    });
    let client = client_for_spell(spell);
    assert!(client.contains("<label type=\"string\">Marked</label>"));
    assert!(client.contains("<targeting type=\"string\">self</targeting>"));
    assert!(!client.contains("durunit"));
    assert!(!client.contains("durmod"));
}

#[test]
fn dice_lists_are_comma_joined() {
    let mut spell = bare_spell("Blast");
    spell.actions.damages.push(ActionDamage {
        damage: vec![SpellDamage {
            modifier: DamageModifier::NoModifier,
            damage_type: "fire".to_string(),
            dice: vec![
                Dice { dice_type: "d6".to_string(), count: 2 },
                Dice { dice_type: "d4".to_string(), count: 1 },
            ],
        }],
    });
    let client = client_for_spell(spell);
    assert!(client.contains("<dice type=\"dice\">2d6,1d4</dice>"));
    assert!(client.contains("<type type=\"string\">fire</type>"));
    // no modifier: no stat element inside the damage list
    assert!(!client.contains("<stat type=\"string\">"));
}

#[test]
fn damage_modifier_emits_long_ability_name() {
    let mut spell = bare_spell("Smite");
    spell.actions.damages.push(ActionDamage {
        damage: vec![SpellDamage {
            modifier: DamageModifier::AbilityScore { ability: AbilityScore::Constitution },
            damage_type: "radiant".to_string(),
            dice: vec![Dice { dice_type: "d8".to_string(), count: 1 }],
        }],
    });
    let client = client_for_spell(spell);
    assert!(client.contains("<stat type=\"string\">constitution</stat>"));
}

#[test]
fn ability_long_names_are_total_and_exact() {
    assert_eq!(AbilityScore::Strength.to_long_name().as_str(), "strength");
    assert_eq!(AbilityScore::Dexterity.to_long_name().as_str(), "dexterity");
    assert_eq!(AbilityScore::Constitution.to_long_name().as_str(), "constitution");
    assert_eq!(AbilityScore::Intelligence.to_long_name().as_str(), "intelligence");
    assert_eq!(AbilityScore::Wisdom.to_long_name().as_str(), "wisdom");
    assert_eq!(AbilityScore::Charisma.to_long_name().as_str(), "charisma");
}

#[test]
fn save_actions_emit_difficulty_by_variant() {
    let mut spell = bare_spell("Ward");
    spell.actions.saves.push(SpellSave {
        is_magic: true,
        stat: SpellStat::AbilityScore { ability: AbilityScore::Wisdom },
        save: ToSave::DC,
    });
    spell.actions.saves.push(SpellSave {
        is_magic: false,
        stat: SpellStat::AbilityScore { ability: AbilityScore::Dexterity },
        save: ToSave::Ability(CustomSpellSave {
            stat: SpellStat::AbilityScore { ability: AbilityScore::Intelligence },
            is_proficient: true,
            bonus: 3,
        }),
    });
    let client = client_for_spell(spell);
    assert!(client.contains("<savedcmod type=\"number\">0</savedcmod>"));
    assert!(client.contains("<savemagic type=\"number\">1</savemagic>"));
    assert!(client.contains("<savetype type=\"string\">wisdom</savetype>"));
    assert!(client.contains("<savedcbase type=\"string\">ability</savedcbase>"));
    assert!(client.contains("<savedcmod type=\"number\">3</savedcmod>"));
    assert!(client.contains("<savedcprof type=\"number\">1</savedcprof>"));
    assert!(client.contains("<savedcstat type=\"string\">intelligence</savedcstat>"));
    assert!(client.contains("<savetype type=\"string\">dexterity</savetype>"));
}

#[test]
fn attack_actions_emit_range_literals() {
    let mut spell = bare_spell("Jab");
    spell.actions.attacks.push(SpellRange { range: AttackRange::Melee, save: ToSave::DC });
    spell.actions.attacks.push(SpellRange { range: AttackRange::Ranged, save: ToSave::DC });
    let client = client_for_spell(spell);
    assert!(client.contains("<atktype type=\"string\">melee</atktype>"));
    assert!(client.contains("<atktype type=\"string\">ranged</atktype>"));
    assert!(client.contains("<type type=\"string\">cast</type>"));
    assert_eq!(AttackRange::Melee.to_xml().as_str(), "melee");
    assert_eq!(AttackRange::Ranged.to_xml().as_str(), "ranged");
}

#[test]
fn casting_time_variants_render_their_literals() {
    let mut cases: Vec<(SpellCastDuration, &str)> = Vec::new();
    cases.push((SpellCastDuration::Instant, "instant"));
    cases.push((SpellCastDuration::Reaction, "1 reaction"));
    cases.push((SpellCastDuration::BonusAction { count: 2 }, "2 bonus action"));
    cases.push((SpellCastDuration::Action { count: 3 }, "3 action"));
    cases.push((SpellCastDuration::Forever, "forever"));
    for (casting_time, expected) in cases {
        let mut spell = bare_spell("T");
        spell.casting_time = casting_time;
        let client = client_for_spell(spell);
        let elem = format!("<castingtime type=\"string\">{}</castingtime>", expected);
        assert!(client.contains(&elem), "missing {}", expected);
    }
}

#[test]
fn spell_level_is_numeric_and_cantrip_is_zero() {
    let mut spell = bare_spell("Bolt");
    spell.spell_level = SpellLevel::Level { number: 4 };
    let client = client_for_spell(spell);
    assert!(client.contains("<level type=\"number\">4</level>"));
    let client0 = client_for_spell(bare_spell("Zap"));
    assert!(client0.contains("<level type=\"number\">0</level>"));
}

#[test]
fn long_description_passes_through_markup_conversion() {
    let mut spell = bare_spell("Tale");
    spell.description = "# A Heading".to_string();
    let client = client_for_spell(spell);
    let html = markdown::to_html("# A Heading");
    assert_ne!(html, "# A Heading");
    let block = format!("<description type=\"formattedtext\">\n{}\n", html);
    assert!(client.contains(&block));
}

#[test]
fn table_note_passes_through_markup_conversion() {
    let mut table = TableDefinition::sample("Loot".to_string());
    table.formatted_text = Some("*shiny*".to_string());
    let module = FGUModule {
        module: test_module("Test Book"),
        spells: Vec::new(),
        tables: vec![table],
    };
    let client = module.client_file();
    let html = markdown::to_html("*shiny*");
    assert_ne!(html, "*shiny*");
    let block = format!("<notes type=\"formattedtext\">\n{}\n", html);
    assert!(client.contains(&block));
}
