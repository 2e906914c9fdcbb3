//! Tests of the module assembler: the definition document, the library
//! index with its conditional entries, the conditional record sections,
//! and the end-to-end scenario.

use fgumod::fgu_module::FGUModule;
use fgumod::inputs::ModuleCategory;
use fgumod::inputs::ModuleDefinition;
use fgumod::inputs::RuleSet;
use fgumod::inputs::SpellActions;
use fgumod::inputs::SpellCastDuration;
use fgumod::inputs::SpellDefinition;
use fgumod::inputs::SpellId;
use fgumod::inputs::SpellLevel;
use fgumod::inputs::TableDefinition;
use fgumod::inputs::TableRange;

fn test_module(name: &str) -> ModuleDefinition {
    ModuleDefinition {
        name: name.to_string(),
        spell_files: Vec::new(),
        table_files: Vec::new(),
        source: "src".to_string(),
        category: ModuleCategory::SourceBook,
        author: "someone".to_string(),
        ruleset: RuleSet::FifthEdition,
    }
}

fn cantrip(name: &str) -> SpellDefinition {
    SpellDefinition {
        id: SpellId::new(1),
        name: name.to_string(),
        short_description: None,
        description: "plain words".to_string(),
        duration: None,
        casting_time: SpellCastDuration::Instant,
        school: "evocation".to_string(),
        spell_level: SpellLevel::Cantrip,
        needs_preperation: false,
        is_ritual: false,
        group: "cantrips".to_string(),
        actions: SpellActions {
            attacks: Vec::new(),
            saves: Vec::new(),
            damages: Vec::new(),
            effects: Vec::new(),
        },
    }
}

#[test]
fn definition_document_is_exactly_the_expected_text() {
    let module = FGUModule {
        module: test_module("Test Book"),
        spells: Vec::new(),
        tables: Vec::new(),
    };
    let text = module.definition_file();
    assert_eq!(
        text,
        "<root version=\"4.1\" dataversion=\"20210302\" release=\"8.1|CoreRPG:4.1\">\
         \n\t<name type=\"string\">Test Book</name>\
         \n\t<category type=\"string\">Source Book</category>\
         \n\t<author type=\"string\">someone</author>\
         \n\t<ruleset type=\"string\">5E</ruleset>\
         \n</root>"
    );
}

#[test]
fn end_to_end_one_cantrip_and_no_tables() {
    let module = FGUModule {
        module: test_module("Test Book"),
        spells: vec![cantrip("Zap")],
        tables: Vec::new(),
    };
    let definition = module.definition_file();
    assert!(definition.contains("Test Book"));
    assert!(definition.contains("<ruleset type=\"string\">5E</ruleset>"));

    let client = module.client_file();
    // library index: the module's lowered name and a spell entry
    assert!(client.contains("<testbook static=\"true\">"));
    assert!(client.contains("<name type=\"string\">testbook</name>"));
    assert!(client.contains("<spell static=\"true\">"));
    assert!(client.contains("<recordtype type=\"string\">spell</recordtype>"));
    // no table entry and no table section
    assert!(!client.contains("<tables"));
    assert!(!client.contains("Tables"));
    // exactly one spell element, with level 0 and an instant casting time
    assert_eq!(client.matches("<castingtime").count(), 1);
    assert!(client.contains("<id-00001>"));
    assert!(client.contains("<level type=\"number\">0</level>"));
    assert!(client.contains("<castingtime type=\"string\">instant</castingtime>"));
    assert!(client.contains("<source type=\"string\">Test Book</source>"));
}

#[test]
fn module_without_spells_omits_spell_entry_and_section() {
    let module = FGUModule {
        module: test_module("Tables Only"),
        spells: Vec::new(),
        tables: vec![TableDefinition::sample("Loot".to_string())],
    };
    let client = module.client_file();
    assert!(!client.contains("<spell"));
    assert!(!client.contains("Spells"));
    assert!(client.contains("<tables static=\"true\">"));
    assert!(client.contains("<recordtype type=\"string\">tables</recordtype>"));
    assert!(client.contains("<name type=\"string\">Loot</name>"));
}

#[test]
fn table_with_zero_ranges_emits_empty_tablerows_element() {
    let table = TableDefinition {
        id: 1,
        name: "Empty".to_string(),
        description: "no rows".to_string(),
        formatted_text: None,
        ranges: Vec::new(),
    };
    let module = FGUModule {
        module: test_module("Test Book"),
        spells: Vec::new(),
        tables: vec![table],
    };
    let client = module.client_file();
    assert!(client.contains("<tablerows>\n\t\t\t</tablerows>"));
}

#[test]
fn table_rows_carry_local_indices_and_bounds() {
    let mut table = TableDefinition::sample("Loot".to_string());
    table.id = 7;
    table.ranges.push(TableRange {
        from: 101,
        until: 103,
        description: "rare & strange".to_string(),
    });
    let module = FGUModule {
        module: test_module("Test Book"),
        spells: Vec::new(),
        tables: vec![table],
    };
    let client = module.client_file();
    // the table element is named by its own id, rows by local 1-based indices
    assert!(client.contains("<id-00007>"));
    assert!(client.contains("<fromrange type=\"number\">1</fromrange>"));
    assert!(client.contains("<fromrange type=\"number\">11</fromrange>"));
    assert!(client.contains("<fromrange type=\"number\">101</fromrange>"));
    assert!(client.contains("<torange type=\"number\">103</torange>"));
    // row outcomes are escaped text inside the results entry
    assert!(client.contains("<result type=\"string\">rare &amp; strange</result>"));
    assert!(client.contains("<resultlink type=\"windowreference\">"));
    assert!(client.contains("<class/>"));
    assert!(client.contains("<recordname/>"));
    // fixed table flags
    assert!(client.contains("<enabled type=\"number\">0</enabled>"));
    assert!(client.contains("<hiddenenabled type=\"string\">Disabled</hiddenenabled>"));
    assert!(client.contains("<labelcol1 type=\"string\">Effect</labelcol1>"));
    assert!(client.contains("<locked type=\"number\">1</locked>"));
    assert!(client.contains("<resultscols type=\"number\">1</resultscols>"));
}

#[test]
fn library_name_is_lowercased_with_spaces_removed() {
    let module = FGUModule {
        module: test_module("My GRAND Spell Book"),
        spells: vec![cantrip("Zap")],
        tables: Vec::new(),
    };
    let client = module.client_file();
    assert!(client.contains("<mygrandspellbook static=\"true\">"));
    assert!(client.contains("<name type=\"string\">mygrandspellbook</name>"));
}

#[test]
fn both_documents_share_the_versioned_root() {
    let module = FGUModule {
        module: test_module("Test Book"),
        spells: Vec::new(),
        tables: Vec::new(),
    };
    let envelope = "<root version=\"4.1\" dataversion=\"20210302\" release=\"8.1|CoreRPG:4.1\">";
    assert!(module.definition_file().starts_with(envelope));
    let client = module.client_file();
    assert!(client.starts_with(envelope));
    assert!(client.ends_with("\n</root>"));
}

#[test]
fn sample_records_match_their_documented_shape() {
    let spell = SpellDefinition::sample("Zap".to_string());
    assert_eq!(spell.id.get_id(), 1);
    assert_eq!(spell.name.as_str(), "Zap");
    assert_eq!(spell.short_description.as_deref(), Some("Something simple"));
    assert_eq!(spell.duration.as_deref(), Some("1 minuite"));
    assert!(matches!(spell.spell_level, SpellLevel::Cantrip));
    assert!(matches!(spell.casting_time, SpellCastDuration::Instant));
    assert_eq!(spell.actions.attacks.len(), 2);
    assert_eq!(spell.actions.saves.len(), 2);
    assert_eq!(spell.actions.damages.len(), 1);
    assert_eq!(spell.actions.effects.len(), 4);

    let table = TableDefinition::sample("Loot".to_string());
    assert_eq!(table.id, 1);
    assert_eq!(table.name.as_str(), "Loot");
    assert_eq!(table.description.as_str(), "A simple table");
    assert!(table.formatted_text.is_none());
    assert_eq!(table.ranges.len(), 2);
    assert_eq!(table.ranges[0].from, 1);
    assert_eq!(table.ranges[0].until, 10);
    assert_eq!(table.ranges[0].description.as_str(), "low");
    assert_eq!(table.ranges[1].from, 11);
    assert_eq!(table.ranges[1].until, 100);
    assert_eq!(table.ranges[1].description.as_str(), "high");
}

#[test]
fn empty_module_client_document_is_exactly_the_expected_text() {
    let module = FGUModule {
        module: test_module("Test Book"),
        spells: Vec::new(),
        tables: Vec::new(),
    };
    let client = module.client_file();
    assert_eq!(
        client,
        "<root version=\"4.1\" dataversion=\"20210302\" release=\"8.1|CoreRPG:4.1\">\
         \n\t<library>\
         \n\t\t<testbook static=\"true\">\
         \n\t\t\t<categoryname type=\"string\">Source Book</categoryname>\
         \n\t\t\t<name type=\"string\">testbook</name>\
         \n\t\t\t<entries>\
         \n\t\t\t</entries>\
         \n\t\t</testbook>\
         \n\t</library>\
         \n</root>"
    );
}

#[test]
fn assigned_ids_name_the_spell_elements_in_order() {
    let mut alloc = fgumod::ids::IdAllocator::new();
    let mut spells = vec![cantrip("First"), cantrip("Second")];
    assert!(fgumod::ids::assign_spell_ids(&mut alloc, &mut spells));
    let module = FGUModule {
        module: test_module("Test Book"),
        spells,
        tables: Vec::new(),
    };
    let client = module.client_file();
    let first = client.find("<id-00001>").unwrap();
    let second = client.find("<id-00002>").unwrap();
    assert!(first < second);
    let name_first = client.find("<name type=\"string\">First</name>").unwrap();
    let name_second = client.find("<name type=\"string\">Second</name>").unwrap();
    assert!(name_first < name_second);
}
