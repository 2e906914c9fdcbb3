//! Tests of the identifier allocator: per-kind contiguous sequences from
//! 1, independence of the two kinds, and loud exhaustion.

use fgumod::ids::IdAllocator;
use fgumod::ids::assign_spell_ids;
use fgumod::ids::assign_table_ids;
use fgumod::inputs::SpellDefinition;
use fgumod::inputs::TableDefinition;

#[test]
fn spell_ids_run_from_one_with_no_gaps() {
    let mut alloc = IdAllocator::new();
    for expected in 1..=20u8 {
        let id = alloc.next_spell_id().unwrap();
        assert_eq!(id.get_id(), expected);
    }
}

#[test]
fn table_ids_are_independent_of_spell_ids() {
    let mut alloc = IdAllocator::new();
    assert_eq!(alloc.next_spell_id().unwrap().get_id(), 1);
    assert_eq!(alloc.next_spell_id().unwrap().get_id(), 2);
    assert_eq!(alloc.next_table_id().unwrap(), 1);
    assert_eq!(alloc.next_spell_id().unwrap().get_id(), 3);
    assert_eq!(alloc.next_table_id().unwrap(), 2);
}

#[test]
fn allocator_reports_exhaustion_instead_of_wrapping() {
    let mut alloc = IdAllocator::new();
    for expected in 1..=255u8 {
        assert_eq!(alloc.next_table_id().unwrap(), expected);
    }
    assert!(alloc.next_table_id().is_none());
    assert!(alloc.next_table_id().is_none());
    // the other kind is untouched
    assert_eq!(alloc.next_spell_id().unwrap().get_id(), 1);
}

#[test]
fn assigning_ids_numbers_records_in_creation_order() {
    let mut alloc = IdAllocator::new();
    let mut spells: Vec<SpellDefinition> = vec![
        SpellDefinition::sample("a".to_string()),
        SpellDefinition::sample("b".to_string()),
        SpellDefinition::sample("c".to_string()),
    ];
    assert!(assign_spell_ids(&mut alloc, &mut spells));
    let ids: Vec<u8> = spells.iter().map(|s| s.id.get_id()).collect();
    assert_eq!(ids, vec![1, 2, 3]);
    // everything but the id is untouched
    assert_eq!(spells[1].name.as_str(), "b");

    let mut tables: Vec<TableDefinition> = vec![
        TableDefinition::sample("t1".to_string()),
        TableDefinition::sample("t2".to_string()),
    ];
    assert!(assign_table_ids(&mut alloc, &mut tables));
    assert_eq!(tables[0].id, 1);
    assert_eq!(tables[1].id, 2);
}

#[test]
fn assigning_too_many_ids_fails_and_changes_nothing() {
    let mut alloc = IdAllocator::new();
    for _ in 0..255 {
        alloc.next_table_id().unwrap();
    }
    let mut tables: Vec<TableDefinition> = vec![TableDefinition::sample("t".to_string())];
    assert!(!assign_table_ids(&mut alloc, &mut tables));
    assert_eq!(tables[0].id, 1);
    assert!(alloc.next_table_id().is_none());
}
