//! Identifier allocation: one monotonically increasing counter per record
//! kind, starting at 1, with no gaps and no reuse within one run. The
//! allocator is an explicit value threaded through a compilation run, so
//! repeated or parallel runs never observe each other's identifiers.
//! Counter exhaustion is a fault reported to the caller, never a silent
//! wrap-around.

use vstd::prelude::*;
use crate::inputs::SpellDefinition;
use crate::inputs::SpellId;
use crate::inputs::TableDefinition;

verus! {

/// The record identifiers a compilation run hands out: one counter per
/// record kind, each starting at 1 and increasing by exactly 1 per
/// allocation.
pub struct IdAllocator {
    spells: u16,
    tables: u16,
}

/// A spell record equal to `s` except for its identifier.
pub open spec fn spell_with_id(s: SpellDefinition, id: SpellId) -> SpellDefinition {
    SpellDefinition { id: id, ..s }
}

/// A table record equal to `t` except for its identifier.
pub open spec fn table_with_id(t: TableDefinition, id: u8) -> TableDefinition {
    TableDefinition { id: id, ..t }
}

impl IdAllocator {
    /// The value the next spell identifier will take.
    pub closed spec fn spell_next(self) -> int {
        self.spells as int
    }

    /// The value the next table identifier will take.
    pub closed spec fn table_next(self) -> int {
        self.tables as int
    }

    /// A fresh allocator for one run: both kinds start at 1.
    pub fn new() -> (r: Self)
        ensures
            r.spell_next() == 1,
            r.table_next() == 1,
    {
        Self { spells: 1, tables: 1 }
    }

    /// The next spell identifier, or `None` once the counter is exhausted
    /// (in which case nothing changes).
    pub fn next_spell_id(&mut self) -> (r: Option<SpellId>)
        ensures
            old(self).spell_next() <= 255 ==> (r matches Some(id) && id@ as int == old(
                self,
            ).spell_next() && final(self).spell_next() == old(self).spell_next() + 1),
            old(self).spell_next() > 255 ==> r is None && final(self).spell_next() == old(
                self,
            ).spell_next(),
            final(self).table_next() == old(self).table_next(),
    {
        if self.spells <= 255 {
            let id = SpellId::new(self.spells as u8);
            self.spells = self.spells + 1;
            Some(id)
        } else {
            None
        }
    }

    /// The next table identifier, or `None` once the counter is exhausted
    /// (in which case nothing changes).
    pub fn next_table_id(&mut self) -> (r: Option<u8>)
        ensures
            old(self).table_next() <= 255 ==> (r matches Some(id) && id as int == old(
                self,
            ).table_next() && final(self).table_next() == old(self).table_next() + 1),
            old(self).table_next() > 255 ==> r is None && final(self).table_next() == old(
                self,
            ).table_next(),
            final(self).spell_next() == old(self).spell_next(),
    {
        if self.tables <= 255 {
            let id = self.tables as u8;
            self.tables = self.tables + 1;
            Some(id)
        } else {
            None
        }
    }
}

/// The dedicated identifier-assignment pass for spells: gives the records
/// their allocator-assigned identifiers in creation order, changing nothing
/// else. Fails, changing nothing, exactly when the counter would overflow.
pub fn assign_spell_ids(alloc: &mut IdAllocator, spells: &mut Vec<SpellDefinition>) -> (ok: bool)
    ensures
        ok <==> old(alloc).spell_next() + old(spells)@.len() <= 256,
        final(spells)@.len() == old(spells)@.len(),
        ok ==> forall|i: int|
            0 <= i < old(spells)@.len() ==> final(spells)@[i] == spell_with_id(
                old(spells)@[i],
                final(spells)@[i].id,
            ) && final(spells)@[i].id@ as int == old(alloc).spell_next() + i,
        ok ==> final(alloc).spell_next() == old(alloc).spell_next() + old(spells)@.len(),
        !ok ==> final(spells)@ == old(spells)@ && final(alloc).spell_next() == old(
            alloc,
        ).spell_next(),
        final(alloc).table_next() == old(alloc).table_next(),
{
    let n = spells.len();
    if n > 256 {
        return false;
    }
    if alloc.spells as usize + n > 256 {
        return false;
    }
    let ghost spells0 = spells@;
    let ghost start = alloc.spell_next();
    let mut i: usize = 0;
    while i < n
        invariant
            i <= n,
            n == spells0.len(),
            spells@.len() == n,
            start + n <= 256,
            alloc.spell_next() == start + i,
            alloc.table_next() == old(alloc).table_next(),
            forall|j: int|
                0 <= j < i ==> spells@[j] == spell_with_id(spells0[j], spells@[j].id)
                    && spells@[j].id@ as int == start + j,
            forall|j: int| i <= j < n ==> spells@[j] == spells0[j],
        decreases n - i,
    {
        let ghost pre = spells@;
        let mut s = spells.remove(i);
        match alloc.next_spell_id() {
            Some(id) => {
                s.id = id;
            },
            None => {
                proof {
                    assert(false);
                }
            },
        }
        spells.insert(i, s);
        proof {
            assert(spells@ =~= pre.update(i as int, s));
        }
        i += 1;
    }
    true
}

/// The dedicated identifier-assignment pass for tables, the exact
/// counterpart of the one for spells.
pub fn assign_table_ids(alloc: &mut IdAllocator, tables: &mut Vec<TableDefinition>) -> (ok: bool)
    ensures
        ok <==> old(alloc).table_next() + old(tables)@.len() <= 256,
        final(tables)@.len() == old(tables)@.len(),
        ok ==> forall|i: int|
            0 <= i < old(tables)@.len() ==> final(tables)@[i] == table_with_id(
                old(tables)@[i],
                final(tables)@[i].id,
            ) && final(tables)@[i].id as int == old(alloc).table_next() + i,
        ok ==> final(alloc).table_next() == old(alloc).table_next() + old(tables)@.len(),
        !ok ==> final(tables)@ == old(tables)@ && final(alloc).table_next() == old(
            alloc,
        ).table_next(),
        final(alloc).spell_next() == old(alloc).spell_next(),
{
    let n = tables.len();
    if n > 256 {
        return false;
    }
    if alloc.tables as usize + n > 256 {
        return false;
    }
    let ghost tables0 = tables@;
    let ghost start = alloc.table_next();
    let mut i: usize = 0;
    while i < n
        invariant
            i <= n,
            n == tables0.len(),
            tables@.len() == n,
            start + n <= 256,
            alloc.table_next() == start + i,
            alloc.spell_next() == old(alloc).spell_next(),
            forall|j: int|
                0 <= j < i ==> tables@[j] == table_with_id(tables0[j], tables@[j].id)
                    && tables@[j].id as int == start + j,
            forall|j: int| i <= j < n ==> tables@[j] == tables0[j],
        decreases n - i,
    {
        let ghost pre = tables@;
        let mut t = tables.remove(i);
        match alloc.next_table_id() {
            Some(id) => {
                t.id = id;
            },
            None => {
                proof {
                    assert(false);
                }
            },
        }
        tables.insert(i, t);
        proof {
            assert(tables@ =~= pre.update(i as int, t));
        }
        i += 1;
    }
    true
}

/// Within one run, the identifiers allocated for one record kind are
/// exactly 1..count: the record created i-th carries id i + 1, so no id
/// repeats and every value from 1 to the record count is used.
pub proof fn lemma_run_ids_exact(ids: Seq<int>)
    requires
        forall|i: int| 0 <= i < ids.len() ==> #[trigger] ids[i] == 1 + i,
    ensures
        forall|i: int, j: int| 0 <= i < j < ids.len() ==> ids[i] != ids[j],
        forall|v: int| 1 <= v <= ids.len() ==> #[trigger] ids.contains(v),
{
    assert forall|v: int| 1 <= v <= ids.len() implies #[trigger] ids.contains(v) by {
        assert(ids[v - 1] == v);
    }
}

} // verus!
