//! The module assembler: builds the two output documents of one
//! compilation run — the definition document and the client document —
//! with exact contracts for the full text of each. Writing the two
//! documents into the archive is the surrounding application's job.

use vstd::prelude::*;
use vstd::string::StrSliceExecFns;
use vstd::string::StringExecFns;
use crate::inputs::ModuleDefinition;
use crate::inputs::SpellDefinition;
use crate::inputs::TableDefinition;
use crate::markup::lower_of;
use crate::markup::lowercase;
use crate::spell::actions_fit;
use crate::spell::spell_chars;
use crate::tables::table_chars;
use crate::xml::XmlAttribute;
use crate::xml::XmlBuilder;
use crate::xml::attrs_view;
use crate::xml::custom_attr;
use crate::xml::custom_attrs;
use crate::xml::end_tag;
use crate::xml::nl_indent;
use crate::xml::no_attr;
use crate::xml::no_attrs;
use crate::xml::parent_elem_chars;
use crate::xml::start_tag;
use crate::xml::string_attr;
use crate::xml::string_attrs;
use crate::xml::text_elem_chars;
use crate::xml::type_attrs;
use crate::xml::typed_attr;

verus! {

/// One whole module ready for compilation: its metadata and its ordered
/// spell and table records.
pub struct FGUModule {
    pub module: ModuleDefinition,
    pub spells: Vec<SpellDefinition>,
    pub tables: Vec<TableDefinition>,
}

/// The fixed version attributes of both documents' root elements.
pub open spec fn root_attrs() -> Seq<(Seq<char>, Seq<char>)> {
    seq![("version"@, "4.1"@), ("dataversion"@, "20210302"@), ("release"@, "8.1|CoreRPG:4.1"@)]
}

/// `s` with every space removed.
pub open spec fn despaced(s: Seq<char>) -> Seq<char> {
    s.filter(|c: char| c != ' ')
}

/// The module's name as the library index spells it: spaces removed,
/// case folded to lower case.
pub open spec fn lowered_name(m: ModuleDefinition) -> Seq<char> {
    lower_of(despaced(m.name@))
}

/// The whole definition document: the versioned root element holding the
/// module's name, its literal category label, its author and its literal
/// ruleset label.
pub open spec fn definition_doc_chars(m: ModuleDefinition) -> Seq<char> {
    start_tag("root"@, root_attrs()) + text_elem_chars(1, "name"@, string_attr(), m.name@)
        + text_elem_chars(1, "category"@, string_attr(), "Source Book"@) + text_elem_chars(
        1,
        "author"@,
        string_attr(),
        m.author@,
    ) + text_elem_chars(1, "ruleset"@, string_attr(), "5E"@) + nl_indent(0) + end_tag("root"@)
}

/// One library-index entry telling the host application to present a
/// record kind as a linked reference list, at depth `d`.
pub open spec fn index_entry_chars(
    kind: Seq<char>,
    label: Seq<char>,
    rectype: Seq<char>,
    d: nat,
) -> Seq<char> {
    parent_elem_chars(
        d,
        kind,
        custom_attr("static"@, "true"@),
        parent_elem_chars(
            d + 1,
            "librarylink"@,
            typed_attr("windowreference"@),
            text_elem_chars(d + 2, "class"@, no_attr(), "reference_list"@) + text_elem_chars(
                d + 2,
                "recordname"@,
                no_attr(),
                ".."@,
            ),
        ) + text_elem_chars(d + 1, "name"@, string_attr(), label) + text_elem_chars(
            d + 1,
            "recordtype"@,
            string_attr(),
            rectype,
        ),
    )
}

/// The spell index entry, present exactly when the module has spells.
pub open spec fn spell_index_entry_chars(f: FGUModule, d: nat) -> Seq<char> {
    if f.spells@.len() > 0 {
        index_entry_chars("spell"@, "Spells"@, "spell"@, d)
    } else {
        Seq::empty()
    }
}

/// The table index entry, present exactly when the module has tables.
pub open spec fn table_index_entry_chars(f: FGUModule, d: nat) -> Seq<char> {
    if f.tables@.len() > 0 {
        index_entry_chars("tables"@, "Tables"@, "tables"@, d)
    } else {
        Seq::empty()
    }
}

/// The entries element of the library index, at depth `d`.
pub open spec fn entries_chars(f: FGUModule, d: nat) -> Seq<char> {
    parent_elem_chars(
        d,
        "entries"@,
        no_attr(),
        spell_index_entry_chars(f, d + 1) + table_index_entry_chars(f, d + 1),
    )
}

/// The library index's entry for this module, at depth `d`: named by the
/// module's lowered name.
pub open spec fn module_entry_chars(f: FGUModule, d: nat) -> Seq<char> {
    parent_elem_chars(
        d,
        lowered_name(f.module),
        custom_attr("static"@, "true"@),
        text_elem_chars(d + 1, "categoryname"@, string_attr(), "Source Book"@) + text_elem_chars(
            d + 1,
            "name"@,
            string_attr(),
            lowered_name(f.module),
        ) + entries_chars(f, d + 1),
    )
}

/// The whole library index, at depth `d`.
pub open spec fn library_chars(f: FGUModule, d: nat) -> Seq<char> {
    parent_elem_chars(d, "library"@, no_attr(), module_entry_chars(f, d + 1))
}

/// All spell elements, in the order given in the content model, at
/// depth `d`.
pub open spec fn spell_list_chars(
    spells: Seq<SpellDefinition>,
    module_name: Seq<char>,
    d: nat,
) -> Seq<char>
    decreases spells.len(),
{
    if spells.len() == 0 {
        Seq::empty()
    } else {
        spell_list_chars(spells.drop_last(), module_name, d) + spell_chars(
            spells.last(),
            module_name,
            d,
        )
    }
}

/// All table elements, in the order given in the content model, at
/// depth `d`.
pub open spec fn table_list_chars(tables: Seq<TableDefinition>, d: nat) -> Seq<char>
    decreases tables.len(),
{
    if tables.len() == 0 {
        Seq::empty()
    } else {
        table_list_chars(tables.drop_last(), d) + table_chars(tables.last(), d)
    }
}

/// The spell section, at depth `d`: omitted entirely — not emitted
/// empty — when the module has no spells.
pub open spec fn spells_section_chars(f: FGUModule, d: nat) -> Seq<char> {
    if f.spells@.len() == 0 {
        Seq::empty()
    } else {
        parent_elem_chars(
            d,
            "spell"@,
            no_attr(),
            spell_list_chars(f.spells@, f.module.name@, d + 1),
        )
    }
}

/// The table section, at depth `d`: omitted entirely when the module has
/// no tables.
pub open spec fn tables_section_chars(f: FGUModule, d: nat) -> Seq<char> {
    if f.tables@.len() == 0 {
        Seq::empty()
    } else {
        parent_elem_chars(d, "tables"@, no_attr(), table_list_chars(f.tables@, d + 1))
    }
}

/// The whole client document: the versioned root element holding the
/// library index, then the spell section if any spells exist, then the
/// table section if any tables exist.
pub open spec fn client_doc_chars(f: FGUModule) -> Seq<char> {
    start_tag("root"@, root_attrs()) + library_chars(f, 1) + spells_section_chars(f, 1)
        + tables_section_chars(f, 1) + nl_indent(0) + end_tag("root"@)
}

/// Every spell's shared action counter stays within the machine's
/// integer range.
pub open spec fn spells_fit(f: FGUModule) -> bool {
    forall|i: int| 0 <= i < f.spells@.len() ==> actions_fit(#[trigger] f.spells@[i].actions)
}

/// An empty record kind leaves no trace in the client document: with no
/// spells the library index has no spell entry and the document has no
/// spell section, and likewise for tables.
pub proof fn lemma_empty_kinds_omitted(f: FGUModule, d: nat)
    ensures
        f.spells@.len() == 0 ==> spell_index_entry_chars(f, d) == Seq::<char>::empty()
            && spells_section_chars(f, d) == Seq::<char>::empty(),
        f.tables@.len() == 0 ==> table_index_entry_chars(f, d) == Seq::<char>::empty()
            && tables_section_chars(f, d) == Seq::<char>::empty(),
{
}

// ---------------------------------------------------------------------------
// Append lemmas
// ---------------------------------------------------------------------------

/// Appending the pieces of one library-index entry equals appending the
/// whole entry's rendering.
proof fn lemma_index_entry_append(
    buf: Seq<char>,
    kind: Seq<char>,
    label: Seq<char>,
    rectype: Seq<char>,
    d: nat,
)
    ensures
        buf + nl_indent(d) + start_tag(kind, custom_attr("static"@, "true"@)) + nl_indent(d + 1)
            + start_tag("librarylink"@, typed_attr("windowreference"@)) + text_elem_chars(
            d + 2,
            "class"@,
            no_attr(),
            "reference_list"@,
        ) + text_elem_chars(d + 2, "recordname"@, no_attr(), ".."@) + nl_indent(d + 1) + end_tag(
            "librarylink"@,
        ) + text_elem_chars(d + 1, "name"@, string_attr(), label) + text_elem_chars(
            d + 1,
            "recordtype"@,
            string_attr(),
            rectype,
        ) + nl_indent(d) + end_tag(kind) == buf + index_entry_chars(kind, label, rectype, d),
{
    broadcast use crate::xml::lemma_add_assoc_chars;

    reveal(parent_elem_chars);
}

/// Appending the two conditional index entries inside the entries
/// element equals appending the whole element's rendering.
proof fn lemma_entries_append(buf: Seq<char>, f: FGUModule, d: nat)
    ensures
        buf + nl_indent(d) + start_tag("entries"@, no_attr()) + spell_index_entry_chars(f, d + 1)
            + table_index_entry_chars(f, d + 1) + nl_indent(d) + end_tag("entries"@) == buf
            + entries_chars(f, d),
{
    broadcast use crate::xml::lemma_add_assoc_chars;

    reveal(parent_elem_chars);
}

/// Appending the pieces of the module's library-index entry equals
/// appending the whole entry's rendering.
proof fn lemma_module_entry_append(buf: Seq<char>, f: FGUModule, d: nat)
    ensures
        buf + nl_indent(d) + start_tag(lowered_name(f.module), custom_attr("static"@, "true"@))
            + text_elem_chars(d + 1, "categoryname"@, string_attr(), "Source Book"@)
            + text_elem_chars(d + 1, "name"@, string_attr(), lowered_name(f.module))
            + entries_chars(f, d + 1) + nl_indent(d) + end_tag(lowered_name(f.module)) == buf
            + module_entry_chars(f, d),
{
    broadcast use crate::xml::lemma_add_assoc_chars;

    reveal(parent_elem_chars);
}

/// Rendering one more spell appends exactly its element.
proof fn lemma_spell_list_step(
    spells: Seq<SpellDefinition>,
    module_name: Seq<char>,
    i: int,
    d: nat,
)
    requires
        0 <= i < spells.len(),
    ensures
        spell_list_chars(spells.take(i + 1), module_name, d) == spell_list_chars(
            spells.take(i),
            module_name,
            d,
        ) + spell_chars(spells[i], module_name, d),
{
    assert(spells.take(i + 1).drop_last() =~= spells.take(i));
    assert(spells.take(i + 1).last() == spells[i]);
}

/// A rendered spell list covers all its spells.
proof fn lemma_spells_take_all(spells: Seq<SpellDefinition>)
    ensures
        spells.take(spells.len() as int) == spells,
{
    assert(spells.take(spells.len() as int) =~= spells);
}

/// Rendering one more table appends exactly its element.
proof fn lemma_table_list_step(tables: Seq<TableDefinition>, i: int, d: nat)
    requires
        0 <= i < tables.len(),
    ensures
        table_list_chars(tables.take(i + 1), d) == table_list_chars(tables.take(i), d)
            + table_chars(tables[i], d),
{
    assert(tables.take(i + 1).drop_last() =~= tables.take(i));
    assert(tables.take(i + 1).last() == tables[i]);
}

/// A rendered table list covers all its tables.
proof fn lemma_tables_take_all(tables: Seq<TableDefinition>)
    ensures
        tables.take(tables.len() as int) == tables,
{
    assert(tables.take(tables.len() as int) =~= tables);
}

// ---------------------------------------------------------------------------
// Emitters
// ---------------------------------------------------------------------------

/// The fixed version attributes, as builder attributes.
fn root_attrs_vec() -> (v: Vec<XmlAttribute>)
    ensures
        attrs_view(v@) == root_attrs(),
{
    let mut v: Vec<XmlAttribute> = Vec::new();
    v.push(XmlAttribute::custom("version", "4.1"));
    v.push(XmlAttribute::custom("dataversion", "20210302"));
    v.push(XmlAttribute::custom("release", "8.1|CoreRPG:4.1"));
    proof {
        assert(attrs_view(v@) =~= root_attrs());
    }
    v
}

/// `s` with every space removed.
fn remove_spaces(s: &str) -> (r: String)
    ensures
        r@ == despaced(s@),
{
    let mut r = String::new();
    let n = s.unicode_len();
    proof {
        reveal(Seq::filter);
    }
    let mut i: usize = 0;
    while i < n
        invariant
            i <= n,
            n == s@.len(),
            r@ == despaced(s@.take(i as int)),
        decreases n - i,
    {
        let c = s.get_char(i);
        if c != ' ' {
            let piece = s.substring_char(i, i + 1);
            r.append(piece);
            proof {
                reveal(Seq::filter);
                assert(piece@ =~= seq![s@[i as int]]);
                assert(s@.take(i + 1).drop_last() =~= s@.take(i as int));
                assert(s@.take(i + 1).last() == s@[i as int]);
                assert(despaced(s@.take(i as int)) + seq![s@[i as int]] =~= despaced(
                    s@.take(i as int),
                ).push(s@[i as int]));
                assert(r@ == despaced(s@.take(i + 1)));
            }
        } else {
            proof {
                reveal(Seq::filter);
                assert(s@.take(i + 1).drop_last() =~= s@.take(i as int));
                assert(s@.take(i + 1).last() == s@[i as int]);
                assert(r@ == despaced(s@.take(i + 1)));
            }
        }
        i += 1;
    }
    proof {
        assert(s@.take(n as int) =~= s@);
    }
    r
}

/// Emits one library-index entry for a record kind.
fn emit_index_entry(kind: &str, label: &str, rectype: &str, w: &mut XmlBuilder)
    ensures
        final(w).buf@ == old(w).buf@ + index_entry_chars(
            kind@,
            label@,
            rectype@,
            old(w).stack().len(),
        ),
        final(w).stack() == old(w).stack(),
{
    let ghost buf0 = w.buf@;
    let ghost d = w.stack().len();
    w.start_child(kind, &custom_attrs("static", "true"));
    w.start_child("librarylink", &type_attrs("windowreference"));
    w.write_string("class", &no_attrs(), "reference_list");
    w.write_string("recordname", &no_attrs(), "..");
    w.end_child();
    w.write_string("name", &string_attrs(), label);
    w.write_string("recordtype", &string_attrs(), rectype);
    w.end_child();
    proof {
        lemma_index_entry_append(buf0, kind@, label@, rectype@, d);
        assert(w.buf@ == buf0 + index_entry_chars(kind@, label@, rectype@, d));
        crate::xml::lemma_push_drop_last(old(w).stack(), kind@);
        assert(w.stack() == old(w).stack());
    }
}

impl FGUModule {
    /// Builds the definition document: the module's name, category
    /// label, author and ruleset label under the versioned root element.
    pub fn definition_file(&self) -> (r: String)
        ensures
            r@ == definition_doc_chars(self.module),
    {
        let mut w = XmlBuilder::new_document("root", &root_attrs_vec());
        w.write_string("name", &string_attrs(), self.module.name.as_str());
        w.write_string("category", &string_attrs(), "Source Book");
        w.write_string("author", &string_attrs(), self.module.author.as_str());
        w.write_string("ruleset", &string_attrs(), "5E");
        w.end_child();
        proof {
            assert(w.buf@ == definition_doc_chars(self.module));
        }
        w.to_string()
    }

    /// Emits the library index: the module's lowered name, its category,
    /// and one entry per non-empty record kind.
    fn emit_library(&self, lower_module: &str, w: &mut XmlBuilder)
        requires
            lower_module@ == lowered_name(self.module),
        ensures
            final(w).buf@ == old(w).buf@ + library_chars(*self, old(w).stack().len()),
            final(w).stack() == old(w).stack(),
    {
        let ghost buf0 = w.buf@;
        let ghost d = w.stack().len();
        w.start_child("library", &no_attrs());
        let ghost before_entry = w.buf@;
        w.start_child(lower_module, &custom_attrs("static", "true"));
        w.write_string("categoryname", &string_attrs(), "Source Book");
        w.write_string("name", &string_attrs(), lower_module);
        let ghost before_entries = w.buf@;
        w.start_child("entries", &no_attrs());
        let ghost entries0 = w.buf@;
        if !self.spells.is_empty() {
            emit_index_entry("spell", "Spells", "spell", w);
        } else {
            proof {
                crate::xml::lemma_add_empty_chars(entries0);
            }
        }
        let ghost after_spell_entry = w.buf@;
        if !self.tables.is_empty() {
            emit_index_entry("tables", "Tables", "tables", w);
        } else {
            proof {
                crate::xml::lemma_add_empty_chars(after_spell_entry);
            }
        }
        proof {
            assert(w.buf@ == entries0 + spell_index_entry_chars(*self, (d + 3) as nat)
                + table_index_entry_chars(*self, (d + 3) as nat));
        }
        w.end_child();
        proof {
            lemma_entries_append(before_entries, *self, (d + 2) as nat);
            assert(w.buf@ == before_entries + entries_chars(*self, (d + 2) as nat));
        }
        w.end_child();
        proof {
            lemma_module_entry_append(before_entry, *self, (d + 1) as nat);
            assert(w.buf@ == before_entry + module_entry_chars(*self, (d + 1) as nat));
        }
        w.end_child();
        proof {
            crate::xml::lemma_wrap_parent(
                buf0,
                d,
                "library"@,
                no_attr(),
                module_entry_chars(*self, (d + 1) as nat),
            );
            assert(w.buf@ == buf0 + library_chars(*self, d));
            crate::xml::lemma_push_drop_last(old(w).stack(), "library"@);
            assert(w.stack() == old(w).stack());
        }
    }

    /// Emits the spell section if any spells exist: every spell in the
    /// order given in the content model.
    fn emit_spell_section(&self, w: &mut XmlBuilder)
        requires
            spells_fit(*self),
        ensures
            final(w).buf@ == old(w).buf@ + spells_section_chars(*self, old(w).stack().len()),
            final(w).stack() == old(w).stack(),
    {
        let ghost buf0 = w.buf@;
        let ghost d = w.stack().len();
        if self.spells.is_empty() {
            proof {
                crate::xml::lemma_add_empty_chars(buf0);
            }
            return ;
        }
        w.start_child("spell", &no_attrs());
        let ghost list0 = w.buf@;
        let ghost stack1 = w.stack();
        proof {
            crate::xml::lemma_add_empty_chars(list0);
            assert(spell_list_chars(self.spells@.take(0), self.module.name@, (d + 1) as nat)
                == Seq::<char>::empty());
        }
        let mut i: usize = 0;
        while i < self.spells.len()
            invariant
                spells_fit(*self),
                i <= self.spells@.len(),
                w.buf@ == list0 + spell_list_chars(
                    self.spells@.take(i as int),
                    self.module.name@,
                    (d + 1) as nat,
                ),
                w.stack() == stack1,
                d + 1 == stack1.len(),
            decreases self.spells@.len() - i,
        {
            self.spells[i].process(&self.module, w);
            proof {
                lemma_spell_list_step(self.spells@, self.module.name@, i as int, (d + 1) as nat);
                vstd::seq_lib::lemma_concat_associative(
                    list0,
                    spell_list_chars(self.spells@.take(i as int), self.module.name@, (d + 1) as nat),
                    spell_chars(self.spells@[i as int], self.module.name@, (d + 1) as nat),
                );
                assert(w.buf@ == list0 + spell_list_chars(
                    self.spells@.take(i + 1),
                    self.module.name@,
                    (d + 1) as nat,
                ));
            }
            i += 1;
        }
        proof {
            lemma_spells_take_all(self.spells@);
        }
        w.end_child();
        proof {
            crate::xml::lemma_wrap_parent(
                buf0,
                d,
                "spell"@,
                no_attr(),
                spell_list_chars(self.spells@, self.module.name@, (d + 1) as nat),
            );
            assert(w.buf@ == buf0 + spells_section_chars(*self, d));
            crate::xml::lemma_push_drop_last(old(w).stack(), "spell"@);
            assert(w.stack() == old(w).stack());
        }
    }

    /// Emits the table section if any tables exist: every table in the
    /// order given in the content model.
    fn emit_table_section(&self, w: &mut XmlBuilder)
        ensures
            final(w).buf@ == old(w).buf@ + tables_section_chars(*self, old(w).stack().len()),
            final(w).stack() == old(w).stack(),
    {
        let ghost buf0 = w.buf@;
        let ghost d = w.stack().len();
        if self.tables.is_empty() {
            proof {
                crate::xml::lemma_add_empty_chars(buf0);
            }
            return ;
        }
        w.start_child("tables", &no_attrs());
        let ghost list0 = w.buf@;
        let ghost stack1 = w.stack();
        proof {
            crate::xml::lemma_add_empty_chars(list0);
            assert(table_list_chars(self.tables@.take(0), (d + 1) as nat) == Seq::<char>::empty());
        }
        let mut i: usize = 0;
        while i < self.tables.len()
            invariant
                i <= self.tables@.len(),
                w.buf@ == list0 + table_list_chars(self.tables@.take(i as int), (d + 1) as nat),
                w.stack() == stack1,
                d + 1 == stack1.len(),
            decreases self.tables@.len() - i,
        {
            self.tables[i].process(w);
            proof {
                lemma_table_list_step(self.tables@, i as int, (d + 1) as nat);
                vstd::seq_lib::lemma_concat_associative(
                    list0,
                    table_list_chars(self.tables@.take(i as int), (d + 1) as nat),
                    table_chars(self.tables@[i as int], (d + 1) as nat),
                );
                assert(w.buf@ == list0 + table_list_chars(self.tables@.take(i + 1), (d + 1) as nat));
            }
            i += 1;
        }
        proof {
            lemma_tables_take_all(self.tables@);
        }
        w.end_child();
        proof {
            crate::xml::lemma_wrap_parent(
                buf0,
                d,
                "tables"@,
                no_attr(),
                table_list_chars(self.tables@, (d + 1) as nat),
            );
            assert(w.buf@ == buf0 + tables_section_chars(*self, d));
            crate::xml::lemma_push_drop_last(old(w).stack(), "tables"@);
            assert(w.stack() == old(w).stack());
        }
    }

    /// Builds the client document: the library index, then the spell and
    /// table sections, each omitted entirely when its record kind is
    /// empty.
    pub fn client_file(&self) -> (r: String)
        requires
            spells_fit(*self),
        ensures
            r@ == client_doc_chars(*self),
    {
        let lower_module = lowercase(remove_spaces(self.module.name.as_str()).as_str());
        let mut w = XmlBuilder::new_document("root", &root_attrs_vec());
        self.emit_library(lower_module.as_str(), &mut w);
        self.emit_spell_section(&mut w);
        self.emit_table_section(&mut w);
        w.end_child();
        proof {
            assert(w.buf@ == client_doc_chars(*self));
        }
        w.to_string()
    }
}

} // verus!
