//! The table emitter: walks one rollable-table record and issues builder
//! calls according to the target schema. The spec functions state the
//! exact characters every table contributes to the client document.

use vstd::prelude::*;
use crate::inputs::TableDefinition;
use crate::inputs::TableRange;
use crate::markup::html_of;
use crate::markup::to_html;
use crate::xml::XmlBuilder;
use crate::xml::dec_chars;
use crate::xml::empty_elem_chars;
use crate::xml::end_tag;
use crate::xml::id_name;
use crate::xml::id_name_chars;
use crate::xml::nl_indent;
use crate::xml::no_attr;
use crate::xml::no_attrs;
use crate::xml::number_attr;
use crate::xml::number_attrs;
use crate::xml::parent_elem_chars;
use crate::xml::raw_elem_chars;
use crate::xml::start_tag;
use crate::xml::string_attr;
use crate::xml::string_attrs;
use crate::xml::text_elem_chars;
use crate::xml::type_attrs;
use crate::xml::typed_attr;
use crate::xml::usize_dec;

verus! {

/// The inline markup of a table's optional note text; an absent note
/// converts as empty text.
pub open spec fn note_html(t: TableDefinition) -> Seq<char> {
    match t.formatted_text {
        Some(x) => html_of(x@),
        None => html_of(""@),
    }
}

/// The single result entry of one table row: the row's outcome text and
/// an empty result-link placeholder pair, at depth `d`.
pub open spec fn row_result_entry_chars(r: TableRange, d: nat) -> Seq<char> {
    parent_elem_chars(
        d,
        "id-00001"@,
        no_attr(),
        text_elem_chars(d + 1, "result"@, string_attr(), r.description@) + parent_elem_chars(
            d + 1,
            "resultlink"@,
            typed_attr("windowreference"@),
            empty_elem_chars(d + 2, "class"@, no_attr()) + empty_elem_chars(
                d + 2,
                "recordname"@,
                no_attr(),
            ),
        ),
    )
}

/// One table row, the `idx`-th of its table (1-based, independent of the
/// table's own identifier), at depth `d`.
pub open spec fn row_chars(r: TableRange, idx: nat, d: nat) -> Seq<char> {
    parent_elem_chars(
        d,
        id_name_chars(idx),
        no_attr(),
        text_elem_chars(d + 1, "fromrange"@, number_attr(), dec_chars(r.from as nat))
            + text_elem_chars(d + 1, "torange"@, number_attr(), dec_chars(r.until as nat))
            + parent_elem_chars(d + 1, "results"@, no_attr(), row_result_entry_chars(r, d + 2)),
    )
}

/// All rows of one table, numbered from 1, at depth `d`.
pub open spec fn rows_chars(rs: Seq<TableRange>, d: nat) -> Seq<char>
    decreases rs.len(),
{
    if rs.len() == 0 {
        Seq::empty()
    } else {
        rows_chars(rs.drop_last(), d) + row_chars(rs.last(), rs.len(), d)
    }
}

/// The leading fields of one table, at depth `d`.
pub open spec fn table_body_a(t: TableDefinition, d: nat) -> Seq<char> {
    text_elem_chars(d, "description"@, string_attr(), t.description@) + text_elem_chars(
        d,
        "dice"@,
        typed_attr("dice"@),
        ""@,
    ) + text_elem_chars(d, "enabled"@, number_attr(), "0"@) + text_elem_chars(
        d,
        "hiddenenabled"@,
        string_attr(),
        "Disabled"@,
    ) + text_elem_chars(d, "hiderollresults"@, number_attr(), "0"@) + text_elem_chars(
        d,
        "labelcol1"@,
        string_attr(),
        "Effect"@,
    )
}

/// The middle fields of one table, at depth `d`.
pub open spec fn table_body_b(t: TableDefinition, d: nat) -> Seq<char> {
    text_elem_chars(d, "locked"@, number_attr(), "1"@) + text_elem_chars(
        d,
        "mode"@,
        number_attr(),
        "0"@,
    ) + text_elem_chars(d, "name"@, string_attr(), t.name@) + raw_elem_chars(
        d,
        "notes"@,
        typed_attr("formattedtext"@),
        note_html(t),
    ) + text_elem_chars(d, "resultscols"@, number_attr(), "1"@) + text_elem_chars(
        d,
        "table_positionoffset"@,
        number_attr(),
        "0"@,
    )
}

/// The whole rows sub-tree of one table, at depth `d`: present even when
/// the table has no rows.
pub open spec fn tablerows_chars(t: TableDefinition, d: nat) -> Seq<char> {
    parent_elem_chars(d, "tablerows"@, no_attr(), rows_chars(t.ranges@, d + 1))
}

/// One whole table element: named by the table's identifier, holding its
/// fields and its rows sub-tree.
pub open spec fn table_chars(t: TableDefinition, d: nat) -> Seq<char> {
    parent_elem_chars(
        d,
        id_name_chars(t.id as nat),
        no_attr(),
        table_body_a(t, d + 1) + table_body_b(t, d + 1) + tablerows_chars(t, d + 1),
    )
}

/// A table with zero ranges still renders a well-formed rows sub-tree:
/// the tablerows element is present and empty, not omitted.
pub proof fn lemma_empty_table_still_has_rows_elem(t: TableDefinition, d: nat)
    requires
        t.ranges@.len() == 0,
    ensures
        tablerows_chars(t, d) == nl_indent(d) + start_tag("tablerows"@, no_attr()) + nl_indent(d)
            + end_tag("tablerows"@),
{
    broadcast use crate::xml::lemma_add_assoc_chars, crate::xml::lemma_add_empty_chars;

    reveal(parent_elem_chars);
}

/// Appending the pieces of one row's result entry equals appending the
/// whole entry's rendering.
proof fn lemma_result_entry_append(buf: Seq<char>, r: TableRange, d: nat)
    ensures
        buf + nl_indent(d) + start_tag("id-00001"@, no_attr()) + text_elem_chars(
            d + 1,
            "result"@,
            string_attr(),
            r.description@,
        ) + nl_indent(d + 1) + start_tag("resultlink"@, typed_attr("windowreference"@))
            + empty_elem_chars(d + 2, "class"@, no_attr()) + empty_elem_chars(
            d + 2,
            "recordname"@,
            no_attr(),
        ) + nl_indent(d + 1) + end_tag("resultlink"@) + nl_indent(d) + end_tag("id-00001"@) == buf
            + row_result_entry_chars(r, d),
{
    broadcast use crate::xml::lemma_add_assoc_chars;

    reveal(parent_elem_chars);
}

/// Appending the pieces of one row element equals appending the whole
/// row's rendering.
proof fn lemma_row_append(buf: Seq<char>, r: TableRange, idx: nat, d: nat)
    ensures
        buf + nl_indent(d) + start_tag(id_name_chars(idx), no_attr()) + text_elem_chars(
            d + 1,
            "fromrange"@,
            number_attr(),
            dec_chars(r.from as nat),
        ) + text_elem_chars(d + 1, "torange"@, number_attr(), dec_chars(r.until as nat))
            + nl_indent(d + 1) + start_tag("results"@, no_attr()) + row_result_entry_chars(
            r,
            (d + 2) as nat,
        ) + nl_indent(d + 1) + end_tag("results"@) + nl_indent(d) + end_tag(id_name_chars(idx))
            == buf + row_chars(r, idx, d),
{
    broadcast use crate::xml::lemma_add_assoc_chars;

    reveal(parent_elem_chars);
}

/// Rendering one more row appends exactly its element.
proof fn lemma_rows_step(rs: Seq<TableRange>, j: int, d: nat)
    requires
        0 <= j < rs.len(),
    ensures
        rows_chars(rs.take(j + 1), d) == rows_chars(rs.take(j), d) + row_chars(
            rs[j],
            (j + 1) as nat,
            d,
        ),
{
    assert(rs.take(j + 1).drop_last() =~= rs.take(j));
    assert(rs.take(j + 1).last() == rs[j]);
}

/// A rendered row list covers all its rows.
proof fn lemma_rows_take_all(rs: Seq<TableRange>)
    ensures
        rs.take(rs.len() as int) == rs,
{
    assert(rs.take(rs.len() as int) =~= rs);
}

/// Appending the six leading table fields equals appending their group.
proof fn lemma_table_body_a_append(buf: Seq<char>, t: TableDefinition, d: nat)
    ensures
        buf + text_elem_chars(d, "description"@, string_attr(), t.description@) + text_elem_chars(
            d,
            "dice"@,
            typed_attr("dice"@),
            ""@,
        ) + text_elem_chars(d, "enabled"@, number_attr(), "0"@) + text_elem_chars(
            d,
            "hiddenenabled"@,
            string_attr(),
            "Disabled"@,
        ) + text_elem_chars(d, "hiderollresults"@, number_attr(), "0"@) + text_elem_chars(
            d,
            "labelcol1"@,
            string_attr(),
            "Effect"@,
        ) == buf + table_body_a(t, d),
{
    broadcast use crate::xml::lemma_add_assoc_chars;

}

/// Appending the six middle table fields equals appending their group.
proof fn lemma_table_body_b_append(buf: Seq<char>, t: TableDefinition, d: nat)
    ensures
        buf + text_elem_chars(d, "locked"@, number_attr(), "1"@) + text_elem_chars(
            d,
            "mode"@,
            number_attr(),
            "0"@,
        ) + text_elem_chars(d, "name"@, string_attr(), t.name@) + raw_elem_chars(
            d,
            "notes"@,
            typed_attr("formattedtext"@),
            note_html(t),
        ) + text_elem_chars(d, "resultscols"@, number_attr(), "1"@) + text_elem_chars(
            d,
            "table_positionoffset"@,
            number_attr(),
            "0"@,
        ) == buf + table_body_b(t, d),
{
    broadcast use crate::xml::lemma_add_assoc_chars;

}

/// Appending the two field groups and the rows sub-tree inside the
/// table's wrapper element equals appending the whole table's rendering.
proof fn lemma_table_chars_append(buf: Seq<char>, t: TableDefinition, d: nat)
    ensures
        buf + nl_indent(d) + start_tag(id_name_chars(t.id as nat), no_attr()) + table_body_a(
            t,
            (d + 1) as nat,
        ) + table_body_b(t, (d + 1) as nat) + nl_indent(d + 1) + start_tag("tablerows"@, no_attr())
            + rows_chars(t.ranges@, (d + 2) as nat) + nl_indent(d + 1) + end_tag("tablerows"@)
            + nl_indent(d) + end_tag(id_name_chars(t.id as nat)) == buf + table_chars(t, d),
{
    broadcast use crate::xml::lemma_add_assoc_chars;

    reveal(parent_elem_chars);
}

impl TableDefinition {
    /// Emits one table row: its local index-named wrapper, its roll-range
    /// bounds and its single result entry.
    fn process_table_row(range: &TableRange, index: usize, w: &mut XmlBuilder)
        requires
            index >= 1,
        ensures
            final(w).buf@ == old(w).buf@ + row_chars(*range, index as nat, old(w).stack().len()),
            final(w).stack() == old(w).stack(),
    {
        let ghost buf0 = w.buf@;
        let ghost d = w.stack().len();
        let id = id_name(index);
        w.start_child(id.as_str(), &no_attrs());
        w.write_string("fromrange", &number_attrs(), usize_dec(range.from as usize).as_str());
        w.write_string("torange", &number_attrs(), usize_dec(range.until as usize).as_str());
        w.start_child("results", &no_attrs());
        let ghost entry0 = w.buf@;
        w.start_child("id-00001", &no_attrs());
        w.write_string("result", &string_attrs(), range.description.as_str());
        w.start_child("resultlink", &type_attrs("windowreference"));
        w.empty_node("class", &no_attrs());
        w.empty_node("recordname", &no_attrs());
        w.end_child();
        w.end_child();
        proof {
            lemma_result_entry_append(entry0, *range, (d + 2) as nat);
            assert(w.buf@ == entry0 + row_result_entry_chars(*range, (d + 2) as nat));
        }
        w.end_child();
        w.end_child();
        proof {
            lemma_row_append(buf0, *range, index as nat, d);
            assert(w.buf@ == buf0 + row_chars(*range, index as nat, d));
            assert(w.stack() =~= old(w).stack());
        }
    }

    /// Emits this table's whole element into the builder.
    pub fn process(&self, w: &mut XmlBuilder)
        ensures
            final(w).buf@ == old(w).buf@ + table_chars(*self, old(w).stack().len()),
            final(w).stack() == old(w).stack(),
    {
        let note_text = match &self.formatted_text {
            Some(x) => to_html(x.as_str()),
            None => to_html(""),
        };
        let ghost buf0 = w.buf@;
        let ghost d = w.stack().len();
        let id = id_name(self.id as usize);
        w.start_child(id.as_str(), &no_attrs());
        let ghost open0 = w.buf@;
        w.write_string("description", &string_attrs(), self.description.as_str());
        w.write_string("dice", &type_attrs("dice"), "");
        w.write_string("enabled", &number_attrs(), "0");
        w.write_string("hiddenenabled", &string_attrs(), "Disabled");
        w.write_string("hiderollresults", &number_attrs(), "0");
        w.write_string("labelcol1", &string_attrs(), "Effect");
        proof {
            lemma_table_body_a_append(open0, *self, (d + 1) as nat);
            assert(w.buf@ == open0 + table_body_a(*self, (d + 1) as nat));
        }
        let ghost part_a = w.buf@;
        w.write_string("locked", &number_attrs(), "1");
        w.write_string("mode", &number_attrs(), "0");
        w.write_string("name", &string_attrs(), self.name.as_str());
        w.write_raw("notes", &type_attrs("formattedtext"), note_text.as_str());
        w.write_string("resultscols", &number_attrs(), "1");
        w.write_string("table_positionoffset", &number_attrs(), "0");
        proof {
            lemma_table_body_b_append(part_a, *self, (d + 1) as nat);
            assert(w.buf@ == part_a + table_body_b(*self, (d + 1) as nat));
        }
        w.start_child("tablerows", &no_attrs());
        let ghost rows0 = w.buf@;
        proof {
            crate::xml::lemma_add_empty_chars(rows0);
            assert(rows_chars(self.ranges@.take(0), (d + 2) as nat) == Seq::<char>::empty());
        }
        let ghost stack_rows = w.stack();
        let mut counter: usize = 0;
        while counter < self.ranges.len()
            invariant
                counter <= self.ranges@.len(),
                w.buf@ == rows0 + rows_chars(self.ranges@.take(counter as int), (d + 2) as nat),
                w.stack() == stack_rows,
                d + 2 == stack_rows.len(),
            decreases self.ranges@.len() - counter,
        {
            Self::process_table_row(&self.ranges[counter], counter + 1, w);
            proof {
                lemma_rows_step(self.ranges@, counter as int, (d + 2) as nat);
                vstd::seq_lib::lemma_concat_associative(
                    rows0,
                    rows_chars(self.ranges@.take(counter as int), (d + 2) as nat),
                    row_chars(self.ranges@[counter as int], (counter + 1) as nat, (d + 2) as nat),
                );
                assert(w.buf@ == rows0 + rows_chars(
                    self.ranges@.take(counter + 1),
                    (d + 2) as nat,
                ));
            }
            counter += 1;
        }
        proof {
            lemma_rows_take_all(self.ranges@);
        }
        w.end_child();
        w.end_child();
        proof {
            lemma_table_chars_append(buf0, *self, d);
            assert(w.buf@ == buf0 + table_chars(*self, d));
            assert(w.stack() =~= old(w).stack());
        }
    }
}

} // verus!
