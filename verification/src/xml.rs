//! Markup tree builder: emits one well-formed, tab-indented element tree
//! into an append-only text buffer, with an explicit stack of open elements.
//!
//! The spec functions below give the exact characters every operation
//! appends, so callers can state the full text of the documents they build.

use vstd::prelude::*;
use vstd::string::StrSliceExecFns;
use vstd::string::StringExecFns;

verus! {

// ---------------------------------------------------------------------------
// Characters of the rendered markup
// ---------------------------------------------------------------------------

/// `d` tab characters, one per nesting level.
pub open spec fn tabs(d: nat) -> Seq<char>
    decreases d,
{
    if d == 0 {
        Seq::empty()
    } else {
        tabs((d - 1) as nat) + "\t"@
    }
}

/// The line break written before an element at nesting depth `d`.
pub open spec fn nl_indent(d: nat) -> Seq<char> {
    "\n"@ + tabs(d)
}

/// Markup escaping of one character of attribute or text content.
pub open spec fn escape_char(c: char) -> Seq<char> {
    if c == '<' {
        "&lt;"@
    } else if c == '>' {
        "&gt;"@
    } else if c == '&' {
        "&amp;"@
    } else if c == '\'' {
        "&apos;"@
    } else if c == '"' {
        "&quot;"@
    } else {
        seq![c]
    }
}

/// Markup escaping of a whole string of content.
pub open spec fn escape_xml(s: Seq<char>) -> Seq<char>
    decreases s.len(),
{
    if s.len() == 0 {
        Seq::empty()
    } else {
        escape_xml(s.drop_last()) + escape_char(s.last())
    }
}

/// One attribute, as ` name="escaped value"`.
pub open spec fn attr_chars(a: (Seq<char>, Seq<char>)) -> Seq<char> {
    " "@ + a.0 + "=\""@ + escape_xml(a.1) + "\""@
}

/// All attributes of one element, in the order given.
pub open spec fn attrs_chars(attrs: Seq<(Seq<char>, Seq<char>)>) -> Seq<char>
    decreases attrs.len(),
{
    if attrs.len() == 0 {
        Seq::empty()
    } else {
        attrs_chars(attrs.drop_last()) + attr_chars(attrs.last())
    }
}

/// A start tag `<name a="v">`.
pub open spec fn start_tag(name: Seq<char>, attrs: Seq<(Seq<char>, Seq<char>)>) -> Seq<char> {
    "<"@ + name + attrs_chars(attrs) + ">"@
}

/// An end tag `</name>`.
pub open spec fn end_tag(name: Seq<char>) -> Seq<char> {
    "</"@ + name + ">"@
}

/// A self-closing tag `<name a="v"/>`.
pub open spec fn empty_tag(name: Seq<char>, attrs: Seq<(Seq<char>, Seq<char>)>) -> Seq<char> {
    "<"@ + name + attrs_chars(attrs) + "/>"@
}

/// An element at depth `d` holding escaped text content on one line.
#[verifier::opaque]
pub open spec fn text_elem_chars(
    d: nat,
    name: Seq<char>,
    attrs: Seq<(Seq<char>, Seq<char>)>,
    content: Seq<char>,
) -> Seq<char> {
    nl_indent(d) + start_tag(name, attrs) + escape_xml(content) + end_tag(name)
}

/// An element at depth `d` holding a pre-rendered block, surrounded by
/// single line breaks and not re-escaped.
#[verifier::opaque]
pub open spec fn raw_elem_chars(
    d: nat,
    name: Seq<char>,
    attrs: Seq<(Seq<char>, Seq<char>)>,
    content: Seq<char>,
) -> Seq<char> {
    nl_indent(d) + start_tag(name, attrs) + "\n"@ + content + "\n"@ + nl_indent(d) + end_tag(name)
}

/// Concatenation of rendered pieces is associative; kept ambient so that
/// stepwise appends can be regrouped into whole-element renderings.
pub broadcast proof fn lemma_add_assoc_chars(a: Seq<char>, b: Seq<char>, c: Seq<char>)
    ensures
        #[trigger] ((a + b) + c) == a + (b + c),
{
    assert((a + b) + c =~= a + (b + c));
}

/// Appending nothing leaves rendered text unchanged.
pub broadcast proof fn lemma_add_empty_chars(a: Seq<char>)
    ensures
        #[trigger] (a + Seq::<char>::empty()) == a,
{
    assert(a + Seq::<char>::empty() =~= a);
}

/// Closing an element restores the stack of open elements.
pub proof fn lemma_push_drop_last(s: Seq<Seq<char>>, x: Seq<char>)
    ensures
        s.push(x).drop_last() == s,
{
    assert(s.push(x).drop_last() =~= s);
}

/// An element at depth `d` wrapping already-rendered children.
#[verifier::opaque]
pub open spec fn parent_elem_chars(
    d: nat,
    name: Seq<char>,
    attrs: Seq<(Seq<char>, Seq<char>)>,
    children: Seq<char>,
) -> Seq<char> {
    nl_indent(d) + start_tag(name, attrs) + children + nl_indent(d) + end_tag(name)
}

/// Appending a start tag, already-rendered children and the end tag
/// equals appending the whole wrapping element's rendering.
pub proof fn lemma_wrap_parent(
    buf: Seq<char>,
    d: nat,
    name: Seq<char>,
    attrs: Seq<(Seq<char>, Seq<char>)>,
    children: Seq<char>,
)
    ensures
        buf + nl_indent(d) + start_tag(name, attrs) + children + nl_indent(d) + end_tag(name)
            == buf + parent_elem_chars(d, name, attrs, children),
{
    broadcast use lemma_add_assoc_chars;

    reveal(parent_elem_chars);
}

/// A self-closing element at depth `d`.
#[verifier::opaque]
pub open spec fn empty_elem_chars(
    d: nat,
    name: Seq<char>,
    attrs: Seq<(Seq<char>, Seq<char>)>,
) -> Seq<char> {
    nl_indent(d) + empty_tag(name, attrs)
}

// ---------------------------------------------------------------------------
// Decimal rendering and record element names
// ---------------------------------------------------------------------------

/// The decimal digit `d` (`d < 10`) as one character of text.
pub open spec fn digit_lit(d: nat) -> Seq<char> {
    if d == 0 {
        "0"@
    } else if d == 1 {
        "1"@
    } else if d == 2 {
        "2"@
    } else if d == 3 {
        "3"@
    } else if d == 4 {
        "4"@
    } else if d == 5 {
        "5"@
    } else if d == 6 {
        "6"@
    } else if d == 7 {
        "7"@
    } else if d == 8 {
        "8"@
    } else {
        "9"@
    }
}

/// Base-10 rendering of `n`, with no leading zeros.
pub open spec fn dec_chars(n: nat) -> Seq<char>
    decreases n,
{
    if n < 10 {
        digit_lit(n)
    } else {
        dec_chars(n / 10) + digit_lit(n % 10)
    }
}

/// `k` zero characters.
pub open spec fn zeros(k: nat) -> Seq<char>
    decreases k,
{
    if k == 0 {
        Seq::empty()
    } else {
        zeros((k - 1) as nat) + "0"@
    }
}

/// The element name `id-NNNNN` naming record or row number `n`: the decimal
/// rendering of `n`, zero-padded on the left to five digits.
pub open spec fn id_name_chars(n: nat) -> Seq<char> {
    let digits = dec_chars(n);
    let pad = if digits.len() >= 5 {
        0nat
    } else {
        (5 - digits.len()) as nat
    };
    "id-"@ + zeros(pad) + digits
}

/// The numeric text of a boolean field: 1 for true, 0 for false.
pub open spec fn bool_num(b: bool) -> nat {
    if b {
        1
    } else {
        0
    }
}

/// Boolean fields always render as the literal "0" or "1" — never as
/// "true" or "false" — and escaping leaves that text unchanged.
pub proof fn lemma_bool_renders_binary()
    ensures
        dec_chars(bool_num(true)) == "1"@,
        dec_chars(bool_num(false)) == "0"@,
        forall|b: bool|
            #[trigger] dec_chars(bool_num(b)) == "0"@ || dec_chars(bool_num(b)) == "1"@,
        "0"@ != "true"@ && "0"@ != "false"@ && "1"@ != "true"@ && "1"@ != "false"@,
        forall|b: bool|
            #[trigger] escape_xml(dec_chars(bool_num(b))) == dec_chars(bool_num(b)),
{
    reveal_strlit("0");
    reveal_strlit("1");
    reveal_strlit("true");
    reveal_strlit("false");
    assert(escape_xml("0"@.drop_last()) =~= Seq::<char>::empty());
    assert(escape_xml("1"@.drop_last()) =~= Seq::<char>::empty());
    assert(escape_char("0"@.last()) =~= seq!['0']);
    assert(escape_char("1"@.last()) =~= seq!['1']);
    assert(escape_xml("0"@) =~= "0"@);
    assert(escape_xml("1"@) =~= "1"@);
}

fn digit_str(d: usize) -> (r: &'static str)
    requires
        d < 10,
    ensures
        r@ == digit_lit(d as nat),
{
    if d == 0 {
        "0"
    } else if d == 1 {
        "1"
    } else if d == 2 {
        "2"
    } else if d == 3 {
        "3"
    } else if d == 4 {
        "4"
    } else if d == 5 {
        "5"
    } else if d == 6 {
        "6"
    } else if d == 7 {
        "7"
    } else if d == 8 {
        "8"
    } else {
        "9"
    }
}

/// Base-10 rendering of `n` with no leading zeros.
pub fn usize_dec(n: usize) -> (s: String)
    ensures
        s@ == dec_chars(n as nat),
    decreases n,
{
    if n < 10 {
        String::from_str(digit_str(n))
    } else {
        let mut s = usize_dec(n / 10);
        s.append(digit_str(n % 10));
        s
    }
}

/// The `id-NNNNN` element name of record or row number `n`.
pub fn id_name(n: usize) -> (s: String)
    ensures
        s@ == id_name_chars(n as nat),
{
    let digits = usize_dec(n);
    let mut s = String::from_str("id-");
    let len = digits.as_str().unicode_len();
    let mut k: usize = len;
    while k < 5
        invariant
            len <= k <= 5 || (len > 5 && k == len),
            len == digits@.len(),
            s@ == "id-"@ + zeros((k - len) as nat),
        decreases 5 - k,
    {
        s.append("0");
        k += 1;
    }
    s.append(digits.as_str());
    s
}

// ---------------------------------------------------------------------------
// Attributes
// ---------------------------------------------------------------------------

/// One name/value attribute pair of an element.
pub struct XmlAttribute {
    pub prop_name: String,
    pub prop_value: String,
}

/// The name/value views of a list of attributes.
pub open spec fn attrs_view(attrs: Seq<XmlAttribute>) -> Seq<(Seq<char>, Seq<char>)> {
    attrs.map_values(|a: XmlAttribute| (a.prop_name@, a.prop_value@))
}

/// The attribute list `type="string"`.
pub open spec fn string_attr() -> Seq<(Seq<char>, Seq<char>)> {
    seq![("type"@, "string"@)]
}

/// The attribute list `type="number"`.
pub open spec fn number_attr() -> Seq<(Seq<char>, Seq<char>)> {
    seq![("type"@, "number"@)]
}

/// The attribute list `type="v"` for the given value.
pub open spec fn typed_attr(v: Seq<char>) -> Seq<(Seq<char>, Seq<char>)> {
    seq![("type"@, v)]
}

/// An attribute list of one arbitrary pair.
pub open spec fn custom_attr(n: Seq<char>, v: Seq<char>) -> Seq<(Seq<char>, Seq<char>)> {
    seq![(n, v)]
}

/// The empty attribute list.
pub open spec fn no_attr() -> Seq<(Seq<char>, Seq<char>)> {
    Seq::empty()
}

impl XmlAttribute {
    /// An attribute with the given name and value.
    pub fn custom(name: &str, value: &str) -> (r: Self)
        ensures
            r.prop_name@ == name@,
            r.prop_value@ == value@,
    {
        Self { prop_name: String::from_str(name), prop_value: String::from_str(value) }
    }

    /// The schema's marker for string-typed content: `type="string"`.
    pub fn string() -> (r: Self)
        ensures
            r.prop_name@ == "type"@,
            r.prop_value@ == "string"@,
    {
        Self::custom("type", "string")
    }

    /// The schema's marker for numeric content: `type="number"`.
    pub fn number() -> (r: Self)
        ensures
            r.prop_name@ == "type"@,
            r.prop_value@ == "number"@,
    {
        Self::custom("type", "number")
    }

    /// A `type` attribute with the given value.
    pub fn of_type(value: &str) -> (r: Self)
        ensures
            r.prop_name@ == "type"@,
            r.prop_value@ == value@,
    {
        Self::custom("type", value)
    }
}

/// No attributes.
pub fn no_attrs() -> (v: Vec<XmlAttribute>)
    ensures
        attrs_view(v@) == no_attr(),
{
    let v: Vec<XmlAttribute> = Vec::new();
    proof {
        assert(attrs_view(v@) =~= no_attr());
    }
    v
}

/// Exactly `type="string"`.
pub fn string_attrs() -> (v: Vec<XmlAttribute>)
    ensures
        attrs_view(v@) == string_attr(),
{
    let mut v: Vec<XmlAttribute> = Vec::new();
    v.push(XmlAttribute::string());
    proof {
        assert(attrs_view(v@) =~= string_attr());
    }
    v
}

/// Exactly `type="number"`.
pub fn number_attrs() -> (v: Vec<XmlAttribute>)
    ensures
        attrs_view(v@) == number_attr(),
{
    let mut v: Vec<XmlAttribute> = Vec::new();
    v.push(XmlAttribute::number());
    proof {
        assert(attrs_view(v@) =~= number_attr());
    }
    v
}

/// Exactly `type="value"` for the given value.
pub fn type_attrs(value: &str) -> (v: Vec<XmlAttribute>)
    ensures
        attrs_view(v@) == typed_attr(value@),
{
    let mut v: Vec<XmlAttribute> = Vec::new();
    v.push(XmlAttribute::of_type(value));
    proof {
        assert(attrs_view(v@) =~= typed_attr(value@));
    }
    v
}

/// Exactly one attribute with the given name and value.
pub fn custom_attrs(name: &str, value: &str) -> (v: Vec<XmlAttribute>)
    ensures
        attrs_view(v@) == custom_attr(name@, value@),
{
    let mut v: Vec<XmlAttribute> = Vec::new();
    v.push(XmlAttribute::custom(name, value));
    proof {
        assert(attrs_view(v@) =~= custom_attr(name@, value@));
    }
    v
}

// ---------------------------------------------------------------------------
// Builder
// ---------------------------------------------------------------------------

fn push_escaped(buf: &mut String, s: &str)
    ensures
        final(buf)@ == old(buf)@ + escape_xml(s@),
{
    let ghost buf0 = buf@;
    let n = s.unicode_len();
    let mut i: usize = 0;
    while i < n
        invariant
            i <= n,
            n == s@.len(),
            buf@ == buf0 + escape_xml(s@.take(i as int)),
        decreases n - i,
    {
        let c = s.get_char(i);
        if c == '<' {
            buf.append("&lt;");
        } else if c == '>' {
            buf.append("&gt;");
        } else if c == '&' {
            buf.append("&amp;");
        } else if c == '\'' {
            buf.append("&apos;");
        } else if c == '"' {
            buf.append("&quot;");
        } else {
            let piece = s.substring_char(i, i + 1);
            buf.append(piece);
            proof {
                assert(piece@ =~= seq![s@[i as int]]);
            }
        }
        proof {
            assert(s@.take(i + 1).drop_last() =~= s@.take(i as int));
            assert(s@.take(i + 1).last() == s@[i as int]);
            assert(buf@ =~= buf0 + escape_xml(s@.take(i + 1)));
        }
        i += 1;
    }
    proof {
        assert(s@.take(n as int) =~= s@);
    }
}

fn push_nl_indent(buf: &mut String, depth: usize)
    ensures
        final(buf)@ == old(buf)@ + nl_indent(depth as nat),
{
    let ghost buf0 = buf@;
    buf.append("\n");
    let mut i: usize = 0;
    while i < depth
        invariant
            i <= depth,
            buf@ == buf0 + "\n"@ + tabs(i as nat),
        decreases depth - i,
    {
        buf.append("\t");
        i += 1;
    }
}

fn push_attrs(buf: &mut String, attrs: &Vec<XmlAttribute>)
    ensures
        final(buf)@ == old(buf)@ + attrs_chars(attrs_view(attrs@)),
{
    let ghost buf0 = buf@;
    let mut i: usize = 0;
    while i < attrs.len()
        invariant
            i <= attrs@.len(),
            buf@ == buf0 + attrs_chars(attrs_view(attrs@).take(i as int)),
        decreases attrs@.len() - i,
    {
        let a = &attrs[i];
        buf.append(" ");
        buf.append(a.prop_name.as_str());
        buf.append("=\"");
        push_escaped(buf, a.prop_value.as_str());
        buf.append("\"");
        proof {
            assert(attrs_view(attrs@).take(i + 1).drop_last() =~= attrs_view(attrs@).take(
                i as int,
            ));
            assert(attrs_view(attrs@).take(i + 1).last() == (a.prop_name@, a.prop_value@));
            assert(buf@ =~= buf0 + attrs_chars(attrs_view(attrs@).take(i + 1)));
        }
        i += 1;
    }
    proof {
        assert(attrs_view(attrs@).take(attrs@.len() as int) =~= attrs_view(attrs@));
    }
}

/// Builds one document: an append-only text buffer plus the stack of the
/// elements that are still open. Every operation says exactly which
/// characters it appends, so a caller can state the whole document it built.
pub struct XmlBuilder {
    pub buf: String,
    pub open_elems: Vec<String>,
}

impl XmlBuilder {
    /// The stack of open element names, outermost first.
    pub open spec fn stack(self) -> Seq<Seq<char>> {
        self.open_elems.deep_view()
    }

    /// Starts a document by writing the start tag of its root element,
    /// which stays open.
    pub fn new_document(root_name: &str, attrs: &Vec<XmlAttribute>) -> (b: Self)
        ensures
            b.buf@ == start_tag(root_name@, attrs_view(attrs@)),
            b.stack() == seq![root_name@],
    {
        let mut buf = String::new();
        buf.append("<");
        buf.append(root_name);
        push_attrs(&mut buf, attrs);
        buf.append(">");
        let mut open_elems: Vec<String> = Vec::new();
        open_elems.push(String::from_str(root_name));
        let b = Self { buf, open_elems };
        proof {
            assert(b.buf@ =~= start_tag(root_name@, attrs_view(attrs@)));
            assert(b.stack() =~= seq![root_name@]);
        }
        b
    }

    /// Writes the start tag of a child element, which becomes the
    /// innermost open element.
    pub fn start_child(&mut self, name: &str, attrs: &Vec<XmlAttribute>)
        ensures
            final(self).buf@ == old(self).buf@ + nl_indent(old(self).stack().len())
                + start_tag(name@, attrs_view(attrs@)),
            final(self).stack() == old(self).stack().push(name@),
    {
        let ghost buf0 = self.buf@;
        let ghost stack0 = self.stack();
        push_nl_indent(&mut self.buf, self.open_elems.len());
        self.buf.append("<");
        self.buf.append(name);
        push_attrs(&mut self.buf, attrs);
        self.buf.append(">");
        self.open_elems.push(String::from_str(name));
        proof {
            assert(self.buf@ =~= buf0 + nl_indent(stack0.len()) + start_tag(
                name@,
                attrs_view(attrs@),
            ));
            assert(self.stack() =~= stack0.push(name@));
        }
    }

    /// Closes the innermost open element by writing its end tag.
    pub fn end_child(&mut self)
        requires
            old(self).stack().len() > 0,
        ensures
            final(self).buf@ == old(self).buf@ + nl_indent((old(self).stack().len() - 1) as nat)
                + end_tag(old(self).stack().last()),
            final(self).stack() == old(self).stack().drop_last(),
    {
        let ghost buf0 = self.buf@;
        let ghost stack0 = self.stack();
        let name = self.open_elems.pop().unwrap();
        proof {
            assert(self.stack() =~= stack0.drop_last());
        }
        push_nl_indent(&mut self.buf, self.open_elems.len());
        self.buf.append("</");
        self.buf.append(name.as_str());
        self.buf.append(">");
        proof {
            assert(self.buf@ =~= buf0 + nl_indent((stack0.len() - 1) as nat) + end_tag(
                stack0.last(),
            ));
        }
    }

    /// Writes a whole element holding escaped text content.
    pub fn write_string(&mut self, name: &str, attrs: &Vec<XmlAttribute>, content: &str)
        ensures
            final(self).buf@ == old(self).buf@ + text_elem_chars(
                old(self).stack().len(),
                name@,
                attrs_view(attrs@),
                content@,
            ),
            final(self).stack() == old(self).stack(),
            final(self).open_elems == old(self).open_elems,
    {
        let ghost buf0 = self.buf@;
        let ghost stack0 = self.stack();
        push_nl_indent(&mut self.buf, self.open_elems.len());
        self.buf.append("<");
        self.buf.append(name);
        push_attrs(&mut self.buf, attrs);
        self.buf.append(">");
        push_escaped(&mut self.buf, content);
        self.buf.append("</");
        self.buf.append(name);
        self.buf.append(">");
        proof {
            reveal(text_elem_chars);
            assert(self.buf@ =~= buf0 + text_elem_chars(
                stack0.len(),
                name@,
                attrs_view(attrs@),
                content@,
            ));
        }
    }

    /// Writes a whole element holding a pre-rendered block, surrounded by
    /// single line breaks and not re-escaped.
    pub fn write_raw(&mut self, name: &str, attrs: &Vec<XmlAttribute>, content: &str)
        ensures
            final(self).buf@ == old(self).buf@ + raw_elem_chars(
                old(self).stack().len(),
                name@,
                attrs_view(attrs@),
                content@,
            ),
            final(self).stack() == old(self).stack(),
            final(self).open_elems == old(self).open_elems,
    {
        let ghost buf0 = self.buf@;
        let ghost stack0 = self.stack();
        push_nl_indent(&mut self.buf, self.open_elems.len());
        self.buf.append("<");
        self.buf.append(name);
        push_attrs(&mut self.buf, attrs);
        self.buf.append(">");
        self.buf.append("\n");
        self.buf.append(content);
        self.buf.append("\n");
        push_nl_indent(&mut self.buf, self.open_elems.len());
        self.buf.append("</");
        self.buf.append(name);
        self.buf.append(">");
        proof {
            reveal(raw_elem_chars);
            assert(self.buf@ =~= buf0 + raw_elem_chars(
                stack0.len(),
                name@,
                attrs_view(attrs@),
                content@,
            ));
        }
    }

    /// Writes a self-closing element.
    pub fn empty_node(&mut self, name: &str, attrs: &Vec<XmlAttribute>)
        ensures
            final(self).buf@ == old(self).buf@ + empty_elem_chars(
                old(self).stack().len(),
                name@,
                attrs_view(attrs@),
            ),
            final(self).stack() == old(self).stack(),
            final(self).open_elems == old(self).open_elems,
    {
        let ghost buf0 = self.buf@;
        let ghost stack0 = self.stack();
        push_nl_indent(&mut self.buf, self.open_elems.len());
        self.buf.append("<");
        self.buf.append(name);
        push_attrs(&mut self.buf, attrs);
        self.buf.append("/>");
        proof {
            reveal(empty_elem_chars);
            assert(self.buf@ =~= buf0 + empty_elem_chars(
                stack0.len(),
                name@,
                attrs_view(attrs@),
            ));
        }
    }

    /// The numeric text of a boolean field, as a number: 1 or 0.
    pub fn to_number(input: bool) -> (r: u8)
        ensures
            r as nat == bool_num(input),
    {
        if input {
            1
        } else {
            0
        }
    }

    /// Base-10 text of a boolean field: "1" for true, "0" for false.
    pub fn bool_dec(input: bool) -> (s: String)
        ensures
            s@ == dec_chars(bool_num(input)),
    {
        usize_dec(Self::to_number(input) as usize)
    }

    /// Consumes the builder and returns the document text. Every element
    /// must have been closed, so the text is a balanced tree.
    pub fn to_string(self) -> (r: String)
        requires
            self.stack().len() == 0,
        ensures
            r@ == self.buf@,
    {
        self.buf
    }
}

} // verus!
