//! Tests of the markup tree builder: escaping, indentation, number and
//! record-name rendering.

use fgumod::xml::XmlAttribute;
use fgumod::xml::XmlBuilder;
use fgumod::xml::id_name;
use fgumod::xml::usize_dec;

#[test]
fn decimal_rendering_has_no_leading_zeros() {
    assert_eq!(usize_dec(0).as_str(), "0");
    assert_eq!(usize_dec(7).as_str(), "7");
    assert_eq!(usize_dec(10).as_str(), "10");
    assert_eq!(usize_dec(255).as_str(), "255");
    assert_eq!(usize_dec(12345).as_str(), "12345");
}

#[test]
fn record_names_are_zero_padded_to_five_digits() {
    assert_eq!(id_name(1).as_str(), "id-00001");
    assert_eq!(id_name(42).as_str(), "id-00042");
    assert_eq!(id_name(123).as_str(), "id-00123");
    assert_eq!(id_name(99999).as_str(), "id-99999");
    assert_eq!(id_name(123456).as_str(), "id-123456");
}

#[test]
fn booleans_become_zero_or_one() {
    assert_eq!(XmlBuilder::to_number(true), 1);
    assert_eq!(XmlBuilder::to_number(false), 0);
    assert_eq!(XmlBuilder::bool_dec(true).as_str(), "1");
    assert_eq!(XmlBuilder::bool_dec(false).as_str(), "0");
}

#[test]
fn text_content_is_escaped() {
    let mut w = XmlBuilder::new_document("root", &Vec::new());
    w.write_string("v", &Vec::new(), "a < b & c > 'd' \"e\"");
    w.end_child();
    let text = w.to_string();
    assert_eq!(
        text,
        "<root>\n\t<v>a &lt; b &amp; c &gt; &apos;d&apos; &quot;e&quot;</v>\n</root>"
    );
}

#[test]
fn attribute_values_are_escaped() {
    let mut attrs = Vec::new();
    attrs.push(XmlAttribute::custom("k", "a\"b<c>"));
    let mut w = XmlBuilder::new_document("root", &attrs);
    w.end_child();
    let text = w.to_string();
    assert_eq!(text, "<root k=\"a&quot;b&lt;c&gt;\">\n</root>");
}

#[test]
fn nested_elements_balance_and_indent() {
    let mut w = XmlBuilder::new_document("root", &Vec::new());
    w.start_child("outer", &Vec::new());
    w.write_string("inner", &vec![XmlAttribute::number()], "3");
    w.empty_node("hole", &Vec::new());
    w.end_child();
    w.end_child();
    let text = w.to_string();
    assert_eq!(
        text,
        "<root>\n\t<outer>\n\t\t<inner type=\"number\">3</inner>\n\t\t<hole/>\n\t</outer>\n</root>"
    );
}

#[test]
fn raw_blocks_are_not_reescaped() {
    let mut w = XmlBuilder::new_document("root", &Vec::new());
    w.write_raw("notes", &vec![XmlAttribute::of_type("formattedtext")], "<p>hi</p>");
    w.end_child();
    let text = w.to_string();
    assert_eq!(
        text,
        "<root>\n\t<notes type=\"formattedtext\">\n<p>hi</p>\n\n\t</notes>\n</root>"
    );
}
