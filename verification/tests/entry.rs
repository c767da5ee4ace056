use exifview::entry::{filter_scope, EtVal, ExiftoolEntry, JsonItem, TagEntry, TagEntryKey};

fn entry(short_name: &str, name: &str, group: &str, subgroup: &str, val: &str) -> TagEntry {
    TagEntry {
        short_name: short_name.to_owned(),
        instance: String::new(),
        binary_size: None,
        name: name.to_owned(),
        id: None,
        table: (group.to_owned(), subgroup.to_owned()),
        val: EtVal::String(val.to_owned()),
        num: None,
        index: None,
    }
}

#[test]
fn filter_disregards_case_of_label_and_short_name() {
    let e = entry("Make", "Camera Maker", "Exif", "", "Canon");
    assert!(e.check_filter("make"));
    assert!(e.check_filter("MAKE"));
    assert!(e.check_filter("camera m"));
    assert!(e.check_filter("MAKER"));
    assert!(!e.check_filter("model"));
}

#[test]
fn filter_disregards_case_of_a_text_value() {
    let e = entry("Make", "Make", "Exif", "", "Canon");
    assert!(e.check_filter("canon"));
    assert!(e.check_filter("CANON"));
    assert!(e.check_filter("aNo"));
    assert!(!e.check_filter("nikon"));
}

#[test]
fn filter_matches_the_numeric_value() {
    let mut e = entry("ISO", "ISO", "Exif", "", "fast");
    e.num = Some(EtVal::String("Sixteen HUNDRED".to_owned()));
    assert!(e.check_filter("hundred"));
    assert!(!e.check_filter("thousand"));
}

#[test]
fn empty_filter_matches_every_entry() {
    assert!(entry("", "", "", "", "").check_filter(""));
    assert!(entry("Make", "Make", "Exif", "", "Canon").check_filter(""));
}

#[test]
fn scoped_filter_looks_at_the_table_only() {
    let e = entry("Make", "Exif maker", "IFD0", "Main", "exif");
    assert!(e.check_filter("<<IFD0>>"));
    assert!(e.check_filter("<<ifd0::main>>"));
    assert!(e.check_filter("<<0::M>>"));
    assert!(e.check_filter("<<>>"));
    assert!(!e.check_filter("<<exif>>"));
    assert!(!e.check_filter("<<Make>>"));
}

#[test]
fn a_filter_with_one_bracket_pair_missing_is_not_scoped() {
    let e = entry("Make", "Make", "IFD0", "", "<<ifd0>");
    assert!(e.check_filter("<<IFD0>"));
    assert!(!e.check_filter("<IFD0>>"));
}

// A list value is compared as it is shown, in the exact case, against the
// filter text as it was typed: neither side is brought to lower case.
#[test]
fn list_value_matches_in_the_exact_case_only() {
    let mut e = entry("Keywords", "Keywords", "IPTC", "", "");
    e.val = EtVal::Array(vec![
        JsonItem::Text("Canon".to_owned()),
        JsonItem::Text("lens".to_owned()),
    ]);
    assert!(e.check_filter("Canon"));
    assert!(e.check_filter("lens"));
    assert!(!e.check_filter("canon"));
    assert!(!e.check_filter("LENS"));
    assert!(!e.check_filter("CANON"));
}

#[test]
fn list_value_matches_on_the_text_of_an_element_as_shown() {
    let v = EtVal::Array(vec![
        JsonItem::Number("42".to_owned()),
        JsonItem::Text("a b".to_owned()),
        JsonItem::Bool(true),
        JsonItem::Null,
    ]);
    assert!(v.check_filter("42"));
    assert!(v.check_filter("\"a b\""));
    assert!(v.check_filter("true"));
    assert!(v.check_filter("null"));
    assert!(v.check_filter(""));
    // the space that joins the elements belongs to none of them
    assert!(!v.check_filter("42 "));
    assert!(!EtVal::Array(vec![]).check_filter(""));
}

#[test]
fn text_value_shows_as_it_is() {
    assert_eq!(EtVal::String("Canon \"R5\"".to_owned()).to_string(), "Canon \"R5\"");
}

#[test]
fn list_value_shows_its_elements_with_spaces_between() {
    let v = EtVal::Array(vec![
        JsonItem::Text("a".to_owned()),
        JsonItem::Number("1.5".to_owned()),
        JsonItem::Bool(false),
        JsonItem::Null,
        JsonItem::Other("[1,2]".to_owned()),
    ]);
    assert_eq!(v.to_string(), "\"a\" 1.5 false null [1,2]");
    assert_eq!(EtVal::Array(vec![]).to_string(), "");
    assert_eq!(EtVal::Array(vec![JsonItem::Bool(true)]).to_string(), "true");
}

#[test]
fn text_element_is_quoted_and_escaped() {
    assert_eq!(JsonItem::Text("a".to_owned()).to_string(), "\"a\"");
    assert_eq!(JsonItem::Text("say \"hi\"\n".to_owned()).to_string(), "\"say \\\"hi\\\"\\n\"");
    assert_eq!(JsonItem::Text(String::new()).to_string(), "\"\"");
}

#[test]
fn table_is_group_or_group_and_subgroup() {
    assert_eq!(entry("a", "a", "Exif", "", "").table_to_string(), "Exif");
    assert_eq!(entry("a", "a", "IFD0", "Main", "").table_to_string(), "IFD0::Main");
    assert_eq!(entry("a", "a", "", "Main", "").table_to_string(), "::Main");
}

#[test]
fn summary_of_an_entry_with_everything() {
    let mut e = entry("Make", "Camera Maker", "IFD0", "Main", "Canon");
    e.id = Some(271);
    e.num = Some(EtVal::String("7".to_owned()));
    e.index = Some(3);
    assert_eq!(
        e.to_string(),
        "Name: Camera Maker\nShort name: Make\nTag ID: 271 (0x10F)\nTag family: IFD0::Main\n\
         Tag value: Canon\nTag numerical value: 7\nTag index: 3"
    );
}

#[test]
fn summary_of_an_entry_with_the_least() {
    let e = entry("Make", "Maker", "Exif", "", "Canon");
    assert_eq!(
        e.to_string(),
        "Name: Maker\nShort name: Make\nTag ID: Unknown\nTag family: Exif\nTag value: Canon\n\
         Tag numerical value: Canon"
    );
}

#[test]
fn summary_writes_the_id_in_decimal_and_hexadecimal() {
    let mut e = entry("a", "a", "g", "", "v");
    e.id = Some(0);
    assert!(e.to_string().contains("Tag ID: 0 (0x0)\n"));
    e.id = Some(255);
    assert!(e.to_string().contains("Tag ID: 255 (0xFF)\n"));
    e.id = Some(u64::MAX);
    assert!(e.to_string().contains("Tag ID: 18446744073709551615 (0xFFFFFFFFFFFFFFFF)\n"));
}

#[test]
fn entries_are_equal_whatever_label_and_numeric_value() {
    let a = entry("Make", "Maker", "Exif", "", "Canon");
    let mut b = entry("Make", "Another label", "Exif", "", "Canon");
    b.num = Some(EtVal::String("1".to_owned()));
    b.instance = "Copy1".to_owned();
    assert!(a == b);
}

#[test]
fn entries_differ_in_each_field_that_counts() {
    let a = entry("Make", "Maker", "Exif", "Main", "Canon");
    let mut b = a.clone();
    assert!(a == b);
    b.short_name = "Model".to_owned();
    assert!(a != b);
    b = a.clone();
    b.binary_size = Some(1);
    assert!(a != b);
    b = a.clone();
    b.id = Some(1);
    assert!(a != b);
    b = a.clone();
    b.table.0 = "IFD0".to_owned();
    assert!(a != b);
    b = a.clone();
    b.table.1 = String::new();
    assert!(a != b);
    b = a.clone();
    b.val = EtVal::String("canon".to_owned());
    assert!(a != b);
    b = a.clone();
    b.val = EtVal::Array(vec![JsonItem::Text("Canon".to_owned())]);
    assert!(a != b);
    b = a.clone();
    b.index = Some(0);
    assert!(a != b);
}

#[test]
fn list_values_are_equal_element_by_element() {
    let a = EtVal::Array(vec![JsonItem::Number("1".to_owned()), JsonItem::Null]);
    let b = EtVal::Array(vec![JsonItem::Number("1".to_owned()), JsonItem::Null]);
    let c = EtVal::Array(vec![JsonItem::Text("1".to_owned()), JsonItem::Null]);
    let d = EtVal::Array(vec![JsonItem::Number("1".to_owned())]);
    assert!(a == b);
    assert!(a != c);
    assert!(a != d);
    assert!(a.clone() == a);
}

#[test]
fn key_is_short_name_and_table() {
    let e = entry("Make", "Maker", "IFD0", "Main", "Canon");
    let k = e.as_key();
    assert_eq!(k.short_name, "Make");
    assert_eq!(k.table, ("IFD0".to_owned(), "Main".to_owned()));
    assert!(k == TagEntryKey { short_name: "Make".to_owned(), table: e.table.clone() });
    assert!(k != entry("Make", "Maker", "IFD0", "", "Canon").as_key());
    assert!(k.clone() == k);
}

#[test]
fn web_page_of_a_group() {
    assert_eq!(
        entry("a", "a", "Exif", "", "").open_web_page(),
        "https://exiftool.org/TagNames/EXIF.html"
    );
    assert_eq!(
        entry("a", "a", "XMP", "x", "").open_web_page(),
        "https://exiftool.org/TagNames/XMP.html"
    );
    assert_eq!(
        entry("a", "a", "exif", "", "").open_web_page(),
        "https://exiftool.org/TagNames/exif.html"
    );
}

#[test]
fn binary_is_asked_for_by_short_name() {
    let mut e = entry("ThumbnailImage", "Thumbnail", "Exif", "", "");
    assert_eq!(e.get_binary("a.jpg"), Err(()));
    e.binary_size = Some(10);
    assert_eq!(
        e.get_binary("dir/a.jpg"),
        Ok(vec!["dir/a.jpg".to_owned(), "-ThumbnailImage".to_owned(), "-b".to_owned()])
    );
}

#[test]
fn file_copy_keeps_name_and_entries() {
    let f = ExiftoolEntry {
        file_name: "a.jpg".to_owned(),
        tag_entries: vec![entry("Make", "Maker", "Exif", "", "Canon")],
    };
    let g = f.clone();
    assert_eq!(g.file_name, "a.jpg");
    assert_eq!(g.tag_entries.len(), 1);
    assert!(g.tag_entries[0] == f.tag_entries[0]);
    assert_eq!(g.tag_entries[0].name, "Maker");
}

#[test]
fn scope_of_a_filter() {
    assert_eq!(filter_scope("<<exif>>"), Some("exif".to_owned()));
    assert_eq!(filter_scope("<<>>"), Some(String::new()));
    assert_eq!(filter_scope("<<<a>>>"), Some("<a>".to_owned()));
    assert_eq!(filter_scope("<<ä>>"), Some("ä".to_owned()));
    assert_eq!(filter_scope("<<a>"), None);
    assert_eq!(filter_scope("<a>>"), None);
    assert_eq!(filter_scope("<<>"), None);
    assert_eq!(filter_scope("<>"), None);
    assert_eq!(filter_scope(" <<a>>"), None);
    assert_eq!(filter_scope(""), None);
}
