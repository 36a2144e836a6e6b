//! Documents, values and texts.
use hakotauri::document::{Doc, Value};
use hakotauri::text::{decimal_text, eq_ignore_ascii_case, keep_non_empty, trim};

#[test]
fn fields_are_set_read_and_removed() {
    let mut doc = Doc::new();
    assert!(doc.get("a").is_none());
    doc.insert("a", Value::Int(1));
    doc.insert("b", Value::Bool(true));
    doc.insert("a", Value::Text("x".to_string()));
    assert_eq!(doc.fields().len(), 2);
    assert_eq!(doc.text("a").as_deref(), Some("x"));
    assert!(doc.flag("b"));
    assert!(!doc.flag("a"));
    assert_eq!(doc.text("b"), None);
    assert!(matches!(doc.remove("a"), Some(Value::Text(s)) if s == "x"));
    assert!(doc.remove("a").is_none());
    assert_eq!(doc.fields().len(), 1);
}

#[test]
fn duplicates_hold_the_same() {
    let value = Value::Fields(vec![
        ("n".to_string(), Value::Null),
        ("f".to_string(), Value::Float(1.5f64.to_bits())),
        (
            "a".to_string(),
            Value::Array(vec![
                Value::Binary(vec![1, 2, 3]),
                Value::BlobLink { offset: 9, len: 4 },
                Value::Reference { collection: "c".to_string(), doc_id: "d".to_string() },
                Value::Timestamp(-5),
                Value::ServerTimestamp,
                Value::Int(-7),
            ]),
        ),
    ]);
    match value.duplicate() {
        Value::Fields(fields) => {
            assert_eq!(fields.len(), 3);
            assert!(matches!(&fields[0], (name, Value::Null) if name == "n"));
            assert!(matches!(fields[1].1, Value::Float(bits) if f64::from_bits(bits) == 1.5));
            match &fields[2].1 {
                Value::Array(items) => {
                    assert_eq!(items.len(), 6);
                    assert!(matches!(&items[0], Value::Binary(b) if *b == vec![1, 2, 3]));
                    assert!(matches!(&items[1], Value::BlobLink { offset: 9, len: 4 }));
                    assert!(matches!(&items[2], Value::Reference { collection, doc_id } if collection == "c" && doc_id == "d"));
                    assert!(matches!(&items[3], Value::Timestamp(-5)));
                    assert!(matches!(&items[4], Value::ServerTimestamp));
                    assert!(matches!(&items[5], Value::Int(-7)));
                }
                _ => panic!("no array"),
            }
        }
        _ => panic!("no fields"),
    }
}

#[test]
fn case_folds_only_ascii_letters() {
    assert!(eq_ignore_ascii_case("SeRvEr", "server"));
    assert!(eq_ignore_ascii_case("", ""));
    assert!(eq_ignore_ascii_case("[x]", "[X]"));
    assert!(!eq_ignore_ascii_case("serve", "server"));
    assert!(!eq_ignore_ascii_case("É", "é"));
    assert!(!eq_ignore_ascii_case("[", "{"));
}

#[test]
fn numbers_are_written_in_decimal() {
    assert_eq!(decimal_text(0), "0");
    assert_eq!(decimal_text(9), "9");
    assert_eq!(decimal_text(10), "10");
    assert_eq!(decimal_text(1234567890), "1234567890");
    assert_eq!(decimal_text(usize::MAX), format!("{}", usize::MAX));
}

#[test]
fn empty_texts_do_not_count() {
    assert_eq!(keep_non_empty(None), None);
    assert_eq!(keep_non_empty(Some(String::new())), None);
    assert_eq!(keep_non_empty(Some(" ".to_string())).as_deref(), Some(" "));
}

#[test]
fn white_space_is_trimmed_at_both_ends() {
    assert_eq!(trim(""), "");
    assert_eq!(trim("a"), "a");
    assert_eq!(trim(" \t\r\n "), "");
    assert_eq!(trim("\u{a0}\u{3000} a  b\u{2029}\u{85}"), "a  b");
    assert_eq!(trim("\u{200b}a\u{feff}"), "\u{200b}a\u{feff}");
    assert_eq!(trim(" é toko é "), "é toko é");
    for code in 0..=0x10ffff {
        if let Some(c) = char::from_u32(code) {
            let text = format!("{}x{}", c, c);
            assert_eq!(trim(&text), text.trim());
        }
    }
}
