use backend::i18n::{bundled_locales, I18nService, TranslationService};
use backend::json::{flatten_json, parse_json, utf8_text, JsonValue};
use backend::keyed::KeyedList;

fn text(s: &str) -> JsonValue {
    JsonValue::String(s.to_string())
}

fn object(members: Vec<(&str, JsonValue)>) -> JsonValue {
    JsonValue::Object(members.into_iter().map(|(k, v)| (k.to_string(), v)).collect())
}

fn service(default: &str, fallback: &str) -> TranslationService {
    let en = object(vec![
        ("errors", object(vec![("not_found", text("Not found")), ("conflict", text("Conflict"))])),
        ("greeting", text("Hello")),
        ("count", JsonValue::Number("3".to_string())),
    ]);
    let fr = object(vec![("errors", object(vec![("not_found", text("Introuvable"))]))]);
    let es = object(vec![("farewell", text("Adiós"))]);
    TranslationService::new(
        default.to_string(),
        fallback.to_string(),
        vec![("en".to_string(), en), ("fr".to_string(), fr), ("es".to_string(), es)],
    )
}

#[test]
fn flatten_nested_keys_with_dots() {
    let doc = object(vec![("errors", object(vec![("not_found", text("..."))]))]);
    let mut out: KeyedList<String> = KeyedList::new();
    flatten_json("", &doc, &mut out);
    assert_eq!(out.len(), 1);
    assert_eq!(out.get("errors.not_found"), Some(&"...".to_string()));
    assert_eq!(out.get("errors"), None);
}

#[test]
fn flatten_skips_non_strings_and_overwrites() {
    let doc = object(vec![
        ("a", object(vec![("b", text("first"))])),
        ("a.b", text("second")),
        ("n", JsonValue::Number("1".to_string())),
        ("t", JsonValue::Bool(true)),
        ("z", JsonValue::Null),
        ("list", JsonValue::Array(vec![text("x")])),
    ]);
    let mut out: KeyedList<String> = KeyedList::new();
    flatten_json("", &doc, &mut out);
    assert_eq!(out.len(), 1);
    assert_eq!(out.get("a.b"), Some(&"second".to_string()));
    let mut prefixed: KeyedList<String> = KeyedList::new();
    flatten_json("root", &text("v"), &mut prefixed);
    assert_eq!(prefixed.get("root"), Some(&"v".to_string()));
}

#[test]
fn requested_language_comes_first() {
    let t = service("en", "en");
    assert_eq!(t.get("errors.not_found", "fr"), "Introuvable");
    assert_eq!(t.get("errors.not_found", "en"), "Not found");
}

#[test]
fn default_locale_fills_gaps() {
    let t = service("en", "en");
    assert_eq!(t.get("greeting", "fr"), "Hello");
    assert_eq!(t.get("errors.conflict", "de"), "Conflict");
}

#[test]
fn fallback_locale_after_default() {
    let t = service("fr", "en");
    assert_eq!(t.get("greeting", "es"), "Hello");
    assert_eq!(t.get("errors.not_found", "es"), "Introuvable");
    let t = service("es", "fr");
    assert_eq!(t.get("errors.not_found", "de"), "Introuvable");
    assert_eq!(t.get("greeting", "de"), "greeting");
}

#[test]
fn unknown_key_is_echoed() {
    let t = service("en", "es");
    assert_eq!(t.get("no.such.key", "fr"), "no.such.key");
    assert_eq!(t.get("count", "en"), "count");
}

#[test]
fn supported_languages_are_the_loaded_ones() {
    let t = service("en", "en");
    let mut langs = t.supported_languages();
    langs.sort();
    assert_eq!(langs, vec!["en".to_string(), "es".to_string(), "fr".to_string()]);
    let via_trait: &dyn I18nService = &t;
    assert_eq!(via_trait.supported_languages().len(), 3);
    assert_eq!(via_trait.get("greeting", "en"), "Hello");
    assert_eq!(t.default_locale_code(), "en");
}

#[test]
fn later_document_replaces_earlier() {
    let t = TranslationService::new(
        "en".to_string(),
        "en".to_string(),
        vec![
            ("en".to_string(), object(vec![("k", text("old")), ("only_old", text("x"))])),
            ("en".to_string(), object(vec![("k", text("new"))])),
        ],
    );
    assert_eq!(t.get("k", "en"), "new");
    assert_eq!(t.get("only_old", "en"), "only_old");
    assert_eq!(t.supported_languages(), vec!["en".to_string()]);
}

#[test]
fn shipped_locales() {
    assert_eq!(bundled_locales(), vec!["en", "hi", "es", "fr"]);
}

#[test]
fn keyed_list_insert_replaces() {
    let mut m: KeyedList<String> = KeyedList::new();
    m.insert("a".to_string(), "1".to_string());
    m.insert("b".to_string(), "2".to_string());
    m.insert("a".to_string(), "3".to_string());
    assert_eq!(m.len(), 2);
    assert_eq!(m.get("a"), Some(&"3".to_string()));
    assert_eq!(m.keys(), vec!["a".to_string(), "b".to_string()]);
}

#[test]
fn parse_json_reads_documents() {
    match parse_json(r#"{"errors": {"not_found": "Missing"}, "n": 3, "ok": true, "list": [null]}"#) {
        Some(JsonValue::Object(members)) => {
            let keys: Vec<&str> = members.iter().map(|(k, _)| k.as_str()).collect();
            assert_eq!(keys, vec!["errors", "list", "n", "ok"]);
            assert!(matches!(&members[2].1, JsonValue::Number(n) if n == "3"));
            assert!(matches!(&members[3].1, JsonValue::Bool(true)));
        },
        other => panic!("unexpected {:?}", other),
    }
    assert!(matches!(parse_json("\"hi\""), Some(JsonValue::String(s)) if s == "hi"));
    assert!(parse_json("{not json").is_none());
    assert!(parse_json("").is_none());
}

#[test]
fn parse_json_keeps_last_of_repeated_key() {
    match parse_json(r#"{"a": "first", "a": "second"}"#) {
        Some(JsonValue::Object(members)) => {
            assert_eq!(members.len(), 1);
            assert!(matches!(&members[0].1, JsonValue::String(s) if s == "second"));
        },
        other => panic!("unexpected {:?}", other),
    }
}

#[test]
fn utf8_text_decodes_valid_bytes_only() {
    assert_eq!(utf8_text("héllo".as_bytes()), Some("héllo"));
    assert_eq!(utf8_text(&[]), Some(""));
    assert_eq!(utf8_text(&[0xff, 0xfe]), None);
    assert_eq!(utf8_text(&[0xed, 0xa0, 0x80]), None);
}

#[test]
fn from_texts_skips_unparsable_files() {
    let ts = TranslationService::from_texts(
        "en".to_string(),
        "en".to_string(),
        vec![
            ("en".to_string(), r#"{"errors": {"not_found": "Not found"}}"#.to_string()),
            ("fr".to_string(), "{broken".to_string()),
            ("es".to_string(), r#"{"errors": {"not_found": "No encontrado"}}"#.to_string()),
        ],
    );
    assert_eq!(ts.get("errors.not_found", "es"), "No encontrado");
    assert_eq!(ts.get("errors.not_found", "fr"), "Not found");
    let mut langs = ts.supported_languages();
    langs.sort();
    assert_eq!(langs, vec!["en".to_string(), "es".to_string()]);
}

#[test]
fn from_files_decodes_and_parses() {
    let ts = TranslationService::from_files(
        "en".to_string(),
        "en".to_string(),
        vec![
            ("en".to_string(), br#"{"errors": {"not_found": "Not found"}}"#.to_vec()),
            ("hi".to_string(), vec![0xff, b'{', b'}']),
            ("fr".to_string(), r#"{"errors": {"not_found": "Introuvable é"}}"#.as_bytes().to_vec()),
        ],
    );
    assert_eq!(ts.get("errors.not_found", "fr"), "Introuvable é");
    assert_eq!(ts.get("errors.not_found", "hi"), "Not found");
    assert_eq!(ts.get("errors.unknown", "fr"), "errors.unknown");
    assert_eq!(ts.supported_languages().len(), 2);
}

#[test]
fn later_file_of_a_language_replaces_earlier() {
    let ts = TranslationService::from_texts(
        "en".to_string(),
        "en".to_string(),
        vec![
            ("en".to_string(), r#"{"a": "one", "b": "kept?"}"#.to_string()),
            ("en".to_string(), r#"{"a": "two"}"#.to_string()),
        ],
    );
    assert_eq!(ts.get("a", "en"), "two");
    assert_eq!(ts.get("b", "en"), "b");
}

#[test]
fn later_dotted_key_overrides_nested_message() {
    let ts = TranslationService::from_texts(
        "en".to_string(),
        "en".to_string(),
        vec![("en".to_string(), r#"{"errors.not_found": "Flat", "errors": {"not_found": "Nested"}}"#.to_string())],
    );
    assert_eq!(ts.get("errors.not_found", "en"), "Flat");
}
