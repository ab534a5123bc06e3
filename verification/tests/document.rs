use nizctl::config::{keymap_from_layers, layers_from_keymap, Keymap};
use nizctl::keycodes::{code_for, name_for};

fn sample() -> Keymap {
    Keymap {
        version: 1,
        keyboard: "niz/atom66".to_string(),
        keymap: "default".to_string(),
        layout: "LAYOUT".to_string(),
        layers: vec![vec!["KC_A".to_string(), "KC_B".to_string()]],
    }
}

#[test]
fn every_keycode_round_trips_through_its_name() {
    for code in 0..=255u8 {
        assert_eq!(code_for(name_for(code)), Some(code));
    }
}

#[test]
fn name_lookup_matches_the_table() {
    assert_eq!(name_for(0), "KC_NO");
    assert_eq!(name_for(4), "KC_A");
    assert_eq!(name_for(5), "KC_B");
    assert_eq!(name_for(40), "KC_ENTER");
    assert_eq!(name_for(224), "KC_LEFT_CTRL");
}

#[test]
fn unknown_names_have_no_code() {
    assert_eq!(code_for("KC_DOES_NOT_EXIST"), None);
    assert_eq!(code_for(""), None);
    assert_eq!(code_for("kc_a"), None);
}

#[test]
fn layers_resolve_elementwise_in_both_directions() {
    let raw = vec![vec![4, 5, 0], vec![40]];
    let names = layers_from_keymap(raw.clone());
    assert_eq!(
        names,
        vec![
            vec!["KC_A".to_string(), "KC_B".to_string(), "KC_NO".to_string()],
            vec!["KC_ENTER".to_string()],
        ]
    );
    assert_eq!(keymap_from_layers(names), raw);
}

#[test]
fn unknown_names_fall_back_to_keycode_zero() {
    let layers = vec![vec!["KC_A".to_string(), "NOT_A_KEY".to_string()]];
    assert_eq!(keymap_from_layers(layers), vec![vec![4, 0]]);
}

#[test]
fn new_document_uses_default_profile_and_layout() {
    let doc = Keymap::new("niz/atom66".to_string(), vec![vec![4, 5]]);
    assert_eq!(doc.version, 1);
    assert_eq!(doc.keyboard, "niz/atom66");
    assert_eq!(doc.keymap, "default");
    assert_eq!(doc.layout, "LAYOUT");
    assert_eq!(doc.layers, vec![vec!["KC_A".to_string(), "KC_B".to_string()]]);
}

#[test]
fn encode_produces_the_canonical_text() {
    assert_eq!(
        sample().encode(),
        "{\"version\":1,\"keyboard\":\"niz/atom66\",\"keymap\":\"default\",\
         \"layout\":\"LAYOUT\",\"layers\":[[\"KC_A\",\"KC_B\"]]}"
    );
}

#[test]
fn decode_inverts_encode() {
    let doc = sample();
    let text = doc.encode();
    let back = Keymap::decode(&text).unwrap();
    assert_eq!(back.version, doc.version);
    assert_eq!(back.keyboard, doc.keyboard);
    assert_eq!(back.keymap, doc.keymap);
    assert_eq!(back.layout, doc.layout);
    assert_eq!(back.layers, doc.layers);
}

#[test]
fn decode_inverts_encode_with_escapes_and_odd_characters() {
    let mut doc = sample();
    doc.keyboard = "a\"b\\c\u{7}é".to_string();
    doc.keymap = String::new();
    doc.layers = vec![vec![], vec!["x\\\"y".to_string()]];
    let text = doc.encode();
    let back = Keymap::decode(&text).unwrap();
    assert_eq!(back.keyboard, doc.keyboard);
    assert_eq!(back.keymap, doc.keymap);
    assert_eq!(back.layers, doc.layers);
}

#[test]
fn decode_inverts_encode_at_version_bounds() {
    for version in [0u8, 9, 10, 99, 100, 255] {
        let mut doc = sample();
        doc.version = version;
        let back = Keymap::decode(&doc.encode()).unwrap();
        assert_eq!(back.version, version);
    }
}

#[test]
fn decode_inverts_encode_for_empty_layers() {
    let mut doc = sample();
    doc.layers = Vec::new();
    let text = doc.encode();
    assert!(text.ends_with("\"layers\":[]}"));
    assert_eq!(Keymap::decode(&text).unwrap().layers, Vec::<Vec<String>>::new());
}

#[test]
fn decode_rejects_malformed_documents() {
    let good = sample().encode();
    assert!(Keymap::decode("").is_err());
    assert!(Keymap::decode("{}").is_err());
    assert!(Keymap::decode(&good[..good.len() - 1]).is_err());
    assert!(Keymap::decode(&format!("{}x", good)).is_err());
    assert!(Keymap::decode(&good.replace("\"keyboard\"", "\"keybored\"")).is_err());
    assert!(Keymap::decode(&good.replace(":1,", ":256,")).is_err());
    assert!(Keymap::decode(&good.replace(":1,", ":01,")).is_err());
    assert!(Keymap::decode(&good.replace(":1,", ":-1,")).is_err());
    assert!(Keymap::decode(&good.replace("[[", "[[[")).is_err());
}

#[test]
fn decode_rejects_missing_repeated_and_mistyped_fields() {
    let good = sample().encode();
    // One field gone entirely.
    assert!(Keymap::decode(&good.replace(",\"layout\":\"LAYOUT\"", "")).is_err());
    // The same field twice.
    assert!(
        Keymap::decode(
            &good.replace("\"keymap\":\"default\"", "\"keymap\":\"default\",\"keymap\":\"other\"")
        )
        .is_err()
    );
    // A value of the wrong type.
    assert!(Keymap::decode(&good.replace("\"default\"", "7")).is_err());
    assert!(Keymap::decode(&good.replace(":1,", ":\"1\",")).is_err());
}

#[test]
fn decode_accepts_the_fields_in_any_order() {
    let doc = sample();
    let reordered = "{\"keyboard\":\"niz/atom66\",\"layers\":[[\"KC_A\",\"KC_B\"]],\
                     \"layout\":\"LAYOUT\",\"version\":1,\"keymap\":\"default\"}";
    let back = Keymap::decode(reordered).unwrap();
    assert_eq!(back.version, doc.version);
    assert_eq!(back.keyboard, doc.keyboard);
    assert_eq!(back.keymap, doc.keymap);
    assert_eq!(back.layout, doc.layout);
    assert_eq!(back.layers, doc.layers);
}

#[test]
fn decode_rejects_bad_escapes_and_raw_control_characters() {
    let good = sample().encode();
    assert!(Keymap::decode(&good.replace("niz", "n\\xz")).is_err());
    assert!(Keymap::decode(&good.replace("niz", "n\\u12")).is_err());
    assert!(Keymap::decode(&good.replace("niz", "n\\u12zz")).is_err());
    assert!(Keymap::decode(&good.replace("niz", "n\\ud800z")).is_err());
    assert!(Keymap::decode(&good.replace("niz", "n\u{9}z")).is_err());
    assert!(Keymap::decode(&good.replace("niz", "n\nz")).is_err());
}

#[test]
fn decode_allows_whitespace_between_tokens() {
    let doc = sample();
    let pretty = "{\n  \"version\": 1,\n  \"keyboard\": \"niz/atom66\",\n  \"keymap\": \"default\",\n  \"layout\": \"LAYOUT\",\n  \"layers\": [\n    [ \"KC_A\" , \"KC_B\" ]\n  ]\n}\n";
    let back = Keymap::decode(pretty).unwrap();
    assert_eq!(back.version, doc.version);
    assert_eq!(back.keyboard, doc.keyboard);
    assert_eq!(back.keymap, doc.keymap);
    assert_eq!(back.layout, doc.layout);
    assert_eq!(back.layers, doc.layers);
    let empty = "{ \"version\" : 1 , \"keyboard\" : \"k\" , \"keymap\" : \"m\" , \"layout\" : \"l\" , \"layers\" : [ ] } ";
    assert_eq!(Keymap::decode(empty).unwrap().layers, Vec::<Vec<String>>::new());
}

#[test]
fn decode_accepts_standard_string_escapes() {
    let good = sample().encode();
    let text = good.replace("niz/atom66", "a\\tb\\nc\\/d\\u0041\\u00e9\\be");
    let back = Keymap::decode(&text).unwrap();
    assert_eq!(back.keyboard, "a\tb\nc/dA\u{e9}\u{8}e");
}

#[test]
fn decode_accepts_surrogate_pair_escapes() {
    let good = sample().encode();
    let text = good.replace("niz/atom66", "a\\ud83d\\ude00b");
    let back = Keymap::decode(&text).unwrap();
    assert_eq!(back.keyboard, "a\u{1f600}b");
    // A low half alone, or a high half followed by anything else, is refused.
    assert!(Keymap::decode(&good.replace("niz", "n\\udc00z")).is_err());
    assert!(Keymap::decode(&good.replace("niz", "n\\ud83dz")).is_err());
    assert!(Keymap::decode(&good.replace("niz", "n\\ud83d\\u0041z")).is_err());
}

#[test]
fn encode_escapes_control_characters() {
    let mut doc = sample();
    doc.keyboard = "a\nb\u{1f}".to_string();
    let text = doc.encode();
    assert!(text.contains("a\\u000ab\\u001f"));
    assert_eq!(Keymap::decode(&text).unwrap().keyboard, doc.keyboard);
    let value: serde_json::Value = serde_json::from_str(&text).unwrap();
    assert_eq!(value["keyboard"].as_str(), Some("a\nb\u{1f}"));
}

#[test]
fn encoded_documents_are_plain_json() {
    let doc = sample();
    let value: serde_json::Value = serde_json::from_str(&doc.encode()).unwrap();
    assert_eq!(value["version"], serde_json::Value::from(1u8));
    assert_eq!(value["keyboard"].as_str(), Some("niz/atom66"));
    assert_eq!(value["keymap"].as_str(), Some("default"));
    assert_eq!(value["layout"].as_str(), Some("LAYOUT"));
    assert_eq!(value["layers"][0][0].as_str(), Some("KC_A"));
    assert_eq!(value["layers"][0][1].as_str(), Some("KC_B"));
}
