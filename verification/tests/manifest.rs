use mako::manifest::HotUpdateManifest;

fn strings(items: &[&str]) -> Vec<String> {
    items.iter().map(|item| item.to_string()).collect()
}

fn string_array(value: &serde_json::Value) -> Vec<String> {
    value
        .as_array()
        .unwrap()
        .iter()
        .map(|item| item.as_str().unwrap().to_string())
        .collect()
}

#[test]
fn manifest_is_written_with_the_keys_c_and_r() {
    let manifest = HotUpdateManifest {
        modified_chunks: strings(&["a.js"]),
        removed_chunks: strings(&["b.js"]),
    };
    assert_eq!(manifest.to_json().unwrap(), r#"{"c":["a.js"],"r":["b.js"]}"#);
}

#[test]
fn manifest_round_trip() {
    let manifest = HotUpdateManifest {
        modified_chunks: strings(&["a.js"]),
        removed_chunks: strings(&["b.js"]),
    };
    let text = manifest.to_json().unwrap();
    let value: serde_json::Value = serde_json::from_str(&text).unwrap();
    let object = value.as_object().unwrap();
    let keys: Vec<&String> = object.keys().collect();
    assert_eq!(keys, vec!["c", "r"]);
    assert_eq!(string_array(&object["c"]), manifest.modified_chunks);
    assert_eq!(string_array(&object["r"]), manifest.removed_chunks);
}

#[test]
fn manifest_of_nothing_has_two_empty_arrays() {
    let manifest = HotUpdateManifest { modified_chunks: vec![], removed_chunks: vec![] };
    assert_eq!(manifest.to_json().unwrap(), r#"{"c":[],"r":[]}"#);
}

#[test]
fn manifest_separates_names_with_commas() {
    let manifest = HotUpdateManifest {
        modified_chunks: strings(&["a.js", "b.js", "c.css"]),
        removed_chunks: strings(&["d.js", "e.js"]),
    };
    assert_eq!(
        manifest.to_json().unwrap(),
        r#"{"c":["a.js","b.js","c.css"],"r":["d.js","e.js"]}"#
    );
}

#[test]
fn manifest_escapes_names_as_json_does() {
    let names = strings(&["quo\"te.js", "back\\slash.js", "tab\there", "line\nbreak", "é页.js", ""]);
    let manifest =
        HotUpdateManifest { modified_chunks: names.clone(), removed_chunks: names.clone() };
    let text = manifest.to_json().unwrap();
    assert!(text.contains(r#""quo\"te.js""#));
    assert!(text.contains(r#""back\\slash.js""#));
    assert!(text.contains(r#""tab\there""#));
    let value: serde_json::Value = serde_json::from_str(&text).unwrap();
    assert_eq!(string_array(&value["c"]), names);
    assert_eq!(string_array(&value["r"]), names);
}

#[test]
fn manifest_text_is_what_the_json_encoder_writes_for_the_object() {
    let manifest = HotUpdateManifest {
        modified_chunks: strings(&["main.js", "a \"b\".js"]),
        removed_chunks: strings(&["old.css"]),
    };
    let mut object = serde_json::Map::new();
    object.insert(
        "c".to_string(),
        serde_json::Value::Array(
            manifest.modified_chunks.iter().cloned().map(serde_json::Value::String).collect(),
        ),
    );
    object.insert(
        "r".to_string(),
        serde_json::Value::Array(
            manifest.removed_chunks.iter().cloned().map(serde_json::Value::String).collect(),
        ),
    );
    let expected = serde_json::to_string(&serde_json::Value::Object(object)).unwrap();
    assert_eq!(manifest.to_json().unwrap(), expected);
}

#[test]
fn manifest_frame_takes_literals_as_they_are() {
    let text = HotUpdateManifest::render(&strings(&["\"a\"", "1"]), &strings(&["null"]));
    assert_eq!(text, r#"{"c":["a",1],"r":[null]}"#);
}
