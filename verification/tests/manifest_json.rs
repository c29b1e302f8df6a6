use tfinit::manifest::ModulesJson;
use tfinit::scan::{parse_module_definitions, Module};

fn module(key: &str, source: &str) -> Module {
    Module { key: key.to_string(), source: source.to_string(), dir: source.to_string() }
}

fn render(doc: &ModulesJson) -> String {
    doc.to_json().into_iter().collect()
}

#[test]
fn empty_build_is_the_root_only_document() {
    let doc = ModulesJson::new(Vec::new());
    assert_eq!(doc.modules.len(), 1);
    assert_eq!(doc.modules[0].key, "");
    assert_eq!(doc.modules[0].source, "");
    assert_eq!(doc.modules[0].dir, ".");
}

#[test]
fn build_prepends_root_and_keeps_order() {
    let doc = ModulesJson::new(vec![module("b", "./b"), module("a", "./a")]);
    let keys: Vec<&str> = doc.modules.iter().map(|m| m.key.as_str()).collect();
    assert_eq!(keys, vec!["", "b", "a"]);
}

#[test]
fn end_to_end_manifest_text() {
    let files = vec!["module \"net\" { source = \"./modules/net\" }\n".to_string()];
    let records = parse_module_definitions(&files).unwrap();
    let doc = ModulesJson::new(records);
    let expected = "{\"Modules\":[{\"Key\":\"\",\"Source\":\"\",\"Dir\":\".\"},{\"Key\":\"net\",\"Source\":\"./modules/net\",\"Dir\":\"./modules/net\"}]}";
    assert_eq!(render(&doc), expected);
}

#[test]
fn empty_manifest_text() {
    let doc = ModulesJson::new(Vec::new());
    assert_eq!(render(&doc), "{\"Modules\":[{\"Key\":\"\",\"Source\":\"\",\"Dir\":\".\"}]}");
}

#[test]
fn reparsing_as_generic_json_exposes_the_exact_shape() {
    let doc = ModulesJson::new(vec![
        module("plain", "./plain"),
        module("quo\"te", "back\\slash"),
        module("tab\there", "line\nbreak"),
        module("ctl\u{1}char", "acc\u{e9}nt"),
    ]);
    let rendered = render(&doc);
    let value: serde_json::Value = serde_json::from_str(&rendered).unwrap();
    let top = value.as_object().unwrap();
    assert_eq!(top.len(), 1);
    let array = top.get("Modules").unwrap().as_array().unwrap();
    assert_eq!(array.len(), 5);
    for (i, entry) in array.iter().enumerate() {
        let obj = entry.as_object().unwrap();
        assert_eq!(obj.len(), 3);
        assert_eq!(obj.get("Key").unwrap().as_str().unwrap(), doc.modules[i].key);
        assert_eq!(obj.get("Source").unwrap().as_str().unwrap(), doc.modules[i].source);
        assert_eq!(obj.get("Dir").unwrap().as_str().unwrap(), doc.modules[i].dir);
    }
    assert_eq!(array[0].get("Key").unwrap(), "");
    assert_eq!(array[0].get("Source").unwrap(), "");
    assert_eq!(array[0].get("Dir").unwrap(), ".");
}

#[test]
fn control_characters_use_lowercase_hex_escapes() {
    let doc = ModulesJson::new(vec![module("a\u{1}b", "x")]);
    let rendered = render(&doc);
    assert!(rendered.contains("a\\u0001b"));
}

#[test]
fn rendering_matches_the_reference_encoder() {
    let doc = ModulesJson::new(vec![module("quo\"te\n\u{1f}", "p\\q")]);
    let rendered = render(&doc);
    let reparsed: serde_json::Value = serde_json::from_str(&rendered).unwrap();
    let reference = serde_json::to_string(&reparsed).unwrap();
    let reference_value: serde_json::Value = serde_json::from_str(&reference).unwrap();
    assert_eq!(reparsed, reference_value);
    assert_eq!(
        reparsed.get("Modules").unwrap()[1].get("Key").unwrap(),
        "quo\"te\n\u{1f}"
    );
}
