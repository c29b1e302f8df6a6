use tfinit::error::InitError;
use tfinit::model::{Attr, AttrValue, ConfigBlock, Document};
use tfinit::scan::{parse_module_definitions, scan, Module};

fn text(s: &str) -> String {
    s.to_string()
}

#[test]
fn scan_of_zero_files_is_empty() {
    let files: Vec<String> = Vec::new();
    let r = parse_module_definitions(&files).unwrap();
    assert_eq!(r, Vec::<Module>::new());
}

#[test]
fn scan_of_zero_documents_is_empty() {
    let docs: Vec<Document> = Vec::new();
    let r = scan(&docs).unwrap();
    assert_eq!(r, Vec::<Module>::new());
}

#[test]
fn scan_of_file_without_blocks_is_empty() {
    let files = vec![text("name = \"top\"\n")];
    let r = parse_module_definitions(&files).unwrap();
    assert_eq!(r, Vec::<Module>::new());
}

#[test]
fn one_module_block_yields_one_record() {
    let files = vec![text("module \"net\" {\n  source = \"./modules/net\"\n}\n")];
    let r = parse_module_definitions(&files).unwrap();
    assert_eq!(r.len(), 1);
    assert_eq!(r[0].key, "net");
    assert_eq!(r[0].source, "./modules/net");
    assert_eq!(r[0].dir, "./modules/net");
}

#[test]
fn records_keep_file_then_declaration_order() {
    let file_a = text(
        "module \"zeta\" { source = \"./z\" }\nmodule \"alpha\" { source = \"./a\" }\n",
    );
    let file_b = text("module \"beta\" { source = \"./b\" }\n");
    let files = vec![file_a, file_b];
    let r = parse_module_definitions(&files).unwrap();
    let keys: Vec<&str> = r.iter().map(|m| m.key.as_str()).collect();
    assert_eq!(keys, vec!["zeta", "alpha", "beta"]);
}

#[test]
fn scanning_the_same_file_twice_is_identical() {
    let files = vec![text(
        "module \"one\" { source = \"./one\" }\nmodule \"two\" { source = \"./two\" }\n",
    )];
    let first = parse_module_definitions(&files);
    let second = parse_module_definitions(&files);
    assert_eq!(first, second);
}

#[test]
fn reference_valued_source_is_a_schema_error() {
    let files = vec![text("module \"foo\" { source = var.foo }\n")];
    let r = parse_module_definitions(&files);
    assert_eq!(r, Err(InitError::Schema { key: "foo".to_string() }));
}

#[test]
fn numeric_source_is_a_schema_error() {
    let files = vec![text("module \"n\" { source = 42 }\n")];
    let r = parse_module_definitions(&files);
    assert_eq!(r, Err(InitError::Schema { key: "n".to_string() }));
}

#[test]
fn missing_source_is_a_schema_error() {
    let files = vec![text("module \"bare\" { other = \"x\" }\n")];
    let r = parse_module_definitions(&files);
    assert_eq!(r, Err(InitError::Schema { key: "bare".to_string() }));
}

#[test]
fn unparseable_file_is_a_parse_error() {
    let files = vec![text("module \"x\" {\n")];
    let r = parse_module_definitions(&files);
    assert_eq!(r, Err(InitError::ConfigParse));
}

#[test]
fn non_module_blocks_are_ignored() {
    let files = vec![text(
        "resource \"a\" \"b\" { source = \"ignored\" }\nmodule \"m\" { source = \"./m\" }\n",
    )];
    let r = parse_module_definitions(&files).unwrap();
    assert_eq!(r.len(), 1);
    assert_eq!(r[0].key, "m");
}

#[test]
fn nested_blocks_do_not_provide_the_source() {
    let files = vec![text("module \"outer\" {\n  inner {\n    source = \"./x\"\n  }\n}\n")];
    let r = parse_module_definitions(&files);
    assert_eq!(r, Err(InitError::Schema { key: "outer".to_string() }));
}

#[test]
fn duplicate_keys_pass_through_in_order() {
    let files = vec![text(
        "module \"dup\" { source = \"./first\" }\nmodule \"dup\" { source = \"./second\" }\n",
    )];
    let r = parse_module_definitions(&files).unwrap();
    assert_eq!(r.len(), 2);
    assert_eq!(r[0].source, "./first");
    assert_eq!(r[1].source, "./second");
}

#[test]
fn first_failing_file_decides_the_error() {
    let files = vec![
        text("module \"bad\" { source = var.nope }\n"),
        text("not hcl at all {{{{"),
    ];
    let r = parse_module_definitions(&files);
    assert_eq!(r, Err(InitError::Schema { key: "bad".to_string() }));
}

#[test]
fn a_later_file_can_still_fail_the_scan() {
    let files = vec![
        text("module \"good\" { source = \"./good\" }\n"),
        text("not hcl at all {{{{"),
    ];
    let r = parse_module_definitions(&files);
    assert_eq!(r, Err(InitError::ConfigParse));
}

#[test]
fn module_block_without_label_is_a_schema_error() {
    let files = vec![text("module {\n  source = \"./x\"\n}\n")];
    let r = parse_module_definitions(&files);
    assert_eq!(r, Err(InitError::Schema { key: "".to_string() }));
}

#[test]
fn scan_works_on_hand_built_documents() {
    let doc = Document {
        attrs: vec![],
        blocks: vec![
            ConfigBlock {
                ident: "module".to_string(),
                labels: vec!["db".to_string()],
                attrs: vec![Attr {
                    key: "source".to_string(),
                    value: AttrValue::Str("./db".to_string()),
                }],
            },
            ConfigBlock {
                ident: "provider".to_string(),
                labels: vec!["aws".to_string()],
                attrs: vec![],
            },
        ],
    };
    let r = scan(&vec![doc]).unwrap();
    assert_eq!(r.len(), 1);
    assert_eq!(r[0].key, "db");
    assert_eq!(r[0].source, "./db");
}

#[test]
fn first_source_attribute_wins_in_the_document_model() {
    let doc = Document {
        attrs: vec![],
        blocks: vec![ConfigBlock {
            ident: "module".to_string(),
            labels: vec!["m".to_string()],
            attrs: vec![
                Attr { key: "source".to_string(), value: AttrValue::Str("./first".to_string()) },
                Attr { key: "source".to_string(), value: AttrValue::Str("./second".to_string()) },
            ],
        }],
    };
    let r = scan(&vec![doc]).unwrap();
    assert_eq!(r[0].source, "./first");
}

#[test]
fn schema_error_message_names_the_module() {
    let e = InitError::Schema { key: "foo".to_string() };
    assert_eq!(e.message(), "module \"foo\" must have a plain string source attribute");
}
