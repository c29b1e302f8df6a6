use tfinit::cache::{plugin_cache_dir_of, resolve_plugin_cache_dir};
use tfinit::error::InitError;
use tfinit::model::{Attr, AttrValue, Document};
use tfinit::plan::plan_run;

#[test]
fn cache_dir_is_read_from_the_settings_text() {
    let r = resolve_plugin_cache_dir("plugin_cache_dir = \"/cache/plugins\"\n");
    assert_eq!(r, Ok("/cache/plugins".to_string()));
}

#[test]
fn cache_attribute_is_found_among_others() {
    let r = resolve_plugin_cache_dir(
        "disable_checkpoint = true\nplugin_cache_dir = \"/first\"\nother = 1\n",
    );
    assert_eq!(r, Ok("/first".to_string()));
}

#[test]
fn cache_lookup_works_on_a_hand_built_document() {
    let doc = Document {
        attrs: vec![
            Attr { key: "other".to_string(), value: AttrValue::Other },
            Attr {
                key: "plugin_cache_dir".to_string(),
                value: AttrValue::Str("/cache".to_string()),
            },
        ],
        blocks: vec![],
    };
    assert_eq!(plugin_cache_dir_of(&doc), Ok("/cache".to_string()));
}

#[test]
fn missing_cache_attribute_is_reported() {
    let r = resolve_plugin_cache_dir("disable_checkpoint = true\n");
    assert_eq!(r, Err(InitError::CacheAttrMissing));
}

#[test]
fn non_string_cache_attribute_is_reported() {
    let r = resolve_plugin_cache_dir("plugin_cache_dir = 7\n");
    assert_eq!(r, Err(InitError::CacheAttrNotString));
}

#[test]
fn unparseable_settings_are_reported() {
    let r = resolve_plugin_cache_dir("plugin_cache_dir = \n{{{");
    assert_eq!(r, Err(InitError::SettingsUnparseable));
}

#[test]
fn existing_output_without_clean_is_a_precondition_error() {
    let r = plan_run(true, false, false);
    assert_eq!(r, Err(InitError::Precondition));
    assert_eq!(InitError::Precondition.message(), ".terraform already exists");
}

#[test]
fn clean_mode_removes_and_proceeds() {
    let p = plan_run(true, true, false).unwrap();
    assert!(p.remove_existing);
    assert!(p.write_outputs);
}

#[test]
fn dry_run_validates_but_writes_nothing() {
    let p = plan_run(false, false, true).unwrap();
    assert!(!p.remove_existing);
    assert!(!p.write_outputs);
}

#[test]
fn plain_run_on_a_clean_directory_writes_outputs() {
    let p = plan_run(false, false, false).unwrap();
    assert!(!p.remove_existing);
    assert!(p.write_outputs);
}

#[test]
fn error_messages_are_the_expected_text() {
    assert_eq!(InitError::ConfigRead.message(), "terraform files must be readable");
    assert_eq!(InitError::ConfigParse.message(), "terraform files must be parseable");
    assert_eq!(InitError::NoInput.message(), "no terraform files in directory");
    assert_eq!(InitError::HomeDirMissing.message(), "failed getting home directory");
    assert_eq!(InitError::SettingsUnreadable.message(), "unable to read ~/.terraformrc");
    assert_eq!(InitError::SettingsUnparseable.message(), "unable to parse ~/.terraformrc");
    assert_eq!(
        InitError::CacheAttrMissing.message(),
        "no \"plugin_cache_dir\" attribute in ~/.terraformrc"
    );
    assert_eq!(
        InitError::CacheAttrNotString.message(),
        "plugin_cache_dir setting cant be used because it is not a string literal"
    );
    assert_eq!(
        InitError::OutputWrite.message(),
        "can not create the .terraform output files"
    );
}
