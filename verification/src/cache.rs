//! Locating the plugin cache directory in the settings dotfile.

use vstd::prelude::*;
use crate::error::{InitError, InitErrorV};
use crate::hcl_input::{hcl_document, parse_hcl_text};
use crate::model::{AttrValue, AttrValueV, Document, DocumentV, find_attr, find_attr_index};

verus! {

/// The cache path a parsed settings document yields: the value of its
/// first top-level `plugin_cache_dir` attribute, which must be a plain
/// string literal.
pub open spec fn cache_dir_of_document(d: DocumentV) -> Result<Seq<char>, InitErrorV> {
    match find_attr(d.attrs, "plugin_cache_dir"@) {
        Some(AttrValueV::Str(p)) => Ok(p),
        Some(AttrValueV::Other) => Err(InitErrorV::CacheAttrNotString),
        None => Err(InitErrorV::CacheAttrMissing),
    }
}

/// The cache path the settings text yields, once it parses.
pub open spec fn cache_dir_spec(s: Seq<char>) -> Result<Seq<char>, InitErrorV> {
    match hcl_document(s) {
        None => Err(InitErrorV::SettingsUnparseable),
        Some(d) => cache_dir_of_document(d),
    }
}

/// Reads the plugin cache path out of a parsed settings document.
pub fn plugin_cache_dir_of(d: &Document) -> (r: Result<String, InitError>)
    ensures
        match r {
            Ok(p) => cache_dir_of_document(d@) == Ok::<Seq<char>, InitErrorV>(p@),
            Err(e) => cache_dir_of_document(d@) == Err::<Seq<char>, InitErrorV>(e@),
        },
{
    match find_attr_index(&d.attrs, "plugin_cache_dir") {
        Some(j) => match &d.attrs[j].value {
            AttrValue::Str(p) => Ok(p.clone()),
            AttrValue::Other => Err(InitError::CacheAttrNotString),
        },
        None => Err(InitError::CacheAttrMissing),
    }
}

/// Reads the plugin cache path out of the settings dotfile's text.
pub fn resolve_plugin_cache_dir(contents: &str) -> (r: Result<String, InitError>)
    ensures
        match r {
            Ok(p) => cache_dir_spec(contents@) == Ok::<Seq<char>, InitErrorV>(p@),
            Err(e) => cache_dir_spec(contents@) == Err::<Seq<char>, InitErrorV>(e@),
        },
{
    match parse_hcl_text(contents) {
        None => Err(InitError::SettingsUnparseable),
        Some(d) => plugin_cache_dir_of(&d),
    }
}

} // verus!
