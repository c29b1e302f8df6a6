//! A generic structured-configuration document, reduced to what the
//! scanner reads: top-level attributes, and top-level blocks with their
//! identifier, labels and own attributes.

use vstd::prelude::*;
use crate::text::str_eq;

verus! {

/// The shape of an attribute's value expression.  The scanner only ever
/// distinguishes a plain string literal from every other expression kind
/// (references, interpolations, numbers, ...), so the rest is collapsed.
pub enum AttrValue {
    /// A plain string literal.
    Str(String),
    /// Any other expression shape.
    Other,
}

/// One `key = value` attribute.
pub struct Attr {
    pub key: String,
    pub value: AttrValue,
}

/// One block: an identifier, zero or more labels, and the attributes of
/// its own body (nested blocks are never consulted).
pub struct ConfigBlock {
    pub ident: String,
    pub labels: Vec<String>,
    pub attrs: Vec<Attr>,
}

/// A parsed configuration file: its top-level attributes and blocks, each
/// in document order.
pub struct Document {
    pub attrs: Vec<Attr>,
    pub blocks: Vec<ConfigBlock>,
}

/// Mathematical model of an attribute value.
pub enum AttrValueV {
    Str(Seq<char>),
    Other,
}

/// Mathematical model of an attribute.
pub struct AttrV {
    pub key: Seq<char>,
    pub value: AttrValueV,
}

/// Mathematical model of a block.
pub struct ConfigBlockV {
    pub ident: Seq<char>,
    pub labels: Seq<Seq<char>>,
    pub attrs: Seq<AttrV>,
}

/// Mathematical model of a document.
pub struct DocumentV {
    pub attrs: Seq<AttrV>,
    pub blocks: Seq<ConfigBlockV>,
}

impl View for AttrValue {
    type V = AttrValueV;

    open spec fn view(&self) -> AttrValueV {
        match self {
            AttrValue::Str(s) => AttrValueV::Str(s@),
            AttrValue::Other => AttrValueV::Other,
        }
    }
}

impl DeepView for AttrValue {
    type V = AttrValueV;

    open spec fn deep_view(&self) -> AttrValueV {
        self.view()
    }
}

impl View for Attr {
    type V = AttrV;

    open spec fn view(&self) -> AttrV {
        AttrV { key: self.key@, value: self.value@ }
    }
}

impl DeepView for Attr {
    type V = AttrV;

    open spec fn deep_view(&self) -> AttrV {
        self.view()
    }
}

impl View for ConfigBlock {
    type V = ConfigBlockV;

    open spec fn view(&self) -> ConfigBlockV {
        ConfigBlockV {
            ident: self.ident@,
            labels: self.labels.deep_view(),
            attrs: self.attrs.deep_view(),
        }
    }
}

impl DeepView for ConfigBlock {
    type V = ConfigBlockV;

    open spec fn deep_view(&self) -> ConfigBlockV {
        self.view()
    }
}

impl View for Document {
    type V = DocumentV;

    open spec fn view(&self) -> DocumentV {
        DocumentV { attrs: self.attrs.deep_view(), blocks: self.blocks.deep_view() }
    }
}

impl DeepView for Document {
    type V = DocumentV;

    open spec fn deep_view(&self) -> DocumentV {
        self.view()
    }
}

/// The value of the first attribute named `key` at or after position `i`,
/// if any.
pub open spec fn find_attr_from(attrs: Seq<AttrV>, key: Seq<char>, i: int) -> Option<AttrValueV>
    decreases attrs.len() - i,
{
    if i < 0 || i >= attrs.len() {
        None
    } else if attrs[i].key == key {
        Some(attrs[i].value)
    } else {
        find_attr_from(attrs, key, i + 1)
    }
}

/// The value of the first attribute named `key`, if any.
pub open spec fn find_attr(attrs: Seq<AttrV>, key: Seq<char>) -> Option<AttrValueV> {
    find_attr_from(attrs, key, 0)
}

/// Position of the first attribute named `key`, if any.
pub fn find_attr_index(attrs: &Vec<Attr>, key: &str) -> (r: Option<usize>)
    ensures
        match r {
            Some(j) => {
                &&& j < attrs@.len()
                &&& find_attr(attrs.deep_view(), key@) == Some(attrs.deep_view()[j as int].value)
            },
            None => find_attr(attrs.deep_view(), key@) is None,
        },
{
    let ghost av = attrs.deep_view();
    let mut i: usize = 0;
    while i < attrs.len()
        invariant
            av == attrs.deep_view(),
            av.len() == attrs@.len(),
            i <= attrs@.len(),
            find_attr(av, key@) == find_attr_from(av, key@, i as int),
        decreases attrs@.len() - i,
    {
        if str_eq(attrs[i].key.as_str(), key) {
            return Some(i);
        }
        i = i + 1;
    }
    None
}

} // verus!
