//! The one trusted boundary: parsing configuration text with the `hcl`
//! crate and reducing the result to the crate's own [`Document`] model.

use vstd::prelude::*;
use crate::model::{Attr, AttrValue, ConfigBlock, Document, DocumentV};

verus! {

/// The document that `hcl::from_str` yields for a given text, reduced to
/// the [`DocumentV`] model, or `None` where the text does not parse.
/// Parsing is a function of the text alone, so the name is sound.
pub uninterp spec fn hcl_document(s: Seq<char>) -> Option<DocumentV>;

/// Relies on `hcl::from_str::<hcl::Body>`: parses HCL text into a body of
/// attributes and blocks, in document order, deterministically in the
/// text alone.  `Body::attributes` and `Body::blocks` keep that order;
/// `Expression::String` is the only plain string-literal shape, so every
/// other expression kind is collapsed to [`AttrValue::Other`].
#[verifier::external_body]
pub fn parse_hcl_text(s: &str) -> (r: Option<Document>)
    ensures
        match r {
            Some(d) => hcl_document(s@) == Some(d@),
            None => hcl_document(s@) is None,
        },
{
    let body: hcl::Body = hcl::from_str(s).ok()?;
    let conv = |a: &hcl::Attribute| Attr {
        key: a.key.as_str().to_string(),
        value: match a.expr() { hcl::Expression::String(v) => AttrValue::Str(v.clone()), _ => AttrValue::Other },
    };
    Some(Document {
        attrs: body.attributes().map(conv).collect(),
        blocks: body.blocks().map(|b| ConfigBlock {
            ident: b.identifier.as_str().to_string(),
            labels: b.labels.iter().map(|l| l.as_str().to_string()).collect(),
            attrs: b.body.attributes().map(conv).collect(),
        }).collect(),
    })
}

} // verus!
