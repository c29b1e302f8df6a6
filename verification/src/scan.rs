//! The module scanner: extracts every top-level `module` declaration from
//! a sequence of configuration documents, in file-then-declaration order.

use vstd::prelude::*;
use crate::error::{InitError, InitErrorV};
use crate::hcl_input::{hcl_document, parse_hcl_text};
use crate::model::{AttrValue, AttrValueV, ConfigBlock, ConfigBlockV, Document, DocumentV, find_attr,
    find_attr_index};
use crate::text::str_eq;

verus! {

/// One discovered module declaration.
#[derive(Debug, PartialEq, Eq)]
pub struct Module {
    /// The declaration's label.
    pub key: String,
    /// The literal string value of the block's `source` attribute.
    pub source: String,
    /// The resolved directory; always equal to `source` here, since no
    /// remote-source rewriting is done.
    pub dir: String,
}

/// Mathematical model of a module record.
pub struct ModuleV {
    pub key: Seq<char>,
    pub source: Seq<char>,
    pub dir: Seq<char>,
}

impl View for Module {
    type V = ModuleV;

    open spec fn view(&self) -> ModuleV {
        ModuleV { key: self.key@, source: self.source@, dir: self.dir@ }
    }
}

impl DeepView for Module {
    type V = ModuleV;

    open spec fn deep_view(&self) -> ModuleV {
        self.view()
    }
}

/// Whether a block is a module declaration.
pub open spec fn is_module_block(b: ConfigBlockV) -> bool {
    b.ident == "module"@
}

/// The record a module block yields, or the schema error it provokes: a
/// block without a label, without a `source` attribute, or whose first
/// `source` attribute is not a plain string literal is a hard failure.
pub open spec fn module_of_block(b: ConfigBlockV) -> Result<ModuleV, InitErrorV> {
    if b.labels.len() == 0 {
        Err(InitErrorV::Schema { key: Seq::empty() })
    } else {
        match find_attr(b.attrs, "source"@) {
            Some(AttrValueV::Str(s)) => Ok(ModuleV { key: b.labels[0], source: s, dir: s }),
            Some(AttrValueV::Other) => Err(InitErrorV::Schema { key: b.labels[0] }),
            None => Err(InitErrorV::Schema { key: b.labels[0] }),
        }
    }
}

/// The records of the module blocks at or after position `i`, in order,
/// or the first schema error among them.
pub open spec fn scan_blocks_from(bs: Seq<ConfigBlockV>, i: int) -> Result<Seq<ModuleV>, InitErrorV>
    decreases bs.len() - i,
{
    if i < 0 || i >= bs.len() {
        Ok(Seq::empty())
    } else if !is_module_block(bs[i]) {
        scan_blocks_from(bs, i + 1)
    } else {
        match module_of_block(bs[i]) {
            Err(e) => Err(e),
            Ok(m) => match scan_blocks_from(bs, i + 1) {
                Err(e) => Err(e),
                Ok(ms) => Ok(seq![m] + ms),
            },
        }
    }
}

/// The records of one document's module blocks, in document order.
pub open spec fn scan_document_spec(d: DocumentV) -> Result<Seq<ModuleV>, InitErrorV> {
    scan_blocks_from(d.blocks, 0)
}

/// The records of the documents at or after position `i`, concatenated in
/// document order, or the first error among them.
pub open spec fn scan_documents_from(ds: Seq<DocumentV>, i: int) -> Result<Seq<ModuleV>, InitErrorV>
    decreases ds.len() - i,
{
    if i < 0 || i >= ds.len() {
        Ok(Seq::empty())
    } else {
        match scan_document_spec(ds[i]) {
            Err(e) => Err(e),
            Ok(ms) => match scan_documents_from(ds, i + 1) {
                Err(e) => Err(e),
                Ok(rest) => Ok(ms + rest),
            },
        }
    }
}

/// The records of a whole sequence of documents.
pub open spec fn scan_documents_spec(ds: Seq<DocumentV>) -> Result<Seq<ModuleV>, InitErrorV> {
    scan_documents_from(ds, 0)
}

/// The records of the file texts at or after position `i`: each text is
/// parsed, then scanned, before the next text is considered, so the first
/// failing file wins whatever kind its failure is.
pub open spec fn scan_texts_from(ts: Seq<Seq<char>>, i: int) -> Result<Seq<ModuleV>, InitErrorV>
    decreases ts.len() - i,
{
    if i < 0 || i >= ts.len() {
        Ok(Seq::empty())
    } else {
        match hcl_document(ts[i]) {
            None => Err(InitErrorV::ConfigParse),
            Some(d) => match scan_document_spec(d) {
                Err(e) => Err(e),
                Ok(ms) => match scan_texts_from(ts, i + 1) {
                    Err(e) => Err(e),
                    Ok(rest) => Ok(ms + rest),
                },
            },
        }
    }
}

/// The records of a whole sequence of file texts.
pub open spec fn scan_texts_spec(ts: Seq<Seq<char>>) -> Result<Seq<ModuleV>, InitErrorV> {
    scan_texts_from(ts, 0)
}

/// The record of one module block, or its schema error.
fn scan_block(b: &ConfigBlock) -> (r: Result<Module, InitError>)
    requires
        is_module_block(b@),
    ensures
        match r {
            Ok(m) => module_of_block(b@) == Ok::<ModuleV, InitErrorV>(m@),
            Err(e) => module_of_block(b@) == Err::<ModuleV, InitErrorV>(e@),
        },
{
    if b.labels.len() == 0 {
        return Err(InitError::Schema { key: String::new() });
    }
    let key = b.labels[0].clone();
    match find_attr_index(&b.attrs, "source") {
        Some(j) => match &b.attrs[j].value {
            AttrValue::Str(s) => {
                let source = s.clone();
                let dir = s.clone();
                Ok(Module { key, source, dir })
            },
            AttrValue::Other => Err(InitError::Schema { key }),
        },
        None => Err(InitError::Schema { key }),
    }
}

/// All module records of one parsed document, in document order, or the
/// first schema error among its module blocks.
pub fn scan_document(d: &Document) -> (r: Result<Vec<Module>, InitError>)
    ensures
        match r {
            Ok(ms) => scan_document_spec(d@) == Ok::<Seq<ModuleV>, InitErrorV>(ms.deep_view()),
            Err(e) => scan_document_spec(d@) == Err::<Seq<ModuleV>, InitErrorV>(e@),
        },
{
    let ghost bv = d@.blocks;
    let mut out: Vec<Module> = Vec::new();
    let mut i: usize = 0;
    while i < d.blocks.len()
        invariant
            bv == d@.blocks,
            bv.len() == d.blocks@.len(),
            i <= d.blocks@.len(),
            match scan_blocks_from(bv, i as int) {
                Ok(rest) => scan_blocks_from(bv, 0) == Ok::<Seq<ModuleV>, InitErrorV>(
                    out.deep_view() + rest,
                ),
                Err(e) => scan_blocks_from(bv, 0) == Err::<Seq<ModuleV>, InitErrorV>(e),
            },
        decreases d.blocks@.len() - i,
    {
        let b = &d.blocks[i];
        assert(b@ == bv[i as int]);
        if str_eq(b.ident.as_str(), "module") {
            match scan_block(b) {
                Ok(m) => {
                    let ghost prev = out.deep_view();
                    out.push(m);
                    proof {
                        assert(out.deep_view() =~= prev.push(m@));
                        if let Ok(rest) = scan_blocks_from(bv, i + 1 as int) {
                            assert(prev + (seq![m@] + rest) =~= prev.push(m@) + rest);
                        }
                    }
                },
                Err(e) => {
                    return Err(e);
                },
            }
        }
        i = i + 1;
    }
    proof {
        assert(out.deep_view() + Seq::<ModuleV>::empty() =~= out.deep_view());
    }
    Ok(out)
}

/// All module records of a sequence of parsed documents, in
/// file-then-declaration order, or the first error among them.  This is
/// the pure core of the scanner: it touches nothing outside its
/// arguments.
pub fn scan(docs: &Vec<Document>) -> (r: Result<Vec<Module>, InitError>)
    ensures
        match r {
            Ok(ms) => scan_documents_spec(docs.deep_view()) == Ok::<Seq<ModuleV>, InitErrorV>(
                ms.deep_view(),
            ),
            Err(e) => scan_documents_spec(docs.deep_view()) == Err::<Seq<ModuleV>, InitErrorV>(e@),
        },
{
    let ghost dv = docs.deep_view();
    let mut out: Vec<Module> = Vec::new();
    let mut i: usize = 0;
    while i < docs.len()
        invariant
            dv == docs.deep_view(),
            dv.len() == docs@.len(),
            i <= docs@.len(),
            match scan_documents_from(dv, i as int) {
                Ok(rest) => scan_documents_from(dv, 0) == Ok::<Seq<ModuleV>, InitErrorV>(
                    out.deep_view() + rest,
                ),
                Err(e) => scan_documents_from(dv, 0) == Err::<Seq<ModuleV>, InitErrorV>(e),
            },
        decreases docs@.len() - i,
    {
        let d = &docs[i];
        assert(d@ == dv[i as int]);
        match scan_document(d) {
            Ok(mut ms) => {
                let ghost prev = out.deep_view();
                let ghost msv = ms.deep_view();
                out.append(&mut ms);
                proof {
                    assert(out.deep_view() =~= prev + msv);
                    if let Ok(rest) = scan_documents_from(dv, i + 1 as int) {
                        assert(prev + (msv + rest) =~= (prev + msv) + rest);
                    }
                }
            },
            Err(e) => {
                return Err(e);
            },
        }
        i = i + 1;
    }
    proof {
        assert(out.deep_view() + Seq::<ModuleV>::empty() =~= out.deep_view());
    }
    Ok(out)
}

/// Parses each file text and scans it before the next text is considered,
/// exactly as the texts stand in the input: the records come back in
/// file-then-declaration order, and the first failing file decides the
/// error.
pub fn parse_module_definitions(files: &Vec<String>) -> (r: Result<Vec<Module>, InitError>)
    ensures
        match r {
            Ok(ms) => scan_texts_spec(files.deep_view()) == Ok::<Seq<ModuleV>, InitErrorV>(
                ms.deep_view(),
            ),
            Err(e) => scan_texts_spec(files.deep_view()) == Err::<Seq<ModuleV>, InitErrorV>(e@),
        },
{
    let ghost tv = files.deep_view();
    let mut out: Vec<Module> = Vec::new();
    let mut i: usize = 0;
    while i < files.len()
        invariant
            tv == files.deep_view(),
            tv.len() == files@.len(),
            i <= files@.len(),
            match scan_texts_from(tv, i as int) {
                Ok(rest) => scan_texts_from(tv, 0) == Ok::<Seq<ModuleV>, InitErrorV>(
                    out.deep_view() + rest,
                ),
                Err(e) => scan_texts_from(tv, 0) == Err::<Seq<ModuleV>, InitErrorV>(e),
            },
        decreases files@.len() - i,
    {
        let text = &files[i];
        assert(text@ == tv[i as int]);
        match parse_hcl_text(text.as_str()) {
            None => {
                return Err(InitError::ConfigParse);
            },
            Some(d) => match scan_document(&d) {
                Ok(mut ms) => {
                    let ghost prev = out.deep_view();
                    let ghost msv = ms.deep_view();
                    out.append(&mut ms);
                    proof {
                        assert(out.deep_view() =~= prev + msv);
                        if let Ok(rest) = scan_texts_from(tv, i + 1 as int) {
                            assert(prev + (msv + rest) =~= (prev + msv) + rest);
                        }
                    }
                },
                Err(e) => {
                    return Err(e);
                },
            },
        }
        i = i + 1;
    }
    proof {
        assert(out.deep_view() + Seq::<ModuleV>::empty() =~= out.deep_view());
    }
    Ok(out)
}

} // verus!
