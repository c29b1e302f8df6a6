//! Global properties of the scanner and the builder, proved once and for
//! all rather than observed on examples.

use vstd::prelude::*;
use crate::error::InitErrorV;
use crate::hcl_input::hcl_document;
use crate::manifest::root_module;
use crate::model::DocumentV;
use crate::scan::{
    ModuleV, scan_document_spec, scan_documents_from, scan_documents_spec, scan_texts_from,
    scan_texts_spec,
};

verus! {

/// Scanning no documents succeeds and yields no records.
pub proof fn lemma_scan_no_documents()
    ensures
        scan_documents_spec(Seq::<DocumentV>::empty()) == Ok::<Seq<ModuleV>, InitErrorV>(
            Seq::<ModuleV>::empty(),
        ),
{
}

/// Scanning no file texts succeeds and yields no records.
pub proof fn lemma_scan_no_texts()
    ensures
        scan_texts_spec(Seq::<Seq<char>>::empty()) == Ok::<Seq<ModuleV>, InitErrorV>(
            Seq::<ModuleV>::empty(),
        ),
{
}

/// Building the manifest from no records yields the one-element document
/// holding only the synthetic root record.
pub proof fn lemma_build_of_no_records(doc: Seq<ModuleV>)
    requires
        doc == seq![root_module()] + Seq::<ModuleV>::empty(),
    ensures
        doc.len() == 1,
        doc[0] == root_module(),
{
    assert(seq![root_module()] + Seq::<ModuleV>::empty() =~= seq![root_module()]);
}

/// The scan of a concatenation continues past `ds1` into `ds2`.
proof fn lemma_scan_documents_shift(ds1: Seq<DocumentV>, ds2: Seq<DocumentV>, j: int)
    requires
        0 <= j <= ds2.len(),
    ensures
        scan_documents_from(ds1 + ds2, ds1.len() as int + j) == scan_documents_from(ds2, j),
    decreases ds2.len() - j,
{
    let cat = ds1 + ds2;
    assert(cat.len() == ds1.len() + ds2.len());
    if j == ds2.len() {
    } else {
        assert(cat[ds1.len() as int + j] == ds2[j]);
        lemma_scan_documents_shift(ds1, ds2, j + 1);
    }
}

/// The scan of a concatenation, started inside `ds1`, is the scan of the
/// rest of `ds1` followed by the scan of `ds2`, with the earlier error
/// winning.
proof fn lemma_scan_documents_split_from(ds1: Seq<DocumentV>, ds2: Seq<DocumentV>, i: int)
    requires
        0 <= i <= ds1.len(),
    ensures
        scan_documents_from(ds1 + ds2, i) == (match (
            scan_documents_from(ds1, i),
            scan_documents_spec(ds2),
        ) {
            (Ok(a), Ok(b)) => Ok::<Seq<ModuleV>, InitErrorV>(a + b),
            (Err(e), _) => Err(e),
            (Ok(a), Err(e)) => Err(e),
        }),
    decreases ds1.len() - i,
{
    let cat = ds1 + ds2;
    if i == ds1.len() {
        lemma_scan_documents_shift(ds1, ds2, 0);
        if let Ok(b) = scan_documents_spec(ds2) {
            assert(Seq::<ModuleV>::empty() + b =~= b);
        }
    } else {
        assert(cat[i] == ds1[i]);
        lemma_scan_documents_split_from(ds1, ds2, i + 1);
        if let Ok(ms) = scan_document_spec(ds1[i]) {
            if let Ok(a) = scan_documents_from(ds1, i + 1) {
                if let Ok(b) = scan_documents_spec(ds2) {
                    assert(ms + (a + b) =~= (ms + a) + b);
                }
            }
        }
    }
}

/// Order preservation: scanning the documents of one run after the
/// documents of another yields all of the first run's records, in order,
/// followed by all of the second's, and the earlier failure wins.  In
/// particular, every record of a file scanned first precedes every record
/// of a file scanned second, whatever the keys are.
pub proof fn lemma_scan_order(ds1: Seq<DocumentV>, ds2: Seq<DocumentV>)
    ensures
        scan_documents_spec(ds1 + ds2) == (match (
            scan_documents_spec(ds1),
            scan_documents_spec(ds2),
        ) {
            (Ok(a), Ok(b)) => Ok::<Seq<ModuleV>, InitErrorV>(a + b),
            (Err(e), _) => Err(e),
            (Ok(a), Err(e)) => Err(e),
        }),
{
    lemma_scan_documents_split_from(ds1, ds2, 0);
}

/// The scan of concatenated file texts continues past `ts1` into `ts2`.
proof fn lemma_scan_texts_shift(ts1: Seq<Seq<char>>, ts2: Seq<Seq<char>>, j: int)
    requires
        0 <= j <= ts2.len(),
    ensures
        scan_texts_from(ts1 + ts2, ts1.len() as int + j) == scan_texts_from(ts2, j),
    decreases ts2.len() - j,
{
    let cat = ts1 + ts2;
    assert(cat.len() == ts1.len() + ts2.len());
    if j == ts2.len() {
    } else {
        assert(cat[ts1.len() as int + j] == ts2[j]);
        lemma_scan_texts_shift(ts1, ts2, j + 1);
    }
}

/// As [`lemma_scan_documents_split_from`], for file texts.
proof fn lemma_scan_texts_split_from(ts1: Seq<Seq<char>>, ts2: Seq<Seq<char>>, i: int)
    requires
        0 <= i <= ts1.len(),
    ensures
        scan_texts_from(ts1 + ts2, i) == (match (scan_texts_from(ts1, i), scan_texts_spec(ts2)) {
            (Ok(a), Ok(b)) => Ok::<Seq<ModuleV>, InitErrorV>(a + b),
            (Err(e), _) => Err(e),
            (Ok(a), Err(e)) => Err(e),
        }),
    decreases ts1.len() - i,
{
    let cat = ts1 + ts2;
    if i == ts1.len() {
        lemma_scan_texts_shift(ts1, ts2, 0);
        if let Ok(b) = scan_texts_spec(ts2) {
            assert(Seq::<ModuleV>::empty() + b =~= b);
        }
    } else {
        assert(cat[i] == ts1[i]);
        lemma_scan_texts_split_from(ts1, ts2, i + 1);
        if let Some(d) = hcl_document(ts1[i]) {
            if let Ok(ms) = scan_document_spec(d) {
                if let Ok(a) = scan_texts_from(ts1, i + 1) {
                    if let Ok(b) = scan_texts_spec(ts2) {
                        assert(ms + (a + b) =~= (ms + a) + b);
                    }
                }
            }
        }
    }
}

/// Order preservation over files: scanning the files of `ts1` before the
/// files of `ts2` yields all of `ts1`'s records, in order, before all of
/// `ts2`'s, regardless of how the keys compare; the earlier failure
/// wins.
pub proof fn lemma_scan_file_order(ts1: Seq<Seq<char>>, ts2: Seq<Seq<char>>)
    ensures
        scan_texts_spec(ts1 + ts2) == (match (scan_texts_spec(ts1), scan_texts_spec(ts2)) {
            (Ok(a), Ok(b)) => Ok::<Seq<ModuleV>, InitErrorV>(a + b),
            (Err(e), _) => Err(e),
            (Ok(a), Err(e)) => Err(e),
        }),
{
    lemma_scan_texts_split_from(ts1, ts2, 0);
}

/// Idempotence: the scan's outcome is a function of the file texts
/// alone, so two scans of the same texts — in particular two scans of the
/// same file — agree exactly.
pub proof fn lemma_scan_idempotent(
    ts: Seq<Seq<char>>,
    r1: Result<Seq<ModuleV>, InitErrorV>,
    r2: Result<Seq<ModuleV>, InitErrorV>,
)
    requires
        r1 == scan_texts_spec(ts),
        r2 == scan_texts_spec(ts),
    ensures
        r1 == r2,
{
}

} // verus!
