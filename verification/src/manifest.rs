//! The module-resolution manifest: the synthetic root record, the
//! discovered records in order, and the exact JSON text that downstream
//! tooling consumes.  The serialized shape is a format-fidelity contract,
//! so the renderer is specified down to the character.

use vstd::prelude::*;
use crate::json::{JsonValue, lemma_escaped_plain, plain_char, push_quoted_field,
    push_str_chars, quoted, render_fields, render_items, render_json};
use crate::scan::{Module, ModuleV};

verus! {

/// The manifest document: the root record first, then every discovered
/// record in scan order.  Built once per run and never mutated.
pub struct ModulesJson {
    pub modules: Vec<Module>,
}

/// The synthetic root record standing for the project's own directory.
pub open spec fn root_module() -> ModuleV {
    ModuleV { key: Seq::empty(), source: Seq::empty(), dir: "."@ }
}

impl View for ModulesJson {
    type V = Seq<ModuleV>;

    open spec fn view(&self) -> Seq<ModuleV> {
        self.modules.deep_view()
    }
}

impl ModulesJson {
    /// Builds the manifest: the root record, then `extra_modules`
    /// unchanged, preserving their order.  Pure and total.
    pub fn new(extra_modules: Vec<Module>) -> (r: ModulesJson)
        ensures
            r@ == seq![root_module()] + extra_modules.deep_view(),
    {
        let ghost extra = extra_modules.deep_view();
        let root = Module {
            key: String::new(),
            source: String::new(),
            dir: String::from_str("."),
        };
        let mut modules: Vec<Module> = Vec::new();
        modules.push(root);
        let mut rest = extra_modules;
        modules.append(&mut rest);
        proof {
            assert(modules.deep_view() =~= seq![root_module()] + extra);
        }
        ModulesJson { modules }
    }
}

/// One record as a JSON object, keys `Key`, `Source`, `Dir` in that
/// order, exactly this casing, no whitespace.
pub open spec fn module_json(m: ModuleV) -> Seq<char> {
    "{\"Key\":"@ + quoted(m.key) + ",\"Source\":"@ + quoted(m.source) + ",\"Dir\":"@ + quoted(m.dir)
        + "}"@
}

/// The first `n` records as the comma-separated inside of a JSON array.
pub open spec fn modules_json_prefix(ms: Seq<ModuleV>, n: int) -> Seq<char>
    decreases n,
{
    if n <= 0 {
        Seq::empty()
    } else if n == 1 {
        module_json(ms[0])
    } else {
        modules_json_prefix(ms, n - 1) + seq![','] + module_json(ms[n - 1])
    }
}

/// The whole manifest document: a JSON object whose only key is
/// `Modules`, holding the array of records.
pub open spec fn manifest_json(ms: Seq<ModuleV>) -> Seq<char> {
    "{\"Modules\":["@ + modules_json_prefix(ms, ms.len() as int) + "]}"@
}

impl ModulesJson {
    /// Renders the manifest as the exact JSON text the downstream
    /// consumer expects: `{"Modules":[...]}` with no whitespace, each
    /// record an object with keys `Key`, `Source`, `Dir`.
    pub fn to_json(&self) -> (r: Vec<char>)
        ensures
            r@ == manifest_json(self@),
    {
        let ghost ms = self@;
        let mut out: Vec<char> = Vec::new();
        push_str_chars(&mut out, "{\"Modules\":[");
        let ghost head = out@;
        let mut i: usize = 0;
        while i < self.modules.len()
            invariant
                ms == self@,
                ms.len() == self.modules@.len(),
                i <= self.modules@.len(),
                head == "{\"Modules\":["@,
                out@ == head + modules_json_prefix(ms, i as int),
            decreases self.modules@.len() - i,
        {
            if i > 0 {
                out.push(',');
            }
            let m = &self.modules[i];
            assert(m@ == ms[i as int]);
            push_quoted_field(&mut out, "{\"Key\":", m.key.as_str());
            push_quoted_field(&mut out, ",\"Source\":", m.source.as_str());
            push_quoted_field(&mut out, ",\"Dir\":", m.dir.as_str());
            push_str_chars(&mut out, "}");
            proof {
                let j = i as int;
                if j == 0 {
                    assert(out@ =~= head + modules_json_prefix(ms, 1));
                } else {
                    assert(out@ =~= head + (modules_json_prefix(ms, j) + seq![','] + module_json(
                        ms[j],
                    )));
                }
            }
            i = i + 1;
        }
        push_str_chars(&mut out, "]}");
        proof {
            assert(out@ =~= manifest_json(ms));
        }
        out
    }
}

/// The generic JSON tree one record stands for: an object with exactly
/// the fields `Key`, `Source` and `Dir`, in that order, each a string.
pub open spec fn module_tree(m: ModuleV) -> JsonValue {
    JsonValue::Obj(
        seq![
            ("Key"@, JsonValue::Str(m.key)),
            ("Source"@, JsonValue::Str(m.source)),
            ("Dir"@, JsonValue::Str(m.dir)),
        ],
    )
}

/// The generic JSON tree the whole manifest stands for: an object whose
/// only field is `Modules`, holding the array of record objects.
pub open spec fn manifest_tree(ms: Seq<ModuleV>) -> JsonValue {
    JsonValue::Obj(
        seq![("Modules"@, JsonValue::Arr(ms.map_values(|m: ModuleV| module_tree(m))))],
    )
}

/// One record's text is the rendering of its generic JSON tree.
proof fn lemma_render_module(m: ModuleV)
    ensures
        render_json(module_tree(m)) == module_json(m),
{
    let fs = seq![
        ("Key"@, JsonValue::Str(m.key)),
        ("Source"@, JsonValue::Str(m.source)),
        ("Dir"@, JsonValue::Str(m.dir)),
    ];
    reveal_strlit("Key");
    reveal_strlit("Source");
    reveal_strlit("Dir");
    assert(forall|i: int| 0 <= i < "Key"@.len() ==> plain_char("Key"@[i]));
    assert(forall|i: int| 0 <= i < "Source"@.len() ==> plain_char("Source"@[i]));
    assert(forall|i: int| 0 <= i < "Dir"@.len() ==> plain_char("Dir"@[i]));
    lemma_escaped_plain("Key"@);
    lemma_escaped_plain("Source"@);
    lemma_escaped_plain("Dir"@);
    reveal_strlit("{\"Key\":");
    reveal_strlit(",\"Source\":");
    reveal_strlit(",\"Dir\":");
    reveal_strlit("}");
    assert("{\"Key\":"@ =~= seq!['{'] + quoted("Key"@) + seq![':']);
    assert(",\"Source\":"@ =~= seq![','] + quoted("Source"@) + seq![':']);
    assert(",\"Dir\":"@ =~= seq![','] + quoted("Dir"@) + seq![':']);
    assert("}"@ =~= seq!['}']);
    assert(fs.len() == 3);
    assert(fs[0] == ("Key"@, JsonValue::Str(m.key)));
    assert(fs[1] == ("Source"@, JsonValue::Str(m.source)));
    assert(fs[2] == ("Dir"@, JsonValue::Str(m.dir)));
    assert(render_json(JsonValue::Str(m.key)) == quoted(m.key));
    assert(render_json(JsonValue::Str(m.source)) == quoted(m.source));
    assert(render_json(JsonValue::Str(m.dir)) == quoted(m.dir));
    assert(render_fields(fs, 1) == quoted("Key"@) + seq![':'] + quoted(m.key));
    assert(render_fields(fs, 2) == render_fields(fs, 1) + seq![','] + quoted("Source"@) + seq![':']
        + quoted(m.source));
    assert(render_fields(fs, 3) == render_fields(fs, 2) + seq![','] + quoted("Dir"@) + seq![':']
        + quoted(m.dir));
    assert(render_json(module_tree(m)) == seq!['{'] + render_fields(fs, 3) + seq!['}']);
    assert(render_json(module_tree(m)) =~= module_json(m));
}

/// The inside of the rendered array is the rendering of the record
/// trees, item by item.
proof fn lemma_render_items_are_records(ms: Seq<ModuleV>, n: int)
    requires
        0 <= n <= ms.len(),
    ensures
        render_items(ms.map_values(|m: ModuleV| module_tree(m)), n) == modules_json_prefix(ms, n),
    decreases n,
{
    let mapped = ms.map_values(|m: ModuleV| module_tree(m));
    assert(mapped.len() == ms.len());
    if n <= 0 {
    } else if n == 1 {
        assert(mapped[0] == module_tree(ms[0]));
        lemma_render_module(ms[0]);
    } else {
        assert(mapped[n - 1] == module_tree(ms[n - 1]));
        lemma_render_items_are_records(ms, n - 1);
        lemma_render_module(ms[n - 1]);
    }
}

/// Structure of the manifest text: what the renderer emits is, character
/// for character, the rendering of a generic JSON value that exposes
/// exactly one key `Modules`, holding the array of record objects with
/// exactly the keys `Key`, `Source` and `Dir`, the records in document
/// order.  Together with [`lemma_escape_round_trip`] this pins what any
/// JSON reader finds in the written file.
pub proof fn lemma_manifest_text_is_the_tree(ms: Seq<ModuleV>)
    ensures
        manifest_json(ms) == render_json(manifest_tree(ms)),
{
    let mapped = ms.map_values(|m: ModuleV| module_tree(m));
    let mfs = seq![("Modules"@, JsonValue::Arr(mapped))];
    reveal_strlit("Modules");
    assert(forall|i: int| 0 <= i < "Modules"@.len() ==> plain_char("Modules"@[i]));
    lemma_escaped_plain("Modules"@);
    reveal_strlit("{\"Modules\":[");
    reveal_strlit("]}");
    assert("{\"Modules\":["@ =~= seq!['{'] + quoted("Modules"@) + seq![':'] + seq!['[']);
    assert("]}"@ =~= seq![']'] + seq!['}']);
    lemma_render_items_are_records(ms, ms.len() as int);
    assert(render_json(JsonValue::Arr(mapped)) == seq!['['] + render_items(
        mapped,
        mapped.len() as int,
    ) + seq![']']);
    assert(render_fields(mfs, 1) == quoted("Modules"@) + seq![':'] + render_json(
        JsonValue::Arr(mapped),
    ));
    assert(render_json(manifest_tree(ms)) == seq!['{'] + render_fields(mfs, 1) + seq!['}']);
    assert(manifest_json(ms) =~= render_json(manifest_tree(ms)));
}

} // verus!
