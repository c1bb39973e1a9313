use vstd::prelude::*;
use crate::error::ModelError;
use crate::naming::str_eq;
use crate::syntax::{all_other, Lit, Ty};

verus! {

/// A marker attached to a declaration: an `opts(...)` marker with its
/// entries, or any other attribute, carried through as source text.
#[derive(Debug, PartialEq, Eq)]
pub enum Attr {
    Opts(Vec<OptEntry>),
    Other(String),
}

/// One entry of an `opts(...)` marker: `key` alone, or `key = value`.
#[derive(Debug, PartialEq, Eq)]
pub struct OptEntry {
    pub key: String,
    pub value: OptValue,
}

/// The value written after an option key.
#[derive(Debug, PartialEq, Eq)]
pub enum OptValue {
    /// No value: the key stands alone.
    Bare,
    Lit(Lit),
    Ty(Ty),
    /// A bracketed list of literals.
    List(Vec<Lit>),
}

/// What an option of a schema takes.
#[derive(Clone, Copy, Debug, PartialEq, Eq, Structural)]
pub enum OptKind {
    /// Set by naming it, without a value.
    Flag,
    Lit,
    Ty,
    List,
}

/// A named option of a schema.
#[derive(Clone, Copy, Debug, PartialEq, Eq)]
pub struct OptionSpec {
    pub name: &'static str,
    pub kind: OptKind,
}

pub open spec fn fits(kind: OptKind, value: OptValue) -> bool {
    match kind {
        OptKind::Flag => value is Bare,
        OptKind::Lit => value is Lit,
        OptKind::Ty => value is Ty,
        OptKind::List => value is List,
    }
}

/// The schema names an option `key`.
pub open spec fn known(schema: Seq<OptionSpec>, key: Seq<char>) -> bool {
    exists|i: int| 0 <= i < schema.len() && schema[i].name@ == key
}

/// An entry names an option of the schema and gives a value it takes.
pub open spec fn entry_ok(schema: Seq<OptionSpec>, e: OptEntry) -> bool {
    exists|i: int| 0 <= i < schema.len() && schema[i].name@ == e.key@ && fits(schema[i].kind, e.value)
}

/// Some entry names the option.
pub open spec fn present(entries: Seq<OptEntry>, name: Seq<char>) -> bool {
    exists|j: int| 0 <= j < entries.len() && entries[j].key@ == name
}

/// Schema names are pairwise distinct, and each conflict pairs two of them.
pub open spec fn schema_wf(schema: Seq<OptionSpec>, conflicts: Seq<(usize, usize)>) -> bool {
    &&& forall|i: int, k: int| 0 <= i < k < schema.len() ==> schema[i].name@ != schema[k].name@
    &&& forall|c: int| 0 <= c < conflicts.len() ==> conflicts[c].0 < schema.len() && conflicts[c].1 < schema.len()
}

/// Every entry is known and well typed, no option is given twice, and no
/// two options of a conflicting pair are both given.
pub open spec fn options_valid(
    entries: Seq<OptEntry>,
    schema: Seq<OptionSpec>,
    conflicts: Seq<(usize, usize)>,
) -> bool {
    &&& forall|j: int| 0 <= j < entries.len() ==> entry_ok(schema, #[trigger] entries[j])
    &&& forall|j: int, l: int| 0 <= j < l < entries.len() ==> entries[j].key@ != entries[l].key@
    &&& forall|c: int|
        0 <= c < conflicts.len() ==> !(present(entries, schema[conflicts[c].0 as int].name@)
            && present(entries, schema[conflicts[c].1 as int].name@))
}

/// The value given for an option, if it is given.
pub open spec fn slot_value(entries: Seq<OptEntry>, name: Seq<char>) -> Option<OptValue> {
    if present(entries, name) {
        Some(entries[choose|j: int| 0 <= j < entries.len() && entries[j].key@ == name].value)
    } else {
        None
    }
}

/// An error names a real fault of the entries.
pub open spec fn error_explains(
    e: ModelError,
    entries: Seq<OptEntry>,
    schema: Seq<OptionSpec>,
    conflicts: Seq<(usize, usize)>,
) -> bool {
    match e {
        ModelError::UnknownOption(k) => present(entries, k@) && !known(schema, k@),
        ModelError::DuplicateOption(k) => exists|j: int, l: int|
            0 <= j < l < entries.len() && entries[j].key@ == k@ && entries[l].key@ == k@,
        ModelError::ValueNotAllowed(k) => exists|j: int, i: int|
            0 <= j < entries.len() && 0 <= i < schema.len() && entries[j].key@ == k@
                && schema[i].name@ == k@ && schema[i].kind is Flag && !(entries[j].value is Bare),
        ModelError::ValueExpected(k) => exists|j: int, i: int|
            0 <= j < entries.len() && 0 <= i < schema.len() && entries[j].key@ == k@
                && schema[i].name@ == k@ && !(schema[i].kind is Flag) && !fits(
                schema[i].kind,
                entries[j].value,
            ),
        ModelError::ConflictingOptions(a, b) => exists|c: int|
            0 <= c < conflicts.len() && schema[conflicts[c].0 as int].name@ == a@
                && schema[conflicts[c].1 as int].name@ == b@ && present(entries, a@) && present(
                entries,
                b@,
            ),
        _ => false,
    }
}

fn value_fits(kind: OptKind, value: &OptValue) -> (r: bool)
    ensures
        r == fits(kind, *value),
{
    match kind {
        OptKind::Flag => matches!(value, OptValue::Bare),
        OptKind::Lit => matches!(value, OptValue::Lit(_)),
        OptKind::Ty => matches!(value, OptValue::Ty(_)),
        OptKind::List => matches!(value, OptValue::List(_)),
    }
}

fn find_option(schema: &Vec<OptionSpec>, key: &String) -> (r: Option<usize>)
    ensures
        match r {
            Some(i) => i < schema@.len() && schema@[i as int].name@ == key@,
            None => !known(schema@, key@),
        },
{
    let mut i: usize = 0;
    while i < schema.len()
        invariant
            i <= schema@.len(),
            forall|k: int| 0 <= k < i ==> schema@[k].name@ != key@,
        decreases schema.len() - i,
    {
        if str_eq(key.as_str(), schema[i].name) {
            return Some(i);
        }
        i = i + 1;
    }
    None
}

proof fn lemma_slot_value_unique(entries: Seq<OptEntry>, name: Seq<char>, j: int)
    requires
        0 <= j < entries.len(),
        entries[j].key@ == name,
        forall|a: int, b: int| 0 <= a < b < entries.len() ==> entries[a].key@ != entries[b].key@,
    ensures
        slot_value(entries, name) == Some(entries[j].value),
{
    let c = choose|c: int| 0 <= c < entries.len() && entries[c].key@ == name;
    assert(0 <= c < entries.len() && entries[c].key@ == name);
    if c < j {
        assert(entries[c].key@ != entries[j].key@);
    } else if j < c {
        assert(entries[j].key@ != entries[c].key@);
    }
}

/// Resolves option entries against a schema: on success, one slot per
/// schema option in schema order, holding the value given for it.
pub fn resolve_options(
    entries: Vec<OptEntry>,
    schema: &Vec<OptionSpec>,
    conflicts: &Vec<(usize, usize)>,
) -> (r: Result<Vec<Option<OptValue>>, ModelError>)
    requires
        schema_wf(schema@, conflicts@),
    ensures
        r is Ok <==> options_valid(entries@, schema@, conflicts@),
        match r {
            Ok(slots) => slots@.len() == schema@.len() && forall|i: int|
                0 <= i < schema@.len() ==> slots@[i] == slot_value(entries@, schema@[i].name@),
            Err(e) => error_explains(e, entries@, schema@, conflicts@),
        },
{
    let ghost all = entries@;
    let n = entries.len();
    let mut rest = entries;
    let mut slots: Vec<Option<OptValue>> = Vec::new();
    let mut i: usize = 0;
    while i < schema.len()
        invariant
            i <= schema@.len(),
            slots@.len() == i,
            forall|k: int| 0 <= k < i ==> slots@[k] is None,
        decreases schema.len() - i,
    {
        slots.push(None);
        i = i + 1;
    }
    let mut j: usize = 0;
    while j < n
        invariant
            all == entries@,
            n == all.len(),
            j <= n,
            rest@ == all.subrange(j as int, n as int),
            schema_wf(schema@, conflicts@),
            slots@.len() == schema@.len(),
            forall|k: int| 0 <= k < j ==> entry_ok(schema@, #[trigger] all[k]),
            forall|a: int, b: int| 0 <= a < b < j ==> all[a].key@ != all[b].key@,
            forall|s: int|
                0 <= s < schema@.len() ==> (slots@[s] is Some <==> present(
                    all.subrange(0, j as int),
                    schema@[s].name@,
                )),
            forall|s: int|
                0 <= s < schema@.len() && slots@[s] is Some ==> exists|k: int|
                    0 <= k < j && all[k].key@ == schema@[s].name@ && slots@[s] == Some(all[k].value),
        decreases n - j,
    {
        let e = rest.remove(0);
        assert(e == all[j as int]);
        let idx = match find_option(schema, &e.key) {
            Some(idx) => idx,
            None => {
                assert(all[j as int].key@ == e.key@);
                assert(!entry_ok(schema@, all[j as int]));
                assert(present(entries@, e.key@));
                return Err(ModelError::UnknownOption(e.key));
            },
        };
        if !value_fits(schema[idx].kind, &e.value) {
            proof {
                assert forall|i: int|
                    0 <= i < schema@.len() && schema@[i].name@ == e.key@ implies i == idx by {
                    if i < idx {
                        assert(schema@[i].name@ != schema@[idx as int].name@);
                    } else if i > idx {
                        assert(schema@[idx as int].name@ != schema@[i].name@);
                    }
                }
                assert(!entry_ok(schema@, all[j as int]));
            }
            if matches!(schema[idx].kind, OptKind::Flag) {
                return Err(ModelError::ValueNotAllowed(e.key));
            } else {
                return Err(ModelError::ValueExpected(e.key));
            }
        }
        if slots[idx].is_some() {
            proof {
                let k = choose|k: int|
                    0 <= k < j && all[k].key@ == schema@[idx as int].name@ && slots@[idx as int]
                        == Some(all[k].value);
                assert(all[k].key@ == e.key@);
            }
            return Err(ModelError::DuplicateOption(e.key));
        }
        proof {
            assert forall|k: int| 0 <= k < j implies all[k].key@ != all[j as int].key@ by {
                if all[k].key@ == all[j as int].key@ {
                    assert(all.subrange(0, j as int)[k] == all[k]);
                }
            }
        }
        let ghost before = slots@;
        slots.set(idx, Some(e.value));
        j = j + 1;
        proof {
            assert forall|s: int|
                0 <= s < schema@.len() implies (slots@[s] is Some <==> present(
                all.subrange(0, j as int),
                schema@[s].name@,
            )) by {
                let pre = all.subrange(0, j - 1);
                let post = all.subrange(0, j as int);
                if present(pre, schema@[s].name@) {
                    let w = choose|w: int| 0 <= w < pre.len() && pre[w].key@ == schema@[s].name@;
                    assert(post[w] == pre[w]);
                }
                if present(post, schema@[s].name@) {
                    let w = choose|w: int| 0 <= w < post.len() && post[w].key@ == schema@[s].name@;
                    if w < j - 1 {
                        assert(post[w] == pre[w]);
                    } else {
                        assert(post[w] == all[j - 1]);
                    }
                }
                if s == idx {
                    assert(post[j - 1] == all[j - 1]);
                }
            }
            assert forall|s: int|
                0 <= s < schema@.len() && slots@[s] is Some implies exists|k: int|
                    0 <= k < j && all[k].key@ == schema@[s].name@ && slots@[s] == Some(all[k].value) by {
                if s == idx {
                    assert(all[j - 1].key@ == schema@[s].name@);
                } else {
                    assert(before[s] == slots@[s]);
                }
            }
        }
    }
    assert(all.subrange(0, n as int) =~= all);
    let mut c: usize = 0;
    while c < conflicts.len()
        invariant
            all == entries@,
            n == all.len(),
            all.subrange(0, n as int) == all,
            schema_wf(schema@, conflicts@),
            slots@.len() == schema@.len(),
            c <= conflicts@.len(),
            forall|s: int|
                0 <= s < schema@.len() ==> (slots@[s] is Some <==> present(all, schema@[s].name@)),
            forall|d: int|
                0 <= d < c ==> !(present(all, schema@[conflicts@[d].0 as int].name@) && present(
                    all,
                    schema@[conflicts@[d].1 as int].name@,
                )),
        decreases conflicts.len() - c,
    {
        let (a, b) = conflicts[c];
        if slots[a].is_some() && slots[b].is_some() {
            let ghost d = c as int;
            assert(conflicts@[d].0 == a && conflicts@[d].1 == b);
            let na = String::from_str(schema[a].name);
            let nb = String::from_str(schema[b].name);
            assert(present(entries@, na@) && present(entries@, nb@));
            assert(!options_valid(entries@, schema@, conflicts@));
            return Err(ModelError::ConflictingOptions(na, nb));
        }
        c = c + 1;
    }
    proof {
        assert forall|s: int| 0 <= s < schema@.len() implies slots@[s] == slot_value(
            all,
            schema@[s].name@,
        ) by {
            if slots@[s] is Some {
                let k = choose|k: int|
                    0 <= k < n && all[k].key@ == schema@[s].name@ && slots@[s] == Some(all[k].value);
                lemma_slot_value_unique(all, schema@[s].name@, k);
            }
        }
    }
    Ok(slots)
}

/// The entries of all `opts(...)` markers, in order.
pub open spec fn opts_entries(attrs: Seq<Attr>) -> Seq<OptEntry>
    decreases attrs.len(),
{
    if attrs.len() == 0 {
        Seq::empty()
    } else {
        let rest = opts_entries(attrs.drop_last());
        match attrs.last() {
            Attr::Opts(v) => rest + v@,
            Attr::Other(_) => rest,
        }
    }
}

/// The markers other than `opts(...)`, in order.
pub open spec fn other_attrs(attrs: Seq<Attr>) -> Seq<Attr>
    decreases attrs.len(),
{
    if attrs.len() == 0 {
        Seq::empty()
    } else {
        let rest = other_attrs(attrs.drop_last());
        if attrs.last() is Opts {
            rest
        } else {
            rest.push(attrs.last())
        }
    }
}

/// Takes the `opts(...)` markers out of `attrs`, keeping the other markers
/// in order, and returns their entries.
pub fn take_opts_entries(attrs: &mut Vec<Attr>) -> (r: Vec<OptEntry>)
    ensures
        r@ == opts_entries(old(attrs)@),
        final(attrs)@ == other_attrs(old(attrs)@),
{
    let ghost orig = attrs@;
    let n = attrs.len();
    let mut entries: Vec<OptEntry> = Vec::new();
    let mut kept: Vec<Attr> = Vec::new();
    let mut i: usize = 0;
    assert(orig.subrange(0, 0) =~= Seq::<Attr>::empty());
    while i < n
        invariant
            n == orig.len(),
            i <= n,
            attrs@ == orig.subrange(i as int, n as int),
            entries@ == opts_entries(orig.subrange(0, i as int)),
            kept@ == other_attrs(orig.subrange(0, i as int)),
        decreases n - i,
    {
        let a = attrs.remove(0);
        let ghost pre = orig.subrange(0, i as int);
        let ghost post = orig.subrange(0, i + 1);
        assert(post.drop_last() =~= pre);
        assert(post.last() == a);
        match a {
            Attr::Opts(mut v) => {
                entries.append(&mut v);
            },
            Attr::Other(text) => {
                kept.push(Attr::Other(text));
            },
        }
        i = i + 1;
    }
    assert(orig.subrange(0, n as int) =~= orig);
    *attrs = kept;
    entries
}

pub open spec fn flag_of(v: Option<OptValue>) -> bool {
    v is Some
}

pub open spec fn lit_of(v: Option<OptValue>) -> Option<Lit> {
    match v {
        Some(OptValue::Lit(l)) => Some(l),
        _ => None,
    }
}

pub open spec fn ty_of(v: Option<OptValue>) -> Option<Ty> {
    match v {
        Some(OptValue::Ty(t)) => Some(t),
        _ => None,
    }
}

pub open spec fn list_of(v: Option<OptValue>) -> Seq<Lit> {
    match v {
        Some(OptValue::List(l)) => l@,
        _ => Seq::empty(),
    }
}

fn take_flag(slots: &mut Vec<Option<OptValue>>) -> (r: bool)
    requires
        old(slots)@.len() > 0,
    ensures
        r == flag_of(old(slots)@.last()),
        final(slots)@ == old(slots)@.drop_last(),
{
    match slots.pop() {
        Some(v) => v.is_some(),
        None => false,
    }
}

fn take_lit(slots: &mut Vec<Option<OptValue>>) -> (r: Option<Lit>)
    requires
        old(slots)@.len() > 0,
    ensures
        r == lit_of(old(slots)@.last()),
        final(slots)@ == old(slots)@.drop_last(),
{
    match slots.pop() {
        Some(Some(OptValue::Lit(l))) => Some(l),
        _ => None,
    }
}

fn take_ty(slots: &mut Vec<Option<OptValue>>) -> (r: Option<Ty>)
    requires
        old(slots)@.len() > 0,
    ensures
        r == ty_of(old(slots)@.last()),
        final(slots)@ == old(slots)@.drop_last(),
{
    match slots.pop() {
        Some(Some(OptValue::Ty(t))) => Some(t),
        _ => None,
    }
}

fn take_list(slots: &mut Vec<Option<OptValue>>) -> (r: Vec<Lit>)
    requires
        old(slots)@.len() > 0,
    ensures
        r@ == list_of(old(slots)@.last()),
        final(slots)@ == old(slots)@.drop_last(),
{
    match slots.pop() {
        Some(Some(OptValue::List(l))) => l,
        _ => Vec::new(),
    }
}

/// Options of a type declaration.
#[derive(Debug, PartialEq, Eq)]
pub struct StructAttributes {
    pub dbg: bool,
    pub on: Option<Ty>,
    pub extends: Option<Ty>,
    pub getter: bool,
    pub setter: bool,
    pub final_: bool,
    pub js_name: Option<Lit>,
    pub js_namespace: Vec<Lit>,
    pub module: Option<Lit>,
    pub raw_module: Option<Lit>,
}

pub open spec fn struct_schema() -> Seq<OptionSpec> {
    seq![
        OptionSpec { name: "dbg", kind: OptKind::Flag },
        OptionSpec { name: "on", kind: OptKind::Ty },
        OptionSpec { name: "extends", kind: OptKind::Ty },
        OptionSpec { name: "getter", kind: OptKind::Flag },
        OptionSpec { name: "setter", kind: OptKind::Flag },
        OptionSpec { name: "final_", kind: OptKind::Flag },
        OptionSpec { name: "js_name", kind: OptKind::Lit },
        OptionSpec { name: "js_namespace", kind: OptKind::List },
        OptionSpec { name: "module", kind: OptKind::Lit },
        OptionSpec { name: "raw_module", kind: OptKind::Lit },
    ]
}

pub open spec fn struct_conflicts() -> Seq<(usize, usize)> {
    seq![(1usize, 2usize), (8usize, 9usize)]
}

impl StructAttributes {
    /// Each option holds what the entries give for it.
    pub open spec fn resolved_from(self, e: Seq<OptEntry>) -> bool {
        &&& self.dbg == flag_of(slot_value(e, "dbg"@))
        &&& self.on == ty_of(slot_value(e, "on"@))
        &&& self.extends == ty_of(slot_value(e, "extends"@))
        &&& self.getter == flag_of(slot_value(e, "getter"@))
        &&& self.setter == flag_of(slot_value(e, "setter"@))
        &&& self.final_ == flag_of(slot_value(e, "final_"@))
        &&& self.js_name == lit_of(slot_value(e, "js_name"@))
        &&& self.js_namespace@ == list_of(slot_value(e, "js_namespace"@))
        &&& self.module == lit_of(slot_value(e, "module"@))
        &&& self.raw_module == lit_of(slot_value(e, "raw_module"@))
    }

    fn schema() -> (r: (Vec<OptionSpec>, Vec<(usize, usize)>))
        ensures
            r.0@ == struct_schema(),
            r.1@ == struct_conflicts(),
            schema_wf(r.0@, r.1@),
    {
        proof {
            reveal_strlit("dbg");
            reveal_strlit("on");
            reveal_strlit("extends");
            reveal_strlit("getter");
            reveal_strlit("setter");
            reveal_strlit("final_");
            reveal_strlit("js_name");
            reveal_strlit("js_namespace");
            reveal_strlit("module");
            reveal_strlit("raw_module");
        }
        proof {
            assert("dbg"@.len() != "on"@.len());
            assert("dbg"@.len() != "extends"@.len());
            assert("dbg"@.len() != "getter"@.len());
            assert("dbg"@.len() != "setter"@.len());
            assert("dbg"@.len() != "final_"@.len());
            assert("dbg"@.len() != "js_name"@.len());
            assert("dbg"@.len() != "js_namespace"@.len());
            assert("dbg"@.len() != "module"@.len());
            assert("dbg"@.len() != "raw_module"@.len());
            assert("on"@.len() != "extends"@.len());
            assert("on"@.len() != "getter"@.len());
            assert("on"@.len() != "setter"@.len());
            assert("on"@.len() != "final_"@.len());
            assert("on"@.len() != "js_name"@.len());
            assert("on"@.len() != "js_namespace"@.len());
            assert("on"@.len() != "module"@.len());
            assert("on"@.len() != "raw_module"@.len());
            assert("extends"@.len() != "getter"@.len());
            assert("extends"@.len() != "setter"@.len());
            assert("extends"@.len() != "final_"@.len());
            assert("extends"@[0] != "js_name"@[0]);
            assert("extends"@.len() != "js_namespace"@.len());
            assert("extends"@.len() != "module"@.len());
            assert("extends"@.len() != "raw_module"@.len());
            assert("getter"@[0] != "setter"@[0]);
            assert("getter"@[0] != "final_"@[0]);
            assert("getter"@.len() != "js_name"@.len());
            assert("getter"@.len() != "js_namespace"@.len());
            assert("getter"@[0] != "module"@[0]);
            assert("getter"@.len() != "raw_module"@.len());
            assert("setter"@[0] != "final_"@[0]);
            assert("setter"@.len() != "js_name"@.len());
            assert("setter"@.len() != "js_namespace"@.len());
            assert("setter"@[0] != "module"@[0]);
            assert("setter"@.len() != "raw_module"@.len());
            assert("final_"@.len() != "js_name"@.len());
            assert("final_"@.len() != "js_namespace"@.len());
            assert("final_"@[0] != "module"@[0]);
            assert("final_"@.len() != "raw_module"@.len());
            assert("js_name"@.len() != "js_namespace"@.len());
            assert("js_name"@.len() != "module"@.len());
            assert("js_name"@.len() != "raw_module"@.len());
            assert("js_namespace"@.len() != "module"@.len());
            assert("js_namespace"@.len() != "raw_module"@.len());
            assert("module"@.len() != "raw_module"@.len());
        }
        let schema = vec![
            OptionSpec { name: "dbg", kind: OptKind::Flag },
            OptionSpec { name: "on", kind: OptKind::Ty },
            OptionSpec { name: "extends", kind: OptKind::Ty },
            OptionSpec { name: "getter", kind: OptKind::Flag },
            OptionSpec { name: "setter", kind: OptKind::Flag },
            OptionSpec { name: "final_", kind: OptKind::Flag },
            OptionSpec { name: "js_name", kind: OptKind::Lit },
            OptionSpec { name: "js_namespace", kind: OptKind::List },
            OptionSpec { name: "module", kind: OptKind::Lit },
            OptionSpec { name: "raw_module", kind: OptKind::Lit },
        ];
        let conflicts: Vec<(usize, usize)> = vec![(1, 2), (8, 9)];
        assert(schema@ =~= struct_schema());
        assert(conflicts@ =~= struct_conflicts());
        assert forall|i: int, k: int| 0 <= i < k < schema@.len() implies schema@[i].name@
            != schema@[k].name@ by {
            assert(i == 0 || i == 1 || i == 2 || i == 3 || i == 4 || i == 5 || i == 6 || i == 7 || i == 8 || i == 9);
            assert(k == 0 || k == 1 || k == 2 || k == 3 || k == 4 || k == 5 || k == 6 || k == 7 || k == 8 || k == 9);
        }
        (schema, conflicts)
    }

    /// Takes the `opts(...)` markers out of `attrs` and resolves them.
    pub fn remove_attributes(attrs: &mut Vec<Attr>) -> (r: Result<StructAttributes, ModelError>)
        ensures
            final(attrs)@ == other_attrs(old(attrs)@),
            match r {
                Ok(a) => options_valid(opts_entries(old(attrs)@), struct_schema(), struct_conflicts())
                    && a.resolved_from(opts_entries(old(attrs)@)),
                Err(e) => !options_valid(opts_entries(old(attrs)@), struct_schema(), struct_conflicts())
                    && error_explains(e, opts_entries(old(attrs)@), struct_schema(), struct_conflicts()),
            },
    {
        let entries = take_opts_entries(attrs);
        let (schema, conflicts) = Self::schema();
        let mut slots = match resolve_options(entries, &schema, &conflicts) {
            Ok(slots) => slots,
            Err(e) => return Err(e),
        };
        let raw_module = take_lit(&mut slots);
        let module = take_lit(&mut slots);
        let js_namespace = take_list(&mut slots);
        let js_name = take_lit(&mut slots);
        let final_ = take_flag(&mut slots);
        let setter = take_flag(&mut slots);
        let getter = take_flag(&mut slots);
        let extends = take_ty(&mut slots);
        let on = take_ty(&mut slots);
        let dbg = take_flag(&mut slots);
        Ok(StructAttributes { dbg, on, extends, getter, setter, final_, js_name, js_namespace, module, raw_module })
    }
}

/// Options of a field.
#[derive(Debug, PartialEq, Eq)]
pub struct FieldAttributes {
    pub getter: bool,
    pub setter: bool,
    pub final_: bool,
    pub structural: bool,
    pub js_name: Option<Lit>,
}

pub open spec fn field_schema() -> Seq<OptionSpec> {
    seq![
        OptionSpec { name: "getter", kind: OptKind::Flag },
        OptionSpec { name: "setter", kind: OptKind::Flag },
        OptionSpec { name: "final_", kind: OptKind::Flag },
        OptionSpec { name: "structural", kind: OptKind::Flag },
        OptionSpec { name: "js_name", kind: OptKind::Lit },
    ]
}

pub open spec fn field_conflicts() -> Seq<(usize, usize)> {
    seq![]
}

impl FieldAttributes {
    /// Each option holds what the entries give for it.
    pub open spec fn resolved_from(self, e: Seq<OptEntry>) -> bool {
        &&& self.getter == flag_of(slot_value(e, "getter"@))
        &&& self.setter == flag_of(slot_value(e, "setter"@))
        &&& self.final_ == flag_of(slot_value(e, "final_"@))
        &&& self.structural == flag_of(slot_value(e, "structural"@))
        &&& self.js_name == lit_of(slot_value(e, "js_name"@))
    }

    fn schema() -> (r: (Vec<OptionSpec>, Vec<(usize, usize)>))
        ensures
            r.0@ == field_schema(),
            r.1@ == field_conflicts(),
            schema_wf(r.0@, r.1@),
    {
        proof {
            reveal_strlit("getter");
            reveal_strlit("setter");
            reveal_strlit("final_");
            reveal_strlit("structural");
            reveal_strlit("js_name");
        }
        proof {
            assert("getter"@[0] != "setter"@[0]);
            assert("getter"@[0] != "final_"@[0]);
            assert("getter"@.len() != "structural"@.len());
            assert("getter"@.len() != "js_name"@.len());
            assert("setter"@[0] != "final_"@[0]);
            assert("setter"@.len() != "structural"@.len());
            assert("setter"@.len() != "js_name"@.len());
            assert("final_"@.len() != "structural"@.len());
            assert("final_"@.len() != "js_name"@.len());
            assert("structural"@.len() != "js_name"@.len());
        }
        let schema = vec![
            OptionSpec { name: "getter", kind: OptKind::Flag },
            OptionSpec { name: "setter", kind: OptKind::Flag },
            OptionSpec { name: "final_", kind: OptKind::Flag },
            OptionSpec { name: "structural", kind: OptKind::Flag },
            OptionSpec { name: "js_name", kind: OptKind::Lit },
        ];
        let conflicts: Vec<(usize, usize)> = vec![];
        assert(schema@ =~= field_schema());
        assert(conflicts@ =~= field_conflicts());
        assert forall|i: int, k: int| 0 <= i < k < schema@.len() implies schema@[i].name@
            != schema@[k].name@ by {
            assert(i == 0 || i == 1 || i == 2 || i == 3 || i == 4);
            assert(k == 0 || k == 1 || k == 2 || k == 3 || k == 4);
        }
        (schema, conflicts)
    }

    /// Takes the `opts(...)` markers out of `attrs` and resolves them.
    pub fn remove_attributes(attrs: &mut Vec<Attr>) -> (r: Result<FieldAttributes, ModelError>)
        ensures
            final(attrs)@ == other_attrs(old(attrs)@),
            match r {
                Ok(a) => options_valid(opts_entries(old(attrs)@), field_schema(), field_conflicts())
                    && a.resolved_from(opts_entries(old(attrs)@)),
                Err(e) => !options_valid(opts_entries(old(attrs)@), field_schema(), field_conflicts())
                    && error_explains(e, opts_entries(old(attrs)@), field_schema(), field_conflicts()),
            },
    {
        let entries = take_opts_entries(attrs);
        let (schema, conflicts) = Self::schema();
        let mut slots = match resolve_options(entries, &schema, &conflicts) {
            Ok(slots) => slots,
            Err(e) => return Err(e),
        };
        let js_name = take_lit(&mut slots);
        let structural = take_flag(&mut slots);
        let final_ = take_flag(&mut slots);
        let setter = take_flag(&mut slots);
        let getter = take_flag(&mut slots);
        Ok(FieldAttributes { getter, setter, final_, structural, js_name })
    }
}

/// Options of a method collection, shared by its methods.
#[derive(Debug, PartialEq, Eq)]
pub struct ImplAttributes {
    pub dbg: bool,
    pub final_: bool,
    pub js_name: Option<Lit>,
    pub js_namespace: Vec<Lit>,
    pub module: Option<Lit>,
    pub raw_module: Option<Lit>,
}

pub open spec fn impl_schema() -> Seq<OptionSpec> {
    seq![
        OptionSpec { name: "dbg", kind: OptKind::Flag },
        OptionSpec { name: "final_", kind: OptKind::Flag },
        OptionSpec { name: "js_name", kind: OptKind::Lit },
        OptionSpec { name: "js_namespace", kind: OptKind::List },
        OptionSpec { name: "module", kind: OptKind::Lit },
        OptionSpec { name: "raw_module", kind: OptKind::Lit },
    ]
}

pub open spec fn impl_conflicts() -> Seq<(usize, usize)> {
    seq![(4usize, 5usize)]
}

impl ImplAttributes {
    /// Each option holds what the entries give for it.
    pub open spec fn resolved_from(self, e: Seq<OptEntry>) -> bool {
        &&& self.dbg == flag_of(slot_value(e, "dbg"@))
        &&& self.final_ == flag_of(slot_value(e, "final_"@))
        &&& self.js_name == lit_of(slot_value(e, "js_name"@))
        &&& self.js_namespace@ == list_of(slot_value(e, "js_namespace"@))
        &&& self.module == lit_of(slot_value(e, "module"@))
        &&& self.raw_module == lit_of(slot_value(e, "raw_module"@))
    }

    fn schema() -> (r: (Vec<OptionSpec>, Vec<(usize, usize)>))
        ensures
            r.0@ == impl_schema(),
            r.1@ == impl_conflicts(),
            schema_wf(r.0@, r.1@),
    {
        proof {
            reveal_strlit("dbg");
            reveal_strlit("final_");
            reveal_strlit("js_name");
            reveal_strlit("js_namespace");
            reveal_strlit("module");
            reveal_strlit("raw_module");
        }
        proof {
            assert("dbg"@.len() != "final_"@.len());
            assert("dbg"@.len() != "js_name"@.len());
            assert("dbg"@.len() != "js_namespace"@.len());
            assert("dbg"@.len() != "module"@.len());
            assert("dbg"@.len() != "raw_module"@.len());
            assert("final_"@.len() != "js_name"@.len());
            assert("final_"@.len() != "js_namespace"@.len());
            assert("final_"@[0] != "module"@[0]);
            assert("final_"@.len() != "raw_module"@.len());
            assert("js_name"@.len() != "js_namespace"@.len());
            assert("js_name"@.len() != "module"@.len());
            assert("js_name"@.len() != "raw_module"@.len());
            assert("js_namespace"@.len() != "module"@.len());
            assert("js_namespace"@.len() != "raw_module"@.len());
            assert("module"@.len() != "raw_module"@.len());
        }
        let schema = vec![
            OptionSpec { name: "dbg", kind: OptKind::Flag },
            OptionSpec { name: "final_", kind: OptKind::Flag },
            OptionSpec { name: "js_name", kind: OptKind::Lit },
            OptionSpec { name: "js_namespace", kind: OptKind::List },
            OptionSpec { name: "module", kind: OptKind::Lit },
            OptionSpec { name: "raw_module", kind: OptKind::Lit },
        ];
        let conflicts: Vec<(usize, usize)> = vec![(4, 5)];
        assert(schema@ =~= impl_schema());
        assert(conflicts@ =~= impl_conflicts());
        assert forall|i: int, k: int| 0 <= i < k < schema@.len() implies schema@[i].name@
            != schema@[k].name@ by {
            assert(i == 0 || i == 1 || i == 2 || i == 3 || i == 4 || i == 5);
            assert(k == 0 || k == 1 || k == 2 || k == 3 || k == 4 || k == 5);
        }
        (schema, conflicts)
    }

    /// Takes the `opts(...)` markers out of `attrs` and resolves them.
    pub fn remove_attributes(attrs: &mut Vec<Attr>) -> (r: Result<ImplAttributes, ModelError>)
        ensures
            final(attrs)@ == other_attrs(old(attrs)@),
            match r {
                Ok(a) => options_valid(opts_entries(old(attrs)@), impl_schema(), impl_conflicts())
                    && a.resolved_from(opts_entries(old(attrs)@)),
                Err(e) => !options_valid(opts_entries(old(attrs)@), impl_schema(), impl_conflicts())
                    && error_explains(e, opts_entries(old(attrs)@), impl_schema(), impl_conflicts()),
            },
    {
        let entries = take_opts_entries(attrs);
        let (schema, conflicts) = Self::schema();
        let mut slots = match resolve_options(entries, &schema, &conflicts) {
            Ok(slots) => slots,
            Err(e) => return Err(e),
        };
        let raw_module = take_lit(&mut slots);
        let module = take_lit(&mut slots);
        let js_namespace = take_list(&mut slots);
        let js_name = take_lit(&mut slots);
        let final_ = take_flag(&mut slots);
        let dbg = take_flag(&mut slots);
        Ok(ImplAttributes { dbg, final_, js_name, js_namespace, module, raw_module })
    }
}

/// Options of a method.
#[derive(Debug, PartialEq, Eq)]
pub struct MethodAttributes {
    pub pub_: bool,
    pub constructor: bool,
    pub final_: bool,
    pub getter: bool,
    pub setter: bool,
    pub structural: bool,
    pub indexing_getter: bool,
    pub indexing_setter: bool,
    pub indexing_deleter: bool,
    pub js_name: Option<Lit>,
    pub variadic: bool,
}

pub open spec fn method_schema() -> Seq<OptionSpec> {
    seq![
        OptionSpec { name: "pub_", kind: OptKind::Flag },
        OptionSpec { name: "constructor", kind: OptKind::Flag },
        OptionSpec { name: "final_", kind: OptKind::Flag },
        OptionSpec { name: "getter", kind: OptKind::Flag },
        OptionSpec { name: "setter", kind: OptKind::Flag },
        OptionSpec { name: "structural", kind: OptKind::Flag },
        OptionSpec { name: "indexing_getter", kind: OptKind::Flag },
        OptionSpec { name: "indexing_setter", kind: OptKind::Flag },
        OptionSpec { name: "indexing_deleter", kind: OptKind::Flag },
        OptionSpec { name: "js_name", kind: OptKind::Lit },
        OptionSpec { name: "variadic", kind: OptKind::Flag },
    ]
}

pub open spec fn method_conflicts() -> Seq<(usize, usize)> {
    seq![]
}

impl MethodAttributes {
    /// Each option holds what the entries give for it.
    pub open spec fn resolved_from(self, e: Seq<OptEntry>) -> bool {
        &&& self.pub_ == flag_of(slot_value(e, "pub_"@))
        &&& self.constructor == flag_of(slot_value(e, "constructor"@))
        &&& self.final_ == flag_of(slot_value(e, "final_"@))
        &&& self.getter == flag_of(slot_value(e, "getter"@))
        &&& self.setter == flag_of(slot_value(e, "setter"@))
        &&& self.structural == flag_of(slot_value(e, "structural"@))
        &&& self.indexing_getter == flag_of(slot_value(e, "indexing_getter"@))
        &&& self.indexing_setter == flag_of(slot_value(e, "indexing_setter"@))
        &&& self.indexing_deleter == flag_of(slot_value(e, "indexing_deleter"@))
        &&& self.js_name == lit_of(slot_value(e, "js_name"@))
        &&& self.variadic == flag_of(slot_value(e, "variadic"@))
    }

    fn schema() -> (r: (Vec<OptionSpec>, Vec<(usize, usize)>))
        ensures
            r.0@ == method_schema(),
            r.1@ == method_conflicts(),
            schema_wf(r.0@, r.1@),
    {
        proof {
            reveal_strlit("pub_");
            reveal_strlit("constructor");
            reveal_strlit("final_");
            reveal_strlit("getter");
            reveal_strlit("setter");
            reveal_strlit("structural");
            reveal_strlit("indexing_getter");
            reveal_strlit("indexing_setter");
            reveal_strlit("indexing_deleter");
            reveal_strlit("js_name");
            reveal_strlit("variadic");
        }
        proof {
            assert("pub_"@.len() != "constructor"@.len());
            assert("pub_"@.len() != "final_"@.len());
            assert("pub_"@.len() != "getter"@.len());
            assert("pub_"@.len() != "setter"@.len());
            assert("pub_"@.len() != "structural"@.len());
            assert("pub_"@.len() != "indexing_getter"@.len());
            assert("pub_"@.len() != "indexing_setter"@.len());
            assert("pub_"@.len() != "indexing_deleter"@.len());
            assert("pub_"@.len() != "js_name"@.len());
            assert("pub_"@.len() != "variadic"@.len());
            assert("constructor"@.len() != "final_"@.len());
            assert("constructor"@.len() != "getter"@.len());
            assert("constructor"@.len() != "setter"@.len());
            assert("constructor"@.len() != "structural"@.len());
            assert("constructor"@.len() != "indexing_getter"@.len());
            assert("constructor"@.len() != "indexing_setter"@.len());
            assert("constructor"@.len() != "indexing_deleter"@.len());
            assert("constructor"@.len() != "js_name"@.len());
            assert("constructor"@.len() != "variadic"@.len());
            assert("final_"@[0] != "getter"@[0]);
            assert("final_"@[0] != "setter"@[0]);
            assert("final_"@.len() != "structural"@.len());
            assert("final_"@.len() != "indexing_getter"@.len());
            assert("final_"@.len() != "indexing_setter"@.len());
            assert("final_"@.len() != "indexing_deleter"@.len());
            assert("final_"@.len() != "js_name"@.len());
            assert("final_"@.len() != "variadic"@.len());
            assert("getter"@[0] != "setter"@[0]);
            assert("getter"@.len() != "structural"@.len());
            assert("getter"@.len() != "indexing_getter"@.len());
            assert("getter"@.len() != "indexing_setter"@.len());
            assert("getter"@.len() != "indexing_deleter"@.len());
            assert("getter"@.len() != "js_name"@.len());
            assert("getter"@.len() != "variadic"@.len());
            assert("setter"@.len() != "structural"@.len());
            assert("setter"@.len() != "indexing_getter"@.len());
            assert("setter"@.len() != "indexing_setter"@.len());
            assert("setter"@.len() != "indexing_deleter"@.len());
            assert("setter"@.len() != "js_name"@.len());
            assert("setter"@.len() != "variadic"@.len());
            assert("structural"@.len() != "indexing_getter"@.len());
            assert("structural"@.len() != "indexing_setter"@.len());
            assert("structural"@.len() != "indexing_deleter"@.len());
            assert("structural"@.len() != "js_name"@.len());
            assert("structural"@.len() != "variadic"@.len());
            assert("indexing_getter"@[9] != "indexing_setter"@[9]);
            assert("indexing_getter"@.len() != "indexing_deleter"@.len());
            assert("indexing_getter"@.len() != "js_name"@.len());
            assert("indexing_getter"@.len() != "variadic"@.len());
            assert("indexing_setter"@.len() != "indexing_deleter"@.len());
            assert("indexing_setter"@.len() != "js_name"@.len());
            assert("indexing_setter"@.len() != "variadic"@.len());
            assert("indexing_deleter"@.len() != "js_name"@.len());
            assert("indexing_deleter"@.len() != "variadic"@.len());
            assert("js_name"@.len() != "variadic"@.len());
        }
        let schema = vec![
            OptionSpec { name: "pub_", kind: OptKind::Flag },
            OptionSpec { name: "constructor", kind: OptKind::Flag },
            OptionSpec { name: "final_", kind: OptKind::Flag },
            OptionSpec { name: "getter", kind: OptKind::Flag },
            OptionSpec { name: "setter", kind: OptKind::Flag },
            OptionSpec { name: "structural", kind: OptKind::Flag },
            OptionSpec { name: "indexing_getter", kind: OptKind::Flag },
            OptionSpec { name: "indexing_setter", kind: OptKind::Flag },
            OptionSpec { name: "indexing_deleter", kind: OptKind::Flag },
            OptionSpec { name: "js_name", kind: OptKind::Lit },
            OptionSpec { name: "variadic", kind: OptKind::Flag },
        ];
        let conflicts: Vec<(usize, usize)> = vec![];
        assert(schema@ =~= method_schema());
        assert(conflicts@ =~= method_conflicts());
        assert forall|i: int, k: int| 0 <= i < k < schema@.len() implies schema@[i].name@
            != schema@[k].name@ by {
            assert(i == 0 || i == 1 || i == 2 || i == 3 || i == 4 || i == 5 || i == 6 || i == 7 || i == 8 || i == 9 || i == 10);
            assert(k == 0 || k == 1 || k == 2 || k == 3 || k == 4 || k == 5 || k == 6 || k == 7 || k == 8 || k == 9 || k == 10);
        }
        (schema, conflicts)
    }

    /// Takes the `opts(...)` markers out of `attrs` and resolves them.
    pub fn remove_attributes(attrs: &mut Vec<Attr>) -> (r: Result<MethodAttributes, ModelError>)
        ensures
            final(attrs)@ == other_attrs(old(attrs)@),
            match r {
                Ok(a) => options_valid(opts_entries(old(attrs)@), method_schema(), method_conflicts())
                    && a.resolved_from(opts_entries(old(attrs)@)),
                Err(e) => !options_valid(opts_entries(old(attrs)@), method_schema(), method_conflicts())
                    && error_explains(e, opts_entries(old(attrs)@), method_schema(), method_conflicts()),
            },
    {
        let entries = take_opts_entries(attrs);
        let (schema, conflicts) = Self::schema();
        let mut slots = match resolve_options(entries, &schema, &conflicts) {
            Ok(slots) => slots,
            Err(e) => return Err(e),
        };
        let variadic = take_flag(&mut slots);
        let js_name = take_lit(&mut slots);
        let indexing_deleter = take_flag(&mut slots);
        let indexing_setter = take_flag(&mut slots);
        let indexing_getter = take_flag(&mut slots);
        let structural = take_flag(&mut slots);
        let setter = take_flag(&mut slots);
        let getter = take_flag(&mut slots);
        let final_ = take_flag(&mut slots);
        let constructor = take_flag(&mut slots);
        let pub_ = take_flag(&mut slots);
        Ok(MethodAttributes { pub_, constructor, final_, getter, setter, structural, indexing_getter, indexing_setter, indexing_deleter, js_name, variadic })
    }
}

/// What is left after the `opts(...)` markers are taken out is plain
/// source text.
pub proof fn lemma_other_attrs_plain(attrs: Seq<Attr>)
    ensures
        all_other(other_attrs(attrs)),
    decreases attrs.len(),
{
    if attrs.len() > 0 {
        lemma_other_attrs_plain(attrs.drop_last());
    }
}

} // verus!
