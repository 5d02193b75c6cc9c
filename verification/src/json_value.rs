//! An owned JSON value tree, together with its mathematical model.
//!
//! Objects keep their entries in insertion order with unique keys; optional
//! parameters of the query builders are patched in through
//! [`JsonValue::add_if_it_was_set`], the single mechanism by which an absent
//! option leaves no trace in the rendered output.

use vstd::prelude::*;

verus! {

/// An owned JSON value as the builders produce it.
///
/// Only the shapes the query language needs are representable: booleans,
/// non-negative integers, strings, arrays and objects. There is no null:
/// an unset optional parameter is omitted entirely, never rendered as null.
pub enum JsonValue {
    Bool(bool),
    UInt(u64),
    Str(String),
    Arr(Vec<JsonValue>),
    Obj(Vec<(String, JsonValue)>),
}

/// The mathematical model of a [`JsonValue`]: the same tree over `Seq`.
pub enum JsonModel {
    Bool(bool),
    UInt(u64),
    Str(Seq<char>),
    Arr(Seq<JsonModel>),
    Obj(Seq<(Seq<char>, JsonModel)>),
}

/// The model of one executable JSON value.
pub open spec fn model_of(v: JsonValue) -> JsonModel
    decreases v,
{
    match v {
        JsonValue::Bool(b) => JsonModel::Bool(b),
        JsonValue::UInt(n) => JsonModel::UInt(n),
        JsonValue::Str(s) => JsonModel::Str(s@),
        JsonValue::Arr(items) => JsonModel::Arr(models_of(items@)),
        JsonValue::Obj(entries) => JsonModel::Obj(entry_models_of(entries@)),
    }
}

/// The models of a sequence of values, in order.
pub open spec fn models_of(items: Seq<JsonValue>) -> Seq<JsonModel>
    decreases items,
{
    if items.len() == 0 {
        Seq::empty()
    } else {
        models_of(items.drop_last()).push(model_of(items.last()))
    }
}

/// The models of a sequence of object entries, in order.
pub open spec fn entry_models_of(entries: Seq<(String, JsonValue)>) -> Seq<(Seq<char>, JsonModel)>
    decreases entries,
{
    if entries.len() == 0 {
        Seq::empty()
    } else {
        entry_models_of(entries.drop_last()).push(
            (entries.last().0@, model_of(entries.last().1)),
        )
    }
}

impl View for JsonValue {
    type V = JsonModel;

    open spec fn view(&self) -> JsonModel {
        model_of(*self)
    }
}

/// Whether an entry sequence of an object model holds the given key.
pub open spec fn has_key(entries: Seq<(Seq<char>, JsonModel)>, key: Seq<char>) -> bool {
    exists|i: int| 0 <= i < entries.len() && entries[i].0 == key
}

/// The entry sequence after setting `key` to `m`: the first entry under `key`
/// is replaced in place, and a fresh key is appended at the end.
pub open spec fn obj_set(
    entries: Seq<(Seq<char>, JsonModel)>,
    key: Seq<char>,
    m: JsonModel,
) -> Seq<(Seq<char>, JsonModel)>
    decreases entries,
{
    if entries.len() == 0 {
        seq![(key, m)]
    } else if entries.first().0 == key {
        seq![(key, m)] + entries.drop_first()
    } else {
        seq![entries.first()] + obj_set(entries.drop_first(), key, m)
    }
}

/// A value that knows its JSON rendering; every settable parameter type of
/// the query builders implements it, so that the one patch mechanism
/// ([`JsonValue::add_if_it_was_set`]) serves them all uniformly.
pub trait ToJsonValue: Sized {
    /// The JSON model this value renders to.
    spec fn json_model(&self) -> JsonModel;

    /// Render this value as JSON.
    fn to_json_value(&self) -> (r: JsonValue)
        ensures
            r@ == self.json_model(),
    ;
}

impl ToJsonValue for bool {
    open spec fn json_model(&self) -> JsonModel {
        JsonModel::Bool(*self)
    }

    fn to_json_value(&self) -> (r: JsonValue) {
        JsonValue::Bool(*self)
    }
}

impl ToJsonValue for u32 {
    open spec fn json_model(&self) -> JsonModel {
        JsonModel::UInt(*self as u64)
    }

    fn to_json_value(&self) -> (r: JsonValue) {
        JsonValue::UInt(*self as u64)
    }
}

impl ToJsonValue for u64 {
    open spec fn json_model(&self) -> JsonModel {
        JsonModel::UInt(*self)
    }

    fn to_json_value(&self) -> (r: JsonValue) {
        JsonValue::UInt(*self)
    }
}

impl ToJsonValue for String {
    open spec fn json_model(&self) -> JsonModel {
        JsonModel::Str(self@)
    }

    fn to_json_value(&self) -> (r: JsonValue) {
        JsonValue::Str(self.clone())
    }
}

impl ToJsonValue for Vec<String> {
    open spec fn json_model(&self) -> JsonModel {
        JsonModel::Arr(Seq::new(self@.len(), |i: int| JsonModel::Str(self@[i]@)))
    }

    fn to_json_value(&self) -> (r: JsonValue) {
        let mut items: Vec<JsonValue> = Vec::new();
        let mut i: usize = 0;
        while i < self.len()
            invariant
                i <= self@.len(),
                models_of(items@) =~= Seq::new(i as nat, |j: int| JsonModel::Str(self@[j]@)),
            decreases self@.len() - i,
        {
            let item = self[i].clone();
            let ghost pre = items@;
            items.push(JsonValue::Str(item));
            proof {
                assert(items@ == pre.push(JsonValue::Str(item)));
                assert(items@.drop_last() =~= pre);
                assert(items@.last() == JsonValue::Str(item));
                assert(item@ == self@[i as int]@);
                assert(models_of(items@) == models_of(items@.drop_last()).push(
                    model_of(items@.last()),
                ));
                assert(models_of(items@) == models_of(pre).push(JsonModel::Str(self@[i as int]@)));
                assert(models_of(items@) =~= Seq::new(
                    (i + 1) as nat,
                    |j: int| JsonModel::Str(self@[j]@),
                ));
            }
            i += 1;
        }
        JsonValue::Arr(items)
    }
}

impl JsonValue {
    /// Set `self[field_name] = value` on a JSON object: the first entry under
    /// the key is replaced, a fresh key is appended at the end.
    pub fn set_entry(&mut self, field_name: &str, value: JsonValue)
        requires
            old(self)@ is Obj,
        ensures
            final(self)@ == (JsonModel::Obj(obj_set(old(self)@->Obj_0, field_name@, value@))),
    {
        let mut current = JsonValue::Bool(false);
        core::mem::swap(self, &mut current);
        match current {
            JsonValue::Obj(mut entries) => {
                let ghost orig = entries@;
                let key: String = field_name.to_owned();
                let mut i: usize = 0;
                let mut found: bool = false;
                while i < entries.len() && !found
                    invariant
                        entries@ == orig,
                        key@ == field_name@,
                        i <= entries@.len(),
                        !found ==> forall|j: int| 0 <= j < i ==> orig[j].0@ != field_name@,
                        found ==> 1 <= i <= entries@.len() && orig[i - 1].0@ == field_name@
                            && (forall|j: int| 0 <= j < i - 1 ==> orig[j].0@ != field_name@),
                    decreases entries@.len() - i,
                {
                    if entries[i].0 == key {
                        found = true;
                    }
                    i += 1;
                }
                proof {
                    lemma_entry_models_of(orig);
                }
                if found {
                    let ghost p = i - 1;
                    entries[i - 1] = (key, value);
                    proof {
                        lemma_entry_models_of(entries@);
                        lemma_obj_set_replaces(
                            entry_models_of(orig),
                            field_name@,
                            model_of(value),
                            p,
                        );
                        assert(entry_models_of(entries@) =~= entry_models_of(orig).update(
                            p,
                            (field_name@, model_of(value)),
                        ));
                    }
                } else {
                    let ghost m = model_of(value);
                    entries.push((key, value));
                    proof {
                        lemma_entry_models_of(entries@);
                        lemma_obj_set_appends(entry_models_of(orig), field_name@, m);
                        assert(entry_models_of(entries@) =~= entry_models_of(orig).push(
                            (field_name@, m),
                        ));
                    }
                }
                *self = JsonValue::Obj(entries);
            },
            _ => {
                *self = vstd::pervasive::unreached();
            },
        }
    }

    /// Set `self[field_name]` to the rendering of the optional value if and
    /// only if one was set; an unset option leaves the object untouched, so
    /// its key never appears in the output.
    pub fn add_if_it_was_set<T: ToJsonValue>(&mut self, field_name: &str, value_option: &Option<T>)
        requires
            old(self)@ is Obj,
        ensures
            (match value_option {
                Option::Some(v) => final(self)@ == (JsonModel::Obj(
                    obj_set(old(self)@->Obj_0, field_name@, v.json_model()),
                )),
                Option::None => *final(self) == *old(self),
            }),
    {
        match value_option {
            Option::Some(value) => {
                self.set_entry(field_name, value.to_json_value());
            },
            Option::None => (),
        }
    }
}

/// The model entries mirror the executable entries index by index.
pub proof fn lemma_entry_models_of(es: Seq<(String, JsonValue)>)
    ensures
        entry_models_of(es).len() == es.len(),
        forall|i: int| 0 <= i < es.len() ==> entry_models_of(es)[i] == ((es[i].0@, model_of(
            es[i].1,
        ))),
    decreases es.len(),
{
    if es.len() > 0 {
        lemma_entry_models_of(es.drop_last());
    }
}

/// The models mirror the executable items index by index.
pub proof fn lemma_models_of(items: Seq<JsonValue>)
    ensures
        models_of(items).len() == items.len(),
        forall|i: int| 0 <= i < items.len() ==> models_of(items)[i] == model_of(items[i]),
    decreases items.len(),
{
    if items.len() > 0 {
        lemma_models_of(items.drop_last());
    }
}

/// Setting a key that already occurs, first at position `p`, replaces the
/// entry at `p` and leaves every other entry as it was.
proof fn lemma_obj_set_replaces(ms: Seq<(Seq<char>, JsonModel)>, key: Seq<char>, m: JsonModel, p: int)
    requires
        0 <= p < ms.len(),
        ms[p].0 == key,
        forall|j: int| 0 <= j < p ==> ms[j].0 != key,
    ensures
        obj_set(ms, key, m) =~= ms.update(p, (key, m)),
    decreases p,
{
    if p == 0 {
        assert(ms.first().0 == key);
    } else {
        lemma_obj_set_replaces(ms.drop_first(), key, m, p - 1);
    }
}

/// The rendered entries an optional parameter contributes: exactly one under
/// its key when set, none at all when unset.
pub open spec fn opt_entry<T: ToJsonValue>(key: Seq<char>, o: Option<T>) -> Seq<
    (Seq<char>, JsonModel),
> {
    match o {
        Option::Some(v) => seq![(key, v.json_model())],
        Option::None => Seq::empty(),
    }
}

/// Patching an optional parameter under a fresh key appends exactly its
/// [`opt_entry`] contribution.
pub proof fn lemma_patch_fresh<T: ToJsonValue>(
    acc: Seq<(Seq<char>, JsonModel)>,
    key: Seq<char>,
    o: Option<T>,
)
    requires
        forall|l: int| 0 <= l < acc.len() ==> acc[l].0 != key,
    ensures
        (match o {
            Option::Some(v) => obj_set(acc, key, v.json_model()),
            Option::None => acc,
        }) == acc + opt_entry(key, o),
{
    match o {
        Option::Some(v) => {
            lemma_obj_set_appends(acc, key, v.json_model());
            assert(acc.push((key, v.json_model())) =~= acc + opt_entry(key, o));
        },
        Option::None => {
            assert(acc =~= acc + opt_entry(key, o));
        },
    }
}

/// Appending an optional parameter under a fresh key keeps the entry keys
/// pairwise distinct.
pub proof fn lemma_opt_entry_unique<T: ToJsonValue>(
    es: Seq<(Seq<char>, JsonModel)>,
    key: Seq<char>,
    o: Option<T>,
)
    requires
        forall|l: int| 0 <= l < es.len() ==> es[l].0 != key,
        forall|l1: int, l2: int| 0 <= l1 < l2 < es.len() ==> es[l1].0 != es[l2].0,
    ensures
        forall|l1: int, l2: int|
            0 <= l1 < l2 < (es + opt_entry(key, o)).len() ==> (es + opt_entry(key, o))[l1].0 != (es
                + opt_entry(key, o))[l2].0,
{
}

/// Setting a key that does not occur appends the entry at the end.
proof fn lemma_obj_set_appends(ms: Seq<(Seq<char>, JsonModel)>, key: Seq<char>, m: JsonModel)
    requires
        forall|j: int| 0 <= j < ms.len() ==> ms[j].0 != key,
    ensures
        obj_set(ms, key, m) =~= ms.push((key, m)),
    decreases ms.len(),
{
    if ms.len() > 0 {
        lemma_obj_set_appends(ms.drop_first(), key, m);
    }
}

} // verus!
