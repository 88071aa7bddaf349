//! The generic tagged value: the wire representation of every column value,
//! and the JSON-like tree that semi-structured columns are carried as.
//!
//! Both trees have a mathematical model (`ValModel`, `JsonModel`); the
//! conversions between them are specified as pure functions on the models and
//! proved to be mutually inverse.
//!
//! Numbers are modeled as 64-bit integers: the transport's double
//! representation holds them exactly within the bound checked by the codec, so
//! the integer payload is the part of a wire number this logic reads.

use vstd::prelude::*;

verus! {

/// Model of a JSON-like tree: what a semi-structured column value holds.
#[verifier::ext_equal]
pub enum JsonModel {
    Null,
    Bool(bool),
    Num(int),
    Str(Seq<char>),
    Arr(Seq<JsonModel>),
    Obj(Seq<(Seq<char>, JsonModel)>),
}

/// Model of a generic tagged value: the wire form of any column value.
#[verifier::ext_equal]
pub enum ValModel {
    Null,
    Bool(bool),
    Num(int),
    Str(Seq<char>),
    List(Seq<ValModel>),
    Struct(Seq<(Seq<char>, ValModel)>),
}

/// What a JSON tree becomes on the wire: each JSON case maps one-to-one onto
/// a generic value case, field order and keys kept.
pub open spec fn json_to_val(j: JsonModel) -> ValModel
    decreases j,
{
    match j {
        JsonModel::Null => ValModel::Null,
        JsonModel::Bool(b) => ValModel::Bool(b),
        JsonModel::Num(n) => ValModel::Num(n),
        JsonModel::Str(s) => ValModel::Str(s),
        JsonModel::Arr(items) => ValModel::List(json_items_to_val(items)),
        JsonModel::Obj(fields) => ValModel::Struct(json_fields_to_val(fields)),
    }
}

pub open spec fn json_items_to_val(items: Seq<JsonModel>) -> Seq<ValModel>
    decreases items,
{
    if items.len() == 0 {
        Seq::empty()
    } else {
        seq![json_to_val(items[0])] + json_items_to_val(items.subrange(1, items.len() as int))
    }
}

pub open spec fn json_fields_to_val(fields: Seq<(Seq<char>, JsonModel)>) -> Seq<
    (Seq<char>, ValModel),
>
    decreases fields,
{
    if fields.len() == 0 {
        Seq::empty()
    } else {
        seq![(fields[0].0, json_to_val(fields[0].1))] + json_fields_to_val(
            fields.subrange(1, fields.len() as int),
        )
    }
}

/// What a generic value reads back as when a row is materialised: the exact
/// inverse mapping of [`json_to_val`].
pub open spec fn val_to_json(v: ValModel) -> JsonModel
    decreases v,
{
    match v {
        ValModel::Null => JsonModel::Null,
        ValModel::Bool(b) => JsonModel::Bool(b),
        ValModel::Num(n) => JsonModel::Num(n),
        ValModel::Str(s) => JsonModel::Str(s),
        ValModel::List(items) => JsonModel::Arr(val_items_to_json(items)),
        ValModel::Struct(fields) => JsonModel::Obj(val_fields_to_json(fields)),
    }
}

pub open spec fn val_items_to_json(items: Seq<ValModel>) -> Seq<JsonModel>
    decreases items,
{
    if items.len() == 0 {
        Seq::empty()
    } else {
        seq![val_to_json(items[0])] + val_items_to_json(items.subrange(1, items.len() as int))
    }
}

pub open spec fn val_fields_to_json(fields: Seq<(Seq<char>, ValModel)>) -> Seq<
    (Seq<char>, JsonModel),
>
    decreases fields,
{
    if fields.len() == 0 {
        Seq::empty()
    } else {
        seq![(fields[0].0, val_to_json(fields[0].1))] + val_fields_to_json(
            fields.subrange(1, fields.len() as int),
        )
    }
}

/// The item mapping acts elementwise.
pub proof fn lemma_json_items_to_val(items: Seq<JsonModel>)
    ensures
        json_items_to_val(items).len() == items.len(),
        forall|i: int|
            0 <= i < items.len() ==> #[trigger] json_items_to_val(items)[i] == json_to_val(
                items[i],
            ),
    decreases items.len(),
{
    if items.len() > 0 {
        lemma_json_items_to_val(items.subrange(1, items.len() as int));
    }
}

/// The field mapping acts elementwise and keeps every key.
pub proof fn lemma_json_fields_to_val(fields: Seq<(Seq<char>, JsonModel)>)
    ensures
        json_fields_to_val(fields).len() == fields.len(),
        forall|i: int|
            0 <= i < fields.len() ==> #[trigger] json_fields_to_val(fields)[i] == (
                fields[i].0,
                json_to_val(fields[i].1),
            ),
    decreases fields.len(),
{
    if fields.len() > 0 {
        lemma_json_fields_to_val(fields.subrange(1, fields.len() as int));
    }
}

/// The item mapping acts elementwise.
pub proof fn lemma_val_items_to_json(items: Seq<ValModel>)
    ensures
        val_items_to_json(items).len() == items.len(),
        forall|i: int|
            0 <= i < items.len() ==> #[trigger] val_items_to_json(items)[i] == val_to_json(
                items[i],
            ),
    decreases items.len(),
{
    if items.len() > 0 {
        lemma_val_items_to_json(items.subrange(1, items.len() as int));
    }
}

/// The field mapping acts elementwise and keeps every key.
pub proof fn lemma_val_fields_to_json(fields: Seq<(Seq<char>, ValModel)>)
    ensures
        val_fields_to_json(fields).len() == fields.len(),
        forall|i: int|
            0 <= i < fields.len() ==> #[trigger] val_fields_to_json(fields)[i] == (
                fields[i].0,
                val_to_json(fields[i].1),
            ),
    decreases fields.len(),
{
    if fields.len() > 0 {
        lemma_val_fields_to_json(fields.subrange(1, fields.len() as int));
    }
}

/// Law: a generic value tree survives the trip through the JSON form
/// unchanged — re-expanding a value into JSON and mapping it back onto the
/// wire gives the very tree that was started from, keys and order included.
pub proof fn lemma_val_round_trip(v: ValModel)
    ensures
        json_to_val(val_to_json(v)) == v,
    decreases v,
{
    match v {
        ValModel::List(items) => {
            lemma_val_items_to_json(items);
            lemma_json_items_to_val(val_items_to_json(items));
            assert forall|i: int| 0 <= i < items.len() implies #[trigger] json_items_to_val(
                val_items_to_json(items),
            )[i] == items[i] by {
                lemma_val_round_trip(items[i]);
            }
            assert(json_items_to_val(val_items_to_json(items)) =~= items);
        }
        ValModel::Struct(fields) => {
            lemma_val_fields_to_json(fields);
            lemma_json_fields_to_val(val_fields_to_json(fields));
            assert forall|i: int| 0 <= i < fields.len() implies #[trigger] json_fields_to_val(
                val_fields_to_json(fields),
            )[i] == fields[i] by {
                lemma_val_round_trip(fields[i].1);
                assert(json_fields_to_val(val_fields_to_json(fields))[i] =~= fields[i]);
            }
            assert(json_fields_to_val(val_fields_to_json(fields)) =~= fields);
        }
        _ => {}
    }
}

/// Law: a JSON tree survives the trip onto the wire and back unchanged.
pub proof fn lemma_json_round_trip(j: JsonModel)
    ensures
        val_to_json(json_to_val(j)) == j,
    decreases j,
{
    match j {
        JsonModel::Arr(items) => {
            lemma_json_items_to_val(items);
            lemma_val_items_to_json(json_items_to_val(items));
            assert forall|i: int| 0 <= i < items.len() implies #[trigger] val_items_to_json(
                json_items_to_val(items),
            )[i] == items[i] by {
                lemma_json_round_trip(items[i]);
            }
            assert(val_items_to_json(json_items_to_val(items)) =~= items);
        }
        JsonModel::Obj(fields) => {
            lemma_json_fields_to_val(fields);
            lemma_val_fields_to_json(json_fields_to_val(fields));
            assert forall|i: int| 0 <= i < fields.len() implies #[trigger] val_fields_to_json(
                json_fields_to_val(fields),
            )[i] == fields[i] by {
                lemma_json_round_trip(fields[i].1);
                assert(val_fields_to_json(json_fields_to_val(fields))[i] =~= fields[i]);
            }
            assert(val_fields_to_json(json_fields_to_val(fields)) =~= fields);
        }
        _ => {}
    }
}

/// A JSON-like tree: the native form of a semi-structured column value.
/// Object keys are unique; the key order carries no meaning.
#[derive(Debug, PartialEq, Eq)]
pub enum JsonData {
    Null,
    Bool(bool),
    Num(i64),
    Str(String),
    Array(Vec<JsonData>),
    Object(Vec<(String, JsonData)>),
}

/// The generic tagged value: exactly one case is populated, and every column
/// value crosses the wire as one of these. Struct keys are unique; the key
/// order carries no meaning.
#[derive(Debug, PartialEq, Eq)]
pub enum GenericValue {
    Null,
    Bool(bool),
    Number(i64),
    Text(String),
    List(Vec<GenericValue>),
    Struct(Vec<(String, GenericValue)>),
}

impl JsonData {
    pub open spec fn model(self) -> JsonModel
        decreases self,
    {
        match self {
            JsonData::Null => JsonModel::Null,
            JsonData::Bool(b) => JsonModel::Bool(b),
            JsonData::Num(n) => JsonModel::Num(n as int),
            JsonData::Str(s) => JsonModel::Str(s@),
            JsonData::Array(items) => JsonModel::Arr(Self::items_model(items@)),
            JsonData::Object(fields) => JsonModel::Obj(Self::fields_model(fields@)),
        }
    }

    pub open spec fn items_model(items: Seq<JsonData>) -> Seq<JsonModel>
        decreases items,
    {
        if items.len() == 0 {
            Seq::empty()
        } else {
            seq![items[0].model()] + Self::items_model(items.subrange(1, items.len() as int))
        }
    }

    pub open spec fn fields_model(fields: Seq<(String, JsonData)>) -> Seq<(Seq<char>, JsonModel)>
        decreases fields,
    {
        if fields.len() == 0 {
            Seq::empty()
        } else {
            seq![(fields[0].0@, fields[0].1.model())] + Self::fields_model(
                fields.subrange(1, fields.len() as int),
            )
        }
    }
}

impl GenericValue {
    pub open spec fn model(self) -> ValModel
        decreases self,
    {
        match self {
            GenericValue::Null => ValModel::Null,
            GenericValue::Bool(b) => ValModel::Bool(b),
            GenericValue::Number(n) => ValModel::Num(n as int),
            GenericValue::Text(s) => ValModel::Str(s@),
            GenericValue::List(items) => ValModel::List(Self::items_model(items@)),
            GenericValue::Struct(fields) => ValModel::Struct(Self::fields_model(fields@)),
        }
    }

    pub open spec fn items_model(items: Seq<GenericValue>) -> Seq<ValModel>
        decreases items,
    {
        if items.len() == 0 {
            Seq::empty()
        } else {
            seq![items[0].model()] + Self::items_model(items.subrange(1, items.len() as int))
        }
    }

    pub open spec fn fields_model(fields: Seq<(String, GenericValue)>) -> Seq<
        (Seq<char>, ValModel),
    >
        decreases fields,
    {
        if fields.len() == 0 {
            Seq::empty()
        } else {
            seq![(fields[0].0@, fields[0].1.model())] + Self::fields_model(
                fields.subrange(1, fields.len() as int),
            )
        }
    }
}

/// The item model acts elementwise.
pub proof fn lemma_json_items_model(items: Seq<JsonData>)
    ensures
        JsonData::items_model(items).len() == items.len(),
        forall|i: int|
            0 <= i < items.len() ==> #[trigger] JsonData::items_model(items)[i]
                == items[i].model(),
    decreases items.len(),
{
    if items.len() > 0 {
        lemma_json_items_model(items.subrange(1, items.len() as int));
    }
}

/// The field model acts elementwise and keeps every key.
pub proof fn lemma_json_fields_model(fields: Seq<(String, JsonData)>)
    ensures
        JsonData::fields_model(fields).len() == fields.len(),
        forall|i: int|
            0 <= i < fields.len() ==> #[trigger] JsonData::fields_model(fields)[i] == (
                fields[i].0@,
                fields[i].1.model(),
            ),
    decreases fields.len(),
{
    if fields.len() > 0 {
        lemma_json_fields_model(fields.subrange(1, fields.len() as int));
    }
}

/// The item model acts elementwise.
pub proof fn lemma_value_items_model(items: Seq<GenericValue>)
    ensures
        GenericValue::items_model(items).len() == items.len(),
        forall|i: int|
            0 <= i < items.len() ==> #[trigger] GenericValue::items_model(items)[i]
                == items[i].model(),
    decreases items.len(),
{
    if items.len() > 0 {
        lemma_value_items_model(items.subrange(1, items.len() as int));
    }
}

/// The field model acts elementwise and keeps every key.
pub proof fn lemma_value_fields_model(fields: Seq<(String, GenericValue)>)
    ensures
        GenericValue::fields_model(fields).len() == fields.len(),
        forall|i: int|
            0 <= i < fields.len() ==> #[trigger] GenericValue::fields_model(fields)[i] == (
                fields[i].0@,
                fields[i].1.model(),
            ),
    decreases fields.len(),
{
    if fields.len() > 0 {
        lemma_value_fields_model(fields.subrange(1, fields.len() as int));
    }
}

/// Maps a JSON tree onto its wire form: each JSON case becomes the matching
/// generic value case, with keys, order and every nested value kept.
#[verifier::loop_isolation(false)]
pub fn json_to_value(j: &JsonData) -> (r: GenericValue)
    ensures
        r.model() == json_to_val(j.model()),
    decreases *j,
{
    match j {
        JsonData::Null => GenericValue::Null,
        JsonData::Bool(b) => GenericValue::Bool(*b),
        JsonData::Num(n) => GenericValue::Number(*n),
        JsonData::Str(s) => GenericValue::Text(s.clone()),
        JsonData::Array(items) => {
            let mut out: Vec<GenericValue> = Vec::new();
            let mut i: usize = 0;
            while i < items.len()
                invariant
                    i <= items@.len(),
                    out@.len() == i as int,
                    forall|k: int|
                        0 <= k < i as int ==> #[trigger] out@[k].model() == json_to_val(
                            items@[k].model(),
                        ),
                decreases items@.len() - i as int,
            {
                let item = &items[i];
                proof {
                    assert(decreases_to!(*j => items@[i as int]));
                }
                out.push(json_to_value(item));
                i = i + 1;
            }
            proof {
                lemma_value_items_model(out@);
                lemma_json_items_model(items@);
                lemma_json_items_to_val(JsonData::items_model(items@));
                assert(GenericValue::items_model(out@) =~= json_items_to_val(
                    JsonData::items_model(items@),
                ));
            }
            GenericValue::List(out)
        }
        JsonData::Object(fields) => {
            let mut out: Vec<(String, GenericValue)> = Vec::new();
            let mut i: usize = 0;
            while i < fields.len()
                invariant
                    i <= fields@.len(),
                    out@.len() == i as int,
                    forall|k: int|
                        0 <= k < i as int ==> (#[trigger] out@[k]).0@ == fields@[k].0@
                            && out@[k].1.model() == json_to_val(fields@[k].1.model()),
                decreases fields@.len() - i as int,
            {
                let pair = &fields[i];
                proof {
                    assert(decreases_to!(*j => fields@[i as int].1));
                }
                out.push((pair.0.clone(), json_to_value(&pair.1)));
                i = i + 1;
            }
            proof {
                lemma_value_fields_model(out@);
                lemma_json_fields_model(fields@);
                lemma_json_fields_to_val(JsonData::fields_model(fields@));
                assert(GenericValue::fields_model(out@) =~= json_fields_to_val(
                    JsonData::fields_model(fields@),
                ));
            }
            GenericValue::Struct(out)
        }
    }
}

/// Re-expands a generic value into the JSON tree it stands for: the exact
/// inverse of [`json_to_value`] on the supported subset, keys and order kept.
#[verifier::loop_isolation(false)]
pub fn value_to_json(v: &GenericValue) -> (r: JsonData)
    ensures
        r.model() == val_to_json(v.model()),
    decreases *v,
{
    match v {
        GenericValue::Null => JsonData::Null,
        GenericValue::Bool(b) => JsonData::Bool(*b),
        GenericValue::Number(n) => JsonData::Num(*n),
        GenericValue::Text(s) => JsonData::Str(s.clone()),
        GenericValue::List(items) => {
            let mut out: Vec<JsonData> = Vec::new();
            let mut i: usize = 0;
            while i < items.len()
                invariant
                    i <= items@.len(),
                    out@.len() == i as int,
                    forall|k: int|
                        0 <= k < i as int ==> #[trigger] out@[k].model() == val_to_json(
                            items@[k].model(),
                        ),
                decreases items@.len() - i as int,
            {
                let item = &items[i];
                proof {
                    assert(decreases_to!(*v => items@[i as int]));
                }
                out.push(value_to_json(item));
                i = i + 1;
            }
            proof {
                lemma_json_items_model(out@);
                lemma_value_items_model(items@);
                lemma_val_items_to_json(GenericValue::items_model(items@));
                assert(JsonData::items_model(out@) =~= val_items_to_json(
                    GenericValue::items_model(items@),
                ));
            }
            JsonData::Array(out)
        }
        GenericValue::Struct(fields) => {
            let mut out: Vec<(String, JsonData)> = Vec::new();
            let mut i: usize = 0;
            while i < fields.len()
                invariant
                    i <= fields@.len(),
                    out@.len() == i as int,
                    forall|k: int|
                        0 <= k < i as int ==> (#[trigger] out@[k]).0@ == fields@[k].0@
                            && out@[k].1.model() == val_to_json(fields@[k].1.model()),
                decreases fields@.len() - i as int,
            {
                let pair = &fields[i];
                proof {
                    assert(decreases_to!(*v => fields@[i as int].1));
                }
                out.push((pair.0.clone(), value_to_json(&pair.1)));
                i = i + 1;
            }
            proof {
                lemma_json_fields_model(out@);
                lemma_value_fields_model(fields@);
                lemma_val_fields_to_json(GenericValue::fields_model(fields@));
                assert(JsonData::fields_model(out@) =~= val_fields_to_json(
                    GenericValue::fields_model(fields@),
                ));
            }
            JsonData::Object(out)
        }
    }
}

impl GenericValue {
    /// A fresh value with the same model: the tree is copied node for node.
    #[verifier::loop_isolation(false)]
    pub fn deep_copy(&self) -> (r: GenericValue)
        ensures
            r.model() == self.model(),
        decreases *self,
    {
        match self {
            GenericValue::Null => GenericValue::Null,
            GenericValue::Bool(b) => GenericValue::Bool(*b),
            GenericValue::Number(n) => GenericValue::Number(*n),
            GenericValue::Text(s) => GenericValue::Text(s.clone()),
            GenericValue::List(items) => {
                let mut out: Vec<GenericValue> = Vec::new();
                let mut i: usize = 0;
                while i < items.len()
                    invariant
                        i <= items@.len(),
                        out@.len() == i as int,
                        forall|k: int|
                            0 <= k < i as int ==> #[trigger] out@[k].model()
                                == items@[k].model(),
                    decreases items@.len() - i as int,
                {
                    let item = &items[i];
                    proof {
                        assert(decreases_to!(*self => items@[i as int]));
                    }
                    out.push(item.deep_copy());
                    i = i + 1;
                }
                proof {
                    lemma_value_items_model(out@);
                    lemma_value_items_model(items@);
                    assert(GenericValue::items_model(out@) =~= GenericValue::items_model(items@));
                }
                GenericValue::List(out)
            }
            GenericValue::Struct(fields) => {
                let mut out: Vec<(String, GenericValue)> = Vec::new();
                let mut i: usize = 0;
                while i < fields.len()
                    invariant
                        i <= fields@.len(),
                        out@.len() == i as int,
                        forall|k: int|
                            0 <= k < i as int ==> (#[trigger] out@[k]).0@ == fields@[k].0@
                                && out@[k].1.model() == fields@[k].1.model(),
                    decreases fields@.len() - i as int,
                {
                    let pair = &fields[i];
                    proof {
                        assert(decreases_to!(*self => fields@[i as int].1));
                    }
                    out.push((pair.0.clone(), pair.1.deep_copy()));
                    i = i + 1;
                }
                proof {
                    lemma_value_fields_model(out@);
                    lemma_value_fields_model(fields@);
                    assert(GenericValue::fields_model(out@) =~= GenericValue::fields_model(
                        fields@,
                    ));
                }
                GenericValue::Struct(out)
            }
        }
    }
}

} // verus!

