//! The four request shapes of the row protocol, and the row message.
//!
//! Every operation sends one request and reads back a stream of row messages;
//! a mutation carries the affected row (and, where it applies, the key row)
//! already encoded as generic values.

use vstd::prelude::*;

use crate::codec::CodecError;
use crate::codec::NativeValue;
use crate::codec::TypeOid;
use crate::codec::encode_spec;
use crate::codec::encode_value;
use crate::descriptor::TupleDesc;
use crate::value::GenericValue;
use crate::value::ValModel;
use crate::value::lemma_value_items_model;

verus! {

/// One streamed row message: the generic values of one row, in wire-index
/// order.
#[derive(Debug, PartialEq, Eq)]
pub struct ResultSet {
    pub values: Vec<GenericValue>,
}

impl ResultSet {
    /// The row as a sequence of value models, in wire-index order.
    pub open spec fn model(self) -> Seq<ValModel> {
        GenericValue::items_model(self.values@)
    }

    /// A fresh row with the same model.
    pub fn deep_copy(&self) -> (r: ResultSet)
        ensures
            r.model() == self.model(),
            r.values@.len() == self.values@.len(),
    {
        let mut out: Vec<GenericValue> = Vec::new();
        let mut i: usize = 0;
        while i < self.values.len()
            invariant
                i <= self.values@.len(),
                out@.len() == i as int,
                forall|k: int|
                    0 <= k < i as int ==> #[trigger] out@[k].model() == self.values@[k].model(),
            decreases self.values@.len() - i as int,
        {
            out.push(self.values[i].deep_copy());
            i = i + 1;
        }
        proof {
            lemma_value_items_model(out@);
            lemma_value_items_model(self.values@);
            assert(GenericValue::items_model(out@) =~= GenericValue::items_model(self.values@));
        }
        ResultSet { values: out }
    }
}

/// One cell of a native tuple at the engine boundary: the column's name, its
/// native value (or absence), and its type identifier.
#[derive(Debug, PartialEq, Eq)]
pub struct NativeField {
    pub name: String,
    pub value: NativeValue,
    pub oid: TypeOid,
}

/// A scan request: every visible row of the named table, shaped by the
/// descriptor.
#[derive(Debug, PartialEq, Eq)]
pub struct ExecuteRequest {
    pub table: String,
    pub tupdesc: TupleDesc,
}

/// An insert request: one row to insert, already encoded.
#[derive(Debug, PartialEq, Eq)]
pub struct InsertRequest {
    pub table: String,
    pub tupdesc: TupleDesc,
    pub tuples: Vec<GenericValue>,
}

/// An update request: the new values and the key values naming the row.
#[derive(Debug, PartialEq, Eq)]
pub struct UpdateRequest {
    pub table: String,
    pub tupdesc: TupleDesc,
    pub tuples: Vec<GenericValue>,
    pub indices: Vec<GenericValue>,
}

/// A delete request: the key values naming the row.
#[derive(Debug, PartialEq, Eq)]
pub struct DeleteRequest {
    pub table: String,
    pub tupdesc: TupleDesc,
    pub indices: Vec<GenericValue>,
}

/// Whether every cell of the tuple encodes under its own type identifier.
pub open spec fn row_encodes(fields: Seq<NativeField>) -> bool {
    forall|i: int|
        0 <= i < fields.len() ==> (#[trigger] encode_spec(fields[i].oid, fields[i].value.model()))
            is Ok
}

/// Whether `e` is the error of the first cell the codec refuses.
pub open spec fn first_encode_error(fields: Seq<NativeField>, e: CodecError) -> bool {
    exists|i: int|
        {
            &&& 0 <= i < fields.len()
            &&& (#[trigger] encode_spec(fields[i].oid, fields[i].value.model())) == Err::<
                ValModel,
                CodecError,
            >(e)
            &&& forall|j: int|
                0 <= j < i ==> (#[trigger] encode_spec(fields[j].oid, fields[j].value.model()))
                    is Ok
        }
}

/// Encodes a native tuple cell by cell, each under its own type identifier.
/// The whole row fails on the first cell the codec refuses, and succeeds
/// exactly when every cell encodes.
pub fn encode_row(fields: &Vec<NativeField>) -> (r: Result<Vec<GenericValue>, CodecError>)
    ensures
        r is Ok <==> row_encodes(fields@),
        r matches Ok(row) ==> row@.len() == fields@.len() && forall|i: int|
            0 <= i < fields@.len() ==> #[trigger] row@[i].model() == encode_spec(
                fields@[i].oid,
                fields@[i].value.model(),
            )->Ok_0,
        r matches Err(e) ==> first_encode_error(fields@, e),
{
    let mut out: Vec<GenericValue> = Vec::new();
    let mut i: usize = 0;
    while i < fields.len()
        invariant
            i <= fields@.len(),
            out@.len() == i as int,
            forall|k: int|
                0 <= k < i as int ==> (#[trigger] encode_spec(
                    fields@[k].oid,
                    fields@[k].value.model(),
                )) is Ok,
            forall|k: int|
                0 <= k < i as int ==> #[trigger] out@[k].model() == encode_spec(
                    fields@[k].oid,
                    fields@[k].value.model(),
                )->Ok_0,
        decreases fields@.len() - i as int,
    {
        let field = &fields[i];
        match encode_value(field.oid, &field.value) {
            Ok(v) => {
                out.push(v);
            },
            Err(e) => {
                return Err(e);
            },
        }
        i = i + 1;
    }
    Ok(out)
}

} // verus!
