//! The engine-facing table adapter: one instance per bound foreign table.
//!
//! An adapter holds the handle of the transport client that owns the
//! connection (the client itself lives with the transport, owned by exactly
//! one adapter) and the table's qualified name. For every engine call it
//! builds the tuple descriptor fresh from the current column shape, turns the
//! engine's native tuples into an encoded request, and materialises streamed
//! rows back into native values on each pull.

use vstd::prelude::*;

use crate::client::ErrModel;
use crate::client::FdwError;
use crate::codec::CodecError;
use crate::codec::NativeValue;
use crate::codec::TypeOid;
use crate::codec::decode_spec;
use crate::codec::decode_value;
use crate::descriptor::ColumnMeta;
use crate::descriptor::TupleDesc;
use crate::descriptor::build_descriptor;
use crate::protocol::DeleteRequest;
use crate::protocol::ExecuteRequest;
use crate::protocol::InsertRequest;
use crate::protocol::NativeField;
use crate::protocol::ResultSet;
use crate::protocol::UpdateRequest;
use crate::protocol::encode_row;
use crate::protocol::first_encode_error;
use crate::protocol::row_encodes;
use crate::value::GenericValue;
use crate::value::ValModel;
use crate::value::lemma_value_items_model;

verus! {

/// Whether every value of the row decodes under the column types, position by
/// position.
pub open spec fn row_decodes(oids: Seq<TypeOid>, vals: Seq<ValModel>) -> bool {
    forall|i: int|
        0 <= i < oids.len() ==> (#[trigger] decode_spec(oids[i], vals[i])) is Ok
}

/// Whether `e` is the error of the first value the codec refuses.
pub open spec fn first_decode_error(oids: Seq<TypeOid>, vals: Seq<ValModel>, e: CodecError) -> bool {
    exists|i: int|
        {
            &&& 0 <= i < oids.len()
            &&& (#[trigger] decode_spec(oids[i], vals[i])) == Err::<
                crate::codec::NativeModel,
                CodecError,
            >(e)
            &&& forall|j: int| 0 <= j < i ==> (#[trigger] decode_spec(oids[j], vals[j])) is Ok
        }
}

/// What materialising one streamed row under the column types must amount to:
/// a row of the wrong width is a protocol violation; otherwise the native
/// values position by position, or the first decode error.
pub open spec fn row_decode_outcome(
    oids: Seq<TypeOid>,
    rs: ResultSet,
    r: Result<Vec<NativeValue>, FdwError>,
) -> bool {
    &&& (rs.values@.len() != oids.len() ==> (r matches Err(e) && e.model() == ErrModel::Protocol(
        oids.len() as int,
        rs.values@.len() as int,
    )))
    &&& (rs.values@.len() == oids.len() ==> {
        &&& (r is Ok <==> row_decodes(oids, rs.model()))
        &&& (r matches Ok(row) ==> row@.len() == oids.len() && forall|i: int|
            0 <= i < oids.len() ==> (#[trigger] row@[i].model()) == decode_spec(
                oids[i],
                rs.model()[i],
            )->Ok_0)
        &&& (r matches Err(e) ==> e matches FdwError::Codec(ce) && first_decode_error(
            oids,
            rs.model(),
            ce,
        ))
    })
}

/// Materialises one streamed row as native column values, each position under
/// its column's type identifier.
pub fn decode_row(oids: &Vec<TypeOid>, rs: &ResultSet) -> (r: Result<Vec<NativeValue>, FdwError>)
    ensures
        row_decode_outcome(oids@, *rs, r),
{
    proof {
        lemma_value_items_model(rs.values@);
    }
    if rs.values.len() != oids.len() {
        return Err(FdwError::Protocol { expected: oids.len(), got: rs.values.len() });
    }
    let mut out: Vec<NativeValue> = Vec::new();
    let mut i: usize = 0;
    while i < oids.len()
        invariant
            i <= oids@.len(),
            rs.values@.len() == oids@.len(),
            out@.len() == i as int,
            GenericValue::items_model(rs.values@) == rs.model(),
            rs.model().len() == rs.values@.len(),
            forall|k: int|
                0 <= k < rs.values@.len() ==> #[trigger] rs.model()[k] == rs.values@[k].model(),
            forall|k: int| 0 <= k < i as int ==> (#[trigger] decode_spec(oids@[k], rs.model()[k])) is Ok,
            forall|k: int|
                0 <= k < i as int ==> (#[trigger] out@[k].model()) == decode_spec(
                    oids@[k],
                    rs.model()[k],
                )->Ok_0,
        decreases oids@.len() - i as int,
    {
        match decode_value(oids[i], &rs.values[i]) {
            Ok(v) => {
                out.push(v);
            },
            Err(e) => {
                proof {
                    assert(decode_spec(oids@[i as int], rs.model()[i as int]) == Err::<
                        crate::codec::NativeModel,
                        CodecError,
                    >(e));
                }
                return Err(FdwError::Codec(e));
            },
        }
        i = i + 1;
    }
    Ok(out)
}

/// The streamed rows of one scan, materialised on each pull, in arrival
/// order.
#[derive(Debug, PartialEq, Eq)]
pub struct FdwWrapper {
    pub oids: Vec<TypeOid>,
    pub rows: Vec<ResultSet>,
    pub pos: usize,
}

impl FdwWrapper {
    /// Wraps the collected rows of a scan issued under the given column
    /// types.
    pub fn new(oids: Vec<TypeOid>, rows: Vec<ResultSet>) -> (r: FdwWrapper)
        ensures
            r.oids == oids,
            r.rows == rows,
            r.pos == 0,
    {
        FdwWrapper { oids, rows, pos: 0 }
    }

    /// The next row, materialised as native column values; `None` once every
    /// row has been handed out. Rows come out in the order they arrived.
    pub fn next(&mut self) -> (r: Option<Result<Vec<NativeValue>, FdwError>>)
        ensures
            final(self).oids == old(self).oids,
            final(self).rows == old(self).rows,
            old(self).pos >= old(self).rows@.len() ==> r is None && final(self).pos == old(
                self,
            ).pos,
            old(self).pos < old(self).rows@.len() ==> final(self).pos == old(self).pos + 1 && (
            r matches Some(row) && row_decode_outcome(
                old(self).oids@,
                old(self).rows@[old(self).pos as int],
                row,
            )),
    {
        if self.pos >= self.rows.len() {
            return None;
        }
        let row = decode_row(&self.oids, &self.rows[self.pos]);
        self.pos = self.pos + 1;
        Some(row)
    }
}

/// What the host hands the adapter when it binds a foreign table: the remote
/// server's address and the table's qualified name, as opaque strings.
#[derive(Debug, PartialEq, Eq)]
pub struct FdwOptions {
    pub server_uri: String,
    pub table_name: String,
    pub table_namespace: String,
}

/// One bound foreign table: the handle of the transport client that owns this
/// table's connection, and the table's qualified name. The handle is an index
/// into the transport's client table, owned by exactly this adapter instance.
#[derive(Debug, PartialEq, Eq)]
pub struct GRPCFdw {
    pub client: usize,
    pub table_name: String,
    pub namespace: String,
}

impl GRPCFdw {
    /// Binds the adapter to its table once the transport has connected and
    /// handed back the client's handle.
    pub fn connect(client: usize, opts: &FdwOptions) -> (r: GRPCFdw)
        ensures
            r.client == client,
            r.table_name@ == opts.table_name@,
            r.namespace@ == opts.table_namespace@,
    {
        GRPCFdw {
            client,
            table_name: opts.table_name.clone(),
            namespace: opts.table_namespace.clone(),
        }
    }

    /// Begins a table binding: the same construction `connect` performs.
    pub fn begin(client: usize, opts: &FdwOptions) -> (r: GRPCFdw)
        ensures
            r.client == client,
            r.table_name@ == opts.table_name@,
            r.namespace@ == opts.table_namespace@,
    {
        GRPCFdw::connect(client, opts)
    }

    /// The scan request for the current column shape: the table's name and a
    /// descriptor built fresh from the shape.
    pub fn execute_request(&self, cols: &Vec<ColumnMeta>) -> (r: ExecuteRequest)
        requires
            forall|i: int, j: int| 0 <= i < j < cols@.len() ==> cols@[i].name@ != cols@[j].name@,
        ensures
            r.table@ == self.table_name@,
            descriptor_of(r.tupdesc, cols@),
    {
        ExecuteRequest { table: self.table_name.clone(), tupdesc: build_descriptor(cols) }
    }

    /// The insert request for one native tuple: the whole call fails on the
    /// first cell the codec refuses, before anything is sent.
    pub fn insert_request(&self, cols: &Vec<ColumnMeta>, row: &Vec<NativeField>) -> (r: Result<
        InsertRequest,
        CodecError,
    >)
        requires
            forall|i: int, j: int| 0 <= i < j < cols@.len() ==> cols@[i].name@ != cols@[j].name@,
        ensures
            r is Ok <==> row_encodes(row@),
            r matches Ok(req) ==> req.table@ == self.table_name@ && descriptor_of(
                req.tupdesc,
                cols@,
            ) && encoded_row_of(req.tuples@, row@),
            r matches Err(e) ==> first_encode_error(row@, e),
    {
        let tuples = match encode_row(row) {
            Ok(t) => t,
            Err(e) => {
                return Err(e);
            },
        };
        Ok(
            InsertRequest {
                table: self.table_name.clone(),
                tupdesc: build_descriptor(cols),
                tuples,
            },
        )
    }

    /// The update request for one native tuple and its key tuple: the new
    /// values are encoded first, then the keys, and the whole call fails on
    /// the first cell the codec refuses, before anything is sent.
    pub fn update_request(
        &self,
        cols: &Vec<ColumnMeta>,
        row: &Vec<NativeField>,
        keys: &Vec<NativeField>,
    ) -> (r: Result<UpdateRequest, CodecError>)
        requires
            forall|i: int, j: int| 0 <= i < j < cols@.len() ==> cols@[i].name@ != cols@[j].name@,
        ensures
            r is Ok <==> row_encodes(row@) && row_encodes(keys@),
            r matches Ok(req) ==> req.table@ == self.table_name@ && descriptor_of(
                req.tupdesc,
                cols@,
            ) && encoded_row_of(req.tuples@, row@) && encoded_row_of(req.indices@, keys@),
            !row_encodes(row@) ==> (r matches Err(e) ==> first_encode_error(row@, e)),
            row_encodes(row@) ==> (r matches Err(e) ==> first_encode_error(keys@, e)),
    {
        let tuples = match encode_row(row) {
            Ok(t) => t,
            Err(e) => {
                return Err(e);
            },
        };
        let indices = match encode_row(keys) {
            Ok(t) => t,
            Err(e) => {
                return Err(e);
            },
        };
        Ok(
            UpdateRequest {
                table: self.table_name.clone(),
                tupdesc: build_descriptor(cols),
                tuples,
                indices,
            },
        )
    }

    /// The delete request for one key tuple: the whole call fails on the
    /// first cell the codec refuses, before anything is sent.
    pub fn delete_request(&self, cols: &Vec<ColumnMeta>, keys: &Vec<NativeField>) -> (r: Result<
        DeleteRequest,
        CodecError,
    >)
        requires
            forall|i: int, j: int| 0 <= i < j < cols@.len() ==> cols@[i].name@ != cols@[j].name@,
        ensures
            r is Ok <==> row_encodes(keys@),
            r matches Ok(req) ==> req.table@ == self.table_name@ && descriptor_of(
                req.tupdesc,
                cols@,
            ) && encoded_row_of(req.indices@, keys@),
            r matches Err(e) ==> first_encode_error(keys@, e),
    {
        let indices = match encode_row(keys) {
            Ok(t) => t,
            Err(e) => {
                return Err(e);
            },
        };
        Ok(
            DeleteRequest {
                table: self.table_name.clone(),
                tupdesc: build_descriptor(cols),
                indices,
            },
        )
    }
}

/// The descriptor describes exactly these columns: one well-formed entry per
/// column, names and types in shape order.
pub open spec fn descriptor_of(d: TupleDesc, cols: Seq<ColumnMeta>) -> bool {
    &&& d.wf()
    &&& d.width() == cols.len()
    &&& forall|i: int| 0 <= i < cols.len() ==> #[trigger] d.names()[i] == cols[i].name@
    &&& forall|i: int| 0 <= i < cols.len() ==> #[trigger] d.oids()[i] == cols[i].oid
}

/// The encoded row carries exactly the tuple's cells, each encoded under its
/// own type identifier.
pub open spec fn encoded_row_of(vals: Seq<GenericValue>, fields: Seq<NativeField>) -> bool {
    &&& vals.len() == fields.len()
    &&& forall|i: int|
        0 <= i < fields.len() ==> (#[trigger] vals[i].model()) == crate::codec::encode_spec(
            fields[i].oid,
            fields[i].value.model(),
        )->Ok_0
}

} // verus!
