//! The value codec: native typed column values to generic tagged values and
//! back, keyed by the column's type identifier.
//!
//! Integer columns widen onto the wire's number representation, which holds an
//! integer exactly only up to a bounded magnitude; beyond it the encode is
//! refused as a precision loss rather than silently rounded. Semi-structured
//! columns travel as the JSON tree mapped one-to-one onto the generic value.

use vstd::prelude::*;

use crate::value::GenericValue;
use crate::value::JsonData;
use crate::value::JsonModel;
use crate::value::ValModel;
use crate::value::json_to_val;
use crate::value::json_to_value;
use crate::value::lemma_json_round_trip;
use crate::value::val_to_json;
use crate::value::value_to_json;

verus! {

/// The largest integer magnitude the wire's double-precision number holds
/// exactly; encoding an integer beyond it would lose precision.
pub const MAX_EXACT_MAGNITUDE: i64 = 9007199254740992;

/// A native column value at the engine boundary: either absent, or one of the
/// native representations the codec maps. Integer columns of every width are
/// carried at their widest.
#[derive(Debug, PartialEq, Eq)]
pub enum NativeValue {
    Absent,
    Boolean(bool),
    Int(i64),
    Text(String),
    Json(JsonData),
}

/// Model of a native column value.
pub enum NativeModel {
    Absent,
    Boolean(bool),
    Int(int),
    Text(Seq<char>),
    Json(JsonModel),
}

impl NativeValue {
    pub open spec fn model(self) -> NativeModel {
        match self {
            NativeValue::Absent => NativeModel::Absent,
            NativeValue::Boolean(b) => NativeModel::Boolean(b),
            NativeValue::Int(n) => NativeModel::Int(n as int),
            NativeValue::Text(s) => NativeModel::Text(s@),
            NativeValue::Json(j) => NativeModel::Json(j.model()),
        }
    }
}

/// A column's native type identifier: the types the codec maps, and a catch-all
/// for every identifier it does not.
#[derive(Clone, Copy, Debug, PartialEq, Eq, Structural)]
pub enum TypeOid {
    Boolean,
    Int2,
    Int4,
    Int8,
    Text,
    Jsonb,
    Other(u32),
}

/// Why the codec refused a value, carrying the column's type identifier where
/// one names the offender.
#[derive(Clone, Copy, Debug, PartialEq, Eq, Structural)]
pub enum CodecError {
    /// The column's type identifier has no wire mapping at all.
    UnsupportedType(TypeOid),
    /// The wire value has no native target under this column type.
    UnsupportedConversion(TypeOid),
    /// The wire value's shape disagrees with the column type.
    TypeMismatch(TypeOid),
    /// The integer exceeds what the wire number holds exactly.
    PrecisionLoss,
}

impl TypeOid {
    /// Whether the codec has a mapping for this identifier.
    pub open spec fn supported(self) -> bool {
        !(self is Other)
    }

    /// Whether this identifier names an integer column.
    pub open spec fn is_integer(self) -> bool {
        self is Int2 || self is Int4 || self is Int8
    }
}

/// What the encode direction returns, as a function on models: the native
/// value under the column's type identifier, or the exact error.
pub open spec fn encode_spec(oid: TypeOid, v: NativeModel) -> Result<ValModel, CodecError> {
    if !oid.supported() {
        Err(CodecError::UnsupportedType(oid))
    } else if v is Absent {
        Ok(ValModel::Null)
    } else if oid is Text {
        match v {
            NativeModel::Text(s) => Ok(ValModel::Str(s)),
            _ => Err(CodecError::TypeMismatch(oid)),
        }
    } else if oid is Boolean {
        match v {
            NativeModel::Boolean(b) => Ok(ValModel::Bool(b)),
            _ => Err(CodecError::TypeMismatch(oid)),
        }
    } else if oid.is_integer() {
        match v {
            NativeModel::Int(n) => if -(MAX_EXACT_MAGNITUDE as int) <= n <= MAX_EXACT_MAGNITUDE
                as int {
                Ok(ValModel::Num(n))
            } else {
                Err(CodecError::PrecisionLoss)
            },
            _ => Err(CodecError::TypeMismatch(oid)),
        }
    } else {
        match v {
            NativeModel::Json(j) => Ok(json_to_val(j)),
            _ => Err(CodecError::TypeMismatch(oid)),
        }
    }
}

/// What the decode direction returns, as a function on models: the wire value
/// materialised under the column's type identifier, or the exact error.
pub open spec fn decode_spec(oid: TypeOid, v: ValModel) -> Result<NativeModel, CodecError> {
    if !oid.supported() {
        Err(CodecError::UnsupportedConversion(oid))
    } else if v is Null {
        Ok(NativeModel::Absent)
    } else if oid is Jsonb {
        Ok(NativeModel::Json(val_to_json(v)))
    } else if oid is Text {
        match v {
            ValModel::Str(s) => Ok(NativeModel::Text(s)),
            ValModel::List(_) => Err(CodecError::TypeMismatch(oid)),
            ValModel::Struct(_) => Err(CodecError::TypeMismatch(oid)),
            _ => Err(CodecError::UnsupportedConversion(oid)),
        }
    } else if oid is Boolean {
        match v {
            ValModel::Bool(b) => Ok(NativeModel::Boolean(b)),
            ValModel::List(_) => Err(CodecError::TypeMismatch(oid)),
            ValModel::Struct(_) => Err(CodecError::TypeMismatch(oid)),
            _ => Err(CodecError::UnsupportedConversion(oid)),
        }
    } else {
        match v {
            ValModel::Num(n) => Ok(NativeModel::Int(n)),
            ValModel::List(_) => Err(CodecError::TypeMismatch(oid)),
            ValModel::Struct(_) => Err(CodecError::TypeMismatch(oid)),
            _ => Err(CodecError::UnsupportedConversion(oid)),
        }
    }
}

/// The model of an encode result: the value's model on success, the error
/// unchanged on failure.
pub open spec fn encoded_model(r: Result<GenericValue, CodecError>) -> Result<
    ValModel,
    CodecError,
> {
    match r {
        Ok(g) => Ok(g.model()),
        Err(e) => Err(e),
    }
}

/// The model of a decode result.
pub open spec fn decoded_model(r: Result<NativeValue, CodecError>) -> Result<
    NativeModel,
    CodecError,
> {
    match r {
        Ok(n) => Ok(n.model()),
        Err(e) => Err(e),
    }
}

/// Encodes one native column value as its wire form, keyed by the column's
/// type identifier; returns exactly what [`encode_spec`] says.
pub fn encode_value(oid: TypeOid, v: &NativeValue) -> (r: Result<GenericValue, CodecError>)
    ensures
        encoded_model(r) == encode_spec(oid, v.model()),
{
    if let TypeOid::Other(_) = oid {
        return Err(CodecError::UnsupportedType(oid));
    }
    match v {
        NativeValue::Absent => Ok(GenericValue::Null),
        NativeValue::Text(s) => match oid {
            TypeOid::Text => Ok(GenericValue::Text(s.clone())),
            _ => Err(CodecError::TypeMismatch(oid)),
        },
        NativeValue::Boolean(b) => match oid {
            TypeOid::Boolean => Ok(GenericValue::Bool(*b)),
            _ => Err(CodecError::TypeMismatch(oid)),
        },
        NativeValue::Int(n) => match oid {
            TypeOid::Int2 | TypeOid::Int4 | TypeOid::Int8 => {
                if *n < -MAX_EXACT_MAGNITUDE || *n > MAX_EXACT_MAGNITUDE {
                    Err(CodecError::PrecisionLoss)
                } else {
                    Ok(GenericValue::Number(*n))
                }
            },
            _ => Err(CodecError::TypeMismatch(oid)),
        },
        NativeValue::Json(j) => match oid {
            TypeOid::Jsonb => Ok(json_to_value(j)),
            _ => Err(CodecError::TypeMismatch(oid)),
        },
    }
}

/// Decodes one wire value back into a native column value, keyed by the
/// column's type identifier; returns exactly what [`decode_spec`] says.
pub fn decode_value(oid: TypeOid, v: &GenericValue) -> (r: Result<NativeValue, CodecError>)
    ensures
        decoded_model(r) == decode_spec(oid, v.model()),
{
    if let TypeOid::Other(_) = oid {
        return Err(CodecError::UnsupportedConversion(oid));
    }
    match v {
        GenericValue::Null => Ok(NativeValue::Absent),
        GenericValue::Text(s) => match oid {
            TypeOid::Jsonb => Ok(NativeValue::Json(value_to_json(v))),
            TypeOid::Text => Ok(NativeValue::Text(s.clone())),
            _ => Err(CodecError::UnsupportedConversion(oid)),
        },
        GenericValue::Bool(b) => match oid {
            TypeOid::Jsonb => Ok(NativeValue::Json(value_to_json(v))),
            TypeOid::Boolean => Ok(NativeValue::Boolean(*b)),
            _ => Err(CodecError::UnsupportedConversion(oid)),
        },
        GenericValue::Number(n) => match oid {
            TypeOid::Jsonb => Ok(NativeValue::Json(value_to_json(v))),
            TypeOid::Int2 | TypeOid::Int4 | TypeOid::Int8 => Ok(NativeValue::Int(*n)),
            _ => Err(CodecError::UnsupportedConversion(oid)),
        },
        GenericValue::List(_) => match oid {
            TypeOid::Jsonb => Ok(NativeValue::Json(value_to_json(v))),
            _ => Err(CodecError::TypeMismatch(oid)),
        },
        GenericValue::Struct(_) => match oid {
            TypeOid::Jsonb => Ok(NativeValue::Json(value_to_json(v))),
            _ => Err(CodecError::TypeMismatch(oid)),
        },
    }
}

/// Law: decoding what was encoded gives back the native value, for every
/// native value the codec accepts. The one value left out is the
/// semi-structured JSON `null` document: it encodes to the wire's `Null`,
/// which reads back as the absent value.
pub proof fn lemma_scalar_round_trip(oid: TypeOid, v: NativeModel)
    requires
        encode_spec(oid, v) is Ok,
        !(v matches NativeModel::Json(j) && j is Null),
    ensures
        decode_spec(oid, encode_spec(oid, v)->Ok_0) == Ok::<NativeModel, CodecError>(v),
{
    match v {
        NativeModel::Json(j) => {
            lemma_json_round_trip(j);
        }
        _ => {}
    }
}

} // verus!
