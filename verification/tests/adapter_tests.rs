use grpc_fdw::adapter::FdwOptions;
use grpc_fdw::adapter::FdwWrapper;
use grpc_fdw::adapter::GRPCFdw;
use grpc_fdw::adapter::decode_row;
use grpc_fdw::client::FdwError;
use grpc_fdw::client::ScanCursor;
use grpc_fdw::client::ScanStep;
use grpc_fdw::client::StreamEvent;
use grpc_fdw::client::collect_stream;
use grpc_fdw::client::drain_stream;
use grpc_fdw::codec::CodecError;
use grpc_fdw::codec::NativeValue;
use grpc_fdw::codec::TypeOid;
use grpc_fdw::descriptor::ColumnMeta;
use grpc_fdw::descriptor::build_descriptor;
use grpc_fdw::protocol::NativeField;
use grpc_fdw::protocol::ResultSet;
use grpc_fdw::protocol::encode_row;
use grpc_fdw::server::EchoFdw;
use grpc_fdw::server::HelloRequest;
use grpc_fdw::server::MyGreeter;
use grpc_fdw::value::GenericValue::Number;
use grpc_fdw::value::GenericValue::Text;
use grpc_fdw::value::JsonData;

fn id_name_shape() -> Vec<ColumnMeta> {
    vec![
        ColumnMeta { name: String::from("id"), oid: TypeOid::Int4 },
        ColumnMeta { name: String::from("name"), oid: TypeOid::Text },
    ]
}

fn bound_adapter() -> GRPCFdw {
    let opts = FdwOptions {
        server_uri: String::from("http://[::1]:50051"),
        table_name: String::from("t"),
        table_namespace: String::from("public"),
    };
    GRPCFdw::begin(0, &opts)
}

fn row(values: Vec<grpc_fdw::value::GenericValue>) -> ResultSet {
    ResultSet { values }
}

#[test]
fn descriptor_records_positions_and_types() {
    let d = build_descriptor(&id_name_shape());
    assert_eq!(d.entries.len(), 2);
    assert_eq!(d.entries[0].0, "id");
    assert_eq!(d.entries[0].1.index, 0);
    assert_eq!(d.entries[0].1.oid, TypeOid::Int4);
    assert_eq!(d.entries[1].0, "name");
    assert_eq!(d.entries[1].1.index, 1);
    assert_eq!(d.entries[1].1.oid, TypeOid::Text);
    assert_eq!(d.column_oids(), vec![TypeOid::Int4, TypeOid::Text]);
}

#[test]
fn descriptor_of_empty_shape_is_empty() {
    let d = build_descriptor(&vec![]);
    assert_eq!(d.entries.len(), 0);
    assert_eq!(d.column_oids(), Vec::<TypeOid>::new());
}

#[test]
fn scan_of_two_rows_decodes_in_order() {
    let fdw = bound_adapter();
    let request = fdw.execute_request(&id_name_shape());
    assert_eq!(request.table, "t");
    let server = EchoFdw::new(vec![
        row(vec![Number(1), Text(String::from("a"))]),
        row(vec![Number(2), Text(String::from("b"))]),
    ]);
    let events = server.execute(&request);
    let rows = collect_stream(2, &events).unwrap();
    assert_eq!(rows.len(), 2);
    let mut wrapper = FdwWrapper::new(request.tupdesc.column_oids(), rows);
    assert_eq!(
        wrapper.next(),
        Some(Ok(vec![NativeValue::Int(1), NativeValue::Text(String::from("a"))]))
    );
    assert_eq!(
        wrapper.next(),
        Some(Ok(vec![NativeValue::Int(2), NativeValue::Text(String::from("b"))]))
    );
    assert_eq!(wrapper.next(), None);
}

#[test]
fn insert_encodes_row_and_drains_empty_stream() {
    let fdw = bound_adapter();
    let shape = vec![ColumnMeta { name: String::from("id"), oid: TypeOid::Int8 }];
    let tuple = vec![NativeField {
        name: String::from("id"),
        value: NativeValue::Int(7),
        oid: TypeOid::Int8,
    }];
    let request = fdw.insert_request(&shape, &tuple).unwrap();
    assert_eq!(request.tuples, vec![Number(7)]);
    let server = EchoFdw::new(vec![]);
    let events = server.insert(&request);
    assert_eq!(drain_stream(1, &events), Ok(()));
}

#[test]
fn insert_of_unsupported_type_fails_before_any_request() {
    let fdw = bound_adapter();
    let shape = vec![ColumnMeta { name: String::from("blob"), oid: TypeOid::Other(17) }];
    let tuple = vec![NativeField {
        name: String::from("blob"),
        value: NativeValue::Text(String::from("...")),
        oid: TypeOid::Other(17),
    }];
    let r = fdw.insert_request(&shape, &tuple);
    assert_eq!(r, Err(CodecError::UnsupportedType(TypeOid::Other(17))));
}

#[test]
fn update_encodes_new_values_then_keys() {
    let fdw = bound_adapter();
    let shape = vec![ColumnMeta { name: String::from("id"), oid: TypeOid::Int4 }];
    let new_row = vec![NativeField {
        name: String::from("id"),
        value: NativeValue::Int(9),
        oid: TypeOid::Int4,
    }];
    let keys = vec![NativeField {
        name: String::from("id"),
        value: NativeValue::Int(2),
        oid: TypeOid::Int4,
    }];
    let request = fdw.update_request(&shape, &new_row, &keys).unwrap();
    assert_eq!(request.tuples, vec![Number(9)]);
    assert_eq!(request.indices, vec![Number(2)]);
    let server = EchoFdw::new(vec![]);
    assert_eq!(drain_stream(1, &server.update(&request)), Ok(()));
}

#[test]
fn delete_encodes_keys() {
    let fdw = bound_adapter();
    let shape = vec![ColumnMeta { name: String::from("id"), oid: TypeOid::Int4 }];
    let keys = vec![NativeField {
        name: String::from("id"),
        value: NativeValue::Int(3),
        oid: TypeOid::Int4,
    }];
    let request = fdw.delete_request(&shape, &keys).unwrap();
    assert_eq!(request.indices, vec![Number(3)]);
    let server = EchoFdw::new(vec![]);
    assert_eq!(drain_stream(1, &server.delete(&request)), Ok(()));
}

#[test]
fn encode_row_stops_at_first_refused_cell() {
    let fields = vec![
        NativeField { name: String::from("a"), value: NativeValue::Int(1), oid: TypeOid::Int4 },
        NativeField { name: String::from("b"), value: NativeValue::Int(1), oid: TypeOid::Boolean },
        NativeField { name: String::from("c"), value: NativeValue::Int(1), oid: TypeOid::Other(5) },
    ];
    assert_eq!(encode_row(&fields), Err(CodecError::TypeMismatch(TypeOid::Boolean)));
}

#[test]
fn wrong_width_row_is_a_protocol_violation() {
    let events = vec![
        StreamEvent::Message(row(vec![Number(1), Number(2)])),
        StreamEvent::Message(row(vec![Number(3)])),
        StreamEvent::Completed,
    ];
    let r = collect_stream(2, &events);
    assert_eq!(r, Err(FdwError::Protocol { expected: 2, got: 1 }));
    let d = drain_stream(2, &events);
    assert_eq!(d, Err(FdwError::Protocol { expected: 2, got: 1 }));
}

#[test]
fn wrong_width_row_fails_decode_too() {
    let oids = vec![TypeOid::Int4, TypeOid::Int4];
    let r = decode_row(&oids, &row(vec![Number(1)]));
    assert_eq!(r, Err(FdwError::Protocol { expected: 2, got: 1 }));
}

#[test]
fn mid_stream_failure_keeps_already_pulled_rows() {
    let mut events = Vec::new();
    for i in 0..10 {
        events.push(StreamEvent::Message(row(vec![Number(i)])));
    }
    events.insert(3, StreamEvent::Failed(String::from("backing store lost")));

    // Drain-all: the whole call fails with the reported failure.
    assert_eq!(
        collect_stream(1, &events),
        Err(FdwError::Remote(String::from("backing store lost")))
    );

    // Pull-based: three rows are delivered, then the failure surfaces; the
    // delivered rows stay with the caller.
    let mut cursor = ScanCursor::new(1);
    let mut delivered = Vec::new();
    let mut failure = None;
    for ev in events.into_iter().take(4) {
        match cursor.step(ev) {
            ScanStep::Deliver(rs) => delivered.push(rs),
            ScanStep::Failed(e) => {
                failure = Some(e);
                break;
            }
            ScanStep::Finished => panic!("stream must not finish here"),
        }
    }
    assert_eq!(failure, Some(FdwError::Remote(String::from("backing store lost"))));
    assert_eq!(delivered.len(), 3);
    assert_eq!(delivered[2], row(vec![Number(2)]));
}

#[test]
fn abandoned_scan_leaves_fresh_scans_unaffected() {
    let server = EchoFdw::new(vec![row(vec![Number(1)]), row(vec![Number(2)])]);
    let fdw = bound_adapter();
    let shape = vec![ColumnMeta { name: String::from("id"), oid: TypeOid::Int4 }];
    let request = fdw.execute_request(&shape);

    // Consume one row of a scan, then abandon the cursor mid-stream.
    let events = server.execute(&request);
    let mut cursor = ScanCursor::new(1);
    let first = events.into_iter().next().unwrap();
    match cursor.step(first) {
        ScanStep::Deliver(_) => {}
        _ => panic!("first event must deliver a row"),
    }
    drop(cursor);

    // A fresh scan on a fresh cursor sees the whole stream.
    let events = server.execute(&request);
    let rows = collect_stream(1, &events).unwrap();
    assert_eq!(rows.len(), 2);
}

#[test]
fn greeter_greets_by_name() {
    let greeter = MyGreeter {};
    let reply = greeter.say_hello(&HelloRequest { name: String::from("grpc_fdw") });
    assert_eq!(reply.message, "Hello grpc_fdw!");
}

#[test]
fn decode_error_in_row_surfaces_as_codec_failure() {
    let oids = vec![TypeOid::Int4, TypeOid::Text];
    let r = decode_row(&oids, &row(vec![Number(1), Number(2)]));
    assert_eq!(
        r,
        Err(FdwError::Codec(CodecError::UnsupportedConversion(TypeOid::Text)))
    );
}

#[test]
fn update_surfaces_key_encode_failure_after_new_values() {
    let fdw = bound_adapter();
    let shape = vec![ColumnMeta { name: String::from("id"), oid: TypeOid::Int4 }];
    let new_row = vec![NativeField {
        name: String::from("id"),
        value: NativeValue::Int(9),
        oid: TypeOid::Int4,
    }];
    let keys = vec![NativeField {
        name: String::from("id"),
        value: NativeValue::Boolean(true),
        oid: TypeOid::Int4,
    }];
    let r = fdw.update_request(&shape, &new_row, &keys);
    assert_eq!(r, Err(CodecError::TypeMismatch(TypeOid::Int4)));
}

#[test]
fn scan_materialises_json_columns() {
    let fdw = bound_adapter();
    let shape = vec![
        ColumnMeta { name: String::from("id"), oid: TypeOid::Int4 },
        ColumnMeta { name: String::from("doc"), oid: TypeOid::Jsonb },
    ];
    let request = fdw.execute_request(&shape);
    let doc = grpc_fdw::value::GenericValue::Struct(vec![(
        String::from("a"),
        grpc_fdw::value::GenericValue::List(vec![Number(1), Number(2)]),
    )]);
    let server = EchoFdw::new(vec![row(vec![Number(5), doc])]);
    let events = server.execute(&request);
    let rows = collect_stream(2, &events).unwrap();
    let mut wrapper = FdwWrapper::new(request.tupdesc.column_oids(), rows);
    let native = wrapper.next().unwrap().unwrap();
    assert_eq!(native[0], NativeValue::Int(5));
    assert_eq!(
        native[1],
        NativeValue::Json(JsonData::Object(vec![(
            String::from("a"),
            JsonData::Array(vec![JsonData::Num(1), JsonData::Num(2)]),
        )]))
    );
    assert_eq!(wrapper.next(), None);
}

#[test]
fn pull_surfaces_decode_error_per_row() {
    let oids = vec![TypeOid::Boolean];
    let rows = vec![row(vec![Number(1)]), row(vec![grpc_fdw::value::GenericValue::Bool(true)])];
    let mut wrapper = FdwWrapper::new(oids, rows);
    assert_eq!(
        wrapper.next(),
        Some(Err(FdwError::Codec(CodecError::UnsupportedConversion(TypeOid::Boolean))))
    );
    assert_eq!(wrapper.next(), Some(Ok(vec![NativeValue::Boolean(true)])));
    assert_eq!(wrapper.next(), None);
}
