use plan_codec::error::ErrorKind;
use plan_codec::expr::{BinOp, Expr, SortExpr};
use plan_codec::extension::{ComposedPhysicalExtensionCodec, DefaultPhysicalExtensionCodec, MarkedExtensionCodec};
use plan_codec::codec_plan::{decode, encode};
use plan_codec::plan::{FileScanConfig, JoinType, ListUnnest, NullEquality, OpKind, Partitioning, Plan, StreamPartitionMode};
use plan_codec::registry::FunctionRegistry;
use plan_codec::schema::{DataType, Field, Schema};

fn field(name: &str, data_type: DataType, nullable: bool) -> Field {
    Field { name: name.as_bytes().to_vec(), data_type, nullable }
}

fn schema_abc() -> Schema {
    Schema {
        fields: vec![
            field("a", DataType::Int32, false),
            field("b", DataType::Int32, false),
            field("c", DataType::Int32, false),
        ],
    }
}

fn col(index: u64) -> Expr {
    Expr::Column { index }
}

fn lit(value: i64) -> Expr {
    Expr::Literal { value }
}

fn bin(op: BinOp, left: Expr, right: Expr) -> Expr {
    Expr::Binary { op, left: Box::new(left), right: Box::new(right) }
}

fn sort_on(index: u64) -> SortExpr {
    SortExpr { expr: col(index), asc: true, nulls_first: true }
}

fn leaf(schema: Schema) -> Plan {
    Plan { op: OpKind::Empty { schema }, children: vec![] }
}

fn empty_schema() -> Schema {
    Schema { fields: vec![] }
}

fn check_round_trip(plan: Plan) {
    let codec = DefaultPhysicalExtensionCodec {};
    let bytes = encode(&plan, &codec).expect("encode");
    let back = decode(&bytes, &FunctionRegistry::new(), &codec).expect("decode");
    assert_eq!(back, plan);
}

#[test]
fn composed_codec_records_position() {
    let ext = Plan {
        op: OpKind::Extension { payload: vec![7, 1, 2], schema: empty_schema() },
        children: vec![],
    };
    let stack = ComposedPhysicalExtensionCodec::new(vec![
        MarkedExtensionCodec { marker: 9 },
        MarkedExtensionCodec { marker: 7 },
    ]);
    let bytes = encode(&ext, &stack).expect("encode through the stack");
    // envelope: extension tag, blob length, then the recorded position
    assert_eq!(bytes[0], 31);
    assert_eq!(bytes[2], 1, "the second codec accepted the node");
    let back = decode(&bytes, &FunctionRegistry::new(), &stack).expect("decode");
    assert_eq!(back, ext);

    // appending a codec must keep the prior blob decodable at the same position
    let grown = ComposedPhysicalExtensionCodec::new(vec![
        MarkedExtensionCodec { marker: 9 },
        MarkedExtensionCodec { marker: 7 },
        MarkedExtensionCodec { marker: 5 },
    ]);
    let again = decode(&bytes, &FunctionRegistry::new(), &grown).expect("decode after append");
    assert_eq!(again, ext);
}

#[test]
fn empty_composed_stack_is_not_implemented() {
    let ext = Plan {
        op: OpKind::Extension { payload: vec![7], schema: empty_schema() },
        children: vec![],
    };
    let stack: ComposedPhysicalExtensionCodec<MarkedExtensionCodec> =
        ComposedPhysicalExtensionCodec::new(vec![]);
    let err = encode(&ext, &stack).expect_err("nothing can accept the node");
    assert_eq!(err.kind(), ErrorKind::Unsupported);
}

#[test]
fn default_codec_refuses_extension_nodes() {
    let ext = Plan {
        op: OpKind::Extension { payload: vec![7], schema: empty_schema() },
        children: vec![leaf(schema_abc())],
    };
    let codec = DefaultPhysicalExtensionCodec {};
    let err = encode(&ext, &codec).expect_err("no codec, no extension");
    assert_eq!(err.kind(), ErrorKind::Unsupported);
}

#[test]
fn extension_node_carries_children() {
    let ext = Plan {
        op: OpKind::Extension { payload: vec![7, 42], schema: empty_schema() },
        children: vec![leaf(schema_abc())],
    };
    let codec = MarkedExtensionCodec { marker: 7 };
    let bytes = encode(&ext, &codec).expect("encode");
    let back = decode(&bytes, &FunctionRegistry::new(), &codec).expect("decode");
    assert_eq!(back, ext);
}

#[test]
fn projection_round_trip() {
    check_round_trip(Plan {
        op: OpKind::Projection {
            exprs: vec![bin(BinOp::Plus, col(0), col(1)), col(2)],
            names: vec![b"s".to_vec(), b"c".to_vec()],
        },
        children: vec![leaf(schema_abc())],
    });
}

#[test]
fn sort_round_trip() {
    check_round_trip(Plan {
        op: OpKind::Sort {
            exprs: vec![sort_on(0), SortExpr { expr: col(2), asc: false, nulls_first: false }],
            fetch: Some(10),
            preserve_partitioning: true,
        },
        children: vec![leaf(schema_abc())],
    });
}

#[test]
fn merge_and_coalesce_round_trip() {
    check_round_trip(Plan {
        op: OpKind::SortPreservingMerge { exprs: vec![sort_on(1)], fetch: None },
        children: vec![leaf(schema_abc())],
    });
    check_round_trip(Plan {
        op: OpKind::CoalesceBatches { target_batch_size: 8192, fetch: Some(3) },
        children: vec![leaf(schema_abc())],
    });
    check_round_trip(Plan {
        op: OpKind::CoalescePartitions { fetch: None },
        children: vec![leaf(schema_abc())],
    });
    check_round_trip(Plan {
        op: OpKind::Cooperative,
        children: vec![leaf(schema_abc())],
    });
}

#[test]
fn repartition_round_trip() {
    check_round_trip(Plan {
        op: OpKind::Repartition {
            partitioning: Partitioning::RoundRobinBatch { partition_count: 8 },
        },
        children: vec![leaf(schema_abc())],
    });
    check_round_trip(Plan {
        op: OpKind::Repartition {
            partitioning: Partitioning::Hash { exprs: vec![col(0)], partition_count: 4 },
        },
        children: vec![leaf(schema_abc())],
    });
}

#[test]
fn limits_round_trip() {
    check_round_trip(Plan {
        op: OpKind::GlobalLimit { skip: 5, fetch: Some(20) },
        children: vec![leaf(schema_abc())],
    });
    check_round_trip(Plan {
        op: OpKind::GlobalLimit { skip: 0, fetch: None },
        children: vec![leaf(schema_abc())],
    });
    check_round_trip(Plan {
        op: OpKind::LocalLimit { fetch: 7 },
        children: vec![leaf(schema_abc())],
    });
}

#[test]
fn union_and_interleave_round_trip() {
    check_round_trip(Plan {
        op: OpKind::Union,
        children: vec![leaf(schema_abc()), leaf(schema_abc()), leaf(schema_abc())],
    });
    check_round_trip(Plan {
        op: OpKind::Interleave,
        children: vec![leaf(schema_abc()), leaf(schema_abc())],
    });
}

#[test]
fn leaves_round_trip() {
    check_round_trip(leaf(schema_abc()));
    check_round_trip(Plan {
        op: OpKind::PlaceholderRow { schema: schema_abc() },
        children: vec![],
    });
    check_round_trip(Plan {
        op: OpKind::Explain {
            schema: Schema { fields: vec![field("plan", DataType::Utf8, false)] },
            stringified_plans: vec![b"initial plan".to_vec(), b"final plan".to_vec()],
            verbose: true,
        },
        children: vec![],
    });
}

#[test]
fn analyze_round_trip() {
    let rendered = Schema {
        fields: vec![
            field("plan_type", DataType::Utf8, false),
            field("plan", DataType::Utf8, false),
        ],
    };
    check_round_trip(Plan {
        op: OpKind::Analyze { verbose: false, show_statistics: true, schema: rendered },
        children: vec![leaf(schema_abc())],
    });
}

#[test]
fn analyze_schema_mismatch_is_rejected() {
    let plan = Plan {
        op: OpKind::Analyze { verbose: false, show_statistics: false, schema: schema_abc() },
        children: vec![leaf(schema_abc())],
    };
    let codec = DefaultPhysicalExtensionCodec {};
    let bytes = encode(&plan, &codec).expect("encode");
    let err = decode(&bytes, &FunctionRegistry::new(), &codec).expect_err("carried schema is wrong");
    assert_eq!(err.kind(), ErrorKind::SchemaMismatch);
}

#[test]
fn joins_round_trip() {
    let l = || leaf(Schema { fields: vec![field("l", DataType::Int32, false)] });
    let r = || leaf(Schema { fields: vec![field("r", DataType::Int64, true)] });
    check_round_trip(Plan {
        op: OpKind::CrossJoin,
        children: vec![l(), r()],
    });
    check_round_trip(Plan {
        op: OpKind::NestedLoopJoin { join_type: JoinType::Left, filter: None, projection: vec![0] },
        children: vec![l(), r()],
    });
    check_round_trip(Plan {
        op: OpKind::SymmetricHashJoin {
            on: vec![plan_codec::plan::JoinOn { left: col(0), right: col(0) }],
            join_type: JoinType::Inner,
            partition_mode: StreamPartitionMode::SinglePartition,
            null_equality: NullEquality::NullEqualsNull,
            filter: None,
            left_sort_exprs: vec![sort_on(0)],
            right_sort_exprs: vec![sort_on(0)],
        },
        children: vec![l(), r()],
    });
}

#[test]
fn unnest_round_trip() {
    check_round_trip(Plan {
        op: OpKind::Unnest {
            list_type_columns: vec![ListUnnest { index_in_input_schema: 0, depth: 1 }],
            struct_type_columns: vec![2],
            schema: schema_abc(),
            preserve_nulls: true,
        },
        children: vec![leaf(schema_abc())],
    });
}

#[test]
fn scans_round_trip() {
    let conf = || FileScanConfig {
        file_schema: schema_abc(),
        projection: vec![0, 2],
        limit: Some(100),
    };
    check_round_trip(Plan {
        op: OpKind::CsvScan {
            base_conf: conf(),
            has_header: true,
            delimiter: b',',
            quote: b'"',
            escape: Some(b'\\'),
            comment: None,
            newlines_in_values: false,
        },
        children: vec![],
    });
    check_round_trip(Plan {
        op: OpKind::JsonScan { base_conf: conf() },
        children: vec![],
    });
    check_round_trip(Plan {
        op: OpKind::AvroScan { base_conf: conf() },
        children: vec![],
    });
    check_round_trip(Plan {
        op: OpKind::ParquetScan {
            base_conf: conf(),
            predicate: Some(bin(BinOp::GtEq, col(1), lit(5))),
            parquet_options: vec![1, 0, 1],
        },
        children: vec![],
    });
}

#[test]
fn sinks_round_trip() {
    let order = || Some(vec![sort_on(0)]);
    check_round_trip(Plan {
        op: OpKind::CsvSink {
            sink: b"path=/tmp/out.csv".to_vec(),
            sink_schema: schema_abc(),
            sort_order: order(),
        },
        children: vec![leaf(schema_abc())],
    });
    check_round_trip(Plan {
        op: OpKind::JsonSink {
            sink: b"path=/tmp/out.json".to_vec(),
            sink_schema: schema_abc(),
            sort_order: None,
        },
        children: vec![leaf(schema_abc())],
    });
    check_round_trip(Plan {
        op: OpKind::ParquetSink {
            sink: b"path=/tmp/out.parquet".to_vec(),
            sink_schema: schema_abc(),
            sort_order: order(),
        },
        children: vec![leaf(schema_abc())],
    });
}

#[test]
fn nested_tree_round_trip() {
    let join = Plan {
        op: OpKind::CrossJoin,
        children: vec![leaf(schema_abc()), leaf(schema_abc())],
    };
    let filtered = Plan {
        op: OpKind::Filter {
            predicate: bin(BinOp::Eq, col(0), col(3)),
            projection: vec![],
            default_selectivity: 50,
        },
        children: vec![join],
    };
    check_round_trip(Plan {
        op: OpKind::GlobalLimit { skip: 0, fetch: Some(1) },
        children: vec![filtered],
    });
}
