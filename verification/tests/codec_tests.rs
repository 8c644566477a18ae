use plan_codec::error::ErrorKind;
use plan_codec::expr::{AggExpr, BinOp, ColumnIndex, Expr, JoinFilter, JoinSide, SortExpr, WindowExpr};
use plan_codec::extension::DefaultPhysicalExtensionCodec;
use plan_codec::codec_plan::{decode, encode};
use plan_codec::output::schema_of;
use plan_codec::plan::{FileScanConfig, InputOrderMode, JoinOn, JoinType, NullEquality, OpKind, PartitionMode, Plan};
use plan_codec::plan::AggregateMode;
use plan_codec::registry::FunctionRegistry;
use plan_codec::schema::{DataType, Field, Schema};

fn field(name: &str, data_type: DataType, nullable: bool) -> Field {
    Field { name: name.as_bytes().to_vec(), data_type, nullable }
}

fn schema_abc() -> Schema {
    Schema {
        fields: vec![
            field("a", DataType::Int32, false),
            field("b", DataType::Int32, false),
            field("c", DataType::Int32, false),
        ],
    }
}

fn col(index: u64) -> Expr {
    Expr::Column { index }
}

fn lit(value: i64) -> Expr {
    Expr::Literal { value }
}

fn bin(op: BinOp, left: Expr, right: Expr) -> Expr {
    Expr::Binary { op, left: Box::new(left), right: Box::new(right) }
}

fn leaf(schema: Schema) -> Plan {
    Plan { op: OpKind::Empty { schema }, children: vec![] }
}

fn registry() -> FunctionRegistry {
    let mut r = FunctionRegistry::new();
    r.register_udaf(b"sum".to_vec());
    r.register_udwf(b"rank".to_vec());
    r
}

fn round_trip(plan: &Plan) -> Plan {
    let codec = DefaultPhysicalExtensionCodec {};
    let bytes = encode(plan, &codec).expect("encode");
    decode(&bytes, &registry(), &codec).expect("decode")
}

#[test]
fn filter_with_projection() {
    // predicate over the projected slice: column 0 of {b, c}
    let input = leaf(schema_abc());
    let plan = Plan {
        op: OpKind::Filter {
            predicate: bin(BinOp::Gt, col(0), lit(10)),
            projection: vec![1, 2],
            default_selectivity: 20,
        },
        children: vec![input],
    };
    let back = round_trip(&plan);
    assert_eq!(back, plan);
    match &back.op {
        OpKind::Filter { predicate, projection, default_selectivity } => {
            assert_eq!(*predicate, bin(BinOp::Gt, col(0), lit(10)));
            assert_eq!(projection, &vec![1, 2]);
            assert_eq!(*default_selectivity, 20);
        },
        other => panic!("not a filter: {:?}", other),
    }
    let out = schema_of(&back);
    assert_eq!(out.fields.len(), 2);
    assert_eq!(out.fields[0].name, b"b".to_vec());
    assert_eq!(out.fields[1].name, b"c".to_vec());
}

#[test]
fn aggregate_grouping_sets() {
    let input = leaf(schema_abc());
    let groups = vec![
        vec![true, false],
        vec![false, true],
        vec![true, true],
    ];
    let plan = Plan {
        op: OpKind::Aggregate {
            mode: AggregateMode::Partial,
            group_exprs: vec![col(0), col(1)],
            group_names: vec![b"a".to_vec(), b"b".to_vec()],
            null_exprs: vec![col(0), col(1)],
            groups: groups.clone(),
            aggr_exprs: vec![AggExpr {
                alias: b"sum(c)".to_vec(),
                udaf_name: b"sum".to_vec(),
                fun_definition: None,
                args: vec![col(2)],
                order_by: vec![],
                distinct: false,
                ignore_nulls: false,
            }],
            filter_exprs: vec![None],
            input_schema: schema_abc(),
            limit: None,
        },
        children: vec![input],
    };
    let back = round_trip(&plan);
    assert_eq!(back, plan);
    match &back.op {
        OpKind::Aggregate { groups: g, .. } => assert_eq!(g, &groups),
        other => panic!("not an aggregate: {:?}", other),
    }
}

#[test]
fn hash_join_with_filter() {
    let left = leaf(Schema { fields: vec![field("l", DataType::Int32, false)] });
    let right = leaf(Schema { fields: vec![field("r", DataType::Int32, false)] });
    let plan = Plan {
        op: OpKind::HashJoin {
            on: vec![JoinOn { left: col(0), right: col(0) }],
            join_type: JoinType::Inner,
            partition_mode: PartitionMode::Partitioned,
            null_equality: NullEquality::NullEqualsNothing,
            filter: Some(JoinFilter {
                expression: bin(BinOp::Lt, bin(BinOp::Plus, col(0), col(1)), lit(100)),
                column_indices: vec![
                    ColumnIndex { index: 0, side: JoinSide::Left },
                    ColumnIndex { index: 0, side: JoinSide::Right },
                ],
                schema: Schema {
                    fields: vec![
                        field("l", DataType::Int32, false),
                        field("r", DataType::Int32, false),
                    ],
                },
            }),
            projection: vec![],
        },
        children: vec![left, right],
    };
    let back = round_trip(&plan);
    assert_eq!(back, plan);
    let out = schema_of(&back);
    assert_eq!(out.fields.len(), 2);
}

#[test]
fn sort_requires_an_ordering() {
    let plan = Plan {
        op: OpKind::Sort { exprs: vec![], fetch: None, preserve_partitioning: false },
        children: vec![leaf(schema_abc())],
    };
    let codec = DefaultPhysicalExtensionCodec {};
    let bytes = encode(&plan, &codec).expect("encode");
    let err = decode(&bytes, &registry(), &codec).expect_err("empty ordering must fail");
    assert_eq!(err.kind(), ErrorKind::Malformed);
    assert_eq!(err.message().as_str(), "SortExec requires an ordering");
}

#[test]
fn window_input_order_mode() {
    let plan = Plan {
        op: OpKind::Window {
            window_exprs: vec![WindowExpr {
                alias: b"w".to_vec(),
                udwf_name: b"rank".to_vec(),
                fun_definition: None,
                args: vec![col(0)],
                order_by: vec![SortExpr { expr: col(1), asc: true, nulls_first: false }],
            }],
            partition_keys: vec![col(0)],
            input_order_mode: Some(InputOrderMode::PartiallySorted { columns: vec![0, 2] }),
        },
        children: vec![leaf(schema_abc())],
    };
    let back = round_trip(&plan);
    assert_eq!(back, plan);
    match &back.op {
        OpKind::Window { input_order_mode, .. } => {
            assert_eq!(
                *input_order_mode,
                Some(InputOrderMode::PartiallySorted { columns: vec![0, 2] })
            );
        },
        other => panic!("not a window: {:?}", other),
    }
}

#[test]
fn encoding_is_deterministic() {
    let plan = Plan {
        op: OpKind::Filter {
            predicate: bin(BinOp::And, bin(BinOp::Gt, col(0), lit(3)), bin(BinOp::Lt, col(2), lit(9))),
            projection: vec![],
            default_selectivity: 20,
        },
        children: vec![leaf(schema_abc())],
    };
    let codec = DefaultPhysicalExtensionCodec {};
    let once = encode(&plan, &codec).expect("encode");
    let twice = encode(&plan, &codec).expect("encode again");
    assert_eq!(once, twice);
}

#[test]
fn missing_envelope_is_malformed() {
    let codec = DefaultPhysicalExtensionCodec {};
    // a zero tag means no populated variant
    let err = decode(&vec![0u8], &registry(), &codec).expect_err("zero tag");
    assert_eq!(err.kind(), ErrorKind::Malformed);
    assert_eq!(err.message().as_str(), "missing physical_plan_type");
}

#[test]
fn truncated_buffer_is_reported() {
    let plan = leaf(schema_abc());
    let codec = DefaultPhysicalExtensionCodec {};
    let bytes = encode(&plan, &codec).expect("encode");
    let cut = bytes[..bytes.len() - 1].to_vec();
    assert!(decode(&cut, &registry(), &codec).is_err());
}

#[test]
fn corrupt_selectivity_is_malformed() {
    let plan = Plan {
        op: OpKind::Filter {
            predicate: bin(BinOp::Gt, col(0), lit(10)),
            projection: vec![],
            default_selectivity: 20,
        },
        children: vec![leaf(schema_abc())],
    };
    let codec = DefaultPhysicalExtensionCodec {};
    let mut bytes = encode(&plan, &codec).expect("encode");
    // the selectivity byte is the varint 20 right before the child list;
    // find it and corrupt it to a value over one hundred
    let pos = bytes.iter().position(|b| *b == 20).expect("selectivity byte");
    bytes[pos] = 120;
    let err = decode(&bytes, &registry(), &codec).expect_err("selectivity over bound");
    assert_eq!(err.kind(), ErrorKind::Malformed);
}

#[test]
fn trailing_bytes_are_malformed() {
    let plan = leaf(schema_abc());
    let codec = DefaultPhysicalExtensionCodec {};
    let mut bytes = encode(&plan, &codec).expect("encode");
    bytes.push(7);
    let err = decode(&bytes, &registry(), &codec).expect_err("trailing byte");
    assert_eq!(err.kind(), ErrorKind::Malformed);
}

#[test]
fn schema_mismatch_is_reported() {
    // a predicate referencing a column the child does not have
    let plan = Plan {
        op: OpKind::Filter {
            predicate: bin(BinOp::Gt, col(9), lit(10)),
            projection: vec![],
            default_selectivity: 20,
        },
        children: vec![leaf(schema_abc())],
    };
    let codec = DefaultPhysicalExtensionCodec {};
    let bytes = encode(&plan, &codec).expect("encode");
    let err = decode(&bytes, &registry(), &codec).expect_err("bad column");
    assert_eq!(err.kind(), ErrorKind::SchemaMismatch);
}

#[test]
fn unknown_aggregate_is_unsupported() {
    let plan = Plan {
        op: OpKind::Aggregate {
            mode: AggregateMode::Single,
            group_exprs: vec![],
            group_names: vec![],
            null_exprs: vec![],
            groups: vec![],
            aggr_exprs: vec![AggExpr {
                alias: b"m".to_vec(),
                udaf_name: b"median_absolute".to_vec(),
                fun_definition: None,
                args: vec![col(0)],
                order_by: vec![],
                distinct: false,
                ignore_nulls: false,
            }],
            filter_exprs: vec![None],
            input_schema: schema_abc(),
            limit: None,
        },
        children: vec![leaf(schema_abc())],
    };
    let codec = DefaultPhysicalExtensionCodec {};
    let bytes = encode(&plan, &codec).expect("encode");
    let err = decode(&bytes, &registry(), &codec).expect_err("unknown function");
    assert_eq!(err.kind(), ErrorKind::Unsupported);
}
