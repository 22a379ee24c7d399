use builtin_table_updates::builtin_table_updates::BuiltinTableUpdate;
use builtin_table_updates::catalog::{
    BuiltinTableIds, CatalogEntry, CatalogItem, CatalogState, CatalogType, Column, ComputeInstance,
    Connector, ConnectorInner, Database, Func, FuncImpl, Index, IndexKey, ObjectQualifiers,
    QualifiedObjectName, RelationDesc, ResolvedDatabaseSpecifier, Role, Schema, SchemaSpecifier,
    Sink, SinkConnector, SinkConnectorState, Source, SqlView, SystemItem, Table, TemporarySchema,
    Type, TypeCategory, Volatility,
};
use builtin_table_updates::datum::Datum;
use builtin_table_updates::ids::GlobalId;

fn s(x: &str) -> String {
    x.to_string()
}

fn text(x: &str) -> Datum {
    Datum::String(x.to_string())
}

fn builtin_ids() -> BuiltinTableIds {
    BuiltinTableIds {
        mz_array_types: GlobalId::System(1),
        mz_base_types: GlobalId::System(2),
        mz_clusters: GlobalId::System(3),
        mz_columns: GlobalId::System(4),
        mz_connectors: GlobalId::System(5),
        mz_databases: GlobalId::System(6),
        mz_functions: GlobalId::System(7),
        mz_indexes: GlobalId::System(8),
        mz_index_columns: GlobalId::System(9),
        mz_kafka_sinks: GlobalId::System(10),
        mz_list_types: GlobalId::System(11),
        mz_map_types: GlobalId::System(12),
        mz_pseudo_types: GlobalId::System(13),
        mz_roles: GlobalId::System(14),
        mz_schemas: GlobalId::System(15),
        mz_secrets: GlobalId::System(16),
        mz_sinks: GlobalId::System(17),
        mz_sources: GlobalId::System(18),
        mz_tables: GlobalId::System(19),
        mz_types: GlobalId::System(20),
        mz_views: GlobalId::System(21),
    }
}

fn column(name: &str, nullable: bool, ty: &str, oid: u32) -> Column {
    Column { name: s(name), nullable, pg_type_name: s(ty), pg_type_oid: oid }
}

fn entry(id: GlobalId, oid: u32, schema: i64, name: &str, volatility: Volatility, item: CatalogItem) -> CatalogEntry {
    CatalogEntry {
        id,
        oid,
        name: QualifiedObjectName {
            qualifiers: ObjectQualifiers {
                database_spec: ResolvedDatabaseSpecifier::Id(1),
                schema_spec: SchemaSpecifier::Id(schema),
            },
            item: s(name),
        },
        conn_id: None,
        volatility,
        item,
    }
}

fn state() -> CatalogState {
    let t = entry(
        GlobalId::User(1),
        20001,
        3,
        "t",
        Volatility::Volatile,
        CatalogItem::Table(Table {
            desc: RelationDesc {
                columns: vec![column("a", false, "int4", 23), column("b", true, "text", 25)],
            },
            defaults: vec![s("NULL"), s("'x'")],
        }),
    );
    let i = entry(
        GlobalId::User(2),
        20002,
        3,
        "t_idx",
        Volatility::Volatile,
        CatalogItem::Index(Index {
            on: GlobalId::User(1),
            keys: vec![IndexKey::Column(1), IndexKey::Expression { nullable: false }],
            key_parts: vec![s("b"), s("a + 1")],
            enabled: true,
            compute_instance: 1,
        }),
    );
    let v = entry(
        GlobalId::User(3),
        20003,
        3,
        "v",
        Volatility::Unknown,
        CatalogItem::View(SqlView {
            query: s("SELECT 1"),
            desc: RelationDesc { columns: vec![column("?column?", false, "int4", 23)] },
        }),
    );
    let f = entry(
        GlobalId::System(500),
        600,
        1,
        "f",
        Volatility::Nonvolatile,
        CatalogItem::Func(Func {
            impls: vec![
                FuncImpl {
                    oid: 700,
                    arg_typs: vec![s("int4"), s("text")],
                    variadic_typ: None,
                    return_typ: Some(s("text")),
                    return_is_set: false,
                },
                FuncImpl {
                    oid: 701,
                    arg_typs: vec![],
                    variadic_typ: Some(s("int4")),
                    return_typ: None,
                    return_is_set: true,
                },
            ],
        }),
    );
    let mut f = f;
    f.name.qualifiers.database_spec = ResolvedDatabaseSpecifier::Ambient;
    let secret = entry(GlobalId::User(4), 20004, 3, "sec", Volatility::Nonvolatile, CatalogItem::Secret);
    let mut temp = entry(
        GlobalId::User(5),
        20005,
        0,
        "tmp",
        Volatility::Volatile,
        CatalogItem::Table(Table { desc: RelationDesc { columns: vec![] }, defaults: vec![] }),
    );
    temp.name.qualifiers = ObjectQualifiers {
        database_spec: ResolvedDatabaseSpecifier::Ambient,
        schema_spec: SchemaSpecifier::Temporary,
    };
    temp.conn_id = Some(7);
    CatalogState {
        database_by_id: vec![Database {
            id: 1,
            oid: 16384,
            name: s("materialize"),
            schemas: vec![Schema { id: SchemaSpecifier::Id(3), oid: 16385, name: s("public") }],
        }],
        ambient_schemas_by_id: vec![Schema { id: SchemaSpecifier::Id(1), oid: 11, name: s("mz_catalog") }],
        temporary_schemas: vec![TemporarySchema {
            conn_id: 7,
            schema: Schema { id: SchemaSpecifier::Temporary, oid: 99, name: s("mz_temp") },
        }],
        roles: vec![Role { name: s("materialize"), id: 1, oid: 16386 }],
        compute_instances_by_name: vec![ComputeInstance { name: s("default"), id: 1 }],
        entries: vec![t, i, v, f, secret, temp],
        system_items: vec![
            SystemItem { name: s("int4"), id: GlobalId::System(1001) },
            SystemItem { name: s("text"), id: GlobalId::System(1002) },
            SystemItem { name: s("int4"), id: GlobalId::System(9999) },
        ],
        builtin_tables: builtin_ids(),
    }
}

fn expect(u: &BuiltinTableUpdate, table: u64, row: Vec<Datum>, diff: i64) {
    assert_eq!(u.id, GlobalId::System(table));
    assert_eq!(u.row.unpack(), &row);
    assert_eq!(u.diff, diff);
}

#[test]
fn global_id_text() {
    assert_eq!(GlobalId::System(0).to_string(), "s0");
    assert_eq!(GlobalId::User(42).to_string(), "u42");
    assert_eq!(GlobalId::Transient(1234567890).to_string(), "t1234567890");
    assert_eq!(GlobalId::User(u64::MAX).to_string(), "u18446744073709551615");
}

#[test]
fn database_update() {
    let st = state();
    let u = st.pack_database_update(1, 1);
    expect(&u, 6, vec![Datum::Int64(1), Datum::UInt32(16384), text("materialize")], 1);
}

#[test]
fn schema_update_in_database_and_ambient() {
    let st = state();
    let u = st.pack_schema_update(&ResolvedDatabaseSpecifier::Id(1), 3, 1);
    expect(&u, 15, vec![Datum::Int64(3), Datum::UInt32(16385), Datum::Int64(1), text("public")], 1);
    let u = st.pack_schema_update(&ResolvedDatabaseSpecifier::Ambient, 1, -1);
    expect(&u, 15, vec![Datum::Int64(1), Datum::UInt32(11), Datum::Null, text("mz_catalog")], -1);
}

#[test]
fn role_and_cluster_updates() {
    let st = state();
    let u = st.pack_role_update("materialize", 1);
    expect(&u, 14, vec![Datum::Int64(1), Datum::UInt32(16386), text("materialize")], 1);
    let u = st.pack_compute_instance_update("default", -1);
    expect(&u, 3, vec![Datum::Int64(1), text("default")], -1);
}

#[test]
fn table_item_with_columns_and_defaults() {
    let st = state();
    let us = st.pack_item_update(GlobalId::User(1), 1);
    assert_eq!(us.len(), 3);
    expect(&us[0], 19, vec![text("u1"), Datum::UInt32(20001), Datum::Int64(3), text("t")], 1);
    expect(
        &us[1],
        4,
        vec![text("u1"), text("a"), Datum::Int64(1), Datum::False, text("int4"), text("NULL"), Datum::UInt32(23)],
        1,
    );
    expect(
        &us[2],
        4,
        vec![text("u1"), text("b"), Datum::Int64(2), Datum::True, text("text"), text("'x'"), Datum::UInt32(25)],
        1,
    );
}

#[test]
fn temporary_table_records_temporary_schema() {
    let st = state();
    let us = st.pack_item_update(GlobalId::User(5), 1);
    assert_eq!(us.len(), 1);
    expect(&us[0], 19, vec![text("u5"), Datum::UInt32(20005), Datum::Int64(-1), text("tmp")], 1);
}

#[test]
fn index_item_updates() {
    let st = state();
    let us = st.pack_item_update(GlobalId::User(2), 1);
    assert_eq!(us.len(), 3);
    expect(
        &us[0],
        8,
        vec![
            text("u2"),
            Datum::UInt32(20002),
            text("t_idx"),
            text("u1"),
            text("volatile"),
            Datum::True,
            Datum::Int64(1),
        ],
        1,
    );
    expect(&us[1], 9, vec![text("u2"), Datum::Int64(1), Datum::Int64(2), Datum::Null, Datum::True], 1);
    expect(&us[2], 9, vec![text("u2"), Datum::Int64(2), Datum::Null, text("a + 1"), Datum::False], 1);
}

#[test]
fn view_item_updates() {
    let st = state();
    let us = st.pack_item_update(GlobalId::User(3), 1);
    assert_eq!(us.len(), 2);
    expect(
        &us[0],
        21,
        vec![
            text("u3"),
            Datum::UInt32(20003),
            Datum::Int64(3),
            text("v"),
            text("unknown"),
            text("SELECT 1;"),
        ],
        1,
    );
    expect(
        &us[1],
        4,
        vec![text("u3"), text("?column?"), Datum::Int64(1), Datum::False, text("int4"), Datum::Null, Datum::UInt32(23)],
        1,
    );
}

#[test]
fn func_item_updates() {
    let st = state();
    let us = st.pack_item_update(GlobalId::System(500), 1);
    assert_eq!(us.len(), 2);
    expect(
        &us[0],
        7,
        vec![
            text("s500"),
            Datum::UInt32(700),
            Datum::Int64(1),
            text("f"),
            Datum::TextArray(vec![s("s1001"), s("s1002")]),
            Datum::Null,
            text("s1002"),
            Datum::False,
        ],
        1,
    );
    expect(
        &us[1],
        7,
        vec![
            text("s500"),
            Datum::UInt32(701),
            Datum::Int64(1),
            text("f"),
            Datum::TextArray(vec![]),
            text("s1001"),
            Datum::Null,
            Datum::True,
        ],
        1,
    );
}

#[test]
fn secret_item_updates() {
    let st = state();
    let us = st.pack_item_update(GlobalId::User(4), -1);
    assert_eq!(us.len(), 1);
    expect(&us[0], 16, vec![text("u4"), Datum::Int64(3), text("sec")], -1);
}

#[test]
fn source_and_connector_updates() {
    let mut st = state();
    st.entries.push(entry(
        GlobalId::User(9),
        20009,
        3,
        "src",
        Volatility::Nonvolatile,
        CatalogItem::Source(Source { connector_name: s("kafka"), desc: RelationDesc { columns: vec![] } }),
    ));
    let us = st.pack_source_update(
        GlobalId::User(9),
        20009,
        &SchemaSpecifier::Id(3),
        "src",
        &Source { connector_name: s("kafka"), desc: RelationDesc { columns: vec![] } },
        1,
    );
    assert_eq!(us.len(), 1);
    expect(
        &us[0],
        18,
        vec![text("u9"), Datum::UInt32(20009), Datum::Int64(3), text("src"), text("kafka"), text("nonvolatile")],
        1,
    );
    let us = st.pack_connector_update(
        GlobalId::User(10),
        20010,
        &SchemaSpecifier::Id(3),
        "conn",
        &Connector { connector: ConnectorInner::Kafka },
        1,
    );
    expect(&us[0], 5, vec![text("u10"), Datum::UInt32(20010), Datum::Int64(3), text("conn"), text("kafka")], 1);
}

#[test]
fn sink_updates_by_connector_state() {
    let mut st = state();
    st.entries.push(entry(GlobalId::User(11), 20011, 3, "snk", Volatility::Volatile, CatalogItem::Secret));
    let pending = Sink { connector: SinkConnectorState::Pending, compute_instance: 1 };
    let us = st.pack_sink_update(GlobalId::User(11), 20011, &SchemaSpecifier::Id(3), "snk", &pending, 1);
    assert!(us.is_empty());

    let kafka = Sink {
        connector: SinkConnectorState::Ready(SinkConnector::Kafka {
            topic: s("topic"),
            consistency_topic: Some(s("topic-consistency")),
        }),
        compute_instance: 2,
    };
    let us = st.pack_sink_update(GlobalId::User(11), 20011, &SchemaSpecifier::Id(3), "snk", &kafka, 1);
    assert_eq!(us.len(), 2);
    expect(&us[0], 10, vec![text("u11"), text("topic"), text("topic-consistency")], 1);
    expect(
        &us[1],
        17,
        vec![
            text("u11"),
            Datum::UInt32(20011),
            Datum::Int64(3),
            text("snk"),
            text("kafka"),
            text("volatile"),
            Datum::Int64(2),
        ],
        1,
    );

    let no_consistency = Sink {
        connector: SinkConnectorState::Ready(SinkConnector::Kafka { topic: s("t2"), consistency_topic: None }),
        compute_instance: 2,
    };
    let us = st.pack_sink_update(GlobalId::User(11), 20011, &SchemaSpecifier::Id(3), "snk", &no_consistency, -1);
    expect(&us[0], 10, vec![text("u11"), text("t2"), Datum::Null], -1);

    let tail = Sink { connector: SinkConnectorState::Ready(SinkConnector::Tail), compute_instance: 3 };
    let us = st.pack_sink_update(GlobalId::User(11), 20011, &SchemaSpecifier::Id(3), "snk", &tail, 1);
    assert_eq!(us.len(), 1);
    assert_eq!(us[0].row.unpack()[4], text("tail"));
}

#[test]
fn type_updates_by_category() {
    let st = state();
    let cases = vec![
        (CatalogType::Array { element_reference: GlobalId::System(16) }, "array", 1u64, vec![text("u20"), text("s16")]),
        (CatalogType::List { element_reference: GlobalId::User(7) }, "list", 11, vec![text("u20"), text("u7")]),
        (
            CatalogType::MapType { key_reference: GlobalId::System(25), value_reference: GlobalId::System(23) },
            "map",
            12,
            vec![text("u20"), text("s25"), text("s23")],
        ),
        (CatalogType::Pseudo, "pseudo", 13, vec![text("u20")]),
        (CatalogType::Base, "base", 2, vec![text("u20")]),
    ];
    for (typ, category, table, row) in cases {
        let us = st.pack_type_update(GlobalId::User(20), 30000, &SchemaSpecifier::Id(3), "ty", &Type { typ }, 1);
        assert_eq!(us.len(), 2);
        expect(
            &us[0],
            20,
            vec![text("u20"), Datum::UInt32(30000), Datum::Int64(3), text("ty"), text(category)],
            1,
        );
        expect(&us[1], table, row, 1);
    }
}

#[test]
fn type_category_names() {
    assert_eq!(TypeCategory::from_catalog_type(&CatalogType::Base).to_string(), "base");
    assert_eq!(TypeCategory::from_catalog_type(&CatalogType::Pseudo).to_string(), "pseudo");
    assert_eq!(
        TypeCategory::from_catalog_type(&CatalogType::MapType {
            key_reference: GlobalId::System(1),
            value_reference: GlobalId::System(2)
        })
        .to_string(),
        "map"
    );
}

#[test]
fn retraction_mirrors_addition() {
    let st = state();
    for id in [GlobalId::User(1), GlobalId::User(2), GlobalId::User(3), GlobalId::System(500), GlobalId::User(4)] {
        let add = st.pack_item_update(id, 1);
        let retract = st.pack_item_update(id, -1);
        assert_eq!(add.len(), retract.len());
        for (a, r) in add.iter().zip(retract.iter()) {
            assert_eq!(a.id, r.id);
            assert_eq!(a.row, r.row);
            assert_eq!(a.diff, 1);
            assert_eq!(r.diff, -1);
        }
    }
}

#[test]
fn item_rows_start_with_item_id_and_are_disjoint() {
    let st = state();
    let ids = [GlobalId::User(1), GlobalId::User(2), GlobalId::User(3), GlobalId::System(500), GlobalId::User(4)];
    for id in ids {
        for u in st.pack_item_update(id, 1) {
            assert_eq!(u.row.unpack()[0], Datum::String(id.to_string()));
        }
    }
    let a = st.pack_item_update(GlobalId::User(1), 1);
    let b = st.pack_item_update(GlobalId::User(3), 1);
    for x in &a {
        for y in &b {
            assert_ne!(x.row, y.row);
        }
    }
}

#[test]
fn rows_fit_their_tables() {
    let st = state();
    let arity = |table: GlobalId| -> usize {
        match table {
            GlobalId::System(4) => 7,
            GlobalId::System(7) => 8,
            GlobalId::System(8) => 7,
            GlobalId::System(9) => 5,
            GlobalId::System(16) => 3,
            GlobalId::System(19) => 4,
            GlobalId::System(21) => 6,
            other => panic!("unexpected table {:?}", other),
        }
    };
    for id in [GlobalId::User(1), GlobalId::User(2), GlobalId::User(3), GlobalId::System(500), GlobalId::User(4)] {
        for u in st.pack_item_update(id, 1) {
            assert_eq!(u.row.len(), arity(u.id));
        }
    }
}

#[test]
fn object_retraction_mirrors_addition() {
    let st = state();
    let pairs = vec![
        (st.pack_database_update(1, 1), st.pack_database_update(1, -1)),
        (
            st.pack_schema_update(&ResolvedDatabaseSpecifier::Id(1), 3, 1),
            st.pack_schema_update(&ResolvedDatabaseSpecifier::Id(1), 3, -1),
        ),
        (st.pack_role_update("materialize", 1), st.pack_role_update("materialize", -1)),
        (st.pack_compute_instance_update("default", 1), st.pack_compute_instance_update("default", -1)),
    ];
    for (a, r) in pairs {
        assert_eq!(a.id, r.id);
        assert_eq!(a.row, r.row);
        assert_eq!((a.diff, r.diff), (1, -1));
    }
}

#[test]
fn distinct_ids_have_distinct_texts() {
    let ids = [
        GlobalId::System(1),
        GlobalId::User(1),
        GlobalId::Transient(1),
        GlobalId::User(10),
        GlobalId::User(101),
        GlobalId::System(11),
    ];
    for a in ids {
        for b in ids {
            assert_eq!(a == b, a.to_string() == b.to_string());
        }
    }
}

#[test]
fn system_types_resolve_to_first_match() {
    let st = state();
    let found = st.get_entry_in_system_schemas(&s("int4"));
    assert_eq!(found.id, GlobalId::System(1001));
}
