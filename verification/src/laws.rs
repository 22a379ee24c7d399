//! Properties that hold of the updates of every catalog object.

use vstd::prelude::*;

use crate::builtin_table_updates::{id_value, UpdateView};
use crate::catalog::{
    entry_has_id, item_desc, schema_spec_id, system_item_named, table_arity, volatility_text,
    BuiltinTable, CatalogItem, CatalogState, CatalogType, Func, Index, IndexKey,
    ResolvedDatabaseSpecifier, SchemaSpecifier, Sink, SinkConnector, SinkConnectorState, Source,
    SqlView, Type, Connector, SYSTEM_CONN_ID,
};
use crate::lookup::first_match;
use crate::ids::{id_text, lemma_id_text_injective, GlobalId};
use crate::lookup::lemma_first_match_satisfies;
use crate::datum::DatumValue;

verus! {

/// The same updates with the diff replaced by `diff`.
pub open spec fn with_diff(us: Seq<UpdateView>, diff: i64) -> Seq<UpdateView> {
    us.map_values(|u: UpdateView| UpdateView { id: u.id, row: u.row, diff })
}

/// Retracting an item undoes adding it: the updates of an item under any
/// two diffs hold the same rows of the same tables, in the same order, and
/// each carries the diff it was asked for.
pub proof fn lemma_item_updates_differ_only_in_diff(
    state: CatalogState,
    id: GlobalId,
    d: i64,
    e: i64,
)
    requires
        state.item_ok(id),
    ensures
        state.item_updates(id, e) == with_diff(state.item_updates(id, d), e),
        forall|k: int|
            0 <= k < state.item_updates(id, d).len() ==> (#[trigger] state.item_updates(
                id,
                d,
            )[k]).diff == d,
{
    let entry = state.entry_with_id(id);
    assert(state.kind_updates(entry, e) =~= with_diff(state.kind_updates(entry, d), e));
    assert(state.column_updates(entry, e) =~= with_diff(state.column_updates(entry, d), e));
    assert(state.item_updates(id, e) =~= with_diff(state.item_updates(id, d), e));
}

/// Every row that describes an item begins with the text of the item's id,
/// so the rows of an item can be found by its id.
pub proof fn lemma_item_rows_start_with_id(state: CatalogState, id: GlobalId, diff: i64)
    requires
        state.item_ok(id),
    ensures
        forall|k: int|
            0 <= k < state.item_updates(id, diff).len() ==> {
                let row = (#[trigger] state.item_updates(id, diff)[k]).row;
                row.len() >= 1 && row[0] == id_value(id)
            },
{
    lemma_first_match_satisfies(state.entries@, entry_has_id(id));
    let entry = state.entry_with_id(id);
    assert(entry.id == id);
    let us = state.item_updates(id, diff);
    assert forall|k: int| 0 <= k < us.len() implies {
        let row = (#[trigger] us[k]).row;
        row.len() >= 1 && row[0] == id_value(id)
    } by {
        let n = state.kind_updates(entry, diff).len();
        if k >= n {
            assert(us[k] == state.column_updates(entry, diff)[k - n]);
        } else {
            assert(us[k] == state.kind_updates(entry, diff)[k]);
            match entry.item {
                CatalogItem::Sink(sink) => {
                    assert(state.kind_updates(entry, diff) == state.sink_updates(
                        entry.id,
                        entry.oid,
                        state.entry_schema_id(entry),
                        entry.name.item@,
                        sink,
                        diff,
                    ));
                },
                _ => {},
            }
        }
    }
}

/// Two distinct items are described by disjoint sets of rows: retracting
/// one never retracts a row of the other.
pub proof fn lemma_distinct_items_share_no_row(
    state: CatalogState,
    a: GlobalId,
    b: GlobalId,
    da: i64,
    db: i64,
)
    requires
        state.item_ok(a),
        state.item_ok(b),
        a != b,
    ensures
        forall|k: int, l: int|
            0 <= k < state.item_updates(a, da).len() && 0 <= l < state.item_updates(b, db).len()
                ==> #[trigger] state.item_updates(a, da)[k].row != #[trigger] state.item_updates(
                b,
                db,
            )[l].row,
{
    lemma_item_rows_start_with_id(state, a, da);
    lemma_item_rows_start_with_id(state, b, db);
    assert forall|k: int, l: int|
        0 <= k < state.item_updates(a, da).len() && 0 <= l < state.item_updates(b, db).len()
            implies #[trigger] state.item_updates(a, da)[k].row != #[trigger] state.item_updates(
            b,
            db,
        )[l].row by {
        let ra = state.item_updates(a, da)[k].row;
        let rb = state.item_updates(b, db)[l].row;
        if ra == rb {
            assert(id_value(a) == id_value(b));
            assert(id_text(a) == id_text(b));
            lemma_id_text_injective(a, b);
        }
    }
}

/// `u` updates one of the built-in tables, with a row of as many values as
/// that table has columns.
pub open spec fn fits_its_table(state: CatalogState, u: UpdateView) -> bool {
    exists|t: BuiltinTable| u.id == state.builtin_id(t) && u.row.len() == table_arity(t)
}

proof fn lemma_update_fits(state: CatalogState, t: BuiltinTable, row: Seq<DatumValue>, diff: i64)
    requires
        row.len() == table_arity(t),
    ensures
        fits_its_table(state, state.update(t, row, diff)),
{
    let u = state.update(t, row, diff);
    assert(u.id == state.builtin_id(t) && u.row.len() == table_arity(t));
}

/// Every update of an item writes a row of the shape of the table it
/// updates.
pub proof fn lemma_item_updates_fit_their_tables(state: CatalogState, id: GlobalId, diff: i64)
    requires
        state.item_ok(id),
    ensures
        forall|k: int|
            0 <= k < state.item_updates(id, diff).len() ==> fits_its_table(
                state,
                #[trigger] state.item_updates(id, diff)[k],
            ),
{
    let entry = state.entry_with_id(id);
    let us = state.item_updates(id, diff);
    let kinds = state.kind_updates(entry, diff);
    let columns = state.column_updates(entry, diff);
    assert forall|k: int| 0 <= k < us.len() implies fits_its_table(state, #[trigger] us[k]) by {
        let n = kinds.len();
        if k >= n {
            assert(us[k] == columns[k - n]);
            lemma_update_fits(state, BuiltinTable::MzColumns, us[k].row, diff);
        } else {
            assert(us[k] == kinds[k]);
            let schema_id = state.entry_schema_id(entry);
            let name = entry.name.item@;
            match entry.item {
                CatalogItem::Index(index) => {
                    if k == 0 {
                        lemma_update_fits(state, BuiltinTable::MzIndexes, us[k].row, diff);
                    } else {
                        lemma_update_fits(state, BuiltinTable::MzIndexColumns, us[k].row, diff);
                    }
                },
                CatalogItem::Table(_) => {
                    lemma_update_fits(state, BuiltinTable::MzTables, us[k].row, diff);
                },
                CatalogItem::Source(_) => {
                    lemma_update_fits(state, BuiltinTable::MzSources, us[k].row, diff);
                },
                CatalogItem::View(_) => {
                    lemma_update_fits(state, BuiltinTable::MzViews, us[k].row, diff);
                },
                CatalogItem::Sink(sink) => {
                    assert(kinds == state.sink_updates(entry.id, entry.oid, schema_id, name, sink, diff));
                    if k == n - 1 {
                        lemma_update_fits(state, BuiltinTable::MzSinks, us[k].row, diff);
                    } else {
                        lemma_update_fits(state, BuiltinTable::MzKafkaSinks, us[k].row, diff);
                    }
                },
                CatalogItem::Type(typ) => {
                    if k == 0 {
                        lemma_update_fits(state, BuiltinTable::MzTypes, us[k].row, diff);
                    } else {
                        match typ.typ {
                            CatalogType::Array { .. } => {
                                lemma_update_fits(state, BuiltinTable::MzArrayTypes, us[k].row, diff);
                            },
                            CatalogType::List { .. } => {
                                lemma_update_fits(state, BuiltinTable::MzListTypes, us[k].row, diff);
                            },
                            CatalogType::MapType { .. } => {
                                lemma_update_fits(state, BuiltinTable::MzMapTypes, us[k].row, diff);
                            },
                            CatalogType::Pseudo => {
                                lemma_update_fits(state, BuiltinTable::MzPseudoTypes, us[k].row, diff);
                            },
                            CatalogType::Base => {
                                lemma_update_fits(state, BuiltinTable::MzBaseTypes, us[k].row, diff);
                            },
                        }
                    }
                },
                CatalogItem::Func(_) => {
                    lemma_update_fits(state, BuiltinTable::MzFunctions, us[k].row, diff);
                },
                CatalogItem::Secret => {
                    lemma_update_fits(state, BuiltinTable::MzSecrets, us[k].row, diff);
                },
                CatalogItem::Connector(_) => {
                    lemma_update_fits(state, BuiltinTable::MzConnectors, us[k].row, diff);
                },
            }
        }
    }
}

/// Retracting a database, schema, role or cluster undoes adding it: its
/// update under any diff has the same table and row.
pub proof fn lemma_object_updates_differ_only_in_diff(
    state: CatalogState,
    database_id: i64,
    database_spec: ResolvedDatabaseSpecifier,
    schema_id: i64,
    name: Seq<char>,
    d: i64,
    e: i64,
)
    ensures
        state.database_update(database_id, e) == (UpdateView {
            diff: e,
            ..state.database_update(database_id, d)
        }),
        state.schema_update(database_spec, schema_id, e) == (UpdateView {
            diff: e,
            ..state.schema_update(database_spec, schema_id, d)
        }),
        state.role_update(name, e) == (UpdateView { diff: e, ..state.role_update(name, d) }),
        state.compute_instance_update(name, e) == (UpdateView {
            diff: e,
            ..state.compute_instance_update(name, d)
        }),
{
}

/// The text of the id of the first system item named `name`.
pub open spec fn system_type_text(state: CatalogState, name: Seq<char>) -> Seq<char> {
    id_text(first_match(state.system_items@, system_item_named(name)).id)
}

/// A function gets one `mz_functions` row per implementation, in order;
/// the row of implementation `k` names its oid, each argument type, its
/// variadic type and its return type by the id of the first system item of
/// that name (`NULL` for an absent variadic or return type, whether or not
/// the function returns a set), and whether it returns a set.
pub proof fn lemma_func_rows_name_their_types(
    state: CatalogState,
    id: GlobalId,
    schema_id: SchemaSpecifier,
    name: Seq<char>,
    func: Func,
    diff: i64,
)
    requires
        state.func_ok(func),
    ensures
        state.func_updates(id, schema_id, name, func, diff).len() == func.impls.len(),
        forall|k: int|
            0 <= k < func.impls.len() ==> {
                let u = #[trigger] state.func_updates(id, schema_id, name, func, diff)[k];
                let imp = func.impls@[k];
                &&& u.id == state.builtin_id(BuiltinTable::MzFunctions)
                &&& u.diff == diff
                &&& u.row.len() == 8
                &&& u.row[0] == DatumValue::String(id_text(id))
                &&& u.row[1] == DatumValue::UInt32(imp.oid)
                &&& u.row[2] == DatumValue::Int64(schema_spec_id(schema_id))
                &&& u.row[3] == DatumValue::String(name)
                &&& u.row[4] matches DatumValue::TextArray(args) && args.len()
                    == imp.arg_typs.len() && forall|j: int|
                    0 <= j < args.len() ==> #[trigger] args[j] == system_type_text(
                        state,
                        imp.arg_typs@[j]@,
                    )
                &&& u.row[5] == match imp.variadic_typ {
                    Some(t) => DatumValue::String(system_type_text(state, t@)),
                    None => DatumValue::Null,
                }
                &&& u.row[6] == match imp.return_typ {
                    Some(t) => DatumValue::String(system_type_text(state, t@)),
                    None => DatumValue::Null,
                }
                &&& u.row[7] == if imp.return_is_set {
                    DatumValue::True
                } else {
                    DatumValue::False
                }
            },
{
}

/// An index gets its `mz_indexes` row, then one `mz_index_columns` row per
/// key, in order: the key's position (from 1), the indexed column (from 1)
/// or the SQL text of the expression, and the key's own nullability (that
/// of the indexed column for a column key, the expression's for an
/// expression key).
pub proof fn lemma_index_key_rows(
    state: CatalogState,
    id: GlobalId,
    oid: u32,
    name: Seq<char>,
    index: Index,
    diff: i64,
)
    requires
        state.index_ok(id, index),
    ensures
        state.index_updates(id, oid, name, index, diff).len() == index.keys.len() + 1,
        state.index_updates(id, oid, name, index, diff)[0].id == state.builtin_id(
            BuiltinTable::MzIndexes,
        ),
        forall|k: int|
            0 <= k < index.keys.len() ==> {
                let u = #[trigger] state.index_updates(id, oid, name, index, diff)[k + 1];
                let nullable = match index.keys@[k] {
                    IndexKey::Column(col) => item_desc(
                        state.entry_with_id(index.on).item,
                    ).unwrap().columns@[col as int].nullable,
                    IndexKey::Expression { nullable } => nullable,
                };
                &&& u.id == state.builtin_id(BuiltinTable::MzIndexColumns)
                &&& u.diff == diff
                &&& u.row.len() == 5
                &&& u.row[0] == DatumValue::String(id_text(id))
                &&& u.row[1] == DatumValue::Int64((k + 1) as i64)
                &&& u.row[2] == match index.keys@[k] {
                    IndexKey::Column(col) => DatumValue::Int64((col + 1) as i64),
                    IndexKey::Expression { .. } => DatumValue::Null,
                }
                &&& u.row[3] == match index.keys@[k] {
                    IndexKey::Column(_) => DatumValue::Null,
                    IndexKey::Expression { .. } => DatumValue::String(index.key_parts@[k]@),
                }
                &&& u.row[4] == if nullable {
                    DatumValue::True
                } else {
                    DatumValue::False
                }
            },
{
}

/// A table, source or view is described by the one row of its kind
/// (`mz_tables`, `mz_sources` or `mz_views`), followed by exactly one
/// `mz_columns` row per column of its relation, in order: the column's
/// name, position (from 1), nullability, type name, default (the SQL text
/// of the default for a table, `NULL` otherwise) and type oid.
pub proof fn lemma_relation_items_list_their_columns(state: CatalogState, id: GlobalId, diff: i64)
    requires
        state.item_ok(id),
        item_desc(state.entry_with_id(id).item).is_some(),
    ensures
        ({
            let entry = state.entry_with_id(id);
            let columns = item_desc(entry.item).unwrap().columns@;
            let us = state.item_updates(id, diff);
            &&& us.len() == columns.len() + 1
            &&& us[0].id == state.builtin_id(
                match entry.item {
                    CatalogItem::Table(_) => BuiltinTable::MzTables,
                    CatalogItem::Source(_) => BuiltinTable::MzSources,
                    _ => BuiltinTable::MzViews,
                },
            )
            &&& forall|k: int|
                0 <= k < columns.len() ==> {
                    let u = #[trigger] us[k + 1];
                    let column = columns[k];
                    &&& u.id == state.builtin_id(BuiltinTable::MzColumns)
                    &&& u.diff == diff
                    &&& u.row == seq![
                        DatumValue::String(id_text(id)),
                        DatumValue::String(column.name@),
                        DatumValue::Int64((k + 1) as i64),
                        if column.nullable {
                            DatumValue::True
                        } else {
                            DatumValue::False
                        },
                        DatumValue::String(column.pg_type_name@),
                        match entry.item {
                            CatalogItem::Table(t) => DatumValue::String(t.defaults@[k]@),
                            _ => DatumValue::Null,
                        },
                        DatumValue::UInt32(column.pg_type_oid),
                    ]
                }
        }),
{
    lemma_first_match_satisfies(state.entries@, entry_has_id(id));
    let entry = state.entry_with_id(id);
    assert(entry.id == id);
    let n = state.kind_updates(entry, diff).len();
    assert(n == 1);
    let us = state.item_updates(id, diff);
    assert forall|k: int| 0 <= k < item_desc(entry.item).unwrap().columns@.len() implies #[trigger] us[k
        + 1] == state.column_update(entry, k, diff) by {
        assert(us[k + 1] == state.column_updates(entry, diff)[k]);
    }
}

/// A source's `mz_sources` row records the source's id, oid, schema and
/// name, its own connector name, and its volatility.
pub proof fn lemma_source_row_records_its_connector(
    state: CatalogState,
    id: GlobalId,
    oid: u32,
    schema_id: SchemaSpecifier,
    name: Seq<char>,
    source: Source,
    diff: i64,
)
    ensures
        state.source_updates(id, oid, schema_id, name, source, diff).len() == 1,
        ({
            let u = state.source_updates(id, oid, schema_id, name, source, diff)[0];
            &&& u.id == state.builtin_id(BuiltinTable::MzSources)
            &&& u.diff == diff
            &&& u.row.len() == 6
            &&& u.row[0] == DatumValue::String(id_text(id))
            &&& u.row[1] == DatumValue::UInt32(oid)
            &&& u.row[2] == DatumValue::Int64(schema_spec_id(schema_id))
            &&& u.row[3] == DatumValue::String(name)
            &&& u.row[4] == DatumValue::String(source.connector_name@)
            &&& u.row[5] == DatumValue::String(
                volatility_text(state.entry_with_id(id).volatility),
            )
        }),
{
}

/// A pending sink is described by no row; a ready Kafka sink by an
/// `mz_kafka_sinks` row holding its topic and its own consistency topic
/// (`NULL` when it has none), then its `mz_sinks` row; any other ready sink
/// by its `mz_sinks` row alone.
pub proof fn lemma_sink_rows(
    state: CatalogState,
    id: GlobalId,
    oid: u32,
    schema_id: SchemaSpecifier,
    name: Seq<char>,
    sink: Sink,
    diff: i64,
)
    ensures
        ({
            let us = state.sink_updates(id, oid, schema_id, name, sink, diff);
            match sink.connector {
                SinkConnectorState::Pending => us.len() == 0,
                SinkConnectorState::Ready(SinkConnector::Kafka { topic, consistency_topic }) => {
                    &&& us.len() == 2
                    &&& us[0].id == state.builtin_id(BuiltinTable::MzKafkaSinks)
                    &&& us[0].diff == diff
                    &&& us[0].row == seq![
                        DatumValue::String(id_text(id)),
                        DatumValue::String(topic@),
                        match consistency_topic {
                            Some(c) => DatumValue::String(c@),
                            None => DatumValue::Null,
                        },
                    ]
                    &&& us[1].id == state.builtin_id(BuiltinTable::MzSinks)
                    &&& us[1].row[0] == DatumValue::String(id_text(id))
                    &&& us[1].row[4] == DatumValue::String("kafka"@)
                    &&& us[1].row[6] == DatumValue::Int64(sink.compute_instance)
                },
                SinkConnectorState::Ready(SinkConnector::Tail) => {
                    &&& us.len() == 1
                    &&& us[0].id == state.builtin_id(BuiltinTable::MzSinks)
                    &&& us[0].row[4] == DatumValue::String("tail"@)
                },
            }
        }),
{
    let us = state.sink_updates(id, oid, schema_id, name, sink, diff);
    match sink.connector {
        SinkConnectorState::Ready(SinkConnector::Kafka { topic, consistency_topic }) => {
            assert(us[0].row =~= seq![
                DatumValue::String(id_text(id)),
                DatumValue::String(topic@),
                match consistency_topic {
                    Some(c) => DatumValue::String(c@),
                    None => DatumValue::Null,
                },
            ]);
        },
        _ => {},
    }
}

/// A view's `mz_views` row records its id, oid, schema, name and
/// volatility, and as its definition the text of its query followed by a
/// semicolon.
pub proof fn lemma_view_row_ends_definition_with_semicolon(
    state: CatalogState,
    id: GlobalId,
    oid: u32,
    schema_id: SchemaSpecifier,
    name: Seq<char>,
    view: SqlView,
    diff: i64,
)
    ensures
        state.view_updates(id, oid, schema_id, name, view, diff).len() == 1,
        ({
            let u = state.view_updates(id, oid, schema_id, name, view, diff)[0];
            &&& u.id == state.builtin_id(BuiltinTable::MzViews)
            &&& u.diff == diff
            &&& u.row == seq![
                DatumValue::String(id_text(id)),
                DatumValue::UInt32(oid),
                DatumValue::Int64(schema_spec_id(schema_id)),
                DatumValue::String(name),
                DatumValue::String(volatility_text(state.entry_with_id(id).volatility)),
                DatumValue::String(view.query@.push(';')),
            ]
        }),
{
    let u = state.view_updates(id, oid, schema_id, name, view, diff)[0];
    assert(view.query@ + seq![';'] =~= view.query@.push(';'));
    assert(u.row =~= seq![
        DatumValue::String(id_text(id)),
        DatumValue::UInt32(oid),
        DatumValue::Int64(schema_spec_id(schema_id)),
        DatumValue::String(name),
        DatumValue::String(volatility_text(state.entry_with_id(id).volatility)),
        DatumValue::String(view.query@.push(';')),
    ]);
}

/// Tables, connectors and secrets are described by one row each, holding
/// the id, oid (not for secrets), schema and name that were given, and for
/// a connector the kind of service it connects to.
pub proof fn lemma_table_connector_secret_rows(
    state: CatalogState,
    id: GlobalId,
    oid: u32,
    schema_id: SchemaSpecifier,
    name: Seq<char>,
    connector: Connector,
    diff: i64,
)
    ensures
        state.table_updates(id, oid, schema_id, name, diff) == seq![
            UpdateView {
                id: state.builtin_id(BuiltinTable::MzTables),
                row: seq![
                    DatumValue::String(id_text(id)),
                    DatumValue::UInt32(oid),
                    DatumValue::Int64(schema_spec_id(schema_id)),
                    DatumValue::String(name),
                ],
                diff,
            },
        ],
        state.connector_updates(id, oid, schema_id, name, connector, diff) == seq![
            UpdateView {
                id: state.builtin_id(BuiltinTable::MzConnectors),
                row: seq![
                    DatumValue::String(id_text(id)),
                    DatumValue::UInt32(oid),
                    DatumValue::Int64(schema_spec_id(schema_id)),
                    DatumValue::String(name),
                    DatumValue::String("kafka"@),
                ],
                diff,
            },
        ],
        state.secret_updates(id, schema_id, name, diff) == seq![
            UpdateView {
                id: state.builtin_id(BuiltinTable::MzSecrets),
                row: seq![
                    DatumValue::String(id_text(id)),
                    DatumValue::Int64(schema_spec_id(schema_id)),
                    DatumValue::String(name),
                ],
                diff,
            },
        ],
{
}

/// A type is described by its `mz_types` row, which names its category,
/// then by one row of the table of that category, which lists the type's
/// id followed by the ids of the types it refers to.
pub proof fn lemma_type_rows_follow_category(
    state: CatalogState,
    id: GlobalId,
    oid: u32,
    schema_id: SchemaSpecifier,
    name: Seq<char>,
    typ: Type,
    diff: i64,
)
    ensures
        ({
            let us = state.type_updates(id, oid, schema_id, name, typ, diff);
            let (category, table, refs) = match typ.typ {
                CatalogType::Array { element_reference } => (
                    "array"@,
                    BuiltinTable::MzArrayTypes,
                    seq![element_reference],
                ),
                CatalogType::List { element_reference } => (
                    "list"@,
                    BuiltinTable::MzListTypes,
                    seq![element_reference],
                ),
                CatalogType::MapType { key_reference, value_reference } => (
                    "map"@,
                    BuiltinTable::MzMapTypes,
                    seq![key_reference, value_reference],
                ),
                CatalogType::Pseudo => ("pseudo"@, BuiltinTable::MzPseudoTypes, Seq::empty()),
                CatalogType::Base => ("base"@, BuiltinTable::MzBaseTypes, Seq::empty()),
            };
            &&& us.len() == 2
            &&& us[0].id == state.builtin_id(BuiltinTable::MzTypes)
            &&& us[0].row == seq![
                DatumValue::String(id_text(id)),
                DatumValue::UInt32(oid),
                DatumValue::Int64(schema_spec_id(schema_id)),
                DatumValue::String(name),
                DatumValue::String(category),
            ]
            &&& us[1].id == state.builtin_id(table)
            &&& us[1].row == seq![DatumValue::String(id_text(id))] + refs.map_values(
                |r: GlobalId| DatumValue::String(id_text(r)),
            )
            &&& us[0].diff == diff && us[1].diff == diff
        }),
{
    let us = state.type_updates(id, oid, schema_id, name, typ, diff);
    match typ.typ {
        CatalogType::Array { element_reference } => {
            assert(us[1].row =~= seq![DatumValue::String(id_text(id))] + seq![element_reference].map_values(
                |r: GlobalId| DatumValue::String(id_text(r)),
            ));
        },
        CatalogType::List { element_reference } => {
            assert(us[1].row =~= seq![DatumValue::String(id_text(id))] + seq![element_reference].map_values(
                |r: GlobalId| DatumValue::String(id_text(r)),
            ));
        },
        CatalogType::MapType { key_reference, value_reference } => {
            assert(us[1].row =~= seq![DatumValue::String(id_text(id))] + seq![
                key_reference,
                value_reference,
            ].map_values(|r: GlobalId| DatumValue::String(id_text(r))));
        },
        CatalogType::Pseudo => {
            assert(us[1].row =~= seq![DatumValue::String(id_text(id))] + Seq::<GlobalId>::empty().map_values(
                |r: GlobalId| DatumValue::String(id_text(r)),
            ));
        },
        CatalogType::Base => {
            assert(us[1].row =~= seq![DatumValue::String(id_text(id))] + Seq::<GlobalId>::empty().map_values(
                |r: GlobalId| DatumValue::String(id_text(r)),
            ));
        },
    }
}

/// Databases, schemas, roles and clusters are each described by one row
/// holding what the catalog records of them: a database's id, oid and
/// name; a schema's id, oid, database (`NULL` for an ambient schema) and
/// name; a role's id, oid and name; a cluster's id and name.
pub proof fn lemma_object_rows(
    state: CatalogState,
    database_id: i64,
    database_spec: ResolvedDatabaseSpecifier,
    schema_id: i64,
    name: Seq<char>,
    diff: i64,
)
    ensures
        state.database_update(database_id, diff).id == state.builtin_id(BuiltinTable::MzDatabases),
        state.database_update(database_id, diff).row == seq![
            DatumValue::Int64(database_id),
            DatumValue::UInt32(state.database_with_id(database_id).oid),
            DatumValue::String(state.database_with_id(database_id).name@),
        ],
        state.schema_update(database_spec, schema_id, diff).id == state.builtin_id(
            BuiltinTable::MzSchemas,
        ),
        state.schema_update(database_spec, schema_id, diff).row == seq![
            DatumValue::Int64(schema_id),
            DatumValue::UInt32(
                state.schema_of(database_spec, SchemaSpecifier::Id(schema_id), SYSTEM_CONN_ID).oid,
            ),
            match database_spec {
                ResolvedDatabaseSpecifier::Ambient => DatumValue::Null,
                ResolvedDatabaseSpecifier::Id(d) => DatumValue::Int64(d),
            },
            DatumValue::String(
                state.schema_of(database_spec, SchemaSpecifier::Id(schema_id), SYSTEM_CONN_ID).name@,
            ),
        ],
        state.role_update(name, diff).id == state.builtin_id(BuiltinTable::MzRoles),
        state.role_update(name, diff).row == seq![
            DatumValue::Int64(state.role_with_name(name).id),
            DatumValue::UInt32(state.role_with_name(name).oid),
            DatumValue::String(name),
        ],
        state.compute_instance_update(name, diff).id == state.builtin_id(BuiltinTable::MzClusters),
        state.compute_instance_update(name, diff).row == seq![
            DatumValue::Int64(state.compute_instance_with_name(name).id),
            DatumValue::String(name),
        ],
{
}

/// `pack_item_update` describes an item by the rows of its own kind, made
/// from the entry's own id, oid, name and schema (the schema that the
/// entry's qualifiers name, for its connection).
pub proof fn lemma_item_kind_rows_use_entry(state: CatalogState, id: GlobalId, diff: i64)
    requires
        state.item_ok(id),
    ensures
        ({
            let entry = state.entry_with_id(id);
            let schema_id = state.schema_of(
                entry.name.qualifiers.database_spec,
                entry.name.qualifiers.schema_spec,
                match entry.conn_id {
                    Some(c) => c,
                    None => SYSTEM_CONN_ID,
                },
            ).id;
            let name = entry.name.item@;
            let us = state.item_updates(id, diff);
            let n = state.kind_updates(entry, diff).len();
            &&& entry.id == id
            &&& us.subrange(0, n as int) == match entry.item {
                CatalogItem::Index(index) => state.index_updates(id, entry.oid, name, index, diff),
                CatalogItem::Table(_) => state.table_updates(id, entry.oid, schema_id, name, diff),
                CatalogItem::Source(source) => state.source_updates(
                    id,
                    entry.oid,
                    schema_id,
                    name,
                    source,
                    diff,
                ),
                CatalogItem::View(view) => state.view_updates(id, entry.oid, schema_id, name, view, diff),
                CatalogItem::Sink(sink) => state.sink_updates(id, entry.oid, schema_id, name, sink, diff),
                CatalogItem::Type(typ) => state.type_updates(id, entry.oid, schema_id, name, typ, diff),
                CatalogItem::Func(func) => state.func_updates(id, schema_id, name, func, diff),
                CatalogItem::Secret => state.secret_updates(id, schema_id, name, diff),
                CatalogItem::Connector(connector) => state.connector_updates(
                    id,
                    entry.oid,
                    schema_id,
                    name,
                    connector,
                    diff,
                ),
            }
            &&& us.len() == n + match item_desc(entry.item) {
                Some(desc) => desc.columns.len(),
                None => 0,
            }
        }),
{
    lemma_first_match_satisfies(state.entries@, entry_has_id(id));
    let entry = state.entry_with_id(id);
    let n = state.kind_updates(entry, diff).len();
    assert(state.item_updates(id, diff).subrange(0, n as int) =~= state.kind_updates(entry, diff));
}

} // verus!
