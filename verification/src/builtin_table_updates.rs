//! The updates of built-in tables that describe catalog objects.

use vstd::prelude::*;

use crate::catalog::{
    category_text, entry_conn_id, item_desc, schema_spec_id, sink_connector_name, type_category,
    volatility_text, BuiltinTable, CatalogEntry, CatalogItem, CatalogState, CatalogType, Connector,
    ConnectorInner, Func, Index, IndexKey, ResolvedDatabaseSpecifier, SchemaSpecifier, Sink,
    SinkConnector, SinkConnectorState, Source, SqlView, Type, TypeCategory, SYSTEM_CONN_ID,
};
use crate::datum::{
    bool_value, datum_values, opt_int_value, opt_text_value, texts, Datum, DatumValue, Row,
};
use crate::ids::{id_text, GlobalId};
use crate::lookup::lemma_first_match_satisfies;

verus! {

/// The multiplicity change of a row: positive to add it, negative to
/// retract it.
pub type Diff = i64;

/// An update to a built-in table.
#[derive(Clone, Debug, PartialEq, Eq)]
pub struct BuiltinTableUpdate {
    /// The ID of the table to update.
    pub id: GlobalId,
    /// The data to put into the table.
    pub row: Row,
    /// The diff of the data.
    pub diff: Diff,
}

/// The mathematical value of a [`BuiltinTableUpdate`].
pub struct UpdateView {
    pub id: GlobalId,
    pub row: Seq<DatumValue>,
    pub diff: Diff,
}

impl View for BuiltinTableUpdate {
    type V = UpdateView;

    open spec fn view(&self) -> UpdateView {
        UpdateView { id: self.id, row: self.row@, diff: self.diff }
    }
}

/// The values of a sequence of updates.
pub open spec fn updates_view(s: Seq<BuiltinTableUpdate>) -> Seq<UpdateView> {
    s.map_values(|u: BuiltinTableUpdate| u@)
}

/// The text of an identifier, as a value.
pub open spec fn id_value(id: GlobalId) -> DatumValue {
    DatumValue::String(id_text(id))
}

/// The texts of an optional string.
pub open spec fn opt_text(s: Option<String>) -> Option<Seq<char>> {
    match s {
        Some(t) => Some(t@),
        None => None,
    }
}

/// The default recorded in `mz_columns` for column `k` of an item: the SQL
/// text of the default for a table, `NULL` for other relations.
pub open spec fn column_default(item: CatalogItem, k: int) -> DatumValue {
    match item {
        CatalogItem::Table(t) => DatumValue::String(t.defaults@[k]@),
        _ => DatumValue::Null,
    }
}

/// The columns of an item's relation description can be numbered, and a
/// table has a default for each of them.
pub open spec fn columns_ok(entry: CatalogEntry) -> bool {
    match item_desc(entry.item) {
        Some(desc) => {
            &&& desc.columns.len() <= i64::MAX
            &&& match entry.item {
                CatalogItem::Table(t) => t.defaults.len() >= desc.columns.len(),
                _ => true,
            }
        },
        None => true,
    }
}

impl CatalogState {
    /// An update of the built-in table `table` with the given row and diff.
    pub open spec fn update(self, table: BuiltinTable, row: Seq<DatumValue>, diff: Diff) -> UpdateView {
        UpdateView { id: self.builtin_id(table), row, diff }
    }

    /// The volatility of the item with id `id`, as a value.
    pub open spec fn volatility_value(self, id: GlobalId) -> DatumValue {
        DatumValue::String(volatility_text(self.entry_with_id(id).volatility))
    }

    /// The `mz_databases` update of the database with id `id`.
    pub open spec fn database_update(self, id: i64, diff: Diff) -> UpdateView {
        let db = self.database_with_id(id);
        self.update(
            BuiltinTable::MzDatabases,
            seq![DatumValue::Int64(id), DatumValue::UInt32(db.oid), DatumValue::String(db.name@)],
            diff,
        )
    }

    /// The `mz_schemas` update of the schema with id `schema_id` in the
    /// given database (or among the ambient schemas).
    pub open spec fn schema_update(
        self,
        database_spec: ResolvedDatabaseSpecifier,
        schema_id: i64,
        diff: Diff,
    ) -> UpdateView {
        let database_id = match database_spec {
            ResolvedDatabaseSpecifier::Ambient => None,
            ResolvedDatabaseSpecifier::Id(id) => Some(id),
        };
        let schema = self.schema_of(database_spec, SchemaSpecifier::Id(schema_id), SYSTEM_CONN_ID);
        self.update(
            BuiltinTable::MzSchemas,
            seq![
                DatumValue::Int64(schema_id),
                DatumValue::UInt32(schema.oid),
                opt_int_value(database_id),
                DatumValue::String(schema.name@),
            ],
            diff,
        )
    }

    /// The `mz_roles` update of the role named `name`.
    pub open spec fn role_update(self, name: Seq<char>, diff: Diff) -> UpdateView {
        let role = self.role_with_name(name);
        self.update(
            BuiltinTable::MzRoles,
            seq![DatumValue::Int64(role.id), DatumValue::UInt32(role.oid), DatumValue::String(name)],
            diff,
        )
    }

    /// The `mz_clusters` update of the compute instance named `name`.
    pub open spec fn compute_instance_update(self, name: Seq<char>, diff: Diff) -> UpdateView {
        let instance = self.compute_instance_with_name(name);
        self.update(
            BuiltinTable::MzClusters,
            seq![DatumValue::Int64(instance.id), DatumValue::String(name)],
            diff,
        )
    }

    /// The `mz_tables` updates of a table.
    pub open spec fn table_updates(
        self,
        id: GlobalId,
        oid: u32,
        schema_id: SchemaSpecifier,
        name: Seq<char>,
        diff: Diff,
    ) -> Seq<UpdateView> {
        seq![
            self.update(
                BuiltinTable::MzTables,
                seq![
                    id_value(id),
                    DatumValue::UInt32(oid),
                    DatumValue::Int64(schema_spec_id(schema_id)),
                    DatumValue::String(name),
                ],
                diff,
            ),
        ]
    }

    /// The `mz_sources` updates of a source.
    pub open spec fn source_updates(
        self,
        id: GlobalId,
        oid: u32,
        schema_id: SchemaSpecifier,
        name: Seq<char>,
        source: Source,
        diff: Diff,
    ) -> Seq<UpdateView> {
        seq![
            self.update(
                BuiltinTable::MzSources,
                seq![
                    id_value(id),
                    DatumValue::UInt32(oid),
                    DatumValue::Int64(schema_spec_id(schema_id)),
                    DatumValue::String(name),
                    DatumValue::String(source.connector_name@),
                    self.volatility_value(id),
                ],
                diff,
            ),
        ]
    }

    /// The `mz_connectors` updates of a connector.
    pub open spec fn connector_updates(
        self,
        id: GlobalId,
        oid: u32,
        schema_id: SchemaSpecifier,
        name: Seq<char>,
        connector: Connector,
        diff: Diff,
    ) -> Seq<UpdateView> {
        let kind = match connector.connector {
            ConnectorInner::Kafka => "kafka"@,
        };
        seq![
            self.update(
                BuiltinTable::MzConnectors,
                seq![
                    id_value(id),
                    DatumValue::UInt32(oid),
                    DatumValue::Int64(schema_spec_id(schema_id)),
                    DatumValue::String(name),
                    DatumValue::String(kind),
                ],
                diff,
            ),
        ]
    }

    /// The `mz_views` updates of a view: its definition is the text of its
    /// query followed by a semicolon.
    pub open spec fn view_updates(
        self,
        id: GlobalId,
        oid: u32,
        schema_id: SchemaSpecifier,
        name: Seq<char>,
        view: SqlView,
        diff: Diff,
    ) -> Seq<UpdateView> {
        seq![
            self.update(
                BuiltinTable::MzViews,
                seq![
                    id_value(id),
                    DatumValue::UInt32(oid),
                    DatumValue::Int64(schema_spec_id(schema_id)),
                    DatumValue::String(name),
                    self.volatility_value(id),
                    DatumValue::String(view.query@ + seq![';']),
                ],
                diff,
            ),
        ]
    }

    /// The updates of a sink: none while its connector is pending; once it
    /// is ready, an `mz_kafka_sinks` update for a Kafka sink, then an
    /// `mz_sinks` update.
    pub open spec fn sink_updates(
        self,
        id: GlobalId,
        oid: u32,
        schema_id: SchemaSpecifier,
        name: Seq<char>,
        sink: Sink,
        diff: Diff,
    ) -> Seq<UpdateView> {
        match sink.connector {
            SinkConnectorState::Ready(connector) => {
                let kafka = match connector {
                    SinkConnector::Kafka { topic, consistency_topic } => seq![
                        self.update(
                            BuiltinTable::MzKafkaSinks,
                            seq![
                                id_value(id),
                                DatumValue::String(topic@),
                                opt_text_value(opt_text(consistency_topic)),
                            ],
                            diff,
                        ),
                    ],
                    SinkConnector::Tail => Seq::empty(),
                };
                kafka.push(
                    self.update(
                        BuiltinTable::MzSinks,
                        seq![
                            id_value(id),
                            DatumValue::UInt32(oid),
                            DatumValue::Int64(schema_spec_id(schema_id)),
                            DatumValue::String(name),
                            DatumValue::String(sink_connector_name(connector)),
                            self.volatility_value(id),
                            DatumValue::Int64(sink.compute_instance),
                        ],
                        diff,
                    ),
                )
            },
            SinkConnectorState::Pending => Seq::empty(),
        }
    }

    /// The relation description of the item that an index is on.
    pub open spec fn index_on_columns(self, index: Index) -> Seq<crate::catalog::Column> {
        item_desc(self.entry_with_id(index.on).item).unwrap().columns@
    }

    /// The `mz_index_columns` update of key `k` of an index: its position
    /// (from 1), the column (from 1) or the SQL text of the expression, and
    /// whether it can be null.
    pub open spec fn index_column_update(
        self,
        id: GlobalId,
        index: Index,
        k: int,
        diff: Diff,
    ) -> UpdateView {
        let (field_number, expression, nullable) = match index.keys@[k] {
            IndexKey::Column(col) => (
                DatumValue::Int64((col + 1) as i64),
                DatumValue::Null,
                self.index_on_columns(index)[col as int].nullable,
            ),
            IndexKey::Expression { nullable } => (
                DatumValue::Null,
                DatumValue::String(index.key_parts@[k]@),
                nullable,
            ),
        };
        self.update(
            BuiltinTable::MzIndexColumns,
            seq![
                id_value(id),
                DatumValue::Int64((k + 1) as i64),
                field_number,
                expression,
                bool_value(nullable),
            ],
            diff,
        )
    }

    /// The updates of an index: one `mz_indexes` update, then one
    /// `mz_index_columns` update per key, in order.
    pub open spec fn index_updates(
        self,
        id: GlobalId,
        oid: u32,
        name: Seq<char>,
        index: Index,
        diff: Diff,
    ) -> Seq<UpdateView> {
        seq![
            self.update(
                BuiltinTable::MzIndexes,
                seq![
                    id_value(id),
                    DatumValue::UInt32(oid),
                    DatumValue::String(name),
                    id_value(index.on),
                    self.volatility_value(id),
                    bool_value(index.enabled),
                    DatumValue::Int64(index.compute_instance),
                ],
                diff,
            ),
        ] + Seq::new(index.keys.len() as nat, |k: int| self.index_column_update(id, index, k, diff))
    }

    /// An index can be described: its item and, where it has keys, the
    /// relation it is on are known, each key has its SQL text, and each key
    /// column exists and can be numbered.
    pub open spec fn index_ok(self, id: GlobalId, index: Index) -> bool {
        &&& self.has_entry(id)
        &&& index.keys.len() <= i64::MAX
        &&& index.key_parts.len() >= index.keys.len()
        &&& index.keys.len() > 0 ==> {
            &&& self.has_entry(index.on)
            &&& item_desc(self.entry_with_id(index.on).item).is_some()
            &&& forall|k: int|
                0 <= k < index.keys.len() ==> match #[trigger] index.keys@[k] {
                    IndexKey::Column(col) => col < self.index_on_columns(index).len() && col
                        < i64::MAX,
                    IndexKey::Expression { .. } => true,
                }
        }
    }

    /// The `mz_types` update and the category-specific update of a type.
    pub open spec fn type_updates(
        self,
        id: GlobalId,
        oid: u32,
        schema_id: SchemaSpecifier,
        name: Seq<char>,
        typ: Type,
        diff: Diff,
    ) -> Seq<UpdateView> {
        let generic = self.update(
            BuiltinTable::MzTypes,
            seq![
                id_value(id),
                DatumValue::UInt32(oid),
                DatumValue::Int64(schema_spec_id(schema_id)),
                DatumValue::String(name),
                DatumValue::String(category_text(type_category(typ.typ))),
            ],
            diff,
        );
        let specific = match typ.typ {
            CatalogType::Array { element_reference } => self.update(
                BuiltinTable::MzArrayTypes,
                seq![id_value(id), id_value(element_reference)],
                diff,
            ),
            CatalogType::List { element_reference } => self.update(
                BuiltinTable::MzListTypes,
                seq![id_value(id), id_value(element_reference)],
                diff,
            ),
            CatalogType::MapType { key_reference, value_reference } => self.update(
                BuiltinTable::MzMapTypes,
                seq![id_value(id), id_value(key_reference), id_value(value_reference)],
                diff,
            ),
            CatalogType::Pseudo => self.update(BuiltinTable::MzPseudoTypes, seq![id_value(id)], diff),
            CatalogType::Base => self.update(BuiltinTable::MzBaseTypes, seq![id_value(id)], diff),
        };
        seq![generic, specific]
    }

    /// The ids, as texts, of the system types with the given names.
    pub open spec fn type_texts(self, names: Seq<String>) -> Seq<Seq<char>> {
        names.map_values(|t: String| id_text(self.system_item_id(t@)))
    }

    /// The id, as a value, of an optional system type: `NULL` when absent.
    pub open spec fn opt_type_value(self, name: Option<String>) -> DatumValue {
        match name {
            Some(t) => id_value(self.system_item_id(t@)),
            None => DatumValue::Null,
        }
    }

    /// The `mz_functions` update of implementation `k` of a function.
    pub open spec fn func_impl_update(
        self,
        id: GlobalId,
        schema_id: SchemaSpecifier,
        name: Seq<char>,
        func: Func,
        k: int,
        diff: Diff,
    ) -> UpdateView {
        let imp = func.impls@[k];
        self.update(
            BuiltinTable::MzFunctions,
            seq![
                id_value(id),
                DatumValue::UInt32(imp.oid),
                DatumValue::Int64(schema_spec_id(schema_id)),
                DatumValue::String(name),
                DatumValue::TextArray(self.type_texts(imp.arg_typs@)),
                self.opt_type_value(imp.variadic_typ),
                self.opt_type_value(imp.return_typ),
                bool_value(imp.return_is_set),
            ],
            diff,
        )
    }

    /// The updates of a function: one `mz_functions` update per
    /// implementation, in order.
    pub open spec fn func_updates(
        self,
        id: GlobalId,
        schema_id: SchemaSpecifier,
        name: Seq<char>,
        func: Func,
        diff: Diff,
    ) -> Seq<UpdateView> {
        Seq::new(
            func.impls.len() as nat,
            |k: int| self.func_impl_update(id, schema_id, name, func, k, diff),
        )
    }

    /// Every type that a function's implementations name is a system item.
    pub open spec fn func_ok(self, func: Func) -> bool {
        forall|k: int|
            0 <= k < func.impls.len() ==> {
                let imp = #[trigger] func.impls@[k];
                &&& forall|j: int|
                    0 <= j < imp.arg_typs.len() ==> self.has_system_item(
                        (#[trigger] imp.arg_typs@[j])@,
                    )
                &&& imp.variadic_typ matches Some(t) ==> self.has_system_item(t@)
                &&& imp.return_typ matches Some(t) ==> self.has_system_item(t@)
            }
    }

    /// The `mz_secrets` updates of a secret.
    pub open spec fn secret_updates(
        self,
        id: GlobalId,
        schema_id: SchemaSpecifier,
        name: Seq<char>,
        diff: Diff,
    ) -> Seq<UpdateView> {
        seq![
            self.update(
                BuiltinTable::MzSecrets,
                seq![id_value(id), DatumValue::Int64(schema_spec_id(schema_id)), DatumValue::String(name)],
                diff,
            ),
        ]
    }

    /// The schema of an entry, as recorded in its rows.
    pub open spec fn entry_schema_id(self, entry: CatalogEntry) -> SchemaSpecifier {
        self.schema_of(
            entry.name.qualifiers.database_spec,
            entry.name.qualifiers.schema_spec,
            entry_conn_id(entry),
        ).id
    }

    /// The updates that describe what kind of item an entry is.
    pub open spec fn kind_updates(self, entry: CatalogEntry, diff: Diff) -> Seq<UpdateView> {
        let schema_id = self.entry_schema_id(entry);
        let name = entry.name.item@;
        match entry.item {
            CatalogItem::Index(index) => self.index_updates(entry.id, entry.oid, name, index, diff),
            CatalogItem::Table(_) => self.table_updates(entry.id, entry.oid, schema_id, name, diff),
            CatalogItem::Source(source) => self.source_updates(
                entry.id,
                entry.oid,
                schema_id,
                name,
                source,
                diff,
            ),
            CatalogItem::View(view) => self.view_updates(entry.id, entry.oid, schema_id, name, view, diff),
            CatalogItem::Sink(sink) => self.sink_updates(entry.id, entry.oid, schema_id, name, sink, diff),
            CatalogItem::Type(typ) => self.type_updates(entry.id, entry.oid, schema_id, name, typ, diff),
            CatalogItem::Func(func) => self.func_updates(entry.id, schema_id, name, func, diff),
            CatalogItem::Secret => self.secret_updates(entry.id, schema_id, name, diff),
            CatalogItem::Connector(connector) => self.connector_updates(
                entry.id,
                entry.oid,
                schema_id,
                name,
                connector,
                diff,
            ),
        }
    }

    /// The `mz_columns` update of column `k` of an entry's relation.
    pub open spec fn column_update(self, entry: CatalogEntry, k: int, diff: Diff) -> UpdateView {
        let column = item_desc(entry.item).unwrap().columns@[k];
        self.update(
            BuiltinTable::MzColumns,
            seq![
                id_value(entry.id),
                DatumValue::String(column.name@),
                DatumValue::Int64((k + 1) as i64),
                bool_value(column.nullable),
                DatumValue::String(column.pg_type_name@),
                column_default(entry.item, k),
                DatumValue::UInt32(column.pg_type_oid),
            ],
            diff,
        )
    }

    /// The `mz_columns` updates of an entry: one per column of its relation,
    /// in order, and none where it has no relation description.
    pub open spec fn column_updates(self, entry: CatalogEntry, diff: Diff) -> Seq<UpdateView> {
        match item_desc(entry.item) {
            Some(desc) => Seq::new(
                desc.columns.len() as nat,
                |k: int| self.column_update(entry, k, diff),
            ),
            None => Seq::empty(),
        }
    }

    /// All updates that describe the item with id `id`.
    pub open spec fn item_updates(self, id: GlobalId, diff: Diff) -> Seq<UpdateView> {
        let entry = self.entry_with_id(id);
        self.kind_updates(entry, diff) + self.column_updates(entry, diff)
    }

    /// The item with id `id` can be described: it exists, its schema exists,
    /// and what its kind of item needs holds.
    pub open spec fn item_ok(self, id: GlobalId) -> bool {
        &&& self.has_entry(id)
        &&& {
            let entry = self.entry_with_id(id);
            &&& self.has_schema(
                entry.name.qualifiers.database_spec,
                entry.name.qualifiers.schema_spec,
                entry_conn_id(entry),
            )
            &&& columns_ok(entry)
            &&& match entry.item {
                CatalogItem::Index(index) => self.index_ok(id, index),
                CatalogItem::Func(func) => self.func_ok(func),
                _ => true,
            }
        }
    }
}

impl CatalogState {
    fn new_update(&self, table: BuiltinTable, datums: Vec<Datum>, diff: Diff) -> (u:
        BuiltinTableUpdate)
        ensures
            u@ == self.update(table, datum_values(datums@), diff),
    {
        BuiltinTableUpdate { id: self.resolve_builtin_table(table), row: Row::pack_slice(datums), diff }
    }

    /// The update that describes the database with id `id` in
    /// `mz_databases`.
    pub fn pack_database_update(&self, id: i64, diff: Diff) -> (u: BuiltinTableUpdate)
        requires
            self.has_database(id),
        ensures
            u@ == self.database_update(id, diff),
    {
        let database = self.database(id);
        let datums = vec![
            Datum::Int64(id),
            Datum::UInt32(database.oid),
            Datum::String(database.name.clone()),
        ];
        assert(datum_values(datums@) =~= seq![
            DatumValue::Int64(id),
            DatumValue::UInt32(database.oid),
            DatumValue::String(database.name@),
        ]);
        self.new_update(BuiltinTable::MzDatabases, datums, diff)
    }

    /// The update that describes, in `mz_schemas`, the schema with id
    /// `schema_id` of the given database (or among the ambient schemas).
    pub fn pack_schema_update(
        &self,
        database_spec: &ResolvedDatabaseSpecifier,
        schema_id: i64,
        diff: Diff,
    ) -> (u: BuiltinTableUpdate)
        requires
            self.has_schema(*database_spec, SchemaSpecifier::Id(schema_id), SYSTEM_CONN_ID),
        ensures
            u@ == self.schema_update(*database_spec, schema_id, diff),
    {
        let database_id = match database_spec {
            ResolvedDatabaseSpecifier::Ambient => None,
            ResolvedDatabaseSpecifier::Id(id) => Some(*id),
        };
        let schema = self.get_schema(database_spec, &SchemaSpecifier::Id(schema_id), SYSTEM_CONN_ID);
        let datums = vec![
            Datum::Int64(schema_id),
            Datum::UInt32(schema.oid),
            Datum::from_option_i64(database_id),
            Datum::String(schema.name.clone()),
        ];
        assert(datum_values(datums@) =~= seq![
            DatumValue::Int64(schema_id),
            DatumValue::UInt32(schema.oid),
            opt_int_value(database_id),
            DatumValue::String(schema.name@),
        ]);
        self.new_update(BuiltinTable::MzSchemas, datums, diff)
    }

    /// The update that describes the role named `name` in `mz_roles`.
    pub fn pack_role_update(&self, name: &str, diff: Diff) -> (u: BuiltinTableUpdate)
        requires
            self.has_role(name@),
        ensures
            u@ == self.role_update(name@, diff),
    {
        let role = self.role(name);
        let datums = vec![
            Datum::Int64(role.id),
            Datum::UInt32(role.oid),
            Datum::String(String::from_str(name)),
        ];
        assert(datum_values(datums@) =~= seq![
            DatumValue::Int64(role.id),
            DatumValue::UInt32(role.oid),
            DatumValue::String(name@),
        ]);
        self.new_update(BuiltinTable::MzRoles, datums, diff)
    }

    /// The update that describes the compute instance named `name` in
    /// `mz_clusters`.
    pub fn pack_compute_instance_update(&self, name: &str, diff: Diff) -> (u: BuiltinTableUpdate)
        requires
            self.has_compute_instance(name@),
        ensures
            u@ == self.compute_instance_update(name@, diff),
    {
        let instance = self.compute_instance(name);
        let datums = vec![Datum::Int64(instance.id), Datum::String(String::from_str(name))];
        assert(datum_values(datums@) =~= seq![
            DatumValue::Int64(instance.id),
            DatumValue::String(name@),
        ]);
        self.new_update(BuiltinTable::MzClusters, datums, diff)
    }

    /// The updates that describe a table in `mz_tables`.
    pub fn pack_table_update(
        &self,
        id: GlobalId,
        oid: u32,
        schema_id: &SchemaSpecifier,
        name: &str,
        diff: Diff,
    ) -> (updates: Vec<BuiltinTableUpdate>)
        ensures
            updates_view(updates@) == self.table_updates(id, oid, *schema_id, name@, diff),
    {
        let datums = vec![
            Datum::String(id.to_string()),
            Datum::UInt32(oid),
            Datum::Int64(schema_id.to_i64()),
            Datum::String(String::from_str(name)),
        ];
        assert(datum_values(datums@) =~= seq![
            id_value(id),
            DatumValue::UInt32(oid),
            DatumValue::Int64(schema_spec_id(*schema_id)),
            DatumValue::String(name@),
        ]);
        let updates = vec![self.new_update(BuiltinTable::MzTables, datums, diff)];
        assert(updates_view(updates@) =~= self.table_updates(id, oid, *schema_id, name@, diff));
        updates
    }

    /// The updates that describe a source in `mz_sources`.
    pub fn pack_source_update(
        &self,
        id: GlobalId,
        oid: u32,
        schema_id: &SchemaSpecifier,
        name: &str,
        source: &Source,
        diff: Diff,
    ) -> (updates: Vec<BuiltinTableUpdate>)
        requires
            self.has_entry(id),
        ensures
            updates_view(updates@) == self.source_updates(id, oid, *schema_id, name@, *source, diff),
    {
        let datums = vec![
            Datum::String(id.to_string()),
            Datum::UInt32(oid),
            Datum::Int64(schema_id.to_i64()),
            Datum::String(String::from_str(name)),
            Datum::String(source.connector_name.clone()),
            Datum::String(String::from_str(self.is_volatile(id).as_str())),
        ];
        assert(datum_values(datums@) =~= seq![
            id_value(id),
            DatumValue::UInt32(oid),
            DatumValue::Int64(schema_spec_id(*schema_id)),
            DatumValue::String(name@),
            DatumValue::String(source.connector_name@),
            self.volatility_value(id),
        ]);
        let updates = vec![self.new_update(BuiltinTable::MzSources, datums, diff)];
        assert(updates_view(updates@) =~= self.source_updates(id, oid, *schema_id, name@, *source, diff));
        updates
    }

    /// The updates that describe a connector in `mz_connectors`.
    pub fn pack_connector_update(
        &self,
        id: GlobalId,
        oid: u32,
        schema_id: &SchemaSpecifier,
        name: &str,
        connector: &Connector,
        diff: Diff,
    ) -> (updates: Vec<BuiltinTableUpdate>)
        ensures
            updates_view(updates@) == self.connector_updates(
                id,
                oid,
                *schema_id,
                name@,
                *connector,
                diff,
            ),
    {
        let kind = match connector.connector {
            ConnectorInner::Kafka => "kafka",
        };
        let datums = vec![
            Datum::String(id.to_string()),
            Datum::UInt32(oid),
            Datum::Int64(schema_id.to_i64()),
            Datum::String(String::from_str(name)),
            Datum::String(String::from_str(kind)),
        ];
        assert(datum_values(datums@) =~= seq![
            id_value(id),
            DatumValue::UInt32(oid),
            DatumValue::Int64(schema_spec_id(*schema_id)),
            DatumValue::String(name@),
            DatumValue::String("kafka"@),
        ]);
        let updates = vec![self.new_update(BuiltinTable::MzConnectors, datums, diff)];
        assert(updates_view(updates@) =~= self.connector_updates(
            id,
            oid,
            *schema_id,
            name@,
            *connector,
            diff,
        ));
        updates
    }

    /// The updates that describe a view in `mz_views`; its definition is the
    /// text of its query followed by a semicolon, as PostgreSQL shows it.
    pub fn pack_view_update(
        &self,
        id: GlobalId,
        oid: u32,
        schema_id: &SchemaSpecifier,
        name: &str,
        view: &SqlView,
        diff: Diff,
    ) -> (updates: Vec<BuiltinTableUpdate>)
        requires
            self.has_entry(id),
        ensures
            updates_view(updates@) == self.view_updates(id, oid, *schema_id, name@, *view, diff),
    {
        let mut query_string = view.query.clone();
        query_string.append(";");
        proof {
            reveal_strlit(";");
            assert(";"@ =~= seq![';']);
        }
        let datums = vec![
            Datum::String(id.to_string()),
            Datum::UInt32(oid),
            Datum::Int64(schema_id.to_i64()),
            Datum::String(String::from_str(name)),
            Datum::String(String::from_str(self.is_volatile(id).as_str())),
            Datum::String(query_string),
        ];
        assert(datum_values(datums@) =~= seq![
            id_value(id),
            DatumValue::UInt32(oid),
            DatumValue::Int64(schema_spec_id(*schema_id)),
            DatumValue::String(name@),
            self.volatility_value(id),
            DatumValue::String(view.query@ + seq![';']),
        ]);
        let updates = vec![self.new_update(BuiltinTable::MzViews, datums, diff)];
        assert(updates_view(updates@) =~= self.view_updates(id, oid, *schema_id, name@, *view, diff));
        updates
    }

    /// The updates that describe a secret in `mz_secrets`.
    pub fn pack_secret_update(
        &self,
        id: GlobalId,
        schema_id: &SchemaSpecifier,
        name: &str,
        diff: Diff,
    ) -> (updates: Vec<BuiltinTableUpdate>)
        ensures
            updates_view(updates@) == self.secret_updates(id, *schema_id, name@, diff),
    {
        let datums = vec![
            Datum::String(id.to_string()),
            Datum::Int64(schema_id.to_i64()),
            Datum::String(String::from_str(name)),
        ];
        assert(datum_values(datums@) =~= seq![
            id_value(id),
            DatumValue::Int64(schema_spec_id(*schema_id)),
            DatumValue::String(name@),
        ]);
        let updates = vec![self.new_update(BuiltinTable::MzSecrets, datums, diff)];
        assert(updates_view(updates@) =~= self.secret_updates(id, *schema_id, name@, diff));
        updates
    }
}

impl CatalogState {
    /// The updates that describe a sink: none while its connector is
    /// pending; once it is ready, an `mz_kafka_sinks` update for a Kafka
    /// sink, then an `mz_sinks` update.
    pub fn pack_sink_update(
        &self,
        id: GlobalId,
        oid: u32,
        schema_id: &SchemaSpecifier,
        name: &str,
        sink: &Sink,
        diff: Diff,
    ) -> (updates: Vec<BuiltinTableUpdate>)
        requires
            self.has_entry(id),
        ensures
            updates_view(updates@) == self.sink_updates(id, oid, *schema_id, name@, *sink, diff),
    {
        let mut updates: Vec<BuiltinTableUpdate> = Vec::new();
        if let SinkConnectorState::Ready(connector) = &sink.connector {
            match connector {
                SinkConnector::Kafka { topic, consistency_topic } => {
                    let consistency = match consistency_topic {
                        Some(t) => Datum::String(t.clone()),
                        None => Datum::Null,
                    };
                    let datums = vec![
                        Datum::String(id.to_string()),
                        Datum::String(topic.clone()),
                        consistency,
                    ];
                    assert(datum_values(datums@) =~= seq![
                        id_value(id),
                        DatumValue::String(topic@),
                        opt_text_value(opt_text(*consistency_topic)),
                    ]);
                    updates.push(self.new_update(BuiltinTable::MzKafkaSinks, datums, diff));
                },
                SinkConnector::Tail => {},
            }
            let datums = vec![
                Datum::String(id.to_string()),
                Datum::UInt32(oid),
                Datum::Int64(schema_id.to_i64()),
                Datum::String(String::from_str(name)),
                Datum::String(String::from_str(connector.name())),
                Datum::String(String::from_str(self.is_volatile(id).as_str())),
                Datum::Int64(sink.compute_instance),
            ];
            assert(datum_values(datums@) =~= seq![
                id_value(id),
                DatumValue::UInt32(oid),
                DatumValue::Int64(schema_spec_id(*schema_id)),
                DatumValue::String(name@),
                DatumValue::String(sink_connector_name(*connector)),
                self.volatility_value(id),
                DatumValue::Int64(sink.compute_instance),
            ]);
            updates.push(self.new_update(BuiltinTable::MzSinks, datums, diff));
        }
        assert(updates_view(updates@) =~= self.sink_updates(id, oid, *schema_id, name@, *sink, diff));
        updates
    }

    /// The updates that describe an index: one `mz_indexes` update, then one
    /// `mz_index_columns` update per key, in order.
    pub fn pack_index_update(
        &self,
        id: GlobalId,
        oid: u32,
        name: &str,
        index: &Index,
        diff: Diff,
    ) -> (updates: Vec<BuiltinTableUpdate>)
        requires
            self.index_ok(id, *index),
        ensures
            updates_view(updates@) == self.index_updates(id, oid, name@, *index, diff),
    {
        let mut updates: Vec<BuiltinTableUpdate> = Vec::new();
        let datums = vec![
            Datum::String(id.to_string()),
            Datum::UInt32(oid),
            Datum::String(String::from_str(name)),
            Datum::String(index.on.to_string()),
            Datum::String(String::from_str(self.is_volatile(id).as_str())),
            Datum::from_bool(index.enabled),
            Datum::Int64(index.compute_instance),
        ];
        assert(datum_values(datums@) =~= seq![
            id_value(id),
            DatumValue::UInt32(oid),
            DatumValue::String(name@),
            id_value(index.on),
            self.volatility_value(id),
            bool_value(index.enabled),
            DatumValue::Int64(index.compute_instance),
        ]);
        updates.push(self.new_update(BuiltinTable::MzIndexes, datums, diff));
        let ghost head = updates_view(updates@);
        let mut i: usize = 0;
        while i < index.keys.len()
            invariant
                self.index_ok(id, *index),
                i <= index.keys@.len(),
                updates_view(updates@) =~= head + Seq::new(
                    i as nat,
                    |k: int| self.index_column_update(id, *index, k, diff),
                ),
            decreases index.keys@.len() - i,
        {
            let key = &index.keys[i];
            let on_entry = self.get_entry(&index.on);
            let on_desc = match on_entry.item.desc() {
                Some(d) => d,
                None => unreached(),
            };
            assert(on_desc.columns@ == self.index_on_columns(*index));
            assert(match index.keys@[i as int] {
                IndexKey::Column(col) => col < self.index_on_columns(*index).len() && col < i64::MAX,
                IndexKey::Expression { .. } => true,
            });
            let nullable = match key {
                IndexKey::Column(col) => on_desc.columns[*col].nullable,
                IndexKey::Expression { nullable } => *nullable,
            };
            let seq_in_index = (i + 1) as i64;
            let key_sql = index.key_parts[i].clone();
            let (field_number, expression) = match key {
                IndexKey::Column(col) => (Datum::Int64(*col as i64 + 1), Datum::Null),
                IndexKey::Expression { .. } => (Datum::Null, Datum::String(key_sql)),
            };
            let datums = vec![
                Datum::String(id.to_string()),
                Datum::Int64(seq_in_index),
                field_number,
                expression,
                Datum::from_bool(nullable),
            ];
            assert(datum_values(datums@) =~= self.index_column_update(
                id,
                *index,
                i as int,
                diff,
            ).row);
            let ghost before = updates_view(updates@);
            updates.push(self.new_update(BuiltinTable::MzIndexColumns, datums, diff));
            assert(updates_view(updates@) =~= before.push(
                self.index_column_update(id, *index, i as int, diff),
            ));
            i = i + 1;
        }
        assert(updates_view(updates@) =~= self.index_updates(id, oid, name@, *index, diff));
        updates
    }

    /// The updates that describe a type: an `mz_types` update with its
    /// category, then an update of the table of its category that names the
    /// types it refers to.
    pub fn pack_type_update(
        &self,
        id: GlobalId,
        oid: u32,
        schema_id: &SchemaSpecifier,
        name: &str,
        typ: &Type,
        diff: Diff,
    ) -> (updates: Vec<BuiltinTableUpdate>)
        ensures
            updates_view(updates@) == self.type_updates(id, oid, *schema_id, name@, *typ, diff),
    {
        let datums = vec![
            Datum::String(id.to_string()),
            Datum::UInt32(oid),
            Datum::Int64(schema_id.to_i64()),
            Datum::String(String::from_str(name)),
            Datum::String(TypeCategory::from_catalog_type(&typ.typ).to_string()),
        ];
        assert(datum_values(datums@) =~= seq![
            id_value(id),
            DatumValue::UInt32(oid),
            DatumValue::Int64(schema_spec_id(*schema_id)),
            DatumValue::String(name@),
            DatumValue::String(category_text(type_category(typ.typ))),
        ]);
        let generic_update = self.new_update(BuiltinTable::MzTypes, datums, diff);
        let (table, row) = match &typ.typ {
            CatalogType::Array { element_reference } => (
                BuiltinTable::MzArrayTypes,
                vec![Datum::String(id.to_string()), Datum::String(element_reference.to_string())],
            ),
            CatalogType::List { element_reference } => (
                BuiltinTable::MzListTypes,
                vec![Datum::String(id.to_string()), Datum::String(element_reference.to_string())],
            ),
            CatalogType::MapType { key_reference, value_reference } => (
                BuiltinTable::MzMapTypes,
                vec![
                    Datum::String(id.to_string()),
                    Datum::String(key_reference.to_string()),
                    Datum::String(value_reference.to_string()),
                ],
            ),
            CatalogType::Pseudo => (BuiltinTable::MzPseudoTypes, vec![Datum::String(id.to_string())]),
            CatalogType::Base => (BuiltinTable::MzBaseTypes, vec![Datum::String(id.to_string())]),
        };
        proof {
            let specific = self.type_updates(id, oid, *schema_id, name@, *typ, diff)[1];
            assert(datum_values(row@) =~= specific.row);
        }
        let specific_update = self.new_update(table, row, diff);
        let updates = vec![generic_update, specific_update];
        assert(updates_view(updates@) =~= self.type_updates(id, oid, *schema_id, name@, *typ, diff));
        updates
    }
}

impl CatalogState {
    /// The id, as a datum, of an optional system type: `NULL` when absent.
    fn opt_type_datum(&self, name: &Option<String>) -> (d: Datum)
        requires
            name matches Some(t) ==> self.has_system_item(t@),
        ensures
            d@ == self.opt_type_value(*name),
    {
        match name {
            Some(t) => Datum::String(self.get_entry_in_system_schemas(t).id.to_string()),
            None => Datum::Null,
        }
    }

    /// The updates that describe a function: one `mz_functions` update per
    /// implementation, in order, each naming its argument types (as an
    /// array), its variadic type and its return type by id.
    pub fn pack_func_update(
        &self,
        id: GlobalId,
        schema_id: &SchemaSpecifier,
        name: &str,
        func: &Func,
        diff: Diff,
    ) -> (updates: Vec<BuiltinTableUpdate>)
        requires
            self.func_ok(*func),
        ensures
            updates_view(updates@) == self.func_updates(id, *schema_id, name@, *func, diff),
    {
        let mut updates: Vec<BuiltinTableUpdate> = Vec::new();
        let mut k: usize = 0;
        while k < func.impls.len()
            invariant
                self.func_ok(*func),
                k <= func.impls@.len(),
                updates_view(updates@) =~= Seq::new(
                    k as nat,
                    |j: int| self.func_impl_update(id, *schema_id, name@, *func, j, diff),
                ),
            decreases func.impls@.len() - k,
        {
            let details = &func.impls[k];
            assert(self.func_ok(*func));
            let mut arg_ids: Vec<String> = Vec::new();
            let mut j: usize = 0;
            while j < details.arg_typs.len()
                invariant
                    self.func_ok(*func),
                    0 <= k < func.impls@.len(),
                    *details == func.impls@[k as int],
                    j <= details.arg_typs@.len(),
                    texts(arg_ids@) =~= self.type_texts(details.arg_typs@.take(j as int)),
                decreases details.arg_typs@.len() - j,
            {
                assert(self.has_system_item(details.arg_typs@[j as int]@));
                let arg_id = self.get_entry_in_system_schemas(&details.arg_typs[j]).id.to_string();
                let ghost old_ids = arg_ids@;
                arg_ids.push(arg_id);
                assert(texts(arg_ids@) =~= texts(old_ids).push(
                    id_text(self.system_item_id(details.arg_typs@[j as int]@)),
                ));
                assert(details.arg_typs@.take(j + 1) =~= details.arg_typs@.take(j as int).push(
                    details.arg_typs@[j as int],
                ));
                assert(self.type_texts(details.arg_typs@.take(j + 1)) =~= self.type_texts(
                    details.arg_typs@.take(j as int),
                ).push(id_text(self.system_item_id(details.arg_typs@[j as int]@))));
                j = j + 1;
            }
            assert(details.arg_typs@.take(j as int) =~= details.arg_typs@);
            let variadic = self.opt_type_datum(&details.variadic_typ);
            let ret = self.opt_type_datum(&details.return_typ);
            let datums = vec![
                Datum::String(id.to_string()),
                Datum::UInt32(details.oid),
                Datum::Int64(schema_id.to_i64()),
                Datum::String(String::from_str(name)),
                Datum::TextArray(arg_ids),
                variadic,
                ret,
                Datum::from_bool(details.return_is_set),
            ];
            assert(datum_values(datums@) =~= self.func_impl_update(
                id,
                *schema_id,
                name@,
                *func,
                k as int,
                diff,
            ).row);
            let ghost before = updates_view(updates@);
            updates.push(self.new_update(BuiltinTable::MzFunctions, datums, diff));
            assert(updates_view(updates@) =~= before.push(
                self.func_impl_update(id, *schema_id, name@, *func, k as int, diff),
            ));
            k = k + 1;
        }
        updates
    }

    /// All updates that describe the item with id `id`: those of its kind
    /// of item, then one `mz_columns` update per column of its relation, in
    /// order (numbered from 1, with the SQL text of each default for a
    /// table).
    pub fn pack_item_update(&self, id: GlobalId, diff: Diff) -> (updates: Vec<BuiltinTableUpdate>)
        requires
            self.item_ok(id),
        ensures
            updates_view(updates@) == self.item_updates(id, diff),
    {
        let entry = self.get_entry(&id);
        proof {
            lemma_first_match_satisfies(self.entries@, crate::catalog::entry_has_id(id));
        }
        let id = entry.id;
        let oid = entry.oid;
        let conn_id = match entry.conn_id {
            Some(c) => c,
            None => SYSTEM_CONN_ID,
        };
        let schema_id = &self.get_schema(
            &entry.name.qualifiers.database_spec,
            &entry.name.qualifiers.schema_spec,
            conn_id,
        ).id;
        let name = entry.name.item.as_str();
        let mut updates = match &entry.item {
            CatalogItem::Index(index) => self.pack_index_update(id, oid, name, index, diff),
            CatalogItem::Table(_) => self.pack_table_update(id, oid, schema_id, name, diff),
            CatalogItem::Source(source) => self.pack_source_update(
                id,
                oid,
                schema_id,
                name,
                source,
                diff,
            ),
            CatalogItem::View(view) => self.pack_view_update(id, oid, schema_id, name, view, diff),
            CatalogItem::Sink(sink) => self.pack_sink_update(id, oid, schema_id, name, sink, diff),
            CatalogItem::Type(ty) => self.pack_type_update(id, oid, schema_id, name, ty, diff),
            CatalogItem::Func(func) => self.pack_func_update(id, schema_id, name, func, diff),
            CatalogItem::Secret => self.pack_secret_update(id, schema_id, name, diff),
            CatalogItem::Connector(connector) => self.pack_connector_update(
                id,
                oid,
                schema_id,
                name,
                connector,
                diff,
            ),
        };
        assert(updates_view(updates@) == self.kind_updates(*entry, diff));
        if let Some(desc) = entry.item.desc() {
            let defaults: Option<&Vec<String>> = match &entry.item {
                CatalogItem::Table(table) => Some(&table.defaults),
                _ => None,
            };
            let ghost head = updates_view(updates@);
            let mut i: usize = 0;
            while i < desc.columns.len()
                invariant
                    *entry == self.entry_with_id(id),
                    id == entry.id,
                    item_desc(entry.item) == Some(*desc),
                    columns_ok(*entry),
                    defaults matches Some(d) ==> entry.item matches CatalogItem::Table(t) && *d
                        == t.defaults,
                    defaults is None ==> !(entry.item is Table),
                    i <= desc.columns@.len(),
                    updates_view(updates@) =~= head + Seq::new(
                        i as nat,
                        |k: int| self.column_update(*entry, k, diff),
                    ),
                decreases desc.columns@.len() - i,
            {
                let column = &desc.columns[i];
                let default = match defaults {
                    Some(d) => Datum::String(d[i].clone()),
                    None => Datum::Null,
                };
                let datums = vec![
                    Datum::String(id.to_string()),
                    Datum::String(column.name.clone()),
                    Datum::Int64(i as i64 + 1),
                    Datum::from_bool(column.nullable),
                    Datum::String(column.pg_type_name.clone()),
                    default,
                    Datum::UInt32(column.pg_type_oid),
                ];
                assert(datum_values(datums@) =~= self.column_update(*entry, i as int, diff).row);
                let ghost before = updates_view(updates@);
                updates.push(self.new_update(BuiltinTable::MzColumns, datums, diff));
                assert(updates_view(updates@) =~= before.push(
                    self.column_update(*entry, i as int, diff),
                ));
                i = i + 1;
            }
        }
        assert(updates_view(updates@) =~= self.item_updates(id, diff));
        updates
    }
}

} // verus!
