//! The part of the catalog's state that built-in table updates read.

use vstd::prelude::*;

use crate::ids::GlobalId;
use crate::lookup::{first_match, has_match, lemma_first_match_at};

verus! {

/// The connection of the system itself: owner of items that belong to no
/// session.
pub const SYSTEM_CONN_ID: u32 = 0u32;

/// The schema id that the built-in tables record for a temporary schema.
pub const TEMPORARY_SCHEMA_ID: i64 = -1i64;

/// Names a schema: a session's temporary schema, or a schema by id.
#[derive(Clone, Copy, Debug, PartialEq, Eq, Structural)]
pub enum SchemaSpecifier {
    Temporary,
    Id(i64),
}

/// The schema id written into built-in tables for a schema specifier.
pub open spec fn schema_spec_id(s: SchemaSpecifier) -> i64 {
    match s {
        SchemaSpecifier::Temporary => TEMPORARY_SCHEMA_ID,
        SchemaSpecifier::Id(id) => id,
    }
}

impl SchemaSpecifier {
    /// The schema id written into built-in tables.
    pub fn to_i64(&self) -> (r: i64)
        ensures
            r == schema_spec_id(*self),
    {
        match self {
            SchemaSpecifier::Temporary => TEMPORARY_SCHEMA_ID,
            SchemaSpecifier::Id(id) => *id,
        }
    }
}

/// Names the database of an object: none (ambient), or a database by id.
#[derive(Clone, Copy, Debug, PartialEq, Eq, Structural)]
pub enum ResolvedDatabaseSpecifier {
    Ambient,
    Id(i64),
}

/// A schema.
#[derive(Debug)]
pub struct Schema {
    pub id: SchemaSpecifier,
    pub oid: u32,
    pub name: String,
}

/// A database and the schemas it holds.
#[derive(Debug)]
pub struct Database {
    pub id: i64,
    pub oid: u32,
    pub name: String,
    pub schemas: Vec<Schema>,
}

/// The temporary schema of a connection.
#[derive(Debug)]
pub struct TemporarySchema {
    pub conn_id: u32,
    pub schema: Schema,
}

/// A role.
#[derive(Debug)]
pub struct Role {
    pub name: String,
    pub id: i64,
    pub oid: u32,
}

/// A compute instance (cluster).
#[derive(Debug)]
pub struct ComputeInstance {
    pub name: String,
    pub id: i64,
}

/// An item of the system schemas, found by its name.
#[derive(Debug)]
pub struct SystemItem {
    pub name: String,
    pub id: GlobalId,
}

/// A column of a relation, with the PostgreSQL type that it is shown as.
#[derive(Debug)]
pub struct Column {
    pub name: String,
    pub nullable: bool,
    pub pg_type_name: String,
    pub pg_type_oid: u32,
}

/// The columns of a relation, in order.
#[derive(Debug)]
pub struct RelationDesc {
    pub columns: Vec<Column>,
}

/// A table, with the SQL text of the default of each column.
#[derive(Debug)]
pub struct Table {
    pub desc: RelationDesc,
    pub defaults: Vec<String>,
}

/// A source, with the name of its connector (such as `kafka`).
#[derive(Debug)]
pub struct Source {
    pub connector_name: String,
    pub desc: RelationDesc,
}

/// A view, with the SQL text of its defining query.
#[derive(Debug)]
pub struct SqlView {
    pub query: String,
    pub desc: RelationDesc,
}

/// Where a sink writes to.
#[derive(Debug)]
pub enum SinkConnector {
    Kafka { topic: String, consistency_topic: Option<String> },
    Tail,
}

/// The name of a sink connector.
pub open spec fn sink_connector_name(c: SinkConnector) -> Seq<char> {
    match c {
        SinkConnector::Kafka { .. } => "kafka"@,
        SinkConnector::Tail => "tail"@,
    }
}

impl SinkConnector {
    /// The name of this connector.
    pub fn name(&self) -> (s: &'static str)
        ensures
            s@ == sink_connector_name(*self),
    {
        match self {
            SinkConnector::Kafka { .. } => "kafka",
            SinkConnector::Tail => "tail",
        }
    }
}

/// A sink's connector, once it has been built.
#[derive(Debug)]
pub enum SinkConnectorState {
    Pending,
    Ready(SinkConnector),
}

/// A sink.
#[derive(Debug)]
pub struct Sink {
    pub connector: SinkConnectorState,
    pub compute_instance: i64,
}

/// One key of an index: a column of the indexed relation, or an
/// expression together with whether it can be null.
#[derive(Debug)]
pub enum IndexKey {
    Column(usize),
    Expression { nullable: bool },
}

/// An index, with the SQL text of each of its key expressions.
#[derive(Debug)]
pub struct Index {
    pub on: GlobalId,
    pub keys: Vec<IndexKey>,
    pub key_parts: Vec<String>,
    pub enabled: bool,
    pub compute_instance: i64,
}

/// The kind of a type, with the types that it refers to.
#[derive(Debug)]
pub enum CatalogType {
    Array { element_reference: GlobalId },
    List { element_reference: GlobalId },
    MapType { key_reference: GlobalId, value_reference: GlobalId },
    Pseudo,
    /// Any of the base scalar types.
    Base,
}

/// A type.
#[derive(Debug)]
pub struct Type {
    pub typ: CatalogType,
}

/// The category of a type.
#[derive(Clone, Copy, Debug, PartialEq, Eq, Structural)]
pub enum TypeCategory {
    Array,
    Base,
    List,
    MapType,
    Pseudo,
}

/// The category of a type kind.
pub open spec fn type_category(t: CatalogType) -> TypeCategory {
    match t {
        CatalogType::Array { .. } => TypeCategory::Array,
        CatalogType::List { .. } => TypeCategory::List,
        CatalogType::MapType { .. } => TypeCategory::MapType,
        CatalogType::Pseudo => TypeCategory::Pseudo,
        CatalogType::Base => TypeCategory::Base,
    }
}

/// The name of a type category.
pub open spec fn category_text(c: TypeCategory) -> Seq<char> {
    match c {
        TypeCategory::Array => "array"@,
        TypeCategory::Base => "base"@,
        TypeCategory::List => "list"@,
        TypeCategory::MapType => "map"@,
        TypeCategory::Pseudo => "pseudo"@,
    }
}

impl TypeCategory {
    /// The category of a type kind.
    pub fn from_catalog_type(t: &CatalogType) -> (c: TypeCategory)
        ensures
            c == type_category(*t),
    {
        match t {
            CatalogType::Array { .. } => TypeCategory::Array,
            CatalogType::List { .. } => TypeCategory::List,
            CatalogType::MapType { .. } => TypeCategory::MapType,
            CatalogType::Pseudo => TypeCategory::Pseudo,
            CatalogType::Base => TypeCategory::Base,
        }
    }

    /// The name of this category.
    pub fn to_string(&self) -> (s: String)
        ensures
            s@ == category_text(*self),
    {
        match self {
            TypeCategory::Array => String::from_str("array"),
            TypeCategory::Base => String::from_str("base"),
            TypeCategory::List => String::from_str("list"),
            TypeCategory::MapType => String::from_str("map"),
            TypeCategory::Pseudo => String::from_str("pseudo"),
        }
    }
}

/// One implementation (overload) of a function, with the names of its
/// argument, variadic and return types.
#[derive(Debug)]
pub struct FuncImpl {
    pub oid: u32,
    pub arg_typs: Vec<String>,
    pub variadic_typ: Option<String>,
    pub return_typ: Option<String>,
    pub return_is_set: bool,
}

/// A function and its implementations.
#[derive(Debug)]
pub struct Func {
    pub impls: Vec<FuncImpl>,
}

/// The service that a connector connects to.
#[derive(Debug)]
pub enum ConnectorInner {
    Kafka,
}

/// A connector.
#[derive(Debug)]
pub struct Connector {
    pub connector: ConnectorInner,
}

/// Whether an item's contents can change on their own.
#[derive(Clone, Copy, Debug, PartialEq, Eq, Structural)]
pub enum Volatility {
    Volatile,
    Nonvolatile,
    Unknown,
}

/// The name of a volatility.
pub open spec fn volatility_text(v: Volatility) -> Seq<char> {
    match v {
        Volatility::Volatile => "volatile"@,
        Volatility::Nonvolatile => "nonvolatile"@,
        Volatility::Unknown => "unknown"@,
    }
}

impl Volatility {
    /// The name of this volatility.
    pub fn as_str(&self) -> (s: &'static str)
        ensures
            s@ == volatility_text(*self),
    {
        match self {
            Volatility::Volatile => "volatile",
            Volatility::Nonvolatile => "nonvolatile",
            Volatility::Unknown => "unknown",
        }
    }
}

/// What a catalog item is.
#[derive(Debug)]
pub enum CatalogItem {
    Table(Table),
    Source(Source),
    View(SqlView),
    Sink(Sink),
    Index(Index),
    Type(Type),
    Func(Func),
    Secret,
    Connector(Connector),
}

/// The relation description of an item: tables, sources and views have
/// one, other items have none.
pub open spec fn item_desc(item: CatalogItem) -> Option<RelationDesc> {
    match item {
        CatalogItem::Table(t) => Some(t.desc),
        CatalogItem::Source(s) => Some(s.desc),
        CatalogItem::View(v) => Some(v.desc),
        _ => None,
    }
}

impl CatalogItem {
    /// The relation description of this item, where it has one.
    pub fn desc(&self) -> (d: Option<&RelationDesc>)
        ensures
            match item_desc(*self) {
                Some(x) => d.is_some() && *d.unwrap() == x,
                None => d.is_none(),
            },
    {
        match self {
            CatalogItem::Table(t) => Some(&t.desc),
            CatalogItem::Source(s) => Some(&s.desc),
            CatalogItem::View(v) => Some(&v.desc),
            _ => None,
        }
    }
}

/// The database and schema an object belongs to.
#[derive(Debug)]
pub struct ObjectQualifiers {
    pub database_spec: ResolvedDatabaseSpecifier,
    pub schema_spec: SchemaSpecifier,
}

/// The full name of an object.
#[derive(Debug)]
pub struct QualifiedObjectName {
    pub qualifiers: ObjectQualifiers,
    pub item: String,
}

/// An item of the catalog.
#[derive(Debug)]
pub struct CatalogEntry {
    pub id: GlobalId,
    pub oid: u32,
    pub name: QualifiedObjectName,
    /// The connection that owns the item, for a temporary item.
    pub conn_id: Option<u32>,
    /// The volatility that the catalog derives for the item.
    pub volatility: Volatility,
    pub item: CatalogItem,
}

/// The connection that owns an entry: its own, or the system's.
pub open spec fn entry_conn_id(e: CatalogEntry) -> u32 {
    match e.conn_id {
        Some(c) => c,
        None => SYSTEM_CONN_ID,
    }
}

/// The built-in tables that describe the catalog.
#[derive(Clone, Copy, Debug, PartialEq, Eq, Structural)]
pub enum BuiltinTable {
    MzArrayTypes,
    MzBaseTypes,
    MzClusters,
    MzColumns,
    MzConnectors,
    MzDatabases,
    MzFunctions,
    MzIndexes,
    MzIndexColumns,
    MzKafkaSinks,
    MzListTypes,
    MzMapTypes,
    MzPseudoTypes,
    MzRoles,
    MzSchemas,
    MzSecrets,
    MzSinks,
    MzSources,
    MzTables,
    MzTypes,
    MzViews,
}

/// The identifiers that the built-in tables were given.
#[derive(Clone, Copy, Debug)]
pub struct BuiltinTableIds {
    pub mz_array_types: GlobalId,
    pub mz_base_types: GlobalId,
    pub mz_clusters: GlobalId,
    pub mz_columns: GlobalId,
    pub mz_connectors: GlobalId,
    pub mz_databases: GlobalId,
    pub mz_functions: GlobalId,
    pub mz_indexes: GlobalId,
    pub mz_index_columns: GlobalId,
    pub mz_kafka_sinks: GlobalId,
    pub mz_list_types: GlobalId,
    pub mz_map_types: GlobalId,
    pub mz_pseudo_types: GlobalId,
    pub mz_roles: GlobalId,
    pub mz_schemas: GlobalId,
    pub mz_secrets: GlobalId,
    pub mz_sinks: GlobalId,
    pub mz_sources: GlobalId,
    pub mz_tables: GlobalId,
    pub mz_types: GlobalId,
    pub mz_views: GlobalId,
}

/// The identifier of a built-in table.
pub open spec fn table_id(ids: BuiltinTableIds, t: BuiltinTable) -> GlobalId {
    match t {
        BuiltinTable::MzArrayTypes => ids.mz_array_types,
        BuiltinTable::MzBaseTypes => ids.mz_base_types,
        BuiltinTable::MzClusters => ids.mz_clusters,
        BuiltinTable::MzColumns => ids.mz_columns,
        BuiltinTable::MzConnectors => ids.mz_connectors,
        BuiltinTable::MzDatabases => ids.mz_databases,
        BuiltinTable::MzFunctions => ids.mz_functions,
        BuiltinTable::MzIndexes => ids.mz_indexes,
        BuiltinTable::MzIndexColumns => ids.mz_index_columns,
        BuiltinTable::MzKafkaSinks => ids.mz_kafka_sinks,
        BuiltinTable::MzListTypes => ids.mz_list_types,
        BuiltinTable::MzMapTypes => ids.mz_map_types,
        BuiltinTable::MzPseudoTypes => ids.mz_pseudo_types,
        BuiltinTable::MzRoles => ids.mz_roles,
        BuiltinTable::MzSchemas => ids.mz_schemas,
        BuiltinTable::MzSecrets => ids.mz_secrets,
        BuiltinTable::MzSinks => ids.mz_sinks,
        BuiltinTable::MzSources => ids.mz_sources,
        BuiltinTable::MzTables => ids.mz_tables,
        BuiltinTable::MzTypes => ids.mz_types,
        BuiltinTable::MzViews => ids.mz_views,
    }
}

/// The number of columns of a built-in table.
pub open spec fn table_arity(t: BuiltinTable) -> nat {
    match t {
        BuiltinTable::MzArrayTypes => 2,
        BuiltinTable::MzBaseTypes => 1,
        BuiltinTable::MzClusters => 2,
        BuiltinTable::MzColumns => 7,
        BuiltinTable::MzConnectors => 5,
        BuiltinTable::MzDatabases => 3,
        BuiltinTable::MzFunctions => 8,
        BuiltinTable::MzIndexes => 7,
        BuiltinTable::MzIndexColumns => 5,
        BuiltinTable::MzKafkaSinks => 3,
        BuiltinTable::MzListTypes => 2,
        BuiltinTable::MzMapTypes => 3,
        BuiltinTable::MzPseudoTypes => 1,
        BuiltinTable::MzRoles => 3,
        BuiltinTable::MzSchemas => 4,
        BuiltinTable::MzSecrets => 3,
        BuiltinTable::MzSinks => 7,
        BuiltinTable::MzSources => 6,
        BuiltinTable::MzTables => 4,
        BuiltinTable::MzTypes => 5,
        BuiltinTable::MzViews => 6,
    }
}

pub open spec fn database_has_id(id: i64) -> spec_fn(Database) -> bool {
    |d: Database| d.id == id
}

pub open spec fn schema_has_id(id: i64) -> spec_fn(Schema) -> bool {
    |s: Schema| s.id == SchemaSpecifier::Id(id)
}

pub open spec fn temporary_schema_of(conn_id: u32) -> spec_fn(TemporarySchema) -> bool {
    |t: TemporarySchema| t.conn_id == conn_id
}

pub open spec fn role_named(name: Seq<char>) -> spec_fn(Role) -> bool {
    |r: Role| r.name@ == name
}

pub open spec fn compute_instance_named(name: Seq<char>) -> spec_fn(ComputeInstance) -> bool {
    |c: ComputeInstance| c.name@ == name
}

pub open spec fn entry_has_id(id: GlobalId) -> spec_fn(CatalogEntry) -> bool {
    |e: CatalogEntry| e.id == id
}

pub open spec fn system_item_named(name: Seq<char>) -> spec_fn(SystemItem) -> bool {
    |i: SystemItem| i.name@ == name
}

/// The part of the catalog's state that built-in table updates read.
#[derive(Debug)]
pub struct CatalogState {
    pub database_by_id: Vec<Database>,
    pub ambient_schemas_by_id: Vec<Schema>,
    pub temporary_schemas: Vec<TemporarySchema>,
    pub roles: Vec<Role>,
    pub compute_instances_by_name: Vec<ComputeInstance>,
    pub entries: Vec<CatalogEntry>,
    /// The items of the system schemas, in the order they are searched.
    pub system_items: Vec<SystemItem>,
    pub builtin_tables: BuiltinTableIds,
}

impl CatalogState {
    pub open spec fn has_database(self, id: i64) -> bool {
        has_match(self.database_by_id@, database_has_id(id))
    }

    /// The database with the given id.
    pub open spec fn database_with_id(self, id: i64) -> Database {
        first_match(self.database_by_id@, database_has_id(id))
    }

    pub open spec fn has_role(self, name: Seq<char>) -> bool {
        has_match(self.roles@, role_named(name))
    }

    /// The role with the given name.
    pub open spec fn role_with_name(self, name: Seq<char>) -> Role {
        first_match(self.roles@, role_named(name))
    }

    pub open spec fn has_compute_instance(self, name: Seq<char>) -> bool {
        has_match(self.compute_instances_by_name@, compute_instance_named(name))
    }

    /// The compute instance with the given name.
    pub open spec fn compute_instance_with_name(self, name: Seq<char>) -> ComputeInstance {
        first_match(self.compute_instances_by_name@, compute_instance_named(name))
    }

    pub open spec fn has_entry(self, id: GlobalId) -> bool {
        has_match(self.entries@, entry_has_id(id))
    }

    /// The entry with the given id.
    pub open spec fn entry_with_id(self, id: GlobalId) -> CatalogEntry {
        first_match(self.entries@, entry_has_id(id))
    }

    pub open spec fn has_system_item(self, name: Seq<char>) -> bool {
        has_match(self.system_items@, system_item_named(name))
    }

    /// The id of the first system item with the given name.
    pub open spec fn system_item_id(self, name: Seq<char>) -> GlobalId {
        first_match(self.system_items@, system_item_named(name)).id
    }

    /// The schema named by a database and a schema specifier exists, for
    /// the given connection.
    pub open spec fn has_schema(
        self,
        database_spec: ResolvedDatabaseSpecifier,
        schema_spec: SchemaSpecifier,
        conn_id: u32,
    ) -> bool {
        match (database_spec, schema_spec) {
            (ResolvedDatabaseSpecifier::Ambient, SchemaSpecifier::Temporary) => has_match(
                self.temporary_schemas@,
                temporary_schema_of(conn_id),
            ),
            (ResolvedDatabaseSpecifier::Ambient, SchemaSpecifier::Id(id)) => has_match(
                self.ambient_schemas_by_id@,
                schema_has_id(id),
            ),
            (ResolvedDatabaseSpecifier::Id(db), SchemaSpecifier::Id(id)) => self.has_database(db)
                && has_match(self.database_with_id(db).schemas@, schema_has_id(id)),
            (ResolvedDatabaseSpecifier::Id(_), SchemaSpecifier::Temporary) => false,
        }
    }

    /// The schema named by a database and a schema specifier.
    pub open spec fn schema_of(
        self,
        database_spec: ResolvedDatabaseSpecifier,
        schema_spec: SchemaSpecifier,
        conn_id: u32,
    ) -> Schema {
        match (database_spec, schema_spec) {
            (ResolvedDatabaseSpecifier::Ambient, SchemaSpecifier::Temporary) => first_match(
                self.temporary_schemas@,
                temporary_schema_of(conn_id),
            ).schema,
            (ResolvedDatabaseSpecifier::Ambient, SchemaSpecifier::Id(id)) => first_match(
                self.ambient_schemas_by_id@,
                schema_has_id(id),
            ),
            (ResolvedDatabaseSpecifier::Id(db), SchemaSpecifier::Id(id)) => first_match(
                self.database_with_id(db).schemas@,
                schema_has_id(id),
            ),
            (ResolvedDatabaseSpecifier::Id(_), SchemaSpecifier::Temporary) => arbitrary(),
        }
    }

    /// The id of the built-in table `table`.
    pub open spec fn builtin_id(self, table: BuiltinTable) -> GlobalId {
        table_id(self.builtin_tables, table)
    }

    /// The id of the built-in table `table`.
    pub fn resolve_builtin_table(&self, table: BuiltinTable) -> (id: GlobalId)
        ensures
            id == self.builtin_id(table),
    {
        let ids = &self.builtin_tables;
        match table {
            BuiltinTable::MzArrayTypes => ids.mz_array_types,
            BuiltinTable::MzBaseTypes => ids.mz_base_types,
            BuiltinTable::MzClusters => ids.mz_clusters,
            BuiltinTable::MzColumns => ids.mz_columns,
            BuiltinTable::MzConnectors => ids.mz_connectors,
            BuiltinTable::MzDatabases => ids.mz_databases,
            BuiltinTable::MzFunctions => ids.mz_functions,
            BuiltinTable::MzIndexes => ids.mz_indexes,
            BuiltinTable::MzIndexColumns => ids.mz_index_columns,
            BuiltinTable::MzKafkaSinks => ids.mz_kafka_sinks,
            BuiltinTable::MzListTypes => ids.mz_list_types,
            BuiltinTable::MzMapTypes => ids.mz_map_types,
            BuiltinTable::MzPseudoTypes => ids.mz_pseudo_types,
            BuiltinTable::MzRoles => ids.mz_roles,
            BuiltinTable::MzSchemas => ids.mz_schemas,
            BuiltinTable::MzSecrets => ids.mz_secrets,
            BuiltinTable::MzSinks => ids.mz_sinks,
            BuiltinTable::MzSources => ids.mz_sources,
            BuiltinTable::MzTables => ids.mz_tables,
            BuiltinTable::MzTypes => ids.mz_types,
            BuiltinTable::MzViews => ids.mz_views,
        }
    }

    /// The database with the given id.
    pub fn database(&self, id: i64) -> (d: &Database)
        requires
            self.has_database(id),
        ensures
            *d == self.database_with_id(id),
    {
        let mut i: usize = 0;
        while i < self.database_by_id.len()
            invariant
                i <= self.database_by_id@.len(),
                has_match(self.database_by_id@, database_has_id(id)),
                forall|j: int| 0 <= j < i ==> !(database_has_id(id))(#[trigger] self.database_by_id@[j]),
            decreases self.database_by_id@.len() - i,
        {
            if self.database_by_id[i].id == id {
                proof {
                    lemma_first_match_at(self.database_by_id@, database_has_id(id), i as int);
                }
                return &self.database_by_id[i];
            }
            i = i + 1;
        }
        unreached()
    }

    /// The role with the given name.
    #[verifier::loop_isolation(false)]
    pub fn role(&self, name: &str) -> (r: &Role)
        requires
            self.has_role(name@),
        ensures
            *r == self.role_with_name(name@),
    {
        let key = String::from_str(name);
        let mut i: usize = 0;
        while i < self.roles.len()
            invariant
                i <= self.roles@.len(),
                has_match(self.roles@, role_named(name@)),
                forall|j: int| 0 <= j < i ==> !(role_named(name@))(#[trigger] self.roles@[j]),
            decreases self.roles@.len() - i,
        {
            if self.roles[i].name == key {
                proof {
                    lemma_first_match_at(self.roles@, role_named(name@), i as int);
                }
                return &self.roles[i];
            }
            i = i + 1;
        }
        unreached()
    }

    /// The compute instance with the given name.
    #[verifier::loop_isolation(false)]
    pub fn compute_instance(&self, name: &str) -> (c: &ComputeInstance)
        requires
            self.has_compute_instance(name@),
        ensures
            *c == self.compute_instance_with_name(name@),
    {
        let key = String::from_str(name);
        let mut i: usize = 0;
        while i < self.compute_instances_by_name.len()
            invariant
                i <= self.compute_instances_by_name@.len(),
                has_match(self.compute_instances_by_name@, compute_instance_named(name@)),
                forall|j: int| 0 <= j < i ==> !(compute_instance_named(name@))(#[trigger] self.compute_instances_by_name@[j]),
            decreases self.compute_instances_by_name@.len() - i,
        {
            if self.compute_instances_by_name[i].name == key {
                proof {
                    lemma_first_match_at(self.compute_instances_by_name@, compute_instance_named(name@), i as int);
                }
                return &self.compute_instances_by_name[i];
            }
            i = i + 1;
        }
        unreached()
    }

    /// The entry with the given id.
    pub fn get_entry(&self, id: &GlobalId) -> (e: &CatalogEntry)
        requires
            self.has_entry(*id),
        ensures
            *e == self.entry_with_id(*id),
    {
        let mut i: usize = 0;
        while i < self.entries.len()
            invariant
                i <= self.entries@.len(),
                has_match(self.entries@, entry_has_id(*id)),
                forall|j: int| 0 <= j < i ==> !(entry_has_id(*id))(#[trigger] self.entries@[j]),
            decreases self.entries@.len() - i,
        {
            if self.entries[i].id == *id {
                proof {
                    lemma_first_match_at(self.entries@, entry_has_id(*id), i as int);
                }
                return &self.entries[i];
            }
            i = i + 1;
        }
        unreached()
    }

    /// The first item of the system schemas with the given name.
    pub fn get_entry_in_system_schemas(&self, name: &String) -> (item: &SystemItem)
        requires
            self.has_system_item(name@),
        ensures
            item.id == self.system_item_id(name@),
            *item == first_match(self.system_items@, system_item_named(name@)),
    {
        let mut i: usize = 0;
        while i < self.system_items.len()
            invariant
                i <= self.system_items@.len(),
                has_match(self.system_items@, system_item_named(name@)),
                forall|j: int| 0 <= j < i ==> !(system_item_named(name@))(#[trigger] self.system_items@[j]),
            decreases self.system_items@.len() - i,
        {
            if self.system_items[i].name == *name {
                proof {
                    lemma_first_match_at(self.system_items@, system_item_named(name@), i as int);
                }
                return &self.system_items[i];
            }
            i = i + 1;
        }
        unreached()
    }

    /// The volatility of the item with the given id.
    pub fn is_volatile(&self, id: GlobalId) -> (v: Volatility)
        requires
            self.has_entry(id),
        ensures
            v == self.entry_with_id(id).volatility,
    {
        self.get_entry(&id).volatility
    }

    /// The schema named by a database and a schema specifier.
    #[verifier::loop_isolation(false)]
    pub fn get_schema(
        &self,
        database_spec: &ResolvedDatabaseSpecifier,
        schema_spec: &SchemaSpecifier,
        conn_id: u32,
    ) -> (s: &Schema)
        requires
            self.has_schema(*database_spec, *schema_spec, conn_id),
        ensures
            *s == self.schema_of(*database_spec, *schema_spec, conn_id),
    {
        match (database_spec, schema_spec) {
            (ResolvedDatabaseSpecifier::Ambient, SchemaSpecifier::Temporary) => {
                let mut i: usize = 0;
        while i < self.temporary_schemas.len()
            invariant
                i <= self.temporary_schemas@.len(),
                has_match(self.temporary_schemas@, temporary_schema_of(conn_id)),
                forall|j: int| 0 <= j < i ==> !(temporary_schema_of(conn_id))(#[trigger] self.temporary_schemas@[j]),
            decreases self.temporary_schemas@.len() - i,
        {
            if self.temporary_schemas[i].conn_id == conn_id {
                proof {
                    lemma_first_match_at(self.temporary_schemas@, temporary_schema_of(conn_id), i as int);
                }
                return &self.temporary_schemas[i].schema;
            }
            i = i + 1;
        }
        unreached()
            },
            (ResolvedDatabaseSpecifier::Ambient, SchemaSpecifier::Id(id)) => {
                let mut i: usize = 0;
        while i < self.ambient_schemas_by_id.len()
            invariant
                i <= self.ambient_schemas_by_id@.len(),
                has_match(self.ambient_schemas_by_id@, schema_has_id(*id)),
                forall|j: int| 0 <= j < i ==> !(schema_has_id(*id))(#[trigger] self.ambient_schemas_by_id@[j]),
            decreases self.ambient_schemas_by_id@.len() - i,
        {
            if self.ambient_schemas_by_id[i].id == SchemaSpecifier::Id(*id) {
                proof {
                    lemma_first_match_at(self.ambient_schemas_by_id@, schema_has_id(*id), i as int);
                }
                return &self.ambient_schemas_by_id[i];
            }
            i = i + 1;
        }
        unreached()
            },
            (ResolvedDatabaseSpecifier::Id(db), SchemaSpecifier::Id(id)) => {
                let database = self.database(*db);
                let mut i: usize = 0;
        while i < database.schemas.len()
            invariant
                i <= database.schemas@.len(),
                has_match(database.schemas@, schema_has_id(*id)),
                forall|j: int| 0 <= j < i ==> !(schema_has_id(*id))(#[trigger] database.schemas@[j]),
            decreases database.schemas@.len() - i,
        {
            if database.schemas[i].id == SchemaSpecifier::Id(*id) {
                proof {
                    lemma_first_match_at(database.schemas@, schema_has_id(*id), i as int);
                }
                return &database.schemas[i];
            }
            i = i + 1;
        }
        unreached()
            },
            (ResolvedDatabaseSpecifier::Id(_), SchemaSpecifier::Temporary) => unreached(),
        }
    }
}

} // verus!
