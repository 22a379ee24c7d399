# builtin_table_updates

The rows that a SQL catalog writes into its built-in system tables
(`mz_databases`, `mz_tables`, `mz_columns`, `mz_indexes`, ...) to describe
each catalog object, verified with Verus.

- `src/ids.rs`: item identifiers and their text (`s1`, `u42`, `t7`), with a
  proof that distinct identifiers have distinct texts.
- `src/datum.rs`: the values rows are made of, and rows.
- `src/lookup.rs`: first-match lookups in keyed lists.
- `src/catalog.rs`: the part of the catalog state that the updates read:
  databases, schemas, roles, clusters, items and the ids of the built-in
  tables.
- `src/builtin_table_updates.rs`: the `pack_*` functions, each with a
  contract that gives the exact updates it returns.
- `src/laws.rs`: properties of all updates: retraction mirrors addition,
  every row of an item starts with the item's id, distinct items share no
  row, every row fits its table.
- `app/`: SQL case-conversion functions that rely on an outside crate.
