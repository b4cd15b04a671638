//! The wire form of a schema lookup: request, response and the schema they carry.

use vstd::prelude::*;
use crate::schema::{self, column_type_code, ColumnModel, NamespaceModel, TableModel};

verus! {

/// A column on the wire: its id and the integer code of its type.
#[derive(Debug, Clone, Copy, PartialEq, Eq)]
pub struct ColumnSchema {
    pub id: i64,
    pub column_type: i32,
}

impl View for ColumnSchema {
    type V = ColumnModel;

    open spec fn view(&self) -> ColumnModel {
        ColumnModel { id: self.id, code: self.column_type }
    }
}

/// A table on the wire: its id and its columns, each under its name.
#[derive(Debug, Clone, PartialEq, Eq)]
pub struct TableSchema {
    pub id: i64,
    pub columns: Vec<(String, ColumnSchema)>,
}

impl View for TableSchema {
    type V = TableModel;

    open spec fn view(&self) -> TableModel {
        TableModel {
            id: self.id,
            columns: self.columns@.map_values(|e: (String, ColumnSchema)| (e.0@, e.1@)),
        }
    }
}

/// The schema of a namespace on the wire.
#[derive(Debug, Clone, PartialEq, Eq)]
pub struct NamespaceSchema {
    pub id: i64,
    pub tables: Vec<(String, TableSchema)>,
}

impl View for NamespaceSchema {
    type V = NamespaceModel;

    open spec fn view(&self) -> NamespaceModel {
        NamespaceModel {
            id: self.id,
            tables: self.tables@.map_values(|e: (String, TableSchema)| (e.0@, e.1@)),
        }
    }
}

/// Converts one table to its wire form.
fn table_to_proto(table: &schema::TableSchema) -> (r: TableSchema)
    ensures
        r@ == table@,
{
    let mut columns: Vec<(String, ColumnSchema)> = Vec::new();
    let mut i: usize = 0;
    while i < table.columns.len()
        invariant
            i <= table.columns.len(),
            columns.len() == i,
            forall|k: int|
                0 <= k < i ==> (#[trigger] columns@[k]).0@ == table.columns@[k].0@
                    && columns@[k].1@ == table.columns@[k].1@,
        decreases table.columns.len() - i,
    {
        let (name, c) = &table.columns[i];
        columns.push((name.clone(), ColumnSchema { id: c.id, column_type: c.column_type.as_i32() }));
        i = i + 1;
    }
    let r = TableSchema { id: table.id, columns };
    assert(r@.columns =~= table@.columns);
    r
}

/// Converts a namespace schema to its wire form: every table and every column
/// keeps its name, its id and its type code, in the same order.
pub fn schema_to_proto(schema: &schema::NamespaceSchema) -> (r: NamespaceSchema)
    ensures
        r@ == schema@,
{
    let mut tables: Vec<(String, TableSchema)> = Vec::new();
    let mut i: usize = 0;
    while i < schema.tables.len()
        invariant
            i <= schema.tables.len(),
            tables.len() == i,
            forall|k: int|
                0 <= k < i ==> (#[trigger] tables@[k]).0@ == schema.tables@[k].0@
                    && tables@[k].1@ == schema.tables@[k].1@,
        decreases schema.tables.len() - i,
    {
        let (name, t) = &schema.tables[i];
        tables.push((name.clone(), table_to_proto(t)));
        i = i + 1;
    }
    let r = NamespaceSchema { id: schema.id, tables };
    assert(r@.tables =~= schema@.tables);
    r
}

/// The wire form of a schema keeps it whole: as many tables, each under the
/// same name with the same id and as many columns, and each column under the
/// same name with the same id and the integer code of its type.
pub proof fn conversion_keeps_everything(s: &schema::NamespaceSchema, w: &NamespaceSchema)
    requires
        w@ == s@,
    ensures
        w.id == s.id,
        w.tables@.len() == s.tables@.len(),
        forall|i: int|
            #![trigger w.tables@[i]]
            0 <= i < s.tables@.len() ==> {
                &&& w.tables@[i].0@ == s.tables@[i].0@
                &&& w.tables@[i].1.id == s.tables@[i].1.id
                &&& w.tables@[i].1.columns@.len() == s.tables@[i].1.columns@.len()
                &&& forall|j: int|
                    #![trigger w.tables@[i].1.columns@[j]]
                    0 <= j < s.tables@[i].1.columns@.len() ==> {
                        &&& w.tables@[i].1.columns@[j].0@ == s.tables@[i].1.columns@[j].0@
                        &&& w.tables@[i].1.columns@[j].1.id == s.tables@[i].1.columns@[j].1.id
                        &&& w.tables@[i].1.columns@[j].1.column_type == column_type_code(
                            s.tables@[i].1.columns@[j].1.column_type,
                        )
                    }
            },
{
    assert(w@.tables.len() == w.tables@.len());
    assert(s@.tables.len() == s.tables@.len());
    assert forall|i: int| 0 <= i < s.tables@.len() implies {
        &&& w.tables@[i].0@ == s.tables@[i].0@
        &&& w.tables@[i].1.id == s.tables@[i].1.id
        &&& w.tables@[i].1.columns@.len() == s.tables@[i].1.columns@.len()
        &&& forall|j: int|
            #![trigger w.tables@[i].1.columns@[j]]
            0 <= j < s.tables@[i].1.columns@.len() ==> {
                &&& w.tables@[i].1.columns@[j].0@ == s.tables@[i].1.columns@[j].0@
                &&& w.tables@[i].1.columns@[j].1.id == s.tables@[i].1.columns@[j].1.id
                &&& w.tables@[i].1.columns@[j].1.column_type == column_type_code(
                    s.tables@[i].1.columns@[j].1.column_type,
                )
            }
    } by {
        assert(w@.tables[i] == s@.tables[i]);
        let wt = w.tables@[i].1;
        let st = s.tables@[i].1;
        assert(wt@ == st@);
        assert(wt@.columns.len() == wt.columns@.len());
        assert(st@.columns.len() == st.columns@.len());
        assert forall|j: int|
            #![trigger w.tables@[i].1.columns@[j]]
            0 <= j < s.tables@[i].1.columns@.len() implies {
            &&& w.tables@[i].1.columns@[j].0@ == s.tables@[i].1.columns@[j].0@
            &&& w.tables@[i].1.columns@[j].1.id == s.tables@[i].1.columns@[j].1.id
            &&& w.tables@[i].1.columns@[j].1.column_type == column_type_code(
                s.tables@[i].1.columns@[j].1.column_type,
            )
        } by {
            assert(wt@.columns[j] == st@.columns[j]);
        }
    }
}

} // verus!
