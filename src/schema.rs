//! The schema of a namespace as the catalog hands it out.

use vstd::prelude::*;

verus! {

/// The semantic kind of a column.
#[derive(Debug, Clone, Copy, PartialEq, Eq, Structural)]
pub enum ColumnType {
    I64,
    U64,
    F64,
    Bool,
    String,
    Time,
    Tag,
}

/// The integer that stands for a column type on the wire.
pub open spec fn column_type_code(t: ColumnType) -> i32 {
    match t {
        ColumnType::I64 => 1,
        ColumnType::U64 => 2,
        ColumnType::F64 => 3,
        ColumnType::Bool => 4,
        ColumnType::String => 5,
        ColumnType::Time => 6,
        ColumnType::Tag => 7,
    }
}

impl ColumnType {
    /// The integer encoding of this column type.
    pub fn as_i32(&self) -> (r: i32)
        ensures
            r == column_type_code(*self),
    {
        match self {
            ColumnType::I64 => 1,
            ColumnType::U64 => 2,
            ColumnType::F64 => 3,
            ColumnType::Bool => 4,
            ColumnType::String => 5,
            ColumnType::Time => 6,
            ColumnType::Tag => 7,
        }
    }
}

/// A column as the lookup reports it: its id and its type code.
pub struct ColumnModel {
    pub id: i64,
    pub code: i32,
}

/// A table as the lookup reports it: its id and its columns by name.
pub struct TableModel {
    pub id: i64,
    pub columns: Seq<(Seq<char>, ColumnModel)>,
}

/// A namespace as the lookup reports it: its id and its tables by name.
pub struct NamespaceModel {
    pub id: i64,
    pub tables: Seq<(Seq<char>, TableModel)>,
}

/// No name occurs twice among the keys of `s`.
pub open spec fn names_unique<T>(s: Seq<(Seq<char>, T)>) -> bool {
    forall|i: int, j: int| 0 <= i < j < s.len() ==> #[trigger] s[i].0 != #[trigger] s[j].0
}

/// Some entry of `s` is named `name`.
pub open spec fn has_name<T>(s: Seq<(Seq<char>, T)>, name: Seq<char>) -> bool {
    exists|i: int| 0 <= i < s.len() && #[trigger] s[i].0 == name
}

/// The position of the entry named `name` in `s` (meaningful where
/// `has_name(s, name)`).
pub open spec fn index_of<T>(s: Seq<(Seq<char>, T)>, name: Seq<char>) -> int {
    choose|i: int| 0 <= i < s.len() && #[trigger] s[i].0 == name
}

/// Where names are unique, the entry at `i` is the one found under its name.
pub proof fn lemma_index_of<T>(s: Seq<(Seq<char>, T)>, i: int)
    requires
        names_unique(s),
        0 <= i < s.len(),
    ensures
        has_name(s, s[i].0),
        index_of(s, s[i].0) == i,
{
    assert(s[i].0 == s[i].0);
    let j = index_of(s, s[i].0);
    if j != i {
        if j < i {
            assert(s[j].0 != s[i].0);
        } else {
            assert(s[i].0 != s[j].0);
        }
    }
}

/// Appending an entry of a new name leaves every other name where it was.
pub proof fn lemma_push_keeps<T>(s: Seq<(Seq<char>, T)>, x: (Seq<char>, T), name: Seq<char>)
    requires
        names_unique(s),
        !has_name(s, x.0),
    ensures
        names_unique(s.push(x)),
        name != x.0 ==> has_name(s.push(x), name) == has_name(s, name),
        name != x.0 && has_name(s, name) ==> index_of(s.push(x), name) == index_of(s, name),
{
    let t = s.push(x);
    assert forall|i: int, j: int| 0 <= i < j < t.len() implies #[trigger] t[i].0 != #[trigger] t[j].0 by {
        if j == s.len() {
            if t[i].0 == t[j].0 {
                assert(s[i].0 == x.0);
            }
        } else {
            assert(s[i].0 != s[j].0);
        }
    }
    if name != x.0 && has_name(t, name) {
        let k = choose|k: int| 0 <= k < t.len() && #[trigger] t[k].0 == name;
        assert(s[k].0 == name);
    }
    if name != x.0 && has_name(s, name) {
        let k = index_of(s, name);
        lemma_index_of(s, k);
        assert(t[k].0 == name);
        lemma_index_of(t, k);
    }
}

/// Replacing an entry by one of the same name leaves every name where it was.
pub proof fn lemma_update_keeps<T>(
    s: Seq<(Seq<char>, T)>,
    k: int,
    x: (Seq<char>, T),
    name: Seq<char>,
)
    requires
        names_unique(s),
        0 <= k < s.len(),
        x.0 == s[k].0,
    ensures
        names_unique(s.update(k, x)),
        has_name(s.update(k, x), name) == has_name(s, name),
        has_name(s, name) ==> index_of(s.update(k, x), name) == index_of(s, name),
{
    let t = s.update(k, x);
    assert forall|i: int, j: int| 0 <= i < j < t.len() implies #[trigger] t[i].0 != #[trigger] t[j].0 by {
        assert(s[i].0 != s[j].0);
    }
    if has_name(t, name) {
        let i = choose|i: int| 0 <= i < t.len() && #[trigger] t[i].0 == name;
        assert(s[i].0 == name);
    }
    if has_name(s, name) {
        let i = index_of(s, name);
        lemma_index_of(s, i);
        assert(t[i].0 == name);
        lemma_index_of(t, i);
    }
}

/// Taking an entry out keeps the remaining names unique.
pub proof fn lemma_remove_keeps<T>(s: Seq<(Seq<char>, T)>, k: int)
    requires
        names_unique(s),
        0 <= k < s.len(),
    ensures
        names_unique(s.remove(k)),
        forall|i: int|
            0 <= i < s.remove(k).len() ==> #[trigger] s.remove(k)[i] == if i < k {
                s[i]
            } else {
                s[i + 1]
            },
{
    let t = s.remove(k);
    assert forall|i: int, j: int| 0 <= i < j < t.len() implies #[trigger] t[i].0 != #[trigger] t[j].0 by {
        let a = if i < k { i } else { i + 1 };
        let b = if j < k { j } else { j + 1 };
        assert(t[i] == s[a]);
        assert(t[j] == s[b]);
        assert(s[a].0 != s[b].0);
    }
}

/// Taking an entry out leaves every other name with the entry it had.
pub proof fn lemma_remove_lookup<T>(s: Seq<(Seq<char>, T)>, k: int, name: Seq<char>)
    requires
        names_unique(s),
        0 <= k < s.len(),
        name != s[k].0,
    ensures
        has_name(s.remove(k), name) == has_name(s, name),
        has_name(s, name) ==> s.remove(k)[index_of(s.remove(k), name)] == s[index_of(s, name)],
{
    let t = s.remove(k);
    lemma_remove_keeps(s, k);
    if has_name(t, name) {
        let i = choose|i: int| 0 <= i < t.len() && #[trigger] t[i].0 == name;
        if i < k {
            assert(s[i].0 == name);
        } else {
            assert(s[i + 1].0 == name);
        }
    }
    if has_name(s, name) {
        let j = index_of(s, name);
        lemma_index_of(s, j);
        let i = if j < k { j } else { j - 1 };
        assert(t[i] == s[j]);
        lemma_index_of(t, i);
    }
}

impl TableModel {
    pub open spec fn wf(self) -> bool {
        names_unique(self.columns)
    }
}

impl NamespaceModel {
    /// Table names are unique, and so are column names within each table.
    pub open spec fn wf(self) -> bool {
        &&& names_unique(self.tables)
        &&& forall|i: int| 0 <= i < self.tables.len() ==> (#[trigger] self.tables[i]).1.wf()
    }

    /// This namespace with a column `column` added to its table `table`
    /// (meaningful where it has such a table).
    pub open spec fn with_column(self, table: Seq<char>, column: Seq<char>, c: ColumnModel) -> NamespaceModel {
        let k = index_of(self.tables, table);
        let t = self.tables[k].1;
        NamespaceModel {
            id: self.id,
            tables: self.tables.update(k, (table, TableModel { id: t.id, columns: t.columns.push((column, c)) })),
        }
    }

    /// The column `column` of the table `table` (meaningful where both exist).
    pub open spec fn column(self, table: Seq<char>, column: Seq<char>) -> ColumnModel {
        let t = self.tables[index_of(self.tables, table)].1;
        t.columns[index_of(t.columns, column)].1
    }

    /// The table `table` has a column `column` (meaningful where the table
    /// exists).
    pub open spec fn has_column(self, table: Seq<char>, column: Seq<char>) -> bool {
        has_name(self.tables[index_of(self.tables, table)].1.columns, column)
    }

    /// This namespace cut down to the table named `name` alone (meaningful
    /// where it has such a table).
    pub open spec fn only_table(self, name: Seq<char>) -> NamespaceModel {
        NamespaceModel {
            id: self.id,
            tables: seq![(name, self.tables[index_of(self.tables, name)].1)],
        }
    }
}

/// A column: its id and its type.
#[derive(Debug, Clone, Copy, PartialEq, Eq)]
pub struct ColumnSchema {
    pub id: i64,
    pub column_type: ColumnType,
}

impl View for ColumnSchema {
    type V = ColumnModel;

    open spec fn view(&self) -> ColumnModel {
        ColumnModel { id: self.id, code: column_type_code(self.column_type) }
    }
}

/// A table: its id and its columns, each under its name.
#[derive(Debug, Clone, PartialEq, Eq)]
pub struct TableSchema {
    pub id: i64,
    pub columns: Vec<(String, ColumnSchema)>,
}

impl View for TableSchema {
    type V = TableModel;

    open spec fn view(&self) -> TableModel {
        TableModel {
            id: self.id,
            columns: self.columns@.map_values(|e: (String, ColumnSchema)| (e.0@, e.1@)),
        }
    }
}

/// The schema of a namespace: its id and its tables, each under its name.
#[derive(Debug, Clone, PartialEq, Eq)]
pub struct NamespaceSchema {
    pub id: i64,
    pub tables: Vec<(String, TableSchema)>,
}

impl View for NamespaceSchema {
    type V = NamespaceModel;

    open spec fn view(&self) -> NamespaceModel {
        NamespaceModel {
            id: self.id,
            tables: self.tables@.map_values(|e: (String, TableSchema)| (e.0@, e.1@)),
        }
    }
}

} // verus!
