//! A catalog held in memory.

use vstd::prelude::*;
use vstd::string::*;
use crate::catalog::{expected_lookup, lookup_view, Catalog, CatalogError};
use crate::schema::{
    column_type_code,
    has_name, index_of, lemma_index_of, lemma_push_keeps, lemma_remove_keeps,
    lemma_remove_lookup, lemma_update_keeps, names_unique,
    ColumnModel, ColumnSchema, ColumnType, NamespaceModel, NamespaceSchema, TableModel,
    TableSchema,
};

verus! {

/// The entry named `name` in `v`, if there is one.
fn find<T>(v: &Vec<(String, T)>, name: &str) -> (r: Option<usize>)
    ensures
        r matches Some(i) ==> i < v@.len() && v@[i as int].0@ == name@,
        r is None ==> forall|i: int| 0 <= i < v@.len() ==> (#[trigger] v@[i]).0@ != name@,
{
    let key = String::from_str(name);
    let mut i: usize = 0;
    while i < v.len()
        invariant
            i <= v@.len(),
            key@ == name@,
            forall|k: int| 0 <= k < i ==> (#[trigger] v@[k]).0@ != name@,
        decreases v@.len() - i,
    {
        if v[i].0 == key {
            return Some(i);
        }
        i = i + 1;
    }
    None
}

/// A copy of a table.
fn copy_table(t: &TableSchema) -> (r: TableSchema)
    ensures
        r@ == t@,
{
    let mut columns: Vec<(String, ColumnSchema)> = Vec::new();
    let mut i: usize = 0;
    while i < t.columns.len()
        invariant
            i <= t.columns@.len(),
            columns@.len() == i,
            forall|k: int|
                0 <= k < i ==> (#[trigger] columns@[k]).0@ == t.columns@[k].0@
                    && columns@[k].1 == t.columns@[k].1,
        decreases t.columns@.len() - i,
    {
        let (name, c) = &t.columns[i];
        columns.push((name.clone(), *c));
        i = i + 1;
    }
    let r = TableSchema { id: t.id, columns };
    assert(r@.columns =~= t@.columns);
    r
}

/// A copy of a namespace schema.
fn copy_namespace(s: &NamespaceSchema) -> (r: NamespaceSchema)
    ensures
        r@ == s@,
{
    let mut tables: Vec<(String, TableSchema)> = Vec::new();
    let mut i: usize = 0;
    while i < s.tables.len()
        invariant
            i <= s.tables@.len(),
            tables@.len() == i,
            forall|k: int|
                0 <= k < i ==> (#[trigger] tables@[k]).0@ == s.tables@[k].0@
                    && tables@[k].1@ == s.tables@[k].1@,
        decreases s.tables@.len() - i,
    {
        let (name, t) = &s.tables[i];
        tables.push((name.clone(), copy_table(t)));
        i = i + 1;
    }
    let r = NamespaceSchema { id: s.id, tables };
    assert(r@.tables =~= s@.tables);
    r
}

/// A catalog that keeps every namespace in memory, with identifiers handed out
/// from one counter. Soft-deleted namespaces, and soft-deleted tables with the
/// name of their namespace, are kept apart, where no lookup sees them.
#[derive(Debug)]
pub struct MemCatalog {
    namespaces: Vec<(String, NamespaceSchema)>,
    deleted_namespaces: Vec<(String, NamespaceSchema)>,
    deleted_tables: Vec<(String, (String, TableSchema))>,
    next_id: i64,
}

impl MemCatalog {
    /// The namespaces by name.
    pub closed spec fn store(&self) -> Seq<(Seq<char>, NamespaceModel)> {
        self.namespaces@.map_values(|e: (String, NamespaceSchema)| (e.0@, e.1@))
    }

    /// Names are unique, and every namespace is well formed.
    pub closed spec fn wf(&self) -> bool {
        &&& names_unique(self.store())
        &&& forall|i: int| 0 <= i < self.store().len() ==> (#[trigger] self.store()[i]).1.wf()
        &&& 1 <= self.next_id
    }

    /// The identifier that the next creation hands out.
    pub closed spec fn next_identifier(&self) -> i64 {
        self.next_id
    }

    /// There is an identifier left to hand out.
    pub open spec fn ids_left(&self) -> bool {
        self.next_identifier() < i64::MAX
    }

    /// The schema of the namespace named `namespace`, if there is one.
    pub open spec fn namespace(&self, namespace: Seq<char>) -> Option<NamespaceModel> {
        if has_name(self.store(), namespace) {
            Some(self.store()[index_of(self.store(), namespace)].1)
        } else {
            None
        }
    }

    /// An empty catalog.
    pub fn new() -> (r: Self)
        ensures
            r.wf(),
            r.next_identifier() == 1,
            forall|n: Seq<char>| r.namespace(n) is None,
    {
        let r = MemCatalog {
            namespaces: Vec::new(),
            deleted_namespaces: Vec::new(),
            deleted_tables: Vec::new(),
            next_id: 1,
        };
        assert(r.store() =~= Seq::<(Seq<char>, NamespaceModel)>::empty());
        r
    }

    /// The schema of the namespace named `namespace` with all its tables; fails
    /// with `NamespaceNotFound` exactly where there is no such namespace.
    pub fn schema_by_name(&self, namespace: &str) -> (r: Result<NamespaceSchema, CatalogError>)
        requires
            self.wf(),
        ensures
            lookup_view(r) == expected_lookup(self.namespace(namespace@), namespace@, None),
            self.namespace(namespace@) matches Some(m) ==> r is Ok && r->Ok_0@ == m,
            self.namespace(namespace@) is None ==> (r matches Err(
                CatalogError::NamespaceNotFound { name },
            ) && name@ == namespace@),
            r is Ok ==> r->Ok_0@.wf(),
    {
        match find(&self.namespaces, namespace) {
            Some(i) => {
                proof {
                    lemma_index_of(self.store(), i as int);
                }
                Ok(copy_namespace(&self.namespaces[i].1))
            },
            None => {
                assert(!has_name(self.store(), namespace@));
                Err(CatalogError::NamespaceNotFound { name: String::from_str(namespace) })
            },
        }
    }

    /// The schema of the namespace named `namespace` cut down to its table
    /// named `table`; fails with `NamespaceNotFound` where there is no such
    /// namespace, else with `TableNotFound` where it has no such table.
    pub fn schema_by_namespace_and_table(&self, namespace: &str, table: &str) -> (r: Result<
        NamespaceSchema,
        CatalogError,
    >)
        requires
            self.wf(),
        ensures
            lookup_view(r) == expected_lookup(self.namespace(namespace@), namespace@, Some(table@)),
            self.namespace(namespace@) is None ==> (r matches Err(
                CatalogError::NamespaceNotFound { name },
            ) && name@ == namespace@),
            self.namespace(namespace@) matches Some(m) ==> if has_name(m.tables, table@) {
                r is Ok && r->Ok_0@ == m.only_table(table@)
            } else {
                (r matches Err(CatalogError::TableNotFound { name }) && name@ == table@)
            },
            r is Ok ==> r->Ok_0@.wf(),
    {
        match find(&self.namespaces, namespace) {
            Some(i) => {
                proof {
                    lemma_index_of(self.store(), i as int);
                }
                let ns = &self.namespaces[i].1;
                let ghost m = ns@;
                assert(m.wf());
                match find(&ns.tables, table) {
                    Some(k) => {
                        proof {
                            lemma_index_of(m.tables, k as int);
                        }
                        let t = copy_table(&ns.tables[k].1);
                        let r = NamespaceSchema {
                            id: ns.id,
                            tables: vec![(String::from_str(table), t)],
                        };
                        assert(r@.tables =~= m.only_table(table@).tables);
                        assert(m.tables[k as int].1.wf());
                        Ok(r)
                    },
                    None => {
                        assert(!has_name(m.tables, table@));
                        Err(CatalogError::TableNotFound { name: String::from_str(table) })
                    },
                }
            },
            None => {
                assert(!has_name(self.store(), namespace@));
                Err(CatalogError::NamespaceNotFound { name: String::from_str(namespace) })
            },
        }
    }

    /// Adds an empty namespace named `name` and returns its identifier.
    pub fn create_namespace(&mut self, name: &str) -> (r: Result<i64, CatalogError>)
        requires
            old(self).wf(),
        ensures
            final(self).wf(),
            old(self).namespace(name@) is Some ==> (r matches Err(
                CatalogError::AlreadyExists { name: n },
            ) && n@ == name@),
            old(self).namespace(name@) is None && !old(self).ids_left() ==> r matches Err(
                CatalogError::IdsExhausted,
            ),
            old(self).namespace(name@) is None && old(self).ids_left() ==> r is Ok
                && final(self).namespace(name@) == Some(
                NamespaceModel { id: r->Ok_0, tables: seq![] },
            ),
            r is Err ==> *final(self) == *old(self),
            r is Ok ==> r->Ok_0 == old(self).next_identifier() && final(self).next_identifier()
                == old(self).next_identifier() + 1,
            r is Ok ==> forall|n: Seq<char>|
                n != name@ ==> #[trigger] final(self).namespace(n) == old(self).namespace(n),
    {
        match find(&self.namespaces, name) {
            Some(i) => {
                proof {
                    lemma_index_of(self.store(), i as int);
                }
                Err(CatalogError::AlreadyExists { name: String::from_str(name) })
            },
            None => {
                if self.next_id == i64::MAX {
                    return Err(CatalogError::IdsExhausted);
                }
                let ghost before = self.store();
                assert(!has_name(before, name@));
                let id = self.take_id();
                self.namespaces.push((String::from_str(name), NamespaceSchema { id, tables: Vec::new() }));
                proof {
                    let x = (name@, NamespaceModel { id, tables: seq![] });
                    assert(self.store().last().1.tables =~= x.1.tables);
                    assert(self.store() =~= before.push(x));
                    lemma_push_keeps(before, x, name@);
                    assert forall|n: Seq<char>| n != name@ implies #[trigger] self.namespace(n)
                        == old(self).namespace(n) by {
                        lemma_push_keeps(before, x, n);
                    }
                    lemma_index_of(self.store(), before.len() as int);
                }
                Ok(id)
            },
        }
    }

    /// Adds an empty table named `table` to the namespace `namespace` and
    /// returns its identifier.
    pub fn create_table(&mut self, namespace: &str, table: &str) -> (r: Result<i64, CatalogError>)
        requires
            old(self).wf(),
        ensures
            final(self).wf(),
            old(self).namespace(namespace@) is None ==> (r matches Err(
                CatalogError::NamespaceNotFound { name },
            ) && name@ == namespace@),
            old(self).namespace(namespace@) matches Some(m) ==> {
                if has_name(m.tables, table@) {
                    r matches Err(CatalogError::AlreadyExists { name }) && name@ == table@
                } else if !old(self).ids_left() {
                    r matches Err(CatalogError::IdsExhausted)
                } else {
                    r is Ok && final(self).namespace(namespace@) == Some(
                        NamespaceModel {
                            id: m.id,
                            tables: m.tables.push((table@, TableModel { id: r->Ok_0, columns: seq![] })),
                        },
                    )
                }
            },
            r is Err ==> *final(self) == *old(self),
            r is Ok ==> r->Ok_0 == old(self).next_identifier() && final(self).next_identifier()
                == old(self).next_identifier() + 1,
            r is Ok ==> forall|n: Seq<char>|
                n != namespace@ ==> #[trigger] final(self).namespace(n) == old(self).namespace(n),
    {
        let i = match find(&self.namespaces, namespace) {
            Some(i) => i,
            None => {
                assert(!has_name(self.store(), namespace@));
                return Err(CatalogError::NamespaceNotFound { name: String::from_str(namespace) });
            },
        };
        proof {
            lemma_index_of(self.store(), i as int);
        }
        let ghost before = self.store();
        let ghost m = before[i as int].1;
        assert(m.wf());
        match find(&self.namespaces[i].1.tables, table) {
            Some(k) => {
                proof {
                    lemma_index_of(m.tables, k as int);
                }
                return Err(CatalogError::AlreadyExists { name: String::from_str(table) });
            },
            None => {},
        }
        assert(!has_name(m.tables, table@));
        if self.next_id == i64::MAX {
            return Err(CatalogError::IdsExhausted);
        }
        let id = self.take_id();
        self.namespaces[i].1.tables.push((String::from_str(table), TableSchema { id, columns: Vec::new() }));
        proof {
            let tm = TableModel { id, columns: seq![] };
            let nm = NamespaceModel { id: m.id, tables: m.tables.push((table@, tm)) };
            assert(tm.columns =~= self.store()[i as int].1.tables.last().1.columns);
            assert(nm.tables =~= self.store()[i as int].1.tables);
            assert(self.store() =~= before.update(i as int, (namespace@, nm)));
            lemma_push_keeps(m.tables, (table@, tm), table@);
            assert(nm.wf());
            lemma_update_keeps(before, i as int, (namespace@, nm), namespace@);
            assert forall|n: Seq<char>| n != namespace@ implies #[trigger] self.namespace(n)
                == old(self).namespace(n) by {
                lemma_update_keeps(before, i as int, (namespace@, nm), n);
                if has_name(before, n) {
                    assert(index_of(before, n) != i);
                }
            }
            lemma_index_of(self.store(), i as int);
        }
        Ok(id)
    }

    /// Adds a column named `column` of type `column_type` to the table `table`
    /// of the namespace `namespace` and returns its identifier; where the table
    /// has that column with that type already, returns its identifier and
    /// changes nothing.
    pub fn create_column(
        &mut self,
        namespace: &str,
        table: &str,
        column: &str,
        column_type: ColumnType,
    ) -> (r: Result<i64, CatalogError>)
        requires
            old(self).wf(),
        ensures
            final(self).wf(),
            old(self).namespace(namespace@) is None ==> (r matches Err(
                CatalogError::NamespaceNotFound { name },
            ) && name@ == namespace@),
            old(self).namespace(namespace@) matches Some(m) ==> {
                if !has_name(m.tables, table@) {
                    r matches Err(CatalogError::TableNotFound { name }) && name@ == table@
                } else if m.has_column(table@, column@) {
                    if m.column(table@, column@).code == column_type_code(column_type) {
                        r == Ok::<i64, CatalogError>(m.column(table@, column@).id) && *final(self)
                            == *old(self)
                    } else {
                        r matches Err(CatalogError::ColumnTypeMismatch { name }) && name@ == column@
                    }
                } else if !old(self).ids_left() {
                    r matches Err(CatalogError::IdsExhausted)
                } else {
                    r == Ok::<i64, CatalogError>(old(self).next_identifier())
                        && final(self).next_identifier() == old(self).next_identifier() + 1
                        && final(self).namespace(namespace@) == Some(
                        m.with_column(
                            table@,
                            column@,
                            ColumnModel { id: r->Ok_0, code: column_type_code(column_type) },
                        ),
                    )
                }
            },
            r is Err ==> *final(self) == *old(self),
            r is Ok ==> forall|n: Seq<char>|
                n != namespace@ ==> #[trigger] final(self).namespace(n) == old(self).namespace(n),
    {
        let i = match find(&self.namespaces, namespace) {
            Some(i) => i,
            None => {
                assert(!has_name(self.store(), namespace@));
                return Err(CatalogError::NamespaceNotFound { name: String::from_str(namespace) });
            },
        };
        proof {
            lemma_index_of(self.store(), i as int);
        }
        let ghost before = self.store();
        let ghost m = before[i as int].1;
        assert(m.wf());
        let k = match find(&self.namespaces[i].1.tables, table) {
            Some(k) => k,
            None => {
                assert(!has_name(m.tables, table@));
                return Err(CatalogError::TableNotFound { name: String::from_str(table) });
            },
        };
        proof {
            lemma_index_of(m.tables, k as int);
        }
        let ghost t = m.tables[k as int].1;
        assert(t.wf());
        match find(&self.namespaces[i].1.tables[k].1.columns, column) {
            Some(j) => {
                proof {
                    lemma_index_of(t.columns, j as int);
                }
                let existing = self.namespaces[i].1.tables[k].1.columns[j].1;
                if existing.column_type == column_type {
                    return Ok(existing.id);
                } else {
                    return Err(CatalogError::ColumnTypeMismatch { name: String::from_str(column) });
                }
            },
            None => {},
        }
        assert(!has_name(t.columns, column@));
        if self.next_id == i64::MAX {
            return Err(CatalogError::IdsExhausted);
        }
        let id = self.take_id();
        self.namespaces[i].1.tables[k].1.columns.push(
            (String::from_str(column), ColumnSchema { id, column_type }),
        );
        proof {
            let cm = ColumnModel { id, code: column_type_code(column_type) };
            let tm = TableModel { id: t.id, columns: t.columns.push((column@, cm)) };
            let nm = m.with_column(table@, column@, cm);
            assert(tm.columns =~= self.store()[i as int].1.tables[k as int].1.columns);
            assert(nm.tables =~= self.store()[i as int].1.tables);
            assert(self.store() =~= before.update(i as int, (namespace@, nm)));
            lemma_push_keeps(t.columns, (column@, cm), column@);
            lemma_update_keeps(m.tables, k as int, (table@, tm), table@);
            assert forall|q: int| 0 <= q < nm.tables.len() implies (#[trigger] nm.tables[q]).1.wf() by {
                if q != k {
                    assert(m.tables[q].1.wf());
                }
            }
            assert(nm.wf());
            lemma_update_keeps(before, i as int, (namespace@, nm), namespace@);
            assert forall|n: Seq<char>| n != namespace@ implies #[trigger] self.namespace(n)
                == old(self).namespace(n) by {
                lemma_update_keeps(before, i as int, (namespace@, nm), n);
                if has_name(before, n) {
                    assert(index_of(before, n) != i);
                }
            }
            lemma_index_of(self.store(), i as int);
        }
        Ok(id)
    }

    /// Soft-deletes the namespace `namespace`: lookups no longer see it, and
    /// its name is free again.
    pub fn soft_delete_namespace(&mut self, namespace: &str) -> (r: Result<(), CatalogError>)
        requires
            old(self).wf(),
        ensures
            final(self).wf(),
            old(self).namespace(namespace@) is None ==> (r matches Err(
                CatalogError::NamespaceNotFound { name },
            ) && name@ == namespace@),
            old(self).namespace(namespace@) is Some ==> r is Ok && final(self).namespace(
                namespace@,
            ) is None,
            r is Err ==> *final(self) == *old(self),
            final(self).next_identifier() == old(self).next_identifier(),
            r is Ok ==> forall|n: Seq<char>|
                n != namespace@ ==> #[trigger] final(self).namespace(n) == old(self).namespace(n),
    {
        let i = match find(&self.namespaces, namespace) {
            Some(i) => i,
            None => {
                assert(!has_name(self.store(), namespace@));
                return Err(CatalogError::NamespaceNotFound { name: String::from_str(namespace) });
            },
        };
        proof {
            lemma_index_of(self.store(), i as int);
        }
        let ghost before = self.store();
        let entry = self.namespaces.remove(i);
        self.deleted_namespaces.push(entry);
        proof {
            assert(self.store() =~= before.remove(i as int));
            lemma_remove_keeps(before, i as int);
            assert forall|q: int| 0 <= q < self.store().len() implies (
            #[trigger] self.store()[q]).1.wf() by {
                if q < i {
                    assert(before[q].1.wf());
                } else {
                    assert(before[q + 1].1.wf());
                }
            }
            assert(!has_name(self.store(), namespace@)) by {
                if has_name(self.store(), namespace@) {
                    let q = choose|q: int| 0 <= q < self.store().len() && #[trigger] self.store()[q].0 == namespace@;
                    let p = if q < i { q } else { q + 1 };
                    assert(before[p].0 == before[i as int].0);
                }
            }
            assert forall|n: Seq<char>| n != namespace@ implies #[trigger] self.namespace(n)
                == old(self).namespace(n) by {
                lemma_remove_lookup(before, i as int, n);
            }
        }
        Ok(())
    }

    /// Soft-deletes the table `table` of the namespace `namespace`: lookups no
    /// longer see it, and its name is free again.
    pub fn soft_delete_table(&mut self, namespace: &str, table: &str) -> (r: Result<(), CatalogError>)
        requires
            old(self).wf(),
        ensures
            final(self).wf(),
            old(self).namespace(namespace@) is None ==> (r matches Err(
                CatalogError::NamespaceNotFound { name },
            ) && name@ == namespace@),
            old(self).namespace(namespace@) matches Some(m) ==> {
                if !has_name(m.tables, table@) {
                    r matches Err(CatalogError::TableNotFound { name }) && name@ == table@
                } else {
                    r is Ok && final(self).namespace(namespace@) == Some(
                        NamespaceModel {
                            id: m.id,
                            tables: m.tables.remove(index_of(m.tables, table@)),
                        },
                    )
                }
            },
            r is Err ==> *final(self) == *old(self),
            final(self).next_identifier() == old(self).next_identifier(),
            r is Ok ==> forall|n: Seq<char>|
                n != namespace@ ==> #[trigger] final(self).namespace(n) == old(self).namespace(n),
    {
        let i = match find(&self.namespaces, namespace) {
            Some(i) => i,
            None => {
                assert(!has_name(self.store(), namespace@));
                return Err(CatalogError::NamespaceNotFound { name: String::from_str(namespace) });
            },
        };
        proof {
            lemma_index_of(self.store(), i as int);
        }
        let ghost before = self.store();
        let ghost m = before[i as int].1;
        assert(m.wf());
        let k = match find(&self.namespaces[i].1.tables, table) {
            Some(k) => k,
            None => {
                assert(!has_name(m.tables, table@));
                return Err(CatalogError::TableNotFound { name: String::from_str(table) });
            },
        };
        proof {
            lemma_index_of(m.tables, k as int);
        }
        let removed = self.namespaces[i].1.tables.remove(k);
        self.deleted_tables.push((String::from_str(namespace), removed));
        proof {
            let nm = NamespaceModel { id: m.id, tables: m.tables.remove(k as int) };
            assert(nm.tables =~= self.store()[i as int].1.tables);
            assert(self.store() =~= before.update(i as int, (namespace@, nm)));
            lemma_remove_keeps(m.tables, k as int);
            assert forall|q: int| 0 <= q < nm.tables.len() implies (#[trigger] nm.tables[q]).1.wf() by {
                if q < k {
                    assert(m.tables[q].1.wf());
                } else {
                    assert(m.tables[q + 1].1.wf());
                }
            }
            assert(nm.wf());
            lemma_update_keeps(before, i as int, (namespace@, nm), namespace@);
            assert forall|n: Seq<char>| n != namespace@ implies #[trigger] self.namespace(n)
                == old(self).namespace(n) by {
                lemma_update_keeps(before, i as int, (namespace@, nm), n);
                if has_name(before, n) {
                    assert(index_of(before, n) != i);
                }
            }
            lemma_index_of(self.store(), i as int);
        }
        Ok(())
    }

    /// The next identifier, which is then used up.
    fn take_id(&mut self) -> (r: i64)
        requires
            old(self).ids_left(),
        ensures
            r == old(self).next_id,
            final(self).next_id == r + 1,
            final(self).namespaces == old(self).namespaces,
            final(self).deleted_tables == old(self).deleted_tables,
            final(self).deleted_namespaces == old(self).deleted_namespaces,
    {
        let id = self.next_id;
        self.next_id = id + 1;
        id
    }
}

impl Catalog for MemCatalog {
    open spec fn schema_of(&self, namespace: Seq<char>) -> Option<NamespaceModel> {
        self.namespace(namespace)
    }

    open spec fn valid(&self) -> bool {
        self.wf()
    }

    fn get_schema_by_name(&self, namespace: &str) -> (r: Result<NamespaceSchema, CatalogError>) {
        self.schema_by_name(namespace)
    }

    fn get_schema_by_namespace_and_table(&self, namespace: &str, table: &str) -> (r: Result<
        NamespaceSchema,
        CatalogError,
    >) {
        self.schema_by_namespace_and_table(namespace, table)
    }
}

} // verus!
