//! What the lookup needs from a catalog, and the errors a catalog reports.

use vstd::prelude::*;
use vstd::string::*;
use crate::schema::{has_name, NamespaceModel, NamespaceSchema};

verus! {

/// An error reported by a catalog.
#[derive(Debug, Clone, PartialEq, Eq)]
pub enum CatalogError {
    /// No live namespace has this name.
    NamespaceNotFound { name: String },
    /// The namespace holds no live table of this name.
    TableNotFound { name: String },
    /// An entity of this name exists already where a new one was to be made.
    AlreadyExists { name: String },
    /// A column of this name exists with another type.
    ColumnTypeMismatch { name: String },
    /// Every identifier has been handed out.
    IdsExhausted,
}

pub open spec fn namespace_not_found_text(name: Seq<char>) -> Seq<char> {
    "namespace "@ + name + " not found"@
}

pub open spec fn table_not_found_text(name: Seq<char>) -> Seq<char> {
    "table "@ + name + " not found"@
}

pub open spec fn already_exists_text(name: Seq<char>) -> Seq<char> {
    "name "@ + name + " already exists"@
}

pub open spec fn type_mismatch_text(name: Seq<char>) -> Seq<char> {
    "column "@ + name + " exists with another type"@
}

pub open spec fn ids_exhausted_text() -> Seq<char> {
    "no identifiers left"@
}

/// `prefix`, then `name`, then `suffix`, as one string.
fn around(prefix: &str, name: &String, suffix: &str) -> (r: String)
    ensures
        r@ == prefix@ + name@ + suffix@,
{
    let mut r = String::from_str(prefix);
    r.append(name.as_str());
    r.append(suffix);
    r
}

impl CatalogError {
    /// The text that describes this error.
    pub open spec fn text(&self) -> Seq<char> {
        match self {
            CatalogError::NamespaceNotFound { name } => namespace_not_found_text(name@),
            CatalogError::TableNotFound { name } => table_not_found_text(name@),
            CatalogError::AlreadyExists { name } => already_exists_text(name@),
            CatalogError::ColumnTypeMismatch { name } => type_mismatch_text(name@),
            CatalogError::IdsExhausted => ids_exhausted_text(),
        }
    }

    /// The text that describes this error.
    pub fn to_text(&self) -> (r: String)
        ensures
            r@ == self.text(),
    {
        match self {
            CatalogError::NamespaceNotFound { name } => around("namespace ", name, " not found"),
            CatalogError::TableNotFound { name } => around("table ", name, " not found"),
            CatalogError::AlreadyExists { name } => around("name ", name, " already exists"),
            CatalogError::ColumnTypeMismatch { name } => around(
                "column ",
                name,
                " exists with another type",
            ),
            CatalogError::IdsExhausted => String::from_str("no identifiers left"),
        }
    }
}

/// What a catalog lookup says: the schema it found, or the text of its error.
pub open spec fn lookup_view(result: Result<NamespaceSchema, CatalogError>) -> Result<NamespaceModel, Seq<char>> {
    match result {
        Ok(s) => Ok(s@),
        Err(e) => Err(e.text()),
    }
}

/// What a lookup of `namespace`, narrowed to `table` where one is given,
/// reports where the catalog holds `found` under that name and nothing goes
/// wrong on the way.
pub open spec fn expected_lookup(
    found: Option<NamespaceModel>,
    namespace: Seq<char>,
    table: Option<Seq<char>>,
) -> Result<NamespaceModel, Seq<char>> {
    match found {
        None => Err(namespace_not_found_text(namespace)),
        Some(m) => match table {
            None => Ok(m),
            Some(t) => if has_name(m.tables, t) {
                Ok(m.only_table(t))
            } else {
                Err(table_not_found_text(t))
            },
        },
    }
}

/// A store of namespaces that can hand out the live schema of one of them.
///
/// A lookup may fail for reasons of its own (a store out of reach), so no
/// lookup is promised to succeed; what it returns on success is fixed, and a
/// name that is not there always fails.
pub trait Catalog {
    /// The live schema of the namespace named `namespace`, soft-deleted tables
    /// and columns left out; `None` where no live namespace has that name.
    spec fn schema_of(&self, namespace: Seq<char>) -> Option<NamespaceModel>;

    /// The catalog's own consistency, which its lookups rely on.
    spec fn valid(&self) -> bool;

    /// The schema of a namespace with all its live tables.
    fn get_schema_by_name(&self, namespace: &str) -> (r: Result<NamespaceSchema, CatalogError>)
        requires
            self.valid(),
        ensures
            r is Ok ==> self.schema_of(namespace@) == Some(r->Ok_0@) && r->Ok_0@.wf(),
            self.schema_of(namespace@) is None ==> r is Err,
    ;

    /// The schema of a namespace cut down to one live table.
    fn get_schema_by_namespace_and_table(&self, namespace: &str, table: &str) -> (r: Result<
        NamespaceSchema,
        CatalogError,
    >)
        requires
            self.valid(),
        ensures
            r is Ok ==> self.schema_of(namespace@) is Some && has_name(
                self.schema_of(namespace@)->Some_0.tables,
                table@,
            ) && r->Ok_0@ == self.schema_of(namespace@)->Some_0.only_table(table@)
                && r->Ok_0@.wf(),
            self.schema_of(namespace@) is None ==> r is Err,
            self.schema_of(namespace@) is Some && !has_name(
                self.schema_of(namespace@)->Some_0.tables,
                table@,
            ) ==> r is Err,
    ;
}

} // verus!
