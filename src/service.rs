//! The schema lookup handler.

use std::sync::Arc;
use vstd::prelude::*;
use crate::catalog::{lookup_view, Catalog, CatalogError};
use crate::proto::{schema_to_proto, NamespaceSchema};
use crate::schema::{self, has_name, NamespaceModel};

verus! {

/// A lookup request: a namespace, and optionally one table in it.
#[derive(Debug, Clone, PartialEq, Eq)]
pub struct GetSchemaRequest {
    pub namespace: String,
    pub table: Option<String>,
}

/// A lookup response: the schema found.
#[derive(Debug, Clone, PartialEq, Eq)]
pub struct GetSchemaResponse {
    pub schema: Option<NamespaceSchema>,
}

/// The one kind of failure the lookup reports to its caller.
#[derive(Debug, Clone, PartialEq, Eq)]
pub enum SchemaError {
    /// The schema could not be found; the text says why.
    NotFound(String),
}

impl SchemaError {
    /// The text carried by this failure.
    pub open spec fn text(&self) -> Seq<char> {
        match self {
            SchemaError::NotFound(m) => m@,
        }
    }

    /// The text carried by this failure.
    pub fn message(&self) -> (r: &str)
        ensures
            r@ == self.text(),
    {
        match self {
            SchemaError::NotFound(m) => m.as_str(),
        }
    }
}

/// What a response says: the schema it carries, or the text of its failure.
pub open spec fn outcome(r: Result<GetSchemaResponse, SchemaError>) -> Result<NamespaceModel, Seq<char>> {
    match r {
        Ok(resp) => Ok(resp.schema->Some_0@),
        Err(e) => Err(e.text()),
    }
}

/// `r` is an answer that a lookup may give where the catalog holds `found`
/// under the requested name and `table` is the requested table: on success
/// the whole namespace, or the namespace cut down to that table; a failure
/// wherever the namespace or the table is missing.
pub open spec fn serves(
    found: Option<NamespaceModel>,
    table: Option<Seq<char>>,
    r: Result<GetSchemaResponse, SchemaError>,
) -> bool {
    &&& r is Ok ==> r->Ok_0.schema is Some && found is Some && match table {
        None => outcome(r) == Ok::<NamespaceModel, Seq<char>>(found->Some_0),
        Some(t) => has_name(found->Some_0.tables, t) && outcome(r) == Ok::<
            NamespaceModel,
            Seq<char>,
        >(found->Some_0.only_table(t)),
    }
    &&& found is None ==> r is Err
    &&& (table matches Some(t) && found is Some && !has_name(found->Some_0.tables, t)) ==> r is Err
}

/// The table named in a request, if any.
pub open spec fn requested_table(request: GetSchemaRequest) -> Option<Seq<char>> {
    match request.table {
        Some(t) => Some(t@),
        None => None,
    }
}

/// Turns the outcome of a catalog lookup into the answer to the request: a
/// schema is sent in its wire form, and every catalog error becomes a
/// not-found failure carrying the error's text.
pub fn respond(result: Result<schema::NamespaceSchema, CatalogError>) -> (r: Result<
    GetSchemaResponse,
    SchemaError,
>)
    ensures
        outcome(r) == lookup_view(result),
        r is Ok ==> r->Ok_0.schema is Some,
{
    match result {
        Ok(s) => Ok(GetSchemaResponse { schema: Some(schema_to_proto(&s)) }),
        Err(e) => Err(SchemaError::NotFound(e.to_text())),
    }
}

/// Repeated requests against an unchanged catalog that succeed give the same
/// answer: the same ids, names and type codes in the same order.
pub proof fn repeated_requests_agree(
    found: Option<NamespaceModel>,
    table: Option<Seq<char>>,
    r1: Result<GetSchemaResponse, SchemaError>,
    r2: Result<GetSchemaResponse, SchemaError>,
)
    requires
        serves(found, table, r1),
        serves(found, table, r2),
        r1 is Ok,
        r2 is Ok,
    ensures
        outcome(r1) == outcome(r2),
        r1->Ok_0.schema->Some_0@ == r2->Ok_0.schema->Some_0@,
{
}

/// The schema lookup service over a shared catalog.
#[derive(Debug)]
pub struct SchemaService<C: Catalog> {
    catalog: Arc<C>,
}

impl<C: Catalog> SchemaService<C> {
    #[verifier::type_invariant]
    spec fn inv(&self) -> bool {
        self.catalog.valid()
    }

    /// The catalog this service reads.
    pub closed spec fn catalog(&self) -> C {
        *self.catalog
    }

    pub fn new(catalog: Arc<C>) -> (r: Self)
        requires
            catalog.valid(),
        ensures
            r.catalog() == *catalog,
    {
        SchemaService { catalog }
    }

    /// Looks up the schema of `request.namespace`: the whole namespace when
    /// `request.table` is `None`, else the namespace cut down to that table.
    /// Every failure of the catalog is reported as `NotFound`.
    pub fn get_schema(&self, request: GetSchemaRequest) -> (r: Result<GetSchemaResponse, SchemaError>)
        ensures
            serves(self.catalog().schema_of(request.namespace@), requested_table(request), r),
            r is Ok ==> r->Ok_0.schema->Some_0@.wf(),
    {
        proof {
            use_type_invariant(self);
        }
        let catalog: &C = &self.catalog;
        let result = match &request.table {
            Some(table) => catalog.get_schema_by_namespace_and_table(
                request.namespace.as_str(),
                table.as_str(),
            ),
            None => catalog.get_schema_by_name(request.namespace.as_str()),
        };
        respond(result)
    }
}

} // verus!
