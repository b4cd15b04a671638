use std::sync::Arc;

use service_grpc_schema::catalog::CatalogError;
use service_grpc_schema::mem::MemCatalog;
use service_grpc_schema::proto::{schema_to_proto, NamespaceSchema as WireSchema, TableSchema as WireTable};
use service_grpc_schema::schema::{ColumnSchema, ColumnType, NamespaceSchema, TableSchema};
use service_grpc_schema::service::{respond, GetSchemaRequest, SchemaError, SchemaService};

fn sorted_table_names(schema: &WireSchema) -> Vec<String> {
    let mut names: Vec<String> = schema.tables.iter().map(|(n, _)| n.clone()).collect();
    names.sort();
    names
}

fn table<'a>(schema: &'a WireSchema, name: &str) -> Option<&'a WireTable> {
    schema.tables.iter().find(|(n, _)| n == name).map(|(_, t)| t)
}

fn column_names(t: &WireTable) -> Vec<String> {
    t.columns.iter().map(|(n, _)| n.clone()).collect()
}

fn request(namespace: &str, table: Option<&str>) -> GetSchemaRequest {
    GetSchemaRequest { namespace: namespace.to_string(), table: table.map(|t| t.to_string()) }
}

fn two_table_catalog(ns: &str, t1: &str, c1: &str, t2: &str, c2: &str) -> MemCatalog {
    let mut catalog = MemCatalog::new();
    catalog.create_namespace(ns).unwrap();
    catalog.create_table(ns, t1).unwrap();
    catalog.create_column(ns, t1, c1, ColumnType::Tag).unwrap();
    catalog.create_table(ns, t2).unwrap();
    catalog.create_column(ns, t2, c2, ColumnType::Tag).unwrap();
    catalog
}

#[test]
fn get_schema() {
    let namespace = "namespace_schema_test";
    let table_name = "schema_test_table";
    let column = "schema_test_column";
    let another_table = "another_schema_test_table";
    let another_column = "another_schema_test_column";

    let catalog = two_table_catalog(namespace, table_name, column, another_table, another_column);
    let grpc = SchemaService::new(Arc::new(catalog));

    // all tables of the namespace
    let response = grpc.get_schema(request(namespace, None)).unwrap();
    let schema = response.schema.unwrap();
    assert_eq!(sorted_table_names(&schema), [another_table, table_name]);
    assert_eq!(column_names(table(&schema, table_name).unwrap()), [column]);

    // one table of the namespace
    let response = grpc.get_schema(request(namespace, Some(table_name))).unwrap();
    let schema = response.schema.unwrap();
    assert_eq!(sorted_table_names(&schema), [table_name]);
    assert_eq!(column_names(table(&schema, "schema_test_table").unwrap()), [column]);

    // a table that does not exist
    let status = grpc.get_schema(request(namespace, Some("does_not_exist"))).unwrap_err();
    assert!(matches!(status, SchemaError::NotFound(_)));
    assert_eq!(status.message(), "table does_not_exist not found");
}

#[test]
fn scenario_two_tables_one_column_each() {
    let grpc = SchemaService::new(Arc::new(two_table_catalog("ns1", "t1", "c1", "t2", "c2")));

    let schema = grpc.get_schema(request("ns1", None)).unwrap().schema.unwrap();
    assert_eq!(sorted_table_names(&schema), ["t1", "t2"]);
    let t1 = table(&schema, "t1").unwrap();
    let t2 = table(&schema, "t2").unwrap();
    assert_eq!(column_names(t1), ["c1"]);
    assert_eq!(column_names(t2), ["c2"]);
    assert_eq!(t1.columns[0].1.column_type, 7);
    assert_eq!(t2.columns[0].1.column_type, 7);

    let schema = grpc.get_schema(request("ns1", Some("t1"))).unwrap().schema.unwrap();
    assert_eq!(sorted_table_names(&schema), ["t1"]);
    assert_eq!(column_names(table(&schema, "t1").unwrap()), ["c1"]);

    let err = grpc.get_schema(request("ns1", Some("missing"))).unwrap_err();
    assert_eq!(err, SchemaError::NotFound("table missing not found".to_string()));
}

#[test]
fn all_tables_with_ids_of_the_catalog() {
    let mut catalog = MemCatalog::new();
    let ns_id = catalog.create_namespace("ns").unwrap();
    let a = catalog.create_table("ns", "a").unwrap();
    let b = catalog.create_table("ns", "b").unwrap();
    let c = catalog.create_table("ns", "c").unwrap();
    let x = catalog.create_column("ns", "a", "x", ColumnType::I64).unwrap();
    let y = catalog.create_column("ns", "a", "y", ColumnType::Time).unwrap();
    let grpc = SchemaService::new(Arc::new(catalog));

    let schema = grpc.get_schema(request("ns", None)).unwrap().schema.unwrap();
    assert_eq!(schema.id, ns_id);
    assert_eq!(schema.tables.len(), 3);
    assert_eq!(table(&schema, "a").unwrap().id, a);
    assert_eq!(table(&schema, "b").unwrap().id, b);
    assert_eq!(table(&schema, "c").unwrap().id, c);
    let ta = table(&schema, "a").unwrap();
    assert_eq!(column_names(ta), ["x", "y"]);
    assert_eq!(ta.columns[0].1.id, x);
    assert_eq!(ta.columns[0].1.column_type, 1);
    assert_eq!(ta.columns[1].1.id, y);
    assert_eq!(ta.columns[1].1.column_type, 6);
    assert!(table(&schema, "b").unwrap().columns.is_empty());
}

#[test]
fn one_table_keeps_id_and_columns() {
    let mut catalog = MemCatalog::new();
    let ns_id = catalog.create_namespace("ns").unwrap();
    catalog.create_table("ns", "a").unwrap();
    let b = catalog.create_table("ns", "b").unwrap();
    let col = catalog.create_column("ns", "b", "v", ColumnType::String).unwrap();
    let grpc = SchemaService::new(Arc::new(catalog));

    let schema = grpc.get_schema(request("ns", Some("b"))).unwrap().schema.unwrap();
    assert_eq!(schema.id, ns_id);
    assert_eq!(schema.tables.len(), 1);
    assert_eq!(schema.tables[0].0, "b");
    assert_eq!(schema.tables[0].1.id, b);
    assert_eq!(schema.tables[0].1.columns.len(), 1);
    assert_eq!(schema.tables[0].1.columns[0].0, "v");
    assert_eq!(schema.tables[0].1.columns[0].1.id, col);
    assert_eq!(schema.tables[0].1.columns[0].1.column_type, 5);
}

#[test]
fn empty_namespace_has_no_tables() {
    let mut catalog = MemCatalog::new();
    catalog.create_namespace("empty").unwrap();
    let grpc = SchemaService::new(Arc::new(catalog));
    let schema = grpc.get_schema(request("empty", None)).unwrap().schema.unwrap();
    assert!(schema.tables.is_empty());
}

#[test]
fn unknown_namespace_is_not_found_with_or_without_table() {
    let grpc = SchemaService::new(Arc::new(two_table_catalog("ns1", "t1", "c1", "t2", "c2")));
    let err = grpc.get_schema(request("nope", None)).unwrap_err();
    assert_eq!(err.message(), "namespace nope not found");
    let err = grpc.get_schema(request("nope", Some("t1"))).unwrap_err();
    assert!(matches!(err, SchemaError::NotFound(_)));
    assert_eq!(err.message(), "namespace nope not found");
}

#[test]
fn repeated_requests_give_identical_answers() {
    let grpc = SchemaService::new(Arc::new(two_table_catalog("ns1", "t1", "c1", "t2", "c2")));
    for table in [None, Some("t2"), Some("missing")] {
        let first = grpc.get_schema(request("ns1", table));
        let second = grpc.get_schema(request("ns1", table));
        assert_eq!(first, second);
    }
}

fn sample_schema() -> NamespaceSchema {
    let kinds = [
        ColumnType::I64,
        ColumnType::U64,
        ColumnType::F64,
        ColumnType::Bool,
        ColumnType::String,
        ColumnType::Time,
        ColumnType::Tag,
    ];
    let columns: Vec<(String, ColumnSchema)> = kinds
        .iter()
        .enumerate()
        .map(|(i, k)| (format!("col{i}"), ColumnSchema { id: 100 + i as i64, column_type: *k }))
        .collect();
    NamespaceSchema {
        id: 42,
        tables: vec![
            ("wide".to_string(), TableSchema { id: 7, columns }),
            ("bare".to_string(), TableSchema { id: 8, columns: Vec::new() }),
        ],
    }
}

#[test]
fn conversion_keeps_ids_names_and_codes() {
    let source = sample_schema();
    let wire = schema_to_proto(&source);
    assert_eq!(wire.id, 42);
    assert_eq!(wire.tables.len(), 2);
    assert_eq!(wire.tables[0].0, "wide");
    assert_eq!(wire.tables[0].1.id, 7);
    assert_eq!(wire.tables[1].0, "bare");
    assert_eq!(wire.tables[1].1.id, 8);
    assert!(wire.tables[1].1.columns.is_empty());
    let codes: Vec<i32> = wire.tables[0].1.columns.iter().map(|(_, c)| c.column_type).collect();
    assert_eq!(codes, [1, 2, 3, 4, 5, 6, 7]);
    for (i, (name, c)) in wire.tables[0].1.columns.iter().enumerate() {
        assert_eq!(name, &format!("col{i}"));
        assert_eq!(c.id, 100 + i as i64);
    }
}

#[test]
fn conversion_of_empty_namespace() {
    let wire = schema_to_proto(&NamespaceSchema { id: -3, tables: Vec::new() });
    assert_eq!(wire.id, -3);
    assert!(wire.tables.is_empty());
}

#[test]
fn column_type_codes() {
    assert_eq!(ColumnType::I64.as_i32(), 1);
    assert_eq!(ColumnType::U64.as_i32(), 2);
    assert_eq!(ColumnType::F64.as_i32(), 3);
    assert_eq!(ColumnType::Bool.as_i32(), 4);
    assert_eq!(ColumnType::String.as_i32(), 5);
    assert_eq!(ColumnType::Time.as_i32(), 6);
    assert_eq!(ColumnType::Tag.as_i32(), 7);
}

#[test]
fn respond_sends_schema_or_not_found() {
    let response = respond(Ok(sample_schema())).unwrap();
    assert_eq!(response.schema, Some(schema_to_proto(&sample_schema())));

    let err = respond(Err(CatalogError::TableNotFound { name: "t".to_string() })).unwrap_err();
    assert_eq!(err, SchemaError::NotFound("table t not found".to_string()));
    let err = respond(Err(CatalogError::IdsExhausted)).unwrap_err();
    assert_eq!(err.message(), "no identifiers left");
}

#[test]
fn catalog_error_texts() {
    let n = || "x".to_string();
    assert_eq!(CatalogError::NamespaceNotFound { name: n() }.to_text(), "namespace x not found");
    assert_eq!(CatalogError::TableNotFound { name: n() }.to_text(), "table x not found");
    assert_eq!(CatalogError::AlreadyExists { name: n() }.to_text(), "name x already exists");
    assert_eq!(
        CatalogError::ColumnTypeMismatch { name: n() }.to_text(),
        "column x exists with another type"
    );
    assert_eq!(CatalogError::IdsExhausted.to_text(), "no identifiers left");
}

#[test]
fn catalog_creation_errors() {
    let mut catalog = MemCatalog::new();
    let id = catalog.create_namespace("ns").unwrap();
    assert_eq!(
        catalog.create_namespace("ns"),
        Err(CatalogError::AlreadyExists { name: "ns".to_string() })
    );
    assert_eq!(
        catalog.create_table("other", "t"),
        Err(CatalogError::NamespaceNotFound { name: "other".to_string() })
    );
    let t = catalog.create_table("ns", "t").unwrap();
    assert!(t > id);
    assert_eq!(
        catalog.create_table("ns", "t"),
        Err(CatalogError::AlreadyExists { name: "t".to_string() })
    );
    assert_eq!(
        catalog.create_column("ns", "u", "c", ColumnType::Tag),
        Err(CatalogError::TableNotFound { name: "u".to_string() })
    );
    assert_eq!(
        catalog.create_column("other", "t", "c", ColumnType::Tag),
        Err(CatalogError::NamespaceNotFound { name: "other".to_string() })
    );
    let c = catalog.create_column("ns", "t", "c", ColumnType::Tag).unwrap();
    assert_eq!(catalog.create_column("ns", "t", "c", ColumnType::Tag), Ok(c));
    assert_eq!(
        catalog.create_column("ns", "t", "c", ColumnType::Bool),
        Err(CatalogError::ColumnTypeMismatch { name: "c".to_string() })
    );
}

#[test]
fn direct_catalog_lookups() {
    let catalog = two_table_catalog("ns1", "t1", "c1", "t2", "c2");
    let all = catalog.schema_by_name("ns1").unwrap();
    assert_eq!(all.tables.len(), 2);
    let one = catalog.schema_by_namespace_and_table("ns1", "t2").unwrap();
    assert_eq!(one.id, all.id);
    assert_eq!(one.tables.len(), 1);
    assert_eq!(one.tables[0], all.tables[1]);
    assert_eq!(
        catalog.schema_by_name("zz"),
        Err(CatalogError::NamespaceNotFound { name: "zz".to_string() })
    );
    assert_eq!(
        catalog.schema_by_namespace_and_table("zz", "t1"),
        Err(CatalogError::NamespaceNotFound { name: "zz".to_string() })
    );
    assert_eq!(
        catalog.schema_by_namespace_and_table("ns1", "t3"),
        Err(CatalogError::TableNotFound { name: "t3".to_string() })
    );
}

#[test]
fn soft_deleted_table_is_not_found() {
    let mut catalog = two_table_catalog("ns1", "t1", "c1", "t2", "c2");
    catalog.soft_delete_table("ns1", "t1").unwrap();
    assert_eq!(
        catalog.soft_delete_table("ns1", "t1"),
        Err(CatalogError::TableNotFound { name: "t1".to_string() })
    );
    assert_eq!(
        catalog.soft_delete_table("nope", "t1"),
        Err(CatalogError::NamespaceNotFound { name: "nope".to_string() })
    );
    let grpc = SchemaService::new(Arc::new(catalog));
    let schema = grpc.get_schema(request("ns1", None)).unwrap().schema.unwrap();
    assert_eq!(sorted_table_names(&schema), ["t2"]);
    let err = grpc.get_schema(request("ns1", Some("t1"))).unwrap_err();
    assert_eq!(err.message(), "table t1 not found");
}

#[test]
fn soft_deleted_namespace_is_not_found() {
    let mut catalog = two_table_catalog("ns1", "t1", "c1", "t2", "c2");
    catalog.create_namespace("ns2").unwrap();
    catalog.soft_delete_namespace("ns1").unwrap();
    assert_eq!(
        catalog.soft_delete_namespace("ns1"),
        Err(CatalogError::NamespaceNotFound { name: "ns1".to_string() })
    );
    let grpc = SchemaService::new(Arc::new(catalog));
    assert_eq!(grpc.get_schema(request("ns1", None)).unwrap_err().message(), "namespace ns1 not found");
    assert_eq!(grpc.get_schema(request("ns1", Some("t1"))).unwrap_err().message(), "namespace ns1 not found");
    assert!(grpc.get_schema(request("ns2", None)).unwrap().schema.unwrap().tables.is_empty());
}

#[test]
fn names_are_free_again_after_soft_delete() {
    let mut catalog = MemCatalog::new();
    let first = catalog.create_namespace("ns").unwrap();
    let t = catalog.create_table("ns", "t").unwrap();
    catalog.soft_delete_table("ns", "t").unwrap();
    let t_again = catalog.create_table("ns", "t").unwrap();
    assert_ne!(t, t_again);
    catalog.soft_delete_namespace("ns").unwrap();
    let second = catalog.create_namespace("ns").unwrap();
    assert_ne!(first, second);
    assert!(catalog.schema_by_name("ns").unwrap().tables.is_empty());
}
