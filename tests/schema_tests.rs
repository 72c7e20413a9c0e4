use ndc_postgres::configuration::{
    single_connection_uri, validate_raw_configuration, Configuration, RawConfiguration,
};
use ndc_postgres::metadata::{
    AggregateFunction, AggregateFunctions, ColumnInfo, ForeignRelation, Metadata,
    NativeQueries, NativeQueryInfo, Nullable, ScalarType, TableInfo, TablesInfo,
    UniquenessConstraint,
};
use ndc_postgres::models::{self, Type};
use ndc_postgres::schema::{column_to_type, get_schema};

fn column(name: &str, t: &str, nullable: Nullable) -> (String, ColumnInfo) {
    (
        name.to_string(),
        ColumnInfo { name: name.to_string(), scalar_type: ScalarType(t.to_string()), nullable },
    )
}

fn named(n: &str) -> Type {
    Type::Named { name: n.to_string() }
}

fn nullable(n: &str) -> Type {
    Type::Nullable { underlying_type: Box::new(named(n)) }
}

fn album() -> TableInfo {
    TableInfo {
        schema_name: "public".to_string(),
        table_name: "Album".to_string(),
        columns: vec![
            column("AlbumId", "int4", Nullable::NonNullable),
            column("Title", "text", Nullable::Nullable),
        ],
        uniqueness_constraints: vec![(
            "PK_Album".to_string(),
            UniquenessConstraint(vec!["AlbumId".to_string()]),
        )],
        foreign_relations: vec![],
    }
}

fn configuration(metadata: Metadata) -> Configuration {
    let mut raw = RawConfiguration::empty();
    raw.connection_uris = single_connection_uri("postgresql://u@h/db".to_string());
    raw.metadata = metadata;
    validate_raw_configuration(raw).ok().expect("valid")
}

fn album_metadata() -> Metadata {
    Metadata {
        tables: TablesInfo(vec![("Album".to_string(), album())]),
        native_queries: NativeQueries(vec![]),
        aggregate_functions: AggregateFunctions(vec![]),
    }
}

#[test]
fn album_object_type_and_collection() {
    let schema = get_schema(&configuration(album_metadata()));
    assert_eq!(schema.object_types.len(), 1);
    assert_eq!(schema.object_types[0].0, "Album");
    assert_eq!(
        schema.object_types[0].1.fields,
        vec![
            ("AlbumId".to_string(), models::ObjectField { field_type: named("int4") }),
            ("Title".to_string(), models::ObjectField { field_type: nullable("text") }),
        ]
    );
    assert_eq!(schema.collections.len(), 1);
    let c = &schema.collections[0];
    assert_eq!(c.name, "Album");
    assert_eq!(c.collection_type, "Album");
    assert!(!c.deletable);
    assert!(c.arguments.is_empty());
    assert!(c.foreign_keys.is_empty());
    assert_eq!(
        c.uniqueness_constraints,
        vec![(
            "PK_Album".to_string(),
            models::UniquenessConstraint { unique_columns: vec!["AlbumId".to_string()] },
        )]
    );
}

#[test]
fn column_types_follow_nullability() {
    assert_eq!(column_to_type(&column("a", "int8", Nullable::NonNullable).1), named("int8"));
    assert_eq!(column_to_type(&column("a", "int8", Nullable::Nullable).1), nullable("int8"));
}

#[test]
fn scalar_types_with_operators() {
    let schema = get_schema(&configuration(album_metadata()));
    let names: Vec<&str> = schema.scalar_types.iter().map(|(n, _)| n.as_str()).collect();
    assert_eq!(names, vec!["int4", "text"]);
    let int4 = &schema.scalar_types[0].1;
    assert!(int4.aggregate_functions.is_empty());
    let ops: Vec<&str> = int4.comparison_operators.iter().map(|(n, _)| n.as_str()).collect();
    assert_eq!(ops, vec!["_eq", "_gt", "_gte", "_lt", "_lte", "_neq"]);
    for (_, op) in &int4.comparison_operators {
        assert_eq!(op.argument_type, named("int4"));
    }
    let text = &schema.scalar_types[1].1;
    assert_eq!(text.comparison_operators.len(), 15);
    let names: Vec<&str> = text.comparison_operators.iter().map(|(n, _)| n.as_str()).collect();
    assert_eq!(
        names,
        vec![
            "_eq", "_gt", "_gte", "_ilike", "_iregex", "_like", "_lt", "_lte", "_neq", "_nilike",
            "_niregex", "_nlike", "_nregex", "_regex", "_starts_with",
        ]
    );
    assert_eq!(text.comparison_operators[5].1.argument_type, named("text"));
}

#[test]
fn unknown_scalar_type_has_only_equality() {
    let mut m = album_metadata();
    m.tables.0[0].1.columns.push(column("Cover", "bytea", Nullable::Nullable));
    let schema = get_schema(&configuration(m));
    let bytea = schema.scalar_types.iter().find(|(n, _)| n == "bytea").expect("bytea");
    assert_eq!(
        bytea.1.comparison_operators,
        vec![(
            "_eq".to_string(),
            models::ComparisonOperatorDefinition { argument_type: named("bytea") },
        )]
    );
}

#[test]
fn range_operator_takes_element_type() {
    let mut m = album_metadata();
    m.tables.0[0].1.columns.push(column("Span", "int4range", Nullable::NonNullable));
    let schema = get_schema(&configuration(m));
    let range = schema.scalar_types.iter().find(|(n, _)| n == "int4range").expect("range");
    let contains =
        range.1.comparison_operators.iter().find(|(n, _)| n == "_contains").expect("contains");
    assert_eq!(contains.1.argument_type, named("int4"));
    let overlaps =
        range.1.comparison_operators.iter().find(|(n, _)| n == "_overlaps").expect("overlaps");
    assert_eq!(overlaps.1.argument_type, named("int4range"));
}

fn full_metadata() -> Metadata {
    let mut artist = album();
    artist.table_name = "Artist".to_string();
    artist.columns = vec![column("ArtistId", "int4", Nullable::NonNullable)];
    artist.uniqueness_constraints = vec![];
    let mut album_with_fk = album();
    album_with_fk.columns.push(column("ArtistId", "int4", Nullable::NonNullable));
    album_with_fk.foreign_relations = vec![(
        "FK_AlbumArtist".to_string(),
        ForeignRelation {
            foreign_table: "Artist".to_string(),
            column_mapping: vec![("ArtistId".to_string(), "ArtistId".to_string())],
        },
    )];
    Metadata {
        tables: TablesInfo(vec![
            ("Album".to_string(), album_with_fk),
            ("Artist".to_string(), artist),
        ]),
        native_queries: NativeQueries(vec![(
            "album_by_title".to_string(),
            NativeQueryInfo {
                sql: "SELECT * FROM \"Album\" WHERE \"Title\" LIKE {{title}}".to_string(),
                columns: vec![
                    column("AlbumId", "int4", Nullable::NonNullable),
                    column("Released", "date", Nullable::Nullable),
                ],
                arguments: vec![column("title", "varchar", Nullable::NonNullable)],
            },
        )]),
        aggregate_functions: AggregateFunctions(vec![
            (
                ScalarType("int4".to_string()),
                vec![
                    ("max".to_string(), AggregateFunction { return_type: ScalarType("int4".to_string()) }),
                    ("avg".to_string(), AggregateFunction { return_type: ScalarType("numeric".to_string()) }),
                ],
            ),
            (
                ScalarType("float8".to_string()),
                vec![("sum".to_string(), AggregateFunction { return_type: ScalarType("float8".to_string()) })],
            ),
        ]),
    }
}

#[test]
fn occurring_types_in_name_order() {
    let schema = get_schema(&configuration(full_metadata()));
    let names: Vec<&str> = schema.scalar_types.iter().map(|(n, _)| n.as_str()).collect();
    assert_eq!(names, vec!["date", "float8", "int4", "text", "varchar"]);
    let int4 = &schema.scalar_types[2].1;
    assert_eq!(
        int4.aggregate_functions,
        vec![
            ("avg".to_string(), models::AggregateFunctionDefinition { result_type: named("numeric") }),
            ("max".to_string(), models::AggregateFunctionDefinition { result_type: named("int4") }),
        ]
    );
}

#[test]
fn foreign_keys_and_native_queries() {
    let schema = get_schema(&configuration(full_metadata()));
    assert_eq!(schema.collections.len(), 3);
    assert_eq!(
        schema.collections[0].foreign_keys,
        vec![(
            "FK_AlbumArtist".to_string(),
            models::ForeignKeyConstraint {
                foreign_collection: "Artist".to_string(),
                column_mapping: vec![("ArtistId".to_string(), "ArtistId".to_string())],
            },
        )]
    );
    assert!(schema.collections[1].uniqueness_constraints.is_empty());
    let q = &schema.collections[2];
    assert_eq!(q.name, "album_by_title");
    assert!(!q.deletable);
    assert_eq!(
        q.arguments,
        vec![("title".to_string(), models::ArgumentInfo { argument_type: named("varchar") })]
    );
    assert!(q.uniqueness_constraints.is_empty());
    assert!(q.foreign_keys.is_empty());
    assert_eq!(schema.object_types.len(), 3);
    assert_eq!(schema.object_types[2].0, "album_by_title");
    assert_eq!(
        schema.object_types[2].1.fields[1],
        ("Released".to_string(), models::ObjectField { field_type: nullable("date") })
    );
}

#[test]
fn derivation_is_deterministic() {
    let c = configuration(full_metadata());
    assert_eq!(get_schema(&c), get_schema(&c));
    let again = configuration(full_metadata());
    assert_eq!(get_schema(&c), get_schema(&again));
}

#[test]
fn scalar_type_names_sort_by_character() {
    let mut m = album_metadata();
    m.tables.0[0].1.columns = vec![
        column("a", "timestamptz", Nullable::NonNullable),
        column("b", "Text", Nullable::NonNullable),
        column("c", "time", Nullable::NonNullable),
        column("d", "timestamp", Nullable::NonNullable),
        column("e", "time", Nullable::Nullable),
        column("f", "é", Nullable::NonNullable),
        column("g", "z", Nullable::NonNullable),
    ];
    let schema = get_schema(&configuration(m));
    let names: Vec<&str> = schema.scalar_types.iter().map(|(n, _)| n.as_str()).collect();
    assert_eq!(names, vec!["Text", "time", "timestamp", "timestamptz", "z", "é"]);
}

#[test]
fn object_types_in_name_order_with_query_replacing_table() {
    let mut zeta = album();
    zeta.table_name = "Zeta".to_string();
    let m = Metadata {
        tables: TablesInfo(vec![("Zeta".to_string(), zeta), ("Album".to_string(), album())]),
        native_queries: NativeQueries(vec![(
            "Album".to_string(),
            NativeQueryInfo {
                sql: "SELECT 1 AS one".to_string(),
                columns: vec![column("one", "int4", Nullable::Nullable)],
                arguments: vec![],
            },
        )]),
        aggregate_functions: AggregateFunctions(vec![]),
    };
    let schema = get_schema(&configuration(m));
    let names: Vec<&str> = schema.object_types.iter().map(|(n, _)| n.as_str()).collect();
    assert_eq!(names, vec!["Album", "Zeta"]);
    assert_eq!(
        schema.object_types[0].1.fields,
        vec![("one".to_string(), models::ObjectField { field_type: nullable("int4") })]
    );
    assert_eq!(schema.object_types[1].1.fields.len(), 2);
    let collections: Vec<&str> = schema.collections.iter().map(|c| c.name.as_str()).collect();
    assert_eq!(collections, vec!["Album", "Zeta", "Album"]);
}

#[test]
fn nested_maps_are_key_ordered() {
    let mut t = album();
    t.columns = vec![
        column("b", "int4", Nullable::NonNullable),
        column("a", "text", Nullable::Nullable),
        column("c", "int4", Nullable::NonNullable),
    ];
    t.uniqueness_constraints = vec![
        ("uq_z".to_string(), UniquenessConstraint(vec!["c".to_string(), "a".to_string()])),
        ("uq_a".to_string(), UniquenessConstraint(vec!["b".to_string()])),
    ];
    t.foreign_relations = vec![(
        "fk".to_string(),
        ForeignRelation {
            foreign_table: "Other".to_string(),
            column_mapping: vec![
                ("c".to_string(), "x".to_string()),
                ("a".to_string(), "y".to_string()),
            ],
        },
    )];
    let q = NativeQueryInfo {
        sql: "SELECT 1".to_string(),
        columns: vec![],
        arguments: vec![
            column("z", "int4", Nullable::NonNullable),
            column("m", "text", Nullable::NonNullable),
        ],
    };
    let m = Metadata {
        tables: TablesInfo(vec![("T".to_string(), t)]),
        native_queries: NativeQueries(vec![("q".to_string(), q)]),
        aggregate_functions: AggregateFunctions(vec![]),
    };
    let schema = get_schema(&configuration(m));
    let fields: Vec<&str> =
        schema.object_types[0].1.fields.iter().map(|(n, _)| n.as_str()).collect();
    assert_eq!(fields, vec!["a", "b", "c"]);
    let c = &schema.collections[0];
    let constraints: Vec<&str> = c.uniqueness_constraints.iter().map(|(n, _)| n.as_str()).collect();
    assert_eq!(constraints, vec!["uq_a", "uq_z"]);
    assert_eq!(c.uniqueness_constraints[1].1.unique_columns, vec!["a".to_string(), "c".to_string()]);
    assert_eq!(
        c.foreign_keys[0].1.column_mapping,
        vec![("a".to_string(), "y".to_string()), ("c".to_string(), "x".to_string())]
    );
    let arguments: Vec<&str> =
        schema.collections[1].arguments.iter().map(|(n, _)| n.as_str()).collect();
    assert_eq!(arguments, vec!["m", "z"]);
}

#[test]
fn later_entry_of_a_name_wins() {
    let mut t = album();
    t.columns = vec![
        column("a", "int4", Nullable::NonNullable),
        column("a", "text", Nullable::Nullable),
    ];
    let mut u = album();
    u.columns = vec![column("x", "int4", Nullable::NonNullable)];
    let m = Metadata {
        tables: TablesInfo(vec![("T".to_string(), t), ("T".to_string(), u)]),
        native_queries: NativeQueries(vec![]),
        aggregate_functions: AggregateFunctions(vec![]),
    };
    let schema = get_schema(&configuration(m));
    assert_eq!(schema.collections.len(), 1);
    assert_eq!(schema.object_types.len(), 1);
    assert_eq!(
        schema.object_types[0].1.fields,
        vec![("x".to_string(), models::ObjectField { field_type: named("int4") })]
    );
}

#[test]
fn empty_metadata_gives_empty_schema() {
    let schema = get_schema(&configuration(Metadata::empty()));
    assert!(schema.scalar_types.is_empty());
    assert!(schema.collections.is_empty());
    assert!(schema.object_types.is_empty());
}
