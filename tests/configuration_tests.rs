use ndc_postgres::configuration::{
    configure, connection_lifetime_default, decimal_string, default_excluded_schemas,
    idle_timeout_default, max_connection_default, pool_timeout_default, select_connection_uri,
    select_first_connection_uri, single_connection_uri, validate_raw_configuration,
    ConnectionUri, ConnectionUris, KeyOrIndex, PoolSettings, RawConfiguration, ResolvedSecret,
    ResolvedSecretIntermediate, SingleOrList, ValidateError, CURRENT_VERSION,
};
use ndc_postgres::metadata::{
    AggregateFunction, AggregateFunctions, ColumnInfo, Metadata, NativeQueries,
    NativeQueryInfo, Nullable, ScalarType, TableInfo, TablesInfo,
};

fn uri(s: &str) -> ConnectionUri {
    ConnectionUri(ResolvedSecret(s.to_string()))
}

fn raw(version: u32, uris: ConnectionUris) -> RawConfiguration {
    let mut c = RawConfiguration::empty();
    c.version = version;
    c.connection_uris = uris;
    c
}

fn errors_of(r: Result<ndc_postgres::configuration::Configuration, ValidateError>) -> ValidateError {
    match r {
        Ok(_) => panic!("expected a validation error"),
        Err(e) => e,
    }
}

#[test]
fn valid_configuration_passes() {
    let c = raw(1, single_connection_uri("postgresql://u@h/db".to_string()));
    let validated = validate_raw_configuration(c).ok().expect("valid");
    assert_eq!(validated.config.version, 1);
    assert_eq!(select_connection_uri(&validated.config.connection_uris), "postgresql://u@h/db");
}

#[test]
fn validation_keeps_a_single_endpoint_single() {
    let c = raw(1, single_connection_uri("postgresql://u@h/db".to_string()));
    let validated = validate_raw_configuration(c).ok().expect("valid");
    assert_eq!(
        validated.config.connection_uris.0,
        SingleOrList::Single(uri("postgresql://u@h/db"))
    );
    assert!(validated.config.pool_settings.is_default());
    assert_eq!(validated.config.excluded_schemas, default_excluded_schemas());
}

#[test]
fn single_connection_uri_is_single() {
    assert_eq!(
        single_connection_uri("postgresql://a".to_string()),
        ConnectionUris(SingleOrList::Single(uri("postgresql://a")))
    );
}

#[test]
fn configure_on_its_own_output_is_a_fixed_point() {
    let once = configure(minimal_input(), discovered_tables(), discovered_aggregates());
    let again = configure(
        once.clone(),
        once.metadata.tables.clone(),
        once.metadata.aggregate_functions.clone(),
    );
    assert_eq!(again, once);
}

#[test]
fn wrong_version_is_reported() {
    let c = raw(2, single_connection_uri("postgresql://u@h/db".to_string()));
    let e = errors_of(validate_raw_configuration(c));
    assert_eq!(e.errors.len(), 1);
    assert_eq!(e.errors[0].path, vec![KeyOrIndex::Key("version".to_string())]);
    assert_eq!(e.errors[0].message, "invalid configuration version, expected 1, got 2");
}

#[test]
fn empty_connection_uris_are_reported() {
    let c = raw(1, ConnectionUris(SingleOrList::List(vec![])));
    let e = errors_of(validate_raw_configuration(c));
    assert_eq!(e.errors.len(), 1);
    assert_eq!(e.errors[0].path, vec![KeyOrIndex::Key("connection_uris".to_string())]);
    assert_eq!(e.errors[0].message, "At least one database url must be specified");
}

#[test]
fn both_defects_are_reported() {
    let c = raw(0, ConnectionUris(SingleOrList::List(vec![])));
    let e = errors_of(validate_raw_configuration(c));
    assert_eq!(e.errors.len(), 2);
    assert_eq!(e.errors[0].path, vec![KeyOrIndex::Key("version".to_string())]);
    assert_eq!(e.errors[0].message, "invalid configuration version, expected 1, got 0");
    assert_eq!(e.errors[1].path, vec![KeyOrIndex::Key("connection_uris".to_string())]);
}

#[test]
fn large_version_is_written_in_full() {
    let c = raw(u32::MAX, single_connection_uri("x".to_string()));
    let e = errors_of(validate_raw_configuration(c));
    assert_eq!(e.errors[0].message, "invalid configuration version, expected 1, got 4294967295");
}

#[test]
fn decimal_strings() {
    assert_eq!(decimal_string(0), "0");
    assert_eq!(decimal_string(7), "7");
    assert_eq!(decimal_string(10), "10");
    assert_eq!(decimal_string(1234567890), "1234567890");
}

#[test]
fn first_connection_uri_is_selected() {
    let uris = ConnectionUris(SingleOrList::List(vec![uri("a"), uri("b")]));
    assert_eq!(select_first_connection_uri(&uris), "a");
    assert_eq!(select_connection_uri(&uris), "a");
}

#[test]
fn single_or_list_accessors() {
    let single = SingleOrList::Single(5u32);
    assert!(!single.is_empty());
    assert_eq!(single.len(), 1);
    assert_eq!(single.first(), Some(&5));
    assert_eq!(single.get(1), None);
    let list = SingleOrList::List(vec![1u32, 2, 3]);
    assert_eq!(list.len(), 3);
    assert_eq!(list.get(2), Some(&3));
    assert_eq!(list.first(), Some(&1));
    let empty: SingleOrList<u32> = SingleOrList::List(vec![]);
    assert!(empty.is_empty());
    assert_eq!(empty.first(), None);
}

#[test]
fn resolved_secret_accepts_both_shapes() {
    let a = ResolvedSecret::from(ResolvedSecretIntermediate::Unwrapped("postgresql://a".to_string()));
    let b = ResolvedSecret::from(ResolvedSecretIntermediate::Wrapped {
        value: "postgresql://a".to_string(),
    });
    assert_eq!(a, ResolvedSecret("postgresql://a".to_string()));
    assert_eq!(a, b);
}

#[test]
fn pool_settings_defaults() {
    let d = PoolSettings::default();
    assert_eq!(d.max_connections, 50);
    assert_eq!(d.pool_timeout, 30);
    assert_eq!(d.idle_timeout, Some(180));
    assert_eq!(d.connection_lifetime, Some(600));
    assert!(d.is_default());
    assert_eq!(max_connection_default(), 50);
    assert_eq!(pool_timeout_default(), 30);
    assert_eq!(idle_timeout_default(), Some(180));
    assert_eq!(connection_lifetime_default(), Some(600));
    let mut changed = d;
    changed.idle_timeout = None;
    assert!(!changed.is_default());
    let mut changed = d;
    changed.max_connections = 10;
    assert!(!changed.is_default());
}

#[test]
fn default_excluded_schema_list() {
    assert_eq!(
        default_excluded_schemas(),
        vec![
            "information_schema".to_string(),
            "pg_catalog".to_string(),
            "tiger".to_string(),
            "crdb_internal".to_string(),
            "columnar".to_string(),
            "columnar_internal".to_string(),
        ]
    );
}

#[test]
fn empty_raw_configuration() {
    let c = RawConfiguration::empty();
    assert_eq!(c.version, CURRENT_VERSION);
    assert!(c.connection_uris.0.is_empty());
    assert!(c.pool_settings.is_default());
    assert_eq!(c.metadata, Metadata::empty());
    assert_eq!(c.excluded_schemas, default_excluded_schemas());
}

fn minimal_input() -> RawConfiguration {
    RawConfiguration {
        version: 1,
        connection_uris: single_connection_uri("postgresql://u@h/db".to_string()),
        pool_settings: PoolSettings::default(),
        metadata: Metadata::empty(),
        excluded_schemas: default_excluded_schemas(),
    }
}

#[test]
fn configure_against_empty_database() {
    let out = configure(minimal_input(), TablesInfo(vec![]), AggregateFunctions(vec![]));
    assert_eq!(out.version, 1);
    assert_eq!(out.connection_uris.0.len(), 1);
    assert_eq!(select_connection_uri(&out.connection_uris), "postgresql://u@h/db");
    assert!(out.metadata.tables.0.is_empty());
    assert!(out.metadata.native_queries.0.is_empty());
    assert!(out.metadata.aggregate_functions.0.is_empty());
    assert_eq!(out.excluded_schemas, default_excluded_schemas());
    assert!(out.pool_settings.is_default());
}

fn discovered_tables() -> TablesInfo {
    TablesInfo(vec![(
        "Artist".to_string(),
        TableInfo {
            schema_name: "public".to_string(),
            table_name: "Artist".to_string(),
            columns: vec![(
                "ArtistId".to_string(),
                ColumnInfo {
                    name: "ArtistId".to_string(),
                    scalar_type: ScalarType("int4".to_string()),
                    nullable: Nullable::NonNullable,
                },
            )],
            uniqueness_constraints: vec![],
            foreign_relations: vec![],
        },
    )])
}

fn discovered_aggregates() -> AggregateFunctions {
    AggregateFunctions(vec![(
        ScalarType("int4".to_string()),
        vec![("max".to_string(), AggregateFunction { return_type: ScalarType("int4".to_string()) })],
    )])
}

#[test]
fn configure_replaces_discovered_and_keeps_user_fields() {
    let mut input = minimal_input();
    input.version = 0;
    input.pool_settings.max_connections = 7;
    input.excluded_schemas = vec!["private".to_string()];
    input.metadata.tables = TablesInfo(vec![(
        "Stale".to_string(),
        discovered_tables().0[0].1.clone(),
    )]);
    input.metadata.native_queries = NativeQueries(vec![(
        "q".to_string(),
        NativeQueryInfo { sql: "SELECT 1".to_string(), columns: vec![], arguments: vec![] },
    )]);
    let out = configure(input.clone(), discovered_tables(), discovered_aggregates());
    assert_eq!(out.version, 1);
    assert_eq!(out.pool_settings.max_connections, 7);
    assert_eq!(out.excluded_schemas, vec!["private".to_string()]);
    assert_eq!(out.metadata.tables, discovered_tables());
    assert_eq!(out.metadata.aggregate_functions, discovered_aggregates());
    assert_eq!(out.metadata.native_queries, input.metadata.native_queries);
    assert_eq!(out.connection_uris.0, input.connection_uris.0);
}

#[test]
fn configure_twice_is_the_same() {
    let once = configure(minimal_input(), discovered_tables(), discovered_aggregates());
    let twice = configure(once.clone(), discovered_tables(), discovered_aggregates());
    assert_eq!(once, twice);
}
