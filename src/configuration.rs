//! The connector's configuration: the raw form that users write and that
//! introspection re-emits, its validation, and the pure half of introspection.
use crate::metadata::{AggregateFunctions, Metadata, MetadataModel, TablesInfo};
use vstd::prelude::*;

verus! {

/// The one configuration version this connector accepts.
pub const CURRENT_VERSION: u32 = 1;

/// A single value or a list of values; either way a sequence.
#[derive(Debug, Clone, PartialEq, Eq)]
pub enum SingleOrList<T> {
    Single(T),
    List(Vec<T>),
}

impl<T> SingleOrList<T> {
    /// The values, in order.
    pub open spec fn as_seq(&self) -> Seq<T> {
        match self {
            SingleOrList::Single(s) => seq![*s],
            SingleOrList::List(l) => l@,
        }
    }

    pub fn is_empty(&self) -> (r: bool)
        ensures
            r == (self.as_seq().len() == 0),
    {
        match self {
            SingleOrList::Single(_) => false,
            SingleOrList::List(l) => l.len() == 0,
        }
    }

    /// The number of values.
    pub fn len(&self) -> (r: usize)
        ensures
            r == self.as_seq().len(),
    {
        match self {
            SingleOrList::Single(_) => 1,
            SingleOrList::List(l) => l.len(),
        }
    }

    /// The value at position `i`, if there is one.
    pub fn get(&self, i: usize) -> (r: Option<&T>)
        ensures
            r is None <==> i >= self.as_seq().len(),
            r is Some ==> *r->0 == self.as_seq()[i as int],
    {
        match self {
            SingleOrList::Single(s) => if i == 0 {
                Some(s)
            } else {
                None
            },
            SingleOrList::List(l) => if i < l.len() {
                Some(&l[i])
            } else {
                None
            },
        }
    }

    pub fn first(&self) -> (r: Option<&T>)
        ensures
            r is None <==> self.as_seq().len() == 0,
            r is Some ==> *r->0 == self.as_seq()[0],
    {
        match self {
            SingleOrList::Single(s) => Some(s),
            SingleOrList::List(l) => if l.len() == 0 {
                None
            } else {
                Some(&l[0])
            },
        }
    }
}

impl<T: DeepView> DeepView for SingleOrList<T> {
    type V = Seq<T::V>;

    open spec fn deep_view(&self) -> Seq<T::V> {
        self.as_seq().map_values(|t: T| t.deep_view())
    }
}

/// A value that the user wrote literally or that was resolved from an
/// external secret. Both written shapes (see `ResolvedSecretIntermediate`)
/// become this one value, the bare string, which is also how it is written
/// back.
#[derive(Debug, Clone, PartialEq, Eq)]
pub struct ResolvedSecret(pub String);

/// The two shapes a resolved secret is written in: a bare string, or an
/// object with a `value` field.
#[derive(Debug, Clone, PartialEq, Eq)]
pub enum ResolvedSecretIntermediate {
    Unwrapped(String),
    Wrapped { value: String },
}

impl From<ResolvedSecretIntermediate> for ResolvedSecret {
    fn from(value: ResolvedSecretIntermediate) -> (r: ResolvedSecret) {
        match value {
            ResolvedSecretIntermediate::Unwrapped(inner) => ResolvedSecret(inner),
            ResolvedSecretIntermediate::Wrapped { value: inner } => ResolvedSecret(inner),
        }
    }
}

impl vstd::std_specs::convert::FromSpecImpl<ResolvedSecretIntermediate> for ResolvedSecret {
    open spec fn obeys_from_spec() -> bool {
        true
    }

    open spec fn from_spec(v: ResolvedSecretIntermediate) -> ResolvedSecret {
        match v {
            ResolvedSecretIntermediate::Unwrapped(inner) => ResolvedSecret(inner),
            ResolvedSecretIntermediate::Wrapped { value: inner } => ResolvedSecret(inner),
        }
    }
}

/// A connection string for a Postgres-compatible database.
#[derive(Debug, Clone, PartialEq, Eq)]
pub struct ConnectionUri(pub ResolvedSecret);

impl DeepView for ConnectionUri {
    type V = Seq<char>;

    open spec fn deep_view(&self) -> Seq<char> {
        self.0.0@
    }
}

/// The connection strings of the database, the first of which is used.
#[derive(Debug, Clone, PartialEq, Eq)]
pub struct ConnectionUris(pub SingleOrList<ConnectionUri>);

impl DeepView for ConnectionUris {
    type V = Seq<Seq<char>>;

    open spec fn deep_view(&self) -> Seq<Seq<char>> {
        self.0.deep_view()
    }
}

/// A configuration with exactly one connection string.
pub fn single_connection_uri(connection_uri: String) -> (r: ConnectionUris)
    ensures
        r == (ConnectionUris(SingleOrList::Single(ConnectionUri(ResolvedSecret(connection_uri))))),
        r.deep_view() == seq![connection_uri@],
{
    let r = ConnectionUris(SingleOrList::Single(ConnectionUri(ResolvedSecret(connection_uri))));
    assert(r.deep_view() =~= seq![connection_uri@]);
    r
}

/// Settings of the connection pool; times are in seconds.
#[derive(Debug, Clone, Copy, PartialEq, Eq, Structural)]
pub struct PoolSettings {
    /// maximum number of pool connections
    pub max_connections: u32,
    /// timeout for acquiring a connection from the pool
    pub pool_timeout: u64,
    /// idle timeout for releasing a connection from the pool
    pub idle_timeout: Option<u64>,
    /// maximum lifetime for an individual connection
    pub connection_lifetime: Option<u64>,
}

pub open spec fn default_pool_settings() -> PoolSettings {
    PoolSettings {
        max_connections: 50,
        pool_timeout: 30,
        idle_timeout: Some(180),
        connection_lifetime: Some(600),
    }
}

impl Default for PoolSettings {
    fn default() -> (r: PoolSettings)
        ensures
            r == default_pool_settings(),
    {
        PoolSettings {
            max_connections: 50,
            pool_timeout: 30,
            idle_timeout: Some(180),
            connection_lifetime: Some(600),
        }
    }
}

impl PoolSettings {
    /// Whether these are the default settings, which the serialized form
    /// leaves out.
    pub fn is_default(&self) -> (r: bool)
        ensures
            r == (*self == default_pool_settings()),
    {
        let d = PoolSettings::default();
        self.max_connections == d.max_connections && self.pool_timeout == d.pool_timeout
            && same_option(self.idle_timeout, d.idle_timeout) && same_option(
            self.connection_lifetime,
            d.connection_lifetime,
        )
    }
}

fn same_option(a: Option<u64>, b: Option<u64>) -> (r: bool)
    ensures
        r == (a == b),
{
    match (a, b) {
        (Some(x), Some(y)) => x == y,
        (None, None) => true,
        _ => false,
    }
}

pub fn max_connection_default() -> (r: u32)
    ensures
        r == default_pool_settings().max_connections,
{
    PoolSettings::default().max_connections
}

pub fn pool_timeout_default() -> (r: u64)
    ensures
        r == default_pool_settings().pool_timeout,
{
    PoolSettings::default().pool_timeout
}

pub fn idle_timeout_default() -> (r: Option<u64>)
    ensures
        r == default_pool_settings().idle_timeout,
{
    PoolSettings::default().idle_timeout
}

pub fn connection_lifetime_default() -> (r: Option<u64>)
    ensures
        r == default_pool_settings().connection_lifetime,
{
    PoolSettings::default().connection_lifetime
}

/// The schemas that introspection skips unless told otherwise: the internal
/// schemas of Postgres, PostGIS, CockroachDB and Citus.
pub open spec fn default_excluded_schemas_model() -> Seq<Seq<char>> {
    seq![
        "information_schema"@,
        "pg_catalog"@,
        "tiger"@,
        "crdb_internal"@,
        "columnar"@,
        "columnar_internal"@,
    ]
}

pub fn default_excluded_schemas() -> (r: Vec<String>)
    ensures
        r.deep_view() == default_excluded_schemas_model(),
{
    let mut r: Vec<String> = Vec::new();
    // From Postgres itself
    r.push(String::from_str("information_schema"));
    r.push(String::from_str("pg_catalog"));
    // From PostGIS
    r.push(String::from_str("tiger"));
    // From CockroachDB
    r.push(String::from_str("crdb_internal"));
    // From Citus
    r.push(String::from_str("columnar"));
    r.push(String::from_str("columnar_internal"));
    assert(r.deep_view() =~= default_excluded_schemas_model());
    r
}

/// Configuration as users write it, and as introspection re-emits it.
#[derive(Debug, Clone, PartialEq, Eq)]
pub struct RawConfiguration {
    pub version: u32,
    pub connection_uris: ConnectionUris,
    pub pool_settings: PoolSettings,
    pub metadata: Metadata,
    /// Schemas which are excluded from introspection.
    pub excluded_schemas: Vec<String>,
}

pub ghost struct RawConfigurationModel {
    pub version: u32,
    pub connection_uris: Seq<Seq<char>>,
    pub pool_settings: PoolSettings,
    pub metadata: MetadataModel,
    pub excluded_schemas: Seq<Seq<char>>,
}

impl DeepView for RawConfiguration {
    type V = RawConfigurationModel;

    open spec fn deep_view(&self) -> RawConfigurationModel {
        RawConfigurationModel {
            version: self.version,
            connection_uris: self.connection_uris.deep_view(),
            pool_settings: self.pool_settings,
            metadata: self.metadata.deep_view(),
            excluded_schemas: self.excluded_schemas.deep_view(),
        }
    }
}

impl RawConfiguration {
    /// A configuration of the current version with no connection string, the
    /// default pool settings and excluded schemas, and no metadata.
    pub fn empty() -> (r: RawConfiguration)
        ensures
            r.deep_view().version == CURRENT_VERSION,
            r.deep_view().connection_uris.len() == 0,
            r.deep_view().pool_settings == default_pool_settings(),
            r.deep_view().metadata.tables.len() == 0,
            r.deep_view().metadata.native_queries.len() == 0,
            r.deep_view().metadata.aggregate_functions.len() == 0,
            r.deep_view().excluded_schemas == default_excluded_schemas_model(),
    {
        let r = RawConfiguration {
            version: CURRENT_VERSION,
            connection_uris: ConnectionUris(SingleOrList::List(Vec::new())),
            pool_settings: PoolSettings::default(),
            metadata: Metadata::empty(),
            excluded_schemas: default_excluded_schemas(),
        };
        assert(r.deep_view().connection_uris =~= Seq::empty());
        r
    }
}

/// A configuration that passed validation.
#[derive(Debug, Clone, PartialEq, Eq)]
pub struct Configuration {
    pub config: RawConfiguration,
}

/// A step of the path to a field of the configuration.
#[derive(Debug, Clone, PartialEq, Eq)]
pub enum KeyOrIndex {
    Key(String),
    Index(u32),
}

pub ghost enum KeyOrIndexModel {
    Key(Seq<char>),
    Index(u32),
}

impl DeepView for KeyOrIndex {
    type V = KeyOrIndexModel;

    open spec fn deep_view(&self) -> KeyOrIndexModel {
        match self {
            KeyOrIndex::Key(k) => KeyOrIndexModel::Key(k@),
            KeyOrIndex::Index(i) => KeyOrIndexModel::Index(*i),
        }
    }
}

/// One defect of a configuration: where it is and what is wrong.
#[derive(Debug, Clone, PartialEq, Eq)]
pub struct InvalidRange {
    pub path: Vec<KeyOrIndex>,
    pub message: String,
}

pub ghost struct InvalidRangeModel {
    pub path: Seq<KeyOrIndexModel>,
    pub message: Seq<char>,
}

impl DeepView for InvalidRange {
    type V = InvalidRangeModel;

    open spec fn deep_view(&self) -> InvalidRangeModel {
        InvalidRangeModel { path: self.path.deep_view(), message: self.message@ }
    }
}

/// Every defect found in a configuration.
#[derive(Debug, Clone, PartialEq, Eq)]
pub struct ValidateError {
    pub errors: Vec<InvalidRange>,
}

pub open spec fn digit_char(d: nat) -> char {
    if d == 0 {
        '0'
    } else if d == 1 {
        '1'
    } else if d == 2 {
        '2'
    } else if d == 3 {
        '3'
    } else if d == 4 {
        '4'
    } else if d == 5 {
        '5'
    } else if d == 6 {
        '6'
    } else if d == 7 {
        '7'
    } else if d == 8 {
        '8'
    } else {
        '9'
    }
}

/// The decimal digits of `n`, without leading zeros.
pub open spec fn decimal(n: nat) -> Seq<char>
    decreases n,
{
    if n < 10 {
        seq![digit_char(n)]
    } else {
        decimal(n / 10) + seq![digit_char(n % 10)]
    }
}

fn digit_str(d: u32) -> (r: &'static str)
    requires
        d < 10,
    ensures
        r@ == seq![digit_char(d as nat)],
{
    proof {
        reveal_strlit("0");
        reveal_strlit("1");
        reveal_strlit("2");
        reveal_strlit("3");
        reveal_strlit("4");
        reveal_strlit("5");
        reveal_strlit("6");
        reveal_strlit("7");
        reveal_strlit("8");
        reveal_strlit("9");
    }
    let r = if d == 0 {
        "0"
    } else if d == 1 {
        "1"
    } else if d == 2 {
        "2"
    } else if d == 3 {
        "3"
    } else if d == 4 {
        "4"
    } else if d == 5 {
        "5"
    } else if d == 6 {
        "6"
    } else if d == 7 {
        "7"
    } else if d == 8 {
        "8"
    } else {
        "9"
    };
    assert(r@ =~= seq![digit_char(d as nat)]);
    r
}

/// `n` written in decimal.
pub fn decimal_string(n: u32) -> (r: String)
    ensures
        r@ == decimal(n as nat),
    decreases n,
{
    if n < 10 {
        String::from_str(digit_str(n))
    } else {
        let mut s = decimal_string(n / 10);
        s.append(digit_str(n % 10));
        s
    }
}

pub open spec fn version_error(version: u32) -> InvalidRangeModel {
    InvalidRangeModel {
        path: seq![KeyOrIndexModel::Key("version"@)],
        message: "invalid configuration version, expected 1, got "@ + decimal(version as nat),
    }
}

pub open spec fn connection_uris_error() -> InvalidRangeModel {
    InvalidRangeModel {
        path: seq![KeyOrIndexModel::Key("connection_uris"@)],
        message: "At least one database url must be specified"@,
    }
}

/// The defects of a raw configuration, in field order: a version other than
/// the current one, and an empty list of connection strings.
pub open spec fn validation_errors(c: RawConfigurationModel) -> Seq<InvalidRangeModel> {
    (if c.version != CURRENT_VERSION {
        seq![version_error(c.version)]
    } else {
        Seq::empty()
    }) + (if c.connection_uris.len() == 0 {
        seq![connection_uris_error()]
    } else {
        Seq::empty()
    })
}

fn key_path(key: &str) -> (r: Vec<KeyOrIndex>)
    ensures
        r.deep_view() == seq![KeyOrIndexModel::Key(key@)],
{
    let mut r: Vec<KeyOrIndex> = Vec::new();
    r.push(KeyOrIndex::Key(String::from_str(key)));
    assert(r.deep_view() =~= seq![KeyOrIndexModel::Key(key@)]);
    r
}

/// Validates a raw configuration, reporting every defect at once.
pub fn validate_raw_configuration(config: RawConfiguration) -> (r: Result<
    Configuration,
    ValidateError,
>)
    ensures
        validation_errors(config.deep_view()).len() == 0 <==> r is Ok,
        r is Ok ==> r->Ok_0.config == config,
        r is Err ==> r->Err_0.errors.deep_view() == validation_errors(config.deep_view()),
{
    let mut errors: Vec<InvalidRange> = Vec::new();
    if config.version != CURRENT_VERSION {
        let mut message = String::from_str("invalid configuration version, expected 1, got ");
        let digits = decimal_string(config.version);
        message.append(digits.as_str());
        errors.push(InvalidRange { path: key_path("version"), message });
    }
    let ghost after_version = errors.deep_view();
    if config.connection_uris.0.is_empty() {
        errors.push(
            InvalidRange {
                path: key_path("connection_uris"),
                message: String::from_str("At least one database url must be specified"),
            },
        );
    }
    proof {
        let c = config.deep_view();
        assert(c.connection_uris.len() == config.connection_uris.0.as_seq().len());
        assert(after_version =~= (if c.version != CURRENT_VERSION {
            seq![version_error(c.version)]
        } else {
            Seq::empty()
        }));
        assert(errors.deep_view() =~= validation_errors(c));
    }
    if errors.len() == 0 {
        Ok(Configuration { config })
    } else {
        Err(ValidateError { errors })
    }
}

/// Selects the first connection string.
pub fn select_first_connection_uri(urls: &ConnectionUris) -> (r: String)
    requires
        urls.deep_view().len() > 0,
    ensures
        r@ == urls.deep_view()[0],
{
    match urls.0.first() {
        Some(uri) => uri.0.0.clone(),
        None => {
            assert(false);
            String::new()
        },
    }
}

/// Selects the connection string to use: currently always the first one.
pub fn select_connection_uri(urls: &ConnectionUris) -> (r: String)
    requires
        urls.deep_view().len() > 0,
    ensures
        r@ == urls.deep_view()[0],
{
    select_first_connection_uri(urls)
}

/// The configuration that introspection produces from `args` and what it
/// discovered: the discovered tables and aggregate functions replace the
/// previous ones, the version is the current one, and everything the user
/// owns is carried over.
pub open spec fn configured(
    args: RawConfigurationModel,
    tables: Seq<(Seq<char>, crate::metadata::TableModel)>,
    aggregate_functions: Seq<(Seq<char>, Seq<(Seq<char>, Seq<char>)>)>,
) -> RawConfigurationModel {
    RawConfigurationModel {
        version: CURRENT_VERSION,
        metadata: MetadataModel {
            tables,
            native_queries: args.metadata.native_queries,
            aggregate_functions,
        },
        ..args
    }
}

/// Builds the configuration that introspection of a database yields, from
/// the previous configuration and the tables and aggregate functions that the
/// database reported.
pub fn configure(
    args: RawConfiguration,
    tables: TablesInfo,
    aggregate_functions: AggregateFunctions,
) -> (r: RawConfiguration)
    ensures
        r == (RawConfiguration {
            version: CURRENT_VERSION,
            connection_uris: args.connection_uris,
            pool_settings: args.pool_settings,
            metadata: Metadata {
                tables,
                native_queries: args.metadata.native_queries,
                aggregate_functions,
            },
            excluded_schemas: args.excluded_schemas,
        }),
        r.deep_view() == configured(
            args.deep_view(),
            tables.deep_view(),
            aggregate_functions.deep_view(),
        ),
{
    RawConfiguration {
        version: CURRENT_VERSION,
        connection_uris: args.connection_uris,
        pool_settings: args.pool_settings,
        metadata: Metadata {
            tables,
            native_queries: args.metadata.native_queries,
            aggregate_functions,
        },
        excluded_schemas: args.excluded_schemas,
    }
}

/// Introspecting twice against a database that reports the same tables and
/// aggregate functions yields the same configuration as introspecting once.
pub proof fn lemma_configure_idempotent(
    args: RawConfigurationModel,
    tables: Seq<(Seq<char>, crate::metadata::TableModel)>,
    aggregate_functions: Seq<(Seq<char>, Seq<(Seq<char>, Seq<char>)>)>,
)
    ensures
        configured(configured(args, tables, aggregate_functions), tables, aggregate_functions)
            == configured(args, tables, aggregate_functions),
{
}

/// Introspecting a configuration of the current version against a database
/// that reports exactly the tables and aggregate functions it already holds
/// gives that configuration back unchanged.
pub proof fn lemma_configure_fixed_point(args: RawConfigurationModel)
    requires
        args.version == CURRENT_VERSION,
    ensures
        configured(args, args.metadata.tables, args.metadata.aggregate_functions) == args,
{
}

/// A configuration fails validation exactly when its version is not the
/// current one or it has no connection string, and when both hold both are
/// reported, naming the version first.
pub proof fn lemma_validation_reports_all(c: RawConfigurationModel)
    ensures
        validation_errors(c).len() == 0 <==> (c.version == CURRENT_VERSION
            && c.connection_uris.len() > 0),
        c.version != CURRENT_VERSION && c.connection_uris.len() == 0 ==> validation_errors(c)
            == seq![version_error(c.version), connection_uris_error()],
{
    if c.version != CURRENT_VERSION && c.connection_uris.len() == 0 {
        assert(validation_errors(c) =~= seq![version_error(c.version), connection_uris_error()]);
    }
}

} // verus!
