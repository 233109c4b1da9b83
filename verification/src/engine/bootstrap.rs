use vstd::prelude::*;

use crate::text::{has_prefix, push_char, text_starts_with};
use vstd::string::StringExecFns;

verus! {

/// Doubles every single quote of a text.
pub open spec fn escape_single_quotes(s: Seq<char>) -> Seq<char>
    decreases s.len(),
{
    if s.len() == 0 {
        Seq::empty()
    } else {
        escape_single_quotes(s.drop_last()) + if s.last() == '\'' {
            seq!['\'', '\'']
        } else {
            seq![s.last()]
        }
    }
}

/// The SQL string literal that denotes `s`.
pub open spec fn sql_literal(s: Seq<char>) -> Seq<char> {
    seq!['\''] + escape_single_quotes(s) + seq!['\'']
}

/// Quotes `value` as a SQL string literal, doubling embedded single quotes.
pub fn sql_string_literal(value: &str) -> (quoted: String)
    ensures
        quoted@ == sql_literal(value@),
{
    broadcast use vstd::string::group_string_axioms;

    let mut quoted = String::new();
    push_char(&mut quoted, '\'');
    for c in it: value.chars()
        invariant
            it.seq() == value@,
            quoted@ == seq!['\''] + escape_single_quotes(value@.subrange(0, it.index() as int)),
    {
        assert(value@.subrange(0, it.index() + 1).drop_last() == value@.subrange(
            0,
            it.index() as int,
        ));
        if c == '\'' {
            push_char(&mut quoted, '\'');
            push_char(&mut quoted, '\'');
        } else {
            push_char(&mut quoted, c);
        }
    }
    assert(value@.subrange(0, value@.len() as int) == value@);
    push_char(&mut quoted, '\'');
    quoted
}

/// Whether a data path names an S3 location.
pub open spec fn is_s3_path(path: Seq<char>) -> bool {
    has_prefix(path, "s3://"@)
}

/// Whether a data path names an S3 location (`s3://...`).
pub fn is_s3_data_path(path: &str) -> (is_s3: bool)
    ensures
        is_s3 == is_s3_path(path@),
{
    text_starts_with(path, "s3://")
}

/// The store's path layout joins a segment onto a base with `/`: the
/// separator is added unless the base is empty or already ends in `/`.
pub open spec fn path_join(base: Seq<char>, segment: Seq<char>) -> Seq<char> {
    if base.len() == 0 {
        segment
    } else if base.last() == '/' {
        base + segment
    } else {
        base + seq!['/'] + segment
    }
}

/// The last character of a text, if any.
fn last_char(text: &str) -> (last: Option<char>)
    ensures
        match last {
            Some(c) => text@.len() > 0 && c == text@.last(),
            None => text@.len() == 0,
        },
{
    let mut last: Option<char> = None;
    for c in it: text.chars()
        invariant
            it.seq() == text@,
            match last {
                Some(l) => it.index() > 0 && l == text@[it.index() - 1],
                None => it.index() == 0,
            },
    {
        last = Some(c);
    }
    last
}

/// Joins a segment onto a base path as `path_join` describes.
pub(crate) fn join_path(base: &str, segment: &str) -> (joined: String)
    ensures
        joined@ == path_join(base@, segment@),
{
    let mut joined = String::from_str(base);
    match last_char(base) {
        Some(c) => if c != '/' {
            push_char(&mut joined, '/');
        },
        None => {},
    }
    joined.append(segment);
    joined
}

/// The final component of a path as `std::path::Path::file_name` reports it
/// (absent for a path that is empty, is the root, or ends in `..`).
pub uninterp spec fn std_file_name(path: Seq<char>) -> Option<Seq<char>>;

/// `std::path::Path::file_name` on a UTF-8 path. The claim: the result is
/// `std_file_name` of the path.
#[verifier::external_body]
fn file_name(path: &str) -> (name: Option<String>)
    ensures
        match name {
            Some(n) => std_file_name(path@) == Some(n@),
            None => std_file_name(path@) is None,
        },
{
    std::path::Path::new(path).file_name().map(|name| name.to_string_lossy().into_owned())
}

/// The last component of a storage path, used to name it in errors without
/// revealing the full path.
pub open spec fn basename_text(path: Seq<char>) -> Seq<char> {
    match std_file_name(path) {
        Some(name) => name,
        None => "storage path"@,
    }
}

/// Names a storage path by its last component, or `storage path` when it has none.
pub fn path_basename(path: &str) -> (name: String)
    ensures
        name@ == basename_text(path@),
{
    match file_name(path) {
        Some(name) => name,
        None => "storage path".to_owned(),
    }
}

/// The database engine used for native storage metadata.
#[derive(Clone, Copy, Debug, PartialEq, Eq, Structural)]
pub enum CatalogBackend {
    DuckDb,
    Sqlite,
}

/// The catalog backend a configuration name selects.
pub open spec fn backend_named(name: Seq<char>) -> Option<CatalogBackend> {
    if name == "duckdb"@ {
        Some(CatalogBackend::DuckDb)
    } else if name == "sqlite"@ {
        Some(CatalogBackend::Sqlite)
    } else {
        None
    }
}

impl CatalogBackend {
    /// Selects a backend by its configuration name (`duckdb` or `sqlite`).
    pub fn from_name(name: &str) -> (backend: Option<CatalogBackend>)
        ensures
            backend == backend_named(name@),
    {
        if crate::text::text_equals(name, "duckdb") {
            Some(CatalogBackend::DuckDb)
        } else if crate::text::text_equals(name, "sqlite") {
            Some(CatalogBackend::Sqlite)
        } else {
            None
        }
    }

    pub fn adapter(self) -> (adapter: CatalogAdapter)
        ensures
            adapter_of(adapter, self),
    {
        match self {
            CatalogBackend::DuckDb => CatalogAdapter::duckdb(),
            CatalogBackend::Sqlite => CatalogAdapter::sqlite(),
        }
    }
}

/// Backend-specific names used to attach a DuckLake catalog.
#[derive(Clone, Copy, Debug, PartialEq, Eq)]
pub struct CatalogAdapter {
    pub default_catalog_filename: &'static str,
    pub ducklake_alias: &'static str,
    pub catalog_application_database: &'static str,
    pub ducklake_path_prefix: &'static str,
    pub attach_type_clause: Option<&'static str>,
}

/// The alias under which the DuckLake catalog is attached.
pub open spec fn ducklake_alias() -> Seq<char> {
    "dl"@
}

/// The database that holds PulseOn's own catalog tables.
pub open spec fn catalog_database() -> Seq<char> {
    "pulseon_catalog"@
}

/// Whether an adapter carries the names given.
pub open spec fn adapter_is(
    adapter: CatalogAdapter,
    filename: Seq<char>,
    prefix: Seq<char>,
    type_clause: Option<Seq<char>>,
) -> bool {
    &&& adapter.default_catalog_filename@ == filename
    &&& adapter.ducklake_alias@ == ducklake_alias()
    &&& adapter.catalog_application_database@ == catalog_database()
    &&& adapter.ducklake_path_prefix@ == prefix
    &&& match (adapter.attach_type_clause, type_clause) {
        (Some(a), Some(b)) => a@ == b,
        (None, None) => true,
        _ => false,
    }
}

/// Whether an adapter is the one of a backend: DuckDB catalogs default to
/// `catalog.ducklake` and attach with `TYPE ducklake`; SQLite catalogs default
/// to `catalog.sqlite` and attach through a `ducklake:sqlite:` path prefix.
pub open spec fn adapter_of(adapter: CatalogAdapter, backend: CatalogBackend) -> bool {
    match backend {
        CatalogBackend::DuckDb => adapter_is(
            adapter,
            "catalog.ducklake"@,
            ""@,
            Some("TYPE ducklake"@),
        ),
        CatalogBackend::Sqlite => adapter_is(adapter, "catalog.sqlite"@, "ducklake:sqlite:"@, None),
    }
}

impl CatalogAdapter {
    pub fn duckdb() -> (adapter: CatalogAdapter)
        ensures
            adapter_is(adapter, "catalog.ducklake"@, ""@, Some("TYPE ducklake"@)),
    {
        CatalogAdapter {
            default_catalog_filename: "catalog.ducklake",
            ducklake_alias: "dl",
            catalog_application_database: "pulseon_catalog",
            ducklake_path_prefix: "",
            attach_type_clause: Some("TYPE ducklake"),
        }
    }

    pub fn sqlite() -> (adapter: CatalogAdapter)
        ensures
            adapter_is(adapter, "catalog.sqlite"@, "ducklake:sqlite:"@, None),
    {
        CatalogAdapter {
            default_catalog_filename: "catalog.sqlite",
            ducklake_alias: "dl",
            catalog_application_database: "pulseon_catalog",
            ducklake_path_prefix: "ducklake:sqlite:",
            attach_type_clause: None,
        }
    }
}

/// The line of an attach statement that names the catalog type, if any.
pub open spec fn type_clause_line(clause: Option<&'static str>) -> Seq<char> {
    match clause {
        Some(c) => "                 "@ + c@ + ",\n"@,
        None => ""@,
    }
}

/// The DuckDB statement that attaches a DuckLake catalog with its data path.
pub open spec fn attach_statement(adapter: CatalogAdapter, catalog: Seq<char>, data: Seq<char>) -> Seq<
    char,
> {
    "ATTACH "@ + sql_literal(adapter.ducklake_path_prefix@ + catalog) + " AS "@
        + adapter.ducklake_alias@ + " (\n"@ + type_clause_line(adapter.attach_type_clause)
        + "                 DATA_PATH "@ + sql_literal(data) + ",\n                 METADATA_CATALOG '"@
        + adapter.catalog_application_database@ + "'\n             );"@
}

impl CatalogAdapter {
    /// Builds the statement that attaches the catalog at `catalog_path` with its
    /// Parquet data under `data_path`; both paths become escaped SQL literals.
    pub fn attach_ducklake_statement(&self, catalog_path: &str, data_path: &str) -> (statement:
        String)
        ensures
            statement@ == attach_statement(*self, catalog_path@, data_path@),
    {
        let mut catalog_uri = String::from_str(self.ducklake_path_prefix);
        catalog_uri.append(catalog_path);
        let catalog_literal = sql_string_literal(catalog_uri.as_str());
        let data_literal = sql_string_literal(data_path);
        let ghost prefix_part = "ATTACH "@ + sql_literal(self.ducklake_path_prefix@ + catalog_path@)
            + " AS "@ + self.ducklake_alias@ + " (\n"@;
        let mut statement = String::from_str("ATTACH ");
        statement.append(catalog_literal.as_str());
        statement.append(" AS ");
        statement.append(self.ducklake_alias);
        statement.append(" (\n");
        assert(statement@ =~= prefix_part);
        match self.attach_type_clause {
            Some(clause) => {
                statement.append("                 ");
                statement.append(clause);
                statement.append(",\n");
                assert(statement@ =~= prefix_part + ("                 "@ + clause@ + ",\n"@));
            },
            None => {
                proof {
                    reveal_strlit("");
                }
                assert(statement@ =~= prefix_part + ""@);
            },
        }
        assert(statement@ =~= prefix_part + type_clause_line(self.attach_type_clause));
        statement.append("                 DATA_PATH ");
        statement.append(data_literal.as_str());
        statement.append(",\n                 METADATA_CATALOG '");
        statement.append(self.catalog_application_database);
        statement.append("'\n             );");
        assert(statement@ =~= attach_statement(*self, catalog_path@, data_path@));
        statement
    }
}

/// The batch that loads DuckLake and attaches the catalog of a backend.
pub open spec fn attach_batch_text(adapter: CatalogAdapter, catalog: Seq<char>, data: Seq<char>) -> Seq<char> {
    "INSTALL ducklake;\n         LOAD ducklake;\n         "@ + attach_statement(adapter, catalog, data)
}

/// Builds the batch that installs and loads DuckLake, then attaches the
/// backend's catalog at `catalog_path` with data under `data_path`.
pub fn attach_ducklake_batch(catalog_backend: CatalogBackend, catalog_path: &str, data_path: &str) -> (batch: String)
    ensures
        exists|adapter: CatalogAdapter|
            adapter_of(adapter, catalog_backend) && batch@ == attach_batch_text(
                adapter,
                catalog_path@,
                data_path@,
            ),
{
    let adapter = catalog_backend.adapter();
    let statement = adapter.attach_ducklake_statement(catalog_path, data_path);
    let mut batch = String::from_str("INSTALL ducklake;\n         LOAD ducklake;\n         ");
    batch.append(statement.as_str());
    batch
}

/// The name a failed attach reports: the last components of both paths, so
/// that the error does not carry the full paths.
pub open spec fn attach_storage_name_text(catalog: Seq<char>, data: Seq<char>) -> Seq<char> {
    basename_text(catalog) + ", "@ + basename_text(data)
}

/// Names the storage of an attach for its error.
pub fn attach_storage_name(catalog_path: &str, data_path: &str) -> (name: String)
    ensures
        name@ == attach_storage_name_text(catalog_path@, data_path@),
{
    let mut name = path_basename(catalog_path);
    name.append(", ");
    let data = path_basename(data_path);
    name.append(data.as_str());
    name
}

/// The statement that selects PulseOn's catalog tables.
pub fn use_catalog_statement(adapter: &CatalogAdapter) -> (statement: String)
    ensures
        statement@ == "USE "@ + adapter.catalog_application_database@ + ";"@,
{
    let mut statement = String::from_str("USE ");
    statement.append(adapter.catalog_application_database);
    statement.append(";");
    statement
}

/// Credentials and endpoint settings for S3 data paths.
#[derive(Clone, Debug, PartialEq, Eq)]
pub struct S3ConnectionConfig {
    pub endpoint: String,
    pub access_key_id: String,
    pub secret_access_key: String,
    pub session_token: Option<String>,
    pub region: Option<String>,
    pub path_style: Option<bool>,
    pub use_ssl: Option<bool>,
}

impl S3ConnectionConfig {
    pub fn new(
        endpoint: String,
        access_key_id: String,
        secret_access_key: String,
        session_token: Option<String>,
        region: Option<String>,
        path_style: Option<bool>,
        use_ssl: Option<bool>,
    ) -> (config: S3ConnectionConfig)
        ensures
            config == (S3ConnectionConfig {
                endpoint,
                access_key_id,
                secret_access_key,
                session_token,
                region,
                path_style,
                use_ssl,
            }),
    {
        S3ConnectionConfig {
            endpoint,
            access_key_id,
            secret_access_key,
            session_token,
            region,
            path_style,
            use_ssl,
        }
    }
}

/// Where the native store keeps its catalog and metric data.
pub struct NativeStorageConfig {
    pub catalog_backend: CatalogBackend,
    pub catalog_path: String,
    pub data_path: String,
    pub s3_connection: Option<S3ConnectionConfig>,
}

/// The `.pulseon` directory under a store root.
pub open spec fn pulseon_dir(root: Seq<char>) -> Seq<char> {
    path_join(root, ".pulseon"@)
}

/// The catalog path used when none is given: the backend's default file name
/// inside `.pulseon`.
pub open spec fn default_catalog_path(root: Seq<char>, backend: CatalogBackend) -> Seq<char> {
    match backend {
        CatalogBackend::DuckDb => path_join(pulseon_dir(root), "catalog.ducklake"@),
        CatalogBackend::Sqlite => path_join(pulseon_dir(root), "catalog.sqlite"@),
    }
}

/// The data path used when none is given: `.pulseon/data`.
pub open spec fn default_data_path(root: Seq<char>) -> Seq<char> {
    path_join(pulseon_dir(root), "data"@)
}

impl NativeStorageConfig {
    /// A DuckDB-catalog configuration without S3 settings.
    pub fn duckdb(root_path: &str, catalog_path: Option<String>, data_path: Option<String>) -> (config:
        NativeStorageConfig)
        ensures
            config.catalog_backend == CatalogBackend::DuckDb,
            config.catalog_path@ == match catalog_path {
                Some(p) => p@,
                None => default_catalog_path(root_path@, CatalogBackend::DuckDb),
            },
            config.data_path@ == match data_path {
                Some(p) => p@,
                None => default_data_path(root_path@),
            },
            config.s3_connection is None,
    {
        Self::with_backend_and_s3_config(
            CatalogBackend::DuckDb,
            root_path,
            catalog_path,
            data_path,
            None,
        )
    }

    /// Resolves the catalog and data paths of a store rooted at `root_path`,
    /// defaulting each to its place inside `.pulseon`.
    pub fn with_backend_and_s3_config(
        catalog_backend: CatalogBackend,
        root_path: &str,
        catalog_path: Option<String>,
        data_path: Option<String>,
        s3_connection: Option<S3ConnectionConfig>,
    ) -> (config: NativeStorageConfig)
        ensures
            config.catalog_backend == catalog_backend,
            config.catalog_path@ == match catalog_path {
                Some(p) => p@,
                None => default_catalog_path(root_path@, catalog_backend),
            },
            config.data_path@ == match data_path {
                Some(p) => p@,
                None => default_data_path(root_path@),
            },
            config.s3_connection == s3_connection,
    {
        broadcast use vstd::string::group_string_axioms;

        let pulseon_path = join_path(root_path, ".pulseon");
        let adapter = catalog_backend.adapter();
        let catalog_path = match catalog_path {
            Some(path) => path,
            None => join_path(pulseon_path.as_str(), adapter.default_catalog_filename),
        };
        let data_path = match data_path {
            Some(path) => path,
            None => join_path(pulseon_path.as_str(), "data"),
        };
        NativeStorageConfig { catalog_backend, catalog_path, data_path, s3_connection }
    }
}

} // verus!
