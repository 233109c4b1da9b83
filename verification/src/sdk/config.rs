use vstd::prelude::*;

use crate::engine::bootstrap::{
    backend_named, is_s3_data_path, is_s3_path, CatalogBackend, S3ConnectionConfig,
};
use crate::text::{has_infix, has_prefix, is_blank, text_contains, text_is_blank, text_starts_with};
use vstd::string::StringExecFns;

verus! {

/// The largest metric queue capacity a client may ask for.
pub const MAX_METRIC_QUEUE_CAPACITY: i64 = 1_048_576;

/// Invalid client configuration.
#[allow(inconsistent_fields)]
#[derive(Debug, PartialEq, Eq)]
pub enum ConfigError {
    QueueCapacityOutOfRange,
    UnsupportedCatalogBackend { name: String },
    UnsupportedDataUri,
    CatalogPathNotLocal,
    MissingS3Setting { name: &'static str },
    EmptyS3Setting { name: &'static str },
    NotAString { label: &'static str },
    NotABoolean { label: &'static str },
    S3NotATable,
}

/// The message a configuration error is reported with.
pub open spec fn config_error_message(error: ConfigError) -> Seq<char> {
    match error {
        ConfigError::QueueCapacityOutOfRange => "metric_queue_capacity must be between 1 and 1048576"@,
        ConfigError::UnsupportedCatalogBackend { name } => "unsupported catalog_backend: "@ + name@,
        ConfigError::UnsupportedDataUri => "data_path must be a local filesystem path or s3:// URI"@,
        ConfigError::CatalogPathNotLocal => "catalog_path must be a local filesystem path"@,
        ConfigError::MissingS3Setting { name } => name@ + " is required when data_path is s3://"@,
        ConfigError::EmptyS3Setting { name } => name@ + " must not be empty"@,
        ConfigError::NotAString { label } => label@ + " must be a string"@,
        ConfigError::NotABoolean { label } => label@ + " must be a boolean"@,
        ConfigError::S3NotATable => "config.toml s3 must be a table"@,
    }
}

impl ConfigError {
    pub fn message(&self) -> (message: String)
        ensures
            message@ == config_error_message(*self),
    {
        match self {
            ConfigError::QueueCapacityOutOfRange => String::from_str(
                "metric_queue_capacity must be between 1 and 1048576",
            ),
            ConfigError::UnsupportedCatalogBackend { name } => {
                let mut message = String::from_str("unsupported catalog_backend: ");
                message.append(name.as_str());
                message
            },
            ConfigError::UnsupportedDataUri => String::from_str(
                "data_path must be a local filesystem path or s3:// URI",
            ),
            ConfigError::CatalogPathNotLocal => String::from_str(
                "catalog_path must be a local filesystem path",
            ),
            ConfigError::MissingS3Setting { name } => {
                let mut message = String::from_str(name);
                message.append(" is required when data_path is s3://");
                message
            },
            ConfigError::EmptyS3Setting { name } => {
                let mut message = String::from_str(name);
                message.append(" must not be empty");
                message
            },
            ConfigError::NotAString { label } => {
                let mut message = String::from_str(label);
                message.append(" must be a string");
                message
            },
            ConfigError::NotABoolean { label } => {
                let mut message = String::from_str(label);
                message.append(" must be a boolean");
                message
            },
            ConfigError::S3NotATable => String::from_str("config.toml s3 must be a table"),
        }
    }
}

/// S3 settings as the caller or the project configuration gives them.
#[derive(Debug, Default, PartialEq, Eq)]
pub struct S3ConnectionParams {
    pub endpoint: Option<String>,
    pub access_key_id: Option<String>,
    pub secret_access_key: Option<String>,
    pub session_token: Option<String>,
    pub region: Option<String>,
    pub path_style: Option<bool>,
    pub use_ssl: Option<bool>,
}

/// The view of an optional text.
pub open spec fn opt_text(value: Option<String>) -> Option<Seq<char>> {
    match value {
        Some(v) => Some(v@),
        None => None,
    }
}

/// A setting given explicitly wins over the configuration file.
pub open spec fn merged_text(explicit: Option<String>, config: Option<String>) -> Option<Seq<char>> {
    match explicit {
        Some(v) => Some(v@),
        None => opt_text(config),
    }
}

/// Takes the explicit text setting if given, else the configured one.
pub fn resolve_config_string(explicit: Option<String>, config: Option<&str>) -> (resolved: Option<String>)
    ensures
        opt_text(resolved) == match explicit {
            Some(v) => Some(v@),
            None => match config {
                Some(c) => Some(c@),
                None => None,
            },
        },
{
    match explicit {
        Some(value) => Some(value),
        None => match config {
            Some(value) => Some(value.to_owned()),
            None => None,
        },
    }
}

/// Takes the explicit flag if given, else the configured one.
pub fn resolve_config_bool(explicit: Option<bool>, config: Option<bool>) -> (resolved: Option<bool>)
    ensures
        resolved == match explicit {
            Some(v) => Some(v),
            None => config,
        },
{
    match explicit {
        Some(value) => Some(value),
        None => config,
    }
}

fn config_text(config: Option<&S3ConnectionParams>, field: u8) -> (text: Option<&str>)
    requires
        field < 5,
    ensures
        opt_str(text) == match config {
            Some(c) => opt_text(s3_text_field(*c, field)),
            None => None,
        },
{
    match config {
        Some(c) => {
            let value = match field {
                0 => &c.endpoint,
                1 => &c.access_key_id,
                2 => &c.secret_access_key,
                3 => &c.session_token,
                _ => &c.region,
            };
            match value {
                Some(v) => Some(v.as_str()),
                None => None,
            }
        },
        None => None,
    }
}

/// The view of an optional text slice.
pub open spec fn opt_str(value: Option<&str>) -> Option<Seq<char>> {
    match value {
        Some(v) => Some(v@),
        None => None,
    }
}

/// One of the five text settings, by position.
pub open spec fn s3_text_field(params: S3ConnectionParams, field: u8) -> Option<String> {
    if field == 0 {
        params.endpoint
    } else if field == 1 {
        params.access_key_id
    } else if field == 2 {
        params.secret_access_key
    } else if field == 3 {
        params.session_token
    } else {
        params.region
    }
}

/// The settings in effect: each explicit setting wins over the file's.
pub open spec fn s3_params_merged(
    merged: S3ConnectionParams,
    explicit: S3ConnectionParams,
    config: Option<S3ConnectionParams>,
) -> bool {
    &&& forall|field: u8|
        field < 5 ==> #[trigger] opt_text(s3_text_field(merged, field)) == match config {
            Some(c) => merged_text(s3_text_field(explicit, field), s3_text_field(c, field)),
            None => opt_text(s3_text_field(explicit, field)),
        }
    &&& merged.path_style == match explicit.path_style {
        Some(v) => Some(v),
        None => match config {
            Some(c) => c.path_style,
            None => None,
        },
    }
    &&& merged.use_ssl == match explicit.use_ssl {
        Some(v) => Some(v),
        None => match config {
            Some(c) => c.use_ssl,
            None => None,
        },
    }
}

/// Merges explicit S3 keywords over the values read from `config.toml`.
pub fn resolve_s3_connection_params(explicit: S3ConnectionParams, config: Option<&S3ConnectionParams>) -> (merged: S3ConnectionParams)
    ensures
        s3_params_merged(merged, explicit, match config {
            Some(c) => Some(*c),
            None => None,
        }),
{
    let ghost given = explicit;
    let merged = S3ConnectionParams {
        endpoint: resolve_config_string(explicit.endpoint, config_text(config, 0)),
        access_key_id: resolve_config_string(explicit.access_key_id, config_text(config, 1)),
        secret_access_key: resolve_config_string(explicit.secret_access_key, config_text(config, 2)),
        session_token: resolve_config_string(explicit.session_token, config_text(config, 3)),
        region: resolve_config_string(explicit.region, config_text(config, 4)),
        path_style: resolve_config_bool(
            explicit.path_style,
            match config {
                Some(c) => c.path_style,
                None => None,
            },
        ),
        use_ssl: resolve_config_bool(
            explicit.use_ssl,
            match config {
                Some(c) => c.use_ssl,
                None => None,
            },
        ),
    };
    assert forall|field: u8| field < 5 implies #[trigger] opt_text(s3_text_field(merged, field)) == match config {
        Some(c) => merged_text(s3_text_field(given, field), s3_text_field(*c, field)),
        None => opt_text(s3_text_field(given, field)),
    } by {
        if field == 0 {
        } else if field == 1 {
        } else if field == 2 {
        } else if field == 3 {
        } else {
        }
    }
    merged
}

/// A value of `config.toml` as far as settings read it.
#[derive(Debug, PartialEq, Eq)]
pub enum ConfigValue {
    Text(String),
    Bool(bool),
    Other,
}

/// The `[s3]` table of `config.toml`: each setting, if present.
#[derive(Debug, Default, PartialEq, Eq)]
pub struct S3ConfigTable {
    pub endpoint: Option<ConfigValue>,
    pub access_key_id: Option<ConfigValue>,
    pub secret_access_key: Option<ConfigValue>,
    pub session_token: Option<ConfigValue>,
    pub region: Option<ConfigValue>,
    pub path_style: Option<ConfigValue>,
    pub use_ssl: Option<ConfigValue>,
}

/// What `config.toml` holds under the key `s3`.
#[derive(Debug, PartialEq, Eq)]
pub enum S3Section {
    Table(S3ConfigTable),
    NotATable,
}

/// A text setting read from the file; an explicit keyword means it is not read.
pub open spec fn text_read(given: bool, raw: Option<ConfigValue>) -> Option<Seq<char>> {
    if given {
        None
    } else {
        match raw {
            Some(ConfigValue::Text(s)) => Some(s@),
            _ => None,
        }
    }
}

/// Whether a text setting that is read holds something other than a string.
pub open spec fn text_fails(given: bool, raw: Option<ConfigValue>) -> bool {
    !given && (raw matches Some(v) && !(v is Text))
}

/// A flag read from the file; an explicit keyword means it is not read.
pub open spec fn bool_read(given: bool, raw: Option<ConfigValue>) -> Option<bool> {
    if given {
        None
    } else {
        match raw {
            Some(ConfigValue::Bool(b)) => Some(b),
            _ => None,
        }
    }
}

/// Whether a flag that is read holds something other than a boolean.
pub open spec fn bool_fails(given: bool, raw: Option<ConfigValue>) -> bool {
    !given && (raw matches Some(v) && !(v is Bool))
}

/// The first setting of the `[s3]` table, in field order, that is read and
/// has the wrong type.
pub open spec fn s3_table_error(table: S3ConfigTable, explicit: S3ConnectionParams) -> Option<ConfigError> {
    if text_fails(explicit.endpoint is Some, table.endpoint) {
        Some(ConfigError::NotAString { label: "config.toml s3.endpoint" })
    } else if text_fails(explicit.access_key_id is Some, table.access_key_id) {
        Some(ConfigError::NotAString { label: "config.toml s3.access_key_id" })
    } else if text_fails(explicit.secret_access_key is Some, table.secret_access_key) {
        Some(ConfigError::NotAString { label: "config.toml s3.secret_access_key" })
    } else if text_fails(explicit.session_token is Some, table.session_token) {
        Some(ConfigError::NotAString { label: "config.toml s3.session_token" })
    } else if text_fails(explicit.region is Some, table.region) {
        Some(ConfigError::NotAString { label: "config.toml s3.region" })
    } else if bool_fails(explicit.path_style is Some, table.path_style) {
        Some(ConfigError::NotABoolean { label: "config.toml s3.path_style" })
    } else if bool_fails(explicit.use_ssl is Some, table.use_ssl) {
        Some(ConfigError::NotABoolean { label: "config.toml s3.use_ssl" })
    } else {
        None
    }
}

/// Whether `file` holds exactly the settings read from `table`.
pub open spec fn s3_table_read(file: S3ConnectionParams, table: S3ConfigTable, explicit: S3ConnectionParams) -> bool {
    &&& opt_text(file.endpoint) == text_read(explicit.endpoint is Some, table.endpoint)
    &&& opt_text(file.access_key_id) == text_read(explicit.access_key_id is Some, table.access_key_id)
    &&& opt_text(file.secret_access_key) == text_read(
        explicit.secret_access_key is Some,
        table.secret_access_key,
    )
    &&& opt_text(file.session_token) == text_read(explicit.session_token is Some, table.session_token)
    &&& opt_text(file.region) == text_read(explicit.region is Some, table.region)
    &&& file.path_style == bool_read(explicit.path_style is Some, table.path_style)
    &&& file.use_ssl == bool_read(explicit.use_ssl is Some, table.use_ssl)
}

/// Reads an optional text setting.
pub fn optional_config_string(raw: Option<ConfigValue>, label: &'static str) -> (result: Result<
    Option<String>,
    ConfigError,
>)
    ensures
        match result {
            Ok(value) => !text_fails(false, raw) && opt_text(value) == text_read(false, raw),
            Err(error) => text_fails(false, raw) && error == ConfigError::NotAString { label },
        },
{
    match raw {
        None => Ok(None),
        Some(ConfigValue::Text(value)) => Ok(Some(value)),
        Some(_) => Err(ConfigError::NotAString { label }),
    }
}

/// Reads an optional flag.
pub fn optional_config_bool(raw: Option<ConfigValue>, label: &'static str) -> (result: Result<
    Option<bool>,
    ConfigError,
>)
    ensures
        match result {
            Ok(value) => !bool_fails(false, raw) && value == bool_read(false, raw),
            Err(error) => bool_fails(false, raw) && error == ConfigError::NotABoolean { label },
        },
{
    match raw {
        None => Ok(None),
        Some(ConfigValue::Bool(value)) => Ok(Some(value)),
        Some(_) => Err(ConfigError::NotABoolean { label }),
    }
}

/// Reads a text setting unless an explicit keyword replaces it.
pub fn optional_config_string_unless_explicit(
    raw: Option<ConfigValue>,
    is_explicit: bool,
    label: &'static str,
) -> (result: Result<Option<String>, ConfigError>)
    ensures
        match result {
            Ok(value) => !text_fails(is_explicit, raw) && opt_text(value) == text_read(
                is_explicit,
                raw,
            ),
            Err(error) => text_fails(is_explicit, raw) && error == ConfigError::NotAString { label },
        },
{
    if is_explicit {
        return Ok(None);
    }
    optional_config_string(raw, label)
}

/// Reads a flag unless an explicit keyword replaces it.
pub fn optional_config_bool_unless_explicit(
    raw: Option<ConfigValue>,
    is_explicit: bool,
    label: &'static str,
) -> (result: Result<Option<bool>, ConfigError>)
    ensures
        match result {
            Ok(value) => !bool_fails(is_explicit, raw) && value == bool_read(is_explicit, raw),
            Err(error) => bool_fails(is_explicit, raw) && error == ConfigError::NotABoolean { label },
        },
{
    if is_explicit {
        return Ok(None);
    }
    optional_config_bool(raw, label)
}

/// Reads the S3 settings of `config.toml` that no explicit keyword replaces.
pub fn extract_s3_config(section: Option<S3Section>, explicit: &S3ConnectionParams) -> (result: Result<
    Option<S3ConnectionParams>,
    ConfigError,
>)
    ensures
        match section {
            None => result matches Ok(None),
            Some(S3Section::NotATable) => result == Err::<Option<S3ConnectionParams>, ConfigError>(
                ConfigError::S3NotATable,
            ),
            Some(S3Section::Table(table)) => match s3_table_error(table, *explicit) {
                Some(error) => result == Err::<Option<S3ConnectionParams>, ConfigError>(error),
                None => result matches Ok(Some(file)) && s3_table_read(file, table, *explicit),
            },
        },
{
    let table = match section {
        None => return Ok(None),
        Some(S3Section::NotATable) => return Err(ConfigError::S3NotATable),
        Some(S3Section::Table(table)) => table,
    };
    let ghost t = table;
    let endpoint = optional_config_string_unless_explicit(
        table.endpoint,
        explicit.endpoint.is_some(),
        "config.toml s3.endpoint",
    )?;
    let access_key_id = optional_config_string_unless_explicit(
        table.access_key_id,
        explicit.access_key_id.is_some(),
        "config.toml s3.access_key_id",
    )?;
    let secret_access_key = optional_config_string_unless_explicit(
        table.secret_access_key,
        explicit.secret_access_key.is_some(),
        "config.toml s3.secret_access_key",
    )?;
    let session_token = optional_config_string_unless_explicit(
        table.session_token,
        explicit.session_token.is_some(),
        "config.toml s3.session_token",
    )?;
    let region = optional_config_string_unless_explicit(
        table.region,
        explicit.region.is_some(),
        "config.toml s3.region",
    )?;
    let path_style = optional_config_bool_unless_explicit(
        table.path_style,
        explicit.path_style.is_some(),
        "config.toml s3.path_style",
    )?;
    let use_ssl = optional_config_bool_unless_explicit(
        table.use_ssl,
        explicit.use_ssl.is_some(),
        "config.toml s3.use_ssl",
    )?;
    Ok(
        Some(
            S3ConnectionParams {
                endpoint,
                access_key_id,
                secret_access_key,
                session_token,
                region,
                path_style,
                use_ssl,
            },
        ),
    )
}

/// The data path to open: the explicit argument, else `data_path` from
/// `config.toml`, which must then be a string.
pub fn resolve_data_path(data_path: Option<String>, configured: Option<ConfigValue>) -> (result: Result<
    Option<String>,
    ConfigError,
>)
    ensures
        match data_path {
            Some(path) => result matches Ok(Some(p)) && p@ == path@,
            None => match result {
                Ok(value) => !text_fails(false, configured) && opt_text(value) == text_read(
                    false,
                    configured,
                ),
                Err(error) => text_fails(false, configured) && error == ConfigError::NotAString {
                    label: "config.toml data_path",
                },
            },
        },
{
    match data_path {
        Some(path) => Ok(Some(path)),
        None => optional_config_string(configured, "config.toml data_path"),
    }
}

/// Whether a path is written as a URI (`scheme://...`).
pub open spec fn is_uri(path: Seq<char>) -> bool {
    has_infix(path, "://"@)
}

pub fn is_uri_path(path: &str) -> (uri: bool)
    ensures
        uri == is_uri(path@),
{
    text_contains(path, "://")
}

/// Whether a data path is a URI of a scheme other than `s3`.
pub fn is_unsupported_data_uri_path(path: &str) -> (unsupported: bool)
    ensures
        unsupported == (is_uri(path@) && !is_s3_path(path@)),
{
    text_contains(path, "://") && !text_starts_with(path, "s3://")
}

/// An optional S3 setting: absent stays absent; present must not be blank.
pub fn optional_s3_string(value: Option<String>, name: &'static str) -> (result: Result<Option<String>, ConfigError>)
    ensures
        match value {
            None => result matches Ok(None),
            Some(v) => if is_blank(v@) {
                result == Err::<Option<String>, ConfigError>(ConfigError::EmptyS3Setting { name })
            } else {
                result matches Ok(Some(r)) && r@ == v@
            },
        },
{
    match value {
        None => Ok(None),
        Some(v) => {
            if text_is_blank(v.as_str()) {
                Err(ConfigError::EmptyS3Setting { name })
            } else {
                Ok(Some(v))
            }
        },
    }
}

/// A required S3 setting: it must be present and not blank.
pub fn required_s3_string(value: Option<String>, name: &'static str) -> (result: Result<String, ConfigError>)
    ensures
        match value {
            None => result == Err::<String, ConfigError>(ConfigError::MissingS3Setting { name }),
            Some(v) => if is_blank(v@) {
                result == Err::<String, ConfigError>(ConfigError::EmptyS3Setting { name })
            } else {
                result matches Ok(r) && r@ == v@
            },
        },
{
    match optional_s3_string(value, name) {
        Ok(Some(v)) => Ok(v),
        Ok(None) => Err(ConfigError::MissingS3Setting { name }),
        Err(error) => Err(error),
    }
}

/// Whether an optional setting passes the required/optional rules.
pub open spec fn s3_text_ok(value: Option<String>, required: bool) -> bool {
    match value {
        Some(v) => !is_blank(v@),
        None => !required,
    }
}

/// The first S3 setting, in the order endpoint, access key id, secret access
/// key, session token, region, that breaks its rule; each error names it.
pub open spec fn s3_first_error(params: S3ConnectionParams) -> Option<ConfigError> {
    if !s3_text_ok(params.endpoint, true) {
        Some(s3_setting_error(params.endpoint, "s3_endpoint"))
    } else if !s3_text_ok(params.access_key_id, true) {
        Some(s3_setting_error(params.access_key_id, "s3_access_key_id"))
    } else if !s3_text_ok(params.secret_access_key, true) {
        Some(s3_setting_error(params.secret_access_key, "s3_secret_access_key"))
    } else if !s3_text_ok(params.session_token, false) {
        Some(s3_setting_error(params.session_token, "s3_session_token"))
    } else if !s3_text_ok(params.region, false) {
        Some(s3_setting_error(params.region, "s3_region"))
    } else {
        None
    }
}

/// The error of a setting that breaks its rule: missing or blank.
pub open spec fn s3_setting_error(value: Option<String>, name: &'static str) -> ConfigError {
    match value {
        Some(_) => ConfigError::EmptyS3Setting { name },
        None => ConfigError::MissingS3Setting { name },
    }
}

/// Whether a validated S3 configuration carries each setting unchanged.
pub open spec fn s3_config_carries(config: S3ConnectionConfig, params: S3ConnectionParams) -> bool {
    &&& Some(config.endpoint@) == opt_text(params.endpoint)
    &&& Some(config.access_key_id@) == opt_text(params.access_key_id)
    &&& Some(config.secret_access_key@) == opt_text(params.secret_access_key)
    &&& opt_text(config.session_token) == opt_text(params.session_token)
    &&& opt_text(config.region) == opt_text(params.region)
    &&& config.path_style == params.path_style
    &&& config.use_ssl == params.use_ssl
}

/// Validates S3 settings; they are only read when the data path is on S3.
pub fn validate_s3_connection_config(data_path: Option<&str>, params: S3ConnectionParams) -> (result: Result<Option<S3ConnectionConfig>, ConfigError>)
    ensures
        match data_path {
            Some(path) if is_s3_path(path@) => match s3_first_error(params) {
                Some(error) => result == Err::<Option<S3ConnectionConfig>, ConfigError>(error),
                None => result matches Ok(Some(config)) && s3_config_carries(config, params),
            },
            _ => result matches Ok(None),
        },
{
    let s3 = match data_path {
        Some(path) => is_s3_data_path(path),
        None => false,
    };
    if !s3 {
        return Ok(None);
    }
    let endpoint = required_s3_string(params.endpoint, "s3_endpoint")?;
    let access_key_id = required_s3_string(params.access_key_id, "s3_access_key_id")?;
    let secret_access_key = required_s3_string(params.secret_access_key, "s3_secret_access_key")?;
    let session_token = optional_s3_string(params.session_token, "s3_session_token")?;
    let region = optional_s3_string(params.region, "s3_region")?;
    Ok(Some(S3ConnectionConfig::new(
        endpoint,
        access_key_id,
        secret_access_key,
        session_token,
        region,
        params.path_style,
        params.use_ssl,
    )))
}

/// The first check of an init configuration that fails, if any: the queue
/// capacity range, the catalog backend name, the data path scheme, the
/// catalog path being local, then the S3 settings. An unknown backend has no
/// entry here: its error carries the name given, which `validate_init_config`
/// states on its own.
pub open spec fn init_config_error(
    data_path: Option<Seq<char>>,
    catalog_backend: Seq<char>,
    catalog_path: Option<Seq<char>>,
    metric_queue_capacity: i64,
    params: S3ConnectionParams,
) -> Option<ConfigError> {
    if !(1 <= metric_queue_capacity && metric_queue_capacity <= MAX_METRIC_QUEUE_CAPACITY) {
        Some(ConfigError::QueueCapacityOutOfRange)
    } else if backend_named(catalog_backend) is None {
        None
    } else if data_path matches Some(p) && is_uri(p) && !is_s3_path(p) {
        Some(ConfigError::UnsupportedDataUri)
    } else if catalog_path matches Some(p) && is_uri(p) {
        Some(ConfigError::CatalogPathNotLocal)
    } else if data_path matches Some(p) && is_s3_path(p) {
        s3_first_error(params)
    } else {
        None
    }
}

/// Validates the configuration `pulseon.init` receives and returns the
/// backend, queue capacity and S3 settings it opens the store with.
pub fn validate_init_config(
    data_path: Option<&str>,
    catalog_backend: &str,
    catalog_path: Option<&str>,
    metric_queue_capacity: i64,
    params: S3ConnectionParams,
) -> (result: Result<(CatalogBackend, usize, Option<S3ConnectionConfig>), ConfigError>)
    ensures
        !(1 <= metric_queue_capacity && metric_queue_capacity <= MAX_METRIC_QUEUE_CAPACITY) ==> result == Err::<(CatalogBackend, usize, Option<S3ConnectionConfig>), ConfigError>(ConfigError::QueueCapacityOutOfRange),
        (1 <= metric_queue_capacity && metric_queue_capacity <= MAX_METRIC_QUEUE_CAPACITY) && backend_named(catalog_backend@) is None ==> (result matches Err(ConfigError::UnsupportedCatalogBackend { name }) && name@ == catalog_backend@),
        (1 <= metric_queue_capacity && metric_queue_capacity <= MAX_METRIC_QUEUE_CAPACITY) && backend_named(catalog_backend@) is Some ==> match init_config_error(opt_str(data_path), catalog_backend@, opt_str(catalog_path), metric_queue_capacity, params) {
            Some(error) => result == Err::<(CatalogBackend, usize, Option<S3ConnectionConfig>), ConfigError>(error),
            None => result matches Ok((backend, capacity, s3)) && Some(backend) == backend_named(catalog_backend@) && capacity == metric_queue_capacity && (if data_path matches Some(p) && is_s3_path(p@) {
                s3 matches Some(config) && s3_config_carries(config, params)
            } else {
                s3 is None
            }),
        },
{
    if !(1 <= metric_queue_capacity && metric_queue_capacity <= MAX_METRIC_QUEUE_CAPACITY) {
        return Err(ConfigError::QueueCapacityOutOfRange);
    }
    let backend = match CatalogBackend::from_name(catalog_backend) {
        Some(backend) => backend,
        None => {
            return Err(ConfigError::UnsupportedCatalogBackend { name: catalog_backend.to_owned() });
        },
    };
    match data_path {
        Some(path) => if is_unsupported_data_uri_path(path) {
            return Err(ConfigError::UnsupportedDataUri);
        },
        None => {},
    }
    match catalog_path {
        Some(path) => if is_uri_path(path) {
            return Err(ConfigError::CatalogPathNotLocal);
        },
        None => {},
    }
    let capacity = metric_queue_capacity as usize;
    let s3 = validate_s3_connection_config(data_path, params)?;
    Ok((backend, capacity, s3))
}

} // verus!
