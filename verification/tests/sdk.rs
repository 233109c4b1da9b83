use pulseon::engine::bootstrap::CatalogBackend;
use pulseon::engine::error::EngineError;
use pulseon::model::run::RunStatus;
use pulseon::sdk::config::{
    extract_s3_config, is_unsupported_data_uri_path, is_uri_path, optional_s3_string,
    required_s3_string, resolve_config_bool, resolve_config_string, resolve_data_path,
    resolve_s3_connection_params, validate_init_config, validate_s3_connection_config,
    ConfigError, ConfigValue, S3ConfigTable, S3ConnectionParams, S3Section,
};
use pulseon::sdk::errors::{exception_kind, status_as_string, ExceptionKind};

fn full_s3() -> S3ConnectionParams {
    S3ConnectionParams {
        endpoint: Some("minio:9000".to_owned()),
        access_key_id: Some("key".to_owned()),
        secret_access_key: Some("SECRET-REDACTED".to_owned()),
        ..S3ConnectionParams::default()
    }
}

#[test]
fn s3_config_merges_explicit_keywords_over_file_values() {
    let config = S3ConnectionParams {
        endpoint: Some("from-config:9000".to_owned()),
        access_key_id: Some("from-config".to_owned()),
        secret_access_key: Some("from-config-secret".to_owned()),
        path_style: Some(false),
        use_ssl: Some(true),
        ..S3ConnectionParams::default()
    };

    let merged = resolve_s3_connection_params(
        S3ConnectionParams {
            endpoint: Some("override:9000".to_owned()),
            access_key_id: None,
            secret_access_key: None,
            session_token: None,
            region: None,
            path_style: Some(true),
            use_ssl: None,
        },
        Some(&config),
    );

    assert_eq!(merged.endpoint.as_deref(), Some("override:9000"));
    assert_eq!(merged.access_key_id.as_deref(), Some("from-config"));
    assert_eq!(
        merged.secret_access_key.as_deref(),
        Some("from-config-secret")
    );
    assert_eq!(merged.path_style, Some(true));
    assert_eq!(merged.use_ssl, Some(true));
}

#[test]
fn explicit_settings_win_over_configured_ones() {
    assert_eq!(resolve_config_string(Some("a".to_owned()), Some("b")), Some("a".to_owned()));
    assert_eq!(resolve_config_string(None, Some("b")), Some("b".to_owned()));
    assert_eq!(resolve_config_string(None, None), None);
    assert_eq!(resolve_config_bool(Some(false), Some(true)), Some(false));
    assert_eq!(resolve_config_bool(None, Some(true)), Some(true));
    assert_eq!(resolve_s3_connection_params(full_s3(), None), full_s3());
}

#[test]
fn s3_settings_are_only_checked_for_s3_data_paths() {
    assert_eq!(validate_s3_connection_config(Some("/data"), S3ConnectionParams::default()), Ok(None));
    assert_eq!(validate_s3_connection_config(None, S3ConnectionParams::default()), Ok(None));
    assert_eq!(
        validate_s3_connection_config(Some("s3://b/d"), S3ConnectionParams::default()),
        Err(ConfigError::MissingS3Setting { name: "s3_endpoint" })
    );
    let mut blank_region = full_s3();
    blank_region.region = Some(" \t".to_owned());
    assert_eq!(
        validate_s3_connection_config(Some("s3://b/d"), blank_region),
        Err(ConfigError::EmptyS3Setting { name: "s3_region" })
    );
    let config = validate_s3_connection_config(Some("s3://b/d"), full_s3()).unwrap().unwrap();
    assert_eq!(config.endpoint, "minio:9000");
    assert_eq!(config.session_token, None);
}

#[test]
fn s3_strings_must_not_be_blank() {
    assert_eq!(optional_s3_string(None, "s3_region"), Ok(None));
    assert_eq!(optional_s3_string(Some("eu".to_owned()), "s3_region"), Ok(Some("eu".to_owned())));
    assert_eq!(
        optional_s3_string(Some("  ".to_owned()), "s3_region"),
        Err(ConfigError::EmptyS3Setting { name: "s3_region" })
    );
    assert_eq!(
        required_s3_string(None, "s3_endpoint"),
        Err(ConfigError::MissingS3Setting { name: "s3_endpoint" })
    );
    assert_eq!(
        ConfigError::MissingS3Setting { name: "s3_endpoint" }.message(),
        "s3_endpoint is required when data_path is s3://"
    );
    assert_eq!(
        ConfigError::EmptyS3Setting { name: "s3_region" }.message(),
        "s3_region must not be empty"
    );
}

#[test]
fn init_configuration_is_checked_in_order() {
    assert_eq!(
        validate_init_config(None, "postgres", None, 0, S3ConnectionParams::default()).err(),
        Some(ConfigError::QueueCapacityOutOfRange)
    );
    assert_eq!(
        validate_init_config(None, "postgres", None, 1_048_577, S3ConnectionParams::default()).err(),
        Some(ConfigError::QueueCapacityOutOfRange)
    );
    assert_eq!(
        validate_init_config(None, "postgres", None, 10, S3ConnectionParams::default()).err(),
        Some(ConfigError::UnsupportedCatalogBackend { name: "postgres".to_owned() })
    );
    assert_eq!(
        validate_init_config(Some("gs://b/d"), "duckdb", Some("s3://c"), 10, S3ConnectionParams::default()).err(),
        Some(ConfigError::UnsupportedDataUri)
    );
    assert_eq!(
        validate_init_config(Some("/d"), "duckdb", Some("file:///c"), 10, S3ConnectionParams::default()).err(),
        Some(ConfigError::CatalogPathNotLocal)
    );
    assert_eq!(
        validate_init_config(Some("s3://b/d"), "duckdb", None, 10, S3ConnectionParams::default()).err(),
        Some(ConfigError::MissingS3Setting { name: "s3_endpoint" })
    );
    let (backend, capacity, s3) =
        validate_init_config(Some("s3://b/d"), "sqlite", Some("/c.sqlite"), 1_048_576, full_s3()).unwrap();
    assert_eq!(backend, CatalogBackend::Sqlite);
    assert_eq!(capacity, 1_048_576);
    assert!(s3.is_some());
    let (_, _, none) = validate_init_config(Some("/d"), "duckdb", None, 1, full_s3()).unwrap();
    assert!(none.is_none());
    assert_eq!(
        ConfigError::UnsupportedCatalogBackend { name: "postgres".to_owned() }.message(),
        "unsupported catalog_backend: postgres"
    );
}

#[test]
fn uri_paths_are_recognised_by_their_scheme() {
    assert!(is_uri_path("s3://b"));
    assert!(!is_uri_path("/tmp/data"));
    assert!(is_unsupported_data_uri_path("gs://b"));
    assert!(!is_unsupported_data_uri_path("s3://b"));
    assert!(!is_unsupported_data_uri_path("relative/dir"));
}

#[test]
fn configured_s3_settings_are_read_unless_given_explicitly() {
    let table = || S3ConfigTable {
        endpoint: Some(ConfigValue::Text("file:9000".to_owned())),
        access_key_id: Some(ConfigValue::Other),
        path_style: Some(ConfigValue::Bool(true)),
        ..S3ConfigTable::default()
    };
    assert_eq!(
        extract_s3_config(Some(S3Section::Table(table())), &S3ConnectionParams::default()),
        Err(ConfigError::NotAString { label: "config.toml s3.access_key_id" })
    );
    let explicit = S3ConnectionParams {
        access_key_id: Some("k".to_owned()),
        endpoint: Some("cli:9000".to_owned()),
        ..S3ConnectionParams::default()
    };
    let file = extract_s3_config(Some(S3Section::Table(table())), &explicit).unwrap().unwrap();
    assert_eq!(file.endpoint, None);
    assert_eq!(file.access_key_id, None);
    assert_eq!(file.path_style, Some(true));
    assert_eq!(extract_s3_config(None, &explicit), Ok(None));
    assert_eq!(
        extract_s3_config(Some(S3Section::NotATable), &explicit),
        Err(ConfigError::S3NotATable)
    );
    let bad_flag = S3ConfigTable {
        use_ssl: Some(ConfigValue::Text("yes".to_owned())),
        ..S3ConfigTable::default()
    };
    let error = extract_s3_config(Some(S3Section::Table(bad_flag)), &explicit).unwrap_err();
    assert_eq!(error.message(), "config.toml s3.use_ssl must be a boolean");
}

#[test]
fn data_path_comes_from_the_argument_or_the_file() {
    assert_eq!(
        resolve_data_path(Some("/explicit".to_owned()), Some(ConfigValue::Other)),
        Ok(Some("/explicit".to_owned()))
    );
    assert_eq!(
        resolve_data_path(None, Some(ConfigValue::Text("s3://b/d".to_owned()))),
        Ok(Some("s3://b/d".to_owned()))
    );
    assert_eq!(resolve_data_path(None, None), Ok(None));
    assert_eq!(
        resolve_data_path(None, Some(ConfigValue::Bool(true))).unwrap_err().message(),
        "config.toml data_path must be a string"
    );
}

#[test]
fn engine_errors_are_raised_as_their_python_classes() {
    let cases = [
        (EngineError::RunAlreadyExists { run_id: "r".to_owned() }, ExceptionKind::RunAlreadyExists),
        (EngineError::RunAlreadyActive { run_id: "r".to_owned() }, ExceptionKind::RunAlreadyActive),
        (EngineError::RunClosed { run_id: "r".to_owned() }, ExceptionKind::RunClosed),
        (
            EngineError::InvalidRunTransition { run_id: "r".to_owned(), from: "finished", to: "failed" },
            ExceptionKind::InvalidRunState,
        ),
        (EngineError::ProjectNotFound { project_id: "p".to_owned() }, ExceptionKind::Storage),
        (EngineError::DuckDb { message: "m".to_owned() }, ExceptionKind::Storage),
        (EngineError::MetricQueryMaxPointsTooLarge { max_points: 9 }, ExceptionKind::PulseOn),
        (EngineError::MetricQueryMaxPointsTooSmall { max_points: 1 }, ExceptionKind::PulseOn),
        (EngineError::MetricQueueFull, ExceptionKind::MetricQueueFull),
        (EngineError::MetricWriterFailed { message: "m".to_owned() }, ExceptionKind::MetricWriterFailed),
        (EngineError::MetricDrainTimeout, ExceptionKind::MetricDrainTimeout),
        (EngineError::MetricFlush { message: "m".to_owned() }, ExceptionKind::MetricFlush),
        (EngineError::MetricFlushTimeout, ExceptionKind::MetricFlushTimeout),
        (EngineError::ClientClosed, ExceptionKind::ClientClosed),
        (EngineError::ConnectionLockPoisoned, ExceptionKind::PulseOn),
    ];
    for (error, kind) in cases {
        assert_eq!(exception_kind(&error), kind);
    }
}

#[test]
fn run_statuses_render_in_lower_case() {
    assert_eq!(status_as_string(RunStatus::Running), "running");
    assert_eq!(status_as_string(RunStatus::Finished), "finished");
    assert_eq!(status_as_string(RunStatus::Failed), "failed");
}

#[test]
fn init_returns_the_s3_settings_it_was_given() {
    let mut params = full_s3();
    params.session_token = Some("token".to_owned());
    params.path_style = Some(true);
    let (_, _, s3) = validate_init_config(Some("s3://b/d"), "duckdb", None, 8, params).unwrap();
    let config = s3.unwrap();
    assert_eq!(config.endpoint, "minio:9000");
    assert_eq!(config.access_key_id, "key");
    assert_eq!(config.secret_access_key, "SECRET-REDACTED");
    assert_eq!(config.session_token.as_deref(), Some("token"));
    assert_eq!(config.region, None);
    assert_eq!(config.path_style, Some(true));
    assert_eq!(config.use_ssl, None);
}
