use vstd::prelude::*;

use crate::engine::bootstrap::{
    default_catalog_path, default_data_path, is_s3_data_path, is_s3_path, CatalogBackend,
    NativeStorageConfig,
};

verus! {

/// Failures while opening an existing viewer source.
#[derive(Debug, PartialEq, Eq)]
pub enum SourceError {
    UnsupportedS3,
    Config { message: String },
    Storage { message: String },
}

/// Refuses S3 data paths before any credential is resolved: the viewer only
/// reads local stores.
pub fn check_viewer_data_path(data_path: Option<&str>) -> (result: Result<(), SourceError>)
    ensures
        match data_path {
            Some(path) if is_s3_path(path@) => result == Err::<(), SourceError>(SourceError::UnsupportedS3),
            _ => result is Ok,
        },
{
    match data_path {
        Some(path) => if is_s3_data_path(path) {
            Err(SourceError::UnsupportedS3)
        } else {
            Ok(())
        },
        None => Ok(()),
    }
}

/// The storage configuration the viewer opens an existing store with, once
/// the project configuration is resolved: S3 data paths are refused; local
/// paths default to their places inside `.pulseon`, and no S3 settings are
/// passed on.
pub fn existing_store_config(
    root_path: &str,
    catalog_backend: CatalogBackend,
    catalog_path: Option<String>,
    data_path: Option<String>,
) -> (result: Result<NativeStorageConfig, SourceError>)
    ensures
        match data_path {
            Some(path) if is_s3_path(path@) => result == Err::<NativeStorageConfig, SourceError>(
                SourceError::UnsupportedS3,
            ),
            _ => result matches Ok(config) && {
                &&& config.catalog_backend == catalog_backend
                &&& config.catalog_path@ == match catalog_path {
                    Some(p) => p@,
                    None => default_catalog_path(root_path@, catalog_backend),
                }
                &&& config.data_path@ == match data_path {
                    Some(p) => p@,
                    None => default_data_path(root_path@),
                }
                &&& config.s3_connection is None
            },
        },
{
    let checked = match &data_path {
        Some(path) => check_viewer_data_path(Some(path.as_str())),
        None => check_viewer_data_path(None),
    };
    match checked {
        Err(error) => Err(error),
        Ok(()) => Ok(
            NativeStorageConfig::with_backend_and_s3_config(
                catalog_backend,
                root_path,
                catalog_path,
                data_path,
                None,
            ),
        ),
    }
}

} // verus!
