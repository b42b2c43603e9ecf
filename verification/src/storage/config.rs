//! Upload size limits.

use vstd::prelude::*;

use crate::storage::model::StorageServiceConfig;
use crate::text::{parse_u64, parsed_u64};

verus! {

/// Default image limit: 20 MiB.
pub const DEFAULT_MAX_IMAGE_SIZE: u64 = 20971520u64;

/// Default video and generic file limit: 50 MiB.
pub const DEFAULT_MAX_FILE_SIZE: u64 = 52428800u64;

impl Default for StorageServiceConfig {
    fn default() -> (c: StorageServiceConfig)
        ensures
            c.max_image_size == DEFAULT_MAX_IMAGE_SIZE,
            c.max_video_size == DEFAULT_MAX_FILE_SIZE,
            c.max_file_size == DEFAULT_MAX_FILE_SIZE,
    {
        StorageServiceConfig {
            max_image_size: DEFAULT_MAX_IMAGE_SIZE,
            max_video_size: DEFAULT_MAX_FILE_SIZE,
            max_file_size: DEFAULT_MAX_FILE_SIZE,
        }
    }
}

/// A limit read from an environment value: the parsed number when the value is set and
/// parses as a `u64`, else the default.
pub open spec fn limit_from(value: Option<String>, default: u64) -> u64 {
    match value {
        Some(v) => match parsed_u64(v@) {
            Some(n) => n,
            None => default,
        },
        None => default,
    }
}

fn env_limit(value: Option<String>, default: u64) -> (n: u64)
    ensures
        n == limit_from(value, default),
{
    match value {
        Some(v) => match parse_u64(v.as_str()) {
            Some(n) => n,
            None => default,
        },
        None => default,
    }
}

impl StorageServiceConfig {
    /// Limits from the values of `UPLOAD_MAX_IMAGE_SIZE`, `UPLOAD_MAX_VIDEO_SIZE` and
    /// `UPLOAD_MAX_FILE_SIZE`; unset or unparsable values keep the defaults.
    pub fn from_env(image: Option<String>, video: Option<String>, file: Option<String>) -> (c: StorageServiceConfig)
        ensures
            c.max_image_size == limit_from(image, DEFAULT_MAX_IMAGE_SIZE),
            c.max_video_size == limit_from(video, DEFAULT_MAX_FILE_SIZE),
            c.max_file_size == limit_from(file, DEFAULT_MAX_FILE_SIZE),
    {
        StorageServiceConfig {
            max_image_size: env_limit(image, DEFAULT_MAX_IMAGE_SIZE),
            max_video_size: env_limit(video, DEFAULT_MAX_FILE_SIZE),
            max_file_size: env_limit(file, DEFAULT_MAX_FILE_SIZE),
        }
    }
}

} // verus!
