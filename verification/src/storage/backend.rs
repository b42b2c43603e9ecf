//! How stored paths become client URLs, and the local file-system backend.

use vstd::prelude::*;

use crate::text::{chars_of, concat, starts_with, string_of};

verus! {

/// A storage backend's URL scheme. Backends resolve the URL of each stored path
/// themselves, so the service never guesses a backend from a path prefix.
pub trait StorageBackend {
    /// The URL at which `path` is served.
    spec fn url_of(&self, path: Seq<char>) -> Seq<char>;

    fn url_for(&self, path: &str) -> (url: String)
        ensures
            url@ == self.url_of(path@),
    ;
}

/// Local file-system backend: files live under `base_path`, and are served by the
/// host at `url_prefix`.
#[derive(Debug, Clone)]
pub struct LocalFs {
    pub base_path: String,
    pub url_prefix: String,
}

impl LocalFs {
    pub fn new(base_path: String, url_prefix: String) -> (fs: LocalFs)
        ensures
            fs.base_path == base_path,
            fs.url_prefix == url_prefix,
    {
        LocalFs { base_path, url_prefix }
    }
}

impl StorageBackend for LocalFs {
    /// `{url_prefix}/{path}`.
    open spec fn url_of(&self, path: Seq<char>) -> Seq<char> {
        self.url_prefix@ + "/"@ + path
    }

    fn url_for(&self, path: &str) -> (url: String) {
        let head = concat(self.url_prefix.as_str(), "/");
        concat(head.as_str(), path)
    }
}

/// Whether a path is a direct-upload object key (they start with `users/`).
pub open spec fn is_direct_key(path: Seq<char>) -> bool {
    starts_with(path, "users/"@)
}

pub fn is_direct_path(path: &str) -> (res: bool)
    ensures
        res == is_direct_key(path@),
{
    crate::text::strip_prefix(path, "users/").is_some()
}

/// Which backend of a local + optional object-store pair serves a path.
#[derive(Debug, Clone, Copy, PartialEq, Eq, Structural)]
pub enum BackendRoute {
    /// The object store holds it.
    ObjectStore,
    /// A direct-upload key, but no object store is configured.
    MissingObjectStore,
    /// The local file system holds it.
    Local,
}

/// Direct-upload keys go to the object store when there is one; everything else is local.
pub fn dual_route(path: &str, has_object_store: bool) -> (route: BackendRoute)
    ensures
        route == (if !is_direct_key(path@) {
            BackendRoute::Local
        } else if has_object_store {
            BackendRoute::ObjectStore
        } else {
            BackendRoute::MissingObjectStore
        }),
{
    if !is_direct_path(path) {
        BackendRoute::Local
    } else if has_object_store {
        BackendRoute::ObjectStore
    } else {
        BackendRoute::MissingObjectStore
    }
}

/// Object-store connection settings.
#[derive(Debug, Clone)]
pub struct OssConfig {
    pub endpoint: String,
    pub bucket: String,
    pub access_key_id: String,
    pub access_key_secret: String,
    pub region: String,
}

/// `s` with every leading copy of `p` removed (`str::trim_start_matches`).
pub open spec fn strip_all(s: Seq<char>, p: Seq<char>) -> Seq<char>
    decreases s.len(),
{
    if p.len() > 0 && starts_with(s, p) {
        strip_all(s.subrange(p.len() as int, s.len() as int), p)
    } else {
        s
    }
}

/// Public URL prefix of a bucket: `https://{bucket}.{endpoint without https://}`.
pub open spec fn oss_url_prefix_of(bucket: Seq<char>, endpoint: Seq<char>) -> Seq<char> {
    "https://"@ + bucket + "."@ + strip_all(endpoint, "https://"@)
}

/// Removes every leading copy of `https://` from `endpoint`.
pub fn strip_https(endpoint: &str) -> (res: String)
    ensures
        res@ == strip_all(endpoint@, "https://"@),
    decreases endpoint@.len(),
{
    proof {
        reveal_strlit("https://");
    }
    match crate::text::strip_prefix(endpoint, "https://") {
        Some(rest) => {
            assert(rest@.len() < endpoint@.len());
            strip_https(rest.as_str())
        },
        None => endpoint.to_owned(),
    }
}

impl OssConfig {
    /// The public URL prefix of the configured bucket.
    pub fn url_prefix(&self) -> (res: String)
        ensures
            res@ == oss_url_prefix_of(self.bucket@, self.endpoint@),
    {
        let a = concat("https://", self.bucket.as_str());
        let b = concat(a.as_str(), ".");
        concat(b.as_str(), strip_https(self.endpoint.as_str()).as_str())
    }

    /// Settings from the values of `OSS_ENDPOINT`, `OSS_BUCKET`, `OSS_ACCESS_KEY_ID`,
    /// `OSS_ACCESS_KEY_SECRET` and `OSS_REGION`: `None` unless the first four are set;
    /// the region defaults to `cn-beijing`.
    pub fn from_env(
        endpoint: Option<String>,
        bucket: Option<String>,
        access_key_id: Option<String>,
        access_key_secret: Option<String>,
        region: Option<String>,
    ) -> (res: Option<OssConfig>)
        ensures
            res is Some <==> (endpoint is Some && bucket is Some && access_key_id is Some
                && access_key_secret is Some),
            res matches Some(c) ==> c.endpoint == endpoint->0 && c.bucket == bucket->0
                && c.access_key_id == access_key_id->0 && c.access_key_secret == access_key_secret->0
                && (region matches Some(r) ==> c.region == r)
                && (region is None ==> c.region@ == "cn-beijing"@),
    {
        match (endpoint, bucket, access_key_id, access_key_secret) {
            (Some(endpoint), Some(bucket), Some(access_key_id), Some(access_key_secret)) => {
                let region = match region {
                    Some(r) => r,
                    None => "cn-beijing".to_owned(),
                };
                Some(OssConfig { endpoint, bucket, access_key_id, access_key_secret, region })
            },
            _ => None,
        }
    }
}

/// Where an object-store bucket serves its objects.
#[derive(Debug, Clone)]
pub struct OssLocation {
    pub bucket: String,
    pub endpoint: String,
    pub url_prefix: String,
}

impl OssLocation {
    /// The location of the configured bucket.
    pub fn of(config: &OssConfig) -> (l: OssLocation)
        ensures
            l.bucket == config.bucket,
            l.endpoint == config.endpoint,
            l.url_prefix@ == oss_url_prefix_of(config.bucket@, config.endpoint@),
    {
        OssLocation {
            bucket: config.bucket.clone(),
            endpoint: config.endpoint.clone(),
            url_prefix: config.url_prefix(),
        }
    }
}

impl StorageBackend for OssLocation {
    /// `{url_prefix}/{path}`.
    open spec fn url_of(&self, path: Seq<char>) -> Seq<char> {
        self.url_prefix@ + "/"@ + path
    }

    fn url_for(&self, path: &str) -> (url: String) {
        let head = concat(self.url_prefix.as_str(), "/");
        concat(head.as_str(), path)
    }
}

/// URLs of a local file system paired with an optional object store: direct-upload
/// keys are served by the object store, or by the local prefix when there is none.
#[derive(Debug, Clone)]
pub struct DualUrls {
    pub local: LocalFs,
    pub oss: Option<OssLocation>,
}

impl StorageBackend for DualUrls {
    open spec fn url_of(&self, path: Seq<char>) -> Seq<char> {
        match self.oss {
            Some(o) => if is_direct_key(path) { o.url_of(path) } else { self.local.url_of(path) },
            None => self.local.url_of(path),
        }
    }

    fn url_for(&self, path: &str) -> (url: String) {
        match dual_route(path, self.oss.is_some()) {
            BackendRoute::ObjectStore => match &self.oss {
                Some(o) => o.url_for(path),
                None => self.local.url_for(path),
            },
            BackendRoute::MissingObjectStore => self.local.url_for(path),
            BackendRoute::Local => self.local.url_for(path),
        }
    }
}

} // verus!
