//! Store providers for `rgw://` and `sal://` URLs: where in a URL the bucket
//! and the object path stand, how a store is keyed, and how a store is
//! configured.

use vstd::prelude::*;

use crate::error::{ErrorKind, StoreError};
use crate::location::ParsedUrl;
use crate::path::{parse_object_path, path_parse_error_text, path_parse, trim_leading_slashes};
use crate::store::RGWObjectStore;

verus! {

/// Block size of a store on local storage.
pub const DEFAULT_LOCAL_BLOCK_SIZE: usize = 4096;
/// Block size of a store on cloud storage.
pub const DEFAULT_CLOUD_BLOCK_SIZE: usize = 65536;
/// I/O parallelism of a store on cloud storage.
pub const DEFAULT_CLOUD_IO_PARALLELISM: usize = 64;

/// Drops every leading `/` of `s`.
pub fn trim_start_slashes(s: &str) -> (r: &str)
    ensures
        r@ == trim_leading_slashes(s@),
{
    let n = s.unicode_len();
    let mut i: usize = 0;
    assert(s@.subrange(0, n as int) =~= s@);
    while i < n && s.get_char(i) == '/'
        invariant
            n == s@.len(),
            i <= n,
            trim_leading_slashes(s@) == trim_leading_slashes(s@.subrange(i as int, n as int)),
        decreases n - i,
    {
        proof {
            let rest = s@.subrange(i as int, n as int);
            assert(rest.drop_first() =~= s@.subrange(i + 1, n as int));
        }
        i = i + 1;
    }
    proof {
        assert(s@.subrange(0, n as int) =~= s@);
    }
    s.substring_char(i, n)
}

/// The object path that a URL names: its path without leading `/`, parsed
/// as an object path (`None` where that fails).
pub open spec fn url_object_path(url: (Seq<char>, Seq<char>, Option<Seq<char>>, Seq<char>, Seq<char>)) -> Option<Seq<char>> {
    path_parse(trim_leading_slashes(url.4))
}

/// The key of the store that an `rgw://` URL names: `rgw$` and the bucket
/// (the URL's host); `None` for a URL without a host.
pub open spec fn rgw_store_prefix(url: (Seq<char>, Seq<char>, Option<Seq<char>>, Seq<char>, Seq<char>)) -> Option<Seq<char>> {
    match url.2 {
        Some(bucket) => Some("rgw$"@ + bucket),
        None => None,
    }
}

/// The text of the error for an `rgw://` URL without a bucket.
pub open spec fn rgw_missing_bucket_text(url: (Seq<char>, Seq<char>, Option<Seq<char>>, Seq<char>, Seq<char>)) -> Seq<char> {
    "RGW URL must contain bucket name: "@ + url.0
}

/// The key of the store that a `sal://` URL names: its scheme, `$` and its
/// authority.
pub open spec fn sal_store_prefix(url: (Seq<char>, Seq<char>, Option<Seq<char>>, Seq<char>, Seq<char>)) -> Seq<char> {
    url.1 + "$"@ + url.3
}

/// The RGW store provider: it holds the addresses of a ready RGW driver and
/// of its `DoutPrefixProvider` (0 for none) and makes stores for buckets.
#[derive(Debug, Clone)]
pub struct RGWStoreProvider {
    driver: usize,
    dpp: usize,
}

impl View for RGWStoreProvider {
    type V = (usize, usize);

    closed spec fn view(&self) -> (usize, usize) {
        (self.driver, self.dpp)
    }
}

/// How a store is configured.
#[derive(Debug, Clone)]
pub struct StoreParams {
    /// The block size, where the caller sets one.
    pub block_size: Option<usize>,
    /// Whether uploads use parts of a constant size.
    pub use_constant_size_upload_parts: bool,
    /// Whether listings come lexically ordered, where the caller says so.
    pub list_is_lexically_ordered: Option<bool>,
    /// Whether the caller configured an object store wrapper.
    pub has_wrapper: bool,
    /// The storage options, as key and value pairs with distinct keys.
    pub storage_options: Vec<(String, String)>,
}

/// The settings of a store that a provider makes.
#[derive(Debug, Clone)]
pub struct StoreSettings {
    pub scheme: String,
    pub block_size: usize,
    pub max_iop_size: u64,
    pub use_constant_size_upload_parts: bool,
    pub list_is_lexically_ordered: bool,
    pub io_parallelism: usize,
    pub download_retry_count: usize,
    pub store_prefix: String,
}

/// A store that the RGW provider makes: the RGW store, the key under which
/// a configured wrapper is applied to it (none without a wrapper) and the
/// settings.
#[derive(Debug, Clone)]
pub struct RgwStorePlan {
    pub store: RGWObjectStore,
    pub wrap_prefix: Option<String>,
    pub settings: StoreSettings,
}

fn rgw_prefix_text(bucket: &str) -> (p: String)
    ensures
        p@ == "rgw$"@ + bucket@,
{
    let mut p = String::from_str("rgw$");
    p.append(bucket);
    p
}

fn rgw_missing_bucket(url: &ParsedUrl) -> (e: StoreError)
    ensures
        e@ == (ErrorKind::InvalidInput, rgw_missing_bucket_text(url@)),
{
    let mut message = String::from_str("RGW URL must contain bucket name: ");
    message.append(url.serialization.as_str());
    StoreError::InvalidInput { message }
}

impl RGWStoreProvider {
    /// A provider for the driver at address `driver` and the
    /// `DoutPrefixProvider` at `dpp` (0 for none).
    pub fn new(driver: usize, dpp: usize) -> (p: Self)
        ensures
            p@ == (driver, dpp),
    {
        RGWStoreProvider { driver, dpp }
    }

    /// The address of the driver.
    pub fn driver(&self) -> (d: usize)
        ensures
            d == self@.0,
    {
        self.driver
    }

    /// The address of the `DoutPrefixProvider`.
    pub fn dpp(&self) -> (d: usize)
        ensures
            d == self@.1,
    {
        self.dpp
    }

    /// The path of the object that `url` names, relative to the bucket:
    /// `rgw://bucket/path/to/file` gives `path/to/file`. Fails where the
    /// path is no valid object path.
    pub fn extract_path(&self, url: &ParsedUrl) -> (r: Result<String, StoreError>)
        ensures
            match url_object_path(url@) {
                Some(p) => r matches Ok(q) && q@ == p,
                None => r matches Err(e) && e@ == (
                    ErrorKind::InvalidInput,
                    "Invalid path in RGW URL '"@ + url@.0 + "': "@ + path_parse_error_text(
                        trim_leading_slashes(url@.4),
                    ),
                ),
            },
    {
        let path_str = trim_start_slashes(url.path.as_str());
        match parse_object_path(path_str) {
            Ok(p) => Ok(p),
            Err((_, reason)) => {
                let mut message = String::from_str("Invalid path in RGW URL '");
                message.append(url.serialization.as_str());
                message.append("': ");
                message.append(reason.as_str());
                Err(StoreError::InvalidInput { message })
            },
        }
    }

    /// The key of the store for `url`: `rgw$` and the bucket. Fails for a
    /// URL without a bucket. The storage options play no part.
    pub fn calculate_object_store_prefix(
        &self,
        url: &ParsedUrl,
        storage_options: Option<&std::collections::HashMap<String, String>>,
    ) -> (r: Result<String, StoreError>)
        ensures
            match rgw_store_prefix(url@) {
                Some(p) => r matches Ok(q) && q@ == p,
                None => r matches Err(e) && e@ == (ErrorKind::InvalidInput, rgw_missing_bucket_text(url@)),
            },
    {
        match &url.host {
            Some(bucket) => Ok(rgw_prefix_text(bucket.as_str())),
            None => Err(rgw_missing_bucket(url)),
        }
    }

    /// The store for `url`: an RGW store for its bucket through this
    /// provider's driver, keyed `rgw$<bucket>`, with the block size and
    /// listing order the parameters set (else 4 KiB and lexical order).
    /// Fails for a URL without a bucket.
    pub fn new_store(
        &self,
        url: &ParsedUrl,
        params: &StoreParams,
        max_iop_size: u64,
        download_retry_count: usize,
    ) -> (r: Result<RgwStorePlan, StoreError>)
        ensures
            match url@.2 {
                None => r matches Err(e) && e@ == (ErrorKind::InvalidInput, rgw_missing_bucket_text(url@)),
                Some(bucket) => r matches Ok(plan) && {
                    &&& plan.store@ == (bucket, self@.0, self@.1)
                    &&& crate::text::opt_text(plan.wrap_prefix) == (if params.has_wrapper {
                        Some("rgw$"@ + bucket)
                    } else {
                        None
                    })
                    &&& plan.settings.scheme@ == "rgw"@
                    &&& plan.settings.block_size == (match params.block_size {
                        Some(b) => b,
                        None => DEFAULT_LOCAL_BLOCK_SIZE,
                    })
                    &&& plan.settings.max_iop_size == max_iop_size
                    &&& plan.settings.use_constant_size_upload_parts == params.use_constant_size_upload_parts
                    &&& plan.settings.list_is_lexically_ordered == (match params.list_is_lexically_ordered {
                        Some(b) => b,
                        None => true,
                    })
                    &&& plan.settings.io_parallelism == DEFAULT_CLOUD_IO_PARALLELISM
                    &&& plan.settings.download_retry_count == download_retry_count
                    &&& plan.settings.store_prefix@ == "rgw$"@ + bucket
                },
            },
    {
        let bucket = match &url.host {
            Some(b) => b,
            None => {
                return Err(rgw_missing_bucket(url));
            },
        };
        let store = RGWObjectStore::new(bucket.clone(), self.driver, self.dpp);
        let wrap_prefix = if params.has_wrapper {
            Some(rgw_prefix_text(bucket.as_str()))
        } else {
            None
        };
        let block_size = match params.block_size {
            Some(b) => b,
            None => DEFAULT_LOCAL_BLOCK_SIZE,
        };
        let list_is_lexically_ordered = match params.list_is_lexically_ordered {
            Some(b) => b,
            None => true,
        };
        let settings = StoreSettings {
            scheme: String::from_str("rgw"),
            block_size,
            max_iop_size,
            use_constant_size_upload_parts: params.use_constant_size_upload_parts,
            list_is_lexically_ordered,
            io_parallelism: DEFAULT_CLOUD_IO_PARALLELISM,
            download_retry_count,
            store_prefix: rgw_prefix_text(bucket.as_str()),
        };
        Ok(RgwStorePlan { store, wrap_prefix, settings })
    }
}


/// No two storage options have the same key.
pub open spec fn distinct_option_keys(options: Seq<(String, String)>) -> bool {
    forall|i: int, j: int|
        0 <= i < j < options.len() ==> #[trigger] options[i].0@ != #[trigger] options[j].0@
}

/// The value that the storage options give `key`: that of the first pair
/// with this key, or `None` where no pair has it.
pub open spec fn option_value(options: Seq<(String, String)>, key: Seq<char>) -> Option<Seq<char>>
    decreases options.len(),
{
    if options.len() == 0 {
        None
    } else if options[0].0@ == key {
        Some(options[0].1@)
    } else {
        option_value(options.drop_first(), key)
    }
}

/// Looks up `key` in the storage options.
pub fn storage_option(options: &Vec<(String, String)>, key: &str) -> (r: Option<String>)
    ensures
        crate::text::opt_text(r) == option_value(options@, key@),
{
    let wanted = String::from_str(key);
    let n = options.len();
    let mut i: usize = 0;
    assert(options@.subrange(0, n as int) =~= options@);
    while i < n
        invariant
            n == options@.len(),
            i <= n,
            wanted@ == key@,
            option_value(options@, key@) == option_value(options@.subrange(i as int, n as int), key@),
        decreases n - i,
    {
        proof {
            let rest = options@.subrange(i as int, n as int);
            assert(rest.drop_first() =~= options@.subrange(i + 1, n as int));
            assert(rest[0] == options@[i as int]);
        }
        if options[i].0 == wanted {
            return Some(options[i].1.clone());
        }
        i = i + 1;
    }
    None
}

/// A store that the SAL provider makes: the bucket, the retry settings, the
/// Ceph settings that the storage options give, and the store's settings.
#[derive(Debug, Clone)]
pub struct SalStorePlan {
    pub bucket: String,
    pub max_retries: usize,
    pub retry_timeout_secs: u64,
    pub cluster_name: Option<String>,
    pub user_name: Option<String>,
    pub conf_file: Option<String>,
    pub settings: StoreSettings,
}

/// The SAL store provider.
#[derive(Debug)]
pub struct SalStoreProvider;

impl Default for SalStoreProvider {
    fn default() -> (p: Self)
        ensures
            p == SalStoreProvider,
    {
        SalStoreProvider
    }
}

fn sal_prefix_text(url: &ParsedUrl) -> (p: String)
    ensures
        p@ == sal_store_prefix(url@),
{
    let mut p = String::from_str(url.scheme.as_str());
    p.append("$");
    p.append(url.authority.as_str());
    p
}

impl SalStoreProvider {
    /// The path of the object that `url` names, relative to the bucket:
    /// `sal://bucket/path/to/file` gives `path/to/file`. Fails where the
    /// path is no valid object path.
    pub fn extract_path(&self, url: &ParsedUrl) -> (r: Result<String, StoreError>)
        ensures
            match url_object_path(url@) {
                Some(p) => r matches Ok(q) && q@ == p,
                None => r matches Err(e) && e@ == (ErrorKind::InvalidInput, "Invalid path in SAL URL: "@ + url@.4),
            },
    {
        let path_str = trim_start_slashes(url.path.as_str());
        match parse_object_path(path_str) {
            Ok(p) => Ok(p),
            Err(_) => {
                let mut message = String::from_str("Invalid path in SAL URL: ");
                message.append(url.path.as_str());
                Err(StoreError::InvalidInput { message })
            },
        }
    }

    /// The key of the store for `url`: its scheme, `$` and its authority.
    /// The storage options play no part.
    pub fn calculate_object_store_prefix(
        &self,
        url: &ParsedUrl,
        storage_options: Option<&std::collections::HashMap<String, String>>,
    ) -> (r: Result<String, StoreError>)
        ensures
            r matches Ok(p) && p@ == sal_store_prefix(url@),
    {
        Ok(sal_prefix_text(url))
    }

    /// The store for `url`: a SAL store for its bucket with the retry
    /// settings given and the Ceph cluster, user and configuration file that
    /// the storage options `cluster_name`, `user_name` and `conf_file` set,
    /// keyed as `calculate_object_store_prefix` says, with the block size
    /// the parameters set (else 64 KiB). Fails for a URL without a bucket.
    pub fn new_store(
        &self,
        url: &ParsedUrl,
        params: &StoreParams,
        max_retries: usize,
        retry_timeout_secs: u64,
        max_iop_size: u64,
        download_retry_count: usize,
    ) -> (r: Result<SalStorePlan, StoreError>)
        requires
            distinct_option_keys(params.storage_options@),
        ensures
            match url@.2 {
                None => r matches Err(e) && e@ == (
                    ErrorKind::InvalidInput,
                    "SAL URL must contain bucket name (sal://bucket/path)"@,
                ),
                Some(bucket) => r matches Ok(plan) && {
                    &&& plan.bucket@ == bucket
                    &&& plan.max_retries == max_retries
                    &&& plan.retry_timeout_secs == retry_timeout_secs
                    &&& crate::text::opt_text(plan.cluster_name) == option_value(params.storage_options@, "cluster_name"@)
                    &&& crate::text::opt_text(plan.user_name) == option_value(params.storage_options@, "user_name"@)
                    &&& crate::text::opt_text(plan.conf_file) == option_value(params.storage_options@, "conf_file"@)
                    &&& plan.settings.scheme@ == "sal"@
                    &&& plan.settings.block_size == (match params.block_size {
                        Some(b) => b,
                        None => DEFAULT_CLOUD_BLOCK_SIZE,
                    })
                    &&& plan.settings.max_iop_size == max_iop_size
                    &&& !plan.settings.use_constant_size_upload_parts
                    &&& plan.settings.list_is_lexically_ordered
                    &&& plan.settings.io_parallelism == DEFAULT_CLOUD_IO_PARALLELISM
                    &&& plan.settings.download_retry_count == download_retry_count
                    &&& plan.settings.store_prefix@ == sal_store_prefix(url@)
                },
            },
    {
        let bucket = match &url.host {
            Some(b) => b.clone(),
            None => {
                let message = String::from_str("SAL URL must contain bucket name (sal://bucket/path)");
                return Err(StoreError::InvalidInput { message });
            },
        };
        let cluster_name = storage_option(&params.storage_options, "cluster_name");
        let user_name = storage_option(&params.storage_options, "user_name");
        let conf_file = storage_option(&params.storage_options, "conf_file");
        let block_size = match params.block_size {
            Some(b) => b,
            None => DEFAULT_CLOUD_BLOCK_SIZE,
        };
        let settings = StoreSettings {
            scheme: String::from_str("sal"),
            block_size,
            max_iop_size,
            use_constant_size_upload_parts: false,
            list_is_lexically_ordered: true,
            io_parallelism: DEFAULT_CLOUD_IO_PARALLELISM,
            download_retry_count,
            store_prefix: sal_prefix_text(url),
        };
        Ok(SalStorePlan {
            bucket,
            max_retries,
            retry_timeout_secs,
            cluster_name,
            user_name,
            conf_file,
            settings,
        })
    }
}

} // verus!
