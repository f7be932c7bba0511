//! The helper itself: its configuration, the layout of the local store, and
//! the judgement of the index download.
//!
//! Nothing here touches the filesystem or the network.  The surrounding
//! binary resolves the platform's data directory, performs the HTTP fetches
//! and creates directories; the methods of [`Aur`] decide what those steps
//! should do and what their outcomes mean.

use vstd::prelude::*;
use crate::errors::AurError;
use crate::text::decimal_of;
use crate::text::decimal_string;
use crate::text::percent_encoded;
use crate::text::url_encode;

verus! {

/// The endpoints and store names the tool works against.  Defaulted to the
/// AUR's, overridable so that a test can point the tool at a mock server.
pub struct Config {
    /// Where the full package-name index is downloaded from.
    pub index_url: String,
    /// The search endpoint; the encoded query is appended to it.
    pub search_base_url: String,
    /// Clone URLs are `<clone_base_url><package_name>.git`.
    pub clone_base_url: String,
    /// Name of the store's directory under the user-local data directory.
    pub store_root_name: String,
    /// Name of the cached index file inside the store root.
    pub index_file_name: String,
}

impl Default for Config {
    /// The AUR's real endpoints and the store layout the tool has always used.
    fn default() -> (c: Config)
        ensures
            c.index_url@ == "https://aur.archlinux.org/packages.gz"@,
            c.search_base_url@ == "https://aur.archlinux.org/rpc/?v=5&type=search&arg="@,
            c.clone_base_url@ == "https://aur.archlinux.org/"@,
            c.store_root_name@ == "midna"@,
            c.index_file_name@ == "packages_list"@,
    {
        Config {
            index_url: String::from_str("https://aur.archlinux.org/packages.gz"),
            search_base_url: String::from_str("https://aur.archlinux.org/rpc/?v=5&type=search&arg="),
            clone_base_url: String::from_str("https://aur.archlinux.org/"),
            store_root_name: String::from_str("midna"),
            index_file_name: String::from_str("packages_list"),
        }
    }
}

/// The helper.  It owns the configuration and answers, for each command,
/// what the surrounding binary should do next.
pub struct Aur {
    pub config: Config,
}

/// An HTTP status in the success range.
pub open spec fn is_success_status(status: u16) -> bool {
    200 <= status < 300
}

impl Aur {
    /// A helper with the given configuration.
    pub fn with_config(config: Config) -> (a: Aur)
        ensures
            a.config == config,
    {
        Aur { config }
    }

    /// A helper with the default configuration.
    pub fn new() -> (a: Aur)
        ensures
            a.config.index_url@ == "https://aur.archlinux.org/packages.gz"@,
            a.config.search_base_url@ == "https://aur.archlinux.org/rpc/?v=5&type=search&arg="@,
            a.config.clone_base_url@ == "https://aur.archlinux.org/"@,
            a.config.store_root_name@ == "midna"@,
            a.config.index_file_name@ == "packages_list"@,
    {
        Aur { config: Config::default() }
    }

    /// The store root: `<data_dir>/<store_root_name>`.
    pub open spec fn root_path_spec(&self, data_dir: Seq<char>) -> Seq<char> {
        data_dir + "/"@ + self.config.store_root_name@
    }

    /// A package's source directory: `<root>/<package_name>`.
    pub open spec fn package_path_spec(&self, data_dir: Seq<char>, name: Seq<char>) -> Seq<char> {
        self.root_path_spec(data_dir) + "/"@ + name
    }

    /// The cached index file: `<root>/<index_file_name>`.
    pub open spec fn index_path_spec(&self, data_dir: Seq<char>) -> Seq<char> {
        self.root_path_spec(data_dir) + "/"@ + self.config.index_file_name@
    }

    /// Path of the store root under the given data directory.
    pub fn root_path(&self, data_local_dir: &str) -> (r: String)
        ensures
            r@ == self.root_path_spec(data_local_dir@),
    {
        let mut s = String::from_str(data_local_dir);
        s.append("/");
        s.append(self.config.store_root_name.as_str());
        s
    }

    /// Path of a package's source directory.
    pub fn package_path(&self, data_local_dir: &str, package_name: &str) -> (r: String)
        ensures
            r@ == self.package_path_spec(data_local_dir@, package_name@),
    {
        let mut s = self.root_path(data_local_dir);
        s.append("/");
        s.append(package_name);
        s
    }

    /// Path of the cached package index file.
    pub fn index_path(&self, data_local_dir: &str) -> (r: String)
        ensures
            r@ == self.index_path_spec(data_local_dir@),
    {
        let mut s = self.root_path(data_local_dir);
        s.append("/");
        s.append(self.config.index_file_name.as_str());
        s
    }

    /// The store root, or `EnvironmentUnavailable` when the platform has no
    /// resolvable user-local data directory.
    pub fn get_data_dir(&self, data_local_dir: Option<&str>) -> (r: Result<String, AurError>)
        ensures
            data_local_dir matches Some(d) ==> (r matches Ok(p) && p@ == self.root_path_spec(d@)),
            data_local_dir is None ==> (r matches Err(e) && e is EnvironmentUnavailable),
    {
        match data_local_dir {
            Some(d) => Ok(self.root_path(d)),
            None => Err(AurError::EnvironmentUnavailable),
        }
    }

    /// Decide how to bootstrap the store root.  Without a data directory the
    /// whole command set is unavailable.  When the root already exists there
    /// is nothing to do — never an error.  Otherwise the returned path is the
    /// one directory to create.
    pub fn check_for_data_dir(&self, data_local_dir: Option<&str>, root_exists: bool) -> (r:
        Result<Option<String>, AurError>)
        ensures
            data_local_dir is None ==> (r matches Err(e) && e is EnvironmentUnavailable),
            root_exists ==> (data_local_dir matches Some(_) ==> (r matches Ok(a) && a is None)),
            !root_exists ==> (data_local_dir matches Some(d) ==> (r matches Ok(a) && a matches Some(
            p) && p@ == self.root_path_spec(d@))),
    {
        match data_local_dir {
            None => Err(AurError::EnvironmentUnavailable),
            Some(d) => {
                if root_exists {
                    Ok(None)
                } else {
                    Ok(Some(self.root_path(d)))
                }
            },
        }
    }

    /// Judge the creation of the store root: a failure reported by the
    /// filesystem propagates as `StorageError`, carrying its message.
    pub fn root_created(&self, result: Result<(), String>) -> (r: Result<(), AurError>)
        ensures
            result is Ok <==> r is Ok,
            result matches Err(m) ==> (r matches Err(e) && e matches AurError::StorageError {
                detail } && detail@ == m@),
    {
        match result {
            Ok(()) => Ok(()),
            Err(m) => Err(AurError::StorageError { detail: m }),
        }
    }

    /// Judge the index download.  A success status yields the body, exactly
    /// as received: it is what the caller must write, whole, over the cached
    /// index file.  Any other status is a network error.
    pub fn update_package_list(&self, status: u16, body: String) -> (r: Result<String, AurError>)
        ensures
            is_success_status(status) ==> (r matches Ok(b) && b@ == body@),
            !is_success_status(status) ==> (r matches Err(e) && e matches AurError::NetworkError {
                detail } && detail@ == "unexpected status "@ + decimal_of(status as int)),
    {
        if 200 <= status && status < 300 {
            Ok(body)
        } else {
            let mut d = String::from_str("unexpected status ");
            d.append(decimal_string(status as u64).as_str());
            Err(AurError::NetworkError { detail: d })
        }
    }

    /// The URL a search for the given package name must fetch: the search
    /// endpoint with the query percent-encoded after it.
    pub fn search_url(&self, package_name: &str) -> (r: String)
        ensures
            r@ == self.config.search_base_url@ + percent_encoded(package_name@),
    {
        let mut s = String::from_str(self.config.search_base_url.as_str());
        let q = url_encode(package_name);
        s.append(q.as_str());
        s
    }
}

} // verus!
