//! Default values and limits used by the metadata model and the validator.

use vstd::prelude::*;

verus! {

/// Default memory cap of a module, in megabytes.
pub const DEFAULT_MEMORY_LIMIT_MB: u64 = 128;

/// Default CPU cap of a module, in percent.
pub const DEFAULT_CPU_LIMIT_PERCENT: u8 = 50;

/// Default execution timeout of a module, in seconds.
pub const DEFAULT_TIMEOUT_SECONDS: u64 = 30;

/// Age in seconds beyond which a signature is no longer fresh (365 days).
pub const SIGNATURE_EXPIRY_SECONDS: u64 = 31_536_000;

/// The only signature algorithm the validator accepts.
pub const DEFAULT_SIGNATURE_ALGORITHM: &'static str = "SHA256-RSA";

/// Longest module name the data model provides for, in characters.
pub const MAX_MODULE_NAME_LENGTH: usize = 256;

/// Longest module type label the data model provides for, in characters.
pub const MAX_MODULE_TYPE_LENGTH: usize = 128;

/// Longest file path the data model provides for, in characters.
pub const MAX_PATH_LENGTH: usize = 4096;

/// The paths a default sandbox denies, in order.
pub open spec fn default_denied_paths_view() -> Seq<Seq<char>> {
    seq!["/etc"@, "/usr/bin"@, "/bin"@]
}

/// Builds the list of paths a default sandbox denies.
pub fn default_denied_paths() -> (paths: Vec<String>)
    ensures
        paths@.len() == 3,
        paths@.map_values(|s: String| s@) == default_denied_paths_view(),
{
    let mut paths: Vec<String> = Vec::new();
    paths.push("/etc".to_string());
    paths.push("/usr/bin".to_string());
    paths.push("/bin".to_string());
    paths
}

} // verus!
