use vstd::prelude::*;

verus! {

/// When on, a sandbox may start inside another one.
pub const SANDBOX_TESTING: &'static str = "__SANDBOX_TESTING";

/// Set inside a running sandbox.
pub const SANDBOX_ACTIVE: &'static str = "SANDBOX_ACTIVE";

/// Set by the package manager, which then scopes write permission itself.
pub const PORTAGE_TMPDIR: &'static str = "PORTAGE_TMPDIR";

/// Receives the captured working directory.
pub const SANDBOX_WORKDIR: &'static str = "SANDBOX_WORKDIR";

/// The temporary directory.
pub const TMPDIR: &'static str = "TMPDIR";

/// The home directory.
pub const HOME: &'static str = "HOME";

/// The temporary directory used when `TMPDIR` is not set.
pub const DEFAULT_TMP_DIR: &'static str = "/tmp";

/// The enforcement library, without the platform's prefix and suffix.
pub const LIB_NAME: &'static str = "sandbox";

/// Libraries installed under this directory are found by the dynamic loader.
pub const SYSTEM_LIB_DIR: &'static str = "/usr/lib";

} // verus!
