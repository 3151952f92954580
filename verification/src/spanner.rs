//! ADBC option keys for the Google Cloud Spanner driver.
//!
//! They match the `adbc-spanner` driver
//! (<https://github.com/fornwall/adbc-spanner>), which is autocommit-only and
//! resolves credentials itself. The database is addressed by a single path
//! option.

use vstd::prelude::*;

verus! {

/// The Spanner database path: `projects/<p>/instances/<i>/databases/<d>`.
/// Required.
pub const DATABASE: &'static str = "adbc.spanner.database";

/// Explicit gRPC endpoint, e.g. `http://localhost:9010` for an emulator.
pub const ENDPOINT: &'static str = "adbc.spanner.endpoint";

/// `true` to connect with anonymous credentials (emulator mode). The driver
/// also detects emulator mode from the `SPANNER_EMULATOR_HOST` environment
/// variable.
pub const EMULATOR: &'static str = "adbc.spanner.emulator";

/// Path to a service-account JSON key file. Overridden by [`KEYFILE_JSON`].
/// When neither is set (and not an emulator) the driver uses Application
/// Default Credentials.
pub const KEYFILE: &'static str = "adbc.spanner.keyfile";

/// Inline service-account JSON credentials. Takes precedence over [`KEYFILE`].
pub const KEYFILE_JSON: &'static str = "adbc.spanner.keyfile_json";

} // verus!
