//! Default values and program metadata.

use vstd::prelude::*;

verus! {

/// Name of the program, as shown in notifications.
pub const PROGRAM_NAME: &'static str = "pellxd";

/// Version of the program, as shown in notifications.
pub const PROGRAM_VERSION: &'static str = "0.1.0";

/// File name of the configuration file used when none is given.
pub const CONFIG_FILENAME: &'static str = "pellxd.toml";

/// GPIO pin to which the burner's error signal is connected by default.
pub const GPIO_PIN: u8 = 24;

/// Cycle length of the dummy input source's readings by default.
pub const DUMMY_MODULUS: u32 = 30;

/// Point in the dummy input source's cycle where readings turn HIGH by default.
pub const DUMMY_THRESHOLD: u32 = 15;

/// Interval of the monitor loop by default, in nanoseconds (one second).
pub const LOOP_INTERVAL_NANOS: u64 = 1_000_000_000;

/// Time a startup has to last before it counts as successful by default,
/// in nanoseconds (eight minutes).
pub const STARTUP_WINDOW_NANOS: u64 = 480_000_000_000;

/// Exit code: the configuration file could not be loaded.
pub const EXIT_FAILED_TO_LOAD_CONFIG_FILE: u8 = 10;

/// Exit code: the configuration directory could not be resolved.
pub const EXIT_FAILED_TO_RESOLVE_CONFIG_DIRECTORY: u8 = 11;

/// Exit code: the configuration file does not exist.
pub const EXIT_CONFIG_FILE_DOES_NOT_EXIST: u8 = 12;

/// Exit code: the configuration directory was not found.
pub const EXIT_CONFIG_DIRECTORY_NOT_FOUND: u8 = 13;

/// Exit code: the configuration directory is not a directory.
pub const EXIT_CONFIG_DIRECTORY_NOT_A_DIRECTORY: u8 = 14;

/// Exit code: the configuration sanity check failed.
pub const EXIT_CONFIG_SANITY_CHECK_FAILED: u8 = 15;

/// Exit code: the configuration file could not be saved.
pub const EXIT_FAILED_TO_SAVE_CONFIG_FILE: u8 = 16;

/// Exit code: no notifiers are configured.
pub const EXIT_NO_NOTIFIERS_CONFIGURED: u8 = 20;

} // verus!
