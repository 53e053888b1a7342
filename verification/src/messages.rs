//! The error texts the commands report, and the builder that joins a fixed
//! prefix with the underlying error's own text.

use vstd::prelude::*;
use vstd::string::StringExecFns;

verus! {

/// Prefix of a failure to open a credential-store entry.
pub open spec fn keyring_err_prefix() -> Seq<char> {
    "Keyring error: "@
}

/// Prefix of a failure to read a stored value.
pub open spec fn not_found_prefix() -> Seq<char> {
    "Password not found: "@
}

/// Prefix of a failure to write a value to the credential store.
pub open spec fn store_failed_prefix() -> Seq<char> {
    "Failed to store: "@
}

/// Prefix of a failure to delete a credential-store entry.
pub open spec fn delete_failed_prefix() -> Seq<char> {
    "Failed to delete: "@
}

/// The whole message of the development-build autostart guard.
pub open spec fn dev_guard_msg() -> Seq<char> {
    "Autostart is disabled in dev builds. Use a release build or the installed app."@
}

/// The whole message reported for autostart on an unsupported platform.
pub open spec fn unsupported_platform_msg() -> Seq<char> {
    "Autostart is only supported on Windows"@
}

/// Prefix of a failure to delete the startup entry.
pub open spec fn delete_registry_prefix() -> Seq<char> {
    "Error deleting registry value: "@
}

/// The whole message reported when the main window does not exist.
pub open spec fn window_not_found_msg() -> Seq<char> {
    "Window not found"@
}

/// Joins a fixed message prefix with the underlying error's text.
pub fn prefixed(prefix: &str, detail: &str) -> (r: String)
    ensures
        r@ == prefix@ + detail@,
{
    let mut s = prefix.to_owned();
    s.append(detail);
    s
}

} // verus!
