//! The identity of the adapter that places the orders.
use crate::digest::{text_digest, text_sha256};
use crate::json::{quote, quoted};
use crate::text::{join, text_eq};
use vstd::prelude::*;

verus! {

/// The programs that a worker is made of, by their digests.
pub struct DeploymentDigests {
    pub platform_sha256: String,
    pub runner_sha256: String,
    pub launch_plist_sha256: String,
}

/// The device that an adapter drives.
pub struct AndroidDevice {
    pub adb_sha256: String,
    pub serial: String,
    pub avd_name_marker: String,
    pub package: String,
    pub tested_version: String,
    pub masked_account: String,
    pub confirmation_account_sha256: String,
    pub expected_symbol: String,
    pub expected_security_name: String,
    pub money_actions_enabled: bool,
}

/// The JSON notation of a truth value.
pub open spec fn flag_text(flag: bool) -> Seq<char> {
    if flag {
        "true"@
    } else {
        "false"@
    }
}

/// The identity of the adapter for a desktop.
pub open spec fn macos_identity_text(d: DeploymentDigests) -> Seq<char> {
    "{\"adapter\":\"MACOS\",\"launch_plist_sha256\":"@ + quoted(d.launch_plist_sha256@)
        + ",\"money_actions_enabled\":true,\"platform_sha256\":"@ + quoted(d.platform_sha256@)
        + ",\"runner_sha256\":"@ + quoted(d.runner_sha256@)
        + ",\"schema\":\"gridedge.ths-remote-execution-identity.v1\"}"@
}

/// The identity of the adapter for a desktop.
pub fn macos_identity(digests: &DeploymentDigests) -> (r: String)
    ensures
        r@ == macos_identity_text(*digests),
{
    let t = join(
        "{\"adapter\":\"MACOS\",\"launch_plist_sha256\":",
        quote(digests.launch_plist_sha256.as_str()).as_str(),
    );
    let t = join(t.as_str(), ",\"money_actions_enabled\":true,\"platform_sha256\":");
    let t = join(t.as_str(), quote(digests.platform_sha256.as_str()).as_str());
    let t = join(t.as_str(), ",\"runner_sha256\":");
    let t = join(t.as_str(), quote(digests.runner_sha256.as_str()).as_str());
    join(t.as_str(), ",\"schema\":\"gridedge.ths-remote-execution-identity.v1\"}")
}

/// The identity of the adapter for a device.
pub open spec fn android_identity_text(d: DeploymentDigests, a: AndroidDevice) -> Seq<char> {
    "{\"adapter\":\"ANDROID\",\"adb_sha256\":"@ + quoted(a.adb_sha256@)
        + ",\"avd_name_marker\":"@ + quoted(a.avd_name_marker@)
        + ",\"confirmation_account_sha256\":"@ + quoted(a.confirmation_account_sha256@)
        + ",\"expected_security_name\":"@ + quoted(a.expected_security_name@)
        + ",\"expected_symbol\":"@ + quoted(a.expected_symbol@) + ",\"launch_plist_sha256\":"@
        + quoted(d.launch_plist_sha256@) + ",\"masked_account_sha256\":"@ + quoted(
        text_digest(a.masked_account@),
    ) + ",\"money_actions_enabled\":"@ + flag_text(a.money_actions_enabled) + ",\"package\":"@
        + quoted(a.package@) + ",\"platform_sha256\":"@ + quoted(d.platform_sha256@)
        + ",\"runner_sha256\":"@ + quoted(d.runner_sha256@)
        + ",\"schema\":\"gridedge.ths-remote-execution-identity.v1\",\"serial\":"@ + quoted(
        a.serial@,
    ) + ",\"tested_version\":"@ + quoted(a.tested_version@) + "}"@
}

/// The identity of the adapter for a device.
pub fn android_identity(digests: &DeploymentDigests, device: &AndroidDevice) -> (r: String)
    ensures
        r@ == android_identity_text(*digests, *device),
{
    let t = join(
        "{\"adapter\":\"ANDROID\",\"adb_sha256\":",
        quote(device.adb_sha256.as_str()).as_str(),
    );
    let t = join(t.as_str(), ",\"avd_name_marker\":");
    let t = join(t.as_str(), quote(device.avd_name_marker.as_str()).as_str());
    let t = join(t.as_str(), ",\"confirmation_account_sha256\":");
    let t = join(t.as_str(), quote(device.confirmation_account_sha256.as_str()).as_str());
    let t = join(t.as_str(), ",\"expected_security_name\":");
    let t = join(t.as_str(), quote(device.expected_security_name.as_str()).as_str());
    let t = join(t.as_str(), ",\"expected_symbol\":");
    let t = join(t.as_str(), quote(device.expected_symbol.as_str()).as_str());
    let t = join(t.as_str(), ",\"launch_plist_sha256\":");
    let t = join(t.as_str(), quote(digests.launch_plist_sha256.as_str()).as_str());
    let t = join(t.as_str(), ",\"masked_account_sha256\":");
    let masked = text_sha256(device.masked_account.as_str());
    let t = join(t.as_str(), quote(masked.as_str()).as_str());
    let t = join(t.as_str(), ",\"money_actions_enabled\":");
    let t = join(
        t.as_str(),
        if device.money_actions_enabled {
            "true"
        } else {
            "false"
        },
    );
    let t = join(t.as_str(), ",\"package\":");
    let t = join(t.as_str(), quote(device.package.as_str()).as_str());
    let t = join(t.as_str(), ",\"platform_sha256\":");
    let t = join(t.as_str(), quote(digests.platform_sha256.as_str()).as_str());
    let t = join(t.as_str(), ",\"runner_sha256\":");
    let t = join(t.as_str(), quote(digests.runner_sha256.as_str()).as_str());
    let t = join(
        t.as_str(),
        ",\"schema\":\"gridedge.ths-remote-execution-identity.v1\",\"serial\":",
    );
    let t = join(t.as_str(), quote(device.serial.as_str()).as_str());
    let t = join(t.as_str(), ",\"tested_version\":");
    let t = join(t.as_str(), quote(device.tested_version.as_str()).as_str());
    join(t.as_str(), "}")
}

/// Whether a run is on the current platform: no change of it is pending and the
/// one in effect is the current one.
pub fn platform_is_activated(
    pending_upgrade: bool,
    effective_platform_sha256: Option<&str>,
    current_platform_sha256: &str,
) -> (r: bool)
    ensures
        r == (!pending_upgrade && (effective_platform_sha256 matches Some(x) && x@
            == current_platform_sha256@)),
{
    if pending_upgrade {
        return false;
    }
    match effective_platform_sha256 {
        Some(x) => text_eq(x, current_platform_sha256),
        None => false,
    }
}

} // verus!
