//! Keys of device-local preferences shared with the mobile app.

use vstd::prelude::*;

verus! {

/// A device-local preference.
#[derive(Debug, Clone, Copy, PartialEq, Eq, Structural)]
pub enum LocalPrefKey {
    CloudDeviceId,
    SyncLastPullAt,
}

impl LocalPrefKey {
    /// The key's name in the preference table.
    pub fn as_str(self) -> (r: &'static str)
        ensures
            r@ == match self {
                LocalPrefKey::CloudDeviceId => "core_cloud_device_id"@,
                LocalPrefKey::SyncLastPullAt => "core_sync_last_pull_at"@,
            },
    {
        match self {
            LocalPrefKey::CloudDeviceId => "core_cloud_device_id",
            LocalPrefKey::SyncLastPullAt => "core_sync_last_pull_at",
        }
    }
}

} // verus!
