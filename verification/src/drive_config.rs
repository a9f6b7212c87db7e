//! The configured drives, as kept in `drives.json`.

use vstd::prelude::*;

verus! {

/// The tokens a drive signs in with.
#[derive(Debug, Clone)]
pub struct Credentials {
    pub access_token: Option<String>,
    pub refresh_token: String,
    pub refresh_expires: String,
    pub access_expires: Option<String>,
}

/// One configured drive. `extra` keeps the settings this client does not
/// know, each as its key and its JSON text, so that they survive a rewrite.
#[derive(Debug, Clone)]
pub struct DriveConfig {
    pub id: String,
    pub name: String,
    pub instance_url: String,
    pub remote_path: String,
    pub credentials: Credentials,
    pub sync_path: String,
    pub icon_path: Option<String>,
    pub raw_icon_path: Option<String>,
    pub enabled: bool,
    pub user_id: String,
    pub mount_id: Option<String>,
    pub ignore_patterns: Vec<String>,
    pub extra: Vec<(String, String)>,
}

/// Every configured drive.
#[derive(Debug, Clone)]
pub struct DriveState {
    pub drives: Vec<DriveConfig>,
}

impl Default for DriveState {
    fn default() -> (r: DriveState)
        ensures
            r.drives@.len() == 0,
    {
        DriveState { drives: Vec::new() }
    }
}

} // verus!
