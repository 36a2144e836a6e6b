//! Cloud sync: its saved settings, its credentials, the policies of its groups, and the
//! command that switches it.
use vstd::prelude::*;

pub use config::{get_cloud_config, CloudSyncConfig, CloudSyncMode};
pub use credentials::{load_api_key, save_api_key};
pub use groups::{
    cloud_group_add_member, cloud_group_get, cloud_group_remove_member, cloud_group_set,
    read_group, GroupPolicy,
};
pub use keys::cloud_group_new_key;
pub use switch::{bootstrap_cloud_sync, toggle_cloud_sync};

pub mod config;
pub mod credentials;
pub mod group_effects;
pub mod group_laws;
pub mod groups;
pub mod keys;
pub mod switch;
pub mod switch_effects;
pub mod switch_laws;

verus! {

/// The collection that holds the application's own state. It replicates with the room.
pub const APP_STATE_COLLECTION: &'static str = "app_state";

/// The document with the saved cloud sync settings.
pub const CLOUD_PREFS_DOC: &'static str = "cloud_sync_prefs";

/// The collection with the client's cloud credentials. Collections whose names start with
/// an underscore never replicate, so the group API key stays on the device.
pub const CLOUD_KEYS_COLLECTION: &'static str = "__cloud_client";

/// The document with the credentials.
pub const CLOUD_CREDS_DOC: &'static str = "creds";

/// The collection with one policy document per room.
pub const GROUPS_COLLECTION: &'static str = "__groups";

/// The event that tells that cloud sync went on.
pub const EVENT_CLOUD_SYNC_ON: &'static str = "cloud_sync_on";

/// The event that tells that cloud sync went off.
pub const EVENT_CLOUD_SYNC_OFF: &'static str = "cloud_sync_off";

} // verus!
