//! Mesh sync on the local network: the command that switches it, its peers, and the restore
//! after a local reset.
use vstd::prelude::*;

pub use peers::list_network_peers;
pub use restore::prepare_sync_restore;
pub use security::check_sync_security_exists;
pub use switch::{bootstrap_sync, read_room_key, toggle_net_sync};

pub mod peers;
pub mod restore;
pub mod security;
pub mod switch;
pub mod switch_effects;

verus! {

/// The collection that holds the application's own state. It is left out of mesh sync.
pub const APP_STATE_COLLECTION: &'static str = "app_state";

/// The document that remembers whether mesh sync is on.
pub const NET_PREFS_DOC: &'static str = "sync_prefs";

/// The document with the room key of the group that this device joined.
pub const NET_GROUP_DOC: &'static str = "sync_group";

/// The room key of a device that joined no group.
pub const FALLBACK_ROOM_KEY: &'static str = "default";

/// The event that tells that mesh sync went on.
pub const EVENT_SYNC_ON: &'static str = "sync_on";

/// The event that tells that mesh sync went off.
pub const EVENT_SYNC_OFF: &'static str = "sync_off";

} // verus!
