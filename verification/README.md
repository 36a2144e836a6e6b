# hakotauri

The sync commands of a Tauri application on a HakoDB database, with their decisions verified.

- `src/` is the verified library. Each command is a state machine: it hands out one action (read
  or write a document, make, start or stop a syncer, tell the windows of an event, hash a key) and goes
  on with the reply. `src/host.rs` says what actions and replies are, and models a host on which
  whole commands run; the laws over whole commands stand beside the commands.
- `app/` performs the actions with HakoDB and Tauri, and carries the serialised types.
- `tests/` runs the commands on a host in memory.

| module | content |
|---|---|
| `cloud_sync::config`, `cloud_sync::credentials` | saved settings, and the group key: no command writes it into the replicating collection, and switching takes out one that an older installation left there |
| `cloud_sync::groups`, `cloud_sync::group_laws` | policies of rooms: mode, key hash, members |
| `cloud_sync::keys` | fresh group keys |
| `cloud_sync::switch`, `cloud_sync::switch_laws` | switching cloud sync, and bringing it back at the start |
| `net_sync` | switching mesh sync, peers, restore after a reset, security check |
| `document`, `text` | documents, values and texts that the commands work on |
