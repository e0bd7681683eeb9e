//! Service control for local development daemons managed by systemd.
//!
//! `commands` holds the registry and the operations offered to the user
//! interface, as tasks that name each `systemctl` run they need; `systemd`
//! classifies what `systemctl` prints; `models` holds the values exchanged;
//! `text` reads program output; `laws` states what holds across operations.

pub mod commands;
pub mod laws;
pub mod models;
pub mod reading_laws;
pub mod systemd;
pub mod text;
