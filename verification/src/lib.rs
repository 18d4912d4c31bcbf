//! Core logic of a multi-platform messenger desktop shell: a registry of the
//! supported messaging platforms with a persisted current selection, and a
//! session-privacy engine that isolates each platform's browser session in a
//! directory of its own and supplies a per-platform content-security policy.
//!
//! All file-system and GUI work is left to the host application; this crate
//! holds the decisions and the bookkeeping, with contracts checked by Verus.

pub mod accounts;
pub mod desktop;
pub mod drag_drop;
pub mod json_store;
pub mod media;
pub mod notifications;
pub mod platform_manager;
pub mod privacy;
pub mod privacy_engine;
pub mod sessions;
pub mod shortcuts;
pub mod spellcheck;
pub mod strutil;
pub mod theme_manager;
pub mod tray;
pub mod updater;
pub mod window_manager;
