//! Decision core of a desktop front end for OpenVPN 3: session bookkeeping,
//! authentication retries, stall and drift detection, kill-switch teardown,
//! credential slots, notifications, logs, settings and preference editing.
//!
//! Everything here is a function from plain values to plain values; the
//! windows, the tray icon, the message bus and the keyring live in the
//! application around it.
use vstd::prelude::*;

pub mod about;
pub mod auth;
pub mod auth_dispatch;
pub mod autostart;
pub mod bypass;
pub mod cidrs;
pub mod clock;
pub mod config;
pub mod configs;
pub mod credential_store;
pub mod drift;
pub mod keyed;
pub mod kill_switch;
pub mod log_buffer;
pub mod log_format;
pub mod log_viewer;
pub mod notify;
pub mod policy;
pub mod preferences;
pub mod protect;
pub mod protocol;
pub mod registers;
pub mod retry;
pub mod routing;
pub mod search;
pub mod service;
pub mod sessions;
pub mod settings;
pub mod slots;
pub mod stall;
pub mod startup;
pub mod stats;
pub mod status;
pub mod submit;
pub mod text;
pub mod tray;
pub mod version;
pub mod windows;

verus! {

} // verus!
