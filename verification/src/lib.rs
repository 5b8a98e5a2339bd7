//! Verified core of a screen-capture and clipboard-history desktop utility.
pub mod platform;
pub mod call_record;
pub mod runtime_identity;
pub mod text;
pub mod hotkeys;
pub mod shell;
pub mod blocklist;
pub mod sensitivity;
pub mod source_app;
pub mod health;
pub mod digest;
pub mod hasher;
pub mod skip_set;
pub mod image_codec;
pub mod capture_error;
pub mod grab;
pub mod xcap_adapter;
pub mod macos_sck;
pub mod display;
pub mod foreground;
pub mod preview;
pub mod window_hider;
pub mod watcher;
pub mod observation;
pub mod annotate;
pub mod clipboard_error;
pub mod paste;
pub mod backend;
pub mod os_clipboard;
pub mod orchestrate;
pub mod capture_permissions;
