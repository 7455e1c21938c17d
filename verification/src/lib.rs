//! Verified core of an archive-aware image viewer: configuration, navigation,
//! caching bookkeeping, key bindings and window-state decisions.

pub mod rotation;
pub mod text;
pub mod ini_store;
pub mod keymap_store;
pub mod config;
pub mod settings;
pub mod settings_laws;
pub mod cache;
pub mod paging;
pub mod startup;
pub mod labels;
pub mod conflicts;
pub mod keys;
pub mod path_map;
pub mod nav_tree;
pub mod manager;
pub mod window_mode;
pub mod launch;
pub mod history;
pub mod image_ops;
pub mod animation;
pub mod toast;
pub mod natural;
pub mod sorting;
pub mod dialogs;
pub mod file_kinds;
pub mod status;
pub mod key_names;
pub mod cycles;
pub mod commands;
pub mod decoding;
