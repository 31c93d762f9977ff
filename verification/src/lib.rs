//! Decision core of a spatial Wayland compositor.
use vstd::prelude::*;

pub mod anchor;
pub mod app_switcher;
pub mod arrange;
pub mod bench;
pub mod capabilities;
pub mod chrome;
pub mod client_resize;
pub mod closed;
pub mod compositor;
pub mod config;
pub mod context_menu;
pub mod debug_journal;
pub mod drm_backend;
pub mod drm_topology;
pub mod focus;
pub mod focus_history;
pub mod fullscreen;
pub mod group;
pub mod id_list;
pub mod input;
pub mod input_router;
pub mod keys;
pub mod maximize;
pub mod navigation;
pub mod outputs;
pub mod scene;
pub mod table;
pub mod text;
pub mod workspace;

verus! {

} // verus!
