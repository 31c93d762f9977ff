//! The compositor's state and its handlers.
use vstd::prelude::*;

pub mod closing_laws;
pub mod command_laws;
pub mod commit;
pub mod damage;
pub mod focus_laws;
pub mod focusing;
pub mod frame;
pub mod ime;
pub mod input_laws;
pub mod keyboard;
pub mod ledger;
pub mod lifecycle;
pub mod lifetime_laws;
pub mod mapping_laws;
pub mod menu;
pub mod minimizing;
pub mod mode_laws;
pub mod pointer;
pub mod pointer_laws;
pub mod rendering;
pub mod resize_laws;
pub mod resizing;
pub mod room_laws;
pub mod session;
pub mod state;
pub mod taskbar;
pub mod terms;
pub mod transition_laws;
pub mod transitions;
pub mod window_laws;
pub mod workspaces;
pub mod xkb;

verus! {

} // verus!
