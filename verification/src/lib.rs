//! Decision logic of a keyboard sound-feedback tool: which sound a keystroke
//! plays, which keystrokes are ignored, when the settings shortcut fires,
//! which applications are muted, and the bookkeeping around them.
pub mod core_graphics;
pub mod player;
pub mod repeat_filter;
pub mod scheme;
pub mod tickeys;
pub mod shortcut;
pub mod filter_list;
pub mod props;
pub mod update;
pub mod controls;
