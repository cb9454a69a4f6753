//! Verified readers for StarCraft: Brood War replays and game data files.

pub mod error;
pub mod format;
pub mod bytes;
pub mod text;
pub mod command;
pub mod mpq;
pub mod decompress;
pub mod section;
pub mod grp;
pub mod tileset;
pub mod tbl;
pub mod dat;
pub mod selection;
pub mod gamedata;
pub mod analysis;
pub mod phases;
pub mod skill;
pub mod replay;

pub use replay::{parse, Replay};
