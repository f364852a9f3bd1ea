//! The shell's interfaces, one file each.

pub mod ienumshellitems;
pub mod ishellitem;
