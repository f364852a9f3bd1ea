//! Window messages as typed values. A message holds what is handed to the
//! window; what the window answers is the result of the call that sends it.

pub mod lvm;
pub mod tvm;
