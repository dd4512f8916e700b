//! Model of IPP messages and the printer-driver catalog built from them.

pub mod c_helper_fun;
pub mod cups;
pub mod gui;
pub mod smb;
pub mod text;
