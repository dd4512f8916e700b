//! What the dialogs of the application hand to the rest of it.

pub mod printer_setup_dialog;
