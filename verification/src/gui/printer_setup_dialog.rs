//! The answer of the printer setup dialog.

use vstd::prelude::*;

verus! {

/// What the user chose and typed when setting up a printer.
#[derive(Debug, PartialEq, Eq)]
pub struct PrinterSetupResult {
    pub manufacturer: String,
    pub model: String,
    /// The name under which the printer is to be known locally.
    pub printer_name: String,
    pub description: String,
    pub location: String,
}

impl Clone for PrinterSetupResult {
    fn clone(&self) -> (res: Self)
        ensures
            res == *self,
    {
        PrinterSetupResult {
            manufacturer: self.manufacturer.clone(),
            model: self.model.clone(),
            printer_name: self.printer_name.clone(),
            description: self.description.clone(),
            location: self.location.clone(),
        }
    }
}

} // verus!
