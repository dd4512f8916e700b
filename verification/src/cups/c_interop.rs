//! The plain records in which messages cross the transport.

use crate::cups::enums::ipp_operations::IppOp;
use crate::cups::ipp_attribute::{AttributeView, IppAttribute};
use vstd::prelude::*;

verus! {

/// A message as the transport takes and hands it: the operation it was
/// made for and its attributes in wire order, with no reading position.
#[derive(Debug, PartialEq, Eq)]
pub struct IppT {
    pub operation: IppOp,
    pub attributes: Vec<IppAttribute>,
}

/// What each attribute of a list says.
pub open spec fn attribute_views(list: Seq<IppAttribute>) -> Seq<AttributeView> {
    list.map_values(|a: IppAttribute| a@)
}

} // verus!
