//! The accounts of the refund check.
use vstd::prelude::*;

use crate::state::Shipment;

verus! {

/// The accounts of the refund check: the shipment whose status decides whether the buyer
/// may be refunded.
pub struct Refund {
    pub shipment: Shipment,
}

} // verus!
