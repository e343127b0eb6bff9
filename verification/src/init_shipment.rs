//! Creating a shipment on its own, without the token accounts of the sale.
use vstd::prelude::*;

use crate::error::LumiError;
use crate::pubkey::Pubkey;
use crate::state::Shipment;

verus! {

/// The accounts of a shipment's creation, as the values that the program reads.
pub struct InitShipment {
    pub seller: Pubkey,
    pub shipment_address: Pubkey,
    pub shipment: Shipment,
}

impl InitShipment {
    /// Starts the shipment under the title: no description, empty locations, zero
    /// coordinates, in transit.
    pub fn init_shipment(&mut self, title: String) -> (r: Result<(), LumiError>)
        ensures
            r is Ok,
            final(self).shipment@ == old(self).shipment@.started(title@),
            final(self).seller@ == old(self).seller@,
            final(self).shipment_address@ == old(self).shipment_address@,
    {
        self.shipment.start(title);
        Ok(())
    }
}

} // verus!
