//! The logistics provider's updates of a shipment, and the removal of a shipment.
use vstd::prelude::*;

use crate::error::LumiError;
use crate::pubkey::Pubkey;
use crate::state::Shipment;

verus! {

/// The accounts of a shipment update, as the values that the program reads.
pub struct UpdateShipment {
    pub seller: Pubkey,
    pub logistics: Pubkey,
    pub mint_usd: Pubkey,
    pub logistics_ata: Pubkey,
    pub shipment_address: Pubkey,
    pub shipment: Shipment,
}

impl UpdateShipment {
    /// Every account but the shipment's data is the same in both.
    pub open spec fn same_accounts(self, other: UpdateShipment) -> bool {
        &&& self.seller@ == other.seller@
        &&& self.logistics@ == other.logistics@
        &&& self.mint_usd@ == other.mint_usd@
        &&& self.logistics_ata@ == other.logistics_ata@
        &&& self.shipment_address@ == other.shipment_address@
    }

    /// Writes every field of the shipment and records the updating logistics provider; the
    /// coordinates are the bit patterns of double-precision numbers.
    pub fn update_shipment(
        &mut self,
        title: String,
        description: String,
        destination_location: String,
        current_location: String,
        destination_coordinates: u64,
        current_location_coordinates: u64,
        status: String,
    ) -> (r: Result<(), LumiError>)
        ensures
            r is Ok,
            final(self).shipment@ == old(self).shipment@.updated(
                title@,
                description@,
                destination_location@,
                current_location@,
                destination_coordinates,
                current_location_coordinates,
                status@,
                old(self).logistics@,
            ),
            final(self).same_accounts(*old(self)),
    {
        self.shipment.title = title;
        self.shipment.description = description;
        self.shipment.destination_location = destination_location;
        self.shipment.current_location = current_location;
        self.shipment.destination_coordinates = destination_coordinates;
        self.shipment.current_location_coordinates = current_location_coordinates;
        self.shipment.status = status;
        self.shipment.logistics = self.logistics;
        Ok(())
    }
}

/// The accounts of a shipment's removal, as the values that the program reads.
pub struct DeleteShipment {
    pub seller: Pubkey,
    pub logistics: Pubkey,
    pub shipment_address: Pubkey,
    pub shipment: Shipment,
}

impl DeleteShipment {
    /// Leaves the shipment as it is: the account itself is closed to the logistics provider
    /// when the instruction ends.
    pub fn delete_shipment_state(&mut self) -> (r: Result<(), LumiError>)
        ensures
            r is Ok,
            final(self).shipment@ == old(self).shipment@,
            final(self).seller@ == old(self).seller@,
            final(self).logistics@ == old(self).logistics@,
            final(self).shipment_address@ == old(self).shipment_address@,
    {
        Ok(())
    }
}

} // verus!
