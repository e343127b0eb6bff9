//! Disputes: the buyer files one against a shipment, the shipment's logistics provider
//! resolves it.
use vstd::prelude::*;

use crate::error::{FiledDisputeError, LumiError};
use crate::pubkey::Pubkey;
use crate::state::{delivered, Escrow, EscrowView, Shipment, ShipmentView};
use crate::text::{is_blank, is_blank_text};

verus! {

/// The accounts of a dispute, as the values that the program reads.
pub struct Dispute {
    pub buyer: Pubkey,
    pub logistics: Pubkey,
    pub shipment_address: Pubkey,
    pub shipment: Shipment,
    pub escrow_address: Pubkey,
    pub escrow: Escrow,
}

/// What filing a dispute with this reason gives: refused for a delivered shipment, then for a
/// reason that is only white space; otherwise the escrow is marked disputed and keeps the
/// reason.
pub open spec fn file_dispute_outcome(
    shipment: ShipmentView,
    escrow: EscrowView,
    reason: Seq<char>,
) -> Result<EscrowView, FiledDisputeError> {
    if shipment.status == delivered() {
        Err(FiledDisputeError::ShipmentAlreadyDelivered)
    } else if is_blank_text(reason) {
        Err(FiledDisputeError::EmptyDisputeReason)
    } else {
        Ok(EscrowView { is_disputed: true, dispute_reason: reason, ..escrow })
    }
}

/// What resolving a dispute gives: refused unless the resolver is the shipment's logistics
/// provider, then refused unless a dispute is active; otherwise the dispute is closed and
/// `is_dispute_resolved` records the resolver's verdict.
pub open spec fn resolve_dispute_outcome(
    resolver: Seq<u8>,
    shipment: ShipmentView,
    escrow: EscrowView,
    resolved_by_logistics: bool,
) -> Result<EscrowView, FiledDisputeError> {
    if resolver != shipment.logistics {
        Err(FiledDisputeError::UnauthorizedResolver)
    } else if !escrow.is_disputed {
        Err(FiledDisputeError::NoActiveDispute)
    } else {
        Ok(EscrowView { is_disputed: false, is_dispute_resolved: resolved_by_logistics, ..escrow })
    }
}

impl Dispute {
    /// Every account but the escrow's data is the same in both.
    pub open spec fn same_but_escrow(self, other: Dispute) -> bool {
        &&& self.buyer@ == other.buyer@
        &&& self.logistics@ == other.logistics@
        &&& self.shipment_address@ == other.shipment_address@
        &&& self.shipment@ == other.shipment@
        &&& self.escrow_address@ == other.escrow_address@
    }

    /// Files a dispute with the given reason.
    pub fn file_dispute(&mut self, reason: String) -> (r: Result<(), LumiError>)
        ensures
            match file_dispute_outcome(old(self).shipment@, old(self).escrow@, reason@) {
                Ok(e) => r is Ok && final(self).escrow@ == e,
                Err(err) => r == Err::<(), LumiError>(LumiError::FiledDispute(err))
                    && final(self).escrow@ == old(self).escrow@,
            },
            final(self).same_but_escrow(*old(self)),
    {
        if self.shipment.is_delivered() {
            return Err(LumiError::FiledDispute(FiledDisputeError::ShipmentAlreadyDelivered));
        }
        if is_blank(reason.as_str()) {
            return Err(LumiError::FiledDispute(FiledDisputeError::EmptyDisputeReason));
        }
        self.escrow.is_disputed = true;
        self.escrow.dispute_reason = reason;
        Ok(())
    }

    /// Resolves the active dispute; only the shipment's logistics provider may.
    pub fn resolve_dispute(&mut self, resolved_by_logistics: bool) -> (r: Result<(), LumiError>)
        ensures
            match resolve_dispute_outcome(
                old(self).logistics@,
                old(self).shipment@,
                old(self).escrow@,
                resolved_by_logistics,
            ) {
                Ok(e) => r is Ok && final(self).escrow@ == e,
                Err(err) => r == Err::<(), LumiError>(LumiError::FiledDispute(err))
                    && final(self).escrow@ == old(self).escrow@,
            },
            final(self).same_but_escrow(*old(self)),
    {
        if !self.logistics.key_eq(&self.shipment.logistics) {
            return Err(LumiError::FiledDispute(FiledDisputeError::UnauthorizedResolver));
        }
        if !self.escrow.is_disputed {
            return Err(LumiError::FiledDispute(FiledDisputeError::NoActiveDispute));
        }
        self.escrow.is_disputed = false;
        self.escrow.is_dispute_resolved = resolved_by_logistics;
        Ok(())
    }
}

} // verus!
