//! The seller's side: creating the shipment, paying the logistics provider, and withdrawing
//! the escrowed payment once the goods have arrived.
use vstd::prelude::*;

use crate::cpi::{is_close, is_transfer, TokenCpi};
use crate::error::LumiError;
use crate::pubkey::{escrow_signer_seeds, escrow_signer_seeds_view, seeds_view, Pubkey};
use crate::state::{Escrow, Shipment};

verus! {

/// The accounts of a shipment's creation by the seller, as the values that the program reads.
pub struct Ship {
    pub seller: Pubkey,
    pub mint_usd: Pubkey,
    pub seller_ata: Pubkey,
    pub shipment_address: Pubkey,
    pub shipment: Shipment,
}

impl Ship {
    /// Every account but the shipment's data is the same in both.
    pub open spec fn same_accounts(self, other: Ship) -> bool {
        &&& self.seller@ == other.seller@
        &&& self.mint_usd@ == other.mint_usd@
        &&& self.seller_ata@ == other.seller_ata@
        &&& self.shipment_address@ == other.shipment_address@
    }

    /// Starts the shipment under the title: no description, empty locations, zero
    /// coordinates, in transit.
    pub fn init_shipment(&mut self, title: String) -> (r: Result<(), LumiError>)
        ensures
            r is Ok,
            final(self).shipment@ == old(self).shipment@.started(title@),
            final(self).same_accounts(*old(self)),
    {
        self.shipment.start(title);
        Ok(())
    }
}

/// The accounts of the seller's payment to the logistics provider.
pub struct PaymentForTransportAndTracking {
    pub seller: Pubkey,
    pub logistics: Pubkey,
    pub mint_usd: Pubkey,
    /// The number of decimals of the token mint.
    pub mint_decimals: u8,
    pub seller_ata: Pubkey,
    pub logistics_ata: Pubkey,
}

impl PaymentForTransportAndTracking {
    /// The transfer of `amount` tokens from the seller's token account to the logistics
    /// provider's, signed by the seller.
    pub fn deposit(&self, amount: u64) -> (r: TokenCpi)
        ensures
            is_transfer(
                r,
                self.seller_ata@,
                self.logistics_ata@,
                self.seller@,
                self.mint_usd@,
                amount,
                self.mint_decimals,
                Seq::empty(),
            ),
    {
        let signer_seeds: Vec<Vec<u8>> = Vec::new();
        assert(seeds_view(signer_seeds) =~= Seq::empty());
        TokenCpi::TransferChecked {
            from: self.seller_ata,
            to: self.logistics_ata,
            authority: self.seller,
            mint: self.mint_usd,
            amount,
            decimals: self.mint_decimals,
            signer_seeds,
        }
    }
}

/// The accounts of the seller's withdrawal from the escrow, as the values that the program
/// reads.
pub struct Withdraw {
    pub seller: Pubkey,
    pub buyer: Pubkey,
    pub mint_usd: Pubkey,
    /// The number of decimals of the token mint.
    pub mint_decimals: u8,
    pub seller_ata: Pubkey,
    pub shipment_address: Pubkey,
    pub shipment: Shipment,
    pub escrow_address: Pubkey,
    pub escrow: Escrow,
    pub vault: Pubkey,
    /// The number of tokens in the vault.
    pub vault_amount: u64,
}

impl Withdraw {
    /// The transfer of everything in the vault to the seller's token account, signed by the
    /// escrow with its seeds.
    pub fn seller_withdrawal(&self) -> (r: TokenCpi)
        ensures
            is_transfer(
                r,
                self.vault@,
                self.seller_ata@,
                self.escrow_address@,
                self.mint_usd@,
                self.vault_amount,
                self.mint_decimals,
                escrow_signer_seeds_view(self.escrow.buyer@, self.escrow.seed, self.escrow.bump),
            ),
    {
        TokenCpi::TransferChecked {
            from: self.vault,
            to: self.seller_ata,
            authority: self.escrow_address,
            mint: self.mint_usd,
            amount: self.vault_amount,
            decimals: self.mint_decimals,
            signer_seeds: escrow_signer_seeds(&self.escrow.buyer, self.escrow.seed, self.escrow.bump),
        }
    }

    /// The closing of the vault, its rent going to the buyer, signed by the escrow with its
    /// seeds.
    pub fn close(&self) -> (r: TokenCpi)
        ensures
            is_close(
                r,
                self.vault@,
                self.buyer@,
                self.escrow_address@,
                escrow_signer_seeds_view(self.escrow.buyer@, self.escrow.seed, self.escrow.bump),
            ),
    {
        TokenCpi::CloseAccount {
            account: self.vault,
            destination: self.buyer,
            authority: self.escrow_address,
            signer_seeds: escrow_signer_seeds(&self.escrow.buyer, self.escrow.seed, self.escrow.bump),
        }
    }
}

} // verus!
