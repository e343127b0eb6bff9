//! Step one: the buyer opens an escrow and deposits the price into its vault.
use vstd::prelude::*;

use crate::cpi::{is_transfer, TokenCpi};
use crate::error::LumiError;
use crate::pubkey::Pubkey;
use crate::state::{Escrow, EscrowView};

verus! {

/// The bump seed found for the escrow address.
#[derive(Clone, Copy)]
pub struct BuyBumps {
    pub escrow_bump: u8,
}

/// The accounts of a purchase, as the values that the program reads.
pub struct Buy {
    pub buyer: Pubkey,
    pub mint_usd: Pubkey,
    /// The number of decimals of the token mint.
    pub mint_decimals: u8,
    pub buyer_ata_a: Pubkey,
    pub escrow_address: Pubkey,
    pub escrow: Escrow,
    pub vault: Pubkey,
}

impl Buy {
    /// Every account but the escrow's data is the same in both.
    pub open spec fn same_accounts(self, other: Buy) -> bool {
        &&& self.buyer@ == other.buyer@
        &&& self.mint_usd@ == other.mint_usd@
        &&& self.mint_decimals == other.mint_decimals
        &&& self.buyer_ata_a@ == other.buyer_ata_a@
        &&& self.escrow_address@ == other.escrow_address@
        &&& self.vault@ == other.vault@
    }

    /// Writes the new escrow: the seed, the buyer, the mint and the bump, nothing deposited in
    /// its record and no flag set.
    pub fn init_escrow(&mut self, seed: u64, bumps: &BuyBumps) -> (r: Result<(), LumiError>)
        ensures
            r is Ok,
            final(self).escrow@ == EscrowView::initial(
                seed,
                old(self).buyer@,
                old(self).mint_usd@,
                bumps.escrow_bump,
            ),
            final(self).same_accounts(*old(self)),
    {
        self.escrow = Escrow {
            seed,
            buyer: self.buyer,
            mint_usd: self.mint_usd,
            bump: bumps.escrow_bump,
            amount: 0,
            is_completed: false,
            is_cancelled: false,
            is_disputed: false,
            dispute_reason: String::new(),
            is_refunded: false,
            is_dispute_resolved: false,
        };
        Ok(())
    }

    /// The transfer of `amount` tokens from the buyer's token account into the vault, signed
    /// by the buyer; the escrow records the amount.
    pub fn deposit(&mut self, amount: u64) -> (r: TokenCpi)
        ensures
            is_transfer(
                r,
                old(self).buyer_ata_a@,
                old(self).vault@,
                old(self).buyer@,
                old(self).mint_usd@,
                amount,
                old(self).mint_decimals,
                Seq::empty(),
            ),
            final(self).escrow@ == (EscrowView { amount, ..old(self).escrow@ }),
            final(self).same_accounts(*old(self)),
    {
        self.escrow.amount = amount;
        let signer_seeds: Vec<Vec<u8>> = Vec::new();
        assert(crate::pubkey::seeds_view(signer_seeds) =~= Seq::empty());
        TokenCpi::TransferChecked {
            from: self.buyer_ata_a,
            to: self.vault,
            authority: self.buyer,
            mint: self.mint_usd,
            amount,
            decimals: self.mint_decimals,
            signer_seeds,
        }
    }
}

} // verus!
