//! The token-program calls that the instructions make, as values that the caller carries out.
use vstd::prelude::*;

use crate::pubkey::{seeds_view, Pubkey};

verus! {

/// A call into the token program.
pub enum TokenCpi {
    /// Move `amount` tokens of `mint` (with `decimals` decimals) from `from` to `to`, signed by
    /// `authority`; a program-derived authority signs with `signer_seeds`, other authorities
    /// with none.
    TransferChecked {
        from: Pubkey,
        to: Pubkey,
        authority: Pubkey,
        mint: Pubkey,
        amount: u64,
        decimals: u8,
        signer_seeds: Vec<Vec<u8>>,
    },
    /// Close the token account `account`, sending its rent to `destination`, signed by
    /// `authority` with `signer_seeds`.
    CloseAccount {
        account: Pubkey,
        destination: Pubkey,
        authority: Pubkey,
        signer_seeds: Vec<Vec<u8>>,
    },
}

/// A program account that is closed when the instruction ends: its lamports go to
/// `destination` and its data is cleared.
pub struct AccountClose {
    pub account: Pubkey,
    pub destination: Pubkey,
}

/// The call is a checked transfer with exactly these accounts, amount, decimals and seeds.
pub open spec fn is_transfer(
    c: TokenCpi,
    from: Seq<u8>,
    to: Seq<u8>,
    authority: Seq<u8>,
    mint: Seq<u8>,
    amount: u64,
    decimals: u8,
    seeds: Seq<Seq<u8>>,
) -> bool {
    match c {
        TokenCpi::TransferChecked {
            from: f,
            to: t,
            authority: a,
            mint: m,
            amount: x,
            decimals: d,
            signer_seeds: s,
        } => f@ == from && t@ == to && a@ == authority && m@ == mint && x == amount && d
            == decimals && seeds_view(s) == seeds,
        _ => false,
    }
}

/// The call closes exactly this account to this destination, with these seeds.
pub open spec fn is_close(
    c: TokenCpi,
    account: Seq<u8>,
    destination: Seq<u8>,
    authority: Seq<u8>,
    seeds: Seq<Seq<u8>>,
) -> bool {
    match c {
        TokenCpi::CloseAccount { account: k, destination: d, authority: a, signer_seeds: s } =>
            k@ == account && d@ == destination && a@ == authority && seeds_view(s) == seeds,
        _ => false,
    }
}

} // verus!
