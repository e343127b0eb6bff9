//! The program's instructions, each from the accounts it is given to the accounts it leaves
//! and the token calls it makes: the account checks first, then the handler, then the check
//! that every written account still fits in its space. A failed instruction changes nothing.
//!
//! The account checks modelled here are the program-address checks of accounts derived from
//! seeds, the checks that an escrow names the accounts passed for it, and the space checks.
//! The signer, writable, owner, discriminator, token-mint, token-program and
//! associated-token-account checks are not modelled: the framework makes them before an
//! instruction runs, so these contracts promise success only for account sets that pass
//! them.
use vstd::prelude::*;

use crate::buy::{Buy, BuyBumps};
use crate::cpi::{is_close, is_transfer, AccountClose, TokenCpi};
use crate::dispute::Dispute;
use crate::error::{CustomError, DisputeError, ErrorCode, FrameworkError, LumiError};
use crate::pubkey::{
    canonical_program_address,
    create_program_address,
    found_view,
    key_option_view,
    escrow_seeds,
    escrow_seeds_view,
    escrow_signer_seeds_view,
    program_address,
    shipment_seeds,
    shipment_seeds_view,
    try_find_program_address,
    with_bump,
    Pubkey,
};
use crate::refund::Refund;
use crate::seller::{PaymentForTransportAndTracking, Ship, Withdraw};
use crate::state::{EscrowView, Shipment, ShipmentView};
use crate::text::{is_blank, is_blank_text};
use crate::update_shipment::UpdateShipment;

verus! {

/// How an address check fails, given what the search for the bump found: nothing found, or
/// an address other than the account's.
pub open spec fn found_check(found: Option<(Seq<u8>, u8)>, address: Seq<u8>) -> Option<LumiError> {
    match found {
        None => Some(LumiError::ProgramAddressNotFound),
        Some((k, _)) => if k == address {
            None
        } else {
            Some(LumiError::Framework(FrameworkError::ConstraintSeeds))
        },
    }
}

/// How an address check fails, given the address derived with a stored bump: none derived,
/// or one other than the account's.
pub open spec fn derived_check(derived: Option<Seq<u8>>, address: Seq<u8>) -> Option<LumiError> {
    match derived {
        Some(k) => if k == address {
            None
        } else {
            Some(LumiError::Framework(FrameworkError::ConstraintSeeds))
        },
        None => Some(LumiError::Framework(FrameworkError::ConstraintSeeds)),
    }
}

/// How a seeds check fails where the framework searches for the bump.
pub open spec fn found_address_failure(
    seeds: Seq<Seq<u8>>,
    program_id: Seq<u8>,
    address: Seq<u8>,
) -> Option<LumiError> {
    found_check(canonical_program_address(seeds, program_id), address)
}

/// How a seeds check fails where the bump is the one stored in an account.
pub open spec fn stored_bump_failure(
    seeds: Seq<Seq<u8>>,
    bump: u8,
    program_id: Seq<u8>,
    address: Seq<u8>,
) -> Option<LumiError> {
    derived_check(program_address(seeds.push(seq![bump]), program_id), address)
}

/// The bump found for the seeds.
pub open spec fn found_bump(seeds: Seq<Seq<u8>>, program_id: Seq<u8>) -> u8 {
    (canonical_program_address(seeds, program_id)->0).1
}

/// Checks an account's address against what the search for the bump found, and gives the
/// bump.
pub fn check_found(found: &Option<(Pubkey, u8)>, address: &Pubkey) -> (r: Result<u8, LumiError>)
    ensures
        match found_check(found_view(*found), address@) {
            Some(e) => r == Err::<u8, LumiError>(e),
            None => r == Ok::<u8, LumiError>((found->0).1),
        },
{
    match found {
        None => Err(LumiError::ProgramAddressNotFound),
        Some((k, b)) => {
            if k.key_eq(address) {
                Ok(*b)
            } else {
                Err(LumiError::Framework(FrameworkError::ConstraintSeeds))
            }
        },
    }
}

/// Checks an account's address against the address derived with its stored bump.
pub fn check_derived(derived: &Option<Pubkey>, address: &Pubkey) -> (r: Result<(), LumiError>)
    ensures
        match derived_check(key_option_view(*derived), address@) {
            Some(e) => r == Err::<(), LumiError>(e),
            None => r is Ok,
        },
{
    match derived {
        None => Err(LumiError::Framework(FrameworkError::ConstraintSeeds)),
        Some(k) => {
            if k.key_eq(address) {
                Ok(())
            } else {
                Err(LumiError::Framework(FrameworkError::ConstraintSeeds))
            }
        },
    }
}

/// How a purchase fails, given what the search for the escrow's bump found.
pub open spec fn buy_at_failure(ctx: Buy, found: Option<(Seq<u8>, u8)>) -> Option<LumiError> {
    found_check(found, ctx.escrow_address@)
}

/// A purchase, given what the search for the bump of `escrow`, the buyer and the seed number
/// found: the escrow is opened with the found bump, `amount` tokens go into its vault and the
/// escrow records the amount.
pub fn buy_at(ctx: &mut Buy, found: Option<(Pubkey, u8)>, seed: u64, amount: u64) -> (r: Result<
    Vec<TokenCpi>,
    LumiError,
>)
    ensures
        match buy_at_failure(*old(ctx), found_view(found)) {
            Some(e) => r == Err::<Vec<TokenCpi>, LumiError>(e) && *final(ctx) == *old(ctx),
            None => {
                &&& r matches Ok(calls) && calls@.len() == 1 && is_transfer(
                    calls@[0],
                    old(ctx).buyer_ata_a@,
                    old(ctx).vault@,
                    old(ctx).buyer@,
                    old(ctx).mint_usd@,
                    amount,
                    old(ctx).mint_decimals,
                    Seq::empty(),
                )
                &&& final(ctx).escrow@ == (EscrowView {
                    amount,
                    ..EscrowView::initial(seed, old(ctx).buyer@, old(ctx).mint_usd@, (found->0).1)
                })
                &&& final(ctx).escrow@.fits_in_account()
                &&& final(ctx).same_accounts(*old(ctx))
            },
        },
{
    let bump = match check_found(&found, &ctx.escrow_address) {
        Ok(b) => b,
        Err(e) => return Err(e),
    };
    let bumps = BuyBumps { escrow_bump: bump };
    let _ = ctx.init_escrow(seed, &bumps);
    let mut calls: Vec<TokenCpi> = Vec::new();
    calls.push(ctx.deposit(amount));
    Ok(calls)
}

/// How a purchase fails: the escrow's address is checked against the address found for
/// `escrow`, the buyer and the seed number.
pub open spec fn buy_failure(ctx: Buy, program_id: Seq<u8>, seed: u64) -> Option<LumiError> {
    found_address_failure(escrow_seeds_view(ctx.buyer@, seed), program_id, ctx.escrow_address@)
}

/// Step one: the buyer opens an escrow at the address derived from `escrow`, the buyer and
/// the seed number, and deposits `amount` tokens into its vault, recording the amount.
pub fn buy(ctx: &mut Buy, program_id: &Pubkey, seed: u64, amount: u64) -> (r: Result<
    Vec<TokenCpi>,
    LumiError,
>)
    ensures
        match buy_failure(*old(ctx), program_id@, seed) {
            Some(e) => r == Err::<Vec<TokenCpi>, LumiError>(e) && *final(ctx) == *old(ctx),
            None => {
                &&& r matches Ok(calls) && calls@.len() == 1 && is_transfer(
                    calls@[0],
                    old(ctx).buyer_ata_a@,
                    old(ctx).vault@,
                    old(ctx).buyer@,
                    old(ctx).mint_usd@,
                    amount,
                    old(ctx).mint_decimals,
                    Seq::empty(),
                )
                &&& final(ctx).escrow@ == (EscrowView {
                    amount,
                    ..EscrowView::initial(
                        seed,
                        old(ctx).buyer@,
                        old(ctx).mint_usd@,
                        found_bump(escrow_seeds_view(old(ctx).buyer@, seed), program_id@),
                    )
                })
                &&& final(ctx).escrow@.fits_in_account()
                &&& program_address(
                    escrow_seeds_view(old(ctx).buyer@, seed).push(seq![final(ctx).escrow.bump]),
                    program_id@,
                ) == Some(old(ctx).escrow_address@)
                &&& final(ctx).same_accounts(*old(ctx))
            },
        },
{
    let seeds = escrow_seeds(&ctx.buyer, seed);
    let found = try_find_program_address(&seeds, program_id);
    buy_at(ctx, found, seed, amount)
}

/// How the creation of a shipment fails, given what the search for its bump found: the
/// address check, then the new shipment must fit in its space.
pub open spec fn init_shipment_at_failure(
    ctx: Ship,
    found: Option<(Seq<u8>, u8)>,
    title: Seq<char>,
) -> Option<LumiError> {
    match found_check(found, ctx.shipment_address@) {
        Some(e) => Some(e),
        None => if ShipmentView::zeroed().started(title).fits_in_account() {
            None
        } else {
            Some(LumiError::Framework(FrameworkError::AccountDidNotSerialize))
        },
    }
}

/// The creation of a shipment, given what the search for the bump of the title and the
/// seller found: a new shipment, in transit.
pub fn init_shipment_at(ctx: &mut Ship, found: Option<(Pubkey, u8)>, title: String) -> (r: Result<
    (),
    LumiError,
>)
    ensures
        match init_shipment_at_failure(*old(ctx), found_view(found), title@) {
            Some(e) => r == Err::<(), LumiError>(e) && *final(ctx) == *old(ctx),
            None => {
                &&& r is Ok
                &&& final(ctx).shipment@ == ShipmentView::zeroed().started(title@)
                &&& final(ctx).same_accounts(*old(ctx))
            },
        },
{
    match check_found(&found, &ctx.shipment_address) {
        Ok(_) => {},
        Err(e) => return Err(e),
    }
    let mut next = Ship {
        seller: ctx.seller,
        mint_usd: ctx.mint_usd,
        seller_ata: ctx.seller_ata,
        shipment_address: ctx.shipment_address,
        shipment: Shipment::zeroed(),
    };
    let _ = next.init_shipment(title);
    if !next.shipment.fits_in_account() {
        return Err(LumiError::Framework(FrameworkError::AccountDidNotSerialize));
    }
    *ctx = next;
    Ok(())
}

/// How the creation of a shipment fails: the shipment's address is checked against the
/// address found for the title and the seller, then the new shipment must fit in its space.
pub open spec fn init_shipment_failure(ctx: Ship, program_id: Seq<u8>, title: Seq<char>) -> Option<
    LumiError,
> {
    init_shipment_at_failure(
        ctx,
        canonical_program_address(shipment_seeds_view(title, ctx.seller@), program_id),
        title,
    )
}

/// Step two: the seller creates the shipment at the address derived from its title and the
/// seller, in transit.
pub fn init_shipment(ctx: &mut Ship, program_id: &Pubkey, title: String) -> (r: Result<
    (),
    LumiError,
>)
    ensures
        match init_shipment_failure(*old(ctx), program_id@, title@) {
            Some(e) => r == Err::<(), LumiError>(e) && *final(ctx) == *old(ctx),
            None => {
                &&& r is Ok
                &&& final(ctx).shipment@ == ShipmentView::zeroed().started(title@)
                &&& final(ctx).same_accounts(*old(ctx))
            },
        },
{
    let seeds = shipment_seeds(&title, &ctx.seller);
    let found = try_find_program_address(&seeds, program_id);
    init_shipment_at(ctx, found, title)
}

/// Step three: the seller pays the logistics provider `amount` tokens.
pub fn deposit(ctx: &PaymentForTransportAndTracking, amount: u64) -> (r: Result<
    Vec<TokenCpi>,
    LumiError,
>)
    ensures
        r matches Ok(calls) && calls@.len() == 1 && is_transfer(
            calls@[0],
            ctx.seller_ata@,
            ctx.logistics_ata@,
            ctx.seller@,
            ctx.mint_usd@,
            amount,
            ctx.mint_decimals,
            Seq::empty(),
        ),
{
    let mut calls: Vec<TokenCpi> = Vec::new();
    calls.push(ctx.deposit(amount));
    Ok(calls)
}

/// How an update of a shipment fails, given what the search for its bump found: the address
/// check, then the updated shipment must fit in its space.
pub open spec fn update_shipment_at_failure(
    ctx: UpdateShipment,
    found: Option<(Seq<u8>, u8)>,
    title: Seq<char>,
    description: Seq<char>,
    destination_location: Seq<char>,
    current_location: Seq<char>,
    destination_coordinates: u64,
    current_location_coordinates: u64,
    status: Seq<char>,
) -> Option<LumiError> {
    match found_check(found, ctx.shipment_address@) {
        Some(e) => Some(e),
        None => if ctx.shipment@.updated(
            title,
            description,
            destination_location,
            current_location,
            destination_coordinates,
            current_location_coordinates,
            status,
            ctx.logistics@,
        ).fits_in_account() {
            None
        } else {
            Some(LumiError::Framework(FrameworkError::AccountDidNotSerialize))
        },
    }
}

/// An update of a shipment, given what the search for the bump of the title and the seller
/// found.
pub fn update_shipment_at(
    ctx: &mut UpdateShipment,
    found: Option<(Pubkey, u8)>,
    title: String,
    description: String,
    destination_location: String,
    current_location: String,
    destination_coordinates: u64,
    current_location_coordinates: u64,
    status: String,
) -> (r: Result<(), LumiError>)
    ensures
        match update_shipment_at_failure(
            *old(ctx),
            found_view(found),
            title@,
            description@,
            destination_location@,
            current_location@,
            destination_coordinates,
            current_location_coordinates,
            status@,
        ) {
            Some(e) => r == Err::<(), LumiError>(e) && *final(ctx) == *old(ctx),
            None => {
                &&& r is Ok
                &&& final(ctx).shipment@ == old(ctx).shipment@.updated(
                    title@,
                    description@,
                    destination_location@,
                    current_location@,
                    destination_coordinates,
                    current_location_coordinates,
                    status@,
                    old(ctx).logistics@,
                )
                &&& final(ctx).same_accounts(*old(ctx))
            },
        },
{
    match check_found(&found, &ctx.shipment_address) {
        Ok(_) => {},
        Err(e) => return Err(e),
    }
    let mut next = UpdateShipment {
        seller: ctx.seller,
        logistics: ctx.logistics,
        mint_usd: ctx.mint_usd,
        logistics_ata: ctx.logistics_ata,
        shipment_address: ctx.shipment_address,
        shipment: ctx.shipment.duplicate(),
    };
    let _ = next.update_shipment(
        title,
        description,
        destination_location,
        current_location,
        destination_coordinates,
        current_location_coordinates,
        status,
    );
    if !next.shipment.fits_in_account() {
        return Err(LumiError::Framework(FrameworkError::AccountDidNotSerialize));
    }
    *ctx = next;
    Ok(())
}

/// How an update of a shipment fails: the shipment's address is checked against the address
/// found for the title and the seller, then the updated shipment must fit in its space.
pub open spec fn update_shipment_failure(
    ctx: UpdateShipment,
    program_id: Seq<u8>,
    title: Seq<char>,
    description: Seq<char>,
    destination_location: Seq<char>,
    current_location: Seq<char>,
    destination_coordinates: u64,
    current_location_coordinates: u64,
    status: Seq<char>,
) -> Option<LumiError> {
    update_shipment_at_failure(
        ctx,
        canonical_program_address(shipment_seeds_view(title, ctx.seller@), program_id),
        title,
        description,
        destination_location,
        current_location,
        destination_coordinates,
        current_location_coordinates,
        status,
    )
}

/// Step four: the logistics provider rewrites the shipment found at the address derived
/// from the title and the seller.
pub fn update_shipment(
    ctx: &mut UpdateShipment,
    program_id: &Pubkey,
    title: String,
    description: String,
    destination_location: String,
    current_location: String,
    destination_coordinates: u64,
    current_location_coordinates: u64,
    status: String,
) -> (r: Result<(), LumiError>)
    ensures
        match update_shipment_failure(
            *old(ctx),
            program_id@,
            title@,
            description@,
            destination_location@,
            current_location@,
            destination_coordinates,
            current_location_coordinates,
            status@,
        ) {
            Some(e) => r == Err::<(), LumiError>(e) && *final(ctx) == *old(ctx),
            None => {
                &&& r is Ok
                &&& final(ctx).shipment@ == old(ctx).shipment@.updated(
                    title@,
                    description@,
                    destination_location@,
                    current_location@,
                    destination_coordinates,
                    current_location_coordinates,
                    status@,
                    old(ctx).logistics@,
                )
                &&& final(ctx).same_accounts(*old(ctx))
            },
        },
{
    let seeds = shipment_seeds(&title, &ctx.seller);
    let found = try_find_program_address(&seeds, program_id);
    update_shipment_at(
        ctx,
        found,
        title,
        description,
        destination_location,
        current_location,
        destination_coordinates,
        current_location_coordinates,
        status,
    )
}

/// How the dispute instruction fails, given what the search for the shipment's bump found
/// and the escrow address derived with its stored bump: the shipment's address check, the
/// escrow's, the signer must be the escrow's buyer, a reason of only white space, then the
/// shipment and the escrow must fit in their space.
pub open spec fn dispute_at_failure(
    ctx: Dispute,
    shipment_found: Option<(Seq<u8>, u8)>,
    escrow_derived: Option<Seq<u8>>,
    title: Seq<char>,
    reason: Seq<char>,
) -> Option<LumiError> {
    match found_check(shipment_found, ctx.shipment_address@) {
        Some(e) => Some(e),
        None => match derived_check(escrow_derived, ctx.escrow_address@) {
            Some(e) => Some(e),
            None => if ctx.buyer@ != ctx.escrow.buyer@ {
                Some(LumiError::Framework(FrameworkError::ConstraintHasOne))
            } else if is_blank_text(reason) {
                Some(LumiError::Program(ErrorCode::EmptyDisputeReason))
            } else if !ctx.shipment@.disputed_under(title).fits_in_account() {
                Some(LumiError::Framework(FrameworkError::AccountDidNotSerialize))
            } else if !(EscrowView {
                is_disputed: true,
                dispute_reason: reason,
                ..ctx.escrow@
            }).fits_in_account() {
                Some(LumiError::Framework(FrameworkError::AccountDidNotSerialize))
            } else {
                None
            },
        },
    }
}

/// The dispute instruction, given what the search for the bump of the title and the escrow's
/// buyer found and the escrow address derived with its stored bump.
pub fn dispute_at(
    ctx: &mut Dispute,
    shipment_found: Option<(Pubkey, u8)>,
    escrow_derived: Option<Pubkey>,
    title: String,
    reason: String,
) -> (r: Result<(), LumiError>)
    ensures
        match dispute_at_failure(
            *old(ctx),
            found_view(shipment_found),
            key_option_view(escrow_derived),
            title@,
            reason@,
        ) {
            Some(e) => r == Err::<(), LumiError>(e) && *final(ctx) == *old(ctx),
            None => {
                &&& r is Ok
                &&& final(ctx).shipment@ == old(ctx).shipment@.disputed_under(title@)
                &&& final(ctx).escrow@ == (EscrowView {
                    is_disputed: true,
                    dispute_reason: reason@,
                    ..old(ctx).escrow@
                })
                &&& final(ctx).buyer@ == old(ctx).buyer@
                &&& final(ctx).logistics@ == old(ctx).logistics@
                &&& final(ctx).shipment_address@ == old(ctx).shipment_address@
                &&& final(ctx).escrow_address@ == old(ctx).escrow_address@
            },
        },
{
    match check_found(&shipment_found, &ctx.shipment_address) {
        Ok(_) => {},
        Err(e) => return Err(e),
    }
    match check_derived(&escrow_derived, &ctx.escrow_address) {
        Ok(_) => {},
        Err(e) => return Err(e),
    }
    if !ctx.buyer.key_eq(&ctx.escrow.buyer) {
        return Err(LumiError::Framework(FrameworkError::ConstraintHasOne));
    }
    if is_blank(reason.as_str()) {
        return Err(LumiError::Program(ErrorCode::EmptyDisputeReason));
    }
    let mut next = Dispute {
        buyer: ctx.buyer,
        logistics: ctx.logistics,
        shipment_address: ctx.shipment_address,
        shipment: ctx.shipment.duplicate(),
        escrow_address: ctx.escrow_address,
        escrow: ctx.escrow.duplicate(),
    };
    next.shipment.title = title;
    next.shipment.status = "DISPUTED".to_string();
    next.escrow.is_disputed = true;
    next.escrow.dispute_reason = reason;
    if !next.shipment.fits_in_account() {
        return Err(LumiError::Framework(FrameworkError::AccountDidNotSerialize));
    }
    if !next.escrow.fits_in_account() {
        return Err(LumiError::Framework(FrameworkError::AccountDidNotSerialize));
    }
    *ctx = next;
    Ok(())
}

/// How the dispute instruction fails: the shipment's address is checked against the address
/// found for the title and the escrow's buyer, the escrow's against the address of `escrow`,
/// its buyer, its seed number and its stored bump; the signer must be the escrow's buyer; the
/// reason must hold more than white space; the shipment and then the escrow must fit in their
/// space.
pub open spec fn dispute_failure(
    ctx: Dispute,
    program_id: Seq<u8>,
    title: Seq<char>,
    reason: Seq<char>,
) -> Option<LumiError> {
    dispute_at_failure(
        ctx,
        canonical_program_address(shipment_seeds_view(title, ctx.escrow.buyer@), program_id),
        program_address(
            escrow_seeds_view(ctx.escrow.buyer@, ctx.escrow.seed).push(seq![ctx.escrow.bump]),
            program_id,
        ),
        title,
        reason,
    )
}

/// Step five: the buyer disputes the shipment; the shipment takes the title and the disputed
/// status and keeps its logistics provider (whose account is passed only to find the
/// shipment), the escrow is marked disputed with the
/// reason.
pub fn dispute(ctx: &mut Dispute, program_id: &Pubkey, title: String, reason: String) -> (r: Result<
    (),
    LumiError,
>)
    ensures
        match dispute_failure(*old(ctx), program_id@, title@, reason@) {
            Some(e) => r == Err::<(), LumiError>(e) && *final(ctx) == *old(ctx),
            None => {
                &&& r is Ok
                &&& final(ctx).shipment@ == old(ctx).shipment@.disputed_under(title@)
                &&& final(ctx).escrow@ == (EscrowView {
                    is_disputed: true,
                    dispute_reason: reason@,
                    ..old(ctx).escrow@
                })
                &&& final(ctx).buyer@ == old(ctx).buyer@
                &&& final(ctx).logistics@ == old(ctx).logistics@
                &&& final(ctx).shipment_address@ == old(ctx).shipment_address@
                &&& final(ctx).escrow_address@ == old(ctx).escrow_address@
            },
        },
{
    let shipment_seed_list = shipment_seeds(&title, &ctx.escrow.buyer);
    let shipment_found = try_find_program_address(&shipment_seed_list, program_id);
    let escrow_seed_list = with_bump(escrow_seeds(&ctx.escrow.buyer, ctx.escrow.seed), ctx.escrow.bump);
    let escrow_derived = create_program_address(&escrow_seed_list, program_id);
    dispute_at(ctx, shipment_found, escrow_derived, title, reason)
}

/// Step six: the check that decides whether the buyer may be refunded: only a lost or
/// disputed shipment passes. The transfers of the refund itself are not part of this
/// program.
pub fn refund_buyer(ctx: &Refund) -> (r: Result<(), LumiError>)
    ensures
        ctx.shipment@.refund_eligible() ==> r is Ok,
        !ctx.shipment@.refund_eligible() ==> r == Err::<(), LumiError>(
            LumiError::Dispute(DisputeError::ShipmentNotEligibleForRefund),
        ),
{
    if !ctx.shipment.refund_eligible() {
        return Err(LumiError::Dispute(DisputeError::ShipmentNotEligibleForRefund));
    }
    Ok(())
}

/// How the seller's withdrawal fails, given what the search for the bump of the shipment's
/// title and the signing seller found and the escrow address derived with its stored bump:
/// the shipment must be the one that seller created under its title; the escrow's address
/// check; the escrow must name the mint and then the buyer that are passed; the shipment must
/// have been delivered.
pub open spec fn withdraw_at_failure(
    ctx: Withdraw,
    shipment_found: Option<(Seq<u8>, u8)>,
    escrow_derived: Option<Seq<u8>>,
) -> Option<LumiError> {
    match found_check(shipment_found, ctx.shipment_address@) {
        Some(e) => Some(e),
        None => match derived_check(escrow_derived, ctx.escrow_address@) {
        Some(e) => Some(e),
        None => if ctx.escrow.mint_usd@ != ctx.mint_usd@ || ctx.escrow.buyer@ != ctx.buyer@ {
            Some(LumiError::Framework(FrameworkError::ConstraintHasOne))
        } else if !ctx.shipment@.has_arrived() {
            Some(LumiError::Custom(CustomError::ShipmentNotArrived))
        } else {
            None
        },
        },
    }
}

/// The seller's withdrawal, given what the search for the bump of the shipment's title and
/// the seller found and the escrow address derived with its stored bump.
pub fn withdraw_at(
    ctx: &Withdraw,
    shipment_found: Option<(Pubkey, u8)>,
    escrow_derived: Option<Pubkey>,
) -> (r: Result<
    (Vec<TokenCpi>, AccountClose),
    LumiError,
>)
    ensures
        match withdraw_at_failure(
            *ctx,
            found_view(shipment_found),
            key_option_view(escrow_derived),
        ) {
            Some(e) => r == Err::<(Vec<TokenCpi>, AccountClose), LumiError>(e),
            None => r matches Ok((calls, closing)) && closing.account@ == ctx.escrow_address@
                && closing.destination@ == ctx.seller@ && calls@.len() == 2 && is_transfer(
                calls@[0],
                ctx.vault@,
                ctx.seller_ata@,
                ctx.escrow_address@,
                ctx.mint_usd@,
                ctx.vault_amount,
                ctx.mint_decimals,
                escrow_signer_seeds_view(ctx.escrow.buyer@, ctx.escrow.seed, ctx.escrow.bump),
            ) && is_close(
                calls@[1],
                ctx.vault@,
                ctx.buyer@,
                ctx.escrow_address@,
                escrow_signer_seeds_view(ctx.escrow.buyer@, ctx.escrow.seed, ctx.escrow.bump),
            ),
        },
{
    match check_found(&shipment_found, &ctx.shipment_address) {
        Ok(_) => {},
        Err(e) => return Err(e),
    }
    match check_derived(&escrow_derived, &ctx.escrow_address) {
        Ok(_) => {},
        Err(e) => return Err(e),
    }
    if !ctx.escrow.mint_usd.key_eq(&ctx.mint_usd) || !ctx.escrow.buyer.key_eq(&ctx.buyer) {
        return Err(LumiError::Framework(FrameworkError::ConstraintHasOne));
    }
    if !ctx.shipment.has_arrived() {
        return Err(LumiError::Custom(CustomError::ShipmentNotArrived));
    }
    let mut calls: Vec<TokenCpi> = Vec::new();
    calls.push(ctx.seller_withdrawal());
    calls.push(ctx.close());
    Ok((calls, AccountClose { account: ctx.escrow_address, destination: ctx.seller }))
}

/// How the seller's withdrawal fails: the shipment's address is checked against the address
/// found for its title and the signing seller; the escrow's against the address of `escrow`,
/// its buyer, the given seed number and its stored bump; the escrow must name the mint and
/// then the buyer that are passed; the shipment must have been delivered.
pub open spec fn withdraw_failure(ctx: Withdraw, program_id: Seq<u8>, seeds: u64) -> Option<
    LumiError,
> {
    withdraw_at_failure(
        ctx,
        canonical_program_address(shipment_seeds_view(ctx.shipment.title@, ctx.seller@), program_id),
        program_address(
            escrow_seeds_view(ctx.escrow.buyer@, seeds).push(seq![ctx.escrow.bump]),
            program_id,
        ),
    )
}

/// Step seven: once the seller's shipment has been delivered, the transfer of everything in the vault to the
/// seller and the closing of the vault to the buyer, both signed by the escrow; the escrow
/// account itself is closed to the seller when the instruction ends.
pub fn withdraw(ctx: &Withdraw, program_id: &Pubkey, seeds: u64) -> (r: Result<
    (Vec<TokenCpi>, AccountClose),
    LumiError,
>)
    ensures
        match withdraw_failure(*ctx, program_id@, seeds) {
            Some(e) => r == Err::<(Vec<TokenCpi>, AccountClose), LumiError>(e),
            None => r matches Ok((calls, closing)) && closing.account@ == ctx.escrow_address@
                && closing.destination@ == ctx.seller@ && calls@.len() == 2 && is_transfer(
                calls@[0],
                ctx.vault@,
                ctx.seller_ata@,
                ctx.escrow_address@,
                ctx.mint_usd@,
                ctx.vault_amount,
                ctx.mint_decimals,
                escrow_signer_seeds_view(ctx.escrow.buyer@, ctx.escrow.seed, ctx.escrow.bump),
            ) && is_close(
                calls@[1],
                ctx.vault@,
                ctx.buyer@,
                ctx.escrow_address@,
                escrow_signer_seeds_view(ctx.escrow.buyer@, ctx.escrow.seed, ctx.escrow.bump),
            ),
        },
{
    let shipment_seed_list = shipment_seeds(&ctx.shipment.title, &ctx.seller);
    let shipment_found = try_find_program_address(&shipment_seed_list, program_id);
    let seed_list = with_bump(escrow_seeds(&ctx.escrow.buyer, seeds), ctx.escrow.bump);
    let escrow_derived = create_program_address(&seed_list, program_id);
    withdraw_at(ctx, shipment_found, escrow_derived)
}

} // verus!
