//! Properties of the program that span its instructions.
use vstd::prelude::*;

use crate::dispute::{file_dispute_outcome, resolve_dispute_outcome, Dispute};
use crate::error::{CustomError, FiledDisputeError, LumiError};
use crate::lumi_prtl::{
    dispute_failure,
    found_address_failure,
    init_shipment_failure,
    stored_bump_failure,
    update_shipment_failure,
    withdraw_failure,
};
use crate::pubkey::{
    escrow_seeds_view,
    escrow_signer_seeds_view,
    program_address,
    shipment_seeds_view,
};
use crate::seller::{Ship, Withdraw};
use crate::state::{delivered, disputed, in_transit, lost, EscrowView, ShipmentView};
use crate::text::{f64_eq, is_blank_text, is_nan_bits, is_white_space};
use crate::update_shipment::UpdateShipment;

verus! {

/// The status texts that the program compares differ from one another.
pub proof fn lemma_statuses_distinct()
    ensures
        in_transit() != delivered(),
        in_transit() != lost(),
        in_transit() != disputed(),
        disputed() != delivered(),
        lost() != delivered(),
        lost() != disputed(),
{
    reveal_strlit("In Transit");
    reveal_strlit("Delivered");
    reveal_strlit("LOST");
    reveal_strlit("DISPUTED");
    assert(in_transit().len() == 10);
    assert(delivered().len() == 9);
    assert(lost().len() == 4);
    assert(disputed().len() == 8);
}

/// Floating-point equality of coordinates is symmetric.
pub proof fn law_coordinates_equality_symmetric(a: u64, b: u64)
    ensures
        f64_eq(a, b) == f64_eq(b, a),
{
    assert((a | b) == (b | a)) by (bit_vector);
}

/// Floating-point equality of coordinates holds of every coordinate that is not a NaN and
/// itself, and of positive and negative zero.
pub proof fn law_coordinates_equality_reflexive(a: u64)
    ensures
        !is_nan_bits(a) ==> f64_eq(a, a),
        f64_eq(0, 0x8000_0000_0000_0000u64),
{
    assert(!is_nan_bits(0) && !is_nan_bits(0x8000_0000_0000_0000u64)) by (bit_vector);
    assert(((0u64 | 0x8000_0000_0000_0000u64) & 0x7fff_ffff_ffff_ffffu64) == 0) by (bit_vector);
}

/// A shipment whose destination coordinate is a NaN never counts as arrived, so its escrow
/// is never paid out to the seller.
pub proof fn law_nan_destination_never_arrives(s: ShipmentView)
    requires
        is_nan_bits(s.destination_coordinates),
    ensures
        !s.has_arrived(),
{
}

/// A shipment that has just been started is in transit, not delivered, so it does not count as
/// arrived and its escrow cannot be withdrawn.
pub proof fn law_started_shipment_not_arrived(s: ShipmentView, title: Seq<char>)
    ensures
        !s.started(title).has_arrived(),
{
    lemma_statuses_distinct();
}

/// A shipment that has just been started is in transit: no refund may be paid for it.
pub proof fn law_started_shipment_not_refundable(s: ShipmentView, title: Seq<char>)
    ensures
        !s.started(title).refund_eligible(),
{
    lemma_statuses_distinct();
}

/// A shipment that has just been started can be disputed with any reason that holds more
/// than white space.
pub proof fn law_started_shipment_disputable(
    s: ShipmentView,
    title: Seq<char>,
    escrow: EscrowView,
    reason: Seq<char>,
)
    requires
        !is_blank_text(reason),
    ensures
        file_dispute_outcome(s.started(title), escrow, reason) == Ok::<
            EscrowView,
            FiledDisputeError,
        >(EscrowView { is_disputed: true, dispute_reason: reason, ..escrow }),
{
    lemma_statuses_distinct();
}

/// A delivered shipment cannot be disputed, whatever the reason.
pub proof fn law_delivered_shipment_not_disputable(
    s: ShipmentView,
    escrow: EscrowView,
    reason: Seq<char>,
)
    requires
        s.status == delivered(),
    ensures
        file_dispute_outcome(s, escrow, reason) == Err::<EscrowView, FiledDisputeError>(
            FiledDisputeError::ShipmentAlreadyDelivered,
        ),
{
}

/// After the dispute instruction, a refund may be paid for the shipment.
pub proof fn law_disputed_shipment_refundable(s: ShipmentView, title: Seq<char>)
    ensures
        s.disputed_under(title).refund_eligible(),
{
}

/// A dispute filed by the buyer and then resolved by the shipment's logistics provider
/// leaves the escrow no longer disputed, with the verdict recorded and the reason kept.
pub proof fn law_file_then_resolve(
    s: ShipmentView,
    escrow: EscrowView,
    reason: Seq<char>,
    verdict: bool,
)
    requires
        s.status != delivered(),
        !is_blank_text(reason),
    ensures
        file_dispute_outcome(s, escrow, reason) is Ok,
        resolve_dispute_outcome(s.logistics, s, file_dispute_outcome(s, escrow, reason)->Ok_0, verdict)
            == Ok::<EscrowView, FiledDisputeError>(
            EscrowView {
                is_disputed: false,
                is_dispute_resolved: verdict,
                dispute_reason: reason,
                ..escrow
            },
        ),
{
}

/// A dispute is resolved at most once: after a resolution, resolving again is refused for
/// want of an active dispute.
pub proof fn law_second_resolution_refused(
    resolver: Seq<u8>,
    s: ShipmentView,
    escrow: EscrowView,
    first: bool,
    second: bool,
)
    requires
        resolve_dispute_outcome(resolver, s, escrow, first) is Ok,
    ensures
        resolve_dispute_outcome(
            resolver,
            s,
            resolve_dispute_outcome(resolver, s, escrow, first)->Ok_0,
            second,
        ) == Err::<EscrowView, FiledDisputeError>(FiledDisputeError::NoActiveDispute),
{
}

/// Only the shipment's logistics provider resolves a dispute: anyone else is refused,
/// whether a dispute is active or not.
pub proof fn law_only_logistics_resolves(
    resolver: Seq<u8>,
    s: ShipmentView,
    escrow: EscrowView,
    verdict: bool,
)
    requires
        resolver != s.logistics,
    ensures
        resolve_dispute_outcome(resolver, s, escrow, verdict) == Err::<
            EscrowView,
            FiledDisputeError,
        >(FiledDisputeError::UnauthorizedResolver),
{
}

/// After an update, whether the shipment counts as arrived depends only on the status,
/// locations and coordinates that the update wrote.
pub proof fn law_update_decides_arrival(
    s: ShipmentView,
    title: Seq<char>,
    description: Seq<char>,
    destination_location: Seq<char>,
    current_location: Seq<char>,
    destination_coordinates: u64,
    current_location_coordinates: u64,
    status: Seq<char>,
    logistics: Seq<u8>,
)
    ensures
        s.updated(
            title,
            description,
            destination_location,
            current_location,
            destination_coordinates,
            current_location_coordinates,
            status,
            logistics,
        ).has_arrived() == (status == delivered() && destination_location == current_location
            && f64_eq(
            destination_coordinates,
            current_location_coordinates,
        )),
{
}

/// The escrow signs for its vault with the seeds of its address followed by its stored bump:
/// where its address is derived from what it stores, the signer seeds derive that address.
pub proof fn law_signer_seeds_derive_escrow(e: EscrowView, program_id: Seq<u8>, address: Seq<u8>)
    requires
        escrow_at(e, program_id, address),
    ensures
        program_address(escrow_signer_seeds_view(e.buyer, e.seed, e.bump), program_id) == Some(
            address,
        ),
{
}

/// A shipment created under a title by a seller passes the address check of every later
/// update under the same title by the same seller: such an update fails only where the new
/// texts do not fit in the shipment's space.
pub proof fn law_created_shipment_updatable(
    ship: Ship,
    update: UpdateShipment,
    program_id: Seq<u8>,
    title: Seq<char>,
    description: Seq<char>,
    destination_location: Seq<char>,
    current_location: Seq<char>,
    destination_coordinates: u64,
    current_location_coordinates: u64,
    status: Seq<char>,
)
    requires
        init_shipment_failure(ship, program_id, title) is None,
        update.seller@ == ship.seller@,
        update.shipment_address@ == ship.shipment_address@,
    ensures
        update_shipment_failure(
            update,
            program_id,
            title,
            description,
            destination_location,
            current_location,
            destination_coordinates,
            current_location_coordinates,
            status,
        ) is None <==> update.shipment@.updated(
            title,
            description,
            destination_location,
            current_location,
            destination_coordinates,
            current_location_coordinates,
            status,
            update.logistics@,
        ).fits_in_account(),
{
}

/// A shipment created under a title by a seller passes the shipment address check of a
/// dispute under the same title whose escrow names that seller as its buyer.
pub proof fn law_created_shipment_found_by_dispute(
    ship: Ship,
    d: Dispute,
    program_id: Seq<u8>,
    title: Seq<char>,
)
    requires
        init_shipment_failure(ship, program_id, title) is None,
        d.escrow.buyer@ == ship.seller@,
        d.shipment_address@ == ship.shipment_address@,
    ensures
        found_address_failure(
            shipment_seeds_view(title, d.escrow.buyer@),
            program_id,
            d.shipment_address@,
        ) is None,
{
}

/// An escrow whose address is derived from its own buyer, seed number and stored bump (as a
/// purchase leaves it) passes the escrow address check of the dispute instruction.
pub proof fn law_purchased_escrow_found_by_dispute(d: Dispute, program_id: Seq<u8>)
    requires
        program_address(
            escrow_seeds_view(d.escrow.buyer@, d.escrow.seed).push(seq![d.escrow.bump]),
            program_id,
        ) == Some(d.escrow_address@),
    ensures
        stored_bump_failure(
            escrow_seeds_view(d.escrow.buyer@, d.escrow.seed),
            d.escrow.bump,
            program_id,
            d.escrow_address@,
        ) is None,
{
}

/// For an escrow whose address is derived from its own buyer, seed number and stored bump (as
/// a purchase leaves it), a withdrawal by the seller who created the shipment, naming that
/// seed number, the escrow's mint and its buyer, fails exactly when the shipment has not been
/// delivered.
pub proof fn law_purchased_escrow_withdrawable(w: Withdraw, program_id: Seq<u8>)
    requires
        found_address_failure(
            shipment_seeds_view(w.shipment.title@, w.seller@),
            program_id,
            w.shipment_address@,
        ) is None,
        program_address(
            escrow_seeds_view(w.escrow.buyer@, w.escrow.seed).push(seq![w.escrow.bump]),
            program_id,
        ) == Some(w.escrow_address@),
        w.escrow.mint_usd@ == w.mint_usd@,
        w.escrow.buyer@ == w.buyer@,
    ensures
        withdraw_failure(w, program_id, w.escrow.seed) == if w.shipment@.has_arrived() {
            None
        } else {
            Some(LumiError::Custom(CustomError::ShipmentNotArrived))
        },
{
}

/// Whether the dispute instruction succeeds does not depend on the escrow's dispute flags.
pub proof fn law_dispute_ignores_flags(d: Dispute, e: Dispute, program_id: Seq<u8>, title: Seq<char>, reason: Seq<char>)
    requires
        e.buyer@ == d.buyer@,
        e.logistics@ == d.logistics@,
        e.shipment_address@ == d.shipment_address@,
        e.shipment@ == d.shipment@,
        e.escrow_address@ == d.escrow_address@,
        e.escrow@ == (EscrowView { is_disputed: e.escrow.is_disputed, is_dispute_resolved: e.escrow.is_dispute_resolved, ..d.escrow@ }),
    ensures
        dispute_failure(e, program_id, title, reason) == dispute_failure(d, program_id, title, reason),
{
}

/// Only the escrow's buyer disputes: a dispute signed by anyone else is refused.
pub proof fn law_only_buyer_disputes(
    d: Dispute,
    program_id: Seq<u8>,
    title: Seq<char>,
    reason: Seq<char>,
)
    requires
        d.buyer@ != d.escrow.buyer@,
    ensures
        dispute_failure(d, program_id, title, reason) is Some,
{
}

/// Only the seller who created the shipment under its title withdraws: a withdrawal whose
/// shipment is not at the address found for its title and the signing seller is refused with
/// that check's error.
pub proof fn law_only_shipment_seller_withdraws(w: Withdraw, program_id: Seq<u8>, seeds: u64)
    requires
        found_address_failure(
            shipment_seeds_view(w.shipment.title@, w.seller@),
            program_id,
            w.shipment_address@,
        ) is Some,
    ensures
        withdraw_failure(w, program_id, seeds) == found_address_failure(
            shipment_seeds_view(w.shipment.title@, w.seller@),
            program_id,
            w.shipment_address@,
        ),
{
}

/// A withdrawal succeeds only for a delivered shipment.
pub proof fn law_withdraw_needs_delivery(w: Withdraw, program_id: Seq<u8>, seeds: u64)
    requires
        withdraw_failure(w, program_id, seeds) is None,
    ensures
        w.shipment@.status == delivered(),
{
}

/// The escrow's seed number, buyer and bump agree.
pub open spec fn same_escrow_identity(a: EscrowView, b: EscrowView) -> bool {
    a.seed == b.seed && a.buyer == b.buyer && a.bump == b.bump
}

/// The escrow's address is the one derived from its buyer, seed number and stored bump.
pub open spec fn escrow_at(e: EscrowView, program_id: Seq<u8>, address: Seq<u8>) -> bool {
    program_address(escrow_seeds_view(e.buyer, e.seed).push(seq![e.bump]), program_id) == Some(
        address,
    )
}

/// Once a purchase has opened an escrow at the address derived from its buyer, seed number and
/// bump, no instruction writes those three again: filing a dispute, resolving it and the
/// dispute instruction keep them (the withdrawal writes no escrow), so the escrow stays at the
/// address derived from what it stores.
pub proof fn law_escrow_identity_fixed(
    e: EscrowView,
    s: ShipmentView,
    reason: Seq<char>,
    resolver: Seq<u8>,
    verdict: bool,
    program_id: Seq<u8>,
    address: Seq<u8>,
)
    requires
        escrow_at(e, program_id, address),
    ensures
        file_dispute_outcome(s, e, reason) matches Ok(f) ==> same_escrow_identity(e, f)
            && escrow_at(f, program_id, address),
        resolve_dispute_outcome(resolver, s, e, verdict) matches Ok(f) ==> same_escrow_identity(
            e,
            f,
        ) && escrow_at(f, program_id, address),
        same_escrow_identity(e, EscrowView { is_disputed: true, dispute_reason: reason, ..e }),
        escrow_at(
            EscrowView { is_disputed: true, dispute_reason: reason, ..e },
            program_id,
            address,
        ),
{
}

/// Two coordinates compare equal only when they are the same number: the same bits, or
/// positive and negative zero. Coordinates that differ in any bit of their value, such as
/// 6.69 and 6.70, are not equal.
pub proof fn law_coordinates_equal_only_when_same_number(a: u64, b: u64)
    ensures
        f64_eq(a, b) ==> (a == b || ((a | b) & 0x7fff_ffff_ffff_ffffu64) == 0),
        (a != b && ((a | b) & 0x7fff_ffff_ffff_ffffu64) != 0) ==> !f64_eq(a, b),
{
}

/// A withdrawal succeeds only where the shipment's two coordinates are the same number (the
/// same bits, or the two zeros) and neither is a NaN, and its two locations are the same text.
pub proof fn law_withdraw_needs_equal_coordinates(w: Withdraw, program_id: Seq<u8>, seeds: u64)
    requires
        withdraw_failure(w, program_id, seeds) is None,
    ensures
        w.shipment.destination_location@ == w.shipment.current_location@,
        w.shipment.destination_coordinates == w.shipment.current_location_coordinates || ((
        w.shipment.destination_coordinates | w.shipment.current_location_coordinates)
            & 0x7fff_ffff_ffff_ffffu64) == 0,
        !((w.shipment.destination_coordinates & 0x7ff0_0000_0000_0000u64)
            == 0x7ff0_0000_0000_0000u64 && (w.shipment.destination_coordinates
            & 0x000f_ffff_ffff_ffffu64) != 0),
{
}

/// Whether the dispute instruction succeeds does not depend on the shipment's status: a
/// delivered shipment can be disputed exactly as one in transit.
pub proof fn law_dispute_ignores_shipment_status(
    d: Dispute,
    e: Dispute,
    program_id: Seq<u8>,
    title: Seq<char>,
    reason: Seq<char>,
)
    requires
        e.buyer@ == d.buyer@,
        e.logistics@ == d.logistics@,
        e.shipment_address@ == d.shipment_address@,
        e.shipment@ == (ShipmentView { status: e.shipment@.status, ..d.shipment@ }),
        e.escrow_address@ == d.escrow_address@,
        e.escrow@ == d.escrow@,
    ensures
        dispute_failure(e, program_id, title, reason) == dispute_failure(d, program_id, title, reason),
{
    assert(e.shipment@.disputed_under(title) == d.shipment@.disputed_under(title));
}

/// A successful dispute instruction leaves the shipment with the given title and the
/// disputed status, and every other field as it was; the escrow disputed with the given
/// reason and every other field as it was.
pub proof fn law_dispute_writes(s: ShipmentView, title: Seq<char>)
    ensures
        s.disputed_under(title).title == title,
        s.disputed_under(title).status == "DISPUTED"@,
        s.disputed_under(title).description == s.description,
        s.disputed_under(title).destination_location == s.destination_location,
        s.disputed_under(title).current_location == s.current_location,
        s.disputed_under(title).destination_coordinates == s.destination_coordinates,
        s.disputed_under(title).current_location_coordinates == s.current_location_coordinates,
        s.disputed_under(title).logistics == s.logistics,
        s.disputed_under(title).bump == s.bump,
{
}

/// An update writes every field it is given, whatever the status, and keeps only the bump.
pub proof fn law_update_writes_every_field(
    s: ShipmentView,
    title: Seq<char>,
    description: Seq<char>,
    destination_location: Seq<char>,
    current_location: Seq<char>,
    destination_coordinates: u64,
    current_location_coordinates: u64,
    status: Seq<char>,
    logistics: Seq<u8>,
)
    ensures
        ({
            let u = s.updated(
                title,
                description,
                destination_location,
                current_location,
                destination_coordinates,
                current_location_coordinates,
                status,
                logistics,
            );
            &&& u.title == title
            &&& u.description == description
            &&& u.destination_location == destination_location
            &&& u.current_location == current_location
            &&& u.destination_coordinates == destination_coordinates
            &&& u.current_location_coordinates == current_location_coordinates
            &&& u.status == status
            &&& u.logistics == logistics
            &&& u.bump == s.bump
        }),
{
}

/// A refund is allowed exactly for the statuses `LOST` and `DISPUTED`: in particular never for
/// a delivered shipment nor one in transit.
pub proof fn law_refund_only_lost_or_disputed(s: ShipmentView)
    ensures
        s.refund_eligible() <==> (s.status == "LOST"@ || s.status == "DISPUTED"@),
        s.status == "Delivered"@ ==> !s.refund_eligible(),
        s.status == "In Transit"@ ==> !s.refund_eligible(),
{
    lemma_statuses_distinct();
}

/// The shipment's logistics provider resolves any active dispute, whatever the shipment's
/// status: the dispute is closed and the verdict recorded, the rest of the escrow kept.
pub proof fn law_logistics_resolves_active_dispute(
    s: ShipmentView,
    escrow: EscrowView,
    verdict: bool,
)
    requires
        escrow.is_disputed,
    ensures
        resolve_dispute_outcome(s.logistics, s, escrow, verdict) == Ok::<
            EscrowView,
            FiledDisputeError,
        >(EscrowView { is_disputed: false, is_dispute_resolved: verdict, ..escrow }),
{
}

/// Every number that is not a NaN equals itself: finite numbers and both infinities; a NaN
/// (all exponent bits set, a non-zero fraction) equals nothing, not even itself.
pub proof fn law_coordinates_equal_themselves(a: u64)
    ensures
        (a & 0x7ff0_0000_0000_0000u64) != 0x7ff0_0000_0000_0000u64 ==> f64_eq(a, a),
        f64_eq(0x7ff0_0000_0000_0000u64, 0x7ff0_0000_0000_0000u64),
        f64_eq(0xfff0_0000_0000_0000u64, 0xfff0_0000_0000_0000u64),
        ((a & 0x7ff0_0000_0000_0000u64) == 0x7ff0_0000_0000_0000u64 && (a
            & 0x000f_ffff_ffff_ffffu64) != 0) ==> !f64_eq(a, a),
{
    assert((a & 0x7ff0_0000_0000_0000u64) != 0x7ff0_0000_0000_0000u64 ==> !is_nan_bits(a))
        by (bit_vector);
    assert(!is_nan_bits(0x7ff0_0000_0000_0000u64) && !is_nan_bits(0xfff0_0000_0000_0000u64))
        by (bit_vector);
}

/// A text counts as blank only when every character in it is white space: a text holding a
/// visible ASCII character (from `!` to `~`) is never blank, and the empty text is.
pub proof fn law_blank_text_is_white_space_only(s: Seq<char>, i: int)
    requires
        0 <= i < s.len(),
        0x21 <= (s[i] as u32) <= 0x7e,
    ensures
        !is_blank_text(s),
        is_blank_text(Seq::<char>::empty()),
{
    assert(!is_white_space(s[i]));
}

/// Filing a dispute on a shipment that is not delivered, with a reason of only white space,
/// is refused for the empty reason and leaves the escrow as it is.
pub proof fn law_blank_reason_refused(s: ShipmentView, escrow: EscrowView, reason: Seq<char>)
    requires
        s.status != delivered(),
        is_blank_text(reason),
    ensures
        file_dispute_outcome(s, escrow, reason) == Err::<EscrowView, FiledDisputeError>(
            FiledDisputeError::EmptyDisputeReason,
        ),
{
}

} // verus!
