//! The two accounts that the program keeps: the escrow of a purchase and the shipment that
//! carries the goods.
use vstd::prelude::*;
use vstd::utf8::encode_utf8;

use crate::pubkey::Pubkey;
use crate::text::{f64_bits_eq, f64_eq};

verus! {

/// The space that an escrow account reserves for its data, the dispute reason counted at 100
/// bytes.
pub const ESCROW_INIT_SPACE: usize = 8 + 32 + 32 + 8 + 1 + 1 + 1 + 1 + (4 + 100) + 1 + 1;

/// The space that a shipment account reserves for its data, each text counted at its
/// largest length.
pub const SHIPMENT_INIT_SPACE: usize = (4 + 32) + (4 + 100) + (4 + 50) + (4 + 50) + 8 + 8 + (4
    + 32) + 32 + 1;

/// An escrow: the buyer's payment held in a vault until the goods arrive.
pub struct Escrow {
    pub seed: u64,
    pub buyer: Pubkey,
    pub mint_usd: Pubkey,
    /// The amount of the token transferred into the vault in exchange for the goods.
    pub amount: u64,
    pub bump: u8,
    pub is_completed: bool,
    pub is_cancelled: bool,
    pub is_disputed: bool,
    pub dispute_reason: String,
    pub is_refunded: bool,
    pub is_dispute_resolved: bool,
}

/// A shipment and where it stands. The coordinates are held as the bit patterns of the
/// IEEE-754 double-precision numbers that the program receives.
pub struct Shipment {
    pub title: String,
    pub description: String,
    pub destination_location: String,
    pub current_location: String,
    pub destination_coordinates: u64,
    pub current_location_coordinates: u64,
    pub status: String,
    pub logistics: Pubkey,
    pub bump: u8,
}

/// What an escrow holds, as mathematical values.
pub struct EscrowView {
    pub seed: u64,
    pub buyer: Seq<u8>,
    pub mint_usd: Seq<u8>,
    pub amount: u64,
    pub bump: u8,
    pub is_completed: bool,
    pub is_cancelled: bool,
    pub is_disputed: bool,
    pub dispute_reason: Seq<char>,
    pub is_refunded: bool,
    pub is_dispute_resolved: bool,
}

/// What a shipment holds, as mathematical values.
pub struct ShipmentView {
    pub title: Seq<char>,
    pub description: Seq<char>,
    pub destination_location: Seq<char>,
    pub current_location: Seq<char>,
    pub destination_coordinates: u64,
    pub current_location_coordinates: u64,
    pub status: Seq<char>,
    pub logistics: Seq<u8>,
    pub bump: u8,
}

impl View for Escrow {
    type V = EscrowView;

    open spec fn view(&self) -> EscrowView {
        EscrowView {
            seed: self.seed,
            buyer: self.buyer@,
            mint_usd: self.mint_usd@,
            amount: self.amount,
            bump: self.bump,
            is_completed: self.is_completed,
            is_cancelled: self.is_cancelled,
            is_disputed: self.is_disputed,
            dispute_reason: self.dispute_reason@,
            is_refunded: self.is_refunded,
            is_dispute_resolved: self.is_dispute_resolved,
        }
    }
}

impl View for Shipment {
    type V = ShipmentView;

    open spec fn view(&self) -> ShipmentView {
        ShipmentView {
            title: self.title@,
            description: self.description@,
            destination_location: self.destination_location@,
            current_location: self.current_location@,
            destination_coordinates: self.destination_coordinates,
            current_location_coordinates: self.current_location_coordinates,
            status: self.status@,
            logistics: self.logistics@,
            bump: self.bump,
        }
    }
}

/// The status that a new shipment starts in.
pub open spec fn in_transit() -> Seq<char> {
    "In Transit"@
}

/// The status of a delivered shipment.
pub open spec fn delivered() -> Seq<char> {
    "Delivered"@
}

/// The status of a disputed shipment.
pub open spec fn disputed() -> Seq<char> {
    "DISPUTED"@
}

/// The status of a lost shipment.
pub open spec fn lost() -> Seq<char> {
    "LOST"@
}

/// The number of bytes that a text takes when serialized: a 4-byte length and the UTF-8
/// bytes.
pub open spec fn serialized_text_len(s: Seq<char>) -> int {
    4 + encode_utf8(s).len() as int
}

/// The address made of 32 zero bytes.
pub open spec fn zero_key() -> Seq<u8> {
    Seq::new(32, |i: int| 0u8)
}

impl EscrowView {
    /// The escrow as its initialization writes it, before the deposit is recorded: amount 0, no
    /// flag set, no dispute reason.
    pub open spec fn initial(seed: u64, buyer: Seq<u8>, mint_usd: Seq<u8>, bump: u8) -> EscrowView {
        EscrowView {
            seed,
            buyer,
            mint_usd,
            amount: 0,
            bump,
            is_completed: false,
            is_cancelled: false,
            is_disputed: false,
            dispute_reason: Seq::empty(),
            is_refunded: false,
            is_dispute_resolved: false,
        }
    }

    /// The number of bytes that the escrow's data takes when serialized.
    pub open spec fn serialized_len(self) -> int {
        8 + 32 + 32 + 8 + 1 + 1 + 1 + 1 + serialized_text_len(self.dispute_reason) + 1 + 1
    }

    /// The escrow's data fits in the space of its account.
    pub open spec fn fits_in_account(self) -> bool {
        self.serialized_len() <= ESCROW_INIT_SPACE
    }
}

impl ShipmentView {
    /// The data of a newly created shipment account: empty texts, zero coordinates, the zero
    /// address, bump 0.
    pub open spec fn zeroed() -> ShipmentView {
        ShipmentView {
            title: Seq::empty(),
            description: Seq::empty(),
            destination_location: Seq::empty(),
            current_location: Seq::empty(),
            destination_coordinates: 0,
            current_location_coordinates: 0,
            status: Seq::empty(),
            logistics: zero_key(),
            bump: 0,
        }
    }

    /// The shipment once it is started under a title: no description, empty locations, zero
    /// coordinates, in transit; the logistics address and the bump are kept.
    pub open spec fn started(self, title: Seq<char>) -> ShipmentView {
        ShipmentView {
            title,
            description: Seq::empty(),
            destination_location: Seq::empty(),
            current_location: Seq::empty(),
            destination_coordinates: 0,
            current_location_coordinates: 0,
            status: in_transit(),
            ..self
        }
    }

    /// The shipment once the logistics provider has written all of it; the bump is kept.
    pub open spec fn updated(
        self,
        title: Seq<char>,
        description: Seq<char>,
        destination_location: Seq<char>,
        current_location: Seq<char>,
        destination_coordinates: u64,
        current_location_coordinates: u64,
        status: Seq<char>,
        logistics: Seq<u8>,
    ) -> ShipmentView {
        ShipmentView {
            title,
            description,
            destination_location,
            current_location,
            destination_coordinates,
            current_location_coordinates,
            status,
            logistics,
            bump: self.bump,
        }
    }

    /// The shipment has been delivered at its destination: its status is delivered, the two
    /// locations are the same text and the two coordinates compare equal as floating-point
    /// numbers.
    pub open spec fn has_arrived(self) -> bool {
        self.status == delivered() && self.destination_location == self.current_location && f64_eq(
            self.destination_coordinates,
            self.current_location_coordinates,
        )
    }

    /// The shipment once the buyer has disputed it under a title: the title and the disputed
    /// status are replaced; the logistics address is kept.
    pub open spec fn disputed_under(self, title: Seq<char>) -> ShipmentView {
        ShipmentView { title, status: disputed(), ..self }
    }

    /// A refund may be paid for the shipment: it is lost or disputed.
    pub open spec fn refund_eligible(self) -> bool {
        self.status == lost() || self.status == disputed()
    }

    /// The number of bytes that the shipment's data takes when serialized.
    pub open spec fn serialized_len(self) -> int {
        serialized_text_len(self.title) + serialized_text_len(self.description)
            + serialized_text_len(self.destination_location) + serialized_text_len(
            self.current_location,
        ) + 8 + 8 + serialized_text_len(self.status) + 32 + 1
    }

    /// The shipment's data fits in the space of its account.
    pub open spec fn fits_in_account(self) -> bool {
        self.serialized_len() <= SHIPMENT_INIT_SPACE
    }
}

/// The number of UTF-8 bytes of a text.
fn text_byte_len(s: &String) -> (r: usize)
    ensures
        r == encode_utf8(s@).len(),
{
    let bytes = s.as_str().as_bytes();
    bytes.len()
}

impl Escrow {
    /// The data of a newly created escrow account: all zero.
    pub fn zeroed() -> (r: Escrow)
        ensures
            r@ == EscrowView::initial(0, zero_key(), zero_key(), 0),
    {
        let r = Escrow {
            seed: 0,
            buyer: Pubkey { bytes: [0u8; 32] },
            mint_usd: Pubkey { bytes: [0u8; 32] },
            amount: 0,
            bump: 0,
            is_completed: false,
            is_cancelled: false,
            is_disputed: false,
            dispute_reason: String::new(),
            is_refunded: false,
            is_dispute_resolved: false,
        };
        assert(r.buyer@ =~= zero_key());
        r
    }

    /// A copy of the escrow.
    pub fn duplicate(&self) -> (r: Escrow)
        ensures
            r@ == self@,
    {
        Escrow {
            seed: self.seed,
            buyer: self.buyer,
            mint_usd: self.mint_usd,
            amount: self.amount,
            bump: self.bump,
            is_completed: self.is_completed,
            is_cancelled: self.is_cancelled,
            is_disputed: self.is_disputed,
            dispute_reason: self.dispute_reason.clone(),
            is_refunded: self.is_refunded,
            is_dispute_resolved: self.is_dispute_resolved,
        }
    }

    /// Whether the escrow's data fits in the space of its account.
    pub fn fits_in_account(&self) -> (r: bool)
        ensures
            r == self@.fits_in_account(),
    {
        text_byte_len(&self.dispute_reason) <= 100
    }
}

impl Shipment {
    /// The data of a newly created shipment account.
    pub fn zeroed() -> (r: Shipment)
        ensures
            r@ == ShipmentView::zeroed(),
    {
        let r = Shipment {
            title: String::new(),
            description: String::new(),
            destination_location: String::new(),
            current_location: String::new(),
            destination_coordinates: 0,
            current_location_coordinates: 0,
            status: String::new(),
            logistics: Pubkey { bytes: [0u8; 32] },
            bump: 0,
        };
        assert(r.logistics@ =~= zero_key());
        r
    }

    /// A copy of the shipment.
    pub fn duplicate(&self) -> (r: Shipment)
        ensures
            r@ == self@,
    {
        Shipment {
            title: self.title.clone(),
            description: self.description.clone(),
            destination_location: self.destination_location.clone(),
            current_location: self.current_location.clone(),
            destination_coordinates: self.destination_coordinates,
            current_location_coordinates: self.current_location_coordinates,
            status: self.status.clone(),
            logistics: self.logistics,
            bump: self.bump,
        }
    }

    /// Starts the shipment under a title, in transit.
    pub(crate) fn start(&mut self, title: String)
        ensures
            final(self)@ == old(self)@.started(title@),
    {
        self.title = title;
        self.description = String::new();
        self.destination_location = String::new();
        self.current_location = String::new();
        self.destination_coordinates = 0;
        self.current_location_coordinates = 0;
        self.status = "In Transit".to_string();
    }

    /// Whether the shipment has reached its destination.
    pub fn has_arrived(&self) -> (r: bool)
        ensures
            r == self@.has_arrived(),
    {
        self.is_delivered() && self.destination_location == self.current_location && f64_bits_eq(
            self.destination_coordinates,
            self.current_location_coordinates,
        )
    }

    /// Whether a refund may be paid for the shipment.
    pub fn refund_eligible(&self) -> (r: bool)
        ensures
            r == self@.refund_eligible(),
    {
        self.status == "LOST".to_string() || self.status == "DISPUTED".to_string()
    }

    /// Whether the shipment is delivered.
    pub fn is_delivered(&self) -> (r: bool)
        ensures
            r == (self@.status == delivered()),
    {
        self.status == "Delivered".to_string()
    }

    /// Whether the shipment's data fits in the space of its account.
    pub fn fits_in_account(&self) -> (r: bool)
        ensures
            r == self@.fits_in_account(),
    {
        let t = text_byte_len(&self.title);
        let d = text_byte_len(&self.description);
        let dl = text_byte_len(&self.destination_location);
        let cl = text_byte_len(&self.current_location);
        let s = text_byte_len(&self.status);
        if t > SHIPMENT_INIT_SPACE || d > SHIPMENT_INIT_SPACE || dl > SHIPMENT_INIT_SPACE || cl
            > SHIPMENT_INIT_SPACE || s > SHIPMENT_INIT_SPACE {
            return false;
        }
        t + d + dl + cl + s + 69 <= SHIPMENT_INIT_SPACE
    }
}

} // verus!
