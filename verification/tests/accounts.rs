use lumi_prtl::buy::{Buy, BuyBumps};
use lumi_prtl::cpi::TokenCpi;
use lumi_prtl::dispute::Dispute;
use lumi_prtl::error::{FiledDisputeError, LumiError};
use lumi_prtl::init_shipment::InitShipment;
use lumi_prtl::pubkey::Pubkey;
use lumi_prtl::seller::{PaymentForTransportAndTracking, Ship, Withdraw};
use lumi_prtl::state::{Escrow, Shipment, ESCROW_INIT_SPACE, SHIPMENT_INIT_SPACE};
use lumi_prtl::update_shipment::{DeleteShipment, UpdateShipment};

fn key(n: u8) -> Pubkey {
    Pubkey { bytes: [n; 32] }
}

fn escrow_of(buyer: u8) -> Escrow {
    let mut e = Escrow::zeroed();
    e.seed = 9;
    e.buyer = key(buyer);
    e.mint_usd = key(20);
    e.bump = 254;
    e
}

fn dispute_ctx(status: &str) -> Dispute {
    let mut shipment = Shipment::zeroed();
    shipment.status = status.to_string();
    shipment.logistics = key(3);
    Dispute {
        buyer: key(1),
        logistics: key(3),
        shipment_address: key(30),
        shipment,
        escrow_address: key(40),
        escrow: escrow_of(1),
    }
}

#[test]
fn space_constants() {
    assert_eq!(ESCROW_INIT_SPACE, 190);
    assert_eq!(SHIPMENT_INIT_SPACE, 333);
}

#[test]
fn escrow_fits_up_to_a_hundred_bytes_of_reason() {
    let mut e = Escrow::zeroed();
    assert!(e.fits_in_account());
    e.dispute_reason = "a".repeat(100);
    assert!(e.fits_in_account());
    e.dispute_reason = "a".repeat(101);
    assert!(!e.fits_in_account());
    e.dispute_reason = "\u{e9}".repeat(50);
    assert!(e.fits_in_account());
    e.dispute_reason = "\u{e9}".repeat(51);
    assert!(!e.fits_in_account());
}

#[test]
fn shipment_fits_by_total_text_length() {
    let mut s = Shipment::zeroed();
    assert!(s.fits_in_account());
    s.description = "d".repeat(264);
    assert!(s.fits_in_account());
    s.description = "d".repeat(265);
    assert!(!s.fits_in_account());
    s.description = "d".repeat(200);
    s.title = "t".repeat(64);
    assert!(s.fits_in_account());
    s.status = "s".to_string();
    assert!(!s.fits_in_account());
}

#[test]
fn zeroed_accounts() {
    let s = Shipment::zeroed();
    assert_eq!(s.title, "");
    assert_eq!(s.status, "");
    assert_eq!(s.logistics.bytes, [0u8; 32]);
    assert_eq!(s.bump, 0);
    let e = Escrow::zeroed();
    assert_eq!(e.amount, 0);
    assert!(!e.is_disputed);
    let c = e.duplicate();
    assert_eq!(c.seed, e.seed);
}

#[test]
fn arrival_refund_and_delivery_checks() {
    let mut s = Shipment::zeroed();
    assert!(!s.has_arrived());
    s.status = "Delivered".to_string();
    assert!(s.has_arrived());
    s.destination_location = "Lagos".to_string();
    assert!(!s.has_arrived());
    s.current_location = "Lagos".to_string();
    s.destination_coordinates = 6.5f64.to_bits();
    s.current_location_coordinates = 6.5f64.to_bits();
    assert!(s.has_arrived());
    s.status = "In Transit".to_string();
    assert!(!s.has_arrived());
    s.status = "Delivered".to_string();
    s.current_location_coordinates = f64::NAN.to_bits();
    s.destination_coordinates = f64::NAN.to_bits();
    assert!(!s.has_arrived());
    s.status = "LOST".to_string();
    assert!(s.refund_eligible());
    s.status = "DISPUTED".to_string();
    assert!(s.refund_eligible());
    s.status = "Lost".to_string();
    assert!(!s.refund_eligible());
    assert!(!s.is_delivered());
    s.status = "Delivered".to_string();
    assert!(s.is_delivered());
    let c = s.duplicate();
    assert_eq!(c.status, "Delivered");
}

#[test]
fn init_escrow_records_the_purchase() {
    let mut ctx = Buy {
        buyer: key(1),
        mint_usd: key(2),
        mint_decimals: 6,
        buyer_ata_a: key(3),
        escrow_address: key(4),
        escrow: escrow_of(9),
        vault: key(5),
    };
    ctx.escrow.amount = 77;
    ctx.escrow.is_disputed = true;
    assert!(ctx.init_escrow(11, &BuyBumps { escrow_bump: 253 }).is_ok());
    assert_eq!(ctx.escrow.seed, 11);
    assert_eq!(ctx.escrow.buyer.bytes, [1u8; 32]);
    assert_eq!(ctx.escrow.mint_usd.bytes, [2u8; 32]);
    assert_eq!(ctx.escrow.bump, 253);
    assert_eq!(ctx.escrow.amount, 0);
    assert!(!ctx.escrow.is_disputed);
    assert_eq!(ctx.escrow.dispute_reason, "");
}

#[test]
fn buy_deposit_moves_tokens_into_the_vault() {
    let mut ctx = Buy {
        buyer: key(1),
        mint_usd: key(2),
        mint_decimals: 6,
        buyer_ata_a: key(3),
        escrow_address: key(4),
        escrow: Escrow::zeroed(),
        vault: key(5),
    };
    let call = ctx.deposit(500);
    assert_eq!(ctx.escrow.amount, 500);
    match call {
        TokenCpi::TransferChecked { from, to, authority, mint, amount, decimals, signer_seeds } => {
            assert_eq!(from.bytes, [3u8; 32]);
            assert_eq!(to.bytes, [5u8; 32]);
            assert_eq!(authority.bytes, [1u8; 32]);
            assert_eq!(mint.bytes, [2u8; 32]);
            assert_eq!(amount, 500);
            assert_eq!(decimals, 6);
            assert!(signer_seeds.is_empty());
        },
        _ => panic!("expected a transfer"),
    }
}

#[test]
fn init_shipment_starts_in_transit() {
    let mut shipment = Shipment::zeroed();
    shipment.description = "old".to_string();
    shipment.logistics = key(8);
    shipment.bump = 3;
    let mut ctx = Ship {
        seller: key(1),
        mint_usd: key(2),
        seller_ata: key(3),
        shipment_address: key(4),
        shipment,
    };
    assert!(ctx.init_shipment("Box".to_string()).is_ok());
    assert_eq!(ctx.shipment.title, "Box");
    assert_eq!(ctx.shipment.description, "");
    assert_eq!(ctx.shipment.status, "In Transit");
    assert_eq!(ctx.shipment.logistics.bytes, [8u8; 32]);
    assert_eq!(ctx.shipment.bump, 3);
    let mut plain = InitShipment {
        seller: key(1),
        shipment_address: key(4),
        shipment: Shipment::zeroed(),
    };
    assert!(plain.init_shipment("Crate".to_string()).is_ok());
    assert_eq!(plain.shipment.title, "Crate");
    assert_eq!(plain.shipment.status, "In Transit");
}

#[test]
fn payment_goes_from_seller_to_logistics() {
    let ctx = PaymentForTransportAndTracking {
        seller: key(1),
        logistics: key(2),
        mint_usd: key(3),
        mint_decimals: 9,
        seller_ata: key(4),
        logistics_ata: key(5),
    };
    match ctx.deposit(12) {
        TokenCpi::TransferChecked { from, to, authority, mint, amount, decimals, signer_seeds } => {
            assert_eq!(from.bytes, [4u8; 32]);
            assert_eq!(to.bytes, [5u8; 32]);
            assert_eq!(authority.bytes, [1u8; 32]);
            assert_eq!(mint.bytes, [3u8; 32]);
            assert_eq!(amount, 12);
            assert_eq!(decimals, 9);
            assert!(signer_seeds.is_empty());
        },
        _ => panic!("expected a transfer"),
    }
}

#[test]
fn withdrawal_and_close_are_signed_by_the_escrow() {
    let ctx = Withdraw {
        seller: key(1),
        buyer: key(2),
        mint_usd: key(3),
        mint_decimals: 6,
        seller_ata: key(4),
        shipment_address: key(7),
        shipment: Shipment::zeroed(),
        escrow_address: key(5),
        escrow: escrow_of(2),
        vault: key(6),
        vault_amount: 999,
    };
    let expected_seeds = vec![
        b"escrow".to_vec(),
        vec![2u8; 32],
        9u64.to_le_bytes().to_vec(),
        vec![254u8],
    ];
    match ctx.seller_withdrawal() {
        TokenCpi::TransferChecked { from, to, authority, mint, amount, decimals, signer_seeds } => {
            assert_eq!(from.bytes, [6u8; 32]);
            assert_eq!(to.bytes, [4u8; 32]);
            assert_eq!(authority.bytes, [5u8; 32]);
            assert_eq!(mint.bytes, [3u8; 32]);
            assert_eq!(amount, 999);
            assert_eq!(decimals, 6);
            assert_eq!(signer_seeds, expected_seeds);
        },
        _ => panic!("expected a transfer"),
    }
    match ctx.close() {
        TokenCpi::CloseAccount { account, destination, authority, signer_seeds } => {
            assert_eq!(account.bytes, [6u8; 32]);
            assert_eq!(destination.bytes, [2u8; 32]);
            assert_eq!(authority.bytes, [5u8; 32]);
            assert_eq!(signer_seeds, expected_seeds);
        },
        _ => panic!("expected a close"),
    }
}

#[test]
fn update_shipment_writes_everything() {
    let mut shipment = Shipment::zeroed();
    shipment.bump = 7;
    let mut ctx = UpdateShipment {
        seller: key(1),
        logistics: key(2),
        mint_usd: key(3),
        logistics_ata: key(4),
        shipment_address: key(5),
        shipment,
    };
    assert!(ctx
        .update_shipment(
            "T".to_string(),
            "D".to_string(),
            "Accra".to_string(),
            "Tema".to_string(),
            5.6f64.to_bits(),
            5.7f64.to_bits(),
            "Delivered".to_string(),
        )
        .is_ok());
    assert_eq!(ctx.shipment.title, "T");
    assert_eq!(ctx.shipment.description, "D");
    assert_eq!(ctx.shipment.destination_location, "Accra");
    assert_eq!(ctx.shipment.current_location, "Tema");
    assert_eq!(ctx.shipment.destination_coordinates, 5.6f64.to_bits());
    assert_eq!(ctx.shipment.current_location_coordinates, 5.7f64.to_bits());
    assert_eq!(ctx.shipment.status, "Delivered");
    assert_eq!(ctx.shipment.logistics.bytes, [2u8; 32]);
    assert_eq!(ctx.shipment.bump, 7);
}

#[test]
fn delete_shipment_state_changes_nothing() {
    let mut ctx = DeleteShipment {
        seller: key(1),
        logistics: key(2),
        shipment_address: key(3),
        shipment: Shipment::zeroed(),
    };
    assert!(ctx.delete_shipment_state().is_ok());
    assert_eq!(ctx.shipment.title, "");
}

#[test]
fn file_dispute_records_the_reason() {
    let mut ctx = dispute_ctx("In Transit");
    assert!(ctx.file_dispute("damaged".to_string()).is_ok());
    assert!(ctx.escrow.is_disputed);
    assert_eq!(ctx.escrow.dispute_reason, "damaged");
}

#[test]
fn file_dispute_refuses_delivered_shipment() {
    let mut ctx = dispute_ctx("Delivered");
    assert_eq!(
        ctx.file_dispute("damaged".to_string()),
        Err(LumiError::FiledDispute(FiledDisputeError::ShipmentAlreadyDelivered))
    );
    assert!(!ctx.escrow.is_disputed);
}

#[test]
fn file_dispute_refuses_blank_reason() {
    let mut ctx = dispute_ctx("In Transit");
    assert_eq!(
        ctx.file_dispute(" \t\n".to_string()),
        Err(LumiError::FiledDispute(FiledDisputeError::EmptyDisputeReason))
    );
    assert!(!ctx.escrow.is_disputed);
    assert_eq!(ctx.escrow.dispute_reason, "");
}

#[test]
fn resolve_dispute_only_by_logistics_and_only_once() {
    let mut ctx = dispute_ctx("In Transit");
    assert_eq!(
        ctx.resolve_dispute(true),
        Err(LumiError::FiledDispute(FiledDisputeError::NoActiveDispute))
    );
    assert!(ctx.file_dispute("late".to_string()).is_ok());
    ctx.logistics = key(99);
    assert_eq!(
        ctx.resolve_dispute(true),
        Err(LumiError::FiledDispute(FiledDisputeError::UnauthorizedResolver))
    );
    assert!(ctx.escrow.is_disputed);
    ctx.logistics = key(3);
    assert!(ctx.resolve_dispute(true).is_ok());
    assert!(!ctx.escrow.is_disputed);
    assert!(ctx.escrow.is_dispute_resolved);
    assert_eq!(ctx.escrow.dispute_reason, "late");
    assert_eq!(
        ctx.resolve_dispute(false),
        Err(LumiError::FiledDispute(FiledDisputeError::NoActiveDispute))
    );
    assert!(ctx.escrow.is_dispute_resolved);
}
