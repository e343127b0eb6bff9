use lumi_prtl::buy::Buy;
use lumi_prtl::dispute::Dispute;
use lumi_prtl::error::{CustomError, ErrorCode, FrameworkError, LumiError};
use lumi_prtl::lumi_prtl::{
    buy_at, check_derived, check_found, dispute_at, init_shipment_at, update_shipment_at,
    withdraw_at,
};
use lumi_prtl::pubkey::Pubkey;
use lumi_prtl::seller::{Ship, Withdraw};
use lumi_prtl::state::{Escrow, Shipment};
use lumi_prtl::update_shipment::UpdateShipment;

fn key(n: u8) -> Pubkey {
    Pubkey { bytes: [n; 32] }
}

#[test]
fn check_found_cases() {
    assert_eq!(check_found(&None, &key(1)), Err(LumiError::ProgramAddressNotFound));
    assert_eq!(
        check_found(&Some((key(2), 9)), &key(1)),
        Err(LumiError::Framework(FrameworkError::ConstraintSeeds))
    );
    assert_eq!(check_found(&Some((key(1), 9)), &key(1)), Ok(9));
}

#[test]
fn check_derived_cases() {
    assert_eq!(
        check_derived(&None, &key(1)),
        Err(LumiError::Framework(FrameworkError::ConstraintSeeds))
    );
    assert_eq!(
        check_derived(&Some(key(2)), &key(1)),
        Err(LumiError::Framework(FrameworkError::ConstraintSeeds))
    );
    assert_eq!(check_derived(&Some(key(1)), &key(1)), Ok(()));
}

#[test]
fn buy_at_uses_the_found_bump() {
    let mut ctx = Buy {
        buyer: key(1),
        mint_usd: key(2),
        mint_decimals: 6,
        buyer_ata_a: key(3),
        escrow_address: key(4),
        escrow: Escrow::zeroed(),
        vault: key(5),
    };
    assert_eq!(
        buy_at(&mut ctx, Some((key(6), 200)), 1, 10).err(),
        Some(LumiError::Framework(FrameworkError::ConstraintSeeds))
    );
    assert_eq!(buy_at(&mut ctx, None, 1, 10).err(), Some(LumiError::ProgramAddressNotFound));
    let calls = buy_at(&mut ctx, Some((key(4), 200)), 1, 10).unwrap();
    assert_eq!(calls.len(), 1);
    assert_eq!(ctx.escrow.bump, 200);
    assert_eq!(ctx.escrow.seed, 1);
}

#[test]
fn init_shipment_at_checks_address_and_space() {
    let mut ctx = Ship {
        seller: key(1),
        mint_usd: key(2),
        seller_ata: key(3),
        shipment_address: key(4),
        shipment: Shipment::zeroed(),
    };
    assert!(init_shipment_at(&mut ctx, Some((key(5), 1)), "a".to_string()).is_err());
    assert_eq!(
        init_shipment_at(&mut ctx, Some((key(4), 1)), "t".repeat(300)),
        Err(LumiError::Framework(FrameworkError::AccountDidNotSerialize))
    );
    assert!(init_shipment_at(&mut ctx, Some((key(4), 1)), "t".repeat(200)).is_ok());
    assert_eq!(ctx.shipment.status, "In Transit");
}

#[test]
fn update_shipment_at_checks_address() {
    let mut ctx = UpdateShipment {
        seller: key(1),
        logistics: key(2),
        mint_usd: key(3),
        logistics_ata: key(4),
        shipment_address: key(5),
        shipment: Shipment::zeroed(),
    };
    let r = update_shipment_at(
        &mut ctx,
        None,
        "t".to_string(),
        "d".to_string(),
        "a".to_string(),
        "a".to_string(),
        0,
        0,
        "s".to_string(),
    );
    assert_eq!(r, Err(LumiError::ProgramAddressNotFound));
    let r = update_shipment_at(
        &mut ctx,
        Some((key(5), 3)),
        "t".to_string(),
        "d".to_string(),
        "a".to_string(),
        "a".to_string(),
        0,
        0,
        "Delivered".to_string(),
    );
    assert!(r.is_ok());
    assert!(ctx.shipment.has_arrived());
}

#[test]
fn dispute_at_checks_in_order() {
    let mut shipment = Shipment::zeroed();
    shipment.status = "In Transit".to_string();
    let mut ctx = Dispute {
        buyer: key(1),
        logistics: key(2),
        shipment_address: key(3),
        shipment,
        escrow_address: key(4),
        escrow: Escrow::zeroed(),
    };
    ctx.escrow.buyer = key(1);
    assert_eq!(
        dispute_at(&mut ctx, Some((key(9), 1)), None, "t".to_string(), " ".to_string()),
        Err(LumiError::Framework(FrameworkError::ConstraintSeeds))
    );
    assert_eq!(
        dispute_at(&mut ctx, Some((key(3), 1)), None, "t".to_string(), " ".to_string()),
        Err(LumiError::Framework(FrameworkError::ConstraintSeeds))
    );
    assert_eq!(
        dispute_at(&mut ctx, Some((key(3), 1)), Some(key(4)), "t".to_string(), " ".to_string()),
        Err(LumiError::Program(ErrorCode::EmptyDisputeReason))
    );
    assert_eq!(
        dispute_at(&mut ctx, Some((key(3), 1)), Some(key(4)), "t".repeat(260), "r".to_string()),
        Err(LumiError::Framework(FrameworkError::AccountDidNotSerialize))
    );
    assert!(
        dispute_at(&mut ctx, Some((key(3), 1)), Some(key(4)), "t".to_string(), "r".to_string())
            .is_ok()
    );
    assert_eq!(ctx.shipment.status, "DISPUTED");
    assert_eq!(ctx.shipment.title, "t");
    assert!(ctx.escrow.is_disputed);
}

#[test]
fn withdraw_at_checks_in_order() {
    let mut escrow = Escrow::zeroed();
    escrow.buyer = key(2);
    escrow.mint_usd = key(3);
    let mut shipment = Shipment::zeroed();
    shipment.destination_location = "x".to_string();
    let ctx = Withdraw {
        seller: key(1),
        buyer: key(2),
        mint_usd: key(3),
        mint_decimals: 0,
        seller_ata: key(4),
        shipment_address: key(8),
        shipment,
        escrow_address: key(5),
        escrow,
        vault: key(6),
        vault_amount: 7,
    };
    assert_eq!(
        withdraw_at(&ctx, None, Some(key(5))).err(),
        Some(LumiError::ProgramAddressNotFound)
    );
    assert_eq!(
        withdraw_at(&ctx, Some((key(9), 1)), Some(key(5))).err(),
        Some(LumiError::Framework(FrameworkError::ConstraintSeeds))
    );
    assert_eq!(
        withdraw_at(&ctx, Some((key(8), 1)), Some(key(9))).err(),
        Some(LumiError::Framework(FrameworkError::ConstraintSeeds))
    );
    assert_eq!(
        withdraw_at(&ctx, Some((key(8), 1)), Some(key(5))).err(),
        Some(LumiError::Custom(CustomError::ShipmentNotArrived))
    );
    let mut delivered = ctx;
    delivered.shipment.status = "Delivered".to_string();
    delivered.shipment.current_location = "x".to_string();
    let (calls, closing) = withdraw_at(&delivered, Some((key(8), 1)), Some(key(5))).unwrap();
    assert_eq!(calls.len(), 2);
    assert_eq!(closing.destination.bytes, [1u8; 32]);
}
