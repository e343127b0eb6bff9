//! An escrow for goods in transit: a buyer locks a token payment in a vault and the escrow
//! records it, a seller ships, a logistics provider tracks the shipment. Once the seller's
//! shipment has been delivered the program asks the token program to pay the vault to the
//! seller, signed with the escrow's address seeds; a refund to the buyer is allowed when the
//! shipment is lost or disputed.
pub mod buy;
pub mod cpi;
pub mod dispute;
pub mod error;
pub mod init_shipment;
pub mod laws;
pub mod lumi_prtl;
pub mod pubkey;
pub mod refund;
pub mod seller;
pub mod state;
pub mod text;
pub mod update_shipment;
