//! A payment gateway: one configuration record at a derived address, payments
//! checked against its fee, and fee changes reserved to its authority.

pub mod address;
pub mod error;
pub mod gateway;
pub mod identity;
pub mod laws;
pub mod program;

pub use address::{derive_gateway_address, gateway_seed, verify_gateway_address};
pub use error::ErrorCode;
pub use gateway::{Gateway, GatewayAccount, Ledger};
pub use identity::Identity;
pub use program::{
    complete_payment, initialize, process_payment, update_fee, PaymentProcessed, PendingPayment,
    TransferRequest,
};
