use vstd::prelude::*;
use crate::error::ErrorCode;
use crate::gateway::{create_post, load_result, Gateway, Ledger};
use crate::identity::Identity;

verus! {

/// A token transfer that the gateway asks the token program to perform.
#[derive(Clone, Copy, Debug)]
pub struct TransferRequest {
    /// The payer's token account.
    pub from: Identity,
    /// The gateway's receiving token account.
    pub to: Identity,
    /// The payer, whose signature authorizes the move.
    pub authority: Identity,
    pub amount: u64,
}

/// A payment that passed validation and waits for its transfer.
#[derive(Clone, Copy, Debug)]
pub struct PendingPayment {
    pub transfer: TransferRequest,
    pub nonce: u64,
}

/// The event emitted for each completed payment.
#[derive(Clone, Copy, Debug)]
pub struct PaymentProcessed {
    pub user: Identity,
    pub amount: u64,
    pub nonce: u64,
    /// Seconds since the epoch when the payment was processed.
    pub timestamp: i64,
}

/// Creates the gateway record with `authority` and `fee`.
pub fn initialize(ledger: &mut Ledger, authority: Identity, fee: u64) -> (r: Result<
    Gateway,
    ErrorCode,
>)
    ensures
        create_post(*old(ledger), *final(ledger), authority, fee, r),
{
    ledger.create(authority, fee)
}

/// What `process_payment` returns.
pub open spec fn payment_request(
    ledger: Ledger,
    gateway: Seq<u8>,
    user: Identity,
    user_token_account: Identity,
    treasury_token_account: Identity,
    amount: u64,
    nonce: u64,
) -> Result<PendingPayment, ErrorCode> {
    match load_result(ledger, gateway) {
        Err(e) => Err(e),
        Ok(g) => if amount < g.fee {
            Err(ErrorCode::InsufficientPayment)
        } else {
            Ok(
                PendingPayment {
                    transfer: TransferRequest {
                        from: user_token_account,
                        to: treasury_token_account,
                        authority: user,
                        amount,
                    },
                    nonce,
                },
            )
        },
    }
}

/// Validates a payment of `amount` by `user` against the fee of the record
/// at `gateway`, and gives the transfer to perform: `amount` tokens from
/// `user_token_account` to `treasury_token_account`, signed by `user`.
pub fn process_payment(
    ledger: &Ledger,
    gateway: &Identity,
    user: Identity,
    user_token_account: Identity,
    treasury_token_account: Identity,
    amount: u64,
    nonce: u64,
) -> (r: Result<PendingPayment, ErrorCode>)
    ensures
        r == payment_request(
            *ledger,
            gateway@,
            user,
            user_token_account,
            treasury_token_account,
            amount,
            nonce,
        ),
{
    let record = match ledger.load(gateway) {
        Ok(g) => g,
        Err(e) => {
            return Err(e);
        },
    };
    if amount < record.fee {
        return Err(ErrorCode::InsufficientPayment);
    }
    let transfer = TransferRequest {
        from: user_token_account,
        to: treasury_token_account,
        authority: user,
        amount,
    };
    Ok(PendingPayment { transfer, nonce })
}

/// What `complete_payment` returns.
pub open spec fn payment_outcome(
    pending: PendingPayment,
    transfer: Result<(), u64>,
    timestamp: i64,
) -> Result<PaymentProcessed, ErrorCode> {
    match transfer {
        Err(code) => Err(ErrorCode::TransferFailed(code)),
        Ok(()) => Ok(
            PaymentProcessed {
                user: pending.transfer.authority,
                amount: pending.transfer.amount,
                nonce: pending.nonce,
                timestamp,
            },
        ),
    }
}

/// Finishes a payment once its transfer has run: the event to emit, stamped
/// with `timestamp`, or the transfer's failure.
pub fn complete_payment(pending: &PendingPayment, transfer: Result<(), u64>, timestamp: i64) -> (r:
    Result<PaymentProcessed, ErrorCode>)
    ensures
        r == payment_outcome(*pending, transfer, timestamp),
{
    match transfer {
        Err(code) => Err(ErrorCode::TransferFailed(code)),
        Ok(()) => Ok(
            PaymentProcessed {
                user: pending.transfer.authority,
                amount: pending.transfer.amount,
                nonce: pending.nonce,
                timestamp,
            },
        ),
    }
}

/// `update_fee` by `signer` to `new_fee` on the record at `gateway` took
/// `before` to `after` and returned `r`.
pub open spec fn update_fee_post(
    before: Ledger,
    after: Ledger,
    gateway: Seq<u8>,
    signer: Identity,
    new_fee: u64,
    r: Result<(), ErrorCode>,
) -> bool {
    &&& after.program_id == before.program_id
    &&& match load_result(before, gateway) {
        Err(e) => r == Err::<(), ErrorCode>(e) && after.accounts@ == before.accounts@,
        Ok(g) => if g.authority@ != signer@ {
            r == Err::<(), ErrorCode>(ErrorCode::Unauthorized) && after.accounts@
                == before.accounts@
        } else {
            &&& r == Ok::<(), ErrorCode>(())
            &&& forall|x: Seq<u8>| #[trigger]
                after.record_at(x) == if x == gateway {
                    Some(Gateway { fee: new_fee, ..g })
                } else {
                    before.record_at(x)
                }
        },
    }
}

/// Sets the fee of the record at `gateway` to `new_fee`, where `signer` is
/// its authority.
pub fn update_fee(ledger: &mut Ledger, gateway: &Identity, signer: &Identity, new_fee: u64) -> (r:
    Result<(), ErrorCode>)
    ensures
        update_fee_post(*old(ledger), *final(ledger), gateway@, *signer, new_fee, r),
{
    let record = match ledger.load(gateway) {
        Ok(g) => g,
        Err(e) => {
            return Err(e);
        },
    };
    if record.authority != *signer {
        return Err(ErrorCode::Unauthorized);
    }
    ledger.set_fee(gateway, new_fee);
    Ok(())
}

} // verus!
