use vstd::prelude::*;
use crate::address::{found_program_address, gateway_seed_spec};
use crate::error::ErrorCode;
use crate::gateway::{create_post, load_result, Gateway, Ledger};
use crate::identity::Identity;
use crate::program::{
    payment_outcome, payment_request, update_fee_post, PaymentProcessed, TransferRequest,
};

verus! {

/// After a successful `create`, loading the canonical gateway address gives
/// the created record, which holds the fee and the authority given to
/// `create`.
pub proof fn law_create_then_load(
    before: Ledger,
    after: Ledger,
    authority: Identity,
    fee: u64,
    r: Result<Gateway, ErrorCode>,
)
    requires
        create_post(before, after, authority, fee, r),
        r is Ok,
    ensures
        match found_program_address(gateway_seed_spec(), before.program_id@) {
            Some((a, _)) => {
                &&& load_result(after, a) == r
                &&& r->Ok_0.fee == fee
                &&& r->Ok_0.authority == authority
            },
            None => false,
        },
{
    if let Some((a, b)) = found_program_address(gateway_seed_spec(), before.program_id@) {
        assert(after.record_at(a) == Some(Gateway { authority, fee, bump: b }));
    }
}

/// A second `create` at the same derived address fails with
/// `AlreadyInitialized` and leaves the first record as it was.
pub proof fn law_create_twice(
    l0: Ledger,
    l1: Ledger,
    l2: Ledger,
    authority1: Identity,
    fee1: u64,
    r1: Result<Gateway, ErrorCode>,
    authority2: Identity,
    fee2: u64,
    r2: Result<Gateway, ErrorCode>,
)
    requires
        create_post(l0, l1, authority1, fee1, r1),
        r1 is Ok,
        create_post(l1, l2, authority2, fee2, r2),
    ensures
        r2 == Err::<Gateway, ErrorCode>(ErrorCode::AlreadyInitialized),
        l2.program_id == l1.program_id,
        l2.accounts@ == l1.accounts@,
        match found_program_address(gateway_seed_spec(), l0.program_id@) {
            Some((a, _)) => load_result(l2, a) == r1,
            None => false,
        },
{
    law_create_then_load(l0, l1, authority1, fee1, r1);
    if let Some((a, b)) = found_program_address(gateway_seed_spec(), l0.program_id@) {
        assert(l1.record_at(a) == Some(Gateway { authority: authority1, fee: fee1, bump: b }));
        assert(l2.accounts@ == l1.accounts@);
    }
}

/// A payment below the fee is refused with `InsufficientPayment`: no
/// transfer is requested, so none runs and no event follows.
pub proof fn law_payment_below_fee(
    ledger: Ledger,
    gateway: Identity,
    user: Identity,
    user_token_account: Identity,
    treasury_token_account: Identity,
    amount: u64,
    nonce: u64,
)
    requires
        load_result(ledger, gateway@) is Ok,
        amount < load_result(ledger, gateway@)->Ok_0.fee,
    ensures
        payment_request(
            ledger,
            gateway@,
            user,
            user_token_account,
            treasury_token_account,
            amount,
            nonce,
        ) == Err::<crate::program::PendingPayment, ErrorCode>(ErrorCode::InsufficientPayment),
{
}

/// A payment of at least the fee asks for a transfer of exactly `amount`
/// from the payer's account to the treasury, and once that transfer succeeds
/// exactly one event follows, with the payer, the amount, the nonce and the
/// time of processing.
pub proof fn law_payment_at_least_fee(
    ledger: Ledger,
    gateway: Identity,
    user: Identity,
    user_token_account: Identity,
    treasury_token_account: Identity,
    amount: u64,
    nonce: u64,
    timestamp: i64,
)
    requires
        load_result(ledger, gateway@) is Ok,
        amount >= load_result(ledger, gateway@)->Ok_0.fee,
    ensures
        ({
            let r = payment_request(
                ledger,
                gateway@,
                user,
                user_token_account,
                treasury_token_account,
                amount,
                nonce,
            );
            &&& r is Ok
            &&& r->Ok_0.transfer == (TransferRequest {
                from: user_token_account,
                to: treasury_token_account,
                authority: user,
                amount,
            })
            &&& payment_outcome(r->Ok_0, Ok(()), timestamp) == Ok::<PaymentProcessed, ErrorCode>(
                PaymentProcessed { user, amount, nonce, timestamp },
            )
        }),
{
}

/// `update_fee` by an identity other than the authority fails with
/// `Unauthorized` and changes no record.
pub proof fn law_update_fee_unauthorized(
    before: Ledger,
    after: Ledger,
    gateway: Identity,
    signer: Identity,
    new_fee: u64,
    r: Result<(), ErrorCode>,
)
    requires
        update_fee_post(before, after, gateway@, signer, new_fee, r),
        load_result(before, gateway@) is Ok,
        load_result(before, gateway@)->Ok_0.authority@ != signer@,
    ensures
        r == Err::<(), ErrorCode>(ErrorCode::Unauthorized),
        after.accounts@ == before.accounts@,
        load_result(after, gateway@) == load_result(before, gateway@),
{
}

/// `update_fee` by the authority sets the fee to the new value exactly and
/// changes nothing else in the record.
pub proof fn law_update_fee_by_authority(
    before: Ledger,
    after: Ledger,
    gateway: Identity,
    signer: Identity,
    new_fee: u64,
    r: Result<(), ErrorCode>,
)
    requires
        update_fee_post(before, after, gateway@, signer, new_fee, r),
        load_result(before, gateway@) is Ok,
        load_result(before, gateway@)->Ok_0.authority@ == signer@,
    ensures
        r == Ok::<(), ErrorCode>(()),
        load_result(after, gateway@) == Ok::<Gateway, ErrorCode>(
            Gateway { fee: new_fee, ..load_result(before, gateway@)->Ok_0 },
        ),
{
    assert(after.record_at(gateway@) == Some(
        Gateway { fee: new_fee, ..load_result(before, gateway@)->Ok_0 },
    ));
}

/// Repeating the same `update_fee` by the authority succeeds again and
/// leaves every record as the first call left it.
pub proof fn law_update_fee_idempotent(
    l0: Ledger,
    l1: Ledger,
    l2: Ledger,
    gateway: Identity,
    signer: Identity,
    new_fee: u64,
    r1: Result<(), ErrorCode>,
    r2: Result<(), ErrorCode>,
)
    requires
        update_fee_post(l0, l1, gateway@, signer, new_fee, r1),
        update_fee_post(l1, l2, gateway@, signer, new_fee, r2),
        load_result(l0, gateway@) is Ok,
        load_result(l0, gateway@)->Ok_0.authority@ == signer@,
    ensures
        r2 == Ok::<(), ErrorCode>(()),
        l2.program_id == l1.program_id,
        forall|x: Seq<u8>| #[trigger] l2.record_at(x) == l1.record_at(x),
{
    law_update_fee_by_authority(l0, l1, gateway, signer, new_fee, r1);
    let g = load_result(l1, gateway@)->Ok_0;
    assert(l2.record_at(gateway@) == Some(Gateway { fee: new_fee, ..g }));
    assert forall|x: Seq<u8>| #[trigger] l2.record_at(x) == l1.record_at(x) by {
        if x == gateway@ {
            assert(l1.record_at(x) == Some(g));
        }
    }
}

} // verus!
