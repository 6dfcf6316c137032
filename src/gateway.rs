use vstd::prelude::*;
use crate::address::{
    derive_gateway_address, found_program_address, gateway_seed_spec, program_address,
    verify_gateway_address,
};
use crate::error::ErrorCode;
use crate::identity::Identity;

verus! {

/// The gateway's configuration record.
#[derive(Clone, Copy, Debug)]
pub struct Gateway {
    /// The identity allowed to change the fee.
    pub authority: Identity,
    /// The smallest accepted payment, in units of 10^-6.
    pub fee: u64,
    /// The bump that derives the record's address.
    pub bump: u8,
}

/// A record stored at an address.
#[derive(Clone, Copy, Debug)]
pub struct GatewayAccount {
    pub address: Identity,
    pub record: Gateway,
}

/// The accounts that the program owns, in the order they were allocated.
pub struct Ledger {
    /// The program that owns the accounts and derives their addresses.
    pub program_id: Identity,
    pub accounts: Vec<GatewayAccount>,
}

/// The record stored at `address`: the first account that has that address.
pub open spec fn record_in(accounts: Seq<GatewayAccount>, address: Seq<u8>) -> Option<Gateway>
    decreases accounts.len(),
{
    if accounts.len() == 0 {
        None
    } else {
        match record_in(accounts.drop_last(), address) {
            Some(g) => Some(g),
            None => if accounts.last().address@ == address {
                Some(accounts.last().record)
            } else {
                None
            },
        }
    }
}

/// What `load` of `address` returns on `ledger`.
pub open spec fn load_result(ledger: Ledger, address: Seq<u8>) -> Result<Gateway, ErrorCode> {
    match record_in(ledger.accounts@, address) {
        None => Err(ErrorCode::RecordNotFound),
        Some(g) => if program_address(gateway_seed_spec(), g.bump, ledger.program_id@) == Some(
            address,
        ) {
            Ok(g)
        } else {
            Err(ErrorCode::AddressMismatch)
        },
    }
}

/// What `create` returns on `ledger`.
pub open spec fn create_outcome(ledger: Ledger, authority: Identity, fee: u64) -> Result<
    Gateway,
    ErrorCode,
> {
    match found_program_address(gateway_seed_spec(), ledger.program_id@) {
        None => Err(ErrorCode::AddressMismatch),
        Some((a, b)) => if ledger.record_at(a) is Some {
            Err(ErrorCode::AlreadyInitialized)
        } else {
            Ok(Gateway { authority, fee, bump: b })
        },
    }
}

/// `create` of `authority` and `fee` took `before` to `after` and returned `r`:
/// on success the record is stored at the canonical address, whose bump
/// re-derives it, and nothing else changed; on failure nothing changed.
pub open spec fn create_post(
    before: Ledger,
    after: Ledger,
    authority: Identity,
    fee: u64,
    r: Result<Gateway, ErrorCode>,
) -> bool {
    &&& r == create_outcome(before, authority, fee)
    &&& after.program_id == before.program_id
    &&& r is Err ==> after.accounts@ == before.accounts@
    &&& match found_program_address(gateway_seed_spec(), before.program_id@) {
        Some((a, b)) => r is Ok ==> {
            &&& program_address(gateway_seed_spec(), b, before.program_id@) == Some(a)
            &&& forall|x: Seq<u8>| #[trigger]
                after.record_at(x) == if x == a {
                    Some(Gateway { authority, fee, bump: b })
                } else {
                    before.record_at(x)
                }
        },
        None => true,
    }
}

impl Ledger {
    /// An empty ledger of `program_id`.
    pub fn new(program_id: Identity) -> (r: Ledger)
        ensures
            r.program_id == program_id,
            r.accounts@.len() == 0,
    {
        Ledger { program_id, accounts: Vec::new() }
    }

    /// The record at `address`, if any.
    pub open spec fn record_at(&self, address: Seq<u8>) -> Option<Gateway> {
        record_in(self.accounts@, address)
    }

    /// The index of the account that holds the record at `address`.
    pub fn position(&self, address: &Identity) -> (r: Option<usize>)
        ensures
            match r {
                Some(i) => i < self.accounts@.len() && self.accounts@[i as int].address@
                    == address@ && self.record_at(address@) == Some(self.accounts@[i as int].record)
                    && record_in(self.accounts@.take(i as int), address@) is None,
                None => self.record_at(address@) is None,
            },
    {
        let mut i: usize = 0;
        while i < self.accounts.len()
            invariant
                0 <= i <= self.accounts@.len(),
                record_in(self.accounts@.take(i as int), address@) is None,
            decreases self.accounts@.len() - i,
        {
            assert(self.accounts@.take(i as int + 1).drop_last() =~= self.accounts@.take(i as int));
            if self.accounts[i].address == *address {
                proof {
                    lemma_record_in_prefix(self.accounts@, address@, i as int + 1);
                }
                return Some(i);
            }
            i = i + 1;
        }
        assert(self.accounts@.take(i as int) =~= self.accounts@);
        None
    }
}

impl Ledger {
    /// Allocates the gateway record at the address derived from its domain
    /// tag, with `authority` and `fee`.
    pub fn create(&mut self, authority: Identity, fee: u64) -> (r: Result<Gateway, ErrorCode>)
        ensures
            create_post(*old(self), *final(self), authority, fee, r),
    {
        match derive_gateway_address(&self.program_id) {
            None => Err(ErrorCode::AddressMismatch),
            Some((address, bump)) => {
                match self.position(&address) {
                    Some(_) => Err(ErrorCode::AlreadyInitialized),
                    None => {
                        let record = Gateway { authority, fee, bump };
                        self.accounts.push(GatewayAccount { address, record });
                        assert forall|x: Seq<u8>| #[trigger]
                            self.record_at(x) == if x == address@ {
                                Some(record)
                            } else {
                                old(self).record_at(x)
                            } by {
                            assert(self.accounts@.drop_last() =~= old(self).accounts@);
                        }
                        Ok(record)
                    },
                }
            },
        }
    }

    /// The record at `address`, checked to sit at the address that its bump
    /// derives.
    pub fn load(&self, address: &Identity) -> (r: Result<Gateway, ErrorCode>)
        ensures
            r == load_result(*self, address@),
    {
        match self.position(address) {
            None => Err(ErrorCode::RecordNotFound),
            Some(i) => {
                let record = self.accounts[i].record;
                if verify_gateway_address(&self.program_id, record.bump, address) {
                    Ok(record)
                } else {
                    Err(ErrorCode::AddressMismatch)
                }
            },
        }
    }

    /// Sets the fee of the record at `address`.
    pub(crate) fn set_fee(&mut self, address: &Identity, fee: u64)
        requires
            old(self).record_at(address@) is Some,
        ensures
            final(self).program_id == old(self).program_id,
            forall|x: Seq<u8>| #[trigger]
                final(self).record_at(x) == if x == address@ {
                    Some(Gateway { fee, ..old(self).record_at(x).unwrap() })
                } else {
                    old(self).record_at(x)
                },
    {
        match self.position(address) {
            None => {},
            Some(i) => {
                let old_account = self.accounts[i];
                let record = Gateway { fee, ..old_account.record };
                let account = GatewayAccount { address: old_account.address, record };
                self.accounts.set(i, account);
                proof {
                    assert forall|x: Seq<u8>|
                        #[trigger] record_in(self.accounts@, x) == if x == address@ {
                            Some(record)
                        } else {
                            record_in(old(self).accounts@, x)
                        } by {
                        lemma_record_in_update(old(self).accounts@, i as int, record, x);
                        assert(self.accounts@ =~= old(self).accounts@.update(i as int, account));
                    }
                }
            },
        }
    }
}

/// Replacing the record of the first account at an address changes what
/// that address holds and nothing else.
pub proof fn lemma_record_in_update(
    accounts: Seq<GatewayAccount>,
    i: int,
    record: Gateway,
    x: Seq<u8>,
)
    requires
        0 <= i < accounts.len(),
        record_in(accounts.take(i), accounts[i].address@) is None,
    ensures
        record_in(
            accounts.update(i, GatewayAccount { address: accounts[i].address, record }),
            x,
        ) == if x == accounts[i].address@ {
            Some(record)
        } else {
            record_in(accounts, x)
        },
    decreases accounts.len(),
{
    let account = GatewayAccount { address: accounts[i].address, record };
    let updated = accounts.update(i, account);
    if i == accounts.len() - 1 {
        assert(updated.drop_last() =~= accounts.drop_last());
        assert(accounts.take(i) =~= accounts.drop_last());
    } else {
        let shorter = accounts.drop_last();
        assert(shorter.take(i) =~= accounts.take(i));
        lemma_record_in_update(shorter, i, record, x);
        assert(updated.drop_last() =~= shorter.update(i, account));
    }
}

/// A record found in a prefix of the accounts is the record of the whole.
pub proof fn lemma_record_in_prefix(accounts: Seq<GatewayAccount>, address: Seq<u8>, n: int)
    requires
        0 <= n <= accounts.len(),
        record_in(accounts.take(n), address) is Some,
    ensures
        record_in(accounts, address) == record_in(accounts.take(n), address),
    decreases accounts.len() - n,
{
    if n < accounts.len() {
        assert(accounts.take(n + 1).drop_last() =~= accounts.take(n));
        lemma_record_in_prefix(accounts, address, n + 1);
    } else {
        assert(accounts.take(n) =~= accounts);
    }
}

} // verus!
