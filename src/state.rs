use vstd::prelude::*;

use crate::admin::{Addr, Admin};
use crate::error::ContractError;

verus! {

/// The contract's single persisted record.
#[derive(Debug)]
pub struct State {
    pub channel_id: String,
    pub ibc_timeout_interval: u64,
    pub min_disbursal_amount: u64,
    pub memo: String,
    pub to_address: String,
    pub admin: Admin,
}

impl State {
    /// All fields but the role are those of `other`.
    pub open spec fn same_settings(&self, other: &State) -> bool {
        &&& self.channel_id == other.channel_id
        &&& self.ibc_timeout_interval == other.ibc_timeout_interval
        &&& self.min_disbursal_amount == other.min_disbursal_amount
        &&& self.memo == other.memo
        &&& self.to_address == other.to_address
    }

    /// Applies a nomination by `sender`; on refusal the record is left as it was.
    pub fn transfer_admin(&mut self, sender: &Addr, to: Addr) -> (r: Result<(), ContractError>)
        ensures
            final(self).same_settings(old(self)),
            r is Ok <==> old(self).admin@.transfer(sender@, to@) is Some,
            r is Ok ==> old(self).admin@.transfer(sender@, to@) == Some(final(self).admin@),
            r matches Err(e) ==> e is Unauthorized && *final(self) == *old(self),
    {
        let next = self.admin.clone().transfer(sender, to);
        match next {
            Ok(admin) => {
                self.admin = admin;
                Ok(())
            },
            Err(e) => Err(e),
        }
    }

    /// Applies a claim by `sender`; on refusal the record is left as it was.
    pub fn claim_admin(&mut self, sender: &Addr) -> (r: Result<(), ContractError>)
        ensures
            final(self).same_settings(old(self)),
            r is Ok <==> old(self).admin@.claim(sender@) is Some,
            r is Ok ==> old(self).admin@.claim(sender@) == Some(final(self).admin@),
            r matches Err(e) ==> e is Unauthorized && *final(self) == *old(self),
    {
        let next = self.admin.clone().claim(sender);
        match next {
            Ok(admin) => {
                self.admin = admin;
                Ok(())
            },
            Err(e) => Err(e),
        }
    }

    /// Applies a cancellation by `sender`; on refusal the record is left as it was.
    pub fn cancel_transfer_admin(&mut self, sender: &Addr) -> (r: Result<(), ContractError>)
        ensures
            final(self).same_settings(old(self)),
            r is Ok <==> old(self).admin@.cancel(sender@) is Some,
            r is Ok ==> old(self).admin@.cancel(sender@) == Some(final(self).admin@),
            r matches Err(e) ==> e is Unauthorized && *final(self) == *old(self),
    {
        let next = self.admin.clone().cancel(sender);
        match next {
            Ok(admin) => {
                self.admin = admin;
                Ok(())
            },
            Err(e) => Err(e),
        }
    }
}

} // verus!
