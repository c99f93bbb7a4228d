//! The registry: a read-only window on the directory.
//!
//! It forwards lookups and asks for no role: anyone may read.

use crate::identity::{AccountId, Timestamp};
use crate::resolver::Record;
use vstd::prelude::*;

verus! {

/// The read-only window on the directory.
pub struct Registry {
    resolver_contract_address: AccountId,
}

impl Registry {
    /// A registry for the directory at `resolver_contract_address`.
    pub fn new(resolver_contract_address: AccountId) -> (registry: Self)
        ensures
            registry.resolver() == resolver_contract_address,
    {
        Self { resolver_contract_address }
    }

    /// The address of the directory.
    pub closed spec fn resolver(self) -> AccountId {
        self.resolver_contract_address
    }

    /// The owner of `domain_name`, if the name is registered.
    pub fn read_owner(&self, directory: &Record, domain_name: String) -> (owner: Option<AccountId>)
        requires
            directory.wf(),
        ensures
            match owner {
                Some(o) => !directory@.available(domain_name@) && o@
                    == directory@.records[domain_name@].domain_owner,
                None => directory@.available(domain_name@),
            },
    {
        directory.read_domain_owner(domain_name)
    }

    /// The expiry time of `domain_name`, if the name is registered.
    pub fn read_expiry_time(&self, directory: &Record, domain_name: String) -> (expiry: Option<
        Timestamp,
    >)
        requires
            directory.wf(),
        ensures
            match expiry {
                Some(t) => !directory@.available(domain_name@) && t
                    == directory@.records[domain_name@].domain_expiry_time,
                None => directory@.available(domain_name@),
            },
    {
        directory.read_domain_expiry_time(domain_name)
    }

    /// The website of `domain_name`, if a content record was written.
    pub fn read_content_hash(&self, directory: &Record, domain_name: String) -> (website: Option<
        String,
    >)
        requires
            directory.wf(),
        ensures
            match website {
                Some(w) => directory@.domain_content.dom().contains(domain_name@) && w@
                    == directory@.domain_content[domain_name@].website,
                None => !directory@.domain_content.dom().contains(domain_name@),
            },
    {
        directory.read_content_hash(domain_name)
    }
}

} // verus!
