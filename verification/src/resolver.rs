//! The domain directory: the authoritative table of domain records, their
//! content records and the delegation of subdomains.
//!
//! A name is registered exactly when the directory holds a record for it.
//! Every operation names its caller and, where time matters, the ledger's
//! clock; an operation that fails changes nothing.

use crate::content::{
    content_key_of, parse_content_key, slot_count, ContentKey, ContentText, ContentView,
    SubDomainContentText,
};
use crate::digest::{domain_digest, encodable, hash_domain_info, is_encodable};
use crate::identity::{is_after, same_bytes, AccountId, Digest, Timestamp};
use crate::table::Table;
use vstd::prelude::*;

verus! {

/// Why an operation of the directory failed.
#[derive(Debug, PartialEq, Eq, Clone, Copy)]
pub enum Error {
    UndefinedError,
    DomainNotRegistered,
    InvalidCaller,
    DomainNotExpired,
    RenewTimeExpired,
    InvalidContentKey,
    PermissionDenied,
}

/// The record of a registered domain.
#[derive(Debug, PartialEq, Eq, Clone)]
pub struct Records {
    pub domain_name: String,
    pub domain_owner: AccountId,
    pub duration: Timestamp,
    pub secret: [u8; 32],
    pub resolver: AccountId,
    pub domain_expiry_time: Timestamp,
    pub subdomain: String,
}

/// What a domain record holds.
pub struct RecordsView {
    pub domain_name: Seq<char>,
    pub domain_owner: Seq<u8>,
    pub duration: u64,
    pub secret: Seq<u8>,
    pub resolver: Seq<u8>,
    pub domain_expiry_time: u64,
    pub subdomain: Seq<char>,
}

impl View for Records {
    type V = RecordsView;

    open spec fn view(&self) -> RecordsView {
        RecordsView {
            domain_name: self.domain_name@,
            domain_owner: self.domain_owner@,
            duration: self.duration,
            secret: self.secret@,
            resolver: self.resolver@,
            domain_expiry_time: self.domain_expiry_time,
            subdomain: self.subdomain@,
        }
    }
}

impl Records {
    /// A copy of the record.
    pub fn duplicate(&self) -> (copy: Self)
        ensures
            copy@ == self@,
    {
        Records {
            domain_name: self.domain_name.clone(),
            domain_owner: self.domain_owner,
            duration: self.duration,
            secret: self.secret,
            resolver: self.resolver,
            domain_expiry_time: self.domain_expiry_time,
            subdomain: self.subdomain.clone(),
        }
    }
}

/// The fields of a domain that its integrity digest covers.
#[derive(Debug, PartialEq, Eq, Clone)]
pub struct Domain {
    pub domain_name: String,
    pub domain_owner: AccountId,
    pub domain_expiry_time: Timestamp,
}

/// Notice: the content record of a domain was written.
#[derive(Debug, PartialEq, Eq)]
pub struct ContentTextInfo {
    pub domain_name: String,
    pub content_text: ContentText,
}

/// Notice: the grace period was set.
#[derive(Debug, PartialEq, Eq, Clone, Copy)]
pub struct GracePeriod {
    pub grace_period: Timestamp,
}

/// Notice: the content record of a subdomain was written.
#[derive(Debug, PartialEq, Eq)]
pub struct SubDomainContentTextInfo {
    pub subdomain_name: String,
    pub subdomain_content_text: SubDomainContentText,
}

/// Notice: a domain changed hands.
#[derive(Debug, PartialEq, Eq)]
pub struct DomainOwnerInfo {
    pub domain_name: String,
    pub domain_owner: AccountId,
    pub records_availability: bool,
}

/// Notice: a domain was renewed.
#[derive(Debug, PartialEq, Eq)]
pub struct RenewDomainInfo {
    pub domain_name: String,
    pub domain_expiry_time: Timestamp,
    pub domain_duration: Timestamp,
}

/// Notice: a domain was unregistered.
#[derive(Debug, PartialEq, Eq)]
pub struct UnregisteredDomainInfo {
    pub domain_name: String,
    pub registration_status: bool,
}

/// Notice: the manager of a subdomain was reassigned.
#[derive(Debug, PartialEq, Eq)]
pub struct SubDomainManager {
    pub subdomain_name: String,
    pub subdomain_manager: AccountId,
}

/// The state of the directory, as the rules see it.
pub struct Directory {
    pub records: Map<Seq<char>, RecordsView>,
    pub domain_content: Map<Seq<char>, ContentView>,
    pub subdomain_content: Map<Seq<char>, ContentView>,
    pub subdomain_manager: Map<Seq<char>, Seq<u8>>,
    pub admin: Seq<u8>,
    pub manager: Seq<u8>,
    pub grace_period: u64,
}

impl Directory {
    /// Whether `name` can still be claimed: it has no record.
    pub open spec fn available(self, name: Seq<char>) -> bool {
        !self.records.dom().contains(name)
    }

    /// The first moment at which `name` is past its grace period is the one
    /// after this.
    pub open spec fn grace_end(self, name: Seq<char>) -> int {
        self.records[name].domain_expiry_time + self.grace_period
    }

    /// What every operation of a domain's owner asks of its caller.
    pub open spec fn owner_check(self, caller: Seq<u8>, name: Seq<char>) -> Result<(), Error> {
        if self.available(name) {
            Err(Error::DomainNotRegistered)
        } else if self.records[name].domain_owner != caller {
            Err(Error::PermissionDenied)
        } else {
            Ok(())
        }
    }

    /// What the administrator's operations ask of their caller.
    pub open spec fn admin_check(self, caller: Seq<u8>) -> Result<(), Error> {
        if self.admin != caller {
            Err(Error::PermissionDenied)
        } else {
            Ok(())
        }
    }

    /// The content record of `name`, or the empty one before its first write.
    pub open spec fn domain_content_of(self, name: Seq<char>) -> ContentView {
        if self.domain_content.dom().contains(name) {
            self.domain_content[name]
        } else {
            ContentView::empty()
        }
    }

    /// The content record of the subdomain `name`, or the empty one.
    pub open spec fn subdomain_content_of(self, name: Seq<char>) -> ContentView {
        if self.subdomain_content.dom().contains(name) {
            self.subdomain_content[name]
        } else {
            ContentView::empty()
        }
    }

    /// Whether a record for `name` is accepted under `label`: the name is
    /// available and can be encoded, and the label is the digest of name,
    /// owner and expiry time.
    pub open spec fn accepts_record(
        self,
        label: Seq<u8>,
        name: Seq<char>,
        owner: Seq<u8>,
        expiry: u64,
    ) -> bool {
        self.available(name) && encodable(name) && label == domain_digest(name, owner, expiry)
    }

    /// The directory with `record` stored under its name.
    pub open spec fn with_record(self, record: RecordsView) -> Directory {
        Directory { records: self.records.insert(record.domain_name, record), ..self }
    }

    /// Whether the owner's write to slot `index` of `key` is accepted. The
    /// website of a domain is not written this way.
    pub open spec fn domain_slot(key: Seq<char>, index: u32) -> Option<ContentKey> {
        match content_key_of(key) {
            Some(k) => if k != ContentKey::Website && index < slot_count(k) {
                Some(k)
            } else {
                None
            },
            None => None,
        }
    }

    /// Whether the manager's write to slot `index` of `key` is accepted.
    pub open spec fn subdomain_slot(key: Seq<char>, index: u32) -> Option<ContentKey> {
        match content_key_of(key) {
            Some(k) => if k == ContentKey::Website || index < slot_count(k) {
                Some(k)
            } else {
                None
            },
            None => None,
        }
    }

    /// How a write to the content of the domain `name` ends.
    pub open spec fn domain_write_outcome(
        self,
        caller: Seq<u8>,
        name: Seq<char>,
        key: Seq<char>,
        index: u32,
    ) -> Result<(), Error> {
        if self.owner_check(caller, name) is Err {
            self.owner_check(caller, name)
        } else if Self::domain_slot(key, index) is None {
            Err(Error::InvalidContentKey)
        } else {
            Ok(())
        }
    }

    /// The directory after `text` was put into a slot of the domain `name`.
    pub open spec fn with_domain_text(
        self,
        name: Seq<char>,
        key: ContentKey,
        index: int,
        text: Seq<char>,
    ) -> Directory {
        Directory {
            domain_content: self.domain_content.insert(
                name,
                self.domain_content_of(name).with_text(key, index, text),
            ),
            ..self
        }
    }

    /// The directory after `name` went to `new_owner`, its content record
    /// kept or dropped.
    pub open spec fn with_owner(
        self,
        name: Seq<char>,
        new_owner: Seq<u8>,
        keep_content: bool,
    ) -> Directory {
        Directory {
            records: self.records.insert(
                name,
                RecordsView { domain_owner: new_owner, ..self.records[name] },
            ),
            domain_content: if keep_content {
                self.domain_content
            } else {
                self.domain_content.remove(name)
            },
            ..self
        }
    }

    /// How an attempt to unregister `name` at `now` ends.
    pub open spec fn unregister_outcome(
        self,
        caller: Seq<u8>,
        now: u64,
        name: Seq<char>,
    ) -> Result<(), Error> {
        if self.manager != caller {
            Err(Error::PermissionDenied)
        } else if self.available(name) {
            Err(Error::DomainNotRegistered)
        } else if now <= self.grace_end(name) {
            Err(Error::DomainNotExpired)
        } else {
            Ok(())
        }
    }

    /// The directory without `name`: neither its record nor its content.
    pub open spec fn without(self, name: Seq<char>) -> Directory {
        Directory {
            records: self.records.remove(name),
            domain_content: self.domain_content.remove(name),
            ..self
        }
    }

    /// How an attempt to renew `name` at `now` ends.
    pub open spec fn renew_outcome(
        self,
        caller: Seq<u8>,
        now: u64,
        name: Seq<char>,
    ) -> Result<(), Error> {
        if self.owner_check(caller, name) is Err {
            self.owner_check(caller, name)
        } else if now > self.grace_end(name) {
            Err(Error::RenewTimeExpired)
        } else {
            Ok(())
        }
    }

    /// Whether `name` can take `extra` more time within the clock's range.
    pub open spec fn can_extend(self, name: Seq<char>, extra: u64) -> bool {
        &&& self.records[name].duration + extra <= u64::MAX
        &&& self.records[name].domain_expiry_time + extra <= u64::MAX
    }

    /// The directory after `name` was given `extra` more time.
    pub open spec fn renewed(self, name: Seq<char>, extra: u64) -> Directory {
        Directory {
            records: self.records.insert(
                name,
                RecordsView {
                    duration: (self.records[name].duration + extra) as u64,
                    domain_expiry_time: (self.records[name].domain_expiry_time + extra) as u64,
                    ..self.records[name]
                },
            ),
            ..self
        }
    }

    /// The directory after `child` became the subdomain of `parent`, managed
    /// by the parent's owner.
    pub open spec fn with_subdomain(self, parent: Seq<char>, child: Seq<char>) -> Directory {
        Directory {
            records: self.records.insert(
                parent,
                RecordsView { subdomain: child, ..self.records[parent] },
            ),
            subdomain_manager: self.subdomain_manager.insert(
                child,
                self.records[parent].domain_owner,
            ),
            ..self
        }
    }

    /// What a write to a subdomain's content asks of its caller: only the
    /// recorded manager passes.
    pub open spec fn manager_check(self, caller: Seq<u8>, subdomain: Seq<char>) -> Result<
        (),
        Error,
    > {
        if !self.subdomain_manager.dom().contains(subdomain) {
            Err(Error::DomainNotRegistered)
        } else if self.subdomain_manager[subdomain] != caller {
            Err(Error::PermissionDenied)
        } else {
            Ok(())
        }
    }

    /// How a write to the content of the subdomain `name` ends.
    pub open spec fn subdomain_write_outcome(
        self,
        caller: Seq<u8>,
        name: Seq<char>,
        key: Seq<char>,
        index: u32,
    ) -> Result<(), Error> {
        if self.manager_check(caller, name) is Err {
            self.manager_check(caller, name)
        } else if Self::subdomain_slot(key, index) is None {
            Err(Error::InvalidContentKey)
        } else {
            Ok(())
        }
    }

    /// The directory after `text` was put into a slot of the subdomain `name`.
    pub open spec fn with_subdomain_text(
        self,
        name: Seq<char>,
        key: ContentKey,
        index: int,
        text: Seq<char>,
    ) -> Directory {
        Directory {
            subdomain_content: self.subdomain_content.insert(
                name,
                self.subdomain_content_of(name).with_text(key, index, text),
            ),
            ..self
        }
    }

    /// The directory after the subdomain of `parent` went to `manager`.
    pub open spec fn with_subdomain_manager(
        self,
        parent: Seq<char>,
        manager: Seq<u8>,
    ) -> Directory {
        Directory {
            subdomain_manager: self.subdomain_manager.insert(
                self.records[parent].subdomain,
                manager,
            ),
            ..self
        }
    }

    /// Every record stands under its own name, and every content record has
    /// its slots.
    pub open spec fn consistent(self) -> bool {
        &&& names_match(self.records)
        &&& all_sized(self.domain_content)
        &&& all_sized(self.subdomain_content)
    }
}

/// Every record of `records` stands under its own name.
pub open spec fn names_match(records: Map<Seq<char>, RecordsView>) -> bool {
    forall|name: Seq<char>|
        #![trigger records.dom().contains(name)]
        records.dom().contains(name) ==> records[name].domain_name == name
}

/// Every content record of `contents` has its slots.
pub open spec fn all_sized(contents: Map<Seq<char>, ContentView>) -> bool {
    forall|name: Seq<char>|
        #![trigger contents.dom().contains(name)]
        contents.dom().contains(name) ==> contents[name].well_sized()
}

proof fn names_match_insert(records: Map<Seq<char>, RecordsView>, record: RecordsView)
    requires
        names_match(records),
    ensures
        names_match(records.insert(record.domain_name, record)),
{
    let after = records.insert(record.domain_name, record);
    assert forall|name: Seq<char>|
        #![trigger after.dom().contains(name)]
        after.dom().contains(name) implies after[name].domain_name == name by {
        if name != record.domain_name {
            assert(records.dom().contains(name));
        }
    }
}

proof fn names_match_remove(records: Map<Seq<char>, RecordsView>, gone: Seq<char>)
    requires
        names_match(records),
    ensures
        names_match(records.remove(gone)),
{
    let after = records.remove(gone);
    assert forall|name: Seq<char>|
        #![trigger after.dom().contains(name)]
        after.dom().contains(name) implies after[name].domain_name == name by {
        assert(records.dom().contains(name));
    }
}

proof fn all_sized_insert(
    contents: Map<Seq<char>, ContentView>,
    name: Seq<char>,
    content: ContentView,
)
    requires
        all_sized(contents),
        content.well_sized(),
    ensures
        all_sized(contents.insert(name, content)),
{
    let after = contents.insert(name, content);
    assert forall|n: Seq<char>|
        #![trigger after.dom().contains(n)]
        after.dom().contains(n) implies after[n].well_sized() by {
        if n != name {
            assert(contents.dom().contains(n));
        }
    }
}

proof fn all_sized_remove(contents: Map<Seq<char>, ContentView>, gone: Seq<char>)
    requires
        all_sized(contents),
    ensures
        all_sized(contents.remove(gone)),
{
    let after = contents.remove(gone);
    assert forall|n: Seq<char>|
        #![trigger after.dom().contains(n)]
        after.dom().contains(n) implies after[n].well_sized() by {
        assert(contents.dom().contains(n));
    }
}

/// The domain directory.
pub struct Record {
    records: Table<String, Records>,
    domain_content_text: Table<String, ContentText>,
    subdomain_content_text: Table<String, SubDomainContentText>,
    subdomain_manager: Table<String, AccountId>,
    admin: AccountId,
    manager: AccountId,
    grace_period: Timestamp,
}

impl View for Record {
    type V = Directory;

    closed spec fn view(&self) -> Directory {
        Directory {
            records: self.records@,
            domain_content: self.domain_content_text@,
            subdomain_content: self.subdomain_content_text@,
            subdomain_manager: self.subdomain_manager@,
            admin: self.admin@,
            manager: self.manager@,
            grace_period: self.grace_period,
        }
    }
}

impl Record {
    /// The directory is well formed: its tables are, and its state is
    /// consistent.
    pub closed spec fn wf(self) -> bool {
        &&& self.records.wf()
        &&& self.domain_content_text.wf()
        &&& self.subdomain_content_text.wf()
        &&& self.subdomain_manager.wf()
        &&& self@.consistent()
    }

    /// A well-formed directory is consistent.
    pub proof fn wf_is_consistent(self)
        requires
            self.wf(),
        ensures
            self@.consistent(),
    {
    }

    /// An empty directory with its administrator, its manager and its grace
    /// period.
    pub fn new(admin: AccountId, manager: AccountId, grace_period: Timestamp) -> (directory: Self)
        ensures
            directory.wf(),
            directory@ == (Directory {
                records: Map::empty(),
                domain_content: Map::empty(),
                subdomain_content: Map::empty(),
                subdomain_manager: Map::empty(),
                admin: admin@,
                manager: manager@,
                grace_period,
            }),
    {
        Record {
            records: Table::new(),
            domain_content_text: Table::new(),
            subdomain_content_text: Table::new(),
            subdomain_manager: Table::new(),
            admin,
            manager,
            grace_period,
        }
    }
}

impl Record {
    fn create_record_info(
        domain_name: String,
        domain_owner: AccountId,
        duration: Timestamp,
        secret: [u8; 32],
        resolver: AccountId,
        domain_expiry_time: Timestamp,
    ) -> (record: Records)
        ensures
            record@ == (RecordsView {
                domain_name: domain_name@,
                domain_owner: domain_owner@,
                duration,
                secret: secret@,
                resolver: resolver@,
                domain_expiry_time,
                subdomain: Seq::empty(),
            }),
    {
        Records {
            domain_name,
            domain_owner,
            duration,
            secret,
            resolver,
            domain_expiry_time,
            subdomain: String::new(),
        }
    }

    fn create_domain_info(
        domain_name: String,
        domain_owner: AccountId,
        domain_expiry_time: Timestamp,
    ) -> (domain: Domain)
        ensures
            domain.domain_name@ == domain_name@,
            domain.domain_owner == domain_owner,
            domain.domain_expiry_time == domain_expiry_time,
    {
        Domain { domain_name, domain_owner, domain_expiry_time }
    }

    /// Stores a record for `domain_name` if the name is available and
    /// `label` equals `expected`, the digest that the directory computed
    /// itself; says whether it did.
    pub fn set_record_with_label(
        &mut self,
        label: Digest,
        expected: Digest,
        domain_name: String,
        domain_owner: AccountId,
        duration: Timestamp,
        secret: [u8; 32],
        resolver: AccountId,
        domain_expiry_time: Timestamp,
    ) -> (stored: bool)
        requires
            old(self).wf(),
        ensures
            final(self).wf(),
            stored == (old(self)@.available(domain_name@) && label@ == expected@),
            stored ==> final(self)@ == old(self)@.with_record(
                RecordsView {
                    domain_name: domain_name@,
                    domain_owner: domain_owner@,
                    duration,
                    secret: secret@,
                    resolver: resolver@,
                    domain_expiry_time,
                    subdomain: Seq::empty(),
                },
            ),
            !stored ==> final(self)@ == old(self)@,
    {
        if !self.records.contains(&domain_name) && same_bytes(&label, &expected) {
            let record_info = Self::create_record_info(
                domain_name.clone(),
                domain_owner,
                duration,
                secret,
                resolver,
                domain_expiry_time,
            );
            let ghost stored = record_info@;
            self.records.insert(domain_name, record_info);
            proof {
                names_match_insert(old(self)@.records, stored);
            }
            true
        } else {
            false
        }
    }

    /// Stores a record for `domain_name` if the name is available and can be
    /// encoded, and `label` is the digest of name, owner and expiry time;
    /// says whether it did.
    pub fn set_record(
        &mut self,
        label: Digest,
        domain_name: String,
        domain_owner: AccountId,
        duration: Timestamp,
        secret: [u8; 32],
        resolver: AccountId,
        domain_expiry_time: Timestamp,
    ) -> (stored: bool)
        requires
            old(self).wf(),
        ensures
            final(self).wf(),
            stored == old(self)@.accepts_record(
                label@,
                domain_name@,
                domain_owner@,
                domain_expiry_time,
            ),
            stored ==> final(self)@ == old(self)@.with_record(
                RecordsView {
                    domain_name: domain_name@,
                    domain_owner: domain_owner@,
                    duration,
                    secret: secret@,
                    resolver: resolver@,
                    domain_expiry_time,
                    subdomain: Seq::empty(),
                },
            ),
            !stored ==> final(self)@ == old(self)@,
    {
        if !is_encodable(&domain_name) {
            return false;
        }
        let domain_info = Self::create_domain_info(
            domain_name.clone(),
            domain_owner,
            domain_expiry_time,
        );
        let label_hash = hash_domain_info(
            &domain_info.domain_name,
            &domain_info.domain_owner,
            domain_info.domain_expiry_time,
        );
        self.set_record_with_label(
            label,
            label_hash,
            domain_name,
            domain_owner,
            duration,
            secret,
            resolver,
            domain_expiry_time,
        )
    }

    /// Whether `domain_name` can still be claimed.
    pub fn check_domain_availablility(&self, domain_name: String) -> (free: bool)
        ensures
            free == self@.available(domain_name@),
            free == !self@.records.dom().contains(domain_name@),
    {
        let availability = self.records.contains(&domain_name);
        !availability
    }

    /// The grace period.
    pub fn read_grace_period(&self) -> (period: Timestamp)
        ensures
            period == self@.grace_period,
    {
        self.grace_period
    }

    /// The administrator.
    pub fn read_admin(&self) -> (admin: AccountId)
        ensures
            admin@ == self@.admin,
    {
        self.admin
    }

    /// The manager.
    pub fn read_manager(&self) -> (manager: AccountId)
        ensures
            manager@ == self@.manager,
    {
        self.manager
    }

    /// The record of `domain_name`, if the name is registered.
    pub fn read_record(&self, domain_name: String) -> (record: Option<Records>)
        requires
            self.wf(),
        ensures
            match record {
                Some(r) => !self@.available(domain_name@) && r@ == self@.records[domain_name@],
                None => self@.available(domain_name@),
            },
    {
        match self.records.get(&domain_name) {
            Some(r) => Some(r.duplicate()),
            None => None,
        }
    }

    /// The owner of `domain_name`, if the name is registered.
    pub fn read_domain_owner(&self, domain_name: String) -> (owner: Option<AccountId>)
        requires
            self.wf(),
        ensures
            match owner {
                Some(o) => !self@.available(domain_name@) && o@
                    == self@.records[domain_name@].domain_owner,
                None => self@.available(domain_name@),
            },
    {
        match self.records.get(&domain_name) {
            Some(owner_record) => Some(owner_record.domain_owner),
            None => None,
        }
    }

    /// The owner of the subdomain of `parent_domain`: the parent's owner, if
    /// the parent is registered.
    pub fn read_subdomain_owner(&self, parent_domain: String) -> (owner: Option<AccountId>)
        requires
            self.wf(),
        ensures
            match owner {
                Some(o) => !self@.available(parent_domain@) && o@
                    == self@.records[parent_domain@].domain_owner,
                None => self@.available(parent_domain@),
            },
    {
        self.read_domain_owner(parent_domain)
    }

    /// The expiry time of `domain_name`, if the name is registered.
    pub fn read_domain_expiry_time(&self, domain_name: String) -> (expiry: Option<Timestamp>)
        requires
            self.wf(),
        ensures
            match expiry {
                Some(t) => !self@.available(domain_name@) && t
                    == self@.records[domain_name@].domain_expiry_time,
                None => self@.available(domain_name@),
            },
    {
        match self.records.get(&domain_name) {
            Some(owner_record) => Some(owner_record.domain_expiry_time),
            None => None,
        }
    }

    /// The manager of `subdomain`, if one is recorded.
    pub fn read_subdomain_manager(&self, subdomain: String) -> (manager: Option<AccountId>)
        requires
            self.wf(),
        ensures
            match manager {
                Some(m) => self@.subdomain_manager.dom().contains(subdomain@) && m@
                    == self@.subdomain_manager[subdomain@],
                None => !self@.subdomain_manager.dom().contains(subdomain@),
            },
    {
        match self.subdomain_manager.get(&subdomain) {
            Some(m) => Some(*m),
            None => None,
        }
    }

    /// The content record of `domain_name`, if one was written.
    pub fn read_domain_content_text(&self, domain_name: String) -> (content: Option<ContentText>)
        requires
            self.wf(),
        ensures
            match content {
                Some(c) => self@.domain_content.dom().contains(domain_name@) && c@
                    == self@.domain_content[domain_name@],
                None => !self@.domain_content.dom().contains(domain_name@),
            },
    {
        match self.domain_content_text.get(&domain_name) {
            Some(c) => Some(c.duplicate()),
            None => None,
        }
    }

    /// The content record of `subdomain_name`, if one was written.
    pub fn read_subdomain_content_text(&self, subdomain_name: String) -> (content: Option<
        SubDomainContentText,
    >)
        requires
            self.wf(),
        ensures
            match content {
                Some(c) => self@.subdomain_content.dom().contains(subdomain_name@) && c@
                    == self@.subdomain_content[subdomain_name@],
                None => !self@.subdomain_content.dom().contains(subdomain_name@),
            },
    {
        match self.subdomain_content_text.get(&subdomain_name) {
            Some(c) => Some(c.duplicate()),
            None => None,
        }
    }

    /// The website of `domain_name`, if a content record was written.
    pub fn read_content_hash(&self, domain_name: String) -> (website: Option<String>)
        requires
            self.wf(),
        ensures
            match website {
                Some(w) => self@.domain_content.dom().contains(domain_name@) && w@
                    == self@.domain_content[domain_name@].website,
                None => !self@.domain_content.dom().contains(domain_name@),
            },
    {
        match self.domain_content_text.get(&domain_name) {
            Some(c) => Some(c.website.clone()),
            None => None,
        }
    }
}

/// The number of slots of a category.
pub fn slots_of(key: ContentKey) -> (count: usize)
    ensures
        count == slot_count(key),
{
    match key {
        ContentKey::Social => 5,
        ContentKey::General => 5,
        ContentKey::Address => 5,
        ContentKey::Website => 1,
        ContentKey::Other => 2,
    }
}

/// The category and slot that the owner of a domain may write under `key`
/// and `index`, if there is one.
pub fn domain_slot_of(key: &String, index: u32) -> (slot: Option<ContentKey>)
    ensures
        slot == Directory::domain_slot(key@, index),
{
    match parse_content_key(key) {
        Some(ContentKey::Website) => None,
        Some(k) => if (index as usize) < slots_of(k) {
            Some(k)
        } else {
            None
        },
        None => None,
    }
}

/// The category and slot that the manager of a subdomain may write under
/// `key` and `index`, if there is one.
pub fn subdomain_slot_of(key: &String, index: u32) -> (slot: Option<ContentKey>)
    ensures
        slot == Directory::subdomain_slot(key@, index),
{
    match parse_content_key(key) {
        Some(ContentKey::Website) => Some(ContentKey::Website),
        Some(k) => if (index as usize) < slots_of(k) {
            Some(k)
        } else {
            None
        },
        None => None,
    }
}

impl Record {
    fn only_admin(&self, caller: &AccountId) -> (r: Result<(), Error>)
        ensures
            r == self@.admin_check(caller@),
    {
        if same_bytes(caller, &self.admin) {
            Ok(())
        } else {
            Err(Error::PermissionDenied)
        }
    }

    fn only_manager(&self, caller: &AccountId) -> (passes: bool)
        ensures
            passes == (self@.manager == caller@),
    {
        same_bytes(caller, &self.manager)
    }

    fn only_domain_owner(&self, caller: &AccountId, domain_name: &String) -> (r: Result<(), Error>)
        requires
            self.wf(),
        ensures
            r == self@.owner_check(caller@, domain_name@),
    {
        match self.records.get(domain_name) {
            None => Err(Error::DomainNotRegistered),
            Some(record) => if same_bytes(caller, &record.domain_owner) {
                Ok(())
            } else {
                Err(Error::PermissionDenied)
            },
        }
    }

    fn only_subdomain_manager(&self, caller: &AccountId, subdomain: &String) -> (r: Result<
        (),
        Error,
    >)
        requires
            self.wf(),
        ensures
            r == self@.manager_check(caller@, subdomain@),
    {
        match self.subdomain_manager.get(subdomain) {
            None => Err(Error::DomainNotRegistered),
            Some(manager) => if same_bytes(caller, manager) {
                Ok(())
            } else {
                Err(Error::PermissionDenied)
            },
        }
    }

    /// Writes `domain_content_text` into slot `content_key_index` of the
    /// category `content_key` of a domain's content record. Only the owner of
    /// the domain may; the record is created empty at its first write.
    pub fn set_domain_content_text(
        &mut self,
        caller: AccountId,
        domain_name: String,
        content_key: String,
        content_key_index: u32,
        domain_content_text: String,
    ) -> (r: Result<ContentTextInfo, Error>)
        requires
            old(self).wf(),
        ensures
            final(self).wf(),
            match r {
                Ok(info) => {
                    &&& old(self)@.domain_write_outcome(
                        caller@,
                        domain_name@,
                        content_key@,
                        content_key_index,
                    ) is Ok
                    &&& final(self)@ == old(self)@.with_domain_text(
                        domain_name@,
                        Directory::domain_slot(content_key@, content_key_index).unwrap(),
                        content_key_index as int,
                        domain_content_text@,
                    )
                    &&& info.domain_name@ == domain_name@
                    &&& info.content_text@ == final(self)@.domain_content[domain_name@]
                },
                Err(e) => {
                    &&& old(self)@.domain_write_outcome(
                        caller@,
                        domain_name@,
                        content_key@,
                        content_key_index,
                    ) == Err::<(), Error>(e)
                    &&& final(self)@ == old(self)@
                },
            },
    {
        match self.only_domain_owner(&caller, &domain_name) {
            Err(e) => {
                return Err(e);
            },
            Ok(()) => {},
        }
        let key = match domain_slot_of(&content_key, content_key_index) {
            Some(k) => k,
            None => {
                return Err(Error::InvalidContentKey);
            },
        };
        let mut texts = match self.domain_content_text.get(&domain_name) {
            Some(c) => c.duplicate(),
            None => ContentText::empty(),
        };
        texts.put(key, content_key_index as usize, domain_content_text);
        let content_text = texts.duplicate();
        self.domain_content_text.insert(domain_name.clone(), texts);
        proof {
            all_sized_insert(old(self)@.domain_content, domain_name@, content_text@);
        }
        Ok(ContentTextInfo { domain_name, content_text })
    }

    /// Sets the website of a domain's content record. Only the owner of the
    /// domain may; the record is created empty at its first write.
    pub fn set_content_hash(
        &mut self,
        caller: AccountId,
        domain_name: String,
        content_hash: String,
    ) -> (r: Result<ContentTextInfo, Error>)
        requires
            old(self).wf(),
        ensures
            final(self).wf(),
            match r {
                Ok(info) => {
                    &&& old(self)@.owner_check(caller@, domain_name@) is Ok
                    &&& final(self)@ == old(self)@.with_domain_text(
                        domain_name@,
                        ContentKey::Website,
                        0,
                        content_hash@,
                    )
                    &&& info.domain_name@ == domain_name@
                    &&& info.content_text@ == final(self)@.domain_content[domain_name@]
                },
                Err(e) => {
                    &&& old(self)@.owner_check(caller@, domain_name@) == Err::<(), Error>(e)
                    &&& final(self)@ == old(self)@
                },
            },
    {
        match self.only_domain_owner(&caller, &domain_name) {
            Err(e) => {
                return Err(e);
            },
            Ok(()) => {},
        }
        let mut texts = match self.domain_content_text.get(&domain_name) {
            Some(c) => c.duplicate(),
            None => ContentText::empty(),
        };
        texts.put(ContentKey::Website, 0, content_hash);
        let content_text = texts.duplicate();
        self.domain_content_text.insert(domain_name.clone(), texts);
        proof {
            all_sized_insert(old(self)@.domain_content, domain_name@, content_text@);
        }
        Ok(ContentTextInfo { domain_name, content_text })
    }

    /// Hands a domain to `new_domain_owner`. Only the owner of the domain
    /// may. The content record stays if `records_availability` says so, and
    /// is dropped otherwise.
    pub fn change_domain_owner(
        &mut self,
        caller: AccountId,
        domain_name: String,
        new_domain_owner: AccountId,
        records_availability: bool,
    ) -> (r: Result<DomainOwnerInfo, Error>)
        requires
            old(self).wf(),
        ensures
            final(self).wf(),
            match r {
                Ok(info) => {
                    &&& old(self)@.owner_check(caller@, domain_name@) is Ok
                    &&& final(self)@ == old(self)@.with_owner(
                        domain_name@,
                        new_domain_owner@,
                        records_availability,
                    )
                    &&& info.domain_name@ == domain_name@
                    &&& info.domain_owner == new_domain_owner
                    &&& info.records_availability == records_availability
                },
                Err(e) => {
                    &&& old(self)@.owner_check(caller@, domain_name@) == Err::<(), Error>(e)
                    &&& final(self)@ == old(self)@
                },
            },
    {
        match self.only_domain_owner(&caller, &domain_name) {
            Err(e) => {
                return Err(e);
            },
            Ok(()) => {},
        }
        let mut record_info = match self.records.get(&domain_name) {
            Some(record) => record.duplicate(),
            None => {
                return Err(Error::DomainNotRegistered);
            },
        };
        record_info.domain_owner = new_domain_owner;
        let ghost stored = record_info@;
        self.records.insert(domain_name.clone(), record_info);
        if !records_availability {
            self.domain_content_text.remove(&domain_name);
        }
        proof {
            names_match_insert(old(self)@.records, stored);
            all_sized_remove(old(self)@.domain_content, domain_name@);
        }
        Ok(DomainOwnerInfo { domain_name, domain_owner: new_domain_owner, records_availability })
    }

    /// Unregisters a domain: drops its record and its content record. Only
    /// the manager may, and only once the domain is past its expiry time and
    /// the grace period.
    pub fn unregister_domain(
        &mut self,
        caller: AccountId,
        now: Timestamp,
        domain_name: String,
    ) -> (r: Result<UnregisteredDomainInfo, Error>)
        requires
            old(self).wf(),
        ensures
            final(self).wf(),
            match r {
                Ok(info) => {
                    &&& old(self)@.unregister_outcome(caller@, now, domain_name@) is Ok
                    &&& final(self)@ == old(self)@.without(domain_name@)
                    &&& info.domain_name@ == domain_name@
                    &&& !info.registration_status
                },
                Err(e) => {
                    &&& old(self)@.unregister_outcome(caller@, now, domain_name@) == Err::<
                        (),
                        Error,
                    >(e)
                    &&& final(self)@ == old(self)@
                },
            },
    {
        if !self.only_manager(&caller) {
            return Err(Error::PermissionDenied);
        }
        let expiry = match self.read_domain_expiry_time(domain_name.clone()) {
            Some(t) => t,
            None => {
                return Err(Error::DomainNotRegistered);
            },
        };
        if !is_after(now, expiry, self.grace_period) {
            Err(Error::DomainNotExpired)
        } else {
            self.records.remove(&domain_name);
            self.domain_content_text.remove(&domain_name);
            proof {
                names_match_remove(old(self)@.records, domain_name@);
                all_sized_remove(old(self)@.domain_content, domain_name@);
            }
            Ok(UnregisteredDomainInfo { domain_name, registration_status: false })
        }
    }

    /// Renews a domain: adds `new_duration` to its duration and to its expiry
    /// time. Only the owner of the domain may, and no later than the end of
    /// the grace period.
    pub fn renew_domain(
        &mut self,
        caller: AccountId,
        now: Timestamp,
        domain_name: String,
        new_duration: Timestamp,
    ) -> (r: Result<RenewDomainInfo, Error>)
        requires
            old(self).wf(),
            old(self)@.renew_outcome(caller@, now, domain_name@) is Ok ==> old(self)@.can_extend(
                domain_name@,
                new_duration,
            ),
        ensures
            final(self).wf(),
            match r {
                Ok(info) => {
                    &&& old(self)@.renew_outcome(caller@, now, domain_name@) is Ok
                    &&& final(self)@ == old(self)@.renewed(domain_name@, new_duration)
                    &&& info.domain_name@ == domain_name@
                    &&& info.domain_expiry_time
                        == old(self)@.records[domain_name@].domain_expiry_time + new_duration
                    &&& info.domain_duration == old(self)@.records[domain_name@].duration
                        + new_duration
                },
                Err(e) => {
                    &&& old(self)@.renew_outcome(caller@, now, domain_name@) == Err::<(), Error>(e)
                    &&& final(self)@ == old(self)@
                },
            },
    {
        match self.only_domain_owner(&caller, &domain_name) {
            Err(e) => {
                return Err(e);
            },
            Ok(()) => {},
        }
        let mut record_info = match self.records.get(&domain_name) {
            Some(record) => record.duplicate(),
            None => {
                return Err(Error::DomainNotRegistered);
            },
        };
        if is_after(now, record_info.domain_expiry_time, self.grace_period) {
            Err(Error::RenewTimeExpired)
        } else {
            record_info.duration = record_info.duration + new_duration;
            record_info.domain_expiry_time = record_info.domain_expiry_time + new_duration;
            let domain_expiry_time = record_info.domain_expiry_time;
            let domain_duration = record_info.duration;
            let ghost stored = record_info@;
            self.records.insert(domain_name.clone(), record_info);
            proof {
                names_match_insert(old(self)@.records, stored);
            }
            Ok(RenewDomainInfo { domain_name, domain_expiry_time, domain_duration })
        }
    }

    /// Makes `subdomain` the subdomain of `parent_domain`, managed by the
    /// parent's owner. Only the owner of the parent may.
    pub fn register_subdomain(
        &mut self,
        caller: AccountId,
        parent_domain: String,
        subdomain: String,
    ) -> (r: Result<(), Error>)
        requires
            old(self).wf(),
        ensures
            final(self).wf(),
            r == old(self)@.owner_check(caller@, parent_domain@),
            r is Ok ==> final(self)@ == old(self)@.with_subdomain(parent_domain@, subdomain@),
            r is Err ==> final(self)@ == old(self)@,
    {
        match self.only_domain_owner(&caller, &parent_domain) {
            Err(e) => {
                return Err(e);
            },
            Ok(()) => {},
        }
        let mut parent_domain_records = match self.records.get(&parent_domain) {
            Some(record) => record.duplicate(),
            None => {
                return Err(Error::DomainNotRegistered);
            },
        };
        let owner = parent_domain_records.domain_owner;
        parent_domain_records.subdomain = subdomain.clone();
        let ghost stored = parent_domain_records@;
        self.records.insert(parent_domain, parent_domain_records);
        self.subdomain_manager.insert(subdomain, owner);
        proof {
            names_match_insert(old(self)@.records, stored);
        }
        Ok(())
    }

    /// Writes `subdomain_content_text` into slot `content_key_index` of the
    /// category `content_key` of a subdomain's content record, or into its
    /// website. Only the recorded manager of the subdomain may.
    pub fn set_subdomain_content_text(
        &mut self,
        caller: AccountId,
        subdomain_name: String,
        content_key: String,
        content_key_index: u32,
        subdomain_content_text: String,
    ) -> (r: Result<SubDomainContentTextInfo, Error>)
        requires
            old(self).wf(),
        ensures
            final(self).wf(),
            match r {
                Ok(info) => {
                    &&& old(self)@.subdomain_write_outcome(
                        caller@,
                        subdomain_name@,
                        content_key@,
                        content_key_index,
                    ) is Ok
                    &&& final(self)@ == old(self)@.with_subdomain_text(
                        subdomain_name@,
                        Directory::subdomain_slot(content_key@, content_key_index).unwrap(),
                        content_key_index as int,
                        subdomain_content_text@,
                    )
                    &&& info.subdomain_name@ == subdomain_name@
                    &&& info.subdomain_content_text@
                        == final(self)@.subdomain_content[subdomain_name@]
                },
                Err(e) => {
                    &&& old(self)@.subdomain_write_outcome(
                        caller@,
                        subdomain_name@,
                        content_key@,
                        content_key_index,
                    ) == Err::<(), Error>(e)
                    &&& final(self)@ == old(self)@
                },
            },
    {
        match self.only_subdomain_manager(&caller, &subdomain_name) {
            Err(e) => {
                return Err(e);
            },
            Ok(()) => {},
        }
        let key = match subdomain_slot_of(&content_key, content_key_index) {
            Some(k) => k,
            None => {
                return Err(Error::InvalidContentKey);
            },
        };
        let mut texts = match self.subdomain_content_text.get(&subdomain_name) {
            Some(c) => c.duplicate(),
            None => SubDomainContentText::empty(),
        };
        texts.put(key, content_key_index as usize, subdomain_content_text);
        let subdomain_content_text = texts.duplicate();
        self.subdomain_content_text.insert(subdomain_name.clone(), texts);
        proof {
            all_sized_insert(
                old(self)@.subdomain_content,
                subdomain_name@,
                subdomain_content_text@,
            );
        }
        Ok(SubDomainContentTextInfo { subdomain_name, subdomain_content_text })
    }

    /// Sets the grace period. Only the administrator may.
    pub fn set_grace_period(&mut self, caller: AccountId, new_grace_period: Timestamp) -> (r:
        Result<GracePeriod, Error>)
        requires
            old(self).wf(),
        ensures
            final(self).wf(),
            match r {
                Ok(info) => {
                    &&& old(self)@.admin_check(caller@) is Ok
                    &&& final(self)@ == (Directory {
                        grace_period: new_grace_period,
                        ..old(self)@
                    })
                    &&& info.grace_period == new_grace_period
                },
                Err(e) => {
                    &&& old(self)@.admin_check(caller@) == Err::<(), Error>(e)
                    &&& final(self)@ == old(self)@
                },
            },
    {
        match self.only_admin(&caller) {
            Err(e) => {
                return Err(e);
            },
            Ok(()) => {},
        }
        self.grace_period = new_grace_period;
        Ok(GracePeriod { grace_period: new_grace_period })
    }

    /// Names a new manager. Only the administrator may.
    pub fn change_manager(&mut self, caller: AccountId, manager: AccountId) -> (r: Result<
        (),
        Error,
    >)
        requires
            old(self).wf(),
        ensures
            final(self).wf(),
            r == old(self)@.admin_check(caller@),
            r is Ok ==> final(self)@ == (Directory { manager: manager@, ..old(self)@ }),
            r is Err ==> final(self)@ == old(self)@,
    {
        match self.only_admin(&caller) {
            Err(e) => {
                return Err(e);
            },
            Ok(()) => {},
        }
        self.manager = manager;
        Ok(())
    }

    /// Hands the subdomain of `parent_domain` to `manager`. Only the owner of
    /// the parent may. The notice names the subdomain and the directory's
    /// manager.
    pub fn change_subdomain_manager(
        &mut self,
        caller: AccountId,
        parent_domain: String,
        manager: AccountId,
    ) -> (r: Result<SubDomainManager, Error>)
        requires
            old(self).wf(),
        ensures
            final(self).wf(),
            match r {
                Ok(info) => {
                    &&& old(self)@.owner_check(caller@, parent_domain@) is Ok
                    &&& final(self)@ == old(self)@.with_subdomain_manager(parent_domain@, manager@)
                    &&& info.subdomain_name@ == old(self)@.records[parent_domain@].subdomain
                    &&& info.subdomain_manager@ == old(self)@.manager
                },
                Err(e) => {
                    &&& old(self)@.owner_check(caller@, parent_domain@) == Err::<(), Error>(e)
                    &&& final(self)@ == old(self)@
                },
            },
    {
        match self.only_domain_owner(&caller, &parent_domain) {
            Err(e) => {
                return Err(e);
            },
            Ok(()) => {},
        }
        let subdomain = match self.records.get(&parent_domain) {
            Some(record) => record.subdomain.clone(),
            None => {
                return Err(Error::DomainNotRegistered);
            },
        };
        self.subdomain_manager.insert(subdomain.clone(), manager);
        Ok(SubDomainManager { subdomain_name: subdomain, subdomain_manager: self.manager })
    }
}

/// A renewal adds exactly the added duration to the expiry time and to the
/// duration, and so moves the expiry time later where the added duration is
/// positive and leaves the instant of registration, the expiry time less
/// the duration, where it was; and no one but the current owner renews.
pub proof fn renewal_extends_by_the_added_duration(
    directory: Directory,
    caller: Seq<u8>,
    now: u64,
    name: Seq<char>,
    extra: u64,
)
    requires
        !directory.available(name),
        directory.can_extend(name, extra),
    ensures
        directory.renewed(name, extra).records[name].domain_expiry_time
            == directory.records[name].domain_expiry_time + extra,
        directory.renewed(name, extra).records[name].duration == directory.records[name].duration
            + extra,
        extra > 0 ==> directory.renewed(name, extra).records[name].domain_expiry_time
            > directory.records[name].domain_expiry_time,
        directory.renewed(name, extra).records[name].domain_expiry_time - directory.renewed(
            name,
            extra,
        ).records[name].duration == directory.records[name].domain_expiry_time
            - directory.records[name].duration,
        caller != directory.records[name].domain_owner ==> directory.renew_outcome(
            caller,
            now,
            name,
        ) == Err::<(), Error>(Error::PermissionDenied),
        directory.renew_outcome(caller, now, name) is Ok <==> caller
            == directory.records[name].domain_owner && now <= directory.grace_end(name),
{
}

/// A name is unregistered only by the manager, and only after its expiry
/// time and the grace period; once unregistered it is available again.
pub proof fn unregistration_frees_the_name(
    directory: Directory,
    caller: Seq<u8>,
    now: u64,
    name: Seq<char>,
)
    ensures
        directory.unregister_outcome(caller, now, name) is Ok <==> {
            &&& caller == directory.manager
            &&& !directory.available(name)
            &&& now > directory.records[name].domain_expiry_time + directory.grace_period
        },
        directory.without(name).available(name),
        !directory.without(name).domain_content.dom().contains(name),
{
}

/// The content of a subdomain is written by its recorded manager alone: any
/// other caller is refused with `PermissionDenied`, the owner of a parent
/// domain too.
pub proof fn subdomain_content_is_the_managers(
    directory: Directory,
    caller: Seq<u8>,
    parent: Seq<char>,
    subdomain: Seq<char>,
    key: Seq<char>,
    index: u32,
)
    requires
        directory.subdomain_manager.dom().contains(subdomain),
        directory.subdomain_manager[subdomain] != caller,
    ensures
        directory.subdomain_write_outcome(caller, subdomain, key, index) == Err::<(), Error>(
            Error::PermissionDenied,
        ),
        directory.owner_check(caller, parent) is Ok ==> directory.subdomain_write_outcome(
            caller,
            subdomain,
            key,
            index,
        ) == Err::<(), Error>(Error::PermissionDenied),
{
}

/// A name is available exactly when the directory holds no record for it:
/// storing a record takes the name, and nothing else does.
pub proof fn availability_follows_the_records(
    directory: Directory,
    record: RecordsView,
    name: Seq<char>,
)
    ensures
        directory.available(name) <==> !directory.records.dom().contains(name),
        !directory.with_record(record).available(record.domain_name),
        name != record.domain_name ==> directory.with_record(record).available(name)
            == directory.available(name),
{
}

} // verus!
