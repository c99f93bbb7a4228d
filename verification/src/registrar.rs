//! The registrar: the commit-reveal protocol by which a name is claimed.
//!
//! A claim takes two steps. First the claimant commits to the digest of the
//! registration's parameters and a secret. Later, no sooner than the minimum
//! commitment age and before the maximum, the claimant registers with those
//! parameters; the registrar recomputes the digest, checks the commitment's
//! age, and writes the record into the directory.

use crate::digest::{
    commitment_digest, encodable, hash_commit_info, hash_domain_info, is_encodable,
};
use crate::identity::{
    is_after, is_before, same_bytes, AccountId, Balance, Digest, Timestamp,
};
use crate::nft::{zero_account, Erc721, Transfer};
use crate::priceoracle::{Priceoracle, Prices};
use crate::resolver::{Directory, Record, RecordsView};
use crate::table::Table;
use vstd::prelude::*;

verus! {

/// The grace period that a registration notice announces.
pub const ANNOUNCED_GRACE_PERIOD: Timestamp = 120000;

/// Why an operation of the registrar failed.
#[derive(Debug, PartialEq, Eq, Clone, Copy)]
pub enum Error {
    UnexpiredCommitmentExists,
    CommitmentNotFound,
    CommitmentTooNew,
    CommitmentTooOld,
    DurationTooShort,
    UndefinedError,
    AlreadyRegistered,
    DomainNotRegistered,
    DomainNotExpired,
    PermissionDenied,
}

/// The parameters that a commitment binds.
#[derive(Debug, PartialEq, Eq, Clone)]
pub struct CommitInfo {
    pub domain_name: String,
    pub domain_owner: AccountId,
    pub duration: Timestamp,
    pub secret: [u8; 32],
    pub resolver: AccountId,
}

/// The fields of a domain that its integrity digest covers.
#[derive(Debug, PartialEq, Eq, Clone)]
pub struct DomainInfo {
    pub domain_name: String,
    pub domain_owner: AccountId,
    pub domain_expiry_time: Timestamp,
}

/// Notice: a name was registered.
#[derive(Debug, PartialEq, Eq)]
pub struct Register {
    pub domain_name: String,
    pub domain_owner: AccountId,
    pub registration_fee: Balance,
    pub duration: Timestamp,
    pub domain_creation_time: Timestamp,
    pub domain_expiry_time: Timestamp,
    pub domain_grace_period: Timestamp,
    pub resolver: AccountId,
}

/// Notice: a commitment was accepted.
#[derive(Debug, PartialEq, Eq, Clone, Copy)]
pub struct Commit {
    pub commit_hash: Digest,
    pub caller: AccountId,
}

/// The bytes of `.vne`, the suffix of every domain name.
pub open spec fn tld_suffix() -> Seq<u8> {
    seq![46u8, 118u8, 110u8, 101u8]
}

/// Whether `bytes` end in the suffix of domain names.
pub open spec fn ends_with_tld(bytes: Seq<u8>) -> bool {
    bytes.len() >= 4 && bytes.subrange(bytes.len() - 4, bytes.len() as int) == tld_suffix()
}

/// Whether `name` is a domain name: its UTF-8 bytes end in the suffix, and
/// it can be encoded.
pub open spec fn valid_name(name: Seq<char>) -> bool {
    ends_with_tld(vstd::utf8::encode_utf8(name)) && encodable(name)
}

/// Whether `input` ends in `.vne`.
pub fn ends_with_vne(input: &[u8]) -> (r: bool)
    ensures
        r == ends_with_tld(input@),
{
    let input_len = input.len();
    if input_len < 4 {
        return false;
    }
    let start = input_len - 4;
    let matches = input[start] == 46 && input[start + 1] == 118 && input[start + 2] == 110
        && input[start + 3] == 101;
    proof {
        let tail = input@.subrange(input@.len() - 4, input@.len() as int);
        if matches {
            assert(tail =~= tld_suffix());
        } else {
            assert(tail[0] == input@[start as int]);
            assert(tail[1] == input@[start + 1]);
            assert(tail[2] == input@[start + 2]);
            assert(tail[3] == input@[start + 3]);
        }
    }
    matches
}

/// Whether `name` is a domain name.
pub fn is_valid_name(name: &String) -> (r: bool)
    ensures
        r == valid_name(name@),
{
    ends_with_vne(name.as_str().as_bytes()) && is_encodable(name)
}

/// The state of the registrar, as the rules see it.
pub struct Registration {
    pub commitments: Map<Seq<u8>, u64>,
    pub admin: Seq<u8>,
    pub max_commit_age: u64,
    pub min_commit_age: u64,
    pub min_registration_duration: u64,
    pub resolver_contract_address: Seq<u8>,
    pub price_oracle_contract_address: Seq<u8>,
    pub erc721: Seq<u8>,
    pub token_id: u64,
}

impl Registration {
    /// What the administrator's operations ask of their caller.
    pub open spec fn admin_check(self, caller: Seq<u8>) -> Result<(), Error> {
        if self.admin != caller {
            Err(Error::PermissionDenied)
        } else {
            Ok(())
        }
    }

    /// How an attempt to commit to `hash` at `now` ends. A digest is
    /// committed to once; a second attempt fails, in one way before the
    /// first has expired and in another after.
    pub open spec fn commit_outcome(self, now: u64, hash: Seq<u8>) -> Result<(), Error> {
        if !self.commitments.dom().contains(hash) {
            Ok(())
        } else if self.commitments[hash] + self.max_commit_age >= now {
            Err(Error::UnexpiredCommitmentExists)
        } else {
            Err(Error::UndefinedError)
        }
    }

    /// The state after `hash` was committed to at `now`.
    pub open spec fn with_commitment(self, hash: Seq<u8>, now: u64) -> Registration {
        Registration { commitments: self.commitments.insert(hash, now), ..self }
    }

    /// How an attempt to consume the commitment `hash` at `now` for a
    /// registration of `duration` ends, given whether the name is still
    /// available.
    pub open spec fn consume_outcome(
        self,
        available: bool,
        now: u64,
        duration: u64,
        hash: Seq<u8>,
    ) -> Result<(), Error> {
        if !self.commitments.dom().contains(hash) {
            Err(Error::CommitmentNotFound)
        } else if self.commitments[hash] + self.min_commit_age > now {
            Err(Error::CommitmentTooNew)
        } else if self.commitments[hash] + self.max_commit_age <= now {
            Err(Error::CommitmentTooOld)
        } else if duration < self.min_registration_duration {
            Err(Error::DurationTooShort)
        } else if !available {
            Err(Error::AlreadyRegistered)
        } else {
            Ok(())
        }
    }

    /// How an attempt to register `name` at `now` ends: as the consumption
    /// of the commitment to its parameters does.
    pub open spec fn register_outcome(
        self,
        directory: Directory,
        now: u64,
        name: Seq<char>,
        owner: Seq<u8>,
        duration: u64,
        secret: Seq<u8>,
        resolver: Seq<u8>,
    ) -> Result<(), Error> {
        self.consume_outcome(
            directory.available(name),
            now,
            duration,
            commitment_digest(name, owner, duration, secret, resolver),
        )
    }
}

/// The record that a registration at `now` writes.
pub open spec fn registered_record(
    now: u64,
    name: Seq<char>,
    owner: Seq<u8>,
    duration: u64,
    secret: Seq<u8>,
    resolver: Seq<u8>,
) -> RecordsView {
    RecordsView {
        domain_name: name,
        domain_owner: owner,
        duration,
        secret,
        resolver,
        domain_expiry_time: (now + duration) as u64,
        subdomain: Seq::empty(),
    }
}

impl Register {
    /// Whether the notice announces a registration at `now` of `name` for
    /// `owner`, for `duration` and at `fee`.
    pub open spec fn announces(
        self,
        now: u64,
        fee: u128,
        name: Seq<char>,
        owner: Seq<u8>,
        duration: u64,
        resolver: Seq<u8>,
    ) -> bool {
        &&& self.domain_name@ == name
        &&& self.domain_owner@ == owner
        &&& self.registration_fee == fee
        &&& self.duration == duration
        &&& self.domain_creation_time == now
        &&& self.domain_expiry_time == now + duration
        &&& self.domain_grace_period == ANNOUNCED_GRACE_PERIOD
        &&& self.resolver@ == resolver
    }
}

impl Registration {
    /// Whether a registration may be attempted: the duration is longer than
    /// the minimum, the name is a domain name, the payment is the fee, and
    /// the expiry time fits the clock where the commitment can be consumed.
    pub open spec fn admits(
        self,
        directory: Directory,
        prices: Prices,
        now: u64,
        payment: u128,
        name: Seq<char>,
        owner: Seq<u8>,
        duration: u64,
        secret: Seq<u8>,
        resolver: Seq<u8>,
    ) -> bool {
        &&& duration > self.min_registration_duration
        &&& valid_name(name)
        &&& prices.price(name, duration) == Some(payment)
        &&& self.register_outcome(directory, now, name, owner, duration, secret, resolver) is Ok
            ==> now + duration <= u64::MAX
    }

    /// Whether `result` and the directory `after` are what a registration
    /// at `now` leaves of the directory `before`: on success the record is
    /// stored and the notice announces it; on failure, which comes as the
    /// consumption of the commitment fails, the directory is as it was.
    pub open spec fn registers(
        self,
        before: Directory,
        after: Directory,
        result: Result<Register, Error>,
        now: u64,
        payment: u128,
        name: Seq<char>,
        owner: Seq<u8>,
        duration: u64,
        secret: Seq<u8>,
        resolver: Seq<u8>,
    ) -> bool {
        match result {
            Ok(notice) => {
                &&& self.register_outcome(
                    before,
                    now,
                    name,
                    owner,
                    duration,
                    secret,
                    resolver,
                ) is Ok
                &&& after == before.with_record(
                    registered_record(now, name, owner, duration, secret, resolver),
                )
                &&& notice.announces(now, payment, name, owner, duration, resolver)
            },
            Err(e) => {
                &&& self.register_outcome(
                    before,
                    now,
                    name,
                    owner,
                    duration,
                    secret,
                    resolver,
                ) == Err::<(), Error>(e)
                &&& after == before
            },
        }
    }
}

/// The registrar.
pub struct Registrar {
    commitments: Table<Digest, Timestamp>,
    admin: AccountId,
    max_commit_age: u64,
    min_commit_age: u64,
    min_registration_duration: u64,
    resolver_contract_address: AccountId,
    price_oracle_contract_address: AccountId,
    erc721: AccountId,
    token_id: u64,
}

impl View for Registrar {
    type V = Registration;

    closed spec fn view(&self) -> Registration {
        Registration {
            commitments: self.commitments@,
            admin: self.admin@,
            max_commit_age: self.max_commit_age,
            min_commit_age: self.min_commit_age,
            min_registration_duration: self.min_registration_duration,
            resolver_contract_address: self.resolver_contract_address@,
            price_oracle_contract_address: self.price_oracle_contract_address@,
            erc721: self.erc721@,
            token_id: self.token_id,
        }
    }
}

impl Registrar {
    /// The registrar is well formed: its table of commitments is.
    pub closed spec fn wf(self) -> bool {
        self.commitments.wf()
    }

    /// A registrar without commitments.
    pub fn new(
        admin: AccountId,
        max_commit_age: u64,
        min_commit_age: u64,
        min_registration_duration: u64,
        resolver_contract_address: AccountId,
        price_oracle_contract_address: AccountId,
        erc721: AccountId,
    ) -> (registrar: Self)
        ensures
            registrar.wf(),
            registrar@ == (Registration {
                commitments: Map::empty(),
                admin: admin@,
                max_commit_age,
                min_commit_age,
                min_registration_duration,
                resolver_contract_address: resolver_contract_address@,
                price_oracle_contract_address: price_oracle_contract_address@,
                erc721: erc721@,
                token_id: 0,
            }),
    {
        Self {
            admin,
            commitments: Table::new(),
            max_commit_age,
            min_commit_age,
            min_registration_duration,
            resolver_contract_address,
            price_oracle_contract_address,
            erc721,
            token_id: 0,
        }
    }

    /// Records a commitment to `commit_hash`, submitted at `now`. A digest
    /// that was committed to before is refused.
    pub fn commit(&mut self, caller: AccountId, now: Timestamp, commit_hash: Digest) -> (r: Result<
        Commit,
        Error,
    >)
        requires
            old(self).wf(),
        ensures
            final(self).wf(),
            match r {
                Ok(notice) => {
                    &&& old(self)@.commit_outcome(now, commit_hash@) is Ok
                    &&& final(self)@ == old(self)@.with_commitment(commit_hash@, now)
                    &&& notice == (Commit { commit_hash, caller })
                },
                Err(e) => {
                    &&& old(self)@.commit_outcome(now, commit_hash@) == Err::<(), Error>(e)
                    &&& final(self)@ == old(self)@
                },
            },
    {
        let submitted = match self.commitments.get(&commit_hash) {
            None => {
                self.commitments.insert(commit_hash, now);
                return Ok(Commit { commit_hash, caller });
            },
            Some(at) => *at,
        };
        if !is_after(now, submitted, self.max_commit_age) {
            Err(Error::UnexpiredCommitmentExists)
        } else {
            Err(Error::UndefinedError)
        }
    }

    /// The digest that a commitment to these parameters is known by.
    pub fn make_commitment(
        &self,
        domain_name: String,
        domain_owner: AccountId,
        duration: Timestamp,
        secret: [u8; 32],
        resolver: AccountId,
    ) -> (digest: Digest)
        requires
            duration > self@.min_registration_duration,
            valid_name(domain_name@),
        ensures
            digest@ == commitment_digest(
                domain_name@,
                domain_owner@,
                duration,
                secret@,
                resolver@,
            ),
    {
        let commit_info = Self::create_commit_info(
            domain_name,
            domain_owner,
            duration,
            secret,
            resolver,
        );
        hash_commit_info(
            &commit_info.domain_name,
            &commit_info.domain_owner,
            commit_info.duration,
            &commit_info.secret,
            &commit_info.resolver,
        )
    }

    /// Checks that the commitment `commit_hash` can be consumed at `now` for
    /// a registration of `domain_name` for `duration`. The store of
    /// commitments is left as it is.
    pub fn consume_commitment(
        &self,
        directory: &Record,
        now: Timestamp,
        domain_name: String,
        duration: u64,
        commit_hash: Digest,
    ) -> (r: Result<(), Error>)
        requires
            self.wf(),
        ensures
            r == self@.consume_outcome(
                directory@.available(domain_name@),
                now,
                duration,
                commit_hash@,
            ),
    {
        let commitment = match self.commitments.get(&commit_hash) {
            Some(at) => *at,
            None => {
                return Err(Error::CommitmentNotFound);
            },
        };
        if is_before(now, commitment, self.min_commit_age) {
            return Err(Error::CommitmentTooNew);
        }
        if !is_before(now, commitment, self.max_commit_age) {
            return Err(Error::CommitmentTooOld);
        }
        if duration < self.min_registration_duration {
            return Err(Error::DurationTooShort);
        }
        if !self.check_domain_availablility(directory, domain_name) {
            return Err(Error::AlreadyRegistered);
        }
        Ok(())
    }

    /// Whether `domain_name` can still be claimed, as the directory says.
    pub fn check_domain_availablility(&self, directory: &Record, domain_name: String) -> (free:
        bool)
        ensures
            free == directory@.available(domain_name@),
    {
        directory.check_domain_availablility(domain_name)
    }

    /// The fee of `domain_name` for `duration`, as the oracle says.
    pub fn read_domain_price(
        &self,
        oracle: &Priceoracle,
        domain_name: String,
        duration: Timestamp,
    ) -> (price: Option<Balance>)
        requires
            duration > 0,
        ensures
            price == oracle@.price(domain_name@, duration),
    {
        oracle.calculate_price(domain_name, duration)
    }

    fn create_commit_info(
        domain_name: String,
        domain_owner: AccountId,
        duration: Timestamp,
        secret: [u8; 32],
        resolver: AccountId,
    ) -> (info: CommitInfo)
        ensures
            info.domain_name@ == domain_name@,
            info.domain_owner == domain_owner,
            info.duration == duration,
            info.secret == secret,
            info.resolver == resolver,
    {
        CommitInfo { domain_name, domain_owner, duration, secret, resolver }
    }

    fn create_domain_info(
        domain_name: String,
        domain_owner: AccountId,
        domain_expiry_time: Timestamp,
    ) -> (info: DomainInfo)
        ensures
            info.domain_name@ == domain_name@,
            info.domain_owner == domain_owner,
            info.domain_expiry_time == domain_expiry_time,
    {
        DomainInfo { domain_name, domain_owner, domain_expiry_time }
    }

    fn only_admin(&self, caller: &AccountId) -> (r: Result<(), Error>)
        ensures
            r == self@.admin_check(caller@),
    {
        if same_bytes(caller, &self.admin) {
            Ok(())
        } else {
            Err(Error::PermissionDenied)
        }
    }
}

impl Registrar {
    /// Completes a registration at `now`, once its commitment is consumed:
    /// has the directory store the record if the name is available and
    /// `label_hash` is the digest of name, owner and expiry time. The notice
    /// carries the fee, which goes to the administrator.
    pub fn complete_registration(
        directory: &mut Record,
        now: Timestamp,
        transferred_value: Balance,
        label_hash: Digest,
        domain_name: String,
        domain_owner: AccountId,
        duration: Timestamp,
        secret: [u8; 32],
        resolver: AccountId,
    ) -> (r: Result<Register, Error>)
        requires
            old(directory).wf(),
            now + duration <= u64::MAX,
        ensures
            final(directory).wf(),
            match r {
                Ok(notice) => {
                    &&& old(directory)@.accepts_record(
                        label_hash@,
                        domain_name@,
                        domain_owner@,
                        (now + duration) as u64,
                    )
                    &&& final(directory)@ == old(directory)@.with_record(
                        registered_record(
                            now,
                            domain_name@,
                            domain_owner@,
                            duration,
                            secret@,
                            resolver@,
                        ),
                    )
                    &&& notice.announces(
                        now,
                        transferred_value,
                        domain_name@,
                        domain_owner@,
                        duration,
                        resolver@,
                    )
                },
                Err(e) => {
                    &&& e == Error::AlreadyRegistered
                    &&& !old(directory)@.accepts_record(
                        label_hash@,
                        domain_name@,
                        domain_owner@,
                        (now + duration) as u64,
                    )
                    &&& final(directory)@ == old(directory)@
                },
            },
    {
        let domain_expiry_time = now + duration;
        let set_record = Self::set_record(
            directory,
            label_hash,
            domain_name.clone(),
            domain_owner,
            duration,
            secret,
            resolver,
            domain_expiry_time,
        );
        if !set_record {
            return Err(Error::AlreadyRegistered);
        }
        Ok(
            Register {
                domain_name,
                domain_owner,
                registration_fee: transferred_value,
                duration,
                domain_creation_time: now,
                domain_expiry_time,
                domain_grace_period: ANNOUNCED_GRACE_PERIOD,
                resolver,
            },
        )
    }

    /// Registers `domain_name` for `domain_owner` at `now`, for `duration`.
    /// The payment must be the oracle's fee, the duration longer than the
    /// minimum, the name a domain name. The commitment to these very
    /// parameters is consumed, and the directory stores the record, which
    /// expires at `now + duration`. The notice carries the fee, which goes
    /// to the administrator.
    pub fn register(
        &self,
        directory: &mut Record,
        oracle: &Priceoracle,
        now: Timestamp,
        transferred_value: Balance,
        domain_name: String,
        domain_owner: AccountId,
        duration: Timestamp,
        secret: [u8; 32],
        resolver: AccountId,
    ) -> (r: Result<Register, Error>)
        requires
            self.wf(),
            old(directory).wf(),
            self@.admits(
                old(directory)@,
                oracle@,
                now,
                transferred_value,
                domain_name@,
                domain_owner@,
                duration,
                secret@,
                resolver@,
            ),
        ensures
            final(directory).wf(),
            self@.registers(
                old(directory)@,
                final(directory)@,
                r,
                now,
                transferred_value,
                domain_name@,
                domain_owner@,
                duration,
                secret@,
                resolver@,
            ),
    {
        let registration_fee = self.read_domain_price(
            oracle,
            domain_name.clone(),
            duration,
        ).unwrap();
        let commit_hash = self.make_commitment(
            domain_name.clone(),
            domain_owner,
            duration,
            secret,
            resolver,
        );
        match self.consume_commitment(directory, now, domain_name.clone(), duration, commit_hash) {
            Err(e) => {
                return Err(e);
            },
            Ok(()) => {},
        }
        let domain_expiry_time = now + duration;
        let domain_info = Self::create_domain_info(
            domain_name.clone(),
            domain_owner,
            domain_expiry_time,
        );
        let label_hash = hash_domain_info(
            &domain_info.domain_name,
            &domain_info.domain_owner,
            domain_info.domain_expiry_time,
        );
        Self::complete_registration(
            directory,
            now,
            registration_fee,
            label_hash,
            domain_name,
            domain_owner,
            duration,
            secret,
            resolver,
        )
    }

    /// Registers as `register` does where a registration may be attempted,
    /// and else does nothing and says so: there is no answer where the
    /// duration is not longer than the minimum, the name is no domain name,
    /// the payment is not the oracle's fee, or the commitment can be
    /// consumed but the expiry time does not fit the clock.
    pub fn try_register(
        &self,
        directory: &mut Record,
        oracle: &Priceoracle,
        now: Timestamp,
        transferred_value: Balance,
        domain_name: String,
        domain_owner: AccountId,
        duration: Timestamp,
        secret: [u8; 32],
        resolver: AccountId,
    ) -> (r: Option<Result<Register, Error>>)
        requires
            self.wf(),
            old(directory).wf(),
        ensures
            final(directory).wf(),
            r is Some <==> self@.admits(
                old(directory)@,
                oracle@,
                now,
                transferred_value,
                domain_name@,
                domain_owner@,
                duration,
                secret@,
                resolver@,
            ),
            r is None ==> final(directory)@ == old(directory)@,
            r is Some ==> self@.registers(
                old(directory)@,
                final(directory)@,
                r.unwrap(),
                now,
                transferred_value,
                domain_name@,
                domain_owner@,
                duration,
                secret@,
                resolver@,
            ),
    {
        if duration <= self.min_registration_duration || !is_valid_name(&domain_name) {
            return None;
        }
        match self.read_domain_price(oracle, domain_name.clone(), duration) {
            Some(fee) => {
                if fee != transferred_value {
                    return None;
                }
            },
            None => {
                return None;
            },
        }
        if now.checked_add(duration).is_none() {
            let commit_hash = self.make_commitment(
                domain_name.clone(),
                domain_owner,
                duration,
                secret,
                resolver,
            );
            if self.consume_commitment(
                directory,
                now,
                domain_name.clone(),
                duration,
                commit_hash,
            ).is_ok() {
                return None;
            }
        }
        Some(
            self.register(
                directory,
                oracle,
                now,
                transferred_value,
                domain_name,
                domain_owner,
                duration,
                secret,
                resolver,
            ),
        )
    }

    /// Makes `sub_domain` the subdomain of `parent_domain` in the directory,
    /// on behalf of `caller`; what the directory answers is handed back.
    pub fn register_subdomian(
        &self,
        directory: &mut Record,
        caller: AccountId,
        parent_domain: String,
        sub_domain: String,
    ) -> (r: Result<(), crate::resolver::Error>)
        requires
            old(directory).wf(),
        ensures
            final(directory).wf(),
            r == old(directory)@.owner_check(caller@, parent_domain@),
            r is Ok ==> final(directory)@ == old(directory)@.with_subdomain(
                parent_domain@,
                sub_domain@,
            ),
            r is Err ==> final(directory)@ == old(directory)@,
    {
        directory.register_subdomain(caller, parent_domain, sub_domain)
    }

    /// Mints the token with the next identifier for `domain_owner`. The
    /// identifier is taken only if the token service mints; what the service
    /// answers is handed back.
    pub fn mint_nft(
        &mut self,
        token: &mut Erc721,
        directory: &Record,
        domain_name: String,
        domain_owner: AccountId,
        token_uri: String,
    ) -> (r: Result<Transfer, crate::nft::Error>)
        requires
            old(self).wf(),
            old(token).wf(),
            old(self)@.token_id < u64::MAX,
            old(token)@.mint_outcome(
                directory@.available(domain_name@),
                domain_owner@,
                (old(self)@.token_id + 1) as u64,
            ) is Ok ==> old(token)@.balance(domain_owner@) < u32::MAX,
        ensures
            final(self).wf(),
            final(token).wf(),
            match r {
                Ok(notice) => {
                    &&& old(token)@.mint_outcome(
                        directory@.available(domain_name@),
                        domain_owner@,
                        (old(self)@.token_id + 1) as u64,
                    ) is Ok
                    &&& final(token)@ == old(token)@.minted(
                        domain_owner@,
                        (old(self)@.token_id + 1) as u64,
                        token_uri@,
                    )
                    &&& final(self)@ == (Registration {
                        token_id: (old(self)@.token_id + 1) as u64,
                        ..old(self)@
                    })
                    &&& notice.from is Some
                    &&& notice.from.unwrap()@ == zero_account()
                    &&& notice.to == Some(domain_owner)
                    &&& notice.id == old(self)@.token_id + 1
                },
                Err(e) => {
                    &&& old(token)@.mint_outcome(
                        directory@.available(domain_name@),
                        domain_owner@,
                        (old(self)@.token_id + 1) as u64,
                    ) == Err::<(), crate::nft::Error>(e)
                    &&& final(token)@ == old(token)@
                    &&& final(self)@ == old(self)@
                },
            },
    {
        let token_id = self.token_id + 1;
        match token.mint(directory, token_id, domain_name, domain_owner, token_uri) {
            Ok(notice) => {
                self.token_id = token_id;
                Ok(notice)
            },
            Err(e) => Err(e),
        }
    }

    /// Sets the age at which a commitment expires. Only the administrator
    /// may.
    pub fn set_max_commit_age(&mut self, caller: AccountId, max_commit_age: u64) -> (r: Result<
        (),
        Error,
    >)
        requires
            old(self).wf(),
        ensures
            final(self).wf(),
            r == old(self)@.admin_check(caller@),
            r is Ok ==> final(self)@ == (Registration { max_commit_age, ..old(self)@ }),
            r is Err ==> final(self)@ == old(self)@,
    {
        match self.only_admin(&caller) {
            Err(e) => {
                return Err(e);
            },
            Ok(()) => {},
        }
        self.max_commit_age = max_commit_age;
        Ok(())
    }

    /// Sets the age from which a commitment can be consumed. Only the
    /// administrator may.
    pub fn set_min_commit_age(&mut self, caller: AccountId, min_commit_age: u64) -> (r: Result<
        (),
        Error,
    >)
        requires
            old(self).wf(),
        ensures
            final(self).wf(),
            r == old(self)@.admin_check(caller@),
            r is Ok ==> final(self)@ == (Registration { min_commit_age, ..old(self)@ }),
            r is Err ==> final(self)@ == old(self)@,
    {
        match self.only_admin(&caller) {
            Err(e) => {
                return Err(e);
            },
            Ok(()) => {},
        }
        self.min_commit_age = min_commit_age;
        Ok(())
    }

    /// Sets the shortest duration of a registration. Only the administrator
    /// may.
    pub fn set_min_registration_duration(
        &mut self,
        caller: AccountId,
        min_registration_duration: u64,
    ) -> (r: Result<(), Error>)
        requires
            old(self).wf(),
        ensures
            final(self).wf(),
            r == old(self)@.admin_check(caller@),
            r is Ok ==> final(self)@ == (Registration { min_registration_duration, ..old(self)@ }),
            r is Err ==> final(self)@ == old(self)@,
    {
        match self.only_admin(&caller) {
            Err(e) => {
                return Err(e);
            },
            Ok(()) => {},
        }
        self.min_registration_duration = min_registration_duration;
        Ok(())
    }

    /// The administrator, who receives the fees.
    pub fn read_admin(&self) -> (admin: AccountId)
        ensures
            admin@ == self@.admin,
    {
        self.admin
    }

    /// The address of the directory.
    pub fn read_resolver(&self) -> (resolver: AccountId)
        ensures
            resolver@ == self@.resolver_contract_address,
    {
        self.resolver_contract_address
    }

    /// The age at which a commitment expires.
    pub fn read_max_commit_age(&self) -> (age: Timestamp)
        ensures
            age == self@.max_commit_age,
    {
        self.max_commit_age
    }

    /// The age from which a commitment can be consumed.
    pub fn read_min_commit_age(&self) -> (age: Timestamp)
        ensures
            age == self@.min_commit_age,
    {
        self.min_commit_age
    }

    /// The identifier of the token that was minted last, or zero.
    pub fn read_token_id(&self) -> (id: u64)
        ensures
            id == self@.token_id,
    {
        self.token_id
    }

    /// The shortest duration of a registration.
    pub fn read_min_registration_duration(&self) -> (duration: Timestamp)
        ensures
            duration == self@.min_registration_duration,
    {
        self.min_registration_duration
    }

    fn set_record(
        directory: &mut Record,
        label_hash: Digest,
        domain_name: String,
        domain_owner: AccountId,
        duration: Timestamp,
        secret: [u8; 32],
        resolver: AccountId,
        domain_expiry_time: Timestamp,
    ) -> (stored: bool)
        requires
            old(directory).wf(),
        ensures
            final(directory).wf(),
            stored == old(directory)@.accepts_record(
                label_hash@,
                domain_name@,
                domain_owner@,
                domain_expiry_time,
            ),
            stored ==> final(directory)@ == old(directory)@.with_record(
                RecordsView {
                    domain_name: domain_name@,
                    domain_owner: domain_owner@,
                    duration,
                    secret: secret@,
                    resolver: resolver@,
                    domain_expiry_time,
                    subdomain: Seq::empty(),
                },
            ),
            !stored ==> final(directory)@ == old(directory)@,
    {
        directory.set_record(
            label_hash,
            domain_name,
            domain_owner,
            duration,
            secret,
            resolver,
            domain_expiry_time,
        )
    }
}

/// A commitment that is consumed within its window registers the name: where
/// the digest of parameters with a long enough duration is committed at
/// `committed_at`, and the name is available, registering with the same
/// parameters at `registered_at`, no sooner than the minimum age and before
/// the maximum, succeeds; the name is then available no more, and its
/// record names the owner and expires at `registered_at + duration`.
pub proof fn commit_then_register_succeeds(
    registrar: Registration,
    directory: Directory,
    committed_at: u64,
    registered_at: u64,
    name: Seq<char>,
    owner: Seq<u8>,
    duration: u64,
    secret: Seq<u8>,
    resolver: Seq<u8>,
)
    requires
        registrar.commit_outcome(
            committed_at,
            commitment_digest(name, owner, duration, secret, resolver),
        ) is Ok,
        directory.available(name),
        duration >= registrar.min_registration_duration,
        committed_at + registrar.min_commit_age <= registered_at,
        registered_at < committed_at + registrar.max_commit_age,
    ensures
        registrar.with_commitment(
            commitment_digest(name, owner, duration, secret, resolver),
            committed_at,
        ).register_outcome(directory, registered_at, name, owner, duration, secret, resolver) is Ok,
        !directory.with_record(
            registered_record(registered_at, name, owner, duration, secret, resolver),
        ).available(name),
        directory.with_record(
            registered_record(registered_at, name, owner, duration, secret, resolver),
        ).records[name].domain_owner == owner,
        directory.with_record(
            registered_record(registered_at, name, owner, duration, secret, resolver),
        ).records[name].domain_expiry_time == (registered_at + duration) as u64,
{
}

/// A name is registered once: whatever the registrar holds, an attempt to
/// register a name that the directory holds fails, whichever commitment it
/// comes with; it fails with `AlreadyRegistered` where that commitment
/// is found, is within its window, and the duration is long enough. Such an
/// attempt asks nothing of the clock: it may be made at any time, with a
/// long enough duration, a domain name and the fee.
pub proof fn registered_name_is_refused(
    registrar: Registration,
    directory: Directory,
    prices: Prices,
    payment: u128,
    now: u64,
    name: Seq<char>,
    owner: Seq<u8>,
    duration: u64,
    secret: Seq<u8>,
    resolver: Seq<u8>,
    commit_hash: Seq<u8>,
)
    requires
        !directory.available(name),
    ensures
        registrar.register_outcome(directory, now, name, owner, duration, secret, resolver) is Err,
        registrar.consume_outcome(directory.available(name), now, duration, commit_hash) is Err,
        registrar.consume_outcome(true, now, duration, commit_hash) is Ok
            ==> registrar.consume_outcome(directory.available(name), now, duration, commit_hash)
            == Err::<(), Error>(Error::AlreadyRegistered),
        duration > registrar.min_registration_duration && valid_name(name) && prices.price(
            name,
            duration,
        ) == Some(payment) ==> registrar.admits(
            directory,
            prices,
            now,
            payment,
            name,
            owner,
            duration,
            secret,
            resolver,
        ),
{
}

/// A commitment is consumed only within its window: before its minimum age
/// the attempt fails with `CommitmentTooNew`; from its maximum age on, and
/// past the minimum age, it fails with `CommitmentTooOld`.
pub proof fn commitment_is_consumed_within_its_window(
    registrar: Registration,
    available: bool,
    now: u64,
    duration: u64,
    commit_hash: Seq<u8>,
)
    requires
        registrar.commitments.dom().contains(commit_hash),
    ensures
        now < registrar.commitments[commit_hash] + registrar.min_commit_age
            ==> registrar.consume_outcome(available, now, duration, commit_hash) == Err::<
            (),
            Error,
        >(Error::CommitmentTooNew),
        now >= registrar.commitments[commit_hash] + registrar.min_commit_age && now
            >= registrar.commitments[commit_hash] + registrar.max_commit_age
            ==> registrar.consume_outcome(available, now, duration, commit_hash) == Err::<
            (),
            Error,
        >(Error::CommitmentTooOld),
        registrar.consume_outcome(available, now, duration, commit_hash) is Ok ==> {
            &&& registrar.commitments[commit_hash] + registrar.min_commit_age <= now
            &&& now < registrar.commitments[commit_hash] + registrar.max_commit_age
        },
{
}

} // verus!
