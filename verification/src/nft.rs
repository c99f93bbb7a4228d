//! The ownership token: each registered name can be mirrored as a token
//! that its holder may transfer, approve for transfer, or burn.
//!
//! Every operation names its caller; an operation that fails changes
//! nothing.

use crate::identity::{same_bytes, AccountId};
use crate::resolver::Record;
use crate::table::Table;
use vstd::prelude::*;

verus! {

/// A token ID.
pub type TokenId = u64;

/// Why an operation of the token failed.
#[derive(Debug, PartialEq, Eq, Clone, Copy)]
pub enum Error {
    NotOwner,
    NotApproved,
    TokenExists,
    TokenNotFound,
    CannotInsert,
    CannotFetchValue,
    NotAllowed,
    DomainNotRegistered,
}

/// Notice: a token went from one account to another. A mint comes from the
/// zero account, a burn goes to it.
#[derive(Debug, PartialEq, Eq, Clone, Copy)]
pub struct Transfer {
    pub from: Option<AccountId>,
    pub to: Option<AccountId>,
    pub id: TokenId,
}

/// Notice: an account was approved to transfer a token.
#[derive(Debug, PartialEq, Eq, Clone, Copy)]
pub struct Approval {
    pub from: AccountId,
    pub to: AccountId,
    pub id: TokenId,
}

/// Notice: an operator was enabled or disabled for all tokens of an owner.
#[derive(Debug, PartialEq, Eq, Clone, Copy)]
pub struct ApprovalForAll {
    pub owner: AccountId,
    pub operator: AccountId,
    pub approved: bool,
}

/// The account of twenty zero bytes, which holds no token.
pub open spec fn zero_account() -> Seq<u8> {
    Seq::new(20, |i: int| 0u8)
}

/// The zero account.
pub fn zero() -> (account: AccountId)
    ensures
        account@ == zero_account(),
{
    let account: AccountId = [0u8; 20];
    assert(account@ =~= zero_account());
    account
}

/// Whether `account` is the zero account.
pub fn is_zero_account(account: &AccountId) -> (r: bool)
    ensures
        r == (account@ == zero_account()),
{
    same_bytes(account, &zero())
}

/// The tokens that `owner` holds.
pub open spec fn owned_by(token_owner: Map<u64, Seq<u8>>, owner: Seq<u8>) -> Set<u64> {
    Set::new(|id: u64| token_owner.dom().contains(id) && token_owner[id] == owner)
}

/// The count that is recorded for `owner`: none recorded counts as zero.
pub open spec fn count_of(counts: Map<Seq<u8>, u32>, owner: Seq<u8>) -> u32 {
    if counts.dom().contains(owner) {
        counts[owner]
    } else {
        0
    }
}

/// There are finitely many tokens, and the count recorded for each account
/// is the number of tokens that it holds.
pub open spec fn counts_match(token_owner: Map<u64, Seq<u8>>, counts: Map<Seq<u8>, u32>) -> bool {
    &&& token_owner.dom().finite()
    &&& forall|owner: Seq<u8>|
        #![trigger owned_by(token_owner, owner)]
        count_of(counts, owner) == owned_by(token_owner, owner).len()
}

/// Giving a new token to an account keeps the counts right.
proof fn lemma_token_added(
    token_owner: Map<u64, Seq<u8>>,
    counts: Map<Seq<u8>, u32>,
    to: Seq<u8>,
    id: u64,
)
    requires
        counts_match(token_owner, counts),
        !token_owner.dom().contains(id),
        count_of(counts, to) < u32::MAX,
    ensures
        counts_match(
            token_owner.insert(id, to),
            counts.insert(to, (count_of(counts, to) + 1) as u32),
        ),
{
    let owners = token_owner.insert(id, to);
    let after = counts.insert(to, (count_of(counts, to) + 1) as u32);
    assert forall|owner: Seq<u8>| #![trigger owned_by(owners, owner)]
        count_of(after, owner) == owned_by(owners, owner).len() by {
        let before = owned_by(token_owner, owner);
        vstd::set_lib::lemma_len_subset(before, token_owner.dom());
        if owner == to {
            assert(owned_by(owners, owner) =~= before.insert(id));
        } else {
            assert(owned_by(owners, owner) =~= before);
        }
    }
}

/// The holder of a token has a count of at least one, and taking the token
/// from it keeps the counts right.
proof fn lemma_token_removed(
    token_owner: Map<u64, Seq<u8>>,
    counts: Map<Seq<u8>, u32>,
    from: Seq<u8>,
    id: u64,
)
    requires
        counts_match(token_owner, counts),
        token_owner.dom().contains(id),
        token_owner[id] == from,
    ensures
        counts.dom().contains(from),
        count_of(counts, from) >= 1,
        counts_match(
            token_owner.remove(id),
            counts.insert(from, (count_of(counts, from) - 1) as u32),
        ),
{
    let held = owned_by(token_owner, from);
    vstd::set_lib::lemma_len_subset(held, token_owner.dom());
    assert(held.contains(id));
    assert(held.len() >= 1);
    let owners = token_owner.remove(id);
    let after = counts.insert(from, (count_of(counts, from) - 1) as u32);
    assert forall|owner: Seq<u8>| #![trigger owned_by(owners, owner)]
        count_of(after, owner) == owned_by(owners, owner).len() by {
        let before = owned_by(token_owner, owner);
        vstd::set_lib::lemma_len_subset(before, token_owner.dom());
        if owner == from {
            assert(owned_by(owners, owner) =~= before.remove(id));
        } else {
            assert(owned_by(owners, owner) =~= before);
        }
    }
}

/// The state of the token, as the rules see it.
pub struct Tokens {
    pub token_owner: Map<u64, Seq<u8>>,
    pub token_approvals: Map<u64, Seq<u8>>,
    pub owned_tokens_count: Map<Seq<u8>, u32>,
    pub operator_approvals: Map<(Seq<u8>, Seq<u8>), ()>,
    pub token_uri: Map<u64, Seq<char>>,
    pub resolver_contract_address: Seq<u8>,
}

impl Tokens {
    /// The number of tokens that `owner` is recorded to hold.
    pub open spec fn balance(self, owner: Seq<u8>) -> u32 {
        count_of(self.owned_tokens_count, owner)
    }

    /// The count recorded for each account is the number of tokens that it
    /// holds.
    pub open spec fn counted(self) -> bool {
        counts_match(self.token_owner, self.owned_tokens_count)
    }

    /// Whether `operator` may move every token of `owner`.
    pub open spec fn approved_for_all(self, owner: Seq<u8>, operator: Seq<u8>) -> bool {
        self.operator_approvals.dom().contains((owner, operator))
    }

    /// Whether `from` may move the token `id` of `owner`: it is not the zero
    /// account, and it is the owner, or approved for the token, or approved
    /// for all tokens of the owner.
    pub open spec fn approved_or_owner(self, from: Seq<u8>, id: u64, owner: Seq<u8>) -> bool {
        from != zero_account() && (from == owner || (self.token_approvals.dom().contains(id)
            && self.token_approvals[id] == from) || self.approved_for_all(owner, from))
    }

    /// How an attempt to give the token `id` to `to` ends.
    pub open spec fn add_outcome(self, to: Seq<u8>, id: u64) -> Result<(), Error> {
        if self.token_owner.dom().contains(id) {
            Err(Error::TokenExists)
        } else if to == zero_account() {
            Err(Error::NotAllowed)
        } else {
            Ok(())
        }
    }

    /// The state after `to` was given the token `id`.
    pub open spec fn with_token(self, to: Seq<u8>, id: u64) -> Tokens {
        Tokens {
            owned_tokens_count: self.owned_tokens_count.insert(to, (self.balance(to) + 1) as u32),
            token_owner: self.token_owner.insert(id, to),
            ..self
        }
    }

    /// How an attempt to take the token `id` from `from` ends.
    pub open spec fn remove_outcome(self, from: Seq<u8>, id: u64) -> Result<(), Error> {
        if !self.token_owner.dom().contains(id) {
            Err(Error::TokenNotFound)
        } else if !self.owned_tokens_count.dom().contains(from) {
            Err(Error::CannotFetchValue)
        } else {
            Ok(())
        }
    }

    /// The state after the token `id` was taken from `from`.
    pub open spec fn without_token(self, from: Seq<u8>, id: u64) -> Tokens {
        Tokens {
            owned_tokens_count: self.owned_tokens_count.insert(
                from,
                (self.balance(from) - 1) as u32,
            ),
            token_owner: self.token_owner.remove(id),
            ..self
        }
    }

    /// How an attempt to mint the token `id` for `to` ends, given whether the
    /// name is still available in the directory.
    pub open spec fn mint_outcome(self, available: bool, to: Seq<u8>, id: u64) -> Result<
        (),
        Error,
    > {
        if available {
            Err(Error::DomainNotRegistered)
        } else {
            self.add_outcome(to, id)
        }
    }

    /// The state after the token `id` with `uri` was minted for `to`.
    pub open spec fn minted(self, to: Seq<u8>, id: u64, uri: Seq<char>) -> Tokens {
        Tokens { token_uri: self.token_uri.insert(id, uri), ..self }.with_token(to, id)
    }

    /// How an attempt of `caller` to burn the token `id` ends.
    pub open spec fn burn_outcome(self, caller: Seq<u8>, id: u64) -> Result<(), Error> {
        if !self.token_owner.dom().contains(id) {
            Err(Error::TokenNotFound)
        } else if self.token_owner[id] != caller {
            Err(Error::NotOwner)
        } else if !self.owned_tokens_count.dom().contains(caller) {
            Err(Error::CannotFetchValue)
        } else {
            Ok(())
        }
    }

    /// The state after `caller` burned the token `id`.
    pub open spec fn burned(self, caller: Seq<u8>, id: u64) -> Tokens {
        Tokens { token_uri: self.token_uri.remove(id), ..self.without_token(caller, id) }
    }

    /// How an attempt of `caller` to move the token `id` from `from` to `to`
    /// ends.
    pub open spec fn transfer_outcome(
        self,
        caller: Seq<u8>,
        from: Seq<u8>,
        to: Seq<u8>,
        id: u64,
    ) -> Result<(), Error> {
        if !self.token_owner.dom().contains(id) {
            Err(Error::TokenNotFound)
        } else if !self.approved_or_owner(caller, id, self.token_owner[id]) {
            Err(Error::NotApproved)
        } else if self.token_owner[id] != from {
            Err(Error::NotOwner)
        } else if !self.owned_tokens_count.dom().contains(from) {
            Err(Error::CannotFetchValue)
        } else if to == zero_account() {
            Err(Error::NotAllowed)
        } else {
            Ok(())
        }
    }

    /// The state after the token `id` moved from `from` to `to`: its approval
    /// is cleared, it leaves `from` and it joins `to`.
    pub open spec fn transferred(self, from: Seq<u8>, to: Seq<u8>, id: u64) -> Tokens {
        Tokens { token_approvals: self.token_approvals.remove(id), ..self }.without_token(
            from,
            id,
        ).with_token(to, id)
    }

    /// How an attempt of `caller` to approve `to` for the token `id` ends.
    pub open spec fn approve_outcome(self, caller: Seq<u8>, to: Seq<u8>, id: u64) -> Result<
        (),
        Error,
    > {
        if !self.token_owner.dom().contains(id) {
            Err(Error::TokenNotFound)
        } else if !(self.token_owner[id] == caller || self.approved_for_all(
            self.token_owner[id],
            caller,
        )) {
            Err(Error::NotAllowed)
        } else if to == zero_account() {
            Err(Error::NotAllowed)
        } else if self.token_approvals.dom().contains(id) {
            Err(Error::CannotInsert)
        } else {
            Ok(())
        }
    }

    /// How an attempt of `caller` to enable or disable the operator `to`
    /// ends.
    pub open spec fn approve_for_all_outcome(self, caller: Seq<u8>, to: Seq<u8>) -> Result<
        (),
        Error,
    > {
        if to == caller {
            Err(Error::NotAllowed)
        } else {
            Ok(())
        }
    }

    /// The state after `caller` enabled or disabled the operator `to`.
    pub open spec fn with_operator(self, caller: Seq<u8>, to: Seq<u8>, approved: bool) -> Tokens {
        Tokens {
            operator_approvals: if approved {
                self.operator_approvals.insert((caller, to), ())
            } else {
                self.operator_approvals.remove((caller, to))
            },
            ..self
        }
    }
}

/// The ownership token.
pub struct Erc721 {
    /// Mapping from token to owner.
    token_owner: Table<TokenId, AccountId>,
    /// Mapping from token to approvals users.
    token_approvals: Table<TokenId, AccountId>,
    /// Mapping from owner to number of owned token.
    owned_tokens_count: Table<AccountId, u32>,
    /// Mapping from owner to operator approvals.
    operator_approvals: Table<(AccountId, AccountId), ()>,
    /// Mapping from token to token uri.
    token_uri: Table<TokenId, String>,
    /// The directory that says which names are registered.
    resolver_contract_address: AccountId,
}

impl View for Erc721 {
    type V = Tokens;

    closed spec fn view(&self) -> Tokens {
        Tokens {
            token_owner: self.token_owner@,
            token_approvals: self.token_approvals@,
            owned_tokens_count: self.owned_tokens_count@,
            operator_approvals: self.operator_approvals@,
            token_uri: self.token_uri@,
            resolver_contract_address: self.resolver_contract_address@,
        }
    }
}

impl Erc721 {
    /// The token is well formed: its tables are, and the counts are right.
    pub closed spec fn wf(self) -> bool {
        &&& self.token_owner.wf()
        &&& self.token_approvals.wf()
        &&& self.owned_tokens_count.wf()
        &&& self.operator_approvals.wf()
        &&& self.token_uri.wf()
        &&& self@.counted()
    }

    /// In a well-formed token the count recorded for each account is the
    /// number of tokens that it holds.
    pub proof fn wf_is_counted(self)
        requires
            self.wf(),
        ensures
            self@.counted(),
    {
    }

    /// A token contract without tokens.
    pub fn new(resolver_contract_address: AccountId) -> (token: Self)
        ensures
            token.wf(),
            token@ == (Tokens {
                token_owner: Map::empty(),
                token_approvals: Map::empty(),
                owned_tokens_count: Map::empty(),
                operator_approvals: Map::empty(),
                token_uri: Map::empty(),
                resolver_contract_address: resolver_contract_address@,
            }),
    {
        let token = Erc721 {
            token_owner: Table::new(),
            token_approvals: Table::new(),
            owned_tokens_count: Table::new(),
            operator_approvals: Table::new(),
            resolver_contract_address,
            token_uri: Table::new(),
        };
        proof {
            assert forall|owner: Seq<u8>| #![trigger owned_by(token@.token_owner, owner)]
                owned_by(token@.token_owner, owner) =~= Set::<u64>::empty() by {}
        }
        token
    }

    /// Returns the balance of the owner.
    /// This represents the amount of unique tokens the owner has.
    pub fn balance_of(&self, owner: AccountId) -> (balance: u32)
        requires
            self.wf(),
        ensures
            balance == self@.balance(owner@),
    {
        self.balance_of_or_zero(&owner)
    }

    /// Returns the owner of the token.
    pub fn owner_of(&self, id: TokenId) -> (owner: Option<AccountId>)
        requires
            self.wf(),
        ensures
            match owner {
                Some(o) => self@.token_owner.dom().contains(id) && o@ == self@.token_owner[id],
                None => !self@.token_owner.dom().contains(id),
            },
    {
        match self.token_owner.get(&id) {
            Some(o) => Some(*o),
            None => None,
        }
    }

    /// Returns the approved account ID for this token if any.
    pub fn get_approved(&self, id: TokenId) -> (approved: Option<AccountId>)
        requires
            self.wf(),
        ensures
            match approved {
                Some(a) => self@.token_approvals.dom().contains(id) && a@
                    == self@.token_approvals[id],
                None => !self@.token_approvals.dom().contains(id),
            },
    {
        match self.token_approvals.get(&id) {
            Some(a) => Some(*a),
            None => None,
        }
    }

    /// Returns `true` if the operator is approved by the owner.
    pub fn is_approved_for_all(&self, owner: AccountId, operator: AccountId) -> (approved: bool)
        ensures
            approved == self@.approved_for_all(owner@, operator@),
    {
        self.approved_for_all(owner, operator)
    }

    // Returns the total number of tokens from an account.
    fn balance_of_or_zero(&self, of: &AccountId) -> (balance: u32)
        requires
            self.wf(),
        ensures
            balance == self@.balance(of@),
    {
        match self.owned_tokens_count.get(of) {
            Some(count) => *count,
            None => 0,
        }
    }

    /// Gets an operator on other Account's behalf.
    fn approved_for_all(&self, owner: AccountId, operator: AccountId) -> (approved: bool)
        ensures
            approved == self@.approved_for_all(owner@, operator@),
    {
        self.operator_approvals.contains(&(owner, operator))
    }

    /// Returns true if the `AccountId` `from` is the owner of token `id`
    /// or it has been approved on behalf of the token `id` owner.
    fn approved_or_owner(&self, from: AccountId, id: TokenId, owner: AccountId) -> (approved: bool)
        requires
            self.wf(),
        ensures
            approved == self@.approved_or_owner(from@, id, owner@),
    {
        if is_zero_account(&from) {
            return false;
        }
        if same_bytes(&from, &owner) {
            return true;
        }
        let approved_for_token = match self.token_approvals.get(&id) {
            Some(a) => same_bytes(a, &from),
            None => false,
        };
        approved_for_token || self.approved_for_all(owner, from)
    }
}

impl Erc721 {
    /// Approves or disapproves the operator for all tokens of the caller.
    pub fn set_approval_for_all(&mut self, caller: AccountId, to: AccountId, approved: bool) -> (r:
        Result<ApprovalForAll, Error>)
        requires
            old(self).wf(),
        ensures
            final(self).wf(),
            match r {
                Ok(notice) => {
                    &&& old(self)@.approve_for_all_outcome(caller@, to@) is Ok
                    &&& final(self)@ == old(self)@.with_operator(caller@, to@, approved)
                    &&& notice == (ApprovalForAll { owner: caller, operator: to, approved })
                },
                Err(e) => {
                    &&& old(self)@.approve_for_all_outcome(caller@, to@) == Err::<(), Error>(e)
                    &&& final(self)@ == old(self)@
                },
            },
    {
        self.approve_for_all(caller, to, approved)
    }

    /// Approves the account to transfer the specified token on behalf of the caller.
    pub fn approve(&mut self, caller: AccountId, to: AccountId, id: TokenId) -> (r: Result<
        Approval,
        Error,
    >)
        requires
            old(self).wf(),
        ensures
            final(self).wf(),
            match r {
                Ok(notice) => {
                    &&& old(self)@.approve_outcome(caller@, to@, id) is Ok
                    &&& final(self)@ == (Tokens {
                        token_approvals: old(self)@.token_approvals.insert(id, to@),
                        ..old(self)@
                    })
                    &&& notice == (Approval { from: caller, to, id })
                },
                Err(e) => {
                    &&& old(self)@.approve_outcome(caller@, to@, id) == Err::<(), Error>(e)
                    &&& final(self)@ == old(self)@
                },
            },
    {
        self.approve_for(caller, &to, id)
    }

    /// Transfers the token from the caller to the given destination.
    pub fn transfer(&mut self, caller: AccountId, destination: AccountId, id: TokenId) -> (r:
        Result<Transfer, Error>)
        requires
            old(self).wf(),
            old(self)@.transfer_outcome(caller@, caller@, destination@, id) is Ok && destination@
                != caller@ ==> old(self)@.balance(destination@) < u32::MAX,
        ensures
            final(self).wf(),
            match r {
                Ok(notice) => {
                    &&& old(self)@.transfer_outcome(caller@, caller@, destination@, id) is Ok
                    &&& final(self)@ == old(self)@.transferred(caller@, destination@, id)
                    &&& notice == (Transfer { from: Some(caller), to: Some(destination), id })
                },
                Err(e) => {
                    &&& old(self)@.transfer_outcome(caller@, caller@, destination@, id) == Err::<
                        (),
                        Error,
                    >(e)
                    &&& final(self)@ == old(self)@
                },
            },
    {
        self.transfer_token_from(caller, &caller, &destination, id)
    }

    /// Transfer approved or owned token.
    pub fn transfer_from(
        &mut self,
        caller: AccountId,
        from: AccountId,
        to: AccountId,
        id: TokenId,
    ) -> (r: Result<Transfer, Error>)
        requires
            old(self).wf(),
            old(self)@.transfer_outcome(caller@, from@, to@, id) is Ok && to@ != from@
                ==> old(self)@.balance(to@) < u32::MAX,
        ensures
            final(self).wf(),
            match r {
                Ok(notice) => {
                    &&& old(self)@.transfer_outcome(caller@, from@, to@, id) is Ok
                    &&& final(self)@ == old(self)@.transferred(from@, to@, id)
                    &&& notice == (Transfer { from: Some(from), to: Some(to), id })
                },
                Err(e) => {
                    &&& old(self)@.transfer_outcome(caller@, from@, to@, id) == Err::<(), Error>(e)
                    &&& final(self)@ == old(self)@
                },
            },
    {
        self.transfer_token_from(caller, &from, &to, id)
    }

    /// Creates a new token for the holder of a registered name.
    pub fn mint(
        &mut self,
        directory: &Record,
        id: TokenId,
        domain_name: String,
        caller: AccountId,
        token_uri: String,
    ) -> (r: Result<Transfer, Error>)
        requires
            old(self).wf(),
            old(self)@.mint_outcome(directory@.available(domain_name@), caller@, id) is Ok
                ==> old(self)@.balance(caller@) < u32::MAX,
        ensures
            final(self).wf(),
            match r {
                Ok(notice) => {
                    &&& old(self)@.mint_outcome(
                        directory@.available(domain_name@),
                        caller@,
                        id,
                    ) is Ok
                    &&& final(self)@ == old(self)@.minted(caller@, id, token_uri@)
                    &&& notice.from is Some
                    &&& notice.from.unwrap()@ == zero_account()
                    &&& notice.to == Some(caller)
                    &&& notice.id == id
                },
                Err(e) => {
                    &&& old(self)@.mint_outcome(directory@.available(domain_name@), caller@, id)
                        == Err::<(), Error>(e)
                    &&& final(self)@ == old(self)@
                },
            },
    {
        let domain_availaibiltiy = directory.check_domain_availablility(domain_name);
        self.mint_checked(domain_availaibiltiy, id, caller, token_uri)
    }

    /// Creates a new token, given whether the name it mirrors is still
    /// available in the directory: a token is minted for a registered name
    /// only.
    pub fn mint_checked(
        &mut self,
        domain_available: bool,
        id: TokenId,
        caller: AccountId,
        token_uri: String,
    ) -> (r: Result<Transfer, Error>)
        requires
            old(self).wf(),
            old(self)@.mint_outcome(domain_available, caller@, id) is Ok ==> old(self)@.balance(
                caller@,
            ) < u32::MAX,
        ensures
            final(self).wf(),
            match r {
                Ok(notice) => {
                    &&& old(self)@.mint_outcome(domain_available, caller@, id) is Ok
                    &&& final(self)@ == old(self)@.minted(caller@, id, token_uri@)
                    &&& notice.from is Some
                    &&& notice.from.unwrap()@ == zero_account()
                    &&& notice.to == Some(caller)
                    &&& notice.id == id
                },
                Err(e) => {
                    &&& old(self)@.mint_outcome(domain_available, caller@, id) == Err::<(), Error>(
                        e,
                    )
                    &&& final(self)@ == old(self)@
                },
            },
    {
        if domain_available {
            return Err(Error::DomainNotRegistered);
        }
        match self.add_token_to(&caller, id) {
            Err(e) => {
                return Err(e);
            },
            Ok(()) => {},
        }
        self.token_uri.insert(id, token_uri);
        Ok(Transfer { from: Some(zero()), to: Some(caller), id })
    }

    /// Deletes an existing token. Only the owner can burn the token.
    pub fn burn(&mut self, caller: AccountId, id: TokenId) -> (r: Result<Transfer, Error>)
        requires
            old(self).wf(),
        ensures
            final(self).wf(),
            match r {
                Ok(notice) => {
                    &&& old(self)@.burn_outcome(caller@, id) is Ok
                    &&& final(self)@ == old(self)@.burned(caller@, id)
                    &&& notice.from == Some(caller)
                    &&& notice.to is Some
                    &&& notice.to.unwrap()@ == zero_account()
                    &&& notice.id == id
                },
                Err(e) => {
                    &&& old(self)@.burn_outcome(caller@, id) == Err::<(), Error>(e)
                    &&& final(self)@ == old(self)@
                },
            },
    {
        let owner = match self.token_owner.get(&id) {
            Some(o) => *o,
            None => {
                return Err(Error::TokenNotFound);
            },
        };
        if !same_bytes(&owner, &caller) {
            return Err(Error::NotOwner);
        }
        proof {
            lemma_token_removed(self@.token_owner, self@.owned_tokens_count, caller@, id);
        }
        let count = match self.owned_tokens_count.get(&caller) {
            Some(c) => *c - 1,
            None => {
                return Err(Error::CannotFetchValue);
            },
        };
        self.owned_tokens_count.insert(caller, count);
        self.token_owner.remove(&id);
        self.token_uri.remove(&id);
        Ok(Transfer { from: Some(caller), to: Some(zero()), id })
    }

    /// Transfers token `id` `from` the sender to the `to` `AccountId`.
    fn transfer_token_from(
        &mut self,
        caller: AccountId,
        from: &AccountId,
        to: &AccountId,
        id: TokenId,
    ) -> (r: Result<Transfer, Error>)
        requires
            old(self).wf(),
            old(self)@.transfer_outcome(caller@, from@, to@, id) is Ok && to@ != from@
                ==> old(self)@.balance(to@) < u32::MAX,
        ensures
            final(self).wf(),
            match r {
                Ok(notice) => {
                    &&& old(self)@.transfer_outcome(caller@, from@, to@, id) is Ok
                    &&& final(self)@ == old(self)@.transferred(from@, to@, id)
                    &&& notice == (Transfer { from: Some(*from), to: Some(*to), id })
                },
                Err(e) => {
                    &&& old(self)@.transfer_outcome(caller@, from@, to@, id) == Err::<(), Error>(e)
                    &&& final(self)@ == old(self)@
                },
            },
    {
        let owner = match self.owner_of(id) {
            Some(o) => o,
            None => {
                return Err(Error::TokenNotFound);
            },
        };
        if !self.approved_or_owner(caller, id, owner) {
            return Err(Error::NotApproved);
        }
        if !same_bytes(&owner, from) {
            return Err(Error::NotOwner);
        }
        if !self.owned_tokens_count.contains(from) {
            return Err(Error::CannotFetchValue);
        }
        if is_zero_account(to) {
            return Err(Error::NotAllowed);
        }
        self.clear_approval(id);
        match self.remove_token_from(from, id) {
            Err(e) => {
                return Err(e);
            },
            Ok(()) => {},
        }
        match self.add_token_to(to, id) {
            Err(e) => {
                return Err(e);
            },
            Ok(()) => {},
        }
        Ok(Transfer { from: Some(*from), to: Some(*to), id })
    }

    /// Removes token `id` from the owner.
    fn remove_token_from(&mut self, from: &AccountId, id: TokenId) -> (r: Result<(), Error>)
        requires
            old(self).wf(),
            old(self)@.token_owner.dom().contains(id) ==> old(self)@.token_owner[id] == from@,
        ensures
            final(self).wf(),
            r == old(self)@.remove_outcome(from@, id),
            r is Ok ==> old(self)@.balance(from@) >= 1,
            r is Ok ==> final(self)@ == old(self)@.without_token(from@, id),
            r is Err ==> final(self)@ == old(self)@,
    {
        if !self.token_owner.contains(&id) {
            return Err(Error::TokenNotFound);
        }
        proof {
            lemma_token_removed(self@.token_owner, self@.owned_tokens_count, from@, id);
        }
        let count = match self.owned_tokens_count.get(from) {
            Some(c) => *c - 1,
            None => {
                return Err(Error::CannotFetchValue);
            },
        };
        self.owned_tokens_count.insert(*from, count);
        self.token_owner.remove(&id);
        Ok(())
    }

    /// Adds the token `id` to the `to` AccountID.
    fn add_token_to(&mut self, to: &AccountId, id: TokenId) -> (r: Result<(), Error>)
        requires
            old(self).wf(),
            old(self)@.add_outcome(to@, id) is Ok ==> old(self)@.balance(to@) < u32::MAX,
        ensures
            final(self).wf(),
            r == old(self)@.add_outcome(to@, id),
            r is Ok ==> final(self)@ == old(self)@.with_token(to@, id),
            r is Err ==> final(self)@ == old(self)@,
    {
        if self.token_owner.contains(&id) {
            return Err(Error::TokenExists);
        }
        if is_zero_account(to) {
            return Err(Error::NotAllowed);
        }
        proof {
            lemma_token_added(self@.token_owner, self@.owned_tokens_count, to@, id);
        }
        let count = match self.owned_tokens_count.get(to) {
            Some(c) => *c + 1,
            None => 1,
        };
        self.owned_tokens_count.insert(*to, count);
        self.token_owner.insert(id, *to);
        Ok(())
    }

    /// Approves or disapproves the operator to transfer all tokens of the caller.
    fn approve_for_all(&mut self, caller: AccountId, to: AccountId, approved: bool) -> (r: Result<
        ApprovalForAll,
        Error,
    >)
        requires
            old(self).wf(),
        ensures
            final(self).wf(),
            match r {
                Ok(notice) => {
                    &&& old(self)@.approve_for_all_outcome(caller@, to@) is Ok
                    &&& final(self)@ == old(self)@.with_operator(caller@, to@, approved)
                    &&& notice == (ApprovalForAll { owner: caller, operator: to, approved })
                },
                Err(e) => {
                    &&& old(self)@.approve_for_all_outcome(caller@, to@) == Err::<(), Error>(e)
                    &&& final(self)@ == old(self)@
                },
            },
    {
        if same_bytes(&to, &caller) {
            return Err(Error::NotAllowed);
        }
        if approved {
            self.operator_approvals.insert((caller, to), ());
        } else {
            self.operator_approvals.remove(&(caller, to));
        }
        Ok(ApprovalForAll { owner: caller, operator: to, approved })
    }

    /// Approve the passed `AccountId` to transfer the specified token on behalf of
    /// the message's sender.
    fn approve_for(&mut self, caller: AccountId, to: &AccountId, id: TokenId) -> (r: Result<
        Approval,
        Error,
    >)
        requires
            old(self).wf(),
        ensures
            final(self).wf(),
            match r {
                Ok(notice) => {
                    &&& old(self)@.approve_outcome(caller@, to@, id) is Ok
                    &&& final(self)@ == (Tokens {
                        token_approvals: old(self)@.token_approvals.insert(id, to@),
                        ..old(self)@
                    })
                    &&& notice == (Approval { from: caller, to: *to, id })
                },
                Err(e) => {
                    &&& old(self)@.approve_outcome(caller@, to@, id) == Err::<(), Error>(e)
                    &&& final(self)@ == old(self)@
                },
            },
    {
        let owner = match self.owner_of(id) {
            Some(o) => o,
            None => {
                return Err(Error::TokenNotFound);
            },
        };
        if !(same_bytes(&owner, &caller) || self.approved_for_all(owner, caller)) {
            return Err(Error::NotAllowed);
        }
        if is_zero_account(to) {
            return Err(Error::NotAllowed);
        }
        if self.token_approvals.contains(&id) {
            return Err(Error::CannotInsert);
        } else {
            self.token_approvals.insert(id, *to);
        }
        Ok(Approval { from: caller, to: *to, id })
    }

    /// Removes existing approval from token `id`.
    fn clear_approval(&mut self, id: TokenId)
        requires
            old(self).wf(),
        ensures
            final(self).wf(),
            final(self)@ == (Tokens {
                token_approvals: old(self)@.token_approvals.remove(id),
                ..old(self)@
            }),
    {
        self.token_approvals.remove(&id);
    }
}

/// Where the counts are right, the holder of a token has a count, and it is
/// at least one: neither a burn nor a transfer by way of the holder fails
/// for want of a count.
pub proof fn holder_has_a_count(tokens: Tokens, caller: Seq<u8>, to: Seq<u8>, id: u64)
    requires
        tokens.counted(),
        tokens.token_owner.dom().contains(id),
    ensures
        tokens.balance(tokens.token_owner[id]) >= 1,
        tokens.burn_outcome(caller, id) != Err::<(), Error>(Error::CannotFetchValue),
        tokens.transfer_outcome(caller, tokens.token_owner[id], to, id) != Err::<(), Error>(
            Error::CannotFetchValue,
        ),
{
    lemma_token_removed(
        tokens.token_owner,
        tokens.owned_tokens_count,
        tokens.token_owner[id],
        id,
    );
}

} // verus!
