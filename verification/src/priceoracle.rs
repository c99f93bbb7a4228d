//! The price oracle: the fee of a name for a duration.
//!
//! The fee is a price per letter of the name plus a price per year of the
//! duration, ten times that for a premium name. A fee that does not fit the
//! currency's range cannot be priced.

use crate::content::{copy_slots, texts_of};
use crate::identity::{same_bytes, AccountId, Balance, Timestamp};
use vstd::prelude::*;

verus! {

/// The seconds of a year of 365 days.
pub const SECONDS_PER_YEAR: u128 = 365 * 24 * 60 * 60;

/// The price per letter that a new oracle starts with.
pub const INITIAL_PRICE_PER_LETTER: Balance = 1_000_000_000_000_000_000;

/// The price per year that a new oracle starts with.
pub const INITIAL_PRICE_PER_YEAR: Balance = 20_000_000_000_000_000_000;

/// Why an operation of the oracle failed.
#[derive(Debug, PartialEq, Eq, Clone, Copy)]
pub enum Error {
    PermissionDenied,
}

/// The fee of a name of `letters` bytes for `duration` seconds: `letters`
/// times the price per letter, plus the price per year times `duration`
/// divided by the seconds of a year, all of it times ten for a premium name.
/// There is no fee where a product or a sum on the way leaves the range of
/// the currency.
pub open spec fn fee(
    letters: nat,
    duration: u64,
    price_per_letter: u128,
    price_per_year: u128,
    premium: bool,
) -> Option<u128> {
    let letters_price = letters * price_per_letter;
    let years_price = (duration * price_per_year) / 31_536_000;
    let total = letters_price + years_price;
    if letters_price > u128::MAX || duration * price_per_year > u128::MAX || total > u128::MAX {
        None
    } else if !premium {
        Some(total as u128)
    } else if total * 10 > u128::MAX {
        None
    } else {
        Some((total * 10) as u128)
    }
}

/// What the oracle holds.
pub struct Prices {
    pub owner: Seq<u8>,
    pub price_per_letter: u128,
    pub price_per_year: u128,
    pub premium_names: Seq<Seq<char>>,
}

impl Prices {
    /// Whether `name` is on the premium list.
    pub open spec fn is_premium(self, name: Seq<char>) -> bool {
        self.premium_names.contains(name)
    }

    /// The fee of `name` for `duration` seconds, if it can be priced.
    pub open spec fn price(self, name: Seq<char>, duration: u64) -> Option<u128> {
        fee(
            vstd::utf8::encode_utf8(name).len(),
            duration,
            self.price_per_letter,
            self.price_per_year,
            self.is_premium(name),
        )
    }

    /// What the owner's operations ask of their caller.
    pub open spec fn owner_check(self, caller: Seq<u8>) -> Result<(), Error> {
        if self.owner != caller {
            Err(Error::PermissionDenied)
        } else {
            Ok(())
        }
    }
}

/// Whether `place` is the first place of `name` in `names`.
pub open spec fn is_first_place(names: Seq<Seq<char>>, name: Seq<char>, place: int) -> bool {
    &&& 0 <= place < names.len()
    &&& names[place] == name
    &&& forall|j: int| 0 <= j < place ==> names[j] != name
}

/// The first place of `name` in `names`, where it is there.
pub open spec fn first_place(names: Seq<Seq<char>>, name: Seq<char>) -> int {
    choose|place: int| is_first_place(names, name, place)
}

/// The first place of `name` in `names`, if it is there.
pub fn position_of(names: &Vec<String>, name: &String) -> (place: Option<usize>)
    ensures
        match place {
            Some(i) => {
                &&& texts_of(names@).contains(name@)
                &&& i == first_place(texts_of(names@), name@)
                &&& is_first_place(texts_of(names@), name@, i as int)
            },
            None => !texts_of(names@).contains(name@),
        },
{
    let mut i: usize = 0;
    while i < names.len()
        invariant
            i <= names@.len(),
            forall|j: int| 0 <= j < i ==> names@[j]@ != name@,
        decreases names@.len() - i,
    {
        if names[i] == *name {
            proof {
                let texts = texts_of(names@);
                assert(texts[i as int] == name@);
                assert(is_first_place(texts, name@, i as int));
                let chosen = first_place(texts, name@);
                assert(is_first_place(texts, name@, chosen));
                assert(chosen == i);
            }
            return Some(i);
        }
        i += 1;
    }
    proof {
        let texts = texts_of(names@);
        assert forall|j: int| 0 <= j < texts.len() implies texts[j] != name@ by {
            assert(names@[j]@ != name@);
        }
    }
    None
}

/// The price oracle.
pub struct Priceoracle {
    owner: AccountId,
    price_per_letter: Balance,
    price_per_year: Balance,
    premium_names: Vec<String>,
}

impl View for Priceoracle {
    type V = Prices;

    closed spec fn view(&self) -> Prices {
        Prices {
            owner: self.owner@,
            price_per_letter: self.price_per_letter,
            price_per_year: self.price_per_year,
            premium_names: texts_of(self.premium_names@),
        }
    }
}

impl Priceoracle {
    /// An oracle with its owner, the initial prices and no premium name.
    pub fn new(owner: AccountId) -> (oracle: Self)
        ensures
            oracle@ == (Prices {
                owner: owner@,
                price_per_letter: INITIAL_PRICE_PER_LETTER,
                price_per_year: INITIAL_PRICE_PER_YEAR,
                premium_names: Seq::empty(),
            }),
    {
        let oracle = Priceoracle {
            owner,
            price_per_letter: INITIAL_PRICE_PER_LETTER,
            price_per_year: INITIAL_PRICE_PER_YEAR,
            premium_names: Vec::new(),
        };
        assert(oracle@.premium_names =~= Seq::empty());
        oracle
    }

    fn only_owner(&self, caller: &AccountId) -> (r: Result<(), Error>)
        ensures
            r == self@.owner_check(caller@),
    {
        if same_bytes(caller, &self.owner) {
            Ok(())
        } else {
            Err(Error::PermissionDenied)
        }
    }

    /// Sets the price per letter. Only the owner may.
    pub fn set_price_per_letter(&mut self, caller: AccountId, new_price_per_letter: Balance) -> (r:
        Result<(), Error>)
        ensures
            r == old(self)@.owner_check(caller@),
            r is Ok ==> final(self)@ == (Prices {
                price_per_letter: new_price_per_letter,
                ..old(self)@
            }),
            r is Err ==> final(self)@ == old(self)@,
    {
        match self.only_owner(&caller) {
            Err(e) => {
                return Err(e);
            },
            Ok(()) => {},
        }
        self.price_per_letter = new_price_per_letter;
        Ok(())
    }

    /// Sets the price per year. Only the owner may.
    pub fn set_price_per_year(&mut self, caller: AccountId, new_price_per_year: Balance) -> (r:
        Result<(), Error>)
        ensures
            r == old(self)@.owner_check(caller@),
            r is Ok ==> final(self)@ == (Prices {
                price_per_year: new_price_per_year,
                ..old(self)@
            }),
            r is Err ==> final(self)@ == old(self)@,
    {
        match self.only_owner(&caller) {
            Err(e) => {
                return Err(e);
            },
            Ok(()) => {},
        }
        self.price_per_year = new_price_per_year;
        Ok(())
    }

    /// Puts a name at the end of the premium list. Only the owner may.
    pub fn add_premium_name(&mut self, caller: AccountId, premium_name: String) -> (r: Result<
        (),
        Error,
    >)
        ensures
            r == old(self)@.owner_check(caller@),
            r is Ok ==> final(self)@ == (Prices {
                premium_names: old(self)@.premium_names.push(premium_name@),
                ..old(self)@
            }),
            r is Err ==> final(self)@ == old(self)@,
    {
        match self.only_owner(&caller) {
            Err(e) => {
                return Err(e);
            },
            Ok(()) => {},
        }
        self.premium_names.push(premium_name);
        assert(self@.premium_names =~= old(self)@.premium_names.push(premium_name@));
        Ok(())
    }

    /// Takes the first occurrence of a name off the premium list, moving the
    /// last name into its place, and says whether the name was there. Only
    /// the owner may.
    pub fn remove_premium_name(&mut self, caller: AccountId, premium_name: String) -> (r: Result<
        bool,
        Error,
    >)
        ensures
            match r {
                Ok(found) => {
                    &&& old(self)@.owner_check(caller@) is Ok
                    &&& found == old(self)@.is_premium(premium_name@)
                    &&& found ==> final(self)@ == (Prices {
                        premium_names: old(self)@.premium_names.update(
                            first_place(old(self)@.premium_names, premium_name@),
                            old(self)@.premium_names.last(),
                        ).drop_last(),
                        ..old(self)@
                    })
                    &&& !found ==> final(self)@ == old(self)@
                },
                Err(e) => {
                    &&& old(self)@.owner_check(caller@) == Err::<(), Error>(e)
                    &&& final(self)@ == old(self)@
                },
            },
    {
        match self.only_owner(&caller) {
            Err(e) => {
                return Err(e);
            },
            Ok(()) => {},
        }
        match position_of(&self.premium_names, &premium_name) {
            Some(pos) => {
                let ghost names = old(self)@.premium_names;
                let _ = self.premium_names.swap_remove(pos);
                assert(self@.premium_names =~= names.update(pos as int, names.last()).drop_last());
                Ok(true)
            },
            None => Ok(false),
        }
    }

    /// The premium list.
    pub fn get_premium_names(&self) -> (names: Vec<String>)
        ensures
            texts_of(names@) == self@.premium_names,
    {
        copy_slots(&self.premium_names)
    }

    /// The price per letter.
    pub fn get_price_per_letter(&self) -> (price: Balance)
        ensures
            price == self@.price_per_letter,
    {
        self.price_per_letter
    }

    /// The price per year.
    pub fn get_price_per_year(&self) -> (price: Balance)
        ensures
            price == self@.price_per_year,
    {
        self.price_per_year
    }

    /// The owner.
    pub fn read_owner(&self) -> (owner: AccountId)
        ensures
            owner@ == self@.owner,
    {
        self.owner
    }

    /// The fee of `name` for `duration` seconds, or nothing where it cannot
    /// be priced.
    pub fn calculate_price(&self, name: String, duration: Timestamp) -> (price: Option<Balance>)
        requires
            duration > 0,
        ensures
            price == self@.price(name@, duration),
    {
        let name_length = name.as_str().as_bytes().len() as u128;
        let premium = position_of(&self.premium_names, &name).is_some();
        Self::fee_of(name_length, duration, self.price_per_letter, self.price_per_year, premium)
    }

    /// The fee of a name of `letters` bytes for `duration` seconds at the
    /// given prices, or nothing where it cannot be priced.
    pub fn fee_of(
        letters: u128,
        duration: Timestamp,
        price_per_letter: Balance,
        price_per_year: Balance,
        premium: bool,
    ) -> (price: Option<Balance>)
        ensures
            price == fee(letters as nat, duration, price_per_letter, price_per_year, premium),
    {
        let no_of_words_price = match letters.checked_mul(price_per_letter) {
            Some(p) => p,
            None => {
                return None;
            },
        };
        let num_years_price = match (duration as u128).checked_mul(price_per_year) {
            Some(p) => p / SECONDS_PER_YEAR,
            None => {
                return None;
            },
        };
        let total_price = match no_of_words_price.checked_add(num_years_price) {
            Some(p) => p,
            None => {
                return None;
            },
        };
        if premium {
            total_price.checked_mul(10)
        } else {
            Some(total_price)
        }
    }
}

} // verus!
