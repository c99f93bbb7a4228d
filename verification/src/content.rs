//! Content records: free-form texts attached to a domain or a subdomain.
//!
//! A content record has four slotted categories and one website field. The
//! categories `social`, `general` and `address` have five slots each, `other`
//! has two. A slot is addressed by its category and an index.

use crate::identity::is_word;
use vstd::prelude::*;

verus! {

/// The number of slots of `social`, `general` and `address`.
pub const WIDE_SLOTS: usize = 5;

/// The number of slots of `other`.
pub const OTHER_SLOTS: usize = 2;

/// A category of a content record.
#[derive(Debug, PartialEq, Eq, Clone, Copy)]
pub enum ContentKey {
    Social,
    General,
    Address,
    Website,
    Other,
}

/// The category that a key names, if it names one.
pub open spec fn content_key_of(key: Seq<char>) -> Option<ContentKey> {
    if key == "social"@ {
        Some(ContentKey::Social)
    } else if key == "general"@ {
        Some(ContentKey::General)
    } else if key == "address"@ {
        Some(ContentKey::Address)
    } else if key == "website"@ {
        Some(ContentKey::Website)
    } else if key == "other"@ {
        Some(ContentKey::Other)
    } else {
        None
    }
}

/// Reads a category from its name.
pub fn parse_content_key(key: &String) -> (r: Option<ContentKey>)
    ensures
        r == content_key_of(key@),
{
    if is_word(key, "social") {
        Some(ContentKey::Social)
    } else if is_word(key, "general") {
        Some(ContentKey::General)
    } else if is_word(key, "address") {
        Some(ContentKey::Address)
    } else if is_word(key, "website") {
        Some(ContentKey::Website)
    } else if is_word(key, "other") {
        Some(ContentKey::Other)
    } else {
        None
    }
}

/// The number of slots of a category; the website is a single field.
pub open spec fn slot_count(key: ContentKey) -> nat {
    match key {
        ContentKey::Social => 5,
        ContentKey::General => 5,
        ContentKey::Address => 5,
        ContentKey::Website => 1,
        ContentKey::Other => 2,
    }
}

/// The texts that a sequence of strings holds.
pub open spec fn texts_of(slots: Seq<String>) -> Seq<Seq<char>> {
    Seq::new(slots.len(), |i: int| slots[i]@)
}

/// `count` empty texts.
pub open spec fn empty_texts(count: nat) -> Seq<Seq<char>> {
    Seq::new(count, |i: int| Seq::<char>::empty())
}

/// What a content record holds.
pub struct ContentView {
    pub social: Seq<Seq<char>>,
    pub general: Seq<Seq<char>>,
    pub address: Seq<Seq<char>>,
    pub website: Seq<char>,
    pub other: Seq<Seq<char>>,
}

impl ContentView {
    /// The record with every slot empty.
    pub open spec fn empty() -> ContentView {
        ContentView {
            social: empty_texts(5),
            general: empty_texts(5),
            address: empty_texts(5),
            website: Seq::empty(),
            other: empty_texts(2),
        }
    }

    /// Every category has its number of slots.
    pub open spec fn well_sized(self) -> bool {
        &&& self.social.len() == 5
        &&& self.general.len() == 5
        &&& self.address.len() == 5
        &&& self.other.len() == 2
    }

    /// The record with `text` in slot `index` of `key`. For the website the
    /// index plays no part.
    pub open spec fn with_text(self, key: ContentKey, index: int, text: Seq<char>) -> ContentView {
        match key {
            ContentKey::Social => ContentView { social: self.social.update(index, text), ..self },
            ContentKey::General => ContentView {
                general: self.general.update(index, text),
                ..self
            },
            ContentKey::Address => ContentView {
                address: self.address.update(index, text),
                ..self
            },
            ContentKey::Website => ContentView { website: text, ..self },
            ContentKey::Other => ContentView { other: self.other.update(index, text), ..self },
        }
    }
}

/// `count` empty strings.
pub fn empty_slots(count: usize) -> (slots: Vec<String>)
    ensures
        texts_of(slots@) == empty_texts(count as nat),
{
    let mut slots: Vec<String> = Vec::new();
    let mut i: usize = 0;
    while i < count
        invariant
            i <= count,
            slots@.len() == i,
            forall|j: int| 0 <= j < i ==> slots@[j]@ == Seq::<char>::empty(),
        decreases count - i,
    {
        slots.push(String::new());
        i += 1;
    }
    assert(texts_of(slots@) =~= empty_texts(count as nat));
    slots
}

/// A copy of `slots`, text for text.
pub fn copy_slots(slots: &Vec<String>) -> (copy: Vec<String>)
    ensures
        texts_of(copy@) == texts_of(slots@),
{
    let mut copy: Vec<String> = Vec::new();
    let mut i: usize = 0;
    while i < slots.len()
        invariant
            i <= slots@.len(),
            copy@.len() == i,
            forall|j: int| 0 <= j < i ==> copy@[j]@ == slots@[j]@,
        decreases slots@.len() - i,
    {
        copy.push(slots[i].clone());
        i += 1;
    }
    assert(texts_of(copy@) =~= texts_of(slots@));
    copy
}

/// Puts `text` into slot `index` of `slots`.
pub fn put_slot(slots: &mut Vec<String>, index: usize, text: String)
    requires
        index < old(slots)@.len(),
    ensures
        texts_of(final(slots)@) == texts_of(old(slots)@).update(index as int, text@),
{
    slots[index] = text;
    assert(texts_of(slots@) =~= texts_of(old(slots)@).update(index as int, text@));
}

/// The content record of a domain.
#[derive(Debug, PartialEq, Eq, Clone)]
pub struct ContentText {
    pub social: Vec<String>,
    pub general: Vec<String>,
    pub address: Vec<String>,
    pub website: String,
    pub other: Vec<String>,
}

impl View for ContentText {
    type V = ContentView;

    open spec fn view(&self) -> ContentView {
        ContentView {
            social: texts_of(self.social@),
            general: texts_of(self.general@),
            address: texts_of(self.address@),
            website: self.website@,
            other: texts_of(self.other@),
        }
    }
}

impl ContentText {
    /// The record with every slot empty.
    pub fn empty() -> (content: Self)
        ensures
            content@ == ContentView::empty(),
    {
        ContentText {
            social: empty_slots(WIDE_SLOTS),
            general: empty_slots(WIDE_SLOTS),
            address: empty_slots(WIDE_SLOTS),
            website: String::new(),
            other: empty_slots(OTHER_SLOTS),
        }
    }

    /// A copy of the record.
    pub fn duplicate(&self) -> (copy: Self)
        ensures
            copy@ == self@,
    {
        ContentText {
            social: copy_slots(&self.social),
            general: copy_slots(&self.general),
            address: copy_slots(&self.address),
            website: self.website.clone(),
            other: copy_slots(&self.other),
        }
    }

    /// Puts `text` into slot `index` of `key`; for the website the index
    /// plays no part.
    pub fn put(&mut self, key: ContentKey, index: usize, text: String)
        requires
            old(self)@.well_sized(),
            key != ContentKey::Website ==> index < slot_count(key),
        ensures
            final(self)@ == old(self)@.with_text(key, index as int, text@),
            final(self)@.well_sized(),
    {
        match key {
            ContentKey::Social => put_slot(&mut self.social, index, text),
            ContentKey::General => put_slot(&mut self.general, index, text),
            ContentKey::Address => put_slot(&mut self.address, index, text),
            ContentKey::Website => {
                self.website = text;
            },
            ContentKey::Other => put_slot(&mut self.other, index, text),
        }
    }
}

/// The content record of a subdomain.
#[derive(Debug, PartialEq, Eq, Clone)]
pub struct SubDomainContentText {
    pub social: Vec<String>,
    pub general: Vec<String>,
    pub address: Vec<String>,
    pub website: String,
    pub other: Vec<String>,
}

impl View for SubDomainContentText {
    type V = ContentView;

    open spec fn view(&self) -> ContentView {
        ContentView {
            social: texts_of(self.social@),
            general: texts_of(self.general@),
            address: texts_of(self.address@),
            website: self.website@,
            other: texts_of(self.other@),
        }
    }
}

impl SubDomainContentText {
    /// The record with every slot empty.
    pub fn empty() -> (content: Self)
        ensures
            content@ == ContentView::empty(),
    {
        SubDomainContentText {
            social: empty_slots(WIDE_SLOTS),
            general: empty_slots(WIDE_SLOTS),
            address: empty_slots(WIDE_SLOTS),
            website: String::new(),
            other: empty_slots(OTHER_SLOTS),
        }
    }

    /// A copy of the record.
    pub fn duplicate(&self) -> (copy: Self)
        ensures
            copy@ == self@,
    {
        SubDomainContentText {
            social: copy_slots(&self.social),
            general: copy_slots(&self.general),
            address: copy_slots(&self.address),
            website: self.website.clone(),
            other: copy_slots(&self.other),
        }
    }

    /// Puts `text` into slot `index` of `key`; for the website the index
    /// plays no part.
    pub fn put(&mut self, key: ContentKey, index: usize, text: String)
        requires
            old(self)@.well_sized(),
            key != ContentKey::Website ==> index < slot_count(key),
        ensures
            final(self)@ == old(self)@.with_text(key, index as int, text@),
            final(self)@.well_sized(),
    {
        match key {
            ContentKey::Social => put_slot(&mut self.social, index, text),
            ContentKey::General => put_slot(&mut self.general, index, text),
            ContentKey::Address => put_slot(&mut self.address, index, text),
            ContentKey::Website => {
                self.website = text;
            },
            ContentKey::Other => put_slot(&mut self.other, index, text),
        }
    }
}

} // verus!
