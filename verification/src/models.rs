#![allow(non_snake_case)]

use vstd::prelude::*;
use vstd::std_specs::cmp::PartialEqSpecImpl;

verus! {

/// Primary key of a stored record.
pub type ID = i32;

/// A point in time without a zone: whole seconds since 1970-01-01 00:00:00 and the
/// nanoseconds past that second.
#[derive(Debug, Clone, Copy, PartialEq, Eq, Structural)]
pub struct Timestamp {
    pub secs: i64,
    pub nanos: u32,
}

impl Timestamp {
    /// Whether `self` is no later than `other`.
    pub open spec fn not_after(self, other: Timestamp) -> bool {
        self.secs < other.secs || (self.secs == other.secs && self.nanos <= other.nanos)
    }

    /// Decides [`Timestamp::not_after`].
    pub fn is_not_after(&self, other: &Timestamp) -> (r: bool)
        ensures
            r == self.not_after(*other),
    {
        self.secs < other.secs || (self.secs == other.secs && self.nanos <= other.nanos)
    }
}

/// A price as the library holds it. Decimal text is read and written by the caller;
/// the library orders prices by `bits` and searches in `text`.
///
/// `bits` is the IEEE 754 binary32 encoding of the amount, `text` its shortest decimal
/// form without an exponent (`41.99`, `5`).
#[derive(Debug)]
pub struct Price {
    pub bits: u32,
    pub text: String,
}

impl Price {
    /// The encoding of the amount without its sign.
    pub open spec fn magnitude(self) -> int {
        if self.bits >= 0x8000_0000 {
            self.bits - 0x8000_0000
        } else {
            self.bits as int
        }
    }

    /// Whether the encoding stands for a number at all, finite or infinite.
    pub open spec fn is_number(self) -> bool {
        self.magnitude() <= 0x7f80_0000
    }

    /// The place of the amount among all amounts: a greater amount has the greater
    /// rank, and zero, of either sign, has rank 0.
    pub open spec fn rank(self) -> int {
        if self.bits >= 0x8000_0000 {
            -self.magnitude()
        } else {
            self.magnitude()
        }
    }

    /// Whether two prices are the same amount. What is no number is the same as
    /// nothing, itself included.
    pub open spec fn same_amount(self, other: Price) -> bool {
        self.is_number() && other.is_number() && self.rank() == other.rank()
    }

    /// Computes [`Price::rank`].
    pub fn order_rank(&self) -> (rank: i64)
        ensures
            rank == self.rank(),
    {
        if self.bits >= 0x8000_0000 {
            let magnitude: i64 = (self.bits - 0x8000_0000) as i64;
            -magnitude
        } else {
            self.bits as i64
        }
    }

    /// Decides [`Price::same_amount`].
    pub fn is_same_amount(&self, other: &Price) -> (same: bool)
        ensures
            same == self.same_amount(*other),
    {
        let mine: i64 = self.order_rank();
        let theirs: i64 = other.order_rank();
        -0x7f80_0000 <= mine && mine <= 0x7f80_0000 && -0x7f80_0000 <= theirs && theirs
            <= 0x7f80_0000 && mine == theirs
    }
}

impl Clone for Price {
    fn clone(&self) -> (copy: Self)
        ensures
            copy == *self,
    {
        Price { bits: self.bits, text: self.text.clone() }
    }
}

/// What was typed where an amount may stand: the text as typed, and the amount it
/// reads as, read by the caller without regard to case. A text that is no number reads
/// as no amount.
#[derive(Debug)]
pub struct PriceInput {
    pub text: String,
    pub price: Option<Price>,
}

impl PriceInput {
    /// Whether nothing was typed.
    pub open spec fn is_blank(self) -> bool {
        self.text@.len() == 0 && self.price is None
    }

    /// The input in which nothing was typed.
    pub fn blank() -> (input: PriceInput)
        ensures
            input.is_blank(),
    {
        PriceInput { text: String::new(), price: None }
    }
}

impl Clone for PriceInput {
    fn clone(&self) -> (copy: Self)
        ensures
            copy == *self,
    {
        let price = match &self.price {
            Some(p) => Some(p.clone()),
            None => None,
        };
        PriceInput { text: self.text.clone(), price }
    }
}

/// An author as stored.
#[derive(Debug)]
pub struct AuthorModel {
    pub Id: ID,
    pub Name: Option<String>,
}

/// The fields of an author that a save writes.
#[derive(Debug)]
pub struct NewAuthor {
    pub Name: Option<String>,
}

/// A book as stored.
#[derive(Debug)]
pub struct BookModel {
    pub id: ID,
    pub title: String,
    pub price: Option<Price>,
    pub bought: Option<Timestamp>,
    pub finished: Option<Timestamp>,
    pub added: Option<Timestamp>,
    pub AuthorFK: Option<ID>,
}

/// The fields of a book that a save writes.
#[derive(Debug)]
pub struct NewBook {
    pub title: String,
    pub price: Option<Price>,
    pub bought: Option<Timestamp>,
    pub finished: Option<Timestamp>,
    pub added: Option<Timestamp>,
    pub AuthorFK: Option<ID>,
}

/// A book joined with the author its foreign key resolved to when it was loaded.
#[derive(Debug)]
pub struct BookWithAuthor {
    pub book: BookModel,
    pub author: Option<AuthorModel>,
}

/// A copy of an optional text.
pub fn clone_text(text: &Option<String>) -> (copy: Option<String>)
    ensures
        copy == *text,
{
    match text {
        Some(t) => Some(t.clone()),
        None => None,
    }
}

/// A copy of an optional price.
pub fn clone_price(price: &Option<Price>) -> (copy: Option<Price>)
    ensures
        copy == *price,
{
    match price {
        Some(p) => Some(p.clone()),
        None => None,
    }
}

impl Clone for AuthorModel {
    fn clone(&self) -> (copy: Self)
        ensures
            copy == *self,
    {
        AuthorModel { Id: self.Id, Name: clone_text(&self.Name) }
    }
}

impl Clone for NewAuthor {
    fn clone(&self) -> (copy: Self)
        ensures
            copy == *self,
    {
        NewAuthor { Name: clone_text(&self.Name) }
    }
}

impl Clone for BookModel {
    fn clone(&self) -> (copy: Self)
        ensures
            copy == *self,
    {
        BookModel {
            id: self.id,
            title: self.title.clone(),
            price: clone_price(&self.price),
            bought: self.bought,
            finished: self.finished,
            added: self.added,
            AuthorFK: self.AuthorFK,
        }
    }
}

impl Clone for NewBook {
    fn clone(&self) -> (copy: Self)
        ensures
            copy == *self,
    {
        NewBook {
            title: self.title.clone(),
            price: clone_price(&self.price),
            bought: self.bought,
            finished: self.finished,
            added: self.added,
            AuthorFK: self.AuthorFK,
        }
    }
}

/// A copy of an optional author.
pub fn clone_author(author: &Option<AuthorModel>) -> (copy: Option<AuthorModel>)
    ensures
        copy == *author,
{
    match author {
        Some(a) => Some(a.clone()),
        None => None,
    }
}

impl Clone for BookWithAuthor {
    fn clone(&self) -> (copy: Self)
        ensures
            copy == *self,
    {
        BookWithAuthor { book: self.book.clone(), author: clone_author(&self.author) }
    }
}

/// Two authors are the same author when their ids agree, whatever their names.
impl PartialEq for AuthorModel {
    fn eq(&self, other: &Self) -> (r: bool) {
        self.Id == other.Id
    }
}

impl PartialEqSpecImpl for AuthorModel {
    open spec fn obeys_eq_spec() -> bool {
        true
    }

    open spec fn eq_spec(&self, other: &Self) -> bool {
        self.Id == other.Id
    }
}

impl Eq for AuthorModel {

}

/// Two books are the same book when their ids agree.
impl PartialEq for BookModel {
    fn eq(&self, other: &Self) -> (r: bool) {
        self.id == other.id
    }
}

impl PartialEqSpecImpl for BookModel {
    open spec fn obeys_eq_spec() -> bool {
        true
    }

    open spec fn eq_spec(&self, other: &Self) -> bool {
        self.id == other.id
    }
}

impl Eq for BookModel {

}

impl BookWithAuthor {
    /// Whether the author that the book is joined with is the author its foreign key
    /// names.
    pub open spec fn reflects_key(self) -> bool {
        self.author matches Some(author) ==> self.book.AuthorFK == Some(author.Id)
    }

    /// The author a book is joined with, given what the store found for it: the
    /// author found, where the book has a foreign key and the author bears it; else
    /// none. A book whose author is gone has no author, and that is no error.
    pub open spec fn resolved(book: BookModel, found: Option<AuthorModel>) -> Option<AuthorModel> {
        match (book.AuthorFK, found) {
            (Some(key), Some(author)) => if author.Id == key {
                Some(author)
            } else {
                None
            },
            _ => None,
        }
    }

    /// Joins a book with what the store found for its foreign key.
    pub fn join(book: BookModel, found: Option<AuthorModel>) -> (joined: BookWithAuthor)
        ensures
            joined.book == book,
            joined.author == Self::resolved(book, found),
            joined.reflects_key(),
    {
        let author = match (book.AuthorFK, found) {
            (Some(key), Some(author)) => if author.Id == key {
                Some(author)
            } else {
                None
            },
            _ => None,
        };
        BookWithAuthor { book, author }
    }
}

impl AuthorModel {
    /// The name shown for an author who has none.
    pub open spec fn unnamed() -> Seq<char> {
        "Unnamed Author"@
    }

    /// The text an author is listed under: the name, or [`AuthorModel::unnamed`].
    pub open spec fn label_text(self) -> Seq<char> {
        match self.Name {
            Some(name) => name@,
            None => Self::unnamed(),
        }
    }

    /// The text an author is listed under.
    pub fn label(&self) -> (text: String)
        ensures
            text@ == self.label_text(),
    {
        match &self.Name {
            Some(name) => name.clone(),
            None => "Unnamed Author".to_string(),
        }
    }
}

} // verus!
