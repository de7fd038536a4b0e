use crate::models::{BookWithAuthor, Price, PriceInput};
use crate::text::{chars_of, contains, folded, lowercase, occurs_in, starts_with};
use vstd::prelude::*;

verus! {

/// Whether the title of the book holds `needle`, the title taken in lower case.
pub open spec fn title_matches(book: BookWithAuthor, needle: Seq<char>) -> bool {
    occurs_in(needle, lowercase(book.book.title@))
}

/// Whether the name of the book's author holds `needle`, the name taken in lower
/// case. A book without an author, or with an author without a name, never matches.
pub open spec fn author_matches(book: BookWithAuthor, needle: Seq<char>) -> bool {
    match book.author {
        Some(author) => match author.Name {
            Some(name) => occurs_in(needle, lowercase(name@)),
            None => false,
        },
        None => false,
    }
}

/// Whether a price answers a query. Where the query reads as an amount, the price
/// matches when its text begins with the text of that amount, or when it is that
/// amount; where it reads as none, when its text holds `needle`.
pub open spec fn amount_matches(price: Price, needle: Seq<char>, amount: Option<Price>) -> bool {
    match amount {
        Some(asked) => asked.text@.is_prefix_of(price.text@) || price.same_amount(asked),
        None => occurs_in(needle, price.text@),
    }
}

/// Whether the price of the book answers a query. A book without a price never
/// matches.
pub open spec fn price_matches(
    book: BookWithAuthor,
    needle: Seq<char>,
    amount: Option<Price>,
) -> bool {
    match book.book.price {
        Some(price) => amount_matches(price, needle, amount),
        None => false,
    }
}

/// Whether a book is found by `needle`, or by the amount that was asked for: by its
/// title, by its author or by its price.
pub open spec fn found_by(book: BookWithAuthor, needle: Seq<char>, amount: Option<Price>) -> bool {
    title_matches(book, needle) || author_matches(book, needle) || price_matches(
        book,
        needle,
        amount,
    )
}

/// Whether a book answers a query. The text of the query is taken in lower case.
pub open spec fn matches(book: BookWithAuthor, query: PriceInput) -> bool {
    found_by(book, lowercase(query.text@), query.price)
}

/// The books that answer a query, in the order in which they stand.
pub open spec fn filtered(books: Seq<BookWithAuthor>, query: PriceInput) -> Seq<BookWithAuthor> {
    books.filter(|book: BookWithAuthor| matches(book, query))
}

/// A book without an author is never found by its author, whatever is asked.
pub proof fn no_author_never_matches(book: BookWithAuthor, needle: Seq<char>)
    requires
        book.author is None || book.author->0.Name is None,
    ensures
        !author_matches(book, needle),
{
}

/// A book found by a query stood in the list that was searched, and answers the
/// query; a book of the list that answers the query is found.
pub proof fn filtered_holds_the_matches(
    books: Seq<BookWithAuthor>,
    query: PriceInput,
    book: BookWithAuthor,
)
    ensures
        filtered(books, query).contains(book) <==> books.contains(book) && matches(book, query),
{
    let pred = |book: BookWithAuthor| matches(book, query);
    if filtered(books, query).contains(book) {
        let i = choose|i: int| 0 <= i < books.filter(pred).len() && books.filter(pred)[i] == book;
        books.lemma_filter_pred(pred, i);
        books.lemma_filter_contains_rev(pred, book);
    }
    if books.contains(book) && matches(book, query) {
        let i = choose|i: int| 0 <= i < books.len() && books[i] == book;
        books.lemma_filter_contains(pred, i);
    }
}

/// Decides [`amount_matches`].
pub fn price_answers(price: &Price, needle: &Vec<char>, amount: &Option<Price>) -> (r: bool)
    ensures
        r == amount_matches(*price, needle@, *amount),
{
    let shown = chars_of(price.text.as_str());
    match amount {
        Some(asked) => {
            let wanted = chars_of(asked.text.as_str());
            starts_with(&shown, &wanted) || price.is_same_amount(asked)
        },
        None => contains(&shown, needle),
    }
}

/// Decides [`found_by`].
pub fn answers(book: &BookWithAuthor, needle: &Vec<char>, amount: &Option<Price>) -> (r: bool)
    ensures
        r == found_by(*book, needle@, *amount),
{
    let title = folded(book.book.title.as_str());
    if contains(&title, needle) {
        return true;
    }
    let by_author = match &book.author {
        Some(author) => match &author.Name {
            Some(name) => {
                let name = folded(name.as_str());
                contains(&name, needle)
            },
            None => false,
        },
        None => false,
    };
    if by_author {
        return true;
    }
    match &book.book.price {
        Some(price) => price_answers(price, needle, amount),
        None => false,
    }
}

/// The books of `books` that answer `query`, in the order in which they stand.
///
/// A search is made for something: the text of the query is not empty.
pub fn filter_books(books: &Vec<BookWithAuthor>, query: &PriceInput) -> (found: Vec<BookWithAuthor>)
    requires
        query.text@.len() > 0,
    ensures
        found@ == filtered(books@, *query),
{
    let needle = folded(query.text.as_str());
    let mut found: Vec<BookWithAuthor> = Vec::new();
    let ghost pred = |book: BookWithAuthor| matches(book, *query);
    let mut i: usize = 0;
    proof {
        reveal(Seq::filter);
        assert(books@.take(0) =~= Seq::<BookWithAuthor>::empty());
    }
    while i < books.len()
        invariant
            i <= books.len(),
            needle@ == lowercase(query.text@),
            pred == |book: BookWithAuthor| matches(book, *query),
            found@ == books@.take(i as int).filter(pred),
        decreases books.len() - i,
    {
        proof {
            reveal(Seq::filter);
            assert(books@.take(i + 1).drop_last() =~= books@.take(i as int));
            assert(books@.take(i + 1).last() == books@[i as int]);
        }
        if answers(&books[i], &needle, &query.price) {
            found.push(books[i].clone());
        }
        i += 1;
    }
    assert(books@.take(books@.len() as int) =~= books@);
    found
}

} // verus!
