use crate::models::{BookWithAuthor, ID};
use std::collections::HashMap;
use vstd::prelude::*;

verus! {

/// How many books of one author are bought, not bought, and finished.
#[derive(Debug, Clone, Copy, PartialEq, Eq, Structural)]
pub struct BookStats {
    pub bought: usize,
    pub not_bought: usize,
    pub finished: usize,
}

impl Default for BookStats {
    fn default() -> (stats: Self)
        ensures
            stats == (BookStats { bought: 0, not_bought: 0, finished: 0 }),
    {
        BookStats { bought: 0, not_bought: 0, finished: 0 }
    }
}

/// Whether the book is by the author of this id, going by its foreign key.
pub open spec fn is_by(book: BookWithAuthor, author: ID) -> bool {
    book.book.AuthorFK == Some(author)
}

/// The number of books by the author that are bought.
pub open spec fn bought_by(books: Seq<BookWithAuthor>, author: ID) -> nat {
    books.filter(|book: BookWithAuthor| is_by(book, author) && book.book.bought is Some).len()
}

/// The number of books by the author that are not bought.
pub open spec fn not_bought_by(books: Seq<BookWithAuthor>, author: ID) -> nat {
    books.filter(|book: BookWithAuthor| is_by(book, author) && book.book.bought is None).len()
}

/// The number of books by the author that are finished.
pub open spec fn finished_by(books: Seq<BookWithAuthor>, author: ID) -> nat {
    books.filter(|book: BookWithAuthor| is_by(book, author) && book.book.finished is Some).len()
}

/// Whether `stats` counts the books of `books` by each author that has any, and
/// holds no author that has none.
pub open spec fn counts_books(stats: Map<ID, BookStats>, books: Seq<BookWithAuthor>) -> bool {
    forall|author: ID|
        {
            &&& #[trigger] stats.contains_key(author) <==> bought_by(books, author)
                + not_bought_by(books, author) > 0
            &&& stats.contains_key(author) ==> {
                &&& stats[author].bought == bought_by(books, author)
                &&& stats[author].not_bought == not_bought_by(books, author)
                &&& stats[author].finished == finished_by(books, author)
            }
        }
}

proof fn finished_are_counted(books: Seq<BookWithAuthor>, author: ID)
    ensures
        finished_by(books, author) <= bought_by(books, author) + not_bought_by(books, author),
    decreases books.len(),
{
    reveal(Seq::filter);
    if books.len() > 0 {
        finished_are_counted(books.drop_last(), author);
    }
}

proof fn counts_step(books: Seq<BookWithAuthor>, i: int, author: ID)
    requires
        0 <= i < books.len(),
    ensures
        bought_by(books.take(i + 1), author) == bought_by(books.take(i), author) + (if is_by(
            books[i],
            author,
        ) && books[i].book.bought is Some {
            1nat
        } else {
            0nat
        }),
        not_bought_by(books.take(i + 1), author) == not_bought_by(books.take(i), author) + (if is_by(
            books[i],
            author,
        ) && books[i].book.bought is None {
            1nat
        } else {
            0nat
        }),
        finished_by(books.take(i + 1), author) == finished_by(books.take(i), author) + (if is_by(
            books[i],
            author,
        ) && books[i].book.finished is Some {
            1nat
        } else {
            0nat
        }),
        bought_by(books.take(i), author) <= i,
        not_bought_by(books.take(i), author) <= i,
        finished_by(books.take(i), author) <= i,
        finished_by(books.take(i), author) <= bought_by(books.take(i), author) + not_bought_by(
            books.take(i),
            author,
        ),
{
    finished_are_counted(books.take(i), author);
    reveal(Seq::filter);
    assert(books.take(i + 1).drop_last() =~= books.take(i));
    assert(books.take(i + 1).last() == books[i]);
    let bought = |book: BookWithAuthor| is_by(book, author) && book.book.bought is Some;
    let not_bought = |book: BookWithAuthor| is_by(book, author) && book.book.bought is None;
    let finished = |book: BookWithAuthor| is_by(book, author) && book.book.finished is Some;
    books.take(i).lemma_filter_len(bought);
    books.take(i).lemma_filter_len(not_bought);
    books.take(i).lemma_filter_len(finished);
}

/// Counts, for each author that has books among `books`, how many of them are bought,
/// not bought, and finished.
pub fn calculate_author_stats(books_with_author: &Vec<BookWithAuthor>) -> (stats: HashMap<
    ID,
    BookStats,
>)
    ensures
        counts_books(stats@, books_with_author@),
{
    broadcast use vstd::std_specs::hash::group_hash_axioms;

    let mut stats: HashMap<ID, BookStats> = HashMap::new();
    let mut i: usize = 0;
    proof {
        reveal(Seq::filter);
        assert(books_with_author@.take(0) =~= Seq::<BookWithAuthor>::empty());
    }
    while i < books_with_author.len()
        invariant
            i <= books_with_author.len(),
            counts_books(stats@, books_with_author@.take(i as int)),
        decreases books_with_author.len() - i,
    {
        let ghost before = stats@;
        let pair = &books_with_author[i];
        if let Some(author_id) = pair.book.AuthorFK {
            proof {
                counts_step(books_with_author@, i as int, author_id);
                assert(before.contains_key(author_id) ==> before[author_id].bought == bought_by(
                    books_with_author@.take(i as int),
                    author_id,
                ) && before[author_id].finished == finished_by(
                    books_with_author@.take(i as int),
                    author_id,
                ));
            }
            let known = match stats.get(&author_id) {
                Some(found) => *found,
                None => BookStats::default(),
            };
            let bought = pair.book.bought.is_some();
            let finished = pair.book.finished.is_some();
            let counted = BookStats {
                bought: if bought {
                    known.bought + 1
                } else {
                    known.bought
                },
                not_bought: if bought {
                    known.not_bought
                } else {
                    known.not_bought + 1
                },
                finished: if finished {
                    known.finished + 1
                } else {
                    known.finished
                },
            };
            stats.insert(author_id, counted);
        }
        proof {
            assert forall|author: ID| true implies {
                &&& #[trigger] stats@.contains_key(author) <==> bought_by(
                    books_with_author@.take(i + 1),
                    author,
                ) + not_bought_by(books_with_author@.take(i + 1), author) > 0
                &&& stats@.contains_key(author) ==> {
                    &&& stats@[author].bought == bought_by(books_with_author@.take(i + 1), author)
                    &&& stats@[author].not_bought == not_bought_by(
                        books_with_author@.take(i + 1),
                        author,
                    )
                    &&& stats@[author].finished == finished_by(
                        books_with_author@.take(i + 1),
                        author,
                    )
                }
            } by {
                counts_step(books_with_author@, i as int, author);
                assert(before.contains_key(author) <==> bought_by(
                    books_with_author@.take(i as int),
                    author,
                ) + not_bought_by(books_with_author@.take(i as int), author) > 0);
            }
        }
        i += 1;
    }
    assert(books_with_author@.take(books_with_author@.len() as int) =~= books_with_author@);
    stats
}

} // verus!
