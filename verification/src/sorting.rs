use crate::messages::{SortDirection, SortField};
use crate::models::{BookWithAuthor, Timestamp};
use crate::text::{folded, lex_le, lex_le_total, lex_le_transitive, lowercase, text_le};
use vstd::prelude::*;

verus! {

/// The name a book is ordered and searched by under its author: the resolved author's
/// name, or the empty text where the book has no author or the author no name.
pub open spec fn author_name(book: BookWithAuthor) -> Seq<char> {
    match book.author {
        Some(author) => match author.Name {
            Some(name) => name@,
            None => Seq::empty(),
        },
        None => Seq::empty(),
    }
}

/// The rank a book is ordered by under its price. A book without a price is ordered
/// as one that costs nothing.
pub open spec fn price_rank(book: BookWithAuthor) -> int {
    match book.book.price {
        Some(price) => price.rank(),
        None => 0,
    }
}

/// Whether the key of `a` under `field` is no greater than that of `b`.
///
/// Titles and author names are compared in lower case, by dictionary order; prices by
/// amount; dates by time, a book without a date after every book that has one.
pub open spec fn key_le(a: BookWithAuthor, b: BookWithAuthor, field: SortField) -> bool {
    match field {
        SortField::Title => lex_le(lowercase(a.book.title@), lowercase(b.book.title@)),
        SortField::Author => lex_le(lowercase(author_name(a)), lowercase(author_name(b))),
        SortField::Price => price_rank(a) <= price_rank(b),
        SortField::DateAdded => match (a.book.added, b.book.added) {
            (Some(x), Some(y)) => x.not_after(y),
            (Some(_), None) => true,
            (None, Some(_)) => false,
            (None, None) => true,
        },
    }
}

/// Whether two books have the same key under `field`.
pub open spec fn key_eq(a: BookWithAuthor, b: BookWithAuthor, field: SortField) -> bool {
    key_le(a, b, field) && key_le(b, a, field)
}

/// Any two books are ordered one way or the other.
pub proof fn key_le_total(a: BookWithAuthor, b: BookWithAuthor, field: SortField)
    ensures
        key_le(a, b, field) || key_le(b, a, field),
{
    match field {
        SortField::Title => lex_le_total(lowercase(a.book.title@), lowercase(b.book.title@)),
        SortField::Author => lex_le_total(lowercase(author_name(a)), lowercase(author_name(b))),
        SortField::Price => {},
        SortField::DateAdded => {},
    }
}

/// The order of books under a field is transitive.
pub proof fn key_le_transitive(
    a: BookWithAuthor,
    b: BookWithAuthor,
    c: BookWithAuthor,
    field: SortField,
)
    requires
        key_le(a, b, field),
        key_le(b, c, field),
    ensures
        key_le(a, c, field),
{
    match field {
        SortField::Title => lex_le_transitive(
            lowercase(a.book.title@),
            lowercase(b.book.title@),
            lowercase(c.book.title@),
        ),
        SortField::Author => lex_le_transitive(
            lowercase(author_name(a)),
            lowercase(author_name(b)),
            lowercase(author_name(c)),
        ),
        SortField::Price => {},
        SortField::DateAdded => {},
    }
}

/// The author's name of a book, as [`author_name`] gives it.
pub fn author_name_of(book: &BookWithAuthor) -> (name: String)
    ensures
        name@ == author_name(*book),
{
    match &book.author {
        Some(author) => match &author.Name {
            Some(name) => name.clone(),
            None => String::new(),
        },
        None => String::new(),
    }
}

/// The key of one book under one field, worked out once so that books can be compared
/// without working it out again.
#[derive(Debug)]
pub enum SortKey {
    /// A title or a name, in lower case.
    Text(Vec<char>),
    /// The rank of a price.
    Amount(i64),
    /// A date, if there is one.
    Date(Option<Timestamp>),
}

/// Whether `key` is the key of `book` under `field`.
pub open spec fn is_key_of(key: SortKey, book: BookWithAuthor, field: SortField) -> bool {
    match field {
        SortField::Title => key matches SortKey::Text(text) && text@ == lowercase(
            book.book.title@,
        ),
        SortField::Author => key matches SortKey::Text(text) && text@ == lowercase(
            author_name(book),
        ),
        SortField::Price => key matches SortKey::Amount(rank) && rank == price_rank(book),
        SortField::DateAdded => key matches SortKey::Date(date) && date == book.book.added,
    }
}

/// Whether the one key is no greater than the other. Keys of different kinds are not
/// ordered.
pub open spec fn keys_le(a: SortKey, b: SortKey) -> bool {
    match (a, b) {
        (SortKey::Text(x), SortKey::Text(y)) => lex_le(x@, y@),
        (SortKey::Amount(x), SortKey::Amount(y)) => x <= y,
        (SortKey::Date(Some(x)), SortKey::Date(Some(y))) => x.not_after(y),
        (SortKey::Date(Some(_)), SortKey::Date(None)) => true,
        (SortKey::Date(None), SortKey::Date(Some(_))) => false,
        (SortKey::Date(None), SortKey::Date(None)) => true,
        _ => false,
    }
}

/// Works out the key of `book` under `field`.
pub fn key_of(book: &BookWithAuthor, field: &SortField) -> (key: SortKey)
    ensures
        is_key_of(key, *book, *field),
{
    match field {
        SortField::Title => SortKey::Text(folded(book.book.title.as_str())),
        SortField::Author => SortKey::Text(folded(author_name_of(book).as_str())),
        SortField::Price => SortKey::Amount(
            match &book.book.price {
                Some(price) => price.order_rank(),
                None => 0,
            },
        ),
        SortField::DateAdded => SortKey::Date(book.book.added),
    }
}

/// Decides [`keys_le`].
pub fn key_no_later(a: &SortKey, b: &SortKey) -> (r: bool)
    ensures
        r == keys_le(*a, *b),
{
    match (a, b) {
        (SortKey::Text(x), SortKey::Text(y)) => text_le(x, y),
        (SortKey::Amount(x), SortKey::Amount(y)) => *x <= *y,
        (SortKey::Date(Some(x)), SortKey::Date(Some(y))) => x.is_not_after(y),
        (SortKey::Date(Some(_)), SortKey::Date(None)) => true,
        (SortKey::Date(None), SortKey::Date(Some(_))) => false,
        (SortKey::Date(None), SortKey::Date(None)) => true,
        _ => false,
    }
}

/// Decides [`key_le`].
pub fn comes_no_later(a: &BookWithAuthor, b: &BookWithAuthor, field: &SortField) -> (r: bool)
    ensures
        r == key_le(*a, *b, *field),
{
    let left = key_of(a, field);
    let right = key_of(b, field);
    key_no_later(&left, &right)
}

/// Whether the book at `i` stands before the book at `j` in ascending order: it has
/// the smaller key, or the same key and the earlier place in `books`.
pub open spec fn before(books: Seq<BookWithAuthor>, field: SortField, i: int, j: int) -> bool {
    !key_le(books[j], books[i], field) || (key_le(books[i], books[j], field) && i < j)
}

/// The order `order` with the place `k` added: behind the last place whose book comes
/// no later than the book at `k`.
pub open spec fn placed(
    order: Seq<int>,
    books: Seq<BookWithAuthor>,
    field: SortField,
    k: int,
) -> Seq<int>
    decreases order.len(),
{
    if order.len() == 0 {
        seq![k]
    } else if key_le(books[order.last()], books[k], field) {
        order.push(k)
    } else {
        placed(order.drop_last(), books, field, k).push(order.last())
    }
}

/// The places of the first `n` books in ascending order of their keys, books of the
/// same key in the order in which they stand in `books`.
pub open spec fn stable_order(books: Seq<BookWithAuthor>, field: SortField, n: nat) -> Seq<int>
    decreases n,
{
    if n == 0 {
        Seq::empty()
    } else {
        placed(stable_order(books, field, (n - 1) as nat), books, field, n - 1)
    }
}

/// The books at the places that `order` lists, in that order.
pub open spec fn arranged(books: Seq<BookWithAuthor>, order: Seq<int>) -> Seq<BookWithAuthor> {
    Seq::new(order.len(), |i: int| books[order[i]])
}

/// The books in ascending order of their keys, books of the same key in the order in
/// which they stand in `books`.
pub open spec fn ascending(books: Seq<BookWithAuthor>, field: SortField) -> Seq<BookWithAuthor> {
    arranged(books, stable_order(books, field, books.len()))
}

/// The books as sorting by `field` in `direction` leaves them. Descending order is
/// ascending order read backwards.
pub open spec fn sorted(
    books: Seq<BookWithAuthor>,
    field: SortField,
    direction: SortDirection,
) -> Seq<BookWithAuthor> {
    match direction {
        SortDirection::Ascending => ascending(books, field),
        SortDirection::Descending => ascending(books, field).reverse(),
    }
}

/// Turns the list of books around: the last book becomes the first.
pub fn reverse_books(books: &mut Vec<BookWithAuthor>)
    ensures
        final(books)@ == old(books)@.reverse(),
{
    let ghost input = books@;
    let mut turned: Vec<BookWithAuthor> = Vec::new();
    while books.len() > 0
        invariant
            turned@.len() + books@.len() == input.len(),
            forall|i: int| 0 <= i < books@.len() ==> #[trigger] books@[i] == input[i],
            forall|i: int|
                0 <= i < turned@.len() ==> #[trigger] turned@[i] == input[input.len() - 1 - i],
        decreases books@.len(),
    {
        let taken = books.pop();
        match taken {
            Some(book) => turned.push(book),
            None => {},
        }
    }
    assert(turned@ =~= input.reverse());
    *books = turned;
}

/// The order `order` with the place `k` added, going by the keys alone: behind the
/// last place whose key is no greater than the key at `k`.
pub open spec fn placed_by_keys(order: Seq<int>, keys: Seq<SortKey>, k: int) -> Seq<int>
    decreases order.len(),
{
    if order.len() == 0 {
        seq![k]
    } else if keys_le(keys[order.last()], keys[k]) {
        order.push(k)
    } else {
        placed_by_keys(order.drop_last(), keys, k).push(order.last())
    }
}

/// The places of the first `n` keys in ascending order, equal keys in the order in
/// which they stand.
pub open spec fn order_by_keys(keys: Seq<SortKey>, n: nat) -> Seq<int>
    decreases n,
{
    if n == 0 {
        Seq::empty()
    } else {
        placed_by_keys(order_by_keys(keys, (n - 1) as nat), keys, n - 1)
    }
}

/// The books as sorting by the given keys in `direction` leaves them, the key at each
/// place being the key of the book at that place.
pub open spec fn sorted_by_keys(
    books: Seq<BookWithAuthor>,
    keys: Seq<SortKey>,
    direction: SortDirection,
) -> Seq<BookWithAuthor> {
    match direction {
        SortDirection::Ascending => arranged(books, order_by_keys(keys, books.len())),
        SortDirection::Descending => arranged(books, order_by_keys(keys, books.len())).reverse(),
    }
}

proof fn placed_by_keys_is_placed(
    order: Seq<int>,
    books: Seq<BookWithAuthor>,
    keys: Seq<SortKey>,
    field: SortField,
    k: int,
)
    requires
        books.len() == keys.len(),
        forall|i: int| 0 <= i < books.len() ==> is_key_of(#[trigger] keys[i], books[i], field),
        forall|a: int| 0 <= a < order.len() ==> 0 <= #[trigger] order[a] < books.len(),
        0 <= k < books.len(),
    ensures
        placed_by_keys(order, keys, k) == placed(order, books, field, k),
    decreases order.len(),
{
    if order.len() > 0 {
        let last = order[order.len() - 1];
        assert(is_key_of(keys[last], books[last], field));
        assert(is_key_of(keys[k], books[k], field));
        assert forall|a: int| 0 <= a < order.drop_last().len() implies 0
            <= #[trigger] order.drop_last()[a] < books.len() by {
            assert(order.drop_last()[a] == order[a]);
        }
        placed_by_keys_is_placed(order.drop_last(), books, keys, field, k);
    }
}

/// Ordering by the keys of the books under a field is ordering the books by that
/// field.
pub proof fn order_by_keys_is_stable_order(
    books: Seq<BookWithAuthor>,
    keys: Seq<SortKey>,
    field: SortField,
    n: nat,
)
    requires
        n <= books.len(),
        books.len() == keys.len(),
        forall|i: int| 0 <= i < books.len() ==> is_key_of(#[trigger] keys[i], books[i], field),
    ensures
        order_by_keys(keys, n) == stable_order(books, field, n),
    decreases n,
{
    if n > 0 {
        order_by_keys_is_stable_order(books, keys, field, (n - 1) as nat);
        stable_order_is_stable(books, field, (n - 1) as nat);
        placed_by_keys_is_placed(stable_order(books, field, (n - 1) as nat), books, keys, field, n - 1);
    }
}

/// Sorts the books by the given keys in `direction`, in place, the key at each place
/// being the key of the book at that place. Where there are not as many keys as
/// books, the books stay as they are.
pub fn sort_by_keys(books: &mut Vec<BookWithAuthor>, keys: Vec<SortKey>, direction: &SortDirection)
    ensures
        final(books)@ == if keys@.len() == old(books)@.len() {
            sorted_by_keys(old(books)@, keys@, *direction)
        } else {
            old(books)@
        },
{
    let ghost input = books@;
    let ghost given = keys@;
    let ghost mut order: Seq<int> = Seq::empty();
    let n = books.len();
    if keys.len() != n {
        return ;
    }
    let mut keys = keys;
    let mut k: usize = 0;
    while k < n
        invariant
            k <= n,
            n == input.len(),
            n == given.len(),
            books@.len() == n,
            keys@.len() == n,
            order == order_by_keys(given, k as nat),
            order.len() == k,
            forall|i: int| 0 <= i < k ==> #[trigger] books@[i] == input[order[i]],
            forall|i: int| k <= i < n ==> #[trigger] books@[i] == input[i],
            forall|i: int| 0 <= i < k ==> #[trigger] keys@[i] == given[order[i]],
            forall|i: int| k <= i < n ==> #[trigger] keys@[i] == given[i],
        decreases n - k,
    {
        let mut pos: usize = k;
        let mut searching = true;
        assert(order.take(k as int) =~= order && order.skip(k as int) =~= Seq::<int>::empty());
        assert(placed_by_keys(order, given, k as int) =~= placed_by_keys(order, given, k as int)
            + Seq::<int>::empty());
        while searching && pos > 0
            invariant
                pos <= k,
                k < n,
                n == given.len(),
                keys@.len() == n,
                order.len() == k,
                forall|i: int| 0 <= i < k ==> #[trigger] keys@[i] == given[order[i]],
                keys@[k as int] == given[k as int],
                placed_by_keys(order, given, k as int) == placed_by_keys(
                    order.take(pos as int),
                    given,
                    k as int,
                ) + order.skip(pos as int),
                !searching ==> pos > 0 && keys_le(given[order[pos - 1]], given[k as int]),
            decreases pos + (if searching { 1int } else { 0int }),
        {
            assert(keys@[pos - 1] == given[order[pos - 1]]);
            if key_no_later(&keys[pos - 1], &keys[k]) {
                searching = false;
            } else {
                proof {
                    let head = order.take(pos as int);
                    assert(head.last() == order[pos - 1]);
                    assert(head.drop_last() =~= order.take(pos - 1));
                    assert(placed_by_keys(head, given, k as int) == placed_by_keys(
                        order.take(pos - 1),
                        given,
                        k as int,
                    ).push(order[pos - 1]));
                    assert(placed_by_keys(order.take(pos - 1), given, k as int).push(
                        order[pos - 1],
                    ) + order.skip(pos as int) =~= placed_by_keys(
                        order.take(pos - 1),
                        given,
                        k as int,
                    ) + order.skip(pos - 1));
                }
                pos -= 1;
            }
        }
        proof {
            let head = order.take(pos as int);
            if pos > 0 {
                assert(head.last() == order[pos - 1]);
            }
            assert(placed_by_keys(head, given, k as int) == head.push(k as int));
        }
        let ghost earlier = books@;
        let ghost earlier_keys = keys@;
        let book = books.remove(k);
        books.insert(pos, book);
        let key = keys.remove(k);
        keys.insert(pos, key);
        proof {
            let next = order.take(pos as int).push(k as int) + order.skip(pos as int);
            assert(next == order_by_keys(given, (k + 1) as nat));
            assert forall|i: int| 0 <= i < k + 1 implies #[trigger] books@[i] == input[next[i]] by {
                if i < pos {
                    assert(books@[i] == earlier[i]);
                } else if i > pos {
                    assert(books@[i] == earlier[i - 1]);
                    assert(next[i] == order[i - 1]);
                }
            }
            assert forall|i: int| k + 1 <= i < n implies #[trigger] books@[i] == input[i] by {
                assert(books@[i] == earlier[i]);
            }
            assert forall|i: int| 0 <= i < k + 1 implies #[trigger] keys@[i] == given[next[i]] by {
                if i < pos {
                    assert(keys@[i] == earlier_keys[i]);
                } else if i > pos {
                    assert(keys@[i] == earlier_keys[i - 1]);
                    assert(next[i] == order[i - 1]);
                }
            }
            assert forall|i: int| k + 1 <= i < n implies #[trigger] keys@[i] == given[i] by {
                assert(keys@[i] == earlier_keys[i]);
            }
            order = next;
        }
        k += 1;
    }
    assert(books@ =~= arranged(input, order_by_keys(given, n as nat)));
    match direction {
        SortDirection::Ascending => {},
        SortDirection::Descending => reverse_books(books),
    }
}

/// The keys of the books under a field, place by place.
pub fn keys_of(books: &Vec<BookWithAuthor>, field: &SortField) -> (keys: Vec<SortKey>)
    ensures
        keys@.len() == books@.len(),
        forall|i: int| 0 <= i < books@.len() ==> is_key_of(#[trigger] keys@[i], books@[i], *field),
{
    let mut keys: Vec<SortKey> = Vec::new();
    let mut i: usize = 0;
    while i < books.len()
        invariant
            i <= books.len(),
            keys@.len() == i,
            forall|j: int| 0 <= j < i ==> is_key_of(#[trigger] keys@[j], books@[j], *field),
        decreases books.len() - i,
    {
        keys.push(key_of(&books[i], field));
        i += 1;
    }
    keys
}

/// Sorts the books by `field` in `direction`, in place.
///
/// Ascending order puts smaller keys first and leaves books of the same key in the
/// order in which they stood. Descending order is ascending order read backwards.
pub fn sort_books(books: &mut Vec<BookWithAuthor>, field: &SortField, direction: &SortDirection)
    ensures
        final(books)@ == sorted(old(books)@, *field, *direction),
{
    let keys = keys_of(books, field);
    proof {
        order_by_keys_is_stable_order(books@, keys@, *field, books@.len());
    }
    sort_by_keys(books, keys, direction);
}

/// Whether `order` is the stable ascending order of the first `n` books: it lists
/// each of the places `0..n`, and lists none twice; and each place it lists stands
/// [`before`] every place it lists later, so that smaller keys come first and equal
/// keys in the order of the places.
pub open spec fn is_stable_order(
    order: Seq<int>,
    books: Seq<BookWithAuthor>,
    field: SortField,
    n: int,
) -> bool {
    &&& order.len() == n
    &&& forall|a: int| 0 <= a < order.len() ==> 0 <= #[trigger] order[a] < n
    &&& forall|i: int| 0 <= i < n ==> order.contains(i)
    &&& forall|a: int, b: int|
        0 <= a < b < order.len() ==> #[trigger] order[a] != #[trigger] order[b]
    &&& forall|a: int, b: int|
        0 <= a < b < order.len() ==> before(books, field, #[trigger] order[a], #[trigger] order[b])
}

proof fn placed_keeps_order(order: Seq<int>, books: Seq<BookWithAuthor>, field: SortField, k: int)
    requires
        0 <= k < books.len(),
        forall|a: int| 0 <= a < order.len() ==> 0 <= #[trigger] order[a] < k,
        forall|a: int, b: int|
            0 <= a < b < order.len() ==> before(
                books,
                field,
                #[trigger] order[a],
                #[trigger] order[b],
            ),
    ensures
        placed(order, books, field, k).len() == order.len() + 1,
        forall|a: int|
            0 <= a < order.len() + 1 ==> 0 <= #[trigger] placed(order, books, field, k)[a] <= k,
        forall|a: int|
            0 <= a < order.len() + 1 ==> (#[trigger] placed(order, books, field, k)[a] == k
                || order.contains(placed(order, books, field, k)[a])),
        placed(order, books, field, k).contains(k),
        forall|x: int| order.contains(x) ==> placed(order, books, field, k).contains(x),
        forall|a: int, b: int|
            0 <= a < b < order.len() + 1 ==> before(
                books,
                field,
                #[trigger] placed(order, books, field, k)[a],
                #[trigger] placed(order, books, field, k)[b],
            ),
    decreases order.len(),
{
    let p = placed(order, books, field, k);
    if order.len() == 0 {
        assert(p[0] == k);
    } else if key_le(books[order.last()], books[k], field) {
        let last = order.len() - 1;
        assert(p == order.push(k));
        assert(p[order.len() as int] == k);
        assert forall|a: int| 0 <= a < order.len() + 1 implies (#[trigger] p[a] == k
            || order.contains(p[a])) by {
            if a < order.len() {
                assert(order[a] == p[a]);
            }
        }
        assert forall|x: int| order.contains(x) implies p.contains(x) by {
            let i = choose|i: int| 0 <= i < order.len() && order[i] == x;
            assert(p[i] == x);
        }
        assert forall|a: int, b: int| 0 <= a < b < order.len() + 1 implies before(
            books,
            field,
            #[trigger] p[a],
            #[trigger] p[b],
        ) by {
            if b < order.len() {
                assert(before(books, field, order[a], order[b]));
            } else {
                if a < last {
                    assert(before(books, field, order[a], order[last]));
                    key_le_total(books[order[a]], books[order[last]], field);
                    key_le_transitive(books[order[a]], books[order[last]], books[k], field);
                }
                assert(order[a] < k);
            }
        }
    } else {
        let rest = order.drop_last();
        let last = order.len() - 1;
        let q = placed(rest, books, field, k);
        assert forall|a: int| 0 <= a < rest.len() implies 0 <= #[trigger] rest[a] < k by {
            assert(rest[a] == order[a]);
        }
        assert forall|a: int, b: int| 0 <= a < b < rest.len() implies before(
            books,
            field,
            #[trigger] rest[a],
            #[trigger] rest[b],
        ) by {
            assert(before(books, field, order[a], order[b]));
        }
        placed_keeps_order(rest, books, field, k);
        assert(p == q.push(order.last()));
        assert forall|a: int| 0 <= a < order.len() + 1 implies 0 <= #[trigger] p[a] <= k by {
            if a < q.len() {
                assert(p[a] == q[a]);
            } else {
                assert(p[a] == order[last]);
            }
        }
        assert forall|a: int| 0 <= a < order.len() + 1 implies (#[trigger] p[a] == k
            || order.contains(p[a])) by {
            if a < q.len() {
                assert(p[a] == q[a]);
                if q[a] != k {
                    assert(rest.contains(q[a]));
                    let i = choose|i: int| 0 <= i < rest.len() && rest[i] == q[a];
                    assert(order[i] == q[a]);
                }
            } else {
                assert(p[a] == order[last]);
            }
        }
        assert(p.contains(k)) by {
            let i = choose|i: int| 0 <= i < q.len() && q[i] == k;
            assert(p[i] == k);
        }
        assert forall|x: int| order.contains(x) implies p.contains(x) by {
            let i = choose|i: int| 0 <= i < order.len() && order[i] == x;
            if i < last {
                assert(rest[i] == x);
                assert(rest.contains(x));
                assert(q.contains(x));
                let j = choose|j: int| 0 <= j < q.len() && q[j] == x;
                assert(p[j] == x);
            } else {
                assert(p[q.len() as int] == x);
            }
        }
        assert forall|a: int, b: int| 0 <= a < b < order.len() + 1 implies before(
            books,
            field,
            #[trigger] p[a],
            #[trigger] p[b],
        ) by {
            if b < q.len() {
                assert(p[a] == q[a] && p[b] == q[b]);
                assert(before(books, field, q[a], q[b]));
            } else {
                assert(p[b] == order[last]);
                assert(p[a] == q[a]);
                if q[a] != k {
                    assert(rest.contains(q[a]));
                    let i = choose|i: int| 0 <= i < rest.len() && rest[i] == q[a];
                    assert(order[i] == q[a]);
                    assert(before(books, field, order[i], order[last]));
                }
            }
        }
    }
}

/// The order that [`stable_order`] gives lists every place once, smaller keys first
/// and equal keys in the order of the input.
pub proof fn stable_order_is_stable(books: Seq<BookWithAuthor>, field: SortField, n: nat)
    requires
        n <= books.len(),
    ensures
        is_stable_order(stable_order(books, field, n), books, field, n as int),
    decreases n,
{
    if n > 0 {
        let prev = stable_order(books, field, (n - 1) as nat);
        stable_order_is_stable(books, field, (n - 1) as nat);
        placed_keeps_order(prev, books, field, n - 1);
        let order = stable_order(books, field, n);
        assert forall|a: int| 0 <= a < order.len() implies 0 <= #[trigger] order[a] < n by {}
        assert forall|i: int| 0 <= i < n implies order.contains(i) by {
            if i < n - 1 {
                assert(prev.contains(i));
            }
        }
        assert forall|a: int, b: int| 0 <= a < b < order.len() implies #[trigger] order[a]
            != #[trigger] order[b] by {
            assert(before(books, field, order[a], order[b]));
            key_le_total(books[order[a]], books[order[a]], field);
        }
    }
}

proof fn placed_at_the_boundary(
    left: Seq<int>,
    right: Seq<int>,
    books: Seq<BookWithAuthor>,
    field: SortField,
    k: int,
)
    requires
        forall|a: int| 0 <= a < left.len() ==> key_le(books[#[trigger] left[a]], books[k], field),
        forall|b: int|
            0 <= b < right.len() ==> !key_le(books[#[trigger] right[b]], books[k], field),
    ensures
        placed(left + right, books, field, k) == left.push(k) + right,
    decreases right.len(),
{
    let whole = left + right;
    if right.len() == 0 {
        assert(whole =~= left);
        if left.len() > 0 {
            assert(key_le(books[left[left.len() - 1]], books[k], field));
        }
        assert(left.push(k) + right =~= left.push(k));
        if left.len() == 0 {
            assert(left.push(k) =~= seq![k]);
        }
    } else {
        assert(whole.last() == right[right.len() - 1]);
        assert(whole.drop_last() =~= left + right.drop_last());
        assert forall|b: int| 0 <= b < right.drop_last().len() implies !key_le(
            books[#[trigger] right.drop_last()[b]],
            books[k],
            field,
        ) by {
            assert(right.drop_last()[b] == right[b]);
        }
        placed_at_the_boundary(left, right.drop_last(), books, field, k);
        assert((left.push(k) + right.drop_last()).push(right.last()) =~= left.push(k) + right);
    }
}

/// There is one stable ascending order only: an order that [`is_stable_order`] is the
/// order that [`stable_order`] gives.
pub proof fn stable_order_is_unique(
    order: Seq<int>,
    books: Seq<BookWithAuthor>,
    field: SortField,
    n: nat,
)
    requires
        n <= books.len(),
        is_stable_order(order, books, field, n as int),
    ensures
        order == stable_order(books, field, n),
    decreases n,
{
    if n == 0 {
        assert(order =~= Seq::<int>::empty());
    } else {
        let k = n - 1;
        assert(order.contains(k));
        let pos = choose|pos: int| 0 <= pos < order.len() && order[pos] == k;
        let left = order.take(pos);
        let right = order.skip(pos + 1);
        let rest = left + right;
        assert(order =~= left.push(k) + right);
        assert forall|a: int| 0 <= a < rest.len() implies 0 <= #[trigger] rest[a] < k by {
            if a < pos {
                assert(rest[a] == order[a]);
                assert(order[a] != order[pos]);
            } else {
                assert(rest[a] == order[a + 1]);
                assert(order[pos] != order[a + 1]);
            }
        }
        assert forall|i: int| 0 <= i < k implies rest.contains(i) by {
            assert(order.contains(i));
            let at = choose|at: int| 0 <= at < order.len() && order[at] == i;
            if at < pos {
                assert(rest[at] == i);
            } else {
                assert(rest[at - 1] == i);
            }
        }
        assert forall|a: int, b: int| 0 <= a < b < rest.len() implies #[trigger] rest[a]
            != #[trigger] rest[b] && before(books, field, rest[a], rest[b]) by {
            let x = if a < pos {
                a
            } else {
                a + 1
            };
            let y = if b < pos {
                b
            } else {
                b + 1
            };
            assert(rest[a] == order[x] && rest[b] == order[y]);
            assert(order[x] != order[y]);
            assert(before(books, field, order[x], order[y]));
        }
        stable_order_is_unique(rest, books, field, k as nat);
        assert forall|a: int| 0 <= a < left.len() implies key_le(
            books[#[trigger] left[a]],
            books[k],
            field,
        ) by {
            assert(left[a] == order[a]);
            assert(before(books, field, order[a], order[pos]));
            assert(order[a] != order[pos]);
            key_le_total(books[order[a]], books[k], field);
        }
        assert forall|b: int| 0 <= b < right.len() implies !key_le(
            books[#[trigger] right[b]],
            books[k],
            field,
        ) by {
            assert(right[b] == order[pos + 1 + b]);
            assert(before(books, field, order[pos], order[pos + 1 + b]));
            assert(0 <= order[pos + 1 + b] < n);
        }
        placed_at_the_boundary(left, right, books, field, k);
    }
}

/// Descending order is in order too: a book never stands before one with a greater
/// key.
pub proof fn descending_is_ordered(books: Seq<BookWithAuthor>, field: SortField, a: int, b: int)
    requires
        0 <= a <= b < books.len(),
    ensures
        key_le(
            sorted(books, field, SortDirection::Descending)[b],
            sorted(books, field, SortDirection::Descending)[a],
            field,
        ),
{
    stable_order_is_stable(books, field, books.len());
    ascending_is_ordered(books, field, books.len() - 1 - b, books.len() - 1 - a);
}

/// Sorting in descending order gives the exact reverse of sorting in ascending order.
pub proof fn descending_mirrors_ascending(books: Seq<BookWithAuthor>, field: SortField)
    ensures
        sorted(books, field, SortDirection::Descending) == sorted(
            books,
            field,
            SortDirection::Ascending,
        ).reverse(),
        sorted(books, field, SortDirection::Ascending) == sorted(
            books,
            field,
            SortDirection::Descending,
        ).reverse(),
{
    let up = ascending(books, field);
    assert(up.reverse().reverse() =~= up);
}

/// Whether the book at place `i` of the input stands at some place of the result of
/// sorting.
pub open spec fn is_kept(
    books: Seq<BookWithAuthor>,
    field: SortField,
    direction: SortDirection,
    i: int,
) -> bool {
    exists|a: int| 0 <= a < books.len() && #[trigger] origin(books, field, direction, a) == i
}

/// Sorting keeps every book, and adds none: the result has the length of the input,
/// the book at each place of the result is the book at its [`origin`] in the input,
/// no two places of the result have the same origin, and every place of the input is
/// the origin of a place of the result.
pub proof fn sorted_rearranges(
    books: Seq<BookWithAuthor>,
    field: SortField,
    direction: SortDirection,
)
    ensures
        sorted(books, field, direction).len() == books.len(),
        forall|a: int|
            0 <= a < books.len() ==> 0 <= #[trigger] origin(books, field, direction, a)
                < books.len(),
        forall|a: int|
            0 <= a < books.len() ==> #[trigger] sorted(books, field, direction)[a]
                == books[origin(books, field, direction, a)],
        forall|a: int, b: int|
            0 <= a < b < books.len() ==> #[trigger] origin(books, field, direction, a)
                != #[trigger] origin(books, field, direction, b),
        forall|i: int| 0 <= i < books.len() ==> #[trigger] is_kept(books, field, direction, i),
{
    stable_order_is_stable(books, field, books.len());
    let order = stable_order(books, field, books.len());
    let n = books.len() as int;
    assert forall|a: int, b: int| 0 <= a < b < n implies #[trigger] origin(
        books,
        field,
        direction,
        a,
    ) != #[trigger] origin(books, field, direction, b) by {
        match direction {
            SortDirection::Ascending => {
                assert(order[a] != order[b]);
            },
            SortDirection::Descending => {
                assert(order[n - 1 - b] != order[n - 1 - a]);
            },
        }
    }
    assert forall|i: int| 0 <= i < n implies #[trigger] is_kept(books, field, direction, i) by {
        assert(order.contains(i));
        let at = choose|at: int| 0 <= at < order.len() && order[at] == i;
        match direction {
            SortDirection::Ascending => {
                assert(origin(books, field, direction, at) == i);
            },
            SortDirection::Descending => {
                assert(origin(books, field, direction, n - 1 - at) == i);
            },
        }
    }
}

/// Ascending order is in order: a book never stands before one with a smaller key.
pub proof fn ascending_is_ordered(books: Seq<BookWithAuthor>, field: SortField, a: int, b: int)
    requires
        0 <= a <= b < books.len(),
    ensures
        key_le(ascending(books, field)[a], ascending(books, field)[b], field),
{
    stable_order_is_stable(books, field, books.len());
    let order = stable_order(books, field, books.len());
    if a < b {
        assert(before(books, field, order[a], order[b]));
    }
    key_le_total(books[order[a]], books[order[b]], field);
}

/// Whether no two books of `books` have the same key under `field`.
pub open spec fn keys_differ(books: Seq<BookWithAuthor>, field: SortField) -> bool {
    forall|i: int, j: int|
        0 <= i < j < books.len() ==> !key_eq(#[trigger] books[i], #[trigger] books[j], field)
}

/// The place in the input of the book that sorting puts at place `a`.
pub open spec fn origin(
    books: Seq<BookWithAuthor>,
    field: SortField,
    direction: SortDirection,
    a: int,
) -> int {
    let order = stable_order(books, field, books.len());
    match direction {
        SortDirection::Ascending => order[a],
        SortDirection::Descending => order[books.len() - 1 - a],
    }
}

/// Sorting is stable: of two books with the same key, the one that stood first in the
/// input stands first in the result. This holds of ascending order, and of descending
/// order where no two books have the same key.
pub proof fn sorting_is_stable(
    books: Seq<BookWithAuthor>,
    field: SortField,
    direction: SortDirection,
    a: int,
    b: int,
)
    requires
        direction == SortDirection::Ascending || keys_differ(books, field),
        0 <= a < b < books.len(),
        key_eq(sorted(books, field, direction)[a], sorted(books, field, direction)[b], field),
    ensures
        sorted(books, field, direction)[a] == books[origin(books, field, direction, a)],
        sorted(books, field, direction)[b] == books[origin(books, field, direction, b)],
        origin(books, field, direction, a) < origin(books, field, direction, b),
{
    stable_order_is_stable(books, field, books.len());
    let order = stable_order(books, field, books.len());
    let n = books.len() as int;
    match direction {
        SortDirection::Ascending => {
            assert(before(books, field, order[a], order[b]));
        },
        SortDirection::Descending => {
            let x = order[n - 1 - b];
            let y = order[n - 1 - a];
            assert(before(books, field, x, y));
            assert(x != y);
            if x < y {
                assert(!key_eq(books[x], books[y], field));
            } else {
                assert(!key_eq(books[y], books[x], field));
            }
        },
    }
}

/// In descending order, books with the same key stand in the reverse of the order in
/// which they stood in the input.
pub proof fn descending_reverses_ties(
    books: Seq<BookWithAuthor>,
    field: SortField,
    a: int,
    b: int,
)
    requires
        0 <= a < b < books.len(),
        key_eq(
            sorted(books, field, SortDirection::Descending)[a],
            sorted(books, field, SortDirection::Descending)[b],
            field,
        ),
    ensures
        origin(books, field, SortDirection::Descending, a) > origin(
            books,
            field,
            SortDirection::Descending,
            b,
        ),
{
    stable_order_is_stable(books, field, books.len());
    let order = stable_order(books, field, books.len());
    let n = books.len() as int;
    assert(before(books, field, order[n - 1 - b], order[n - 1 - a]));
}

} // verus!
