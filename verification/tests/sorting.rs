use bookshelf::messages::{SortDirection, SortField};
use bookshelf::models::{AuthorModel, BookModel, BookWithAuthor, Price, Timestamp};
use bookshelf::sorting::{
    author_name_of, comes_no_later, key_no_later, key_of, keys_of, reverse_books, sort_books,
    sort_by_keys, SortKey,
};

fn price(value: f32) -> Price {
    Price { bits: value.to_bits(), text: value.to_string() }
}

fn book(id: i32, title: &str) -> BookWithAuthor {
    BookWithAuthor {
        book: BookModel {
            id,
            title: title.to_string(),
            price: None,
            bought: None,
            finished: None,
            added: None,
            AuthorFK: None,
        },
        author: None,
    }
}

fn by(mut book: BookWithAuthor, id: i32, name: Option<&str>) -> BookWithAuthor {
    book.book.AuthorFK = Some(id);
    book.author = Some(AuthorModel { Id: id, Name: name.map(|n| n.to_string()) });
    book
}

fn priced(mut book: BookWithAuthor, value: f32) -> BookWithAuthor {
    book.book.price = Some(price(value));
    book
}

fn added(mut book: BookWithAuthor, secs: i64) -> BookWithAuthor {
    book.book.added = Some(Timestamp { secs, nanos: 0 });
    book
}

fn ids(books: &[BookWithAuthor]) -> Vec<i32> {
    books.iter().map(|b| b.book.id).collect()
}

fn sorted_ids(books: &[BookWithAuthor], field: SortField, direction: SortDirection) -> Vec<i32> {
    let mut copy: Vec<BookWithAuthor> = books.to_vec();
    sort_books(&mut copy, &field, &direction);
    ids(&copy)
}

#[test]
fn titles_are_ordered_without_regard_to_case() {
    let books = vec![book(1, "Banana"), book(2, "apple"), book(3, "cherry")];
    assert_eq!(sorted_ids(&books, SortField::Title, SortDirection::Ascending), vec![2, 1, 3]);
    assert_eq!(sorted_ids(&books, SortField::Title, SortDirection::Descending), vec![3, 1, 2]);
}

#[test]
fn a_prefix_comes_before_the_longer_title() {
    let books = vec![book(1, "Dune Messiah"), book(2, "Dune"), book(3, "")];
    assert_eq!(sorted_ids(&books, SortField::Title, SortDirection::Ascending), vec![3, 2, 1]);
}

#[test]
fn titles_beyond_ascii_are_ordered_by_their_lower_case() {
    let books = vec![book(1, "Öl"), book(2, "ähre"), book(3, "Zebra")];
    assert_eq!(sorted_ids(&books, SortField::Title, SortDirection::Ascending), vec![3, 2, 1]);
}

#[test]
fn books_without_an_author_come_first_by_author() {
    let books = vec![
        by(book(1, "x"), 10, Some("Zola")),
        book(2, "y"),
        by(book(3, "z"), 11, Some("austen")),
        by(book(4, "w"), 12, None),
    ];
    assert_eq!(sorted_ids(&books, SortField::Author, SortDirection::Ascending), vec![2, 4, 3, 1]);
    assert_eq!(sorted_ids(&books, SortField::Author, SortDirection::Descending), vec![1, 3, 4, 2]);
}

#[test]
fn author_name_of_gives_the_name_or_nothing() {
    assert_eq!(author_name_of(&by(book(1, "x"), 10, Some("Zola"))), "Zola");
    assert_eq!(author_name_of(&by(book(1, "x"), 10, None)), "");
    assert_eq!(author_name_of(&book(1, "x")), "");
}

#[test]
fn a_book_without_a_price_is_ordered_as_free() {
    let books = vec![
        priced(book(1, "a"), 41.99),
        book(2, "b"),
        priced(book(3, "c"), 5.0),
        priced(book(4, "d"), -1.0),
    ];
    assert_eq!(sorted_ids(&books, SortField::Price, SortDirection::Ascending), vec![4, 2, 3, 1]);
    assert_eq!(sorted_ids(&books, SortField::Price, SortDirection::Descending), vec![1, 3, 2, 4]);
}

#[test]
fn prices_are_ordered_by_amount_not_by_text() {
    let books = vec![priced(book(1, "a"), 10.0), priced(book(2, "b"), 9.5), priced(book(3, "c"), 100.0)];
    assert_eq!(sorted_ids(&books, SortField::Price, SortDirection::Ascending), vec![2, 1, 3]);
}

#[test]
fn a_free_book_and_a_book_without_a_price_keep_their_order() {
    let books = vec![book(1, "a"), priced(book(2, "b"), 0.0), priced(book(3, "c"), -0.0), book(4, "d")];
    assert_eq!(sorted_ids(&books, SortField::Price, SortDirection::Ascending), vec![1, 2, 3, 4]);
}

#[test]
fn a_missing_date_counts_as_the_latest() {
    let a = added(book(1, "A"), 1704067200);
    let b = book(2, "B");
    let c = added(book(3, "C"), 1685577600);
    let books = vec![a, b, c];
    assert_eq!(sorted_ids(&books, SortField::DateAdded, SortDirection::Ascending), vec![3, 1, 2]);
    assert_eq!(sorted_ids(&books, SortField::DateAdded, SortDirection::Descending), vec![2, 1, 3]);
}

#[test]
fn dates_in_the_same_second_are_ordered_by_nanoseconds() {
    let mut early = added(book(1, "a"), 100);
    early.book.added = Some(Timestamp { secs: 100, nanos: 5 });
    let mut late = added(book(2, "b"), 100);
    late.book.added = Some(Timestamp { secs: 100, nanos: 900 });
    let before = added(book(3, "c"), 99);
    let books = vec![late, early, before];
    assert_eq!(sorted_ids(&books, SortField::DateAdded, SortDirection::Ascending), vec![3, 1, 2]);
}

#[test]
fn descending_is_the_reverse_of_ascending() {
    let books = vec![
        priced(by(added(book(1, "delta"), 5), 1, Some("b")), 3.0),
        priced(by(book(2, "Alpha"), 2, Some("B")), 3.0),
        by(added(book(3, "alpha"), 5), 3, Some("a")),
        added(book(4, "charlie"), 1),
        priced(book(5, "Bravo"), 7.25),
    ];
    for field in [SortField::Title, SortField::Author, SortField::Price, SortField::DateAdded] {
        let up = sorted_ids(&books, field, SortDirection::Ascending);
        let mut down = sorted_ids(&books, field, SortDirection::Descending);
        down.reverse();
        assert_eq!(up, down);
    }
}

#[test]
fn ascending_order_is_stable() {
    let books = vec![book(1, "same"), book(2, "Same"), book(3, "SAME"), book(4, "a"), book(5, "same")];
    assert_eq!(sorted_ids(&books, SortField::Title, SortDirection::Ascending), vec![4, 1, 2, 3, 5]);
    assert_eq!(sorted_ids(&books, SortField::Price, SortDirection::Ascending), vec![1, 2, 3, 4, 5]);
    assert_eq!(sorted_ids(&books, SortField::DateAdded, SortDirection::Ascending), vec![1, 2, 3, 4, 5]);
}

#[test]
fn descending_order_turns_ties_around() {
    let books = vec![book(1, "same"), book(2, "Same"), book(3, "zebra")];
    assert_eq!(sorted_ids(&books, SortField::Title, SortDirection::Descending), vec![3, 2, 1]);
}

#[test]
fn sorting_keeps_every_book() {
    let books = vec![book(7, "c"), book(7, "a"), book(9, "b"), book(7, "a")];
    let mut sorted = sorted_ids(&books, SortField::Title, SortDirection::Ascending);
    assert_eq!(sorted, vec![7, 7, 9, 7]);
    sorted.sort();
    assert_eq!(sorted, vec![7, 7, 7, 9]);
}

#[test]
fn an_empty_list_and_a_single_book_stay_as_they_are() {
    let mut none: Vec<BookWithAuthor> = Vec::new();
    sort_books(&mut none, &SortField::Title, &SortDirection::Descending);
    assert!(none.is_empty());
    let one = vec![book(1, "only")];
    assert_eq!(sorted_ids(&one, SortField::Author, SortDirection::Descending), vec![1]);
}

#[test]
fn comes_no_later_compares_the_keys() {
    let cheap = priced(book(1, "b"), 1.5);
    let dear = priced(book(2, "A"), 2.5);
    assert!(comes_no_later(&cheap, &dear, &SortField::Price));
    assert!(!comes_no_later(&dear, &cheap, &SortField::Price));
    assert!(comes_no_later(&dear, &cheap, &SortField::Title));
    assert!(!comes_no_later(&cheap, &dear, &SortField::Title));
    assert!(comes_no_later(&cheap, &dear, &SortField::Author));
    assert!(comes_no_later(&dear, &cheap, &SortField::Author));
    assert!(comes_no_later(&added(book(3, "x"), 1), &book(4, "y"), &SortField::DateAdded));
    assert!(!comes_no_later(&book(4, "y"), &added(book(3, "x"), 1), &SortField::DateAdded));
}

#[test]
fn reverse_books_turns_the_list_around() {
    let mut books = vec![book(1, "a"), book(2, "b"), book(3, "c")];
    reverse_books(&mut books);
    assert_eq!(ids(&books), vec![3, 2, 1]);
}

fn text_key(text: &str) -> SortKey {
    SortKey::Text(text.chars().collect())
}

#[test]
fn books_are_ordered_by_the_keys_they_are_given() {
    let mut books = vec![book(1, "x"), book(2, "x"), book(3, "x"), book(4, "x")];
    let keys = vec![text_key("pear"), text_key("apple"), text_key("pear"), text_key("fig")];
    sort_by_keys(&mut books, keys, &SortDirection::Ascending);
    assert_eq!(ids(&books), vec![2, 4, 1, 3]);
    let mut books = vec![book(1, "x"), book(2, "x"), book(3, "x"), book(4, "x")];
    let keys = vec![SortKey::Amount(5), SortKey::Amount(-1), SortKey::Amount(5), SortKey::Amount(0)];
    sort_by_keys(&mut books, keys, &SortDirection::Descending);
    assert_eq!(ids(&books), vec![3, 1, 4, 2]);
}

#[test]
fn too_few_keys_leave_the_books_as_they_are() {
    let mut books = vec![book(2, "b"), book(1, "a")];
    sort_by_keys(&mut books, vec![text_key("b")], &SortDirection::Ascending);
    assert_eq!(ids(&books), vec![2, 1]);
    sort_by_keys(&mut books, Vec::new(), &SortDirection::Descending);
    assert_eq!(ids(&books), vec![2, 1]);
}

#[test]
fn keys_are_the_lower_case_text_the_rank_or_the_date() {
    let dune = priced(by(added(book(1, "DUNE"), 7), 3, Some("Frank HERBERT")), 5.0);
    assert!(matches!(key_of(&dune, &SortField::Title), SortKey::Text(t) if t == "dune".chars().collect::<Vec<char>>()));
    assert!(matches!(key_of(&dune, &SortField::Author), SortKey::Text(t) if t == "frank herbert".chars().collect::<Vec<char>>()));
    assert!(matches!(key_of(&dune, &SortField::Price), SortKey::Amount(0x40a0_0000)));
    assert!(matches!(key_of(&dune, &SortField::DateAdded), SortKey::Date(Some(Timestamp { secs: 7, nanos: 0 }))));
    assert!(matches!(key_of(&book(2, "x"), &SortField::Price), SortKey::Amount(0)));
    assert!(matches!(key_of(&book(2, "x"), &SortField::DateAdded), SortKey::Date(None)));
    assert!(matches!(key_of(&book(2, "x"), &SortField::Author), SortKey::Text(t) if t.is_empty()));
    let keys = keys_of(&vec![book(1, "B"), book(2, "a")], &SortField::Title);
    assert_eq!(keys.len(), 2);
    assert!(key_no_later(&keys[1], &keys[0]));
    assert!(!key_no_later(&keys[0], &keys[1]));
}

#[test]
fn keys_of_different_kinds_are_not_ordered() {
    assert!(!key_no_later(&text_key("a"), &SortKey::Amount(1)));
    assert!(!key_no_later(&SortKey::Amount(1), &SortKey::Date(None)));
    assert!(key_no_later(&SortKey::Date(Some(Timestamp { secs: 1, nanos: 0 })), &SortKey::Date(None)));
    assert!(!key_no_later(&SortKey::Date(None), &SortKey::Date(Some(Timestamp { secs: 1, nanos: 0 }))));
    assert!(key_no_later(&SortKey::Date(None), &SortKey::Date(None)));
}
