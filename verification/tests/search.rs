use bookshelf::models::{AuthorModel, BookModel, BookWithAuthor, Price, PriceInput};
use bookshelf::search::{answers, filter_books, price_answers};
use bookshelf::text::folded;

fn price(value: f32) -> Price {
    Price { bits: value.to_bits(), text: value.to_string() }
}

fn query(text: &str) -> PriceInput {
    PriceInput { text: text.to_string(), price: text.to_lowercase().parse::<f32>().ok().map(price) }
}

fn book(id: i32, title: &str, author: Option<&str>, cost: Option<f32>) -> BookWithAuthor {
    BookWithAuthor {
        book: BookModel {
            id,
            title: title.to_string(),
            price: cost.map(price),
            bought: None,
            finished: None,
            added: None,
            AuthorFK: author.map(|_| id),
        },
        author: author.map(|name| AuthorModel { Id: id, Name: Some(name.to_string()) }),
    }
}

fn found(books: &Vec<BookWithAuthor>, text: &str) -> Vec<i32> {
    filter_books(books, &query(text)).iter().map(|b| b.book.id).collect()
}

#[test]
fn a_price_is_found_by_how_it_begins() {
    let books = vec![book(1, "first", None, Some(41.99)), book(2, "second", None, Some(5.00))];
    assert_eq!(found(&books, "41"), vec![1]);
    assert_eq!(found(&books, "5"), vec![2]);
    assert_eq!(found(&books, "abc"), Vec::<i32>::new());
}

#[test]
fn a_price_is_found_by_its_amount_however_written() {
    let books = vec![book(1, "x", None, Some(5.0)), book(2, "y", None, Some(0.5))];
    assert_eq!(found(&books, "5.00"), vec![1]);
    assert_eq!(found(&books, "05"), vec![1]);
    assert_eq!(found(&books, ".5"), vec![2]);
    assert_eq!(found(&books, "5E-1"), vec![2]);
}

#[test]
fn zero_is_found_whatever_its_sign() {
    let books = vec![book(1, "x", None, Some(-0.0)), book(2, "y", None, Some(3.0))];
    assert_eq!(found(&books, "0"), vec![1]);
}

#[test]
fn a_number_in_the_middle_of_a_price_does_not_match() {
    let books = vec![book(1, "x", None, Some(41.99))];
    assert_eq!(found(&books, "1.9"), Vec::<i32>::new());
    assert_eq!(found(&books, "99"), Vec::<i32>::new());
}

#[test]
fn a_query_that_is_no_number_is_looked_for_in_the_text_of_the_price() {
    let books = vec![book(1, "x", None, Some(41.99)), book(2, "y", None, Some(5.0))];
    assert_eq!(found(&books, "."), vec![1]);
    assert_eq!(found(&books, "1.9.9"), Vec::<i32>::new());
}

#[test]
fn a_book_without_a_price_is_not_found_by_price() {
    let books = vec![book(1, "x", None, None)];
    assert_eq!(found(&books, "0"), Vec::<i32>::new());
    assert_eq!(found(&books, "."), Vec::<i32>::new());
}

#[test]
fn titles_are_searched_without_regard_to_case() {
    let books = vec![book(1, "The Hobbit", None, None), book(2, "Dune", None, None)];
    assert_eq!(found(&books, "HOB"), vec![1]);
    assert_eq!(found(&books, "une"), vec![2]);
    assert_eq!(found(&books, "e"), vec![1, 2]);
    assert_eq!(found(&books, "hobbits"), Vec::<i32>::new());
}

#[test]
fn authors_are_searched_without_regard_to_case() {
    let books = vec![book(1, "x", Some("Ursula Le Guin"), None), book(2, "y", Some("Tolkien"), None)];
    assert_eq!(found(&books, "le gu"), vec![1]);
    assert_eq!(found(&books, "TOLK"), vec![2]);
}

#[test]
fn a_book_without_an_author_is_not_found_by_author() {
    let mut nameless = book(2, "y", Some("x"), None);
    nameless.author = Some(AuthorModel { Id: 2, Name: None });
    let books = vec![book(1, "title", None, None), nameless];
    assert_eq!(found(&books, "a"), Vec::<i32>::new());
    assert_eq!(found(&books, "unnamed"), Vec::<i32>::new());
    assert_eq!(found(&books, "t"), vec![1]);
}

#[test]
fn what_is_found_keeps_its_order() {
    let books = vec![
        book(3, "gamma 7", None, None),
        book(1, "alpha", Some("Seven"), None),
        book(2, "beta", None, Some(7.5)),
        book(4, "delta", None, Some(1.0)),
    ];
    assert_eq!(found(&books, "7"), vec![3, 2]);
    assert_eq!(found(&books, "seven"), vec![1]);
}

#[test]
fn answers_takes_the_query_in_lower_case() {
    let hobbit = book(1, "The Hobbit", Some("Tolkien"), Some(12.5));
    assert!(answers(&hobbit, &folded("hobbit"), &None));
    assert!(answers(&hobbit, &folded("TOLKIEN"), &None));
    assert!(!answers(&hobbit, &"TOLKIEN".chars().collect(), &None));
    assert!(answers(&hobbit, &folded("zzz"), &Some(price(12.5))));
    assert!(!answers(&hobbit, &folded("zzz"), &Some(price(2.5))));
}

#[test]
fn price_answers_by_prefix_amount_or_text() {
    let cost = price(41.99);
    assert!(price_answers(&cost, &folded("41"), &Some(price(41.0))));
    assert!(price_answers(&cost, &folded("x"), &Some(price(41.99))));
    assert!(!price_answers(&cost, &folded("41"), &Some(price(42.0))));
    assert!(price_answers(&cost, &folded("1.9"), &None));
    assert!(!price_answers(&cost, &folded("abc"), &None));
}
