use bookshelf::messages::{SortDirection, SortField, Tab};
use bookshelf::models::{clone_author, clone_price, clone_text, AuthorModel, BookModel, Price, PriceInput};
use bookshelf::state::request_after;
use bookshelf::stats::{calculate_author_stats, BookStats};
use bookshelf::models::BookWithAuthor;
use bookshelf::text::{chars_of, contains, folded, found_at, starts_with, text_le};

fn price(value: f32) -> Price {
    Price { bits: value.to_bits(), text: value.to_string() }
}

fn chars(text: &str) -> Vec<char> {
    text.chars().collect()
}

#[test]
fn authors_are_equal_by_id() {
    let a = AuthorModel { Id: 1, Name: Some("A".to_string()) };
    let b = AuthorModel { Id: 1, Name: Some("B".to_string()) };
    let c = AuthorModel { Id: 2, Name: Some("A".to_string()) };
    assert!(a == b);
    assert!(a != c);
}

#[test]
fn books_are_equal_by_id() {
    let book = |id: i32, title: &str| BookModel {
        id,
        title: title.to_string(),
        price: None,
        bought: None,
        finished: None,
        added: None,
        AuthorFK: None,
    };
    assert!(book(1, "a") == book(1, "b"));
    assert!(book(1, "a") != book(2, "a"));
}

#[test]
fn an_author_is_listed_by_name() {
    assert_eq!(AuthorModel { Id: 1, Name: Some("Lem".to_string()) }.label(), "Lem");
    assert_eq!(AuthorModel { Id: 1, Name: None }.label(), "Unnamed Author");
}

#[test]
fn captions() {
    assert_eq!(Tab::Books.label(), "Books");
    assert_eq!(Tab::Authors.label(), "Authors");
    assert_eq!(SortField::Title.label(), "Title");
    assert_eq!(SortField::Author.label(), "Author");
    assert_eq!(SortField::Price.label(), "Price");
    assert_eq!(SortField::DateAdded.label(), "Date Added");
    assert_eq!(SortDirection::Ascending.label(), "A-Z, Low to High");
    assert_eq!(SortDirection::Descending.label(), "Z-A, High to Low");
}

#[test]
fn the_rank_of_a_price_follows_its_amount() {
    let amounts = [f32::NEG_INFINITY, -41.99, -1.0, -0.001, 0.0, 0.001, 1.0, 5.0, 41.99, 1.0e10, f32::INFINITY];
    for pair in amounts.windows(2) {
        assert!(price(pair[0]).order_rank() < price(pair[1]).order_rank());
    }
    assert_eq!(price(0.0).order_rank(), 0);
    assert_eq!(price(-0.0).order_rank(), 0);
    assert_eq!(price(5.0).order_rank(), 0x40a0_0000);
    assert_eq!(price(-1.0).order_rank(), -0x3f80_0000);
}

#[test]
fn the_same_amount_is_told_by_rank() {
    assert!(price(5.0).is_same_amount(&price(5.0)));
    assert!(price(0.0).is_same_amount(&price(-0.0)));
    assert!(!price(5.0).is_same_amount(&price(5.5)));
    assert!(!price(f32::NAN).is_same_amount(&price(f32::NAN)));
    assert!(!price(f32::NAN).is_same_amount(&price(1.0)));
    assert!(price(f32::INFINITY).is_same_amount(&price(f32::INFINITY)));
}

#[test]
fn copies_are_equal_to_what_they_copy() {
    assert_eq!(clone_text(&Some("x".to_string())), Some("x".to_string()));
    assert_eq!(clone_text(&None), None);
    assert_eq!(clone_price(&Some(price(2.5))).map(|p| (p.bits, p.text)), Some((2.5f32.to_bits(), "2.5".to_string())));
    assert!(clone_price(&None).is_none());
    let copy = clone_author(&Some(AuthorModel { Id: 3, Name: Some("n".to_string()) })).unwrap();
    assert_eq!((copy.Id, copy.Name), (3, Some("n".to_string())));
    let blank = PriceInput::blank();
    assert_eq!(blank.text, "");
    assert!(blank.price.is_none());
    let typed = PriceInput { text: "7".to_string(), price: Some(price(7.0)) }.clone();
    assert_eq!(typed.text, "7");
    assert_eq!(typed.price.map(|p| p.bits), Some(7.0f32.to_bits()));
}

#[test]
fn request_numbers_start_over_after_the_greatest() {
    assert_eq!(request_after(0), 1);
    assert_eq!(request_after(41), 42);
    assert_eq!(request_after(u64::MAX), 0);
}

#[test]
fn texts_are_folded_to_lower_case() {
    assert_eq!(folded("Hello WORLD"), chars("hello world"));
    assert_eq!(folded("ÄÖÜ"), chars("äöü"));
    assert_eq!(folded(""), chars(""));
    assert_eq!(chars_of("MiXed"), chars("MiXed"));
}

#[test]
fn texts_are_ordered_by_code_point() {
    assert!(text_le(&chars(""), &chars("")));
    assert!(text_le(&chars(""), &chars("a")));
    assert!(!text_le(&chars("a"), &chars("")));
    assert!(text_le(&chars("abc"), &chars("abd")));
    assert!(!text_le(&chars("abd"), &chars("abc")));
    assert!(text_le(&chars("ab"), &chars("abc")));
    assert!(!text_le(&chars("abc"), &chars("ab")));
    assert!(text_le(&chars("Z"), &chars("a")));
    assert!(text_le(&chars("z"), &chars("é")));
    assert!(text_le(&chars("same"), &chars("same")));
}

#[test]
fn a_text_is_found_where_it_stands() {
    let hay = chars("hello");
    assert!(found_at(&chars("ell"), &hay, 1));
    assert!(!found_at(&chars("ell"), &hay, 0));
    assert!(found_at(&chars(""), &hay, 5));
    assert!(!found_at(&chars(""), &hay, 6));
    assert!(!found_at(&chars("lo!"), &hay, 3));
    assert!(contains(&hay, &chars("llo")));
    assert!(contains(&hay, &chars("")));
    assert!(contains(&hay, &chars("hello")));
    assert!(!contains(&hay, &chars("hello!")));
    assert!(!contains(&hay, &chars("leh")));
    assert!(contains(&chars(""), &chars("")));
    assert!(starts_with(&hay, &chars("he")));
    assert!(starts_with(&hay, &chars("")));
    assert!(!starts_with(&hay, &chars("el")));
    assert!(!starts_with(&chars("he"), &hay));
}

fn counted(id: i32, author: Option<i32>, bought: bool, finished: bool) -> BookWithAuthor {
    let at = bookshelf::models::Timestamp { secs: 1, nanos: 0 };
    BookWithAuthor {
        book: BookModel {
            id,
            title: String::new(),
            price: None,
            bought: if bought { Some(at) } else { None },
            finished: if finished { Some(at) } else { None },
            added: None,
            AuthorFK: author,
        },
        author: None,
    }
}

#[test]
fn books_are_counted_by_author() {
    let books = vec![
        counted(1, Some(7), true, true),
        counted(2, Some(7), false, false),
        counted(3, None, true, true),
        counted(4, Some(8), false, true),
        counted(5, Some(7), true, false),
    ];
    let stats = calculate_author_stats(&books);
    assert_eq!(stats.len(), 2);
    assert_eq!(stats.get(&7), Some(&BookStats { bought: 2, not_bought: 1, finished: 1 }));
    assert_eq!(stats.get(&8), Some(&BookStats { bought: 0, not_bought: 1, finished: 1 }));
    assert_eq!(stats.get(&9), None);
    assert_eq!(BookStats::default(), BookStats { bought: 0, not_bought: 0, finished: 0 });
    assert!(calculate_author_stats(&Vec::new()).is_empty());
}

#[test]
fn a_book_is_joined_with_the_author_its_key_names() {
    let book = |key: Option<i32>| BookModel {
        id: 1,
        title: "t".to_string(),
        price: None,
        bought: None,
        finished: None,
        added: None,
        AuthorFK: key,
    };
    let lem = || AuthorModel { Id: 3, Name: Some("Lem".to_string()) };
    let joined = BookWithAuthor::join(book(Some(3)), Some(lem()));
    assert_eq!(joined.author.map(|a| a.Id), Some(3));
    assert_eq!(joined.book.id, 1);
    assert!(BookWithAuthor::join(book(Some(3)), None).author.is_none());
    assert!(BookWithAuthor::join(book(None), Some(lem())).author.is_none());
    assert!(BookWithAuthor::join(book(Some(4)), Some(lem())).author.is_none());
    assert!(BookWithAuthor::join(book(None), None).author.is_none());
}
