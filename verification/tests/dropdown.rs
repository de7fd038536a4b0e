use bookshelf::dropdown::SearchableDropdown;
use bookshelf::models::AuthorModel;

fn author(id: i32, name: Option<&str>) -> AuthorModel {
    AuthorModel { Id: id, Name: name.map(|n| n.to_string()) }
}

fn authors() -> Vec<AuthorModel> {
    vec![author(1, Some("Ursula Le Guin")), author(2, None), author(3, Some("Stanisław Lem")), author(4, Some("LEM"))]
}

fn shown(dropdown: &SearchableDropdown<AuthorModel>) -> Vec<i32> {
    dropdown.visible_options().iter().map(|a| a.Id).collect()
}

#[test]
fn a_new_dropdown_is_closed_with_nothing_searched_for() {
    let dropdown = SearchableDropdown::new(vec![1, 2, 3], Some(2));
    assert!(!dropdown.is_open());
    assert_eq!(dropdown.search_term(), "");
    assert_eq!(dropdown.selected(), Some(&2));
    assert_eq!(dropdown.options, vec![1, 2, 3]);
    let empty: SearchableDropdown<i32> = SearchableDropdown::new(Vec::new(), None);
    assert_eq!(empty.selected(), None);
}

#[test]
fn toggle_opens_and_closes() {
    let mut dropdown = SearchableDropdown::new(vec![1, 2, 3], None);
    dropdown.toggle();
    assert!(dropdown.is_open());
    dropdown.search("ab".to_string());
    assert_eq!(dropdown.search_term(), "ab");
    dropdown.toggle();
    assert!(!dropdown.is_open());
    assert_eq!(dropdown.search_term(), "");
}

#[test]
fn opening_keeps_what_was_searched_for() {
    let mut dropdown = SearchableDropdown::new(vec![1], None);
    dropdown.search("kept".to_string());
    dropdown.toggle();
    assert!(dropdown.is_open());
    assert_eq!(dropdown.search_term(), "kept");
}

#[test]
fn close_drops_the_search() {
    let mut dropdown = SearchableDropdown::new(vec![1], Some(1));
    dropdown.toggle();
    dropdown.search("x".to_string());
    dropdown.close();
    assert!(!dropdown.is_open());
    assert_eq!(dropdown.search_term(), "");
    assert_eq!(dropdown.selected(), Some(&1));
    dropdown.close();
    assert!(!dropdown.is_open());
}

#[test]
fn search_leaves_the_selection() {
    let mut dropdown = SearchableDropdown::new(vec![1, 2], Some(2));
    dropdown.search("anything".to_string());
    assert_eq!(dropdown.selected(), Some(&2));
    assert!(!dropdown.is_open());
    assert_eq!(dropdown.options, vec![1, 2]);
}

#[test]
fn select_closes_and_drops_the_search() {
    let mut open = SearchableDropdown::new(vec![1, 2, 3], Some(1));
    open.toggle();
    open.search("term".to_string());
    open.select(3);
    assert!(!open.is_open());
    assert_eq!(open.search_term(), "");
    assert_eq!(open.selected(), Some(&3));
    let mut closed = SearchableDropdown::new(vec![1, 2, 3], None);
    closed.search("term".to_string());
    closed.select(9);
    assert!(!closed.is_open());
    assert_eq!(closed.search_term(), "");
    assert_eq!(closed.selected(), Some(&9));
    assert_eq!(closed.options, vec![1, 2, 3]);
}

#[test]
fn every_author_is_shown_while_nothing_is_searched_for() {
    let dropdown = SearchableDropdown::new(authors(), None);
    assert_eq!(shown(&dropdown), vec![1, 2, 3, 4]);
}

#[test]
fn authors_are_narrowed_without_regard_to_case() {
    let mut dropdown = SearchableDropdown::new(authors(), None);
    dropdown.toggle();
    dropdown.search("lem".to_string());
    assert_eq!(shown(&dropdown), vec![3, 4]);
    dropdown.search("LE".to_string());
    assert_eq!(shown(&dropdown), vec![1, 3, 4]);
    dropdown.search("STANISŁAW".to_string());
    assert_eq!(shown(&dropdown), vec![3]);
    dropdown.search("nobody".to_string());
    assert_eq!(shown(&dropdown), Vec::<i32>::new());
}

#[test]
fn an_author_without_a_name_is_shown_only_while_nothing_is_searched_for() {
    let mut dropdown = SearchableDropdown::new(authors(), None);
    dropdown.search("unnamed".to_string());
    assert_eq!(shown(&dropdown), Vec::<i32>::new());
    dropdown.search("u".to_string());
    assert_eq!(shown(&dropdown), vec![1]);
}

#[test]
fn the_picked_author_is_told_by_id() {
    let dropdown = SearchableDropdown::new(authors(), Some(author(3, Some("someone else"))));
    assert!(dropdown.is_selected(&author(3, Some("Stanisław Lem"))));
    assert!(!dropdown.is_selected(&author(4, Some("someone else"))));
    let none = SearchableDropdown::new(authors(), None);
    assert!(!none.is_selected(&author(3, None)));
}

#[test]
fn the_caption_is_the_name_or_the_placeholder() {
    assert_eq!(SearchableDropdown::new(authors(), Some(author(1, Some("Ursula")))).caption(), "Ursula");
    assert_eq!(SearchableDropdown::new(authors(), Some(author(2, None))).caption(), "Select an author");
    assert_eq!(SearchableDropdown::new(authors(), None).caption(), "Select an author");
}

#[test]
fn picked_copies_the_selection() {
    let dropdown = SearchableDropdown::new(authors(), Some(author(3, Some("Lem"))));
    let picked = dropdown.picked().unwrap();
    assert_eq!(picked.Id, 3);
    assert_eq!(picked.Name, Some("Lem".to_string()));
    assert!(SearchableDropdown::new(authors(), None).picked().is_none());
}

#[test]
fn the_options_are_read_and_replaced() {
    let mut dropdown = SearchableDropdown::new(vec![1, 2, 3], Some(2));
    assert_eq!(dropdown.all_options(), &vec![1, 2, 3]);
    dropdown.toggle();
    dropdown.search("x".to_string());
    dropdown.set_options(vec![7, 8]);
    assert_eq!(dropdown.all_options(), &vec![7, 8]);
    assert_eq!(dropdown.options, vec![7, 8]);
    assert_eq!(dropdown.selected(), Some(&2));
    assert!(dropdown.is_open());
    assert_eq!(dropdown.search_term(), "x");
}
