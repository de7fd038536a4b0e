use crate::dropdown::{DropdownView, SearchableDropdown};
use crate::messages::{Command, Mode, SortDirection, SortField, Tab};
use crate::models::{AuthorModel, BookWithAuthor, PriceInput};
use crate::search::{filter_books, filtered};
use crate::sorting::{sort_books, sorted};
use vstd::prelude::*;
use vstd::string::StringExecFns;

verus! {

/// The whole state of the application. Only [`BookshelfApp::update`] and the handlers
/// it calls change it.
#[derive(Debug)]
pub struct BookshelfApp {
    /// The tab on show.
    pub current_tab: Tab,
    /// The workflow the user is in on that tab.
    pub mode: Mode,
    /// The field the books are ordered by.
    pub sort_field: SortField,
    /// The direction the books are ordered in.
    pub sort_direction: SortDirection,
    /// The search field as it stands.
    pub search_query: PriceInput,
    /// The query of the search that was last made.
    pub search_term_displayed: PriceInput,
    /// Whether a search is on.
    pub is_searching: bool,
    /// The books that the search found, while one is on.
    pub filtered_books: Option<Vec<BookWithAuthor>>,
    /// All books, as last loaded.
    pub books: Vec<BookWithAuthor>,
    /// The book being edited.
    pub current_book: Option<BookWithAuthor>,
    pub book_title: String,
    pub book_price: PriceInput,
    pub book_bought_date: String,
    pub book_finished_date: String,
    /// The author picked for the book in the form.
    pub selected_author: Option<AuthorModel>,
    /// The list that author is picked from.
    pub author_dropdown: SearchableDropdown<AuthorModel>,
    /// All authors, as last loaded.
    pub authors: Vec<AuthorModel>,
    /// The author being edited or shown.
    pub current_author: Option<AuthorModel>,
    pub author_name: String,
    /// The books of the author being shown.
    pub author_books: Vec<BookWithAuthor>,
    /// What last went wrong.
    pub error: Option<String>,
    /// The number of the latest request for the books.
    pub books_request: u64,
    /// The number of the latest request for the authors.
    pub authors_request: u64,
    /// The number of the latest request for the books of an author.
    pub author_books_request: u64,
}

/// What the heading of the list of books says.
#[derive(Debug)]
pub enum SearchStatus {
    /// No search is on: the list holds all books.
    AllBooks,
    /// A search is on, and nothing is held of what it found.
    Searching,
    /// The search for this query found nothing.
    NothingFound(String),
    /// The search for this query found this many books.
    Found(usize, String),
}

/// The number of the request that follows the request of number `latest`. Numbers
/// start over after the greatest.
pub open spec fn next_request(latest: u64) -> u64 {
    if latest == u64::MAX {
        0
    } else {
        (latest + 1) as u64
    }
}

/// Computes [`next_request`].
pub fn request_after(latest: u64) -> (next: u64)
    ensures
        next == next_request(latest),
{
    if latest == u64::MAX {
        0
    } else {
        latest + 1
    }
}

/// The list of one command.
pub fn only(command: Command) -> (commands: Vec<Command>)
    ensures
        commands@ == seq![command],
{
    let mut commands: Vec<Command> = Vec::new();
    commands.push(command);
    commands
}

impl BookshelfApp {
    /// Whether the state is that of an application that has just been started.
    pub open spec fn is_initial(self) -> bool {
        &&& self.current_tab == Tab::Books
        &&& self.mode == Mode::View
        &&& self.sort_field == SortField::Title
        &&& self.sort_direction == SortDirection::Ascending
        &&& self.search_query.is_blank()
        &&& self.search_term_displayed.is_blank()
        &&& !self.is_searching
        &&& self.filtered_books is None
        &&& self.books@.len() == 0
        &&& self.current_book is None
        &&& self.book_title@.len() == 0
        &&& self.book_price.is_blank()
        &&& self.book_bought_date@.len() == 0
        &&& self.book_finished_date@.len() == 0
        &&& self.selected_author is None
        &&& self.author_dropdown@ == (DropdownView::<AuthorModel> {
            options: Seq::empty(),
            selected: None,
            search_term: Seq::empty(),
            is_open: false,
        })
        &&& self.authors@.len() == 0
        &&& self.current_author is None
        &&& self.author_name@.len() == 0
        &&& self.author_books@.len() == 0
        &&& self.error is None
        &&& self.books_request == 0
        &&& self.authors_request == 0
        &&& self.author_books_request == 0
    }

    /// Whether the result of a search is held only while a search is on, and only of
    /// a search for something: the query last searched for is then not empty.
    pub open spec fn consistent(self) -> bool {
        self.filtered_books is Some ==> self.is_searching && self.search_term_displayed.text@.len()
            > 0
    }

    /// The words that stand in the place of the list of books while no search is on
    /// and there are no books.
    pub open spec fn no_books() -> Seq<char> {
        "No books found"@
    }

    /// The words that stand in the place of the list of books while a search is on
    /// that found nothing: they name the query last searched for.
    pub open spec fn no_matches(self) -> Seq<char> {
        "No books found matching '"@ + self.search_term_displayed.text@ + "'"@
    }

    /// What stands in the place of the list of books when there is nothing to show:
    /// nothing while there are books on show, else [`BookshelfApp::no_matches`]
    /// while a search is on and [`BookshelfApp::no_books`] while none is.
    pub open spec fn empty_list_text(self) -> Option<Seq<char>> {
        if self.displayed().len() > 0 {
            None
        } else if self.is_searching {
            Some(self.no_matches())
        } else {
            Some(Self::no_books())
        }
    }

    /// The books on show: what the search found while one is on, else all books.
    pub open spec fn displayed(self) -> Seq<BookWithAuthor> {
        if self.is_searching {
            match self.filtered_books {
                Some(found) => found@,
                None => self.books@,
            }
        } else {
            self.books@
        }
    }

    /// The state of an application that has just been started: the list of books, in
    /// ascending order of title, with nothing loaded and nothing typed.
    pub fn new() -> (app: Self)
        ensures
            app.is_initial(),
            app.consistent(),
    {
        Self {
            current_tab: Tab::Books,
            mode: Mode::View,
            sort_field: SortField::Title,
            sort_direction: SortDirection::Ascending,
            search_query: PriceInput::blank(),
            search_term_displayed: PriceInput::blank(),
            is_searching: false,
            filtered_books: None,
            books: Vec::new(),
            current_book: None,
            book_title: String::new(),
            book_price: PriceInput::blank(),
            book_bought_date: String::new(),
            book_finished_date: String::new(),
            selected_author: None,
            authors: Vec::new(),
            current_author: None,
            author_name: String::new(),
            author_books: Vec::new(),
            error: None,
            author_dropdown: SearchableDropdown::new(Vec::new(), None),
            books_request: 0,
            authors_request: 0,
            author_books_request: 0,
        }
    }

    /// What the heading of the list of books says of the search.
    pub open spec fn status(self) -> SearchStatus {
        if self.is_searching {
            match self.filtered_books {
                Some(found) => if found@.len() == 0 {
                    SearchStatus::NothingFound(self.search_term_displayed.text)
                } else {
                    SearchStatus::Found(found.len(), self.search_term_displayed.text)
                },
                None => SearchStatus::Searching,
            }
        } else {
            SearchStatus::AllBooks
        }
    }

    /// What the heading of the list of books says of the search.
    pub fn search_status(&self) -> (status: SearchStatus)
        ensures
            status == self.status(),
    {
        if self.is_searching {
            match &self.filtered_books {
                Some(found) => if found.len() == 0 {
                    SearchStatus::NothingFound(self.search_term_displayed.text.clone())
                } else {
                    SearchStatus::Found(found.len(), self.search_term_displayed.text.clone())
                },
                None => SearchStatus::Searching,
            }
        } else {
            SearchStatus::AllBooks
        }
    }

    /// What stands in the place of the list of books when there is nothing to show.
    pub fn empty_list_label(&self) -> (label: Option<String>)
        ensures
            match label {
                Some(text) => self.empty_list_text() == Some(text@),
                None => self.empty_list_text() is None,
            },
    {
        if self.displayed_books().len() > 0 {
            None
        } else if self.is_searching {
            let text = "No books found matching '".to_string().concat(
                self.search_term_displayed.text.as_str(),
            ).concat("'");
            Some(text)
        } else {
            Some("No books found".to_string())
        }
    }

    /// The books on show.
    pub fn displayed_books(&self) -> (shown: &Vec<BookWithAuthor>)
        ensures
            shown@ == self.displayed(),
    {
        if self.is_searching {
            match &self.filtered_books {
                Some(found) => found,
                None => &self.books,
            }
        } else {
            &self.books
        }
    }
}

/// What ordering the list on show again does: what a search found is ordered while a
/// search is on and holds it; else all books are.
pub open spec fn sorting_applied(pre: BookshelfApp, post: BookshelfApp) -> bool {
    if pre.is_searching && pre.filtered_books is Some {
        &&& post == (BookshelfApp { filtered_books: post.filtered_books, ..pre })
        &&& post.filtered_books matches Some(ordered)
        &&& ordered@ == sorted(pre.filtered_books->0@, pre.sort_field, pre.sort_direction)
    } else {
        &&& post == (BookshelfApp { books: post.books, ..pre })
        &&& post.books@ == sorted(pre.books@, pre.sort_field, pre.sort_direction)
    }
}

/// Orders the list on show by the field and in the direction that are picked.
pub fn apply_sorting(app: &mut BookshelfApp)
    ensures
        sorting_applied(*old(app), *final(app)),
{
    let field = app.sort_field;
    let direction = app.sort_direction;
    if app.is_searching && app.filtered_books.is_some() {
        let held = app.filtered_books.take();
        match held {
            Some(mut found) => {
                sort_books(&mut found, &field, &direction);
                app.filtered_books = Some(found);
            },
            None => {},
        }
    } else {
        sort_books(&mut app.books, &field, &direction);
    }
}

/// What making the search does. An empty query ends the search and is never searched
/// for. Any other query starts one; on the tab of the books, the books that answer it
/// are found and ordered, and the query is kept as the one last searched for.
pub open spec fn search_performed(pre: BookshelfApp, post: BookshelfApp) -> bool {
    if pre.search_query.text@.len() == 0 {
        post == (BookshelfApp { is_searching: false, filtered_books: None, ..pre })
    } else if pre.current_tab == Tab::Books {
        &&& post == (BookshelfApp {
            is_searching: true,
            filtered_books: post.filtered_books,
            search_term_displayed: pre.search_query,
            ..pre
        })
        &&& post.filtered_books matches Some(found)
        &&& found@ == sorted(
            filtered(pre.books@, pre.search_query),
            pre.sort_field,
            pre.sort_direction,
        )
    } else {
        post == (BookshelfApp { is_searching: true, ..pre })
    }
}

/// Makes the search that the search field asks for.
pub fn perform_search(app: &mut BookshelfApp)
    ensures
        search_performed(*old(app), *final(app)),
{
    if app.search_query.text.as_str().is_empty() {
        app.is_searching = false;
        app.filtered_books = None;
        return ;
    }
    app.is_searching = true;
    match app.current_tab {
        Tab::Books => {
            let mut found = filter_books(&app.books, &app.search_query);
            sort_books(&mut found, &app.sort_field, &app.sort_direction);
            app.filtered_books = Some(found);
            app.search_term_displayed = app.search_query.clone();
        },
        Tab::Authors => {},
    }
}

/// What dropping the search does: the search field and the query last searched for
/// are emptied, and what was found is let go.
pub open spec fn search_cleared(pre: BookshelfApp, post: BookshelfApp) -> bool {
    &&& post == (BookshelfApp {
        search_query: post.search_query,
        search_term_displayed: post.search_term_displayed,
        is_searching: false,
        filtered_books: None,
        ..pre
    })
    &&& post.search_query.is_blank()
    &&& post.search_term_displayed.is_blank()
}

/// Drops the search.
pub fn clear_search(app: &mut BookshelfApp)
    ensures
        search_cleared(*old(app), *final(app)),
{
    app.search_query = PriceInput::blank();
    app.search_term_displayed = PriceInput::blank();
    app.is_searching = false;
    app.filtered_books = None;
}

} // verus!
