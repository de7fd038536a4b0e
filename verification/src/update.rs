use crate::authors::{
    author_adding, author_books_loaded, author_deleted, author_deleting, author_detailing,
    author_editing, author_saved, author_saving, author_viewing, authors_loaded, authors_requested,
    handle_add_author_mode, handle_author_books_loaded, handle_author_deleted,
    handle_author_name_changed, handle_author_saved, handle_authors_loaded,
    handle_cancel_delete_author, handle_confirm_delete_author, handle_delete_author,
    handle_edit_author_mode, handle_load_authors, handle_save_author, handle_view_author_details,
    handle_view_author_mode,
};
use crate::books::{
    book_adding, book_deleted, book_deleting, book_editing, book_saved, book_saving, book_viewing,
    books_loaded, books_requested, handle_add_book_mode, handle_book_bought_date_changed,
    handle_book_deleted, handle_book_finished_date_changed, handle_book_price_changed,
    handle_book_saved, handle_book_title_changed, handle_books_loaded, handle_cancel_delete_book,
    handle_confirm_delete_book, handle_delete_book, handle_edit_book_mode, handle_load_books,
    handle_save_book, handle_view_book_mode,
};
use crate::dates::date_reading;
use crate::dropdown::DropdownView;
use crate::messages::{Command, Message, Mode, Tab};
use crate::models::{AuthorModel, PriceInput, Timestamp};
use crate::state::{
    apply_sorting, clear_search, next_request, only, perform_search, request_after,
    search_cleared, search_performed, sorting_applied, BookshelfApp,
};
use vstd::prelude::*;
use vstd::string::StringExecFns;

verus! {

/// The words before the reason in the error that a failed start leaves.
pub open spec fn start_failure() -> Seq<char> {
    "Failed to initialize database: "@
}

/// What the start of the application does. Where the store was reached, the books and
/// the authors are asked for, in one go. Where it was not, the reason is left as the
/// error, and nothing is asked for.
pub open spec fn started(
    pre: BookshelfApp,
    answer: Result<(), String>,
    post: BookshelfApp,
    commands: Seq<Command>,
) -> bool {
    match answer {
        Ok(_) => {
            &&& post == (BookshelfApp {
                books_request: next_request(pre.books_request),
                authors_request: next_request(pre.authors_request),
                ..pre
            })
            &&& commands == seq![
                Command::LoadBooks(post.books_request),
                Command::LoadAuthors(post.authors_request),
            ]
        },
        Err(reason) => {
            &&& post == (BookshelfApp { error: post.error, ..pre })
            &&& post.error matches Some(text)
            &&& text@ == start_failure() + reason@
            &&& commands.len() == 0
        },
    }
}

/// What picking a tab does: the tab is shown with its list, the search is dropped,
/// and the records of the tab are asked for.
pub open spec fn tab_selected(
    pre: BookshelfApp,
    tab: Tab,
    post: BookshelfApp,
    commands: Seq<Command>,
) -> bool {
    &&& post == (BookshelfApp {
        current_tab: tab,
        mode: Mode::View,
        search_query: post.search_query,
        search_term_displayed: post.search_term_displayed,
        is_searching: false,
        filtered_books: None,
        books_request: if tab == Tab::Books {
            next_request(pre.books_request)
        } else {
            pre.books_request
        },
        authors_request: if tab == Tab::Authors {
            next_request(pre.authors_request)
        } else {
            pre.authors_request
        },
        ..pre
    })
    &&& post.search_query.is_blank()
    &&& post.search_term_displayed.is_blank()
    &&& commands == match tab {
        Tab::Books => seq![Command::LoadBooks(post.books_request)],
        Tab::Authors => seq![Command::LoadAuthors(post.authors_request)],
    }
}

/// What picking an author for the book in the form does: the author is picked, in
/// the form and in the list, and the list is closed with nothing searched for.
pub open spec fn author_selected(pre: BookshelfApp, author: AuthorModel, post: BookshelfApp) -> bool {
    &&& post == (BookshelfApp {
        selected_author: Some(author),
        author_dropdown: post.author_dropdown,
        ..pre
    })
    &&& post.author_dropdown@ == (DropdownView {
        selected: Some(author),
        search_term: Seq::empty(),
        is_open: false,
        ..pre.author_dropdown@
    })
}

/// What opening or closing the list of authors does.
pub open spec fn dropdown_toggled(pre: BookshelfApp, post: BookshelfApp) -> bool {
    &&& post == (BookshelfApp { author_dropdown: post.author_dropdown, ..pre })
    &&& post.author_dropdown@ == (DropdownView {
        search_term: if pre.author_dropdown@.is_open {
            Seq::empty()
        } else {
            pre.author_dropdown@.search_term
        },
        is_open: !pre.author_dropdown@.is_open,
        ..pre.author_dropdown@
    })
}

/// What typing into the search field of the list of authors does.
pub open spec fn dropdown_searched(pre: BookshelfApp, term: String, post: BookshelfApp) -> bool {
    &&& post == (BookshelfApp { author_dropdown: post.author_dropdown, ..pre })
    &&& post.author_dropdown@ == (DropdownView { search_term: term@, ..pre.author_dropdown@ })
}

/// Whether `post` and `commands` are what `message` makes of `pre`, the time being
/// `now`. Only the save of a book looks at the time.
pub open spec fn transition(
    pre: BookshelfApp,
    message: Message,
    now: Timestamp,
    post: BookshelfApp,
    commands: Seq<Command>,
) -> bool {
    match message {
        Message::Initialize(answer) => started(pre, answer, post, commands),
        Message::TabSelected(tab) => tab_selected(pre, tab, post, commands),
        Message::SortFieldSelected(field) => {
            &&& sorting_applied(BookshelfApp { sort_field: field, ..pre }, post)
            &&& commands.len() == 0
        },
        Message::SortDirectionSelected(direction) => {
            &&& sorting_applied(BookshelfApp { sort_direction: direction, ..pre }, post)
            &&& commands.len() == 0
        },
        Message::ApplySorting => sorting_applied(pre, post) && commands.len() == 0,
        Message::SearchQueryChanged(query) => {
            &&& post == (BookshelfApp { search_query: query, ..pre })
            &&& commands.len() == 0
        },
        Message::PerformSearch => search_performed(pre, post) && commands.len() == 0,
        Message::ClearSearch => search_cleared(pre, post) && commands.len() == 0,
        Message::LoadBooks => books_requested(pre, post, commands),
        Message::BooksLoaded(request, answer) => {
            &&& books_loaded(pre, request, answer, post)
            &&& commands.len() == 0
        },
        Message::AddBookMode => book_adding(pre, post, commands),
        Message::EditBookMode(book) => book_editing(pre, book, post, commands),
        Message::ViewBookMode => book_viewing(pre, post, commands),
        Message::BookTitleChanged(value) => {
            &&& post == (BookshelfApp { book_title: value, ..pre })
            &&& commands.len() == 0
        },
        Message::BookPriceChanged(value) => {
            &&& post == (BookshelfApp { book_price: value, ..pre })
            &&& commands.len() == 0
        },
        Message::BookBoughtDateChanged(value) => {
            &&& post == (BookshelfApp { book_bought_date: value, ..pre })
            &&& commands.len() == 0
        },
        Message::BookFinishedDateChanged(value) => {
            &&& post == (BookshelfApp { book_finished_date: value, ..pre })
            &&& commands.len() == 0
        },
        Message::BookAuthorSelected(author) => {
            &&& author_selected(pre, author, post)
            &&& commands.len() == 0
        },
        Message::SaveBook => book_saving(
            pre,
            date_reading(pre.book_bought_date@),
            date_reading(pre.book_finished_date@),
            now,
            post,
            commands,
        ),
        Message::BookSaved(answer) => book_saved(pre, answer, post, commands),
        Message::ConfirmDeleteBook(id, title) => {
            &&& post == (BookshelfApp { mode: Mode::ConfirmDelete(id, title), ..pre })
            &&& commands.len() == 0
        },
        Message::DeleteBook(id) => book_deleting(pre, id, post, commands),
        Message::CancelDeleteBook => {
            &&& post == (BookshelfApp { mode: Mode::View, ..pre })
            &&& commands.len() == 0
        },
        Message::BookDeleted(answer) => book_deleted(pre, answer, post, commands),
        Message::LoadAuthors => authors_requested(pre, post, commands),
        Message::AuthorsLoaded(request, answer) => {
            &&& authors_loaded(pre, request, answer, post)
            &&& commands.len() == 0
        },
        Message::AddAuthorMode => author_adding(pre, post) && commands.len() == 0,
        Message::EditAuthorMode(author) => {
            &&& author_editing(pre, author, post)
            &&& commands.len() == 0
        },
        Message::ViewAuthorMode => author_viewing(pre, post, commands),
        Message::ViewAuthorDetails(author) => author_detailing(pre, author, post, commands),
        Message::AuthorBooksLoaded(request, answer) => {
            &&& author_books_loaded(pre, request, answer, post)
            &&& commands.len() == 0
        },
        Message::AuthorNameChanged(value) => {
            &&& post == (BookshelfApp { author_name: value, ..pre })
            &&& commands.len() == 0
        },
        Message::SaveAuthor => author_saving(pre, post, commands),
        Message::AuthorSaved(answer) => author_saved(pre, answer, post, commands),
        Message::ConfirmDeleteAuthor(id, name) => {
            &&& post == (BookshelfApp { mode: Mode::ConfirmDelete(id, name), ..pre })
            &&& commands.len() == 0
        },
        Message::DeleteAuthor(id) => author_deleting(pre, id, post, commands),
        Message::CancelDeleteAuthor => {
            &&& post == (BookshelfApp { mode: Mode::View, ..pre })
            &&& commands.len() == 0
        },
        Message::AuthorDeleted(answer) => author_deleted(pre, answer, post, commands),
        Message::ToggleAuthorDropdown => dropdown_toggled(pre, post) && commands.len() == 0,
        Message::AuthorSearchChanged(term) => {
            &&& dropdown_searched(pre, term, post)
            &&& commands.len() == 0
        },
        Message::Error(error) => {
            &&& post == (BookshelfApp { error: Some(error), ..pre })
            &&& commands.len() == 0
        },
    }
}

/// Takes how connecting to the store went, at the start of the application.
pub fn handle_initialize(app: &mut BookshelfApp, result: Result<(), String>) -> (commands: Vec<
    Command,
>)
    ensures
        started(*old(app), result, *final(app), commands@),
{
    match result {
        Ok(_) => {
            app.books_request = request_after(app.books_request);
            app.authors_request = request_after(app.authors_request);
            let mut commands = only(Command::LoadBooks(app.books_request));
            commands.push(Command::LoadAuthors(app.authors_request));
            assert(commands@ =~= seq![
                Command::LoadBooks(app.books_request),
                Command::LoadAuthors(app.authors_request),
            ]);
            commands
        },
        Err(reason) => {
            let text = "Failed to initialize database: ".to_string().concat(reason.as_str());
            app.error = Some(text);
            Vec::new()
        },
    }
}

/// Shows `tab`.
pub fn handle_tab_selected(app: &mut BookshelfApp, tab: Tab) -> (commands: Vec<Command>)
    ensures
        tab_selected(*old(app), tab, *final(app), commands@),
{
    app.current_tab = tab;
    app.mode = Mode::View;
    app.search_query = PriceInput::blank();
    app.search_term_displayed = PriceInput::blank();
    app.is_searching = false;
    app.filtered_books = None;
    match tab {
        Tab::Books => handle_load_books(app),
        Tab::Authors => handle_load_authors(app),
    }
}

/// Picks `author` for the book in the form.
pub fn handle_book_author_selected(app: &mut BookshelfApp, author: AuthorModel) -> (commands: Vec<
    Command,
>)
    ensures
        author_selected(*old(app), author, *final(app)),
        commands@.len() == 0,
{
    app.selected_author = Some(author.clone());
    app.author_dropdown.select(author);
    Vec::new()
}

impl BookshelfApp {
    /// Opens the list of authors in the form of a book, or closes it.
    pub fn handle_toggle_author_dropdown(&mut self) -> (commands: Vec<Command>)
        ensures
            dropdown_toggled(*old(self), *final(self)),
            commands@.len() == 0,
    {
        self.author_dropdown.toggle();
        Vec::new()
    }

    /// Takes what was typed into the search field of the list of authors.
    pub fn handle_author_search_changed(&mut self, term: String) -> (commands: Vec<Command>)
        ensures
            dropdown_searched(*old(self), term, *final(self)),
            commands@.len() == 0,
    {
        self.author_dropdown.search(term);
        Vec::new()
    }

    /// Takes `message`, the time being `now`: changes the state as the message asks,
    /// and returns the requests to the store that follow from it.
    pub fn update_at(&mut self, message: Message, now: Timestamp) -> (commands: Vec<Command>)
        ensures
            transition(*old(self), message, now, *final(self), commands@),
            old(self).consistent() ==> final(self).consistent(),
    {
        match message {
            Message::Initialize(answer) => handle_initialize(self, answer),
            Message::TabSelected(tab) => handle_tab_selected(self, tab),
            Message::SortFieldSelected(field) => {
                self.sort_field = field;
                apply_sorting(self);
                Vec::new()
            },
            Message::SortDirectionSelected(direction) => {
                self.sort_direction = direction;
                apply_sorting(self);
                Vec::new()
            },
            Message::ApplySorting => {
                apply_sorting(self);
                Vec::new()
            },
            Message::SearchQueryChanged(query) => {
                self.search_query = query;
                Vec::new()
            },
            Message::ToggleAuthorDropdown => self.handle_toggle_author_dropdown(),
            Message::AuthorSearchChanged(term) => self.handle_author_search_changed(term),
            Message::BookAuthorSelected(author) => handle_book_author_selected(self, author),
            Message::PerformSearch => {
                perform_search(self);
                Vec::new()
            },
            Message::ClearSearch => {
                clear_search(self);
                Vec::new()
            },
            Message::LoadBooks => handle_load_books(self),
            Message::BooksLoaded(request, answer) => handle_books_loaded(self, request, answer),
            Message::AddBookMode => handle_add_book_mode(self),
            Message::EditBookMode(book) => handle_edit_book_mode(self, book),
            Message::ViewBookMode => handle_view_book_mode(self),
            Message::BookTitleChanged(value) => handle_book_title_changed(self, value),
            Message::BookPriceChanged(value) => handle_book_price_changed(self, value),
            Message::BookBoughtDateChanged(value) => handle_book_bought_date_changed(self, value),
            Message::BookFinishedDateChanged(value) => handle_book_finished_date_changed(
                self,
                value,
            ),
            Message::SaveBook => {
                let bought = crate::dates::read_date(self.book_bought_date.as_str());
                let finished = crate::dates::read_date(self.book_finished_date.as_str());
                crate::books::save_book_with(self, bought, finished, now)
            },
            Message::BookSaved(answer) => handle_book_saved(self, answer),
            Message::ConfirmDeleteBook(id, title) => handle_confirm_delete_book(self, id, title),
            Message::CancelDeleteBook => handle_cancel_delete_book(self),
            Message::DeleteBook(id) => handle_delete_book(self, id),
            Message::BookDeleted(answer) => handle_book_deleted(self, answer),
            Message::LoadAuthors => handle_load_authors(self),
            Message::AuthorsLoaded(request, answer) => handle_authors_loaded(
                self,
                request,
                answer,
            ),
            Message::AddAuthorMode => handle_add_author_mode(self),
            Message::EditAuthorMode(author) => handle_edit_author_mode(self, author),
            Message::ViewAuthorMode => handle_view_author_mode(self),
            Message::ViewAuthorDetails(author) => handle_view_author_details(self, author),
            Message::AuthorBooksLoaded(request, answer) => handle_author_books_loaded(
                self,
                request,
                answer,
            ),
            Message::AuthorNameChanged(value) => handle_author_name_changed(self, value),
            Message::SaveAuthor => handle_save_author(self),
            Message::AuthorSaved(answer) => handle_author_saved(self, answer),
            Message::ConfirmDeleteAuthor(id, name) => handle_confirm_delete_author(
                self,
                id,
                name,
            ),
            Message::CancelDeleteAuthor => handle_cancel_delete_author(self),
            Message::DeleteAuthor(id) => handle_delete_author(self, id),
            Message::AuthorDeleted(answer) => handle_author_deleted(self, answer),
            Message::Error(error) => {
                self.error = Some(error);
                Vec::new()
            },
        }
    }

    /// Takes `message`: changes the state as the message asks, and returns the
    /// requests to the store that follow from it. The save of a book reads the clock;
    /// whatever it shows, the step is the one that [`transition`] describes for that
    /// time.
    pub fn update(&mut self, message: Message) -> (commands: Vec<Command>)
        ensures
            exists|now: Timestamp| transition(*old(self), message, now, *final(self), commands@),
            old(self).consistent() ==> final(self).consistent(),
    {
        match message {
            Message::SaveBook => {
                let commands = handle_save_book(self);
                proof {
                    let now = choose|now: Timestamp|
                        book_saving(
                            *old(self),
                            date_reading(old(self).book_bought_date@),
                            date_reading(old(self).book_finished_date@),
                            now,
                            *self,
                            commands@,
                        );
                    assert(transition(*old(self), message, now, *self, commands@));
                }
                commands
            },
            other => {
                let now = Timestamp { secs: 0, nanos: 0 };
                let commands = self.update_at(other, now);
                assert(transition(*old(self), message, now, *self, commands@));
                commands
            },
        }
    }
}

} // verus!
