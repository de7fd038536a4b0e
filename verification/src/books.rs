use crate::dates::{date_reading, date_text, local_now, read_date, show_date};
use crate::messages::{Command, Mode, Tab};
use crate::models::{
    clone_author, clone_price, BookModel, BookWithAuthor, NewBook, PriceInput, Timestamp, ID,
};
use crate::search::{filter_books, filtered};
use crate::sorting::{sort_books, sorted};
use crate::state::{next_request, only, request_after, BookshelfApp};
use vstd::prelude::*;

verus! {

/// What asking for the books does: the request gets the next number, and nothing
/// else changes.
pub open spec fn books_requested(
    pre: BookshelfApp,
    post: BookshelfApp,
    commands: Seq<Command>,
) -> bool {
    &&& post == (BookshelfApp { books_request: next_request(pre.books_request), ..pre })
    &&& commands == seq![Command::LoadBooks(post.books_request)]
}

/// Asks the store for the books.
pub fn handle_load_books(app: &mut BookshelfApp) -> (commands: Vec<Command>)
    ensures
        books_requested(*old(app), *final(app), commands@),
{
    app.books_request = request_after(app.books_request);
    only(Command::LoadBooks(app.books_request))
}

/// Whether a search is on whose result is held and whose query is known.
pub open spec fn search_is_active(app: BookshelfApp) -> bool {
    app.is_searching && app.filtered_books is Some && app.search_term_displayed.text@.len() > 0
}

/// What the answer to a request for the books does. An answer to any request but the
/// latest is dropped. The books of a good answer are ordered as is picked. While a
/// search is active, the books as they were loaded are searched for the query last
/// searched for, and what is found is ordered as is picked; while none is, nothing is
/// held as found. A bad answer leaves its message as the error.
pub open spec fn books_loaded(
    pre: BookshelfApp,
    request: u64,
    answer: Result<Vec<BookWithAuthor>, String>,
    post: BookshelfApp,
) -> bool {
    if request != pre.books_request {
        post == pre
    } else {
        match answer {
            Ok(loaded) => {
                &&& post == (BookshelfApp {
                    books: post.books,
                    filtered_books: post.filtered_books,
                    ..pre
                })
                &&& post.books@ == sorted(loaded@, pre.sort_field, pre.sort_direction)
                &&& if search_is_active(pre) {
                    &&& post.filtered_books matches Some(found)
                    &&& found@ == sorted(
                        filtered(loaded@, pre.search_term_displayed),
                        pre.sort_field,
                        pre.sort_direction,
                    )
                } else {
                    post.filtered_books is None
                }
            },
            Err(error) => post == (BookshelfApp { error: Some(error), ..pre }),
        }
    }
}

/// Takes the answer to a request for the books.
pub fn handle_books_loaded(
    app: &mut BookshelfApp,
    request: u64,
    result: Result<Vec<BookWithAuthor>, String>,
) -> (commands: Vec<Command>)
    ensures
        books_loaded(*old(app), request, result, *final(app)),
        commands@.len() == 0,
{
    if request != app.books_request {
        return Vec::new();
    }
    match result {
        Ok(loaded) => {
            let active = app.is_searching && app.filtered_books.is_some()
                && !app.search_term_displayed.text.as_str().is_empty();
            if active {
                let mut found = filter_books(&loaded, &app.search_term_displayed);
                sort_books(&mut found, &app.sort_field, &app.sort_direction);
                app.filtered_books = Some(found);
            } else {
                app.filtered_books = None;
            }
            let mut books = loaded;
            sort_books(&mut books, &app.sort_field, &app.sort_direction);
            app.books = books;
        },
        Err(error) => {
            app.error = Some(error);
        },
    }
    Vec::new()
}

/// What opening the form for a new book does: the form is emptied, no book is being
/// edited, no author is picked, and the authors are asked for.
pub open spec fn book_adding(pre: BookshelfApp, post: BookshelfApp, commands: Seq<Command>) -> bool {
    &&& post == (BookshelfApp {
        mode: Mode::Add,
        current_book: None,
        book_title: post.book_title,
        book_price: post.book_price,
        book_bought_date: post.book_bought_date,
        book_finished_date: post.book_finished_date,
        selected_author: None,
        authors_request: next_request(pre.authors_request),
        ..pre
    })
    &&& post.book_title@.len() == 0
    &&& post.book_price.is_blank()
    &&& post.book_bought_date@.len() == 0
    &&& post.book_finished_date@.len() == 0
    &&& commands == seq![Command::LoadAuthors(post.authors_request)]
}

/// Opens the form for a new book.
pub fn handle_add_book_mode(app: &mut BookshelfApp) -> (commands: Vec<Command>)
    ensures
        book_adding(*old(app), *final(app), commands@),
{
    app.mode = Mode::Add;
    app.current_book = None;
    app.book_title = String::new();
    app.book_price = PriceInput::blank();
    app.book_bought_date = String::new();
    app.book_finished_date = String::new();
    app.selected_author = None;
    app.authors_request = request_after(app.authors_request);
    only(Command::LoadAuthors(app.authors_request))
}

/// The text the price field shows for a stored price: the text of the price, or
/// nothing.
pub open spec fn price_text(book: BookWithAuthor) -> Seq<char> {
    match book.book.price {
        Some(price) => price.text@,
        None => Seq::empty(),
    }
}

/// What opening the form for a book does: the book is the one being edited, the form
/// shows its title, price, dates and author, and the authors are asked for.
pub open spec fn book_editing(
    pre: BookshelfApp,
    book: BookWithAuthor,
    post: BookshelfApp,
    commands: Seq<Command>,
) -> bool {
    &&& post == (BookshelfApp {
        mode: Mode::Edit,
        current_book: Some(book),
        book_title: post.book_title,
        book_price: post.book_price,
        book_bought_date: post.book_bought_date,
        book_finished_date: post.book_finished_date,
        selected_author: book.author,
        authors_request: next_request(pre.authors_request),
        ..pre
    })
    &&& post.book_title@ == book.book.title@
    &&& post.book_price.text@ == price_text(book)
    &&& post.book_price.price == book.book.price
    &&& post.book_bought_date@ == date_text(book.book.bought)
    &&& post.book_finished_date@ == date_text(book.book.finished)
    &&& commands == seq![Command::LoadAuthors(post.authors_request)]
}

/// Opens the form for `book`.
pub fn handle_edit_book_mode(app: &mut BookshelfApp, book: BookWithAuthor) -> (commands: Vec<
    Command,
>)
    ensures
        book_editing(*old(app), book, *final(app), commands@),
{
    app.mode = Mode::Edit;
    app.book_title = book.book.title.clone();
    let shown = match &book.book.price {
        Some(price) => price.text.clone(),
        None => String::new(),
    };
    app.book_price = PriceInput { text: shown, price: clone_price(&book.book.price) };
    app.book_bought_date = show_date(book.book.bought);
    app.book_finished_date = show_date(book.book.finished);
    app.selected_author = clone_author(&book.author);
    app.current_book = Some(book);
    app.authors_request = request_after(app.authors_request);
    only(Command::LoadAuthors(app.authors_request))
}

/// What leaving the form of a book does: the list is shown, no book is being edited,
/// the form is emptied of whatever was typed into it, no author is picked, and the
/// books are asked for. The book that was being edited is not touched.
pub open spec fn book_viewing(pre: BookshelfApp, post: BookshelfApp, commands: Seq<Command>) -> bool {
    &&& post == (BookshelfApp {
        mode: Mode::View,
        current_book: None,
        book_title: post.book_title,
        book_price: post.book_price,
        book_bought_date: post.book_bought_date,
        book_finished_date: post.book_finished_date,
        selected_author: None,
        books_request: next_request(pre.books_request),
        ..pre
    })
    &&& post.book_title@.len() == 0
    &&& post.book_price.is_blank()
    &&& post.book_bought_date@.len() == 0
    &&& post.book_finished_date@.len() == 0
    &&& commands == seq![Command::LoadBooks(post.books_request)]
}

/// Leaves the form of a book for the list.
pub fn handle_view_book_mode(app: &mut BookshelfApp) -> (commands: Vec<Command>)
    ensures
        book_viewing(*old(app), *final(app), commands@),
{
    app.mode = Mode::View;
    app.current_book = None;
    app.book_title = String::new();
    app.book_price = PriceInput::blank();
    app.book_bought_date = String::new();
    app.book_finished_date = String::new();
    app.selected_author = None;
    handle_load_books(app)
}

/// Takes what was typed into the title field.
pub fn handle_book_title_changed(app: &mut BookshelfApp, value: String) -> (commands: Vec<Command>)
    ensures
        *final(app) == (BookshelfApp { book_title: value, ..*old(app) }),
        commands@.len() == 0,
{
    app.book_title = value;
    Vec::new()
}

/// Takes what was typed into the price field.
pub fn handle_book_price_changed(app: &mut BookshelfApp, value: PriceInput) -> (commands: Vec<
    Command,
>)
    ensures
        *final(app) == (BookshelfApp { book_price: value, ..*old(app) }),
        commands@.len() == 0,
{
    app.book_price = value;
    Vec::new()
}

/// Takes what was typed into the field of the date of purchase.
pub fn handle_book_bought_date_changed(app: &mut BookshelfApp, value: String) -> (commands: Vec<
    Command,
>)
    ensures
        *final(app) == (BookshelfApp { book_bought_date: value, ..*old(app) }),
        commands@.len() == 0,
{
    app.book_bought_date = value;
    Vec::new()
}

/// Takes what was typed into the field of the date of finishing.
pub fn handle_book_finished_date_changed(app: &mut BookshelfApp, value: String) -> (commands:
    Vec<Command>)
    ensures
        *final(app) == (BookshelfApp { book_finished_date: value, ..*old(app) }),
        commands@.len() == 0,
{
    app.book_finished_date = value;
    Vec::new()
}

/// The message left as the error when the price field holds what is no number.
pub open spec fn invalid_price() -> Seq<char> {
    "Invalid price format"@
}

/// Whether the price field keeps the book from being saved: it is not empty, and
/// reads as no amount.
pub open spec fn price_is_invalid(app: BookshelfApp) -> bool {
    app.book_price.text@.len() > 0 && app.book_price.price is None
}

/// The date a saved book counts as added: the date the book being edited was added,
/// or `now` where no book is being edited or that book has no such date.
pub open spec fn added_date(app: BookshelfApp, now: Timestamp) -> Timestamp {
    match app.current_book {
        Some(book) => match book.book.added {
            Some(added) => added,
            None => now,
        },
        None => now,
    }
}

/// Whether `record` is what the form holds, with the dates as they were read.
pub open spec fn is_book_of_form(
    app: BookshelfApp,
    bought: Option<Timestamp>,
    finished: Option<Timestamp>,
    now: Timestamp,
    record: NewBook,
) -> bool {
    &&& record.title@ == app.book_title@
    &&& record.price == if app.book_price.text@.len() == 0 {
        None
    } else {
        app.book_price.price
    }
    &&& record.bought == bought
    &&& record.finished == finished
    &&& record.added == Some(added_date(app, now))
    &&& record.AuthorFK == match app.selected_author {
        Some(author) => Some(author.Id),
        None => None,
    }
}

/// What saving the book in the form does, the dates read as `bought` and `finished`
/// and the time being `now`. A price that is no number leaves an error and asks for
/// nothing. Else the state stays as it is, and the store is asked to overwrite the
/// book being edited, or to store a new book where none is.
pub open spec fn book_saving(
    pre: BookshelfApp,
    bought: Option<Timestamp>,
    finished: Option<Timestamp>,
    now: Timestamp,
    post: BookshelfApp,
    commands: Seq<Command>,
) -> bool {
    if price_is_invalid(pre) {
        &&& post == (BookshelfApp { error: post.error, ..pre })
        &&& post.error matches Some(error)
        &&& error@ == invalid_price()
        &&& commands.len() == 0
    } else {
        &&& post == pre
        &&& commands.len() == 1
        &&& match pre.current_book {
            Some(book) => {
                &&& commands[0] matches Command::UpdateBook(id, record)
                &&& id == book.book.id
                &&& is_book_of_form(pre, bought, finished, now, record)
            },
            None => {
                &&& commands[0] matches Command::CreateBook(record)
                &&& is_book_of_form(pre, bought, finished, now, record)
            },
        }
    }
}

/// Saves the book in the form, given what its date fields read as and the time.
pub fn save_book_with(
    app: &mut BookshelfApp,
    bought: Option<Timestamp>,
    finished: Option<Timestamp>,
    now: Timestamp,
) -> (commands: Vec<Command>)
    ensures
        book_saving(*old(app), bought, finished, now, *final(app), commands@),
{
    let price = if app.book_price.text.as_str().is_empty() {
        None
    } else {
        match &app.book_price.price {
            Some(price) => Some(price.clone()),
            None => {
                app.error = Some("Invalid price format".to_string());
                return Vec::new();
            },
        }
    };
    let added = match &app.current_book {
        Some(book) => match book.book.added {
            Some(added) => added,
            None => now,
        },
        None => now,
    };
    let author = match &app.selected_author {
        Some(author) => Some(author.Id),
        None => None,
    };
    let record = NewBook {
        title: app.book_title.clone(),
        price,
        bought,
        finished,
        added: Some(added),
        AuthorFK: author,
    };
    match &app.current_book {
        Some(book) => only(Command::UpdateBook(book.book.id, record)),
        None => only(Command::CreateBook(record)),
    }
}

/// Saves the book in the form. The date fields are read; one that holds no date
/// counts as empty. A book that was never saved is added now.
pub fn handle_save_book(app: &mut BookshelfApp) -> (commands: Vec<Command>)
    ensures
        exists|now: Timestamp|
            book_saving(
                *old(app),
                date_reading(old(app).book_bought_date@),
                date_reading(old(app).book_finished_date@),
                now,
                *final(app),
                commands@,
            ),
{
    let bought = read_date(app.book_bought_date.as_str());
    let finished = read_date(app.book_finished_date.as_str());
    let now = local_now();
    let commands = save_book_with(app, bought, finished, now);
    assert(book_saving(
        *old(app),
        date_reading(old(app).book_bought_date@),
        date_reading(old(app).book_finished_date@),
        now,
        *app,
        commands@,
    ));
    commands
}

/// What the answer to the save of a book does: a good answer shows the list and asks
/// for the books; a bad one leaves its message as the error and the form open.
pub open spec fn book_saved(
    pre: BookshelfApp,
    answer: Result<BookModel, String>,
    post: BookshelfApp,
    commands: Seq<Command>,
) -> bool {
    match answer {
        Ok(_) => {
            &&& post == (BookshelfApp {
                mode: Mode::View,
                books_request: next_request(pre.books_request),
                ..pre
            })
            &&& commands == seq![Command::LoadBooks(post.books_request)]
        },
        Err(error) => {
            &&& post == (BookshelfApp { error: Some(error), ..pre })
            &&& commands.len() == 0
        },
    }
}

/// Takes the answer to the save of a book.
pub fn handle_book_saved(app: &mut BookshelfApp, result: Result<BookModel, String>) -> (commands:
    Vec<Command>)
    ensures
        book_saved(*old(app), result, *final(app), commands@),
{
    match result {
        Ok(_) => {
            app.mode = Mode::View;
            handle_load_books(app)
        },
        Err(error) => {
            app.error = Some(error);
            Vec::new()
        },
    }
}

/// Asks the user whether the book of this id and title is to be deleted.
pub fn handle_confirm_delete_book(app: &mut BookshelfApp, id: ID, title: String) -> (commands:
    Vec<Command>)
    ensures
        *final(app) == (BookshelfApp { mode: Mode::ConfirmDelete(id, title), ..*old(app) }),
        commands@.len() == 0,
{
    app.mode = Mode::ConfirmDelete(id, title);
    Vec::new()
}

/// Takes the request to delete a book back.
pub fn handle_cancel_delete_book(app: &mut BookshelfApp) -> (commands: Vec<Command>)
    ensures
        *final(app) == (BookshelfApp { mode: Mode::View, ..*old(app) }),
        commands@.len() == 0,
{
    app.mode = Mode::View;
    Vec::new()
}

/// Whether the user is being asked, on `tab`, to delete the record of this id.
pub open spec fn deletion_is_confirmed(app: BookshelfApp, tab: Tab, id: ID) -> bool {
    &&& app.current_tab == tab
    &&& app.mode matches Mode::ConfirmDelete(asked, _)
    &&& asked == id
}

/// Decides [`deletion_is_confirmed`].
pub fn is_deletion_confirmed(app: &BookshelfApp, tab: Tab, id: ID) -> (confirmed: bool)
    ensures
        confirmed == deletion_is_confirmed(*app, tab, id),
{
    let on_tab = match (app.current_tab, tab) {
        (Tab::Books, Tab::Books) => true,
        (Tab::Authors, Tab::Authors) => true,
        _ => false,
    };
    match &app.mode {
        Mode::ConfirmDelete(asked, _) => on_tab && *asked == id,
        _ => false,
    }
}

/// What the confirmed deletion of a book does: the store is asked to delete the book
/// while the user is being asked about that very book, and is asked nothing else.
/// The state stays as it is until the store answers.
pub open spec fn book_deleting(
    pre: BookshelfApp,
    id: ID,
    post: BookshelfApp,
    commands: Seq<Command>,
) -> bool {
    &&& post == pre
    &&& commands == if deletion_is_confirmed(pre, Tab::Books, id) {
        seq![Command::DeleteBook(id)]
    } else {
        Seq::empty()
    }
}

/// Deletes the book of this id, if the user was asked about it.
pub fn handle_delete_book(app: &mut BookshelfApp, id: ID) -> (commands: Vec<Command>)
    ensures
        book_deleting(*old(app), id, *final(app), commands@),
{
    if is_deletion_confirmed(app, Tab::Books, id) {
        only(Command::DeleteBook(id))
    } else {
        Vec::new()
    }
}

/// What the answer to the deletion of a book does: whatever the answer, the list is
/// shown and the books are asked for; a bad answer leaves its message as the error.
pub open spec fn book_deleted(
    pre: BookshelfApp,
    answer: Result<usize, String>,
    post: BookshelfApp,
    commands: Seq<Command>,
) -> bool {
    &&& post == (BookshelfApp {
        mode: Mode::View,
        error: match answer {
            Ok(_) => pre.error,
            Err(error) => Some(error),
        },
        books_request: next_request(pre.books_request),
        ..pre
    })
    &&& commands == seq![Command::LoadBooks(post.books_request)]
}

/// Takes the answer to the deletion of a book.
pub fn handle_book_deleted(app: &mut BookshelfApp, result: Result<usize, String>) -> (commands:
    Vec<Command>)
    ensures
        book_deleted(*old(app), result, *final(app), commands@),
{
    app.mode = Mode::View;
    match result {
        Ok(_) => {},
        Err(error) => {
            app.error = Some(error);
        },
    }
    handle_load_books(app)
}

} // verus!
