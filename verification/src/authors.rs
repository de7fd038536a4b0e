use crate::books::{deletion_is_confirmed, is_deletion_confirmed};
use crate::dropdown::{DropdownView, SearchableDropdown};
use crate::messages::{Command, Mode, Tab};
use crate::models::{clone_author, AuthorModel, BookWithAuthor, NewAuthor, ID};
use crate::state::{next_request, only, request_after, BookshelfApp};
use vstd::prelude::*;

verus! {

/// What asking for the authors does: the request gets the next number, and nothing
/// else changes.
pub open spec fn authors_requested(
    pre: BookshelfApp,
    post: BookshelfApp,
    commands: Seq<Command>,
) -> bool {
    &&& post == (BookshelfApp { authors_request: next_request(pre.authors_request), ..pre })
    &&& commands == seq![Command::LoadAuthors(post.authors_request)]
}

/// Asks the store for the authors.
pub fn handle_load_authors(app: &mut BookshelfApp) -> (commands: Vec<Command>)
    ensures
        authors_requested(*old(app), *final(app), commands@),
{
    app.authors_request = request_after(app.authors_request);
    only(Command::LoadAuthors(app.authors_request))
}

/// What the answer to a request for the authors does. An answer to any request but
/// the latest is dropped. The authors of a good answer become the authors known and
/// the options of the list in the form of a book, which is closed, with the author
/// picked in the form picked in it. A bad answer leaves its message as the error.
pub open spec fn authors_loaded(
    pre: BookshelfApp,
    request: u64,
    answer: Result<Vec<AuthorModel>, String>,
    post: BookshelfApp,
) -> bool {
    if request != pre.authors_request {
        post == pre
    } else {
        match answer {
            Ok(loaded) => {
                &&& post == (BookshelfApp {
                    authors: post.authors,
                    author_dropdown: post.author_dropdown,
                    ..pre
                })
                &&& post.authors@ == loaded@
                &&& post.author_dropdown@ == (DropdownView {
                    options: loaded@,
                    selected: pre.selected_author,
                    search_term: Seq::empty(),
                    is_open: false,
                })
            },
            Err(error) => post == (BookshelfApp { error: Some(error), ..pre }),
        }
    }
}

/// Takes the answer to a request for the authors.
pub fn handle_authors_loaded(
    app: &mut BookshelfApp,
    request: u64,
    result: Result<Vec<AuthorModel>, String>,
) -> (commands: Vec<Command>)
    ensures
        authors_loaded(*old(app), request, result, *final(app)),
        commands@.len() == 0,
{
    if request != app.authors_request {
        return Vec::new();
    }
    match result {
        Ok(authors) => {
            let options = authors.clone();
            assert(options@ =~= authors@);
            app.authors = authors;
            app.author_dropdown = SearchableDropdown::new(
                options,
                clone_author(&app.selected_author),
            );
        },
        Err(error) => {
            app.error = Some(error);
        },
    }
    Vec::new()
}

/// What opening the form for a new author does: the form is emptied, and no author is
/// being edited.
pub open spec fn author_adding(pre: BookshelfApp, post: BookshelfApp) -> bool {
    &&& post == (BookshelfApp {
        mode: Mode::Add,
        current_author: None,
        author_name: post.author_name,
        ..pre
    })
    &&& post.author_name@.len() == 0
}

/// Opens the form for a new author.
pub fn handle_add_author_mode(app: &mut BookshelfApp) -> (commands: Vec<Command>)
    ensures
        author_adding(*old(app), *final(app)),
        commands@.len() == 0,
{
    app.mode = Mode::Add;
    app.current_author = None;
    app.author_name = String::new();
    Vec::new()
}

/// The name of an author, or the empty text where the author has none.
pub open spec fn name_text(author: AuthorModel) -> Seq<char> {
    match author.Name {
        Some(name) => name@,
        None => Seq::empty(),
    }
}

/// What opening the form for an author does: the author is the one being edited, and
/// the form shows the author's name.
pub open spec fn author_editing(pre: BookshelfApp, author: AuthorModel, post: BookshelfApp) -> bool {
    &&& post == (BookshelfApp {
        mode: Mode::Edit,
        current_author: Some(author),
        author_name: post.author_name,
        ..pre
    })
    &&& post.author_name@ == name_text(author)
}

/// Opens the form for `author`.
pub fn handle_edit_author_mode(app: &mut BookshelfApp, author: AuthorModel) -> (commands: Vec<
    Command,
>)
    ensures
        author_editing(*old(app), author, *final(app)),
        commands@.len() == 0,
{
    app.mode = Mode::Edit;
    app.author_name = match &author.Name {
        Some(name) => name.clone(),
        None => String::new(),
    };
    app.current_author = Some(author);
    Vec::new()
}

/// What leaving the form or the details of an author does: the list is shown, no
/// author is being edited or shown, the form is emptied of whatever was typed into
/// it, the books of the author are let go, and the authors are asked for.
pub open spec fn author_viewing(
    pre: BookshelfApp,
    post: BookshelfApp,
    commands: Seq<Command>,
) -> bool {
    &&& post == (BookshelfApp {
        mode: Mode::View,
        current_author: None,
        author_name: post.author_name,
        author_books: post.author_books,
        authors_request: next_request(pre.authors_request),
        ..pre
    })
    &&& post.author_name@.len() == 0
    &&& post.author_books@.len() == 0
    &&& commands == seq![Command::LoadAuthors(post.authors_request)]
}

/// Leaves the form or the details of an author for the list.
pub fn handle_view_author_mode(app: &mut BookshelfApp) -> (commands: Vec<Command>)
    ensures
        author_viewing(*old(app), *final(app), commands@),
{
    app.mode = Mode::View;
    app.current_author = None;
    app.author_name = String::new();
    app.author_books = Vec::new();
    handle_load_authors(app)
}

/// What showing an author does: the author is the one being shown, and the books of
/// that author, and of no other, are asked for.
pub open spec fn author_detailing(
    pre: BookshelfApp,
    author: AuthorModel,
    post: BookshelfApp,
    commands: Seq<Command>,
) -> bool {
    &&& post == (BookshelfApp {
        mode: Mode::ViewDetails,
        current_author: Some(author),
        author_books_request: next_request(pre.author_books_request),
        ..pre
    })
    &&& commands == seq![Command::LoadAuthorBooks(post.author_books_request, author.Id)]
}

/// Shows `author` with the author's books.
pub fn handle_view_author_details(app: &mut BookshelfApp, author: AuthorModel) -> (commands: Vec<
    Command,
>)
    ensures
        author_detailing(*old(app), author, *final(app), commands@),
{
    app.mode = Mode::ViewDetails;
    let id = author.Id;
    app.current_author = Some(author);
    app.author_books_request = request_after(app.author_books_request);
    only(Command::LoadAuthorBooks(app.author_books_request, id))
}

/// What the answer to a request for the books of an author does. An answer to any
/// request but the latest is dropped. The books of a good answer, however few, become
/// the books of the author being shown. A bad answer leaves its message as the error.
pub open spec fn author_books_loaded(
    pre: BookshelfApp,
    request: u64,
    answer: Result<Vec<BookWithAuthor>, String>,
    post: BookshelfApp,
) -> bool {
    if request != pre.author_books_request {
        post == pre
    } else {
        match answer {
            Ok(loaded) => post == (BookshelfApp { author_books: loaded, ..pre }),
            Err(error) => post == (BookshelfApp { error: Some(error), ..pre }),
        }
    }
}

/// Takes the answer to a request for the books of an author.
pub fn handle_author_books_loaded(
    app: &mut BookshelfApp,
    request: u64,
    result: Result<Vec<BookWithAuthor>, String>,
) -> (commands: Vec<Command>)
    ensures
        author_books_loaded(*old(app), request, result, *final(app)),
        commands@.len() == 0,
{
    if request != app.author_books_request {
        return Vec::new();
    }
    match result {
        Ok(books) => {
            app.author_books = books;
        },
        Err(error) => {
            app.error = Some(error);
        },
    }
    Vec::new()
}

/// Takes what was typed into the name field.
pub fn handle_author_name_changed(app: &mut BookshelfApp, value: String) -> (commands: Vec<
    Command,
>)
    ensures
        *final(app) == (BookshelfApp { author_name: value, ..*old(app) }),
        commands@.len() == 0,
{
    app.author_name = value;
    Vec::new()
}

/// Whether `record` is what the form of an author holds.
pub open spec fn is_author_of_form(app: BookshelfApp, record: NewAuthor) -> bool {
    record.Name matches Some(name) && name@ == app.author_name@
}

/// What saving the author in the form does: the state stays as it is, and the store
/// is asked to overwrite the author being edited, or to store a new author where
/// none is.
pub open spec fn author_saving(
    pre: BookshelfApp,
    post: BookshelfApp,
    commands: Seq<Command>,
) -> bool {
    &&& post == pre
    &&& commands.len() == 1
    &&& match pre.current_author {
        Some(author) => {
            &&& commands[0] matches Command::UpdateAuthor(id, record)
            &&& id == author.Id
            &&& is_author_of_form(pre, record)
        },
        None => {
            &&& commands[0] matches Command::CreateAuthor(record)
            &&& is_author_of_form(pre, record)
        },
    }
}

/// Saves the author in the form.
pub fn handle_save_author(app: &mut BookshelfApp) -> (commands: Vec<Command>)
    ensures
        author_saving(*old(app), *final(app), commands@),
{
    let record = NewAuthor { Name: Some(app.author_name.clone()) };
    match &app.current_author {
        Some(author) => only(Command::UpdateAuthor(author.Id, record)),
        None => only(Command::CreateAuthor(record)),
    }
}

/// What the answer to the save of an author does: a good answer shows the list and
/// asks for the authors; a bad one leaves its message as the error and the form open.
pub open spec fn author_saved(
    pre: BookshelfApp,
    answer: Result<AuthorModel, String>,
    post: BookshelfApp,
    commands: Seq<Command>,
) -> bool {
    match answer {
        Ok(_) => {
            &&& post == (BookshelfApp {
                mode: Mode::View,
                authors_request: next_request(pre.authors_request),
                ..pre
            })
            &&& commands == seq![Command::LoadAuthors(post.authors_request)]
        },
        Err(error) => {
            &&& post == (BookshelfApp { error: Some(error), ..pre })
            &&& commands.len() == 0
        },
    }
}

/// Takes the answer to the save of an author.
pub fn handle_author_saved(app: &mut BookshelfApp, result: Result<AuthorModel, String>) -> (commands:
    Vec<Command>)
    ensures
        author_saved(*old(app), result, *final(app), commands@),
{
    match result {
        Ok(_) => {
            app.mode = Mode::View;
            handle_load_authors(app)
        },
        Err(error) => {
            app.error = Some(error);
            Vec::new()
        },
    }
}

/// Asks the user whether the author of this id and name is to be deleted.
pub fn handle_confirm_delete_author(app: &mut BookshelfApp, id: ID, name: String) -> (commands:
    Vec<Command>)
    ensures
        *final(app) == (BookshelfApp { mode: Mode::ConfirmDelete(id, name), ..*old(app) }),
        commands@.len() == 0,
{
    app.mode = Mode::ConfirmDelete(id, name);
    Vec::new()
}

/// Takes the request to delete an author back.
pub fn handle_cancel_delete_author(app: &mut BookshelfApp) -> (commands: Vec<Command>)
    ensures
        *final(app) == (BookshelfApp { mode: Mode::View, ..*old(app) }),
        commands@.len() == 0,
{
    app.mode = Mode::View;
    Vec::new()
}

/// What the confirmed deletion of an author does: the store is asked to delete the
/// author while the user is being asked about that very author, and is asked nothing
/// else. The state stays as it is until the store answers.
pub open spec fn author_deleting(
    pre: BookshelfApp,
    id: ID,
    post: BookshelfApp,
    commands: Seq<Command>,
) -> bool {
    &&& post == pre
    &&& commands == if deletion_is_confirmed(pre, Tab::Authors, id) {
        seq![Command::DeleteAuthor(id)]
    } else {
        Seq::empty()
    }
}

/// Deletes the author of this id, if the user was asked about it.
pub fn handle_delete_author(app: &mut BookshelfApp, id: ID) -> (commands: Vec<Command>)
    ensures
        author_deleting(*old(app), id, *final(app), commands@),
{
    if is_deletion_confirmed(app, Tab::Authors, id) {
        only(Command::DeleteAuthor(id))
    } else {
        Vec::new()
    }
}

/// What the answer to the deletion of an author does: whatever the answer, the list
/// is shown and the authors are asked for; a bad answer leaves its message as the
/// error.
pub open spec fn author_deleted(
    pre: BookshelfApp,
    answer: Result<usize, String>,
    post: BookshelfApp,
    commands: Seq<Command>,
) -> bool {
    &&& post == (BookshelfApp {
        mode: Mode::View,
        error: match answer {
            Ok(_) => pre.error,
            Err(error) => Some(error),
        },
        authors_request: next_request(pre.authors_request),
        ..pre
    })
    &&& commands == seq![Command::LoadAuthors(post.authors_request)]
}

/// Takes the answer to the deletion of an author.
pub fn handle_author_deleted(app: &mut BookshelfApp, result: Result<usize, String>) -> (commands:
    Vec<Command>)
    ensures
        author_deleted(*old(app), result, *final(app), commands@),
{
    app.mode = Mode::View;
    match result {
        Ok(_) => {},
        Err(error) => {
            app.error = Some(error);
        },
    }
    handle_load_authors(app)
}

} // verus!
