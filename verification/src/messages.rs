use crate::models::{AuthorModel, BookModel, BookWithAuthor, NewAuthor, NewBook, PriceInput, ID};
use vstd::prelude::*;

verus! {

/// The two screens of the application, one for each kind of record.
#[derive(Debug, Clone, Copy, PartialEq, Eq, Structural)]
pub enum Tab {
    Books,
    Authors,
}

impl Tab {
    /// The caption of the tab.
    pub open spec fn label_text(self) -> Seq<char> {
        match self {
            Tab::Books => "Books"@,
            Tab::Authors => "Authors"@,
        }
    }

    /// The caption of the tab.
    pub fn label(&self) -> (text: String)
        ensures
            text@ == self.label_text(),
    {
        match self {
            Tab::Books => "Books".to_string(),
            Tab::Authors => "Authors".to_string(),
        }
    }
}

/// The workflow the user is in. One mode is active at a time; entering one leaves the
/// other.
#[derive(Debug)]
pub enum Mode {
    /// The list of records.
    View,
    /// One author with that author's books.
    ViewDetails,
    /// The form for a new record.
    Add,
    /// The form for the record being edited.
    Edit,
    /// The question whether the record with this id and name is to be deleted.
    ConfirmDelete(ID, String),
}

impl Clone for Mode {
    fn clone(&self) -> (copy: Self)
        ensures
            copy == *self,
    {
        match self {
            Mode::View => Mode::View,
            Mode::ViewDetails => Mode::ViewDetails,
            Mode::Add => Mode::Add,
            Mode::Edit => Mode::Edit,
            Mode::ConfirmDelete(id, name) => Mode::ConfirmDelete(*id, name.clone()),
        }
    }
}

/// The field the list of books is ordered by.
#[derive(Debug, Clone, Copy, PartialEq, Eq, Structural)]
pub enum SortField {
    Title,
    Author,
    Price,
    DateAdded,
}

impl SortField {
    /// The caption of the field.
    pub open spec fn label_text(self) -> Seq<char> {
        match self {
            SortField::Title => "Title"@,
            SortField::Author => "Author"@,
            SortField::Price => "Price"@,
            SortField::DateAdded => "Date Added"@,
        }
    }

    /// The caption of the field.
    pub fn label(&self) -> (text: String)
        ensures
            text@ == self.label_text(),
    {
        match self {
            SortField::Title => "Title".to_string(),
            SortField::Author => "Author".to_string(),
            SortField::Price => "Price".to_string(),
            SortField::DateAdded => "Date Added".to_string(),
        }
    }
}

/// The direction the list of books is ordered in.
#[derive(Debug, Clone, Copy, PartialEq, Eq, Structural)]
pub enum SortDirection {
    Ascending,
    Descending,
}

impl SortDirection {
    /// The caption of the direction.
    pub open spec fn label_text(self) -> Seq<char> {
        match self {
            SortDirection::Ascending => "A-Z, Low to High"@,
            SortDirection::Descending => "Z-A, High to Low"@,
        }
    }

    /// The caption of the direction.
    pub fn label(&self) -> (text: String)
        ensures
            text@ == self.label_text(),
    {
        match self {
            SortDirection::Ascending => "A-Z, Low to High".to_string(),
            SortDirection::Descending => "Z-A, High to Low".to_string(),
        }
    }
}

/// Everything that can happen to the application: what the user does, and what the
/// store answers.
#[derive(Debug)]
pub enum Message {
    /// A tab was picked.
    TabSelected(Tab),
    /// A field to order the books by was picked.
    SortFieldSelected(SortField),
    /// A direction to order the books in was picked.
    SortDirectionSelected(SortDirection),
    /// The list on show is to be ordered again.
    ApplySorting,
    /// The text in the search field changed.
    SearchQueryChanged(PriceInput),
    /// The search was asked for.
    PerformSearch,
    /// The search was dropped.
    ClearSearch,
    /// The books are to be loaded.
    LoadBooks,
    /// The store answered the request of this number for the books.
    BooksLoaded(u64, Result<Vec<BookWithAuthor>, String>),
    /// A book is to be added.
    AddBookMode,
    /// This book is to be edited.
    EditBookMode(BookWithAuthor),
    /// The form of a book was left.
    ViewBookMode,
    BookTitleChanged(String),
    BookPriceChanged(PriceInput),
    BookBoughtDateChanged(String),
    BookFinishedDateChanged(String),
    /// An author was picked for the book in the form.
    BookAuthorSelected(AuthorModel),
    /// The book in the form is to be saved.
    SaveBook,
    /// The store answered the save of a book.
    BookSaved(Result<BookModel, String>),
    /// The user asked to delete the book of this id and title.
    ConfirmDeleteBook(ID, String),
    /// The user confirmed that the book of this id is to be deleted.
    DeleteBook(ID),
    /// The user took the request to delete a book back.
    CancelDeleteBook,
    /// The store answered the deletion of a book.
    BookDeleted(Result<usize, String>),
    /// The authors are to be loaded.
    LoadAuthors,
    /// The store answered the request of this number for the authors.
    AuthorsLoaded(u64, Result<Vec<AuthorModel>, String>),
    /// An author is to be added.
    AddAuthorMode,
    /// This author is to be edited.
    EditAuthorMode(AuthorModel),
    /// The form or the details of an author were left.
    ViewAuthorMode,
    /// This author is to be shown with the author's books.
    ViewAuthorDetails(AuthorModel),
    /// The store answered the request of this number for the books of an author.
    AuthorBooksLoaded(u64, Result<Vec<BookWithAuthor>, String>),
    AuthorNameChanged(String),
    /// The author in the form is to be saved.
    SaveAuthor,
    /// The store answered the save of an author.
    AuthorSaved(Result<AuthorModel, String>),
    /// The user asked to delete the author of this id and name.
    ConfirmDeleteAuthor(ID, String),
    /// The user confirmed that the author of this id is to be deleted.
    DeleteAuthor(ID),
    /// The user took the request to delete an author back.
    CancelDeleteAuthor,
    /// The store answered the deletion of an author.
    AuthorDeleted(Result<usize, String>),
    /// The list of authors in the form of a book was opened or closed.
    ToggleAuthorDropdown,
    /// The text in the search field of that list changed.
    AuthorSearchChanged(String),
    /// The application started, and this is how connecting to the store went.
    Initialize(Result<(), String>),
    /// Something failed, with this message.
    Error(String),
}

/// Whether two answers of the store are the same answer: lists are the same when
/// they hold the same records in the same order.
pub open spec fn same_answer<T>(one: Result<Vec<T>, String>, other: Result<Vec<T>, String>) -> bool {
    match (one, other) {
        (Ok(these), Ok(those)) => these@ == those@,
        (Err(this), Err(that)) => this == that,
        _ => false,
    }
}

/// A copy of what the store answered to a request for books.
pub fn clone_books_answer(answer: &Result<Vec<BookWithAuthor>, String>) -> (copy: Result<
    Vec<BookWithAuthor>,
    String,
>)
    ensures
        same_answer(copy, *answer),
{
    match answer {
        Ok(books) => {
            let copy = books.clone();
            assert(copy@ =~= books@);
            Ok(copy)
        },
        Err(error) => Err(error.clone()),
    }
}

/// A copy of what the store answered to a request for authors.
pub fn clone_authors_answer(answer: &Result<Vec<AuthorModel>, String>) -> (copy: Result<
    Vec<AuthorModel>,
    String,
>)
    ensures
        same_answer(copy, *answer),
{
    match answer {
        Ok(authors) => {
            let copy = authors.clone();
            assert(copy@ =~= authors@);
            Ok(copy)
        },
        Err(error) => Err(error.clone()),
    }
}

/// A copy of what the store answered to a deletion.
pub fn clone_count_answer(answer: &Result<usize, String>) -> (copy: Result<usize, String>)
    ensures
        copy == *answer,
{
    match answer {
        Ok(count) => Ok(*count),
        Err(error) => Err(error.clone()),
    }
}

impl Message {
    /// Whether two messages say the same: they are of the same kind and carry the
    /// same, lists being the same when they hold the same records in the same order.
    pub open spec fn says_the_same(self, other: Message) -> bool {
        match (self, other) {
            (Message::BooksLoaded(request, answer), Message::BooksLoaded(number, reply)) => {
                request == number && same_answer(answer, reply)
            },
            (
                Message::AuthorBooksLoaded(request, answer),
                Message::AuthorBooksLoaded(number, reply),
            ) => request == number && same_answer(answer, reply),
            (Message::AuthorsLoaded(request, answer), Message::AuthorsLoaded(number, reply)) => {
                request == number && same_answer(answer, reply)
            },
            _ => self == other,
        }
    }
}

impl Clone for Message {
    fn clone(&self) -> (copy: Self)
        ensures
            copy.says_the_same(*self),
    {
        match self {
            Message::TabSelected(tab) => Message::TabSelected(*tab),
            Message::SortFieldSelected(field) => Message::SortFieldSelected(*field),
            Message::SortDirectionSelected(direction) => Message::SortDirectionSelected(
                *direction,
            ),
            Message::ApplySorting => Message::ApplySorting,
            Message::SearchQueryChanged(query) => Message::SearchQueryChanged(query.clone()),
            Message::PerformSearch => Message::PerformSearch,
            Message::ClearSearch => Message::ClearSearch,
            Message::LoadBooks => Message::LoadBooks,
            Message::BooksLoaded(request, answer) => Message::BooksLoaded(
                *request,
                clone_books_answer(answer),
            ),
            Message::AddBookMode => Message::AddBookMode,
            Message::EditBookMode(book) => Message::EditBookMode(book.clone()),
            Message::ViewBookMode => Message::ViewBookMode,
            Message::BookTitleChanged(text) => Message::BookTitleChanged(text.clone()),
            Message::BookPriceChanged(input) => Message::BookPriceChanged(input.clone()),
            Message::BookBoughtDateChanged(text) => Message::BookBoughtDateChanged(text.clone()),
            Message::BookFinishedDateChanged(text) => Message::BookFinishedDateChanged(
                text.clone(),
            ),
            Message::BookAuthorSelected(author) => Message::BookAuthorSelected(author.clone()),
            Message::SaveBook => Message::SaveBook,
            Message::BookSaved(answer) => Message::BookSaved(
                match answer {
                    Ok(book) => Ok(book.clone()),
                    Err(error) => Err(error.clone()),
                },
            ),
            Message::ConfirmDeleteBook(id, title) => Message::ConfirmDeleteBook(
                *id,
                title.clone(),
            ),
            Message::DeleteBook(id) => Message::DeleteBook(*id),
            Message::CancelDeleteBook => Message::CancelDeleteBook,
            Message::BookDeleted(answer) => Message::BookDeleted(clone_count_answer(answer)),
            Message::LoadAuthors => Message::LoadAuthors,
            Message::AuthorsLoaded(request, answer) => Message::AuthorsLoaded(
                *request,
                clone_authors_answer(answer),
            ),
            Message::AddAuthorMode => Message::AddAuthorMode,
            Message::EditAuthorMode(author) => Message::EditAuthorMode(author.clone()),
            Message::ViewAuthorMode => Message::ViewAuthorMode,
            Message::ViewAuthorDetails(author) => Message::ViewAuthorDetails(author.clone()),
            Message::AuthorBooksLoaded(request, answer) => Message::AuthorBooksLoaded(
                *request,
                clone_books_answer(answer),
            ),
            Message::AuthorNameChanged(text) => Message::AuthorNameChanged(text.clone()),
            Message::SaveAuthor => Message::SaveAuthor,
            Message::AuthorSaved(answer) => Message::AuthorSaved(
                match answer {
                    Ok(author) => Ok(author.clone()),
                    Err(error) => Err(error.clone()),
                },
            ),
            Message::ConfirmDeleteAuthor(id, name) => Message::ConfirmDeleteAuthor(
                *id,
                name.clone(),
            ),
            Message::DeleteAuthor(id) => Message::DeleteAuthor(*id),
            Message::CancelDeleteAuthor => Message::CancelDeleteAuthor,
            Message::AuthorDeleted(answer) => Message::AuthorDeleted(clone_count_answer(answer)),
            Message::ToggleAuthorDropdown => Message::ToggleAuthorDropdown,
            Message::AuthorSearchChanged(text) => Message::AuthorSearchChanged(text.clone()),
            Message::Initialize(answer) => Message::Initialize(
                match answer {
                    Ok(done) => Ok(*done),
                    Err(error) => Err(error.clone()),
                },
            ),
            Message::Error(text) => Message::Error(text.clone()),
        }
    }
}

/// A request to the store that the application wants made. The answer comes back as a
/// [`Message`].
#[derive(Debug)]
pub enum Command {
    /// Load all books; answered by [`Message::BooksLoaded`] with this number.
    LoadBooks(u64),
    /// Load all authors; answered by [`Message::AuthorsLoaded`] with this number.
    LoadAuthors(u64),
    /// Load the books of the author of this id; answered by
    /// [`Message::AuthorBooksLoaded`] with this number.
    LoadAuthorBooks(u64, ID),
    /// Store a new book; answered by [`Message::BookSaved`].
    CreateBook(NewBook),
    /// Overwrite the book of this id; answered by [`Message::BookSaved`].
    UpdateBook(ID, NewBook),
    /// Delete the book of this id; answered by [`Message::BookDeleted`].
    DeleteBook(ID),
    /// Store a new author; answered by [`Message::AuthorSaved`].
    CreateAuthor(NewAuthor),
    /// Overwrite the author of this id; answered by [`Message::AuthorSaved`].
    UpdateAuthor(ID, NewAuthor),
    /// Delete the author of this id; answered by [`Message::AuthorDeleted`].
    DeleteAuthor(ID),
}

impl Clone for Command {
    fn clone(&self) -> (copy: Self)
        ensures
            copy == *self,
    {
        match self {
            Command::LoadBooks(request) => Command::LoadBooks(*request),
            Command::LoadAuthors(request) => Command::LoadAuthors(*request),
            Command::LoadAuthorBooks(request, author) => Command::LoadAuthorBooks(
                *request,
                *author,
            ),
            Command::CreateBook(record) => Command::CreateBook(record.clone()),
            Command::UpdateBook(id, record) => Command::UpdateBook(*id, record.clone()),
            Command::DeleteBook(id) => Command::DeleteBook(*id),
            Command::CreateAuthor(record) => Command::CreateAuthor(record.clone()),
            Command::UpdateAuthor(id, record) => Command::UpdateAuthor(*id, record.clone()),
            Command::DeleteAuthor(id) => Command::DeleteAuthor(*id),
        }
    }
}

} // verus!
