use crate::books::{deletion_is_confirmed, search_is_active};
use crate::messages::{Command, Message, Mode, SortDirection, SortField, Tab};
use crate::search::filtered;
use crate::sorting::{
    ascending_is_ordered, descending_is_ordered, is_kept, key_le, origin, sorted,
    sorted_rearranges,
};
use crate::models::{AuthorModel, BookWithAuthor, Timestamp, ID};
use crate::state::BookshelfApp;
use crate::update::transition;
use vstd::prelude::*;

verus! {

/// Whether `first` may stand before `second` in a list ordered by `field` in
/// `direction`: its key is no greater in ascending order, no smaller in descending.
pub open spec fn in_order(
    first: BookWithAuthor,
    second: BookWithAuthor,
    field: SortField,
    direction: SortDirection,
) -> bool {
    match direction {
        SortDirection::Ascending => key_le(first, second, field),
        SortDirection::Descending => key_le(second, first, field),
    }
}

/// Whether a command only reads from the store.
pub open spec fn is_load(command: Command) -> bool {
    command is LoadBooks || command is LoadAuthors || command is LoadAuthorBooks
}

/// Whether a command deletes a record.
pub open spec fn is_deletion(command: Command) -> bool {
    command is DeleteBook || command is DeleteAuthor
}

/// Every step keeps the result of a search only while a search is on.
pub proof fn steps_keep_consistency(
    pre: BookshelfApp,
    message: Message,
    now: Timestamp,
    post: BookshelfApp,
    commands: Seq<Command>,
)
    requires
        transition(pre, message, now, post, commands),
        pre.consistent(),
    ensures
        post.consistent(),
{
}

/// An empty query is never searched for: asking for the search with nothing typed
/// ends the search, and leaves nothing found.
pub proof fn empty_query_ends_the_search(
    pre: BookshelfApp,
    now: Timestamp,
    post: BookshelfApp,
    commands: Seq<Command>,
)
    requires
        transition(pre, Message::PerformSearch, now, post, commands),
        pre.search_query.text@.len() == 0,
    ensures
        !post.is_searching,
        post.filtered_books is None,
        post.displayed() == pre.books@,
        commands.len() == 0,
{
}

/// Whether a message only fills in the form of a book: something typed into a field,
/// or an author searched for or picked.
pub open spec fn fills_book_form(message: Message) -> bool {
    ||| message is BookTitleChanged
    ||| message is BookPriceChanged
    ||| message is BookBoughtDateChanged
    ||| message is BookFinishedDateChanged
    ||| message is BookAuthorSelected
    ||| message is ToggleAuthorDropdown
    ||| message is AuthorSearchChanged
}

/// Whether a message only fills in the form of an author.
pub open spec fn fills_author_form(message: Message) -> bool {
    message is AuthorNameChanged
}

/// Whether `messages` lead from the first of `states` through the others to the last,
/// one step each, and ask nothing of the store on the way.
pub open spec fn leads_through(
    states: Seq<BookshelfApp>,
    messages: Seq<Message>,
    now: Timestamp,
) -> bool {
    &&& states.len() == messages.len() + 1
    &&& forall|i: int|
        0 <= i < messages.len() ==> transition(
            states[i],
            #[trigger] messages[i],
            now,
            states[i + 1],
            Seq::empty(),
        )
}

/// Whether two states differ in nothing but the form of a book and the list its
/// author is picked from.
pub open spec fn same_but_book_form(one: BookshelfApp, other: BookshelfApp) -> bool {
    other == (BookshelfApp {
        book_title: other.book_title,
        book_price: other.book_price,
        book_bought_date: other.book_bought_date,
        book_finished_date: other.book_finished_date,
        selected_author: other.selected_author,
        author_dropdown: other.author_dropdown,
        ..one
    })
}

/// Whether two states differ in nothing but the form of an author.
pub open spec fn same_but_author_form(one: BookshelfApp, other: BookshelfApp) -> bool {
    other == (BookshelfApp { author_name: other.author_name, ..one })
}

/// Filling in the form of a book changes nothing but the form.
pub proof fn filling_touches_the_book_form_only(
    states: Seq<BookshelfApp>,
    messages: Seq<Message>,
    now: Timestamp,
    i: int,
)
    requires
        leads_through(states, messages, now),
        forall|j: int| 0 <= j < messages.len() ==> fills_book_form(#[trigger] messages[j]),
        0 <= i < states.len(),
    ensures
        same_but_book_form(states[0], states[i]),
    decreases i,
{
    if i > 0 {
        filling_touches_the_book_form_only(states, messages, now, i - 1);
        assert(fills_book_form(messages[i - 1]));
        assert(transition(states[i - 1], messages[i - 1], now, states[i], Seq::empty()));
    }
}

/// Filling in the form of an author changes nothing but the form.
pub proof fn filling_touches_the_author_form_only(
    states: Seq<BookshelfApp>,
    messages: Seq<Message>,
    now: Timestamp,
    i: int,
)
    requires
        leads_through(states, messages, now),
        forall|j: int| 0 <= j < messages.len() ==> fills_author_form(#[trigger] messages[j]),
        0 <= i < states.len(),
    ensures
        same_but_author_form(states[0], states[i]),
    decreases i,
{
    if i > 0 {
        filling_touches_the_author_form_only(states, messages, now, i - 1);
        assert(fills_author_form(messages[i - 1]));
        assert(transition(states[i - 1], messages[i - 1], now, states[i], Seq::empty()));
    }
}

/// Opening the form for a new book, filling it in in any way, and leaving it again
/// shows the list with the form empty. Nothing is written to the store on the way,
/// and the books stay as they were.
pub proof fn cancelled_creation_leaves_the_form_empty(
    start: BookshelfApp,
    filled: Seq<BookshelfApp>,
    typed: Seq<Message>,
    left: BookshelfApp,
    first: Seq<Command>,
    second: Seq<Command>,
    now: Timestamp,
    later: Timestamp,
)
    requires
        leads_through(filled, typed, now),
        forall|j: int| 0 <= j < typed.len() ==> fills_book_form(#[trigger] typed[j]),
        transition(start, Message::AddBookMode, now, filled[0], first),
        transition(filled.last(), Message::ViewBookMode, later, left, second),
    ensures
        forall|i: int|
            0 <= i < filled.len() ==> (#[trigger] filled[i]).mode == Mode::Add && filled[i].books
                == start.books,
        left.mode == Mode::View,
        left.current_book is None,
        left.book_title@.len() == 0,
        left.book_price.is_blank(),
        left.book_bought_date@.len() == 0,
        left.book_finished_date@.len() == 0,
        left.selected_author is None,
        left.books == start.books,
        first.len() == 1 && is_load(first[0]),
        second.len() == 1 && is_load(second[0]),
{
    assert forall|i: int| 0 <= i < filled.len() implies (#[trigger] filled[i]).mode == Mode::Add
        && filled[i].books == start.books by {
        filling_touches_the_book_form_only(filled, typed, now, i);
    }
    filling_touches_the_book_form_only(filled, typed, now, filled.len() - 1);
}

/// The same of the form for a new author.
pub proof fn cancelled_author_creation_leaves_the_form_empty(
    start: BookshelfApp,
    filled: Seq<BookshelfApp>,
    typed: Seq<Message>,
    left: BookshelfApp,
    first: Seq<Command>,
    second: Seq<Command>,
    now: Timestamp,
    later: Timestamp,
)
    requires
        leads_through(filled, typed, now),
        forall|j: int| 0 <= j < typed.len() ==> fills_author_form(#[trigger] typed[j]),
        transition(start, Message::AddAuthorMode, now, filled[0], first),
        transition(filled.last(), Message::ViewAuthorMode, later, left, second),
    ensures
        forall|i: int|
            0 <= i < filled.len() ==> (#[trigger] filled[i]).mode == Mode::Add
                && filled[i].authors == start.authors,
        left.mode == Mode::View,
        left.current_author is None,
        left.author_name@.len() == 0,
        left.authors == start.authors,
        first.len() == 0,
        second.len() == 1 && is_load(second[0]),
{
    assert forall|i: int| 0 <= i < filled.len() implies (#[trigger] filled[i]).mode == Mode::Add
        && filled[i].authors == start.authors by {
        filling_touches_the_author_form_only(filled, typed, now, i);
    }
    filling_touches_the_author_form_only(filled, typed, now, filled.len() - 1);
}

/// Opening the form for a book, changing what it holds in any way, and leaving it
/// again changes nothing of the book: while the form is open the book being edited
/// is the book that was given, and on the way nothing is written to the store and
/// the books stay as they were. The form is left empty.
pub proof fn cancelled_edit_leaves_the_book(
    start: BookshelfApp,
    book: BookWithAuthor,
    filled: Seq<BookshelfApp>,
    typed: Seq<Message>,
    left: BookshelfApp,
    first: Seq<Command>,
    second: Seq<Command>,
    now: Timestamp,
    later: Timestamp,
)
    requires
        leads_through(filled, typed, now),
        forall|j: int| 0 <= j < typed.len() ==> fills_book_form(#[trigger] typed[j]),
        transition(start, Message::EditBookMode(book), now, filled[0], first),
        transition(filled.last(), Message::ViewBookMode, later, left, second),
    ensures
        forall|i: int|
            0 <= i < filled.len() ==> {
                &&& (#[trigger] filled[i]).mode == Mode::Edit
                &&& filled[i].current_book == Some(book)
                &&& filled[i].books == start.books
                &&& filled[i].filtered_books == start.filtered_books
            },
        left.mode == Mode::View,
        left.current_book is None,
        left.books == start.books,
        left.filtered_books == start.filtered_books,
        left.book_title@.len() == 0,
        left.book_price.is_blank(),
        left.book_bought_date@.len() == 0,
        left.book_finished_date@.len() == 0,
        left.selected_author is None,
        first.len() == 1 && is_load(first[0]),
        second.len() == 1 && is_load(second[0]),
{
    assert forall|i: int| 0 <= i < filled.len() implies {
        &&& (#[trigger] filled[i]).mode == Mode::Edit
        &&& filled[i].current_book == Some(book)
        &&& filled[i].books == start.books
        &&& filled[i].filtered_books == start.filtered_books
    } by {
        filling_touches_the_book_form_only(filled, typed, now, i);
    }
    filling_touches_the_book_form_only(filled, typed, now, filled.len() - 1);
}

/// The same of the form for an author.
pub proof fn cancelled_edit_leaves_the_author(
    start: BookshelfApp,
    author: AuthorModel,
    filled: Seq<BookshelfApp>,
    typed: Seq<Message>,
    left: BookshelfApp,
    first: Seq<Command>,
    second: Seq<Command>,
    now: Timestamp,
    later: Timestamp,
)
    requires
        leads_through(filled, typed, now),
        forall|j: int| 0 <= j < typed.len() ==> fills_author_form(#[trigger] typed[j]),
        transition(start, Message::EditAuthorMode(author), now, filled[0], first),
        transition(filled.last(), Message::ViewAuthorMode, later, left, second),
    ensures
        forall|i: int|
            0 <= i < filled.len() ==> {
                &&& (#[trigger] filled[i]).mode == Mode::Edit
                &&& filled[i].current_author == Some(author)
                &&& filled[i].authors == start.authors
            },
        left.mode == Mode::View,
        left.current_author is None,
        left.author_name@.len() == 0,
        left.authors == start.authors,
        first.len() == 0,
        second.len() == 1 && is_load(second[0]),
{
    assert forall|i: int| 0 <= i < filled.len() implies {
        &&& (#[trigger] filled[i]).mode == Mode::Edit
        &&& filled[i].current_author == Some(author)
        &&& filled[i].authors == start.authors
    } by {
        filling_touches_the_author_form_only(filled, typed, now, i);
    }
    filling_touches_the_author_form_only(filled, typed, now, filled.len() - 1);
}

/// Leaving the form of a book empties it, whatever state it is left in.
pub proof fn leaving_empties_the_book_form(
    pre: BookshelfApp,
    now: Timestamp,
    post: BookshelfApp,
    commands: Seq<Command>,
)
    requires
        transition(pre, Message::ViewBookMode, now, post, commands),
    ensures
        post.mode == Mode::View,
        post.current_book is None,
        post.book_title@.len() == 0,
        post.book_price.is_blank(),
        post.book_bought_date@.len() == 0,
        post.book_finished_date@.len() == 0,
        post.selected_author is None,
        commands.len() == 1 && is_load(commands[0]),
{
}

/// Nothing is deleted unless the user is being asked whether to delete: whatever
/// happens in any other mode, no request to delete follows.
pub proof fn deletion_needs_confirmation(
    pre: BookshelfApp,
    message: Message,
    now: Timestamp,
    post: BookshelfApp,
    commands: Seq<Command>,
    i: int,
)
    requires
        transition(pre, message, now, post, commands),
        !(pre.mode is ConfirmDelete),
        0 <= i < commands.len(),
    ensures
        !is_deletion(commands[i]),
{
}

/// What is deleted is what the user was asked about: a request to delete a book
/// follows only from the confirmation for that book, given on the tab of the books
/// while the user is being asked about the book of that id.
pub proof fn only_the_confirmed_book_is_deleted(
    pre: BookshelfApp,
    message: Message,
    now: Timestamp,
    post: BookshelfApp,
    commands: Seq<Command>,
    i: int,
    id: ID,
)
    requires
        transition(pre, message, now, post, commands),
        0 <= i < commands.len(),
        commands[i] == Command::DeleteBook(id),
    ensures
        message == Message::DeleteBook(id),
        deletion_is_confirmed(pre, Tab::Books, id),
        post == pre,
{
}

/// The same of authors.
pub proof fn only_the_confirmed_author_is_deleted(
    pre: BookshelfApp,
    message: Message,
    now: Timestamp,
    post: BookshelfApp,
    commands: Seq<Command>,
    i: int,
    id: ID,
)
    requires
        transition(pre, message, now, post, commands),
        0 <= i < commands.len(),
        commands[i] == Command::DeleteAuthor(id),
    ensures
        message == Message::DeleteAuthor(id),
        deletion_is_confirmed(pre, Tab::Authors, id),
        post == pre,
{
}

/// A deletion that failed still ends the question: the list is shown, the books are
/// asked for again, and the reason is left as the error.
pub proof fn failed_deletion_returns_to_the_list(
    pre: BookshelfApp,
    reason: String,
    now: Timestamp,
    post: BookshelfApp,
    commands: Seq<Command>,
)
    requires
        transition(pre, Message::BookDeleted(Err(reason)), now, post, commands),
    ensures
        post.mode == Mode::View,
        post.error == Some(reason),
        commands == seq![Command::LoadBooks(post.books_request)],
        post.books_request != pre.books_request,
{
}

/// The same of authors.
pub proof fn failed_author_deletion_returns_to_the_list(
    pre: BookshelfApp,
    reason: String,
    now: Timestamp,
    post: BookshelfApp,
    commands: Seq<Command>,
)
    requires
        transition(pre, Message::AuthorDeleted(Err(reason)), now, post, commands),
    ensures
        post.mode == Mode::View,
        post.error == Some(reason),
        commands == seq![Command::LoadAuthors(post.authors_request)],
        post.authors_request != pre.authors_request,
{
}

/// Picking an author closes the list of authors and drops what was searched for in
/// it, whatever state the list was in.
pub proof fn selection_closes_the_dropdown(
    pre: BookshelfApp,
    author: AuthorModel,
    now: Timestamp,
    post: BookshelfApp,
    commands: Seq<Command>,
)
    requires
        transition(pre, Message::BookAuthorSelected(author), now, post, commands),
    ensures
        !post.author_dropdown@.is_open,
        post.author_dropdown@.search_term.len() == 0,
        post.author_dropdown@.selected == Some(author),
        post.author_dropdown@.options == pre.author_dropdown@.options,
        post.selected_author == Some(author),
{
}

/// A price that is no number keeps the book from being saved: the state stays as it
/// is but for the error, the mode with it, and the store is asked nothing.
pub proof fn invalid_price_blocks_the_save(
    pre: BookshelfApp,
    now: Timestamp,
    post: BookshelfApp,
    commands: Seq<Command>,
)
    requires
        transition(pre, Message::SaveBook, now, post, commands),
        pre.book_price.text@.len() > 0,
        pre.book_price.price is None,
    ensures
        commands.len() == 0,
        post.mode == pre.mode,
        post.error is Some,
        post.books == pre.books,
{
}

/// An answer to a request that is no longer the latest changes nothing.
pub proof fn stale_answers_are_dropped(
    pre: BookshelfApp,
    request: u64,
    answer: Result<Vec<BookWithAuthor>, String>,
    now: Timestamp,
    post: BookshelfApp,
    commands: Seq<Command>,
)
    requires
        transition(pre, Message::BooksLoaded(request, answer), now, post, commands),
        request != pre.books_request,
    ensures
        post == pre,
        commands.len() == 0,
{
}

/// The books of a good answer to the latest request are held in the order that is
/// picked: they are the loaded books, each once and none besides, and no book stands
/// before one that the order puts first. A book that the store lists last stands
/// where its key puts it.
pub proof fn loaded_books_are_sorted(
    pre: BookshelfApp,
    loaded: Vec<BookWithAuthor>,
    now: Timestamp,
    post: BookshelfApp,
    commands: Seq<Command>,
)
    requires
        transition(pre, Message::BooksLoaded(pre.books_request, Ok(loaded)), now, post, commands),
    ensures
        post.books@ == sorted(loaded@, post.sort_field, post.sort_direction),
        post.sort_field == pre.sort_field && post.sort_direction == pre.sort_direction,
        post.books@.len() == loaded@.len(),
        forall|a: int|
            0 <= a < loaded@.len() ==> 0 <= #[trigger] origin(
                loaded@,
                post.sort_field,
                post.sort_direction,
                a,
            ) < loaded@.len(),
        forall|a: int|
            0 <= a < loaded@.len() ==> #[trigger] post.books@[a] == loaded@[origin(
                loaded@,
                post.sort_field,
                post.sort_direction,
                a,
            )],
        forall|a: int, b: int|
            0 <= a < b < loaded@.len() ==> #[trigger] origin(
                loaded@,
                post.sort_field,
                post.sort_direction,
                a,
            ) != #[trigger] origin(loaded@, post.sort_field, post.sort_direction, b),
        forall|i: int|
            0 <= i < loaded@.len() ==> #[trigger] is_kept(
                loaded@,
                post.sort_field,
                post.sort_direction,
                i,
            ),
        forall|a: int, b: int|
            0 <= a <= b < loaded@.len() ==> in_order(
                #[trigger] post.books@[a],
                #[trigger] post.books@[b],
                post.sort_field,
                post.sort_direction,
            ),
{
    sorted_rearranges(loaded@, pre.sort_field, pre.sort_direction);
    let held = sorted(loaded@, pre.sort_field, pre.sort_direction);
    assert forall|a: int| 0 <= a < loaded@.len() implies 0 <= #[trigger] origin(
        loaded@,
        post.sort_field,
        post.sort_direction,
        a,
    ) < loaded@.len() by {
        assert(held[a] == loaded@[origin(loaded@, pre.sort_field, pre.sort_direction, a)]);
    }
    assert forall|a: int| 0 <= a < loaded@.len() implies #[trigger] post.books@[a]
        == loaded@[origin(loaded@, post.sort_field, post.sort_direction, a)] by {
        assert(held[a] == post.books@[a]);
    }
    assert forall|a: int, b: int| 0 <= a <= b < loaded@.len() implies in_order(
        #[trigger] post.books@[a],
        #[trigger] post.books@[b],
        post.sort_field,
        post.sort_direction,
    ) by {
        match pre.sort_direction {
            SortDirection::Ascending => ascending_is_ordered(loaded@, pre.sort_field, a, b),
            SortDirection::Descending => descending_is_ordered(loaded@, pre.sort_field, a, b),
        }
    }
}

/// A search outlives a reload: while a search is active, the books of a good answer
/// to the latest request are searched for the query last searched for, and what is
/// found is shown in the order that is picked. Where the search field still holds
/// that query, this is what asking for the search again would find among the loaded
/// books.
pub proof fn reload_repeats_the_search(
    pre: BookshelfApp,
    loaded: Vec<BookWithAuthor>,
    now: Timestamp,
    post: BookshelfApp,
    commands: Seq<Command>,
)
    requires
        transition(pre, Message::BooksLoaded(pre.books_request, Ok(loaded)), now, post, commands),
        search_is_active(pre),
    ensures
        post.is_searching,
        post.search_term_displayed == pre.search_term_displayed,
        post.displayed() == sorted(
            filtered(loaded@, pre.search_term_displayed),
            pre.sort_field,
            pre.sort_direction,
        ),
        pre.search_query == pre.search_term_displayed ==> post.displayed() == sorted(
            filtered(loaded@, post.search_query),
            post.sort_field,
            post.sort_direction,
        ),
{
}

/// Picking a field orders the list on show by that field, whether a search is on or
/// not.
pub proof fn picked_field_orders_the_list_on_show(
    pre: BookshelfApp,
    field: SortField,
    now: Timestamp,
    post: BookshelfApp,
    commands: Seq<Command>,
)
    requires
        transition(pre, Message::SortFieldSelected(field), now, post, commands),
    ensures
        post.sort_field == field,
        post.sort_direction == pre.sort_direction,
        post.displayed() == sorted(pre.displayed(), field, pre.sort_direction),
        commands.len() == 0,
{
}

/// Picking a direction orders the list on show in that direction, whether a search
/// is on or not.
pub proof fn picked_direction_orders_the_list_on_show(
    pre: BookshelfApp,
    direction: SortDirection,
    now: Timestamp,
    post: BookshelfApp,
    commands: Seq<Command>,
)
    requires
        transition(pre, Message::SortDirectionSelected(direction), now, post, commands),
    ensures
        post.sort_field == pre.sort_field,
        post.sort_direction == direction,
        post.displayed() == sorted(pre.displayed(), pre.sort_field, direction),
        commands.len() == 0,
{
}

/// Where the store holds no books and no search is on, the list on show is empty and
/// the words for no books stand in its place.
pub proof fn no_books_shows_the_empty_list(
    pre: BookshelfApp,
    loaded: Vec<BookWithAuthor>,
    now: Timestamp,
    post: BookshelfApp,
    commands: Seq<Command>,
)
    requires
        transition(pre, Message::BooksLoaded(pre.books_request, Ok(loaded)), now, post, commands),
        loaded@.len() == 0,
        !pre.is_searching,
    ensures
        post.displayed().len() == 0,
        post.empty_list_text() == Some(BookshelfApp::no_books()),
{
    sorted_rearranges(loaded@, pre.sort_field, pre.sort_direction);
}

} // verus!
