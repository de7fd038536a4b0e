//! The state of a bookshelf application, and every step it takes.
//!
//! The application keeps books and their authors in a store and shows them in lists
//! and forms. This library is its core: [`state::BookshelfApp`] holds what is on
//! show, [`state::BookshelfApp::update`] takes a [`messages::Message`] (something the
//! user did, or an answer of the store), changes the state, and returns the
//! [`messages::Command`]s that are to be sent to the store. It never waits for the
//! store and draws nothing; both are its caller's.
//!
//! Around that step stand the parts it is made of: [`sorting`] orders the books,
//! [`search`] finds the books that answer a query, [`dropdown`] is the list an author
//! is picked from, [`books`] and [`authors`] hold the steps of the two kinds of
//! records, and [`laws`] states what holds of every step.
//!
//! Every function carries its contract, and Verus proves each against its body. Four
//! calls leave the library: to lower case a text, to read and to write a date, and to
//! read the clock. Their contracts, in [`text`] and [`dates`], are taken on trust.

pub mod authors;
pub mod books;
pub mod dates;
pub mod dropdown;
pub mod laws;
pub mod messages;
pub mod models;
pub mod search;
pub mod sorting;
pub mod state;
pub mod stats;
pub mod text;
pub mod update;
