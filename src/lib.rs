//! A client library for a project-management web service of boards, lists,
//! cards, labels and attachments.
//!
//! The library describes each request to the service's REST interface as a
//! plain value, filters lists by label, renders records as text, and reads
//! back the plain-text form in which a card's name and description are
//! edited. Every function is verified against its contract; sending requests
//! and decoding responses is left to the caller.
pub mod attachment;
pub mod board;
pub mod card;
pub mod error;
pub mod label;
pub mod list;
pub mod object;
pub mod pattern;
pub mod request;
pub mod text;

pub use attachment::Attachment;
pub use board::Board;
pub use card::{Card, CardContents};
pub use error::TrelloError;
pub use label::Label;
pub use list::List;
pub use object::TrelloObject;
