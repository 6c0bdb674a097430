//! What holds of the library as a whole.

pub mod documents;
pub mod embeddings;
pub mod endpoints;
pub mod failures;
pub mod images;
pub mod observation;
pub mod registration;
pub mod replies;
pub mod requests;
pub mod streams;
pub mod texts;
