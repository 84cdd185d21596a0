//! Session logic of a text adventure that is narrated by a remote language model.

pub mod character;
pub mod codec;
pub mod conn;
pub mod game;
pub mod json;
pub mod schema;
pub mod text;
pub mod view;
