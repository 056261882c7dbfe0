//! A store of todo items: the collection, the order it is shown in, the
//! references by which a user names an item, the lifecycle of an item, and the
//! selection of finished items for the archive.

pub mod item;
pub mod order;
pub mod ident;
pub mod clock;
pub mod reference;
pub mod model;
pub mod cli;
pub mod term;
pub mod command;
pub mod laws;
