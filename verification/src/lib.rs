//! Socket transport bootstrap: deciding which listening socket a server gets,
//! and keeping its descriptor in the right blocking mode.

pub mod error;
pub mod activation;
pub mod address;
pub mod bootstrap;
pub mod descriptor;
pub mod flags;
pub mod number;
pub mod reading_back;
pub mod socket;
pub mod text;
