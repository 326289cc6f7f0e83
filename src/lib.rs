//! A registry of kitties: owned 16-byte DNA values keyed by (owner, id),
//! with a global id counter, creation from a random payload and breeding
//! of two parents of differing gender.

pub mod kitty;
pub mod laws;
pub mod randomness;
pub mod registry;

pub use kitty::{Kitty, KittyGender};
pub use randomness::AccountId;
pub use registry::{Error, Event, Module};
