//! The decision logic of a pet-safety Telegram bot: the owner of a pet
//! confirms every day that all is well; when the confirmations stop, the
//! bot alerts the owner's emergency contacts.
//!
//! The library holds what the bot decides; the program around it performs
//! the network and database work that the decisions call for.

pub mod types;
pub mod config;
pub mod keyboards;
pub mod dialogue;
pub mod texts;
pub mod invites;
pub mod screens;
pub mod monitoring;
