//! The decision core of a membership-verification service for a community
//! platform.
//!
//! The service links the entries of a club roster, keyed by email, to the
//! accounts of a community, and keeps the community's "verified" role in step
//! with the roster. This library holds what the service decides:
//!
//! - who counts as verified ([`verification_db`]) and what a member is told
//!   ([`verification_discord`], [`embeds`]);
//! - the life of a verification session, message by message
//!   ([`verification_event`], [`verification_email`]);
//! - the record store and its operations ([`record_store`],
//!   [`session_store`]) and the roster import ([`roster`]);
//! - role reconciliation under the operators' policy ([`reconciliation`],
//!   [`feature_flags`]);
//! - the service's state as a whole, with the laws that hold of it
//!   ([`community`]);
//! - the operators' and members' commands ([`verification_commands`]), and
//!   the smaller rules of section roles and countdowns ([`sections`],
//!   [`countdowns`]).
//!
//! The library reaches no database, platform or mail server. Each decision is
//! a function from what is known to what is to be done; the program around
//! the library finds the former and carries out the latter.

pub mod community;
pub mod countdowns;
pub mod discord;
pub mod embeds;
pub mod error;
pub mod feature_flags;
pub mod reconciliation;
pub mod record_store;
pub mod roster;
pub mod sections;
pub mod session_store;
pub mod text;
pub mod verification_commands;
pub mod verification_db;
pub mod verification_discord;
pub mod verification_email;
pub mod verification_event;
