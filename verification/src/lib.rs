//! Session directory and relay engine of a modmail bot.
//!
//! Every correspondent who writes to the bot in private owns at most one staff
//! thread. The modules below keep that pairing, rebuild it from the opening
//! messages of the threads, and decide, step by step, what has to be sent
//! where.
//!
//! - [`directory`]: the pairs of correspondent and thread, in two maps that
//!   are inverse to each other.
//! - [`extract`] and [`recovery`]: reading the pairs back from the threads
//!   that the platform holds.
//! - [`relay`] and [`lifecycle`]: the tasks, each a machine that is stepped
//!   with the platform's answers; [`platform`] holds the actions and events.
//! - [`compose`], [`text`], [`config`], [`events`]: texts, numbers, settings,
//!   and the sorting of what arrives.
//! - [`laws`]: what is proved of all of it together.
//!
//! The library performs no input or output, and it holds no lock: the caller
//! guards the directory and lends it to one step at a time. Two texts, the
//! mention of a user and the number of a user, are written by the `serenity`
//! crate; what is taken on trust of them is said in [`compose`].

pub mod compose;
pub mod config;
pub mod directory;
pub mod events;
pub mod extract;
pub mod laws;
pub mod lifecycle;
pub mod platform;
pub mod recovery;
pub mod relay;
pub mod text;
