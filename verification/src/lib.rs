//! Relays new posts of syndication feeds into chat channels.
//!
//! The crate holds the decisions of the relay: which items of a fetched feed are new,
//! what post each of them stands for, which media it carries, which messages go to
//! which channel and in what order, and when a mirror's feeds are polled next.
//! Fetching, storing and delivering are left to the caller, which asks the
//! [`schedule::Scheduler`] of a mirror and the [`cycle::Cycle`] of a feed what is due
//! and reports back what came of it.
//!
//! Addresses are read by the `url` crate, feeds by `rss`, hypertext by `scraper` and
//! base64 by `base64`. What these return is given a name and taken as it comes; what
//! the relay makes of it is proved.

pub mod text;
pub mod web;
pub mod account;
pub mod media;
pub mod feed;
pub mod detect;
pub mod dispatch;
pub mod schedule;
pub mod registry;
pub mod cycle;
pub mod command;
