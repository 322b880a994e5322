//! The core of a command-line player for a remote music service, written
//! without any I/O of its own.
//!
//! A command (`CliApp::play`, `CliApp::play_uri`) never talks to the service.
//! It answers with a `Step`: either the one call that has to be made next,
//! together with the `Stage` to come back with, or the end of the command.
//! Whoever drives the library performs the call and hands the reply to
//! `CliApp::resume`. Replies are written into the shared `App` record by the
//! `Network` dispatcher, and nowhere else.

use vstd::prelude::*;

pub mod app;
pub mod cli_app;
pub mod model;
pub mod network;
pub mod random;
pub mod uri;

verus! {

/// The kinds of item a command can name.
#[derive(Debug, Clone, Copy, PartialEq, Eq, Structural)]
pub enum Type {
    Playlist,
    Track,
    Artist,
    Album,
    Show,
    Device,
    Liked,
}

impl Type {
    /// The kinds that a search by name can resolve. `Device` and `Liked`
    /// name no search category.
    pub open spec fn searchable(self) -> bool {
        !(self is Device) && !(self is Liked)
    }

    /// Whether a search by name can resolve this kind.
    pub fn is_searchable(&self) -> (b: bool)
        ensures
            b == self.searchable(),
    {
        match self {
            Type::Device | Type::Liked => false,
            _ => true,
        }
    }
}

} // verus!
