//! The shared state: the one record in which the latest answers of the
//! service are kept.
//!
//! It is written through `&mut`, so a writer is alone with it for the length
//! of the write and a reader never sees half of one.

use vstd::prelude::*;
use crate::model::{Device, DeviceView, Error, ErrorView, Playback, PlaybackView, SearchResults, SearchResultsView};

verus! {

/// The latest known devices, playback, search results and error.
#[derive(Debug, Clone, PartialEq, Eq)]
pub struct App {
    pub devices: Option<Vec<Device>>,
    pub playback_context: Option<Playback>,
    pub search_results: SearchResults,
    pub last_error: Option<Error>,
}

#[verifier::ext_equal]
pub struct AppView {
    pub devices: Option<Seq<DeviceView>>,
    pub playback_context: Option<PlaybackView>,
    pub search_results: SearchResultsView,
    pub last_error: Option<ErrorView>,
}

impl AppView {
    /// The state at start: nothing known, nothing gone wrong.
    pub open spec fn empty() -> AppView {
        AppView {
            devices: None,
            playback_context: None,
            search_results: SearchResultsView::empty(),
            last_error: None,
        }
    }

    /// This state with `e` as its last error and all else as it was.
    pub open spec fn with_error(self, e: ErrorView) -> AppView {
        AppView { last_error: Some(e), ..self }
    }
}

impl View for App {
    type V = AppView;

    open spec fn view(&self) -> AppView {
        AppView {
            devices: self.devices.deep_view(),
            playback_context: self.playback_context.deep_view(),
            search_results: self.search_results@,
            last_error: self.last_error.deep_view(),
        }
    }
}

impl App {
    /// The state at start.
    pub fn new() -> (app: App)
        ensures
            app@ == AppView::empty(),
    {
        App {
            devices: None,
            playback_context: None,
            search_results: SearchResults::new(),
            last_error: None,
        }
    }

    /// Records `e` as the last error. Nothing else changes.
    pub fn handle_error(&mut self, e: Error)
        ensures
            final(self)@ == old(self)@.with_error(e@),
    {
        self.last_error = Some(e);
    }
}

} // verus!
