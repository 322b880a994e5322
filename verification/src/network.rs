//! The dispatcher: which call an intent stands for, and what a reply to it
//! writes into the shared state.
//!
//! The dispatcher makes no call itself. `Network::request` names the call,
//! the driver performs it, and `Network::settle` takes the reply. A reply
//! that answers the intent writes the field that the intent owns; any other
//! reply writes `last_error`. Nothing is ever written of both.

use vstd::prelude::*;
use crate::app::{App, AppView};
use crate::model::{Device, DeviceView, Error, ErrorView, Playback, PlaybackView, SearchResults, SearchResultsView};

verus! {

/// An intent: one operation that the user's command asks of the service.
#[derive(Debug, Clone, PartialEq, Eq)]
pub enum IoEvent {
    /// Read the list of devices.
    GetDevices,
    /// Read what is playing.
    GetCurrentPlayback,
    /// Search for a name, optionally on behalf of a device.
    GetSearchResults(String, Option<String>),
    /// Start playback of a context, or of a list of tracks, optionally at a
    /// position.
    StartPlayback(Option<String>, Option<Vec<String>>, Option<usize>),
    /// Put one item at the end of the queue.
    AddItemToQueue(String),
}

#[verifier::ext_equal]
pub enum IoEventView {
    GetDevices,
    GetCurrentPlayback,
    GetSearchResults(Seq<char>, Option<Seq<char>>),
    StartPlayback(Option<Seq<char>>, Option<Seq<Seq<char>>>, Option<usize>),
    AddItemToQueue(Seq<char>),
}

impl View for IoEvent {
    type V = IoEventView;

    open spec fn view(&self) -> IoEventView {
        match self {
            IoEvent::GetDevices => IoEventView::GetDevices,
            IoEvent::GetCurrentPlayback => IoEventView::GetCurrentPlayback,
            IoEvent::GetSearchResults(query, device_id) => IoEventView::GetSearchResults(
                query@,
                device_id.deep_view(),
            ),
            IoEvent::StartPlayback(context_uri, uris, offset) => IoEventView::StartPlayback(
                context_uri.deep_view(),
                uris.deep_view(),
                *offset,
            ),
            IoEvent::AddItemToQueue(uri) => IoEventView::AddItemToQueue(uri@),
        }
    }
}

/// A call to the service, with everything the driver needs to make it.
#[derive(Debug, Clone, PartialEq, Eq)]
pub enum ApiCall {
    Devices,
    CurrentPlayback,
    Search { query: String, device_id: Option<String> },
    StartPlayback {
        device_id: Option<String>,
        context_uri: Option<String>,
        uris: Option<Vec<String>>,
        offset: Option<usize>,
    },
    AddToQueue { uri: String, device_id: Option<String> },
    /// Read one playlist, by its bare id, for the number of its tracks.
    Playlist { id: String },
}

#[verifier::ext_equal]
pub enum ApiCallView {
    Devices,
    CurrentPlayback,
    Search { query: Seq<char>, device_id: Option<Seq<char>> },
    StartPlayback {
        device_id: Option<Seq<char>>,
        context_uri: Option<Seq<char>>,
        uris: Option<Seq<Seq<char>>>,
        offset: Option<usize>,
    },
    AddToQueue { uri: Seq<char>, device_id: Option<Seq<char>> },
    Playlist { id: Seq<char> },
}

impl View for ApiCall {
    type V = ApiCallView;

    open spec fn view(&self) -> ApiCallView {
        match self {
            ApiCall::Devices => ApiCallView::Devices,
            ApiCall::CurrentPlayback => ApiCallView::CurrentPlayback,
            ApiCall::Search { query, device_id } => ApiCallView::Search {
                query: query@,
                device_id: device_id.deep_view(),
            },
            ApiCall::StartPlayback { device_id, context_uri, uris, offset } => ApiCallView::StartPlayback {
                device_id: device_id.deep_view(),
                context_uri: context_uri.deep_view(),
                uris: uris.deep_view(),
                offset: *offset,
            },
            ApiCall::AddToQueue { uri, device_id } => ApiCallView::AddToQueue {
                uri: uri@,
                device_id: device_id.deep_view(),
            },
            ApiCall::Playlist { id } => ApiCallView::Playlist { id: id@ },
        }
    }
}

/// What came back from a call.
#[derive(Debug, Clone, PartialEq, Eq)]
pub enum ApiReply {
    Devices(Vec<Device>),
    CurrentPlayback(Option<Playback>),
    Search(SearchResults),
    /// A call that returns nothing went through.
    Done,
    /// The playlist read: how many tracks it holds.
    Playlist { total: u32 },
    /// The call failed; the text is the service's or the transport's.
    Failed(String),
}

#[verifier::ext_equal]
pub enum ApiReplyView {
    Devices(Seq<DeviceView>),
    CurrentPlayback(Option<PlaybackView>),
    Search(SearchResultsView),
    Done,
    Playlist { total: u32 },
    Failed(Seq<char>),
}

impl View for ApiReply {
    type V = ApiReplyView;

    open spec fn view(&self) -> ApiReplyView {
        match self {
            ApiReply::Devices(devices) => ApiReplyView::Devices(devices.deep_view()),
            ApiReply::CurrentPlayback(playback) => ApiReplyView::CurrentPlayback(
                playback.deep_view(),
            ),
            ApiReply::Search(results) => ApiReplyView::Search(results@),
            ApiReply::Done => ApiReplyView::Done,
            ApiReply::Playlist { total } => ApiReplyView::Playlist { total: *total },
            ApiReply::Failed(text) => ApiReplyView::Failed(text@),
        }
    }
}

/// What the dispatcher is configured with: the device that playback calls
/// are addressed to, if one is chosen.
#[derive(Debug, Clone, PartialEq, Eq)]
pub struct ClientConfig {
    pub device_id: Option<String>,
}

#[verifier::ext_equal]
pub struct ClientConfigView {
    pub device_id: Option<Seq<char>>,
}

impl View for ClientConfig {
    type V = ClientConfigView;

    open spec fn view(&self) -> ClientConfigView {
        ClientConfigView { device_id: self.device_id.deep_view() }
    }
}

/// The dispatcher: the shared state and the configuration that calls are
/// made with.
#[derive(Debug, Clone, PartialEq, Eq)]
pub struct Network {
    pub app: App,
    pub client_config: ClientConfig,
}

#[verifier::ext_equal]
pub struct NetworkView {
    pub app: AppView,
    pub client_config: ClientConfigView,
}

impl View for Network {
    type V = NetworkView;

    open spec fn view(&self) -> NetworkView {
        NetworkView { app: self.app@, client_config: self.client_config@ }
    }
}

/// The call that an intent stands for. Playback calls are addressed to the
/// configured device; with none configured they name none, and the service
/// falls back on whichever device is active.
pub open spec fn request_spec(config: ClientConfigView, event: IoEventView) -> ApiCallView {
    match event {
        IoEventView::GetDevices => ApiCallView::Devices,
        IoEventView::GetCurrentPlayback => ApiCallView::CurrentPlayback,
        IoEventView::GetSearchResults(query, device_id) => ApiCallView::Search { query, device_id },
        IoEventView::StartPlayback(context_uri, uris, offset) => ApiCallView::StartPlayback {
            device_id: config.device_id,
            context_uri,
            uris,
            offset,
        },
        IoEventView::AddItemToQueue(uri) => ApiCallView::AddToQueue {
            uri,
            device_id: config.device_id,
        },
    }
}

/// `reply` is what a successful call for `event` returns.
pub open spec fn answers(event: IoEventView, reply: ApiReplyView) -> bool {
    match event {
        IoEventView::GetDevices => reply is Devices,
        IoEventView::GetCurrentPlayback => reply is CurrentPlayback,
        IoEventView::GetSearchResults(_, _) => reply is Search,
        IoEventView::StartPlayback(_, _, _) => reply is Done,
        IoEventView::AddItemToQueue(_) => reply is Done,
    }
}

/// The error that a reply to `event` stands for, if it does not answer it.
pub open spec fn failure(event: IoEventView, reply: ApiReplyView) -> Option<ErrorView> {
    if answers(event, reply) {
        None
    } else {
        match reply {
            ApiReplyView::Failed(text) => Some(ErrorView::Api(text)),
            _ => Some(ErrorView::MalformedResponse),
        }
    }
}

/// The shared state after `reply` came back for `event`.
pub open spec fn settle_spec(app: AppView, event: IoEventView, reply: ApiReplyView) -> AppView {
    match failure(event, reply) {
        Some(e) => app.with_error(e),
        None => match reply {
            ApiReplyView::Devices(devices) => AppView { devices: Some(devices), ..app },
            ApiReplyView::CurrentPlayback(playback) => AppView { playback_context: playback, ..app },
            ApiReplyView::Search(results) => AppView { search_results: results, ..app },
            _ => app,
        },
    }
}

/// The shared state after the reply to a playlist read, and the number of
/// tracks to choose a position among. A playlist without tracks offers no
/// position: that is an error, as is any reply but the playlist's.
pub open spec fn count_spec(app: AppView, uri: Seq<char>, reply: ApiReplyView) -> (
    AppView,
    Option<u32>,
) {
    match reply {
        ApiReplyView::Playlist { total } => if total > 0 {
            (app, Some(total))
        } else {
            (app.with_error(ErrorView::EmptyPlaylist(uri)), None)
        },
        ApiReplyView::Failed(text) => (app.with_error(ErrorView::Api(text)), None),
        _ => (app.with_error(ErrorView::MalformedResponse), None),
    }
}

/// Some device in `devices` has the id `id`.
pub open spec fn listed(devices: Seq<DeviceView>, id: Seq<char>) -> bool {
    exists|i: int| 0 <= i < devices.len() && #[trigger] devices[i].id == id
}

/// The device to address: the configured one where the service lists it,
/// else the first that the service lists. Where it lists none, the
/// configuration stays as it is, chosen or not.
pub open spec fn select_device_spec(
    configured: Option<Seq<char>>,
    devices: Option<Seq<DeviceView>>,
) -> Option<Seq<char>> {
    let devices = match devices {
        Some(devices) => devices,
        None => Seq::empty(),
    };
    if configured is Some && listed(devices, configured->0) {
        configured
    } else if devices.len() > 0 {
        Some(devices[0].id)
    } else {
        configured
    }
}

/// The fields of the shared state that hold what the service answered.
pub enum Field {
    Devices,
    PlaybackContext,
    SearchResults,
}

/// The field that the outcome of `event` is written to. Starting playback
/// and queueing return nothing to keep, and own no field.
pub open spec fn owned(event: IoEventView) -> Option<Field> {
    match event {
        IoEventView::GetDevices => Some(Field::Devices),
        IoEventView::GetCurrentPlayback => Some(Field::PlaybackContext),
        IoEventView::GetSearchResults(_, _) => Some(Field::SearchResults),
        IoEventView::StartPlayback(_, _, _) => None,
        IoEventView::AddItemToQueue(_) => None,
    }
}

/// `after` is `before` in every field but `field`; `last_error` among them.
pub open spec fn kept_but(before: AppView, after: AppView, field: Option<Field>) -> bool {
    &&& after.last_error == before.last_error
    &&& field != Some(Field::Devices) ==> after.devices == before.devices
    &&& field != Some(Field::PlaybackContext) ==> after.playback_context
        == before.playback_context
    &&& field != Some(Field::SearchResults) ==> after.search_results == before.search_results
}

/// `app` holds in `field` what `reply` carries.
pub open spec fn holds(app: AppView, field: Option<Field>, reply: ApiReplyView) -> bool {
    match field {
        Some(Field::Devices) => reply is Devices && app.devices == Some(reply->Devices_0),
        Some(Field::PlaybackContext) => reply is CurrentPlayback && app.playback_context
            == reply->CurrentPlayback_0,
        Some(Field::SearchResults) => reply is Search && app.search_results == reply->Search_0,
        None => true,
    }
}

/// `after` is `before` with some error as its last, and nothing else
/// written.
pub open spec fn failed_only(before: AppView, after: AppView) -> bool {
    after.last_error is Some && after == before.with_error(after.last_error->0)
}

/// Settling is all or nothing. A reply that answers the intent is written to
/// the one field that the intent owns, and to no other; `last_error` stays.
/// Any other reply is written to `last_error`, and to nothing else.
pub proof fn lemma_settle_all_or_nothing(app: AppView, event: IoEventView, reply: ApiReplyView)
    ensures
        answers(event, reply) ==> kept_but(app, settle_spec(app, event, reply), owned(event))
            && holds(settle_spec(app, event, reply), owned(event), reply),
        !answers(event, reply) ==> failed_only(app, settle_spec(app, event, reply)),
        !answers(event, reply) ==> settle_spec(app, event, reply).last_error == failure(
            event,
            reply,
        ),
{
}

/// The reply to a playlist read writes nothing but, at most, `last_error`;
/// it writes that exactly where it gives no number of tracks to choose
/// among.
pub proof fn lemma_count_all_or_nothing(app: AppView, uri: Seq<char>, reply: ApiReplyView)
    ensures
        count_spec(app, uri, reply).1 is Some ==> count_spec(app, uri, reply).0 == app,
        count_spec(app, uri, reply).1 is None ==> failed_only(app, count_spec(app, uri, reply).0),
        count_spec(app, uri, reply).1 is Some <==> (reply matches ApiReplyView::Playlist { total }
            && total > 0),
        count_spec(app, uri, reply).1 matches Some(n) ==> reply == (ApiReplyView::Playlist {
            total: n,
        }),
{
}

/// Settling a reply a second time changes nothing: the state after two
/// equal replies to the same intent is the state after one.
pub proof fn lemma_settle_idempotent(app: AppView, event: IoEventView, reply: ApiReplyView)
    ensures
        settle_spec(settle_spec(app, event, reply), event, reply) == settle_spec(
            app,
            event,
            reply,
        ),
{
}

/// Reading the devices again, with the service listing what it listed
/// before, leaves the shared state as the first read left it, with that
/// list as its devices.
pub proof fn lemma_get_devices_repeatable(app: AppView, devices: Seq<DeviceView>)
    ensures
        settle_spec(app, IoEventView::GetDevices, ApiReplyView::Devices(devices)).devices == Some(
            devices,
        ),
        settle_spec(
            settle_spec(app, IoEventView::GetDevices, ApiReplyView::Devices(devices)),
            IoEventView::GetDevices,
            ApiReplyView::Devices(devices),
        ) == settle_spec(app, IoEventView::GetDevices, ApiReplyView::Devices(devices)),
{
}

/// The device that `select_device_spec` settles on is one that the service
/// lists, wherever it lists any; a configured device that is listed is kept.
pub proof fn lemma_select_device(configured: Option<Seq<char>>, devices: Seq<DeviceView>)
    ensures
        devices.len() > 0 ==> select_device_spec(configured, Some(devices)) is Some && listed(
            devices,
            select_device_spec(configured, Some(devices))->0,
        ),
        devices.len() == 0 ==> select_device_spec(configured, Some(devices)) == configured,
        select_device_spec(configured, None) == configured,
        configured is Some && listed(devices, configured->0) ==> select_device_spec(
            configured,
            Some(devices),
        ) == configured,
{
    if devices.len() > 0 && !(configured is Some && listed(devices, configured->0)) {
        assert(devices[0].id == devices[0].id);
    }
}

/// A copy of `s` with the same content.
fn copy_option(s: &Option<String>) -> (r: Option<String>)
    ensures
        r.deep_view() == s.deep_view(),
{
    match s {
        Some(text) => Some(text.clone()),
        None => None,
    }
}

/// A copy of `v` with the same content.
fn copy_strings(v: &Vec<String>) -> (r: Vec<String>)
    ensures
        r.deep_view() == v.deep_view(),
{
    let mut r: Vec<String> = Vec::new();
    let mut i: usize = 0;
    while i < v.len()
        invariant
            i <= v.len(),
            r.len() == i,
            forall|j: int| 0 <= j < i ==> r@[j]@ == v@[j]@,
        decreases v.len() - i,
    {
        r.push(v[i].clone());
        i += 1;
    }
    assert(r.deep_view() =~= v.deep_view());
    r
}

/// Whether some device in `devices` has the id `id`.
fn is_listed(devices: &Vec<Device>, id: &String) -> (b: bool)
    ensures
        b == listed(devices.deep_view(), id@),
{
    let mut i: usize = 0;
    while i < devices.len()
        invariant
            i <= devices.len(),
            forall|j: int| 0 <= j < i ==> devices@[j]@.id != id@,
        decreases devices.len() - i,
    {
        if devices[i].id == *id {
            assert(devices.deep_view()[i as int].id == id@);
            return true;
        }
        i += 1;
    }
    false
}

/// The device to address, given the configured one and the devices known.
fn choose_device(configured: &Option<String>, devices: &Option<Vec<Device>>) -> (chosen: Option<
    String,
>)
    ensures
        chosen.deep_view() == select_device_spec(configured.deep_view(), devices.deep_view()),
{
    match devices {
        Some(list) => {
            if list.len() == 0 {
                return copy_option(configured);
            }
            match configured {
                Some(id) => {
                    if is_listed(list, id) {
                        return copy_option(configured);
                    }
                },
                None => {},
            }
            let first = list[0].id.clone();
            assert(list.deep_view()[0].id == first@);
            Some(first)
        },
        None => copy_option(configured),
    }
}

impl Network {
    /// A dispatcher over `app`, configured by `client_config`.
    pub fn new(client_config: ClientConfig, app: App) -> (net: Network)
        ensures
            net@ == (NetworkView { app: app@, client_config: client_config@ }),
    {
        Network { app, client_config }
    }

    /// The call that `io_event` stands for.
    pub fn request(&self, io_event: &IoEvent) -> (call: ApiCall)
        ensures
            call@ == request_spec(self@.client_config, io_event@),
    {
        match io_event {
            IoEvent::GetDevices => ApiCall::Devices,
            IoEvent::GetCurrentPlayback => ApiCall::CurrentPlayback,
            IoEvent::GetSearchResults(query, device_id) => ApiCall::Search {
                query: query.clone(),
                device_id: copy_option(device_id),
            },
            IoEvent::StartPlayback(context_uri, uris, offset) => {
                let uris = match uris {
                    Some(list) => Some(copy_strings(list)),
                    None => None,
                };
                ApiCall::StartPlayback {
                    device_id: copy_option(&self.client_config.device_id),
                    context_uri: copy_option(context_uri),
                    uris,
                    offset: *offset,
                }
            },
            IoEvent::AddItemToQueue(uri) => ApiCall::AddToQueue {
                uri: uri.clone(),
                device_id: copy_option(&self.client_config.device_id),
            },
        }
    }

    /// Takes the reply to the call that was made for `io_event`.
    ///
    /// A reply that answers the intent writes the field it owns and leaves
    /// `last_error` as it was. Any other reply writes `last_error` and
    /// nothing else.
    pub fn settle(&mut self, io_event: &IoEvent, reply: ApiReply)
        ensures
            final(self)@.client_config == old(self)@.client_config,
            final(self)@.app == settle_spec(old(self)@.app, io_event@, reply@),
            answers(io_event@, reply@) ==> kept_but(
                old(self)@.app,
                final(self)@.app,
                owned(io_event@),
            ) && holds(final(self)@.app, owned(io_event@), reply@),
            !answers(io_event@, reply@) ==> failed_only(old(self)@.app, final(self)@.app),
    {
        match reply {
            ApiReply::Failed(text) => {
                self.app.handle_error(Error::Api(text));
            },
            ApiReply::Devices(devices) => {
                match io_event {
                    IoEvent::GetDevices => {
                        self.app.devices = Some(devices);
                    },
                    _ => {
                        self.app.handle_error(Error::MalformedResponse);
                    },
                }
            },
            ApiReply::CurrentPlayback(playback) => {
                match io_event {
                    IoEvent::GetCurrentPlayback => {
                        self.app.playback_context = playback;
                    },
                    _ => {
                        self.app.handle_error(Error::MalformedResponse);
                    },
                }
            },
            ApiReply::Search(results) => {
                match io_event {
                    IoEvent::GetSearchResults(_, _) => {
                        self.app.search_results = results;
                    },
                    _ => {
                        self.app.handle_error(Error::MalformedResponse);
                    },
                }
            },
            ApiReply::Done => {
                match io_event {
                    IoEvent::StartPlayback(_, _, _) => {},
                    IoEvent::AddItemToQueue(_) => {},
                    _ => {
                        self.app.handle_error(Error::MalformedResponse);
                    },
                }
            },
            ApiReply::Playlist { total: _ } => {
                self.app.handle_error(Error::MalformedResponse);
            },
        }
    }

    /// Takes the reply to the read of the playlist `uri` that goes ahead of
    /// shuffled playback, and gives the number of tracks to choose among.
    ///
    /// Without such a number the error is written into `last_error`, and
    /// playback is not to be started.
    pub fn count(&mut self, uri: &str, reply: ApiReply) -> (total: Option<u32>)
        ensures
            final(self)@.client_config == old(self)@.client_config,
            (final(self)@.app, total) == count_spec(old(self)@.app, uri@, reply@),
    {
        match reply {
            ApiReply::Playlist { total } => {
                if total > 0 {
                    Some(total)
                } else {
                    self.app.handle_error(Error::EmptyPlaylist(uri.to_owned()));
                    None
                }
            },
            ApiReply::Failed(text) => {
                self.app.handle_error(Error::Api(text));
                None
            },
            _ => {
                self.app.handle_error(Error::MalformedResponse);
                None
            },
        }
    }

    /// Settles which device playback calls are addressed to, from the
    /// devices that the shared state holds.
    pub fn select_device(&mut self)
        ensures
            final(self)@.app == old(self)@.app,
            final(self)@.client_config.device_id == select_device_spec(
                old(self)@.client_config.device_id,
                old(self)@.app.devices,
            ),
    {
        let chosen = choose_device(&self.client_config.device_id, &self.app.devices);
        self.client_config.device_id = chosen;
    }
}

} // verus!
