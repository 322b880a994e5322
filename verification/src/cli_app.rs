//! The command layer: what the user asked for, turned into calls one at a
//! time.
//!
//! A command answers with a `Step`. `Step::Call` names the call to make and
//! the `Stage` that the command is left in; the driver makes the call and
//! comes back with both to `CliApp::resume`. `Step::Done` ends the command.
//! The shared state is written between the two, while no call is under way.

use vstd::prelude::*;
use crate::Type;
use crate::app::AppView;
use crate::model::{
    Error, ErrorView, SearchResultsView, first_uri_spec, hit_count, lemma_missing_uri,
    lemma_not_found,
};
use crate::network::{
    ApiCall, ApiCallView, ApiReply, ApiReplyView, ClientConfigView, Field, IoEvent, IoEventView,
    Network, NetworkView, count_spec, failed_only, kept_but, lemma_count_all_or_nothing,
    lemma_settle_all_or_nothing, owned, request_spec, settle_spec,
};
use crate::random::random_below;
use crate::uri::{UriKind, classify, kind_of, last_segment, resource_id};

verus! {

/// Where a command stands while a call is under way.
#[derive(Debug, Clone, PartialEq, Eq)]
pub enum Stage {
    /// The search for `name` is under way; its first hit of kind `item` is
    /// to be played.
    Searching { name: String, item: Type, queue: bool, random: bool },
    /// The read of the playlist `uri` is under way; playback is to start at
    /// a random position in it.
    Counting { uri: String },
    /// The call that `event` stands for is under way.
    Dispatching { event: IoEvent },
}

#[verifier::ext_equal]
pub enum StageView {
    Searching { name: Seq<char>, item: Type, queue: bool, random: bool },
    Counting { uri: Seq<char> },
    Dispatching { event: IoEventView },
}

impl View for Stage {
    type V = StageView;

    open spec fn view(&self) -> StageView {
        match self {
            Stage::Searching { name, item, queue, random } => StageView::Searching {
                name: name@,
                item: *item,
                queue: *queue,
                random: *random,
            },
            Stage::Counting { uri } => StageView::Counting { uri: uri@ },
            Stage::Dispatching { event } => StageView::Dispatching { event: event@ },
        }
    }
}

/// What a command asks of its driver next.
#[derive(Debug, PartialEq, Eq)]
pub enum Step {
    /// Make `call`, then come back to `CliApp::resume` with `stage` and the
    /// reply.
    Call { call: ApiCall, stage: Stage },
    /// The command is over. An error here is the caller's to act on; what
    /// went wrong with a call is in the shared state's `last_error` instead.
    Done { result: Result<(), Error> },
}

#[verifier::ext_equal]
pub enum StepView {
    Call { call: ApiCallView, stage: StageView },
    Done { result: Result<(), ErrorView> },
}

impl View for Step {
    type V = StepView;

    open spec fn view(&self) -> StepView {
        match self {
            Step::Call { call, stage } => StepView::Call { call: call@, stage: stage@ },
            Step::Done { result } => StepView::Done {
                result: match result {
                    Ok(_) => Ok(()),
                    Err(e) => Err(e@),
                },
            },
        }
    }
}

/// The commands of the program, over the dispatcher they submit to.
#[derive(Debug, Clone, PartialEq, Eq)]
pub struct CliApp {
    pub net: Network,
}

impl View for CliApp {
    type V = NetworkView;

    open spec fn view(&self) -> NetworkView {
        self.net@
    }
}

/// The step that submits `event`: its call, and the stage that waits for
/// the reply to it.
pub open spec fn dispatch_spec(config: ClientConfigView, event: IoEventView) -> StepView {
    StepView::Call { call: request_spec(config, event), stage: StageView::Dispatching { event } }
}

/// The intent that plays or queues a single track.
pub open spec fn track_event(uri: Seq<char>, queue: bool) -> IoEventView {
    if queue {
        IoEventView::AddItemToQueue(uri)
    } else {
        IoEventView::StartPlayback(None, Some(seq![uri]), Some(0usize))
    }
}

/// The intent that starts the context `uri`, at `offset` if one is given.
pub open spec fn context_event(uri: Seq<char>, offset: Option<usize>) -> IoEventView {
    IoEventView::StartPlayback(Some(uri), None, offset)
}

/// The first step of playing `uri`.
///
/// A track is queued or played alone, from its start. Any other identifier
/// is a context: it is started as it is, but for a playlist that is to be
/// entered at random, whose tracks are counted first.
pub open spec fn play_uri_spec(config: ClientConfigView, uri: Seq<char>, queue: bool, random: bool) -> StepView {
    match kind_of(uri) {
        UriKind::Track => dispatch_spec(config, track_event(uri, queue)),
        UriKind::Playlist => if random {
            StepView::Call {
                call: ApiCallView::Playlist { id: last_segment(uri) },
                stage: StageView::Counting { uri },
            }
        } else {
            dispatch_spec(config, context_event(uri, None))
        },
        UriKind::Other => dispatch_spec(config, context_event(uri, None)),
    }
}

/// The first step of playing by name: the search for it.
pub open spec fn play_spec(config: ClientConfigView, name: Seq<char>, item: Type, queue: bool, random: bool) -> StepView {
    StepView::Call {
        call: request_spec(config, IoEventView::GetSearchResults(name, None)),
        stage: StageView::Searching { name, item, queue, random },
    }
}

/// Whether `pick` may be the position that `resume` chooses: where it has a
/// playlist of `total` tracks to enter, a position below `total`.
pub open spec fn admits(stage: StageView, reply: ApiReplyView, pick: u32) -> bool {
    stage is Counting ==> (reply matches ApiReplyView::Playlist { total } ==> total > 0 ==> pick
        < total)
}

/// The dispatcher after `reply` came back in `stage`, and the step that
/// follows, with `pick` as the position where one is chosen.
pub open spec fn resume_spec(net: NetworkView, stage: StageView, reply: ApiReplyView, pick: u32) -> (
    NetworkView,
    StepView,
) {
    match stage {
        StageView::Dispatching { event } => (
            NetworkView { app: settle_spec(net.app, event, reply), ..net },
            StepView::Done { result: Ok(()) },
        ),
        StageView::Searching { name, item, queue, random } => {
            let app = settle_spec(net.app, IoEventView::GetSearchResults(name, None), reply);
            (
                NetworkView { app, ..net },
                match first_uri_spec(app.search_results, item, name) {
                    Ok(uri) => play_uri_spec(net.client_config, uri, queue, random),
                    Err(e) => StepView::Done { result: Err(e) },
                },
            )
        },
        StageView::Counting { uri } => {
            let (app, total) = count_spec(net.app, uri, reply);
            (
                NetworkView { app, ..net },
                match total {
                    Some(_) => dispatch_spec(
                        net.client_config,
                        context_event(uri, Some(pick as usize)),
                    ),
                    None => StepView::Done { result: Ok(()) },
                },
            )
        },
    }
}

/// An upper bound on the calls that a command in `stage` still makes, the
/// one under way included.
pub open spec fn calls_left(stage: StageView) -> nat {
    match stage {
        StageView::Searching { .. } => 3,
        StageView::Counting { .. } => 2,
        StageView::Dispatching { .. } => 1,
    }
}

/// Every command ends: each reply either ends it or leaves it in a stage
/// with fewer calls to go. The dispatcher's configuration is never touched.
pub proof fn lemma_resume_progress(net: NetworkView, stage: StageView, reply: ApiReplyView, pick: u32)
    ensures
        resume_spec(net, stage, reply, pick).0.client_config == net.client_config,
        resume_spec(net, stage, reply, pick).1 matches StepView::Call { stage: next, .. }
            ==> calls_left(next) < calls_left(stage),
{
}

/// The field that a reply in `stage` may be written to.
pub open spec fn stage_field(stage: StageView) -> Option<Field> {
    match stage {
        StageView::Searching { .. } => Some(Field::SearchResults),
        StageView::Counting { .. } => None,
        StageView::Dispatching { event } => owned(event),
    }
}

/// Whatever comes back, and in whatever stage, the shared state is written
/// all or nothing: either the one field that the stage's call answers for,
/// with `last_error` left alone, or `last_error` and nothing else.
pub proof fn lemma_resume_all_or_nothing(net: NetworkView, stage: StageView, reply: ApiReplyView, pick: u32)
    ensures
        kept_but(net.app, resume_spec(net, stage, reply, pick).0.app, stage_field(stage))
            || failed_only(net.app, resume_spec(net, stage, reply, pick).0.app),
{
    match stage {
        StageView::Dispatching { event } => {
            lemma_settle_all_or_nothing(net.app, event, reply);
        },
        StageView::Searching { name, item, queue, random } => {
            lemma_settle_all_or_nothing(
                net.app,
                IoEventView::GetSearchResults(name, None),
                reply,
            );
        },
        StageView::Counting { uri } => {
            lemma_count_all_or_nothing(net.app, uri, reply);
        },
    }
}

/// A track that is to be queued takes one call, which adds it to the queue
/// under its full identifier. Whatever the reply, the command ends there:
/// playback is not started.
pub proof fn lemma_queue_track(net: NetworkView, uri: Seq<char>, random: bool, reply: ApiReplyView, pick: u32)
    requires
        kind_of(uri) == UriKind::Track,
    ensures
        play_uri_spec(net.client_config, uri, true, random) == (StepView::Call {
            call: ApiCallView::AddToQueue { uri, device_id: net.client_config.device_id },
            stage: StageView::Dispatching { event: IoEventView::AddItemToQueue(uri) },
        }),
        resume_spec(
            net,
            StageView::Dispatching { event: IoEventView::AddItemToQueue(uri) },
            reply,
            pick,
        ).1 == (StepView::Done { result: Ok(()) }),
{
}

/// A track that is not to be queued takes one call, which starts playback of
/// that track alone, from its start.
pub proof fn lemma_play_track(config: ClientConfigView, uri: Seq<char>, random: bool)
    requires
        kind_of(uri) == UriKind::Track,
    ensures
        play_uri_spec(config, uri, false, random) == (StepView::Call {
            call: ApiCallView::StartPlayback {
                device_id: config.device_id,
                context_uri: None,
                uris: Some(seq![uri]),
                offset: Some(0usize),
            },
            stage: StageView::Dispatching {
                event: IoEventView::StartPlayback(None, Some(seq![uri]), Some(0usize)),
            },
        }),
{
}

/// An identifier that is no track is started as a context, with no position
/// given, unless it is a playlist to be entered at random.
pub proof fn lemma_play_context(config: ClientConfigView, uri: Seq<char>, queue: bool, random: bool)
    requires
        kind_of(uri) != UriKind::Track,
        !(kind_of(uri) == UriKind::Playlist && random),
    ensures
        play_uri_spec(config, uri, queue, random) == (StepView::Call {
            call: ApiCallView::StartPlayback {
                device_id: config.device_id,
                context_uri: Some(uri),
                uris: None,
                offset: None,
            },
            stage: StageView::Dispatching {
                event: IoEventView::StartPlayback(Some(uri), None, None),
            },
        }),
{
}

/// A playlist that is to be entered at random takes two calls. The first
/// reads the playlist by its bare id. Where that gives `total > 0` tracks,
/// the second starts the playlist at the position chosen, and nothing is
/// written to the shared state in between; with it the command ends.
pub proof fn lemma_shuffle_playlist(net: NetworkView, uri: Seq<char>, queue: bool, total: u32, pick: u32, reply: ApiReplyView)
    requires
        kind_of(uri) == UriKind::Playlist,
        total > 0,
    ensures
        play_uri_spec(net.client_config, uri, queue, true) == (StepView::Call {
            call: ApiCallView::Playlist { id: last_segment(uri) },
            stage: StageView::Counting { uri },
        }),
        admits(StageView::Counting { uri }, ApiReplyView::Playlist { total }, pick) <==> pick
            < total,
        resume_spec(net, StageView::Counting { uri }, ApiReplyView::Playlist { total }, pick) == (
            net,
            StepView::Call {
                call: ApiCallView::StartPlayback {
                    device_id: net.client_config.device_id,
                    context_uri: Some(uri),
                    uris: None,
                    offset: Some(pick as usize),
                },
                stage: StageView::Dispatching {
                    event: IoEventView::StartPlayback(Some(uri), None, Some(pick as usize)),
                },
            },
        ),
        resume_spec(
            net,
            StageView::Dispatching {
                event: IoEventView::StartPlayback(Some(uri), None, Some(pick as usize)),
            },
            reply,
            pick,
        ).1 == (StepView::Done { result: Ok(()) }),
{
}

/// A playlist without tracks has no position to enter it at. The command
/// ends with `EmptyPlaylist` as the last error, and playback is not started;
/// so it does where the read itself fails, with the failure as the last
/// error.
pub proof fn lemma_shuffle_fails(net: NetworkView, uri: Seq<char>, reply: ApiReplyView, pick: u32)
    requires
        !(reply matches ApiReplyView::Playlist { total } && total > 0),
    ensures
        resume_spec(net, StageView::Counting { uri }, reply, pick).1 == (StepView::Done {
            result: Ok(()),
        }),
        failed_only(net.app, resume_spec(net, StageView::Counting { uri }, reply, pick).0.app),
        reply == (ApiReplyView::Playlist { total: 0 }) ==> resume_spec(
            net,
            StageView::Counting { uri },
            reply,
            pick,
        ).0.app.last_error == Some(ErrorView::EmptyPlaylist(uri)),
        reply matches ApiReplyView::Failed(text) ==> resume_spec(
            net,
            StageView::Counting { uri },
            reply,
            pick,
        ).0.app.last_error == Some(ErrorView::Api(text)),
{
}

/// A search that comes back without a hit in the category asked for ends
/// the command with `NotFound` and the name searched for. The results are
/// kept in the shared state; what it holds of devices and playback stays as
/// it was, and no further call is made.
pub proof fn lemma_play_not_found(net: NetworkView, name: Seq<char>, item: Type, queue: bool, random: bool, results: SearchResultsView, pick: u32)
    requires
        hit_count(results, item) == 0,
    ensures
        resume_spec(
            net,
            StageView::Searching { name, item, queue, random },
            ApiReplyView::Search(results),
            pick,
        ) == (
            NetworkView { app: AppView { search_results: results, ..net.app }, ..net },
            StepView::Done { result: Err(ErrorView::NotFound(item, name)) },
        ),
{
    lemma_not_found(results, item, name);
}

/// A search whose first album carries no identifier ends the command with
/// `MissingUri` and that album's name.
pub proof fn lemma_play_missing_uri(net: NetworkView, name: Seq<char>, queue: bool, random: bool, results: SearchResultsView, pick: u32)
    requires
        hit_count(results, Type::Album) > 0,
        results.albums->0[0].uri is None,
    ensures
        resume_spec(
            net,
            StageView::Searching { name, item: Type::Album, queue, random },
            ApiReplyView::Search(results),
            pick,
        ).1 == (StepView::Done {
            result: Err(ErrorView::MissingUri(results.albums->0[0].name)),
        }),
{
    lemma_missing_uri(results, name);
}

/// A search with a first hit that carries an identifier goes on as
/// `play_uri` does with that identifier.
pub proof fn lemma_play_found(net: NetworkView, name: Seq<char>, item: Type, queue: bool, random: bool, results: SearchResultsView, pick: u32)
    requires
        first_uri_spec(results, item, name) is Ok,
    ensures
        resume_spec(
            net,
            StageView::Searching { name, item, queue, random },
            ApiReplyView::Search(results),
            pick,
        ).1 == play_uri_spec(
            net.client_config,
            first_uri_spec(results, item, name)->Ok_0,
            queue,
            random,
        ),
{
}

impl CliApp {
    /// The commands over the dispatcher `net`.
    pub fn new(net: Network) -> (cli: CliApp)
        ensures
            cli@ == net@,
    {
        CliApp { net }
    }

    /// Submits one intent: the step that makes its call.
    pub fn dispatch(&self, io_event: IoEvent) -> (step: Step)
        ensures
            step@ == dispatch_spec(self@.client_config, io_event@),
    {
        let call = self.net.request(&io_event);
        Step::Call { call, stage: Stage::Dispatching { event: io_event } }
    }

    /// Starts the context `uri` at the position `offset`.
    pub fn start_at(&self, uri: String, offset: u32) -> (step: Step)
        ensures
            step@ == dispatch_spec(
                self@.client_config,
                context_event(uri@, Some(offset as usize)),
            ),
    {
        self.dispatch(IoEvent::StartPlayback(Some(uri), None, Some(offset as usize)))
    }

    /// Plays what `uri` names, or queues it where it is a track and `queue`
    /// is set. With `random`, a playlist is entered at a random position.
    pub fn play_uri(&self, uri: String, queue: bool, random: bool) -> (step: Step)
        ensures
            step@ == play_uri_spec(self@.client_config, uri@, queue, random),
    {
        match classify(uri.as_str()) {
            UriKind::Track => {
                if queue {
                    self.dispatch(IoEvent::AddItemToQueue(uri))
                } else {
                    let ghost one = uri@;
                    let mut uris: Vec<String> = Vec::new();
                    uris.push(uri);
                    assert(uris.deep_view() =~= seq![one]);
                    self.dispatch(IoEvent::StartPlayback(None, Some(uris), Some(0)))
                }
            },
            UriKind::Playlist => {
                if random {
                    let id = resource_id(uri.as_str());
                    Step::Call { call: ApiCall::Playlist { id }, stage: Stage::Counting { uri } }
                } else {
                    self.dispatch(IoEvent::StartPlayback(Some(uri), None, None))
                }
            },
            UriKind::Other => self.dispatch(IoEvent::StartPlayback(Some(uri), None, None)),
        }
    }

    /// Plays the first hit of a search for `name` among the items of kind
    /// `item`. `queue` and `random` are as for `play_uri`.
    pub fn play(&self, name: String, item: Type, queue: bool, random: bool) -> (step: Step)
        requires
            item.searchable(),
        ensures
            step@ == play_spec(self@.client_config, name@, item, queue, random),
    {
        let call = self.net.request(&IoEvent::GetSearchResults(name.clone(), None));
        Step::Call { call, stage: Stage::Searching { name, item, queue, random } }
    }

    /// Takes the reply to the call that was made in `stage`, and says how
    /// the command goes on.
    ///
    /// Where playback of a playlist is to start at random, the position is
    /// chosen here, below the number of tracks that the reply gives.
    pub fn resume(&mut self, stage: Stage, reply: ApiReply) -> (step: Step)
        ensures
            final(self)@.client_config == old(self)@.client_config,
            exists|pick: u32|
                admits(stage@, reply@, pick) && (final(self)@, step@) == #[trigger] resume_spec(
                    old(self)@,
                    stage@,
                    reply@,
                    pick,
                ),
    {
        match stage {
            Stage::Dispatching { event } => {
                self.net.settle(&event, reply);
                let step = Step::Done { result: Ok(()) };
                assert((self@, step@) == resume_spec(old(self)@, stage@, reply@, 0));
                step
            },
            Stage::Searching { name, item, queue, random } => {
                self.net.settle(&IoEvent::GetSearchResults(name.clone(), None), reply);
                let step = match self.net.app.search_results.first_uri(item, name.as_str()) {
                    Ok(uri) => self.play_uri(uri, queue, random),
                    Err(e) => Step::Done { result: Err(e) },
                };
                assert((self@, step@) == resume_spec(old(self)@, stage@, reply@, 0));
                step
            },
            Stage::Counting { uri } => {
                match self.net.count(uri.as_str(), reply) {
                    Some(total) => {
                        let pick = random_below(total);
                        let step = self.start_at(uri, pick);
                        assert((self@, step@) == resume_spec(old(self)@, stage@, reply@, pick));
                        step
                    },
                    None => {
                        let step = Step::Done { result: Ok(()) };
                        assert((self@, step@) == resume_spec(old(self)@, stage@, reply@, 0));
                        step
                    },
                }
            },
        }
    }
}

} // verus!
