use spt_cli::app::App;
use spt_cli::cli_app::{CliApp, Stage, Step};
use spt_cli::model::{Album, Device, Error, Item, Playback, SearchResults};
use spt_cli::network::{ApiCall, ApiReply, ClientConfig, IoEvent, Network};
use spt_cli::Type;

fn cli(device_id: Option<&str>) -> CliApp {
    CliApp::new(Network::new(
        ClientConfig { device_id: device_id.map(|d| d.to_string()) },
        App::new(),
    ))
}

fn item(name: &str, uri: &str) -> Item {
    Item { name: name.to_string(), uri: uri.to_string() }
}

fn device(id: &str) -> Device {
    Device { id: id.to_string(), name: id.to_string(), is_active: true }
}

fn tracks(uris: &[&str]) -> SearchResults {
    let mut r = SearchResults::new();
    r.tracks = Some(uris.iter().map(|u| item("t", u)).collect());
    r
}

/// Runs a command to its end against replies given in order, and hands back
/// the calls it made and how it ended.
fn run(cli: &mut CliApp, first: Step, replies: Vec<ApiReply>) -> (Vec<ApiCall>, Result<(), Error>) {
    let mut calls = Vec::new();
    let mut replies = replies.into_iter();
    let mut step = first;
    loop {
        match step {
            Step::Done { result } => {
                assert!(replies.next().is_none(), "a reply was left over");
                return (calls, result);
            }
            Step::Call { call, stage } => {
                calls.push(call);
                let reply = replies.next().expect("the command asked for one call more");
                step = cli.resume(stage, reply);
            }
        }
    }
}

fn start_context(uri: &str, offset: Option<usize>) -> ApiCall {
    ApiCall::StartPlayback {
        device_id: None,
        context_uri: Some(uri.to_string()),
        uris: None,
        offset,
    }
}

#[test]
fn new_keeps_the_dispatcher() {
    let net = Network::new(ClientConfig { device_id: Some("d".to_string()) }, App::new());
    let c = CliApp::new(net.clone());
    assert_eq!(c.net, net);
}

#[test]
fn dispatch_makes_the_call_of_the_intent() {
    let c = cli(None);
    assert_eq!(
        c.dispatch(IoEvent::GetDevices),
        Step::Call { call: ApiCall::Devices, stage: Stage::Dispatching { event: IoEvent::GetDevices } }
    );
}

#[test]
fn dispatch_get_devices_then_current_playback() {
    let mut c = cli(None);
    let first = c.dispatch(IoEvent::GetDevices);
    let (calls, result) = run(&mut c, first, vec![ApiReply::Devices(vec![device("d1")])]);
    assert_eq!(calls, vec![ApiCall::Devices]);
    assert_eq!(result, Ok(()));
    assert_eq!(c.net.app.devices, Some(vec![device("d1")]));
    let playing = Playback { device: device("d1"), is_playing: false, progress_ms: None, item_uri: None };
    let first = c.dispatch(IoEvent::GetCurrentPlayback);
    let (calls, result) = run(&mut c, first, vec![ApiReply::CurrentPlayback(Some(playing.clone()))]);
    assert_eq!(calls, vec![ApiCall::CurrentPlayback]);
    assert_eq!(result, Ok(()));
    assert_eq!(c.net.app.playback_context, Some(playing));
    assert_eq!(c.net.app.devices, Some(vec![device("d1")]));
    c.net.select_device();
    assert_eq!(c.net.client_config.device_id, Some("d1".to_string()));
}

#[test]
fn play_uri_queues_a_track_with_one_call() {
    let mut c = cli(None);
    let first = c.play_uri("spotify:track:T".to_string(), true, false);
    let (calls, result) = run(&mut c, first, vec![ApiReply::Done]);
    assert_eq!(
        calls,
        vec![ApiCall::AddToQueue { uri: "spotify:track:T".to_string(), device_id: None }]
    );
    assert!(!calls.iter().any(|call| matches!(call, ApiCall::StartPlayback { .. })));
    assert_eq!(result, Ok(()));
    assert_eq!(c.net.app, App::new());
}

#[test]
fn play_uri_queues_a_track_whatever_random_says() {
    let mut c = cli(Some("d1"));
    let first = c.play_uri("spotify:track:T".to_string(), true, true);
    let (calls, result) = run(&mut c, first, vec![ApiReply::Done]);
    assert_eq!(
        calls,
        vec![ApiCall::AddToQueue { uri: "spotify:track:T".to_string(), device_id: Some("d1".to_string()) }]
    );
    assert_eq!(result, Ok(()));
}

#[test]
fn play_uri_plays_a_track_alone_from_its_start() {
    let mut c = cli(None);
    let first = c.play_uri("spotify:track:T".to_string(), false, false);
    let (calls, result) = run(&mut c, first, vec![ApiReply::Done]);
    assert_eq!(
        calls,
        vec![ApiCall::StartPlayback {
            device_id: None,
            context_uri: None,
            uris: Some(vec!["spotify:track:T".to_string()]),
            offset: Some(0),
        }]
    );
    assert_eq!(result, Ok(()));
}

#[test]
fn play_uri_shuffles_a_playlist_with_a_read_then_a_start() {
    for _ in 0..200 {
        let mut c = cli(None);
        let first = c.play_uri("spotify:playlist:P".to_string(), false, true);
        let (calls, result) = run(&mut c, first, vec![ApiReply::Playlist { total: 5 }, ApiReply::Done]);
        assert_eq!(result, Ok(()));
        assert_eq!(calls.len(), 2);
        assert_eq!(calls[0], ApiCall::Playlist { id: "P".to_string() });
        match &calls[1] {
            ApiCall::StartPlayback { device_id, context_uri, uris, offset } => {
                assert_eq!(device_id, &None);
                assert_eq!(context_uri, &Some("spotify:playlist:P".to_string()));
                assert_eq!(uris, &None);
                assert!(offset.expect("a position was chosen") < 5);
            }
            other => panic!("expected a start of playback, got {:?}", other),
        }
        assert_eq!(c.net.app, App::new());
    }
}

#[test]
fn play_uri_shuffle_reaches_every_position() {
    let mut seen = [false; 4];
    for _ in 0..400 {
        let mut c = cli(None);
        let first = c.play_uri("spotify:playlist:P".to_string(), false, true);
        let (calls, _) = run(&mut c, first, vec![ApiReply::Playlist { total: 4 }, ApiReply::Done]);
        if let ApiCall::StartPlayback { offset: Some(k), .. } = &calls[1] {
            seen[*k] = true;
        }
    }
    assert_eq!(seen, [true; 4]);
}

#[test]
fn play_uri_shuffle_of_one_track_starts_at_zero() {
    let mut c = cli(None);
    let first = c.play_uri("spotify:playlist:P".to_string(), false, true);
    let (calls, result) = run(&mut c, first, vec![ApiReply::Playlist { total: 1 }, ApiReply::Done]);
    assert_eq!(calls, vec![ApiCall::Playlist { id: "P".to_string() }, start_context("spotify:playlist:P", Some(0))]);
    assert_eq!(result, Ok(()));
}

#[test]
fn play_uri_shuffle_of_an_empty_playlist_fails_without_playing() {
    let mut c = cli(None);
    let first = c.play_uri("spotify:playlist:P".to_string(), false, true);
    let (calls, result) = run(&mut c, first, vec![ApiReply::Playlist { total: 0 }]);
    assert_eq!(calls, vec![ApiCall::Playlist { id: "P".to_string() }]);
    assert_eq!(result, Ok(()));
    assert_eq!(c.net.app.last_error, Some(Error::EmptyPlaylist("spotify:playlist:P".to_string())));
    assert_eq!(c.net.app.playback_context, None);
}

#[test]
fn play_uri_shuffle_with_a_failed_read_does_not_fall_back() {
    let mut c = cli(None);
    let first = c.play_uri("spotify:playlist:P".to_string(), false, true);
    let (calls, result) = run(&mut c, first, vec![ApiReply::Failed("timeout".to_string())]);
    assert_eq!(calls, vec![ApiCall::Playlist { id: "P".to_string() }]);
    assert_eq!(result, Ok(()));
    assert_eq!(c.net.app.last_error, Some(Error::Api("timeout".to_string())));
    assert_eq!(c.net.app.devices, None);
    assert_eq!(c.net.app.search_results, SearchResults::new());
}

#[test]
fn play_uri_shuffle_with_a_malformed_read_does_not_play() {
    let mut c = cli(None);
    let first = c.play_uri("spotify:playlist:P".to_string(), false, true);
    let (calls, result) = run(&mut c, first, vec![ApiReply::Done]);
    assert_eq!(calls.len(), 1);
    assert_eq!(result, Ok(()));
    assert_eq!(c.net.app.last_error, Some(Error::MalformedResponse));
}

#[test]
fn play_uri_starts_a_playlist_as_it_is_without_random() {
    let mut c = cli(None);
    let first = c.play_uri("spotify:playlist:P".to_string(), true, false);
    let (calls, result) = run(&mut c, first, vec![ApiReply::Done]);
    assert_eq!(calls, vec![start_context("spotify:playlist:P", None)]);
    assert_eq!(result, Ok(()));
}

#[test]
fn play_uri_starts_any_other_context_without_a_position() {
    for uri in ["spotify:album:A", "spotify:artist:R", "spotify:show:S", "whatever"] {
        for random in [false, true] {
            let mut c = cli(None);
            let first = c.play_uri(uri.to_string(), false, random);
            let (calls, result) = run(&mut c, first, vec![ApiReply::Done]);
            assert_eq!(calls, vec![start_context(uri, None)]);
            assert_eq!(result, Ok(()));
        }
    }
}

#[test]
fn play_uri_records_a_failed_start_in_last_error() {
    let mut c = cli(None);
    let first = c.play_uri("spotify:album:A".to_string(), false, false);
    let (calls, result) = run(&mut c, first, vec![ApiReply::Failed("no active device".to_string())]);
    assert_eq!(calls.len(), 1);
    assert_eq!(result, Ok(()));
    assert_eq!(c.net.app.last_error, Some(Error::Api("no active device".to_string())));
}

#[test]
fn start_at_starts_the_context_at_the_position() {
    let c = cli(Some("d1"));
    let event = IoEvent::StartPlayback(Some("spotify:playlist:P".to_string()), None, Some(41));
    assert_eq!(
        c.start_at("spotify:playlist:P".to_string(), 41),
        Step::Call {
            call: ApiCall::StartPlayback {
                device_id: Some("d1".to_string()),
                context_uri: Some("spotify:playlist:P".to_string()),
                uris: None,
                offset: Some(41),
            },
            stage: Stage::Dispatching { event },
        }
    );
}

#[test]
fn play_begins_with_the_search() {
    let c = cli(Some("d1"));
    assert_eq!(
        c.play("X".to_string(), Type::Track, true, false),
        Step::Call {
            call: ApiCall::Search { query: "X".to_string(), device_id: None },
            stage: Stage::Searching { name: "X".to_string(), item: Type::Track, queue: true, random: false },
        }
    );
}

#[test]
fn play_without_a_hit_is_not_found() {
    let mut c = cli(None);
    let playing = Playback { device: device("d1"), is_playing: true, progress_ms: Some(3), item_uri: None };
    c.net.app.playback_context = Some(playing.clone());
    c.net.app.devices = Some(vec![device("d1")]);
    let first = c.play("X".to_string(), Type::Track, false, false);
    let (calls, result) = run(&mut c, first, vec![ApiReply::Search(tracks(&[]))]);
    assert_eq!(calls, vec![ApiCall::Search { query: "X".to_string(), device_id: None }]);
    assert_eq!(result, Err(Error::NotFound(Type::Track, "X".to_string())));
    assert_eq!(result.unwrap_err().message(), "no tracks with name 'X'");
    assert_eq!(c.net.app.playback_context, Some(playing));
    assert_eq!(c.net.app.devices, Some(vec![device("d1")]));
    assert_eq!(c.net.app.last_error, None);
}

#[test]
fn play_with_the_category_absent_is_not_found() {
    for kind in [Type::Track, Type::Album, Type::Artist, Type::Show, Type::Playlist] {
        let mut c = cli(None);
        let first = c.play("X".to_string(), kind, false, false);
        let (calls, result) = run(&mut c, first, vec![ApiReply::Search(SearchResults::new())]);
        assert_eq!(calls.len(), 1);
        assert_eq!(result, Err(Error::NotFound(kind, "X".to_string())));
    }
}

#[test]
fn play_an_album_without_identifier_is_missing_uri() {
    let mut results = SearchResults::new();
    results.albums = Some(vec![Album { name: "Kind of Blue".to_string(), uri: None }]);
    let mut c = cli(None);
    let first = c.play("Y".to_string(), Type::Album, false, false);
    let (calls, result) = run(&mut c, first, vec![ApiReply::Search(results.clone())]);
    assert_eq!(calls.len(), 1);
    assert_eq!(result, Err(Error::MissingUri("Kind of Blue".to_string())));
    assert_eq!(c.net.app.search_results, results);
}

#[test]
fn play_plays_the_first_track_found() {
    let mut c = cli(Some("d1"));
    let first = c.play("Anchor".to_string(), Type::Track, false, false);
    let found = tracks(&["spotify:track:1", "spotify:track:2"]);
    let (calls, result) = run(&mut c, first, vec![ApiReply::Search(found.clone()), ApiReply::Done]);
    assert_eq!(
        calls,
        vec![
            ApiCall::Search { query: "Anchor".to_string(), device_id: None },
            ApiCall::StartPlayback {
                device_id: Some("d1".to_string()),
                context_uri: None,
                uris: Some(vec!["spotify:track:1".to_string()]),
                offset: Some(0),
            },
        ]
    );
    assert_eq!(result, Ok(()));
    assert_eq!(c.net.app.search_results, found);
    assert_eq!(c.net.app.last_error, None);
}

#[test]
fn play_queues_the_first_track_found() {
    let mut c = cli(None);
    let first = c.play("Anchor".to_string(), Type::Track, true, false);
    let (calls, result) = run(&mut c, first, vec![ApiReply::Search(tracks(&["spotify:track:1"])), ApiReply::Done]);
    assert_eq!(calls[1], ApiCall::AddToQueue { uri: "spotify:track:1".to_string(), device_id: None });
    assert_eq!(calls.len(), 2);
    assert_eq!(result, Ok(()));
}

#[test]
fn play_shuffles_the_first_playlist_found_in_three_calls() {
    let mut results = SearchResults::new();
    results.playlists = Some(vec![item("mix", "spotify:playlist:P1"), item("other", "spotify:playlist:P2")]);
    let mut c = cli(None);
    let first = c.play("mix".to_string(), Type::Playlist, false, true);
    let replies = vec![ApiReply::Search(results), ApiReply::Playlist { total: 3 }, ApiReply::Done];
    let (calls, result) = run(&mut c, first, replies);
    assert_eq!(result, Ok(()));
    assert_eq!(calls.len(), 3);
    assert_eq!(calls[1], ApiCall::Playlist { id: "P1".to_string() });
    match &calls[2] {
        ApiCall::StartPlayback { context_uri, offset, .. } => {
            assert_eq!(context_uri, &Some("spotify:playlist:P1".to_string()));
            assert!(offset.unwrap() < 3);
        }
        other => panic!("expected a start of playback, got {:?}", other),
    }
}

#[test]
fn play_starts_album_artist_and_show_as_contexts() {
    let mut results = SearchResults::new();
    results.albums = Some(vec![Album { name: "a".to_string(), uri: Some("spotify:album:A".to_string()) }]);
    results.artists = Some(vec![item("r", "spotify:artist:R")]);
    results.shows = Some(vec![item("s", "spotify:show:S")]);
    for (kind, uri) in [(Type::Album, "spotify:album:A"), (Type::Artist, "spotify:artist:R"), (Type::Show, "spotify:show:S")] {
        let mut c = cli(None);
        let first = c.play("n".to_string(), kind, false, true);
        let (calls, result) = run(&mut c, first, vec![ApiReply::Search(results.clone()), ApiReply::Done]);
        assert_eq!(calls[1], start_context(uri, None));
        assert_eq!(result, Ok(()));
    }
}

#[test]
fn play_after_a_failed_search_reads_the_state_as_it_stands() {
    let mut c = cli(None);
    let first = c.play("X".to_string(), Type::Track, false, false);
    let (calls, result) = run(&mut c, first, vec![ApiReply::Failed("offline".to_string())]);
    assert_eq!(calls.len(), 1);
    assert_eq!(result, Err(Error::NotFound(Type::Track, "X".to_string())));
    assert_eq!(c.net.app.last_error, Some(Error::Api("offline".to_string())));
    assert_eq!(c.net.app.search_results, SearchResults::new());
}

#[test]
fn resume_in_a_forged_stage_finds_nothing_under_device() {
    let mut c = cli(None);
    let stage = Stage::Searching { name: "X".to_string(), item: Type::Device, queue: false, random: false };
    let step = c.resume(stage, ApiReply::Search(tracks(&["spotify:track:1"])));
    assert_eq!(step, Step::Done { result: Err(Error::NotFound(Type::Device, "X".to_string())) });
}

#[test]
fn commands_never_touch_the_configuration() {
    let mut c = cli(Some("d1"));
    let config = c.net.client_config.clone();
    let first = c.play("mix".to_string(), Type::Track, false, true);
    let _ = run(&mut c, first, vec![ApiReply::Search(tracks(&["spotify:playlist:P"])), ApiReply::Playlist { total: 2 }, ApiReply::Failed("x".to_string())]);
    assert_eq!(c.net.client_config, config);
}

#[test]
fn every_command_ends_within_three_calls() {
    let found = tracks(&["spotify:playlist:P"]);
    let scripts: Vec<Vec<ApiReply>> = vec![
        vec![ApiReply::Search(found.clone()), ApiReply::Playlist { total: 9 }, ApiReply::Done],
        vec![ApiReply::Search(found.clone()), ApiReply::Playlist { total: 0 }],
        vec![ApiReply::Search(found.clone()), ApiReply::Failed("x".to_string())],
        vec![ApiReply::Search(SearchResults::new())],
        vec![ApiReply::Done],
    ];
    for script in scripts {
        let mut c = cli(None);
        let first = c.play("n".to_string(), Type::Track, false, true);
        let (calls, _) = run(&mut c, first, script);
        assert!(calls.len() <= 3);
    }
}
