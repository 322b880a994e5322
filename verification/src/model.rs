//! The values that travel between the remote service and the shared state,
//! each with the mathematical view that contracts speak of.
//!
//! A view replaces every `String` by its sequence of characters and every
//! `Vec` by a sequence, so two values with equal views hold the same content
//! whatever buffers they live in.

use vstd::prelude::*;
use crate::Type;

verus! {

/// A playback device, as the service lists it.
#[derive(Debug, Clone, PartialEq, Eq)]
pub struct Device {
    pub id: String,
    pub name: String,
    pub is_active: bool,
}

#[verifier::ext_equal]
pub struct DeviceView {
    pub id: Seq<char>,
    pub name: Seq<char>,
    pub is_active: bool,
}

impl View for Device {
    type V = DeviceView;

    open spec fn view(&self) -> DeviceView {
        DeviceView { id: self.id@, name: self.name@, is_active: self.is_active }
    }
}

impl DeepView for Device {
    type V = DeviceView;

    open spec fn deep_view(&self) -> DeviceView {
        self@
    }
}

/// What the service reports as playing right now.
#[derive(Debug, Clone, PartialEq, Eq)]
pub struct Playback {
    pub device: Device,
    pub is_playing: bool,
    pub progress_ms: Option<u32>,
    pub item_uri: Option<String>,
}

#[verifier::ext_equal]
pub struct PlaybackView {
    pub device: DeviceView,
    pub is_playing: bool,
    pub progress_ms: Option<u32>,
    pub item_uri: Option<Seq<char>>,
}

impl View for Playback {
    type V = PlaybackView;

    open spec fn view(&self) -> PlaybackView {
        PlaybackView {
            device: self.device@,
            is_playing: self.is_playing,
            progress_ms: self.progress_ms,
            item_uri: self.item_uri.deep_view(),
        }
    }
}

impl DeepView for Playback {
    type V = PlaybackView;

    open spec fn deep_view(&self) -> PlaybackView {
        self@
    }
}

/// A search hit that always carries an identifier: a track, an artist, a
/// show or a playlist.
#[derive(Debug, Clone, PartialEq, Eq)]
pub struct Item {
    pub name: String,
    pub uri: String,
}

#[verifier::ext_equal]
pub struct ItemView {
    pub name: Seq<char>,
    pub uri: Seq<char>,
}

impl View for Item {
    type V = ItemView;

    open spec fn view(&self) -> ItemView {
        ItemView { name: self.name@, uri: self.uri@ }
    }
}

impl DeepView for Item {
    type V = ItemView;

    open spec fn deep_view(&self) -> ItemView {
        self@
    }
}

/// An album among the search hits. The service may list one without an
/// identifier.
#[derive(Debug, Clone, PartialEq, Eq)]
pub struct Album {
    pub name: String,
    pub uri: Option<String>,
}

#[verifier::ext_equal]
pub struct AlbumView {
    pub name: Seq<char>,
    pub uri: Option<Seq<char>>,
}

impl View for Album {
    type V = AlbumView;

    open spec fn view(&self) -> AlbumView {
        AlbumView { name: self.name@, uri: self.uri.deep_view() }
    }
}

impl DeepView for Album {
    type V = AlbumView;

    open spec fn deep_view(&self) -> AlbumView {
        self@
    }
}

/// The hits of one search, by category. A category the service did not
/// answer for is `None`.
#[derive(Debug, Clone, PartialEq, Eq)]
pub struct SearchResults {
    pub tracks: Option<Vec<Item>>,
    pub albums: Option<Vec<Album>>,
    pub artists: Option<Vec<Item>>,
    pub shows: Option<Vec<Item>>,
    pub playlists: Option<Vec<Item>>,
}

#[verifier::ext_equal]
pub struct SearchResultsView {
    pub tracks: Option<Seq<ItemView>>,
    pub albums: Option<Seq<AlbumView>>,
    pub artists: Option<Seq<ItemView>>,
    pub shows: Option<Seq<ItemView>>,
    pub playlists: Option<Seq<ItemView>>,
}

impl SearchResultsView {
    /// No category answered.
    pub open spec fn empty() -> SearchResultsView {
        SearchResultsView { tracks: None, albums: None, artists: None, shows: None, playlists: None }
    }
}

impl View for SearchResults {
    type V = SearchResultsView;

    open spec fn view(&self) -> SearchResultsView {
        SearchResultsView {
            tracks: self.tracks.deep_view(),
            albums: self.albums.deep_view(),
            artists: self.artists.deep_view(),
            shows: self.shows.deep_view(),
            playlists: self.playlists.deep_view(),
        }
    }
}

impl DeepView for SearchResults {
    type V = SearchResultsView;

    open spec fn deep_view(&self) -> SearchResultsView {
        self@
    }
}

/// The identifier of the first of `items`, or `NotFound` where the category
/// did not answer or answered with nothing.
pub open spec fn first_item_uri(items: Option<Seq<ItemView>>, kind: Type, name: Seq<char>) -> Result<
    Seq<char>,
    ErrorView,
> {
    if items is Some && items->0.len() > 0 {
        Ok(items->0[0].uri)
    } else {
        Err(ErrorView::NotFound(kind, name))
    }
}

/// The identifier of the first of `albums`: `NotFound` where there is no
/// first album, `MissingUri` with the album's name where it carries none.
pub open spec fn first_album_uri(albums: Option<Seq<AlbumView>>, name: Seq<char>) -> Result<
    Seq<char>,
    ErrorView,
> {
    if albums is Some && albums->0.len() > 0 {
        match albums->0[0].uri {
            Some(uri) => Ok(uri),
            None => Err(ErrorView::MissingUri(albums->0[0].name)),
        }
    } else {
        Err(ErrorView::NotFound(Type::Album, name))
    }
}

/// What a search for `name` resolves to in the category `kind`: the
/// identifier of the first hit. `Device` and `Liked` name no category, so
/// nothing is found under them.
pub open spec fn first_uri_spec(results: SearchResultsView, kind: Type, name: Seq<char>) -> Result<
    Seq<char>,
    ErrorView,
> {
    match kind {
        Type::Track => first_item_uri(results.tracks, kind, name),
        Type::Album => first_album_uri(results.albums, name),
        Type::Artist => first_item_uri(results.artists, kind, name),
        Type::Show => first_item_uri(results.shows, kind, name),
        Type::Playlist => first_item_uri(results.playlists, kind, name),
        Type::Device => Err(ErrorView::NotFound(kind, name)),
        Type::Liked => Err(ErrorView::NotFound(kind, name)),
    }
}

/// How many hits `results` holds in the category `kind`; none where the
/// category did not answer, or where `kind` names no category.
pub open spec fn hit_count(results: SearchResultsView, kind: Type) -> nat {
    match kind {
        Type::Track => if results.tracks is Some { results.tracks->0.len() } else { 0 },
        Type::Album => if results.albums is Some { results.albums->0.len() } else { 0 },
        Type::Artist => if results.artists is Some { results.artists->0.len() } else { 0 },
        Type::Show => if results.shows is Some { results.shows->0.len() } else { 0 },
        Type::Playlist => if results.playlists is Some { results.playlists->0.len() } else { 0 },
        Type::Device => 0,
        Type::Liked => 0,
    }
}

/// A search resolves to `NotFound`, with the name searched for, exactly
/// where its category holds no hit.
pub proof fn lemma_not_found(results: SearchResultsView, kind: Type, name: Seq<char>)
    ensures
        hit_count(results, kind) == 0 <==> first_uri_spec(results, kind, name) == Err::<
            Seq<char>,
            ErrorView,
        >(ErrorView::NotFound(kind, name)),
        first_uri_spec(results, kind, name) is Err ==> kind == Type::Album || hit_count(
            results,
            kind,
        ) == 0,
{
}

/// A search for an album resolves to `MissingUri`, with the album's name,
/// exactly where the first album found carries no identifier; every other
/// first hit resolves to its identifier.
pub proof fn lemma_missing_uri(results: SearchResultsView, name: Seq<char>)
    requires
        hit_count(results, Type::Album) > 0,
    ensures
        results.albums->0[0].uri is None ==> first_uri_spec(results, Type::Album, name) == Err::<
            Seq<char>,
            ErrorView,
        >(ErrorView::MissingUri(results.albums->0[0].name)),
        results.albums->0[0].uri matches Some(uri) ==> first_uri_spec(results, Type::Album, name)
            == Ok::<Seq<char>, ErrorView>(uri),
{
}

/// The view of a resolved identifier, or of the error in its place.
pub open spec fn resolved_view(r: Result<String, Error>) -> Result<Seq<char>, ErrorView> {
    match r {
        Ok(uri) => Ok(uri@),
        Err(e) => Err(e@),
    }
}

/// The identifier of the first of `items`.
fn first_item(items: &Option<Vec<Item>>, kind: Type, name: &str) -> (r: Result<String, Error>)
    ensures
        resolved_view(r) == first_item_uri(items.deep_view(), kind, name@),
{
    match items {
        Some(list) => {
            if list.len() > 0 {
                let uri = list[0].uri.clone();
                assert(list.deep_view()[0].uri == uri@);
                Ok(uri)
            } else {
                Err(Error::NotFound(kind, name.to_owned()))
            }
        },
        None => Err(Error::NotFound(kind, name.to_owned())),
    }
}

/// The identifier of the first of `albums`.
fn first_album(albums: &Option<Vec<Album>>, name: &str) -> (r: Result<String, Error>)
    ensures
        resolved_view(r) == first_album_uri(albums.deep_view(), name@),
{
    match albums {
        Some(list) => {
            if list.len() > 0 {
                let album = &list[0];
                assert(list.deep_view()[0] == album@);
                match &album.uri {
                    Some(uri) => Ok(uri.clone()),
                    None => Err(Error::MissingUri(album.name.clone())),
                }
            } else {
                Err(Error::NotFound(Type::Album, name.to_owned()))
            }
        },
        None => Err(Error::NotFound(Type::Album, name.to_owned())),
    }
}

impl SearchResults {
    /// Resolves a search for `name` in the category `kind` to the identifier
    /// of its first hit.
    pub fn first_uri(&self, kind: Type, name: &str) -> (r: Result<String, Error>)
        ensures
            resolved_view(r) == first_uri_spec(self@, kind, name@),
    {
        match kind {
            Type::Track => first_item(&self.tracks, kind, name),
            Type::Album => first_album(&self.albums, name),
            Type::Artist => first_item(&self.artists, kind, name),
            Type::Show => first_item(&self.shows, kind, name),
            Type::Playlist => first_item(&self.playlists, kind, name),
            Type::Device => Err(Error::NotFound(kind, name.to_owned())),
            Type::Liked => Err(Error::NotFound(kind, name.to_owned())),
        }
    }

    /// Results in which no category answered.
    pub fn new() -> (r: SearchResults)
        ensures
            r@ == SearchResultsView::empty(),
    {
        SearchResults { tracks: None, albums: None, artists: None, shows: None, playlists: None }
    }
}

/// Everything that can go wrong with a command.
///
/// `NotFound` and `MissingUri` are handed back to the caller of a command.
/// The others are only ever written into the shared state.
#[derive(Debug, Clone, PartialEq, Eq)]
pub enum Error {
    /// The service, or the way to it, failed; the text is its own.
    Api(String),
    /// The reply does not answer the call that was made.
    MalformedResponse,
    /// A playlist without tracks offers no position to start from; the text
    /// is the playlist's identifier.
    EmptyPlaylist(String),
    /// A search by name gave nothing in the category asked for.
    NotFound(Type, String),
    /// The album found, named here, carries no identifier to play.
    MissingUri(String),
}

#[verifier::ext_equal]
pub enum ErrorView {
    Api(Seq<char>),
    MalformedResponse,
    EmptyPlaylist(Seq<char>),
    NotFound(Type, Seq<char>),
    MissingUri(Seq<char>),
}

impl View for Error {
    type V = ErrorView;

    open spec fn view(&self) -> ErrorView {
        match self {
            Error::Api(text) => ErrorView::Api(text@),
            Error::MalformedResponse => ErrorView::MalformedResponse,
            Error::EmptyPlaylist(uri) => ErrorView::EmptyPlaylist(uri@),
            Error::NotFound(kind, name) => ErrorView::NotFound(*kind, name@),
            Error::MissingUri(name) => ErrorView::MissingUri(name@),
        }
    }
}

impl DeepView for Error {
    type V = ErrorView;

    open spec fn deep_view(&self) -> ErrorView {
        self@
    }
}

/// The word for a category in a message.
pub open spec fn plural(kind: Type) -> Seq<char> {
    match kind {
        Type::Playlist => "playlists"@,
        Type::Track => "tracks"@,
        Type::Artist => "artists"@,
        Type::Album => "albums"@,
        Type::Show => "shows"@,
        Type::Device => "devices"@,
        Type::Liked => "liked tracks"@,
    }
}

/// The one line that describes an error to the user.
pub open spec fn message_of(e: ErrorView) -> Seq<char> {
    match e {
        ErrorView::Api(text) => text,
        ErrorView::MalformedResponse => "unexpected reply from the service"@,
        ErrorView::EmptyPlaylist(uri) => "playlist "@ + uri + " has no tracks"@,
        ErrorView::NotFound(kind, name) => "no "@ + plural(kind) + " with name '"@ + name + "'"@,
        ErrorView::MissingUri(name) => "album "@ + name + " has no uri"@,
    }
}

/// The word for a category in a message.
fn plural_word(kind: Type) -> (w: &'static str)
    ensures
        w@ == plural(kind),
{
    match kind {
        Type::Playlist => "playlists",
        Type::Track => "tracks",
        Type::Artist => "artists",
        Type::Album => "albums",
        Type::Show => "shows",
        Type::Device => "devices",
        Type::Liked => "liked tracks",
    }
}

impl Error {
    /// The one line that describes this error to the user.
    pub fn message(&self) -> (m: String)
        ensures
            m@ == message_of(self@),
    {
        match self {
            Error::Api(text) => text.clone(),
            Error::MalformedResponse => "unexpected reply from the service".to_owned(),
            Error::EmptyPlaylist(uri) => {
                let mut m: String = "playlist ".to_owned();
                m.append(uri.as_str());
                m.append(" has no tracks");
                m
            },
            Error::NotFound(kind, name) => {
                let mut m: String = "no ".to_owned();
                m.append(plural_word(*kind));
                m.append(" with name '");
                m.append(name.as_str());
                m.append("'");
                m
            },
            Error::MissingUri(name) => {
                let mut m: String = "album ".to_owned();
                m.append(name.as_str());
                m.append(" has no uri");
                m
            },
        }
    }
}

} // verus!
