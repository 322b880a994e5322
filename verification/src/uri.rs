//! The grammar of resource identifiers, as far as commands depend on it.
//!
//! An identifier such as `spotify:playlist:37i9dQ` carries a type tag and,
//! after its last colon, the bare id of the resource. Both are read off the
//! characters of the string; nothing else about an identifier is assumed.

use vstd::prelude::*;

verus! {

/// What an identifier names, as far as playback cares.
#[derive(Debug, Clone, Copy, PartialEq, Eq, Structural)]
pub enum UriKind {
    /// A single track: played alone, or queued.
    Track,
    /// A playlist: a context that can be entered at a chosen position.
    Playlist,
    /// Any other context (album, artist, show, ...).
    Other,
}

/// The tag that marks a track.
pub open spec fn track_tag() -> Seq<char> {
    "spotify:track:"@
}

/// The tag that marks a playlist.
pub open spec fn playlist_tag() -> Seq<char> {
    "spotify:playlist:"@
}

/// `pat` stands in `s` at position `at`.
pub open spec fn occurs_at(s: Seq<char>, pat: Seq<char>, at: int) -> bool {
    &&& 0 <= at
    &&& at + pat.len() <= s.len()
    &&& s.subrange(at, at + pat.len()) == pat
}

/// `pat` stands somewhere in `s`.
pub open spec fn contains(s: Seq<char>, pat: Seq<char>) -> bool {
    exists|at: int| occurs_at(s, pat, at)
}

/// The kind of an identifier: a track tag anywhere in it makes it a track,
/// otherwise a playlist tag makes it a playlist.
pub open spec fn kind_of(uri: Seq<char>) -> UriKind {
    if contains(uri, track_tag()) {
        UriKind::Track
    } else if contains(uri, playlist_tag()) {
        UriKind::Playlist
    } else {
        UriKind::Other
    }
}

/// Where the last colon-separated segment of `s` begins: just behind the
/// last colon, or at 0 where `s` holds none.
pub open spec fn segment_start(s: Seq<char>) -> int
    decreases s.len(),
{
    if s.len() == 0 {
        0
    } else if s.last() == ':' {
        s.len() as int
    } else {
        segment_start(s.drop_last())
    }
}

/// The last colon-separated segment of `s`: the bare id of an identifier.
pub open spec fn last_segment(s: Seq<char>) -> Seq<char> {
    s.subrange(segment_start(s), s.len() as int)
}

/// `k` is where the last segment of `s` begins: no colon from `k` on, and a
/// colon just before `k` unless `k` is 0.
pub open spec fn starts_last_segment(s: Seq<char>, k: int) -> bool {
    &&& 0 <= k <= s.len()
    &&& k > 0 ==> s[k - 1] == ':'
    &&& forall|j: int| k <= j < s.len() ==> s[j] != ':'
}

/// `segment_start` is the one position that begins the last segment.
pub proof fn lemma_segment_start(s: Seq<char>, k: int)
    ensures
        starts_last_segment(s, segment_start(s)),
        starts_last_segment(s, k) ==> k == segment_start(s),
    decreases s.len(),
{
    if s.len() == 0 {
    } else if s.last() == ':' {
        if starts_last_segment(s, k) && k < s.len() {
            assert(s[s.len() - 1] != ':');
        }
    } else {
        let t = s.drop_last();
        lemma_segment_start(t, k);
        let m = segment_start(t);
        assert(starts_last_segment(s, m)) by {
            assert(m > 0 ==> s[m - 1] == t[m - 1]);
            assert forall|j: int| m <= j < s.len() implies s[j] != ':' by {
                if j < t.len() {
                    assert(s[j] == t[j]);
                }
            }
        }
        if starts_last_segment(s, k) {
            assert(k < s.len()) by {
                if k == s.len() {
                    assert(s[k - 1] == ':');
                }
            }
            assert(starts_last_segment(t, k)) by {
                assert(k > 0 ==> t[k - 1] == s[k - 1]);
                assert forall|j: int| k <= j < t.len() implies t[j] != ':' by {
                    assert(t[j] == s[j]);
                }
            }
        }
    }
}

/// The characters of `s`, in order.
pub fn chars_of(s: &str) -> (v: Vec<char>)
    ensures
        v@ == s@,
{
    let mut v: Vec<char> = Vec::new();
    for c in it: s.chars()
        invariant
            it.seq() == s@,
            v@ == s@.take(it.index()),
    {
        v.push(c);
    }
    v
}

/// Whether `pat` stands in `s` at `at`.
fn occurs(s: &Vec<char>, pat: &Vec<char>, at: usize) -> (b: bool)
    requires
        at + pat.len() <= s.len(),
    ensures
        b == occurs_at(s@, pat@, at as int),
{
    let mut j: usize = 0;
    while j < pat.len()
        invariant
            j <= pat.len(),
            at + pat.len() <= s.len(),
            forall|k: int| 0 <= k < j ==> s@[at + k] == pat@[k],
        decreases pat.len() - j,
    {
        if s[at + j] != pat[j] {
            assert(s@.subrange(at as int, at + pat@.len())[j as int] != pat@[j as int]);
            return false;
        }
        j += 1;
    }
    assert(s@.subrange(at as int, at + pat@.len()) =~= pat@);
    true
}

/// Whether `pat` stands somewhere in `s`.
pub fn contains_chars(s: &Vec<char>, pat: &Vec<char>) -> (b: bool)
    ensures
        b == contains(s@, pat@),
{
    if pat.len() > s.len() {
        return false;
    }
    let last: usize = s.len() - pat.len();
    let mut at: usize = 0;
    loop
        invariant
            at <= last,
            last == s.len() - pat.len(),
            forall|k: int| 0 <= k < at ==> !occurs_at(s@, pat@, k),
        decreases last - at,
    {
        if occurs(s, pat, at) {
            return true;
        }
        if at == last {
            return false;
        }
        at += 1;
    }
}

/// Classifies an identifier by the tag it carries.
pub fn classify(uri: &str) -> (k: UriKind)
    ensures
        k == kind_of(uri@),
{
    let chars = chars_of(uri);
    let track = chars_of("spotify:track:");
    if contains_chars(&chars, &track) {
        return UriKind::Track;
    }
    let playlist = chars_of("spotify:playlist:");
    if contains_chars(&chars, &playlist) {
        UriKind::Playlist
    } else {
        UriKind::Other
    }
}

/// The bare id of an identifier: what follows its last colon, or all of it
/// where it holds no colon.
pub fn resource_id(uri: &str) -> (id: String)
    ensures
        id@ == last_segment(uri@),
{
    let chars = chars_of(uri);
    let mut k: usize = chars.len();
    while k > 0 && chars[k - 1] != ':'
        invariant
            k <= chars.len(),
            forall|j: int| k <= j < chars.len() ==> chars@[j] != ':',
        decreases k,
    {
        k -= 1;
    }
    proof {
        lemma_segment_start(uri@, k as int);
    }
    uri.substring_char(k, chars.len()).to_owned()
}

} // verus!
