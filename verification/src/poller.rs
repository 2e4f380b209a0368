//! The session poller: track extraction and playback edge detection.
//!
//! Each poll cycle the surrounding process fetches the list of active
//! sessions and hands it to [`extract_trackinfo`]; the resulting
//! `Option<TrackInfo>` is fed to [`PlaybackObservationState::observe`],
//! which emits a [`PlaybackChange`] exactly on the edges of the
//! is-something-playing flag.

use vstd::prelude::*;

use crate::session::{MediaKind, SessionData, SessionView, session_views};
use crate::track::{PlaybackChange, PlaybackChangeView, TrackInfo, TrackInfoView};

verus! {

/// A session is eligible when it plays an audio track and its player state
/// is exactly `"playing"` (case-sensitive).
pub open spec fn session_matches(s: SessionView) -> bool {
    s.media_kind is Track && s.player_state == "playing"@
}

/// The artist of an extracted track: the original-title field when present
/// (set for compilation tracks), else the grandparent title (the album
/// artist), else empty.
pub open spec fn extracted_artist(s: SessionView) -> Seq<char> {
    match s.original_title {
        Some(t) => t,
        None => match s.grandparent_title {
            Some(t) => t,
            None => Seq::<char>::empty(),
        },
    }
}

/// The album of an extracted track: the parent-title field, or empty when
/// absent.
pub open spec fn extracted_album(s: SessionView) -> Seq<char> {
    match s.parent_title {
        Some(t) => t,
        None => Seq::<char>::empty(),
    }
}

/// The track identity extracted from one eligible session.
pub open spec fn extracted_track(s: SessionView) -> TrackInfoView {
    TrackInfoView {
        title: s.title,
        album: extracted_album(s),
        artist: extracted_artist(s),
    }
}

/// The track extracted from the first eligible session at or after
/// position `i`, or `None` when no session from there on is eligible.
pub open spec fn first_match_from(sessions: Seq<SessionView>, i: int) -> Option<TrackInfoView>
    decreases sessions.len() - i,
{
    if i < 0 || i >= sessions.len() {
        None
    } else if session_matches(sessions[i]) {
        Some(extracted_track(sessions[i]))
    } else {
        first_match_from(sessions, i + 1)
    }
}

/// The track extracted from the first eligible session of the list; ties
/// among several playing sessions are broken by list order alone.
pub open spec fn first_match(sessions: Seq<SessionView>) -> Option<TrackInfoView> {
    first_match_from(sessions, 0)
}

/// Decides whether one session is eligible for presence updates.
pub fn session_is_match(s: &SessionData) -> (r: bool)
    ensures
        r == session_matches(s@),
{
    s.media_kind == MediaKind::Track && s.player_state == "playing".to_owned()
}

/// Filters the session list to playing audio tracks and extracts the track
/// identity of the first one, exactly as [`first_match`] states.
pub fn extract_trackinfo(sessions: &Vec<SessionData>) -> (r: Option<TrackInfo>)
    ensures
        match r {
            Some(t) => first_match(session_views(sessions@)) == Some(t@),
            None => first_match(session_views(sessions@)) is None,
        },
{
    let n = sessions.len();
    let mut i: usize = 0;
    while i < n
        invariant
            n == sessions@.len(),
            i <= n,
            first_match(session_views(sessions@)) == first_match_from(
                session_views(sessions@),
                i as int,
            ),
        decreases n - i,
    {
        let s = &sessions[i];
        proof {
            assert(session_views(sessions@)[i as int] == sessions@[i as int]@);
        }
        if session_is_match(s) {
            let artist = match &s.original_title {
                Some(t) => t.clone(),
                None => match &s.grandparent_title {
                    Some(t) => t.clone(),
                    None => String::new(),
                },
            };
            let album = match &s.parent_title {
                Some(t) => t.clone(),
                None => String::new(),
            };
            let track = TrackInfo { title: s.title.clone(), album, artist };
            proof {
                assert(track@ == extracted_track(session_views(sessions@)[i as int]));
            }
            return Some(track);
        }
        i += 1;
    }
    None
}

/// The view of a poll result.
pub open spec fn track_option_view(current: Option<TrackInfo>) -> Option<TrackInfoView> {
    match current {
        Some(t) => Some(t@),
        None => None,
    }
}

/// The view of an emitted event.
pub open spec fn change_option_view(event: Option<PlaybackChange>) -> Option<PlaybackChangeView> {
    match event {
        Some(e) => Some(e@),
        None => None,
    }
}

/// The event one poll cycle emits: `Started` exactly on a not-playing to
/// playing edge, `Stopped` exactly on the reverse edge, nothing otherwise.
pub open spec fn poll_event(was_playing: bool, current: Option<TrackInfoView>) -> Option<
    PlaybackChangeView,
> {
    match current {
        Some(t) => if !was_playing {
            Some(PlaybackChangeView::Started(t))
        } else {
            None
        },
        None => if was_playing {
            Some(PlaybackChangeView::Stopped)
        } else {
            None
        },
    }
}

/// The poller's private observation state: whether the previous poll cycle
/// saw a playing track. `false` at process start.
pub struct PlaybackObservationState {
    pub is_playing: bool,
}

impl PlaybackObservationState {
    /// At process start nothing is known to be playing.
    pub fn new() -> (r: Self)
        ensures
            !r.is_playing,
    {
        PlaybackObservationState { is_playing: false }
    }

    /// One poll cycle: compares the poll result against the flag, updates
    /// the flag, and emits an event only on an edge. A `Started` event is
    /// emitted if and only if nothing was playing before and the poll saw a
    /// track; a `Stopped` event if and only if something was playing before
    /// and the poll saw none.
    pub fn observe(&mut self, current: Option<TrackInfo>) -> (event: Option<PlaybackChange>)
        ensures
            final(self).is_playing == (current is Some),
            change_option_view(event) == poll_event(
                old(self).is_playing,
                track_option_view(current),
            ),
            (event matches Some(e) && e is Started) <==> (!old(self).is_playing && current is Some),
            (event matches Some(e) && e is Stopped) <==> (old(self).is_playing && current is None),
    {
        match current {
            Some(track) => {
                let was = self.is_playing;
                self.is_playing = true;
                if !was {
                    Some(PlaybackChange::Started(track))
                } else {
                    None
                }
            },
            None => {
                let was = self.is_playing;
                self.is_playing = false;
                if was {
                    Some(PlaybackChange::Stopped)
                } else {
                    None
                }
            },
        }
    }
}

/// The flag the poller holds just before poll cycle `i` of a run that
/// started with flag `init`: the previous cycle's result decides it.
pub open spec fn playing_before(polls: Seq<Option<TrackInfoView>>, init: bool, i: int) -> bool {
    if i <= 0 {
        init
    } else {
        polls[i - 1] is Some
    }
}

/// Every event a run of poll cycles emits, in order, starting from flag
/// `playing`.
pub open spec fn emitted_events(polls: Seq<Option<TrackInfoView>>, playing: bool) -> Seq<
    PlaybackChangeView,
>
    decreases polls.len(),
{
    if polls.len() == 0 {
        Seq::<PlaybackChangeView>::empty()
    } else {
        let rest = emitted_events(polls.drop_first(), polls[0] is Some);
        match poll_event(playing, polls[0]) {
            Some(e) => seq![e] + rest,
            None => rest,
        }
    }
}

/// A `Started` event arises at poll cycle `i` exactly when the flag before
/// the cycle was off and the cycle saw a track, and a `Stopped` event
/// exactly in the symmetric case.
pub proof fn lemma_event_iff_edge(polls: Seq<Option<TrackInfoView>>, init: bool, i: int)
    requires
        0 <= i < polls.len(),
    ensures
        (poll_event(playing_before(polls, init, i), polls[i]) matches Some(e) && e is Started)
            <==> (!playing_before(polls, init, i) && polls[i] is Some),
        (poll_event(playing_before(polls, init, i), polls[i]) matches Some(e) && e is Stopped)
            <==> (playing_before(polls, init, i) && polls[i] is None),
{
}

/// Events strictly alternate: with the flag off the next event can only be
/// `Started`, with it on only `Stopped`, and each emission flips the flag.
pub open spec fn alternating_from(events: Seq<PlaybackChangeView>, playing: bool) -> bool
    decreases events.len(),
{
    if events.len() == 0 {
        true
    } else {
        &&& if playing {
            events[0] is Stopped
        } else {
            events[0] is Started
        }
        &&& alternating_from(events.drop_first(), !playing)
    }
}

/// Whatever the poll results, the emitted events alternate between
/// `Started` and `Stopped`, beginning as the initial flag dictates.
pub proof fn lemma_events_alternate(polls: Seq<Option<TrackInfoView>>, playing: bool)
    ensures
        alternating_from(emitted_events(polls, playing), playing),
    decreases polls.len(),
{
    if polls.len() == 0 {
    } else {
        let rest = emitted_events(polls.drop_first(), polls[0] is Some);
        lemma_events_alternate(polls.drop_first(), polls[0] is Some);
        match poll_event(playing, polls[0]) {
            Some(e) => {
                assert((seq![e] + rest).drop_first() =~= rest);
            },
            None => {
                assert(polls[0] is Some <==> playing);
            },
        }
    }
}

/// No two consecutive emitted events are the same kind: never `Started`
/// twice without an intervening `Stopped`, and never `Stopped` twice.
pub proof fn lemma_no_consecutive_repeat(events: Seq<PlaybackChangeView>, playing: bool, i: int)
    requires
        alternating_from(events, playing),
        0 <= i,
        i + 1 < events.len(),
    ensures
        !(events[i] is Started && events[i + 1] is Started),
        !(events[i] is Stopped && events[i + 1] is Stopped),
    decreases i,
{
    assert(events.drop_first()[i] == events[i + 1]);
    if i == 0 {
        assert(events.drop_first()[0] == events[1]);
    } else {
        assert(events.drop_first()[i - 1] == events[i]);
        lemma_no_consecutive_repeat(events.drop_first(), !playing, i - 1);
    }
}

/// In a run that starts with the flag off, no `Stopped` event precedes the
/// first `Started`: every `Stopped` has a `Started` somewhere before it.
pub proof fn lemma_stopped_after_started(events: Seq<PlaybackChangeView>, i: int)
    requires
        alternating_from(events, false),
        0 <= i < events.len(),
        events[i] is Stopped,
    ensures
        exists|j: int| 0 <= j < i && events[j] is Started,
{
    assert(events[0] is Started);
    assert(0 <= 0 < i && events[0] is Started);
}

/// Whatever the poll results, no two consecutive emitted events are the
/// same kind: never two `Started` without an intervening `Stopped`, and
/// never two `Stopped` in a row.
pub proof fn lemma_emitted_no_consecutive_repeat(
    polls: Seq<Option<TrackInfoView>>,
    init: bool,
    i: int,
)
    requires
        0 <= i,
        i + 1 < emitted_events(polls, init).len(),
    ensures
        !(emitted_events(polls, init)[i] is Started && emitted_events(polls, init)[i + 1]
            is Started),
        !(emitted_events(polls, init)[i] is Stopped && emitted_events(polls, init)[i + 1]
            is Stopped),
{
    lemma_events_alternate(polls, init);
    lemma_no_consecutive_repeat(emitted_events(polls, init), init, i);
}

/// In a run that starts with the flag off, as at process start, every
/// emitted `Stopped` is preceded by an emitted `Started`.
pub proof fn lemma_emitted_stopped_after_started(polls: Seq<Option<TrackInfoView>>, i: int)
    requires
        0 <= i < emitted_events(polls, false).len(),
        emitted_events(polls, false)[i] is Stopped,
    ensures
        exists|j: int| 0 <= j < i && emitted_events(polls, false)[j] is Started,
{
    lemma_events_alternate(polls, false);
    lemma_stopped_after_started(emitted_events(polls, false), i);
}

/// Extraction is a function of the raw session list alone: the same list
/// always yields the same track.
pub proof fn lemma_extraction_deterministic(a: Seq<SessionView>, b: Seq<SessionView>)
    requires
        a == b,
    ensures
        first_match(a) == first_match(b),
{
}

/// Artist fallback: the original-title field wins, else the grandparent
/// title, else the artist is empty.
pub proof fn lemma_artist_fallback(s: SessionView)
    ensures
        s.original_title matches Some(t) ==> extracted_track(s).artist == t,
        s.original_title is None ==> (s.grandparent_title matches Some(t) ==> extracted_track(
            s,
        ).artist == t),
        (s.original_title is None && s.grandparent_title is None) ==> extracted_track(s).artist
            == Seq::<char>::empty(),
{
}

/// When no session at or after position `i` is eligible, nothing is
/// extracted from there on.
pub proof fn lemma_no_match_from(sessions: Seq<SessionView>, i: int)
    requires
        forall|j: int| i <= j < sessions.len() ==> !session_matches(sessions[j]),
    ensures
        first_match_from(sessions, i) is None,
    decreases sessions.len() - i,
{
    if 0 <= i < sessions.len() {
        lemma_no_match_from(sessions, i + 1);
    }
}

/// When no session of the list is eligible, nothing is extracted.
pub proof fn lemma_no_match_no_extraction(sessions: Seq<SessionView>)
    requires
        forall|j: int| 0 <= j < sessions.len() ==> !session_matches(sessions[j]),
    ensures
        first_match(sessions) is None,
{
    lemma_no_match_from(sessions, 0);
}

/// A session that is not an audio track, or whose player state is not
/// exactly `"playing"`, never produces a `Started` event, whatever the
/// flag was before the cycle.
pub proof fn lemma_filtered_session_never_starts(s: SessionView, was_playing: bool)
    requires
        !(s.media_kind is Track) || s.player_state != "playing"@,
    ensures
        !(poll_event(was_playing, first_match(seq![s])) matches Some(e) && e is Started),
{
    assert(seq![s][0] == s);
    lemma_no_match_no_extraction(seq![s]);
}

} // verus!
