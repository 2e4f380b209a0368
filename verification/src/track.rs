//! The track identity carried by playback-change events.

use vstd::prelude::*;

verus! {

/// Mathematical value of a [`TrackInfo`]: its three fields as character
/// sequences.
pub struct TrackInfoView {
    pub title: Seq<char>,
    pub album: Seq<char>,
    pub artist: Seq<char>,
}

/// One identified playing track: the title/artist/album triple used to
/// render a presence status. `artist` and `album` may be empty when the
/// session did not report them.
#[derive(Clone, Debug, PartialEq)]
pub struct TrackInfo {
    pub title: String,
    pub album: String,
    pub artist: String,
}

impl View for TrackInfo {
    type V = TrackInfoView;

    open spec fn view(&self) -> TrackInfoView {
        TrackInfoView { title: self.title@, album: self.album@, artist: self.artist@ }
    }
}

/// Mathematical value of a [`PlaybackChange`].
pub enum PlaybackChangeView {
    Started(TrackInfoView),
    Stopped,
}

/// A single detected playback transition, produced by the poller and
/// consumed by the publisher: playback began with the given track, or all
/// playback ceased.
#[derive(Clone, Debug, PartialEq)]
pub enum PlaybackChange {
    Started(TrackInfo),
    Stopped,
}

impl View for PlaybackChange {
    type V = PlaybackChangeView;

    open spec fn view(&self) -> PlaybackChangeView {
        match self {
            PlaybackChange::Started(t) => PlaybackChangeView::Started(t@),
            PlaybackChange::Stopped => PlaybackChangeView::Stopped,
        }
    }
}

} // verus!
