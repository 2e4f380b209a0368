//! The library's model of one media-server playback session.
//!
//! The media-server collaborator reports sessions over the network; the
//! surrounding process converts each report into a [`SessionData`] value so
//! that the extraction and filtering rules here can be stated and checked
//! over plain values.

use vstd::prelude::*;

verus! {

/// The kind of media a session is playing. Only [`MediaKind::Track`]
/// sessions are eligible for presence updates.
#[derive(Clone, Copy, Debug, PartialEq, Eq, Structural)]
pub enum MediaKind {
    Track,
    Movie,
    Episode,
    Photo,
    Other,
}

/// Mathematical value of a [`SessionData`]: the same fields with every
/// string as a character sequence.
pub struct SessionView {
    pub media_kind: MediaKind,
    pub player_state: Seq<char>,
    pub title: Seq<char>,
    pub parent_title: Option<Seq<char>>,
    pub grandparent_title: Option<Seq<char>>,
    pub original_title: Option<Seq<char>>,
}

/// One collaborator-reported record of an active playback stream: the media
/// kind, the player state as the server spells it (for example `"playing"`
/// or `"paused"`), and the title fields the extraction rules read.
#[derive(Clone, Debug)]
pub struct SessionData {
    pub media_kind: MediaKind,
    pub player_state: String,
    pub title: String,
    pub parent_title: Option<String>,
    pub grandparent_title: Option<String>,
    pub original_title: Option<String>,
}

impl View for SessionData {
    type V = SessionView;

    open spec fn view(&self) -> SessionView {
        SessionView {
            media_kind: self.media_kind,
            player_state: self.player_state@,
            title: self.title@,
            parent_title: match self.parent_title {
                Some(s) => Some(s@),
                None => None,
            },
            grandparent_title: match self.grandparent_title {
                Some(s) => Some(s@),
                None => None,
            },
            original_title: match self.original_title {
                Some(s) => Some(s@),
                None => None,
            },
        }
    }
}

/// The views of a whole session list, in the order the server returned it.
pub open spec fn session_views(sessions: Seq<SessionData>) -> Seq<SessionView> {
    sessions.map_values(|s: SessionData| s@)
}

} // verus!
