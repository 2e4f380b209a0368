//! The presence publisher: a three-state machine that owns the lifecycle
//! of the presence-service connection.
//!
//! The publisher consumes [`PlaybackChange`] events and decides, step by
//! step, which presence-service commands the surrounding process must
//! perform. The `AwaitingClear` / `Reconnecting` detour after a `Stopped`
//! event is deliberate: merely clearing the status leaves a residual
//! default status visible, so the connection is cleared, left to settle
//! for a fixed grace delay, and then dropped and rebuilt.

use vstd::prelude::*;
use vstd::string::StringExecFns;

use crate::track::{PlaybackChange, PlaybackChangeView};

verus! {

/// The application identity presented when a presence connection is
/// opened.
pub const DISCORD_CLIENT_ID: i64 = 807024921858277376;

/// The fixed grace delay, in milliseconds, observed between clearing the
/// status and discarding the connection.
pub const GRACE_DELAY_MS: u64 = 1000;

/// Where the publisher stands in the connection lifecycle.
#[derive(Clone, Copy, Debug, PartialEq, Eq, Structural)]
pub enum PublisherState {
    /// A connection exists and may display a status; events are accepted.
    Active,
    /// A `Stopped` event was received and the clear request sent; the
    /// connection is about to be discarded.
    AwaitingClear,
    /// The old connection handle is dropped and a fresh one opened.
    Reconnecting,
}

/// Mathematical value of a [`PresenceCommand`].
pub enum PresenceCommandView {
    SetStatus { status_line: Seq<char>, detail_line: Seq<char> },
    ClearStatus,
    PumpCallbacks,
    GraceDelay,
    CloseConnection,
    OpenConnection,
}

/// One instruction to the surrounding process, in the order returned:
/// send a status update, send a clear request, run the connection's
/// pending-callback pump, sleep for the grace delay, close the current
/// connection, or open a fresh one.
#[derive(Clone, Debug, PartialEq)]
pub enum PresenceCommand {
    SetStatus { status_line: String, detail_line: String },
    ClearStatus,
    PumpCallbacks,
    GraceDelay,
    CloseConnection,
    OpenConnection,
}

impl View for PresenceCommand {
    type V = PresenceCommandView;

    open spec fn view(&self) -> PresenceCommandView {
        match self {
            PresenceCommand::SetStatus { status_line, detail_line } => (
            PresenceCommandView::SetStatus {
                status_line: status_line@,
                detail_line: detail_line@,
            }),
            PresenceCommand::ClearStatus => PresenceCommandView::ClearStatus,
            PresenceCommand::PumpCallbacks => PresenceCommandView::PumpCallbacks,
            PresenceCommand::GraceDelay => PresenceCommandView::GraceDelay,
            PresenceCommand::CloseConnection => PresenceCommandView::CloseConnection,
            PresenceCommand::OpenConnection => PresenceCommandView::OpenConnection,
        }
    }
}

/// The views of a command list, in order.
pub open spec fn command_views(commands: Seq<PresenceCommand>) -> Seq<PresenceCommandView> {
    commands.map_values(|c: PresenceCommand| c@)
}

/// The status line shown for a playing track.
pub open spec fn status_line_view(title: Seq<char>) -> Seq<char> {
    "Track: "@ + title
}

/// The detail line shown for a playing track.
pub open spec fn detail_line_view(artist: Seq<char>) -> Seq<char> {
    "Artist: "@ + artist
}

/// Builds the status line `"Track: {title}"`.
pub fn status_line(title: &str) -> (r: String)
    ensures
        r@ == status_line_view(title@),
{
    String::from_str("Track: ").concat(title)
}

/// Builds the detail line `"Artist: {artist}"`.
pub fn detail_line(artist: &str) -> (r: String)
    ensures
        r@ == detail_line_view(artist@),
{
    String::from_str("Artist: ").concat(artist)
}

/// One step of the publisher: from the current state and the event
/// received (only the `Active` state accepts events), the commands to
/// perform, in order, and the next state.
///
/// In `Active`, a `Started` event sends the track's status and a `Stopped`
/// event sends the clear request; the pending-callback pump runs once per
/// step except on the step that sends the clear, whose pump is the first
/// action of the `AwaitingClear` step that follows it, as the recovery
/// sequence dictates.
pub open spec fn spec_step(state: PublisherState, event: Option<PlaybackChangeView>) -> (Seq<
    PresenceCommandView,
>, PublisherState) {
    match state {
        PublisherState::Active => match event {
            Some(PlaybackChangeView::Started(t)) => (
                seq![
                    PresenceCommandView::SetStatus {
                        status_line: status_line_view(t.title),
                        detail_line: detail_line_view(t.artist),
                    },
                    PresenceCommandView::PumpCallbacks,
                ],
                PublisherState::Active,
            ),
            Some(PlaybackChangeView::Stopped) => (
                seq![PresenceCommandView::ClearStatus],
                PublisherState::AwaitingClear,
            ),
            None => (seq![PresenceCommandView::PumpCallbacks], PublisherState::Active),
        },
        PublisherState::AwaitingClear => (
            seq![PresenceCommandView::PumpCallbacks, PresenceCommandView::GraceDelay],
            PublisherState::Reconnecting,
        ),
        PublisherState::Reconnecting => (
            seq![PresenceCommandView::CloseConnection, PresenceCommandView::OpenConnection],
            PublisherState::Active,
        ),
    }
}

/// The state after a status-update completion callback reports its
/// outcome: the outcome, success or failure, changes nothing.
pub open spec fn after_status_outcome(state: PublisherState, ok: bool) -> PublisherState {
    state
}

/// The publisher's state machine. The surrounding process owns the actual
/// connection handle and performs the commands each step returns.
pub struct Publisher {
    pub state: PublisherState,
}

impl Publisher {
    /// At startup the publisher is active, with a freshly created
    /// connection and no status set.
    pub fn new() -> (r: Self)
        ensures
            r.state is Active,
    {
        Publisher { state: PublisherState::Active }
    }

    /// One step of the loop, as [`spec_step`] states. Events may only be
    /// handed in while the publisher is active: in the other states the
    /// recovery sequence runs to completion before the next receive.
    pub fn step(&mut self, event: Option<PlaybackChange>) -> (commands: Vec<PresenceCommand>)
        requires
            !(old(self).state is Active) ==> event is None,
        ensures
            command_views(commands@) == spec_step(
                old(self).state,
                crate::poller::change_option_view(event),
            ).0,
            final(self).state == spec_step(
                old(self).state,
                crate::poller::change_option_view(event),
            ).1,
    {
        match self.state {
            PublisherState::Active => match event {
                Some(PlaybackChange::Started(track)) => {
                    let commands = vec![
                        PresenceCommand::SetStatus {
                            status_line: status_line(track.title.as_str()),
                            detail_line: detail_line(track.artist.as_str()),
                        },
                        PresenceCommand::PumpCallbacks,
                    ];
                    proof {
                        assert(command_views(commands@) =~= spec_step(
                            old(self).state,
                            crate::poller::change_option_view(Some(
                                PlaybackChange::Started(track),
                            )),
                        ).0);
                    }
                    commands
                },
                Some(PlaybackChange::Stopped) => {
                    self.state = PublisherState::AwaitingClear;
                    let commands = vec![PresenceCommand::ClearStatus];
                    proof {
                        assert(command_views(commands@) =~= seq![
                            PresenceCommandView::ClearStatus,
                        ]);
                    }
                    commands
                },
                None => {
                    let commands = vec![PresenceCommand::PumpCallbacks];
                    proof {
                        assert(command_views(commands@) =~= seq![
                            PresenceCommandView::PumpCallbacks,
                        ]);
                    }
                    commands
                },
            },
            PublisherState::AwaitingClear => {
                self.state = PublisherState::Reconnecting;
                let commands = vec![PresenceCommand::PumpCallbacks, PresenceCommand::GraceDelay];
                proof {
                    assert(command_views(commands@) =~= seq![
                        PresenceCommandView::PumpCallbacks,
                        PresenceCommandView::GraceDelay,
                    ]);
                }
                commands
            },
            PublisherState::Reconnecting => {
                self.state = PublisherState::Active;
                let commands = vec![
                    PresenceCommand::CloseConnection,
                    PresenceCommand::OpenConnection,
                ];
                proof {
                    assert(command_views(commands@) =~= seq![
                        PresenceCommandView::CloseConnection,
                        PresenceCommandView::OpenConnection,
                    ]);
                }
                commands
            },
        }
    }

    /// Records the outcome a status-update completion callback reported.
    /// A failure is logged by the surrounding process and is not fatal: it
    /// leaves the publisher exactly where it was, so later events are
    /// processed as if the update had succeeded.
    pub fn note_status_outcome(&mut self, ok: bool)
        ensures
            final(self).state == after_status_outcome(old(self).state, ok),
            *final(self) == *old(self),
    {
    }
}

/// After a `Stopped` event arrives in the active state, the publisher
/// issues exactly one clear request, runs the callback pump, observes the
/// grace delay, and then closes the old connection and opens exactly one
/// new one, in that order, before returning to the active state in which
/// the next event is accepted.
pub proof fn lemma_stop_recovery_sequence()
    ensures
        ({
            let (c1, s1) = spec_step(
                PublisherState::Active,
                Some(PlaybackChangeView::Stopped),
            );
            let (c2, s2) = spec_step(s1, None);
            let (c3, s3) = spec_step(s2, None);
            &&& c1 + c2 + c3 =~= seq![
                PresenceCommandView::ClearStatus,
                PresenceCommandView::PumpCallbacks,
                PresenceCommandView::GraceDelay,
                PresenceCommandView::CloseConnection,
                PresenceCommandView::OpenConnection,
            ]
            &&& s1 is AwaitingClear
            &&& s2 is Reconnecting
            &&& s3 is Active
        }),
{
}

/// The outcome a status-update callback reports never influences how later
/// events are handled: the next step is the same whether the update
/// succeeded or failed.
pub proof fn lemma_status_outcome_irrelevant(
    state: PublisherState,
    event: Option<PlaybackChangeView>,
    ok_a: bool,
    ok_b: bool,
)
    ensures
        after_status_outcome(state, ok_a) == after_status_outcome(state, ok_b),
        spec_step(after_status_outcome(state, ok_a), event) == spec_step(
            after_status_outcome(state, ok_b),
            event,
        ),
{
}

} // verus!
