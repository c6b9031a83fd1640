//! The session supervisor: a state machine that sequences
//! connect, discover, bind and poll, absorbs every failure by
//! retreating to an earlier stage, and decides what the shared cell
//! should show after each step.
//!
//! The machine itself performs no bus traffic. The surrounding driver
//! performs the action named by each directive, reports the outcome as
//! the next event, publishes the directive's value (when one is given)
//! and waits the directive's backoff before going on.

use vstd::prelude::*;

use crate::metadata::extract_track;
use crate::metadata::opt_str_view;
use crate::metadata::opt_track_view;
use crate::metadata::spec_extract_view;
use crate::metadata::lemma_extract_view;
use crate::track::PlaybackStatus;
use crate::track::TrackRecord;
use crate::track::TrackView;

verus! {

/// Backoff after a failed connection attempt.
pub const CONNECT_RETRY_MS: u64 = 5000;

/// Backoff after a discovery cycle that found no candidate.
pub const DISCOVERY_RETRY_MS: u64 = 2000;

/// Pause after a bind failure (the player vanished between discovery
/// and bind).
pub const BIND_RETRY_MS: u64 = 500;

/// Cadence of the polling cycle while a candidate is playing.
pub const POLL_INTERVAL_MS: u64 = 1000;

/// Where the supervisor stands in the connect/discover/poll sequence.
/// The two polling phases record that the status of the bound candidate
/// is checked before its metadata on every cycle.
pub enum SupervisorState {
    Disconnected,
    Discovering,
    Binding { candidate: String },
    AwaitStatus { candidate: String },
    AwaitMetadata { candidate: String },
}

/// Ghost image of a supervisor state.
pub ghost enum StateView {
    Disconnected,
    Discovering,
    Binding { candidate: Seq<char> },
    AwaitStatus { candidate: Seq<char> },
    AwaitMetadata { candidate: Seq<char> },
}

impl View for SupervisorState {
    type V = StateView;

    open spec fn view(&self) -> StateView {
        match self {
            SupervisorState::Disconnected => StateView::Disconnected,
            SupervisorState::Discovering => StateView::Discovering,
            SupervisorState::Binding { candidate } => StateView::Binding {
                candidate: candidate@,
            },
            SupervisorState::AwaitStatus { candidate } => StateView::AwaitStatus {
                candidate: candidate@,
            },
            SupervisorState::AwaitMetadata { candidate } => StateView::AwaitMetadata {
                candidate: candidate@,
            },
        }
    }
}

/// The outcome of the action the driver last performed.
pub enum SupervisorEvent {
    /// The connection attempt failed.
    ConnectFailed,
    /// The connection attempt succeeded.
    Connected,
    /// A discovery cycle finished, with or without a candidate.
    Discovered { candidate: Option<String> },
    /// The proxy could not be bound to the candidate.
    BindFailed,
    /// The proxy was bound.
    Bound,
    /// The status property was read, or the read failed (`None`).
    StatusSampled { status: Option<PlaybackStatus> },
    /// The metadata property was read; the fields are the raw title and
    /// the raw artist list.
    MetadataSampled { title: Option<String>, artists: Vec<String> },
    /// The metadata property could not be read.
    MetadataFailed,
    /// The bus connection itself is gone.
    BusLost,
}

/// Ghost image of an event.
pub ghost enum EventView {
    ConnectFailed,
    Connected,
    Discovered { candidate: Option<Seq<char>> },
    BindFailed,
    Bound,
    StatusSampled { status: Option<PlaybackStatus> },
    MetadataSampled { title: Option<Seq<char>>, artists: Seq<Seq<char>> },
    MetadataFailed,
    BusLost,
}

impl View for SupervisorEvent {
    type V = EventView;

    open spec fn view(&self) -> EventView {
        match self {
            SupervisorEvent::ConnectFailed => EventView::ConnectFailed,
            SupervisorEvent::Connected => EventView::Connected,
            SupervisorEvent::Discovered { candidate } => EventView::Discovered {
                candidate: opt_str_view(*candidate),
            },
            SupervisorEvent::BindFailed => EventView::BindFailed,
            SupervisorEvent::Bound => EventView::Bound,
            SupervisorEvent::StatusSampled { status } => EventView::StatusSampled {
                status: *status,
            },
            SupervisorEvent::MetadataSampled { title, artists } => EventView::MetadataSampled {
                title: opt_str_view(*title),
                artists: artists.deep_view(),
            },
            SupervisorEvent::MetadataFailed => EventView::MetadataFailed,
            SupervisorEvent::BusLost => EventView::BusLost,
        }
    }
}

/// What the driver is asked to do next.
#[derive(Clone, Copy, Debug, PartialEq, Eq, Structural)]
pub enum SupervisorAction {
    /// Try to connect to the session bus.
    Connect,
    /// Enumerate the registered names and rank the candidates.
    Discover,
    /// Bind a proxy to the current candidate.
    Bind,
    /// Read the candidate's playback status.
    SampleStatus,
    /// Read the candidate's metadata.
    SampleMetadata,
}

/// One instruction to the driver: the next action, what to publish to
/// the shared cell (`None` leaves it untouched), and how long to wait
/// first.
pub struct Directive {
    pub action: SupervisorAction,
    pub publish: Option<Option<TrackRecord>>,
    pub wait_ms: u64,
}

/// Ghost image of a directive's publication.
pub open spec fn opt2_track_view(p: Option<Option<TrackRecord>>) -> Option<Option<TrackView>> {
    match p {
        Some(v) => Some(opt_track_view(v)),
        None => None,
    }
}

/// Ghost image of one whole step: the state entered and the directive
/// issued.
pub ghost struct StepView {
    pub state: StateView,
    pub action: SupervisorAction,
    pub publish: Option<Option<TrackView>>,
    pub wait_ms: u64,
}

/// The state that a retreat to discovery enters: with a pinned player
/// the ranking is skipped and the pinned name is bound directly.
pub open spec fn discovering_state(fixed: Option<Seq<char>>) -> StateView {
    match fixed {
        Some(f) => StateView::Binding { candidate: f },
        None => StateView::Discovering,
    }
}

/// The action that a retreat to discovery asks for.
pub open spec fn discovering_action(fixed: Option<Seq<char>>) -> SupervisorAction {
    match fixed {
        Some(_) => SupervisorAction::Bind,
        None => SupervisorAction::Discover,
    }
}

/// The action a state waits on when no transition applies.
pub open spec fn natural_action(st: StateView) -> SupervisorAction {
    match st {
        StateView::Disconnected => SupervisorAction::Connect,
        StateView::Discovering => SupervisorAction::Discover,
        StateView::Binding { .. } => SupervisorAction::Bind,
        StateView::AwaitStatus { .. } => SupervisorAction::SampleStatus,
        StateView::AwaitMetadata { .. } => SupervisorAction::SampleMetadata,
    }
}

/// The transition table. Every failure retreats: a lost bus to
/// `Disconnected`, everything else to discovery; each retreat clears
/// the published state, except a bind failure, which merely retries
/// after a pause. An event that its state does not expect changes
/// nothing and re-issues the state's own action.
pub open spec fn spec_step(fixed: Option<Seq<char>>, st: StateView, ev: EventView) -> StepView {
    match (st, ev) {
        (StateView::Disconnected, EventView::Connected) => StepView {
            state: discovering_state(fixed),
            action: discovering_action(fixed),
            publish: None,
            wait_ms: 0,
        },
        (StateView::Disconnected, EventView::ConnectFailed) => StepView {
            state: StateView::Disconnected,
            action: SupervisorAction::Connect,
            publish: Some(None),
            wait_ms: CONNECT_RETRY_MS,
        },
        (StateView::Discovering, EventView::Discovered { candidate }) => match candidate {
            Some(c) => StepView {
                state: StateView::Binding { candidate: c },
                action: SupervisorAction::Bind,
                publish: None,
                wait_ms: 0,
            },
            None => StepView {
                state: StateView::Discovering,
                action: SupervisorAction::Discover,
                publish: Some(None),
                wait_ms: DISCOVERY_RETRY_MS,
            },
        },
        (StateView::Binding { candidate }, EventView::Bound) => StepView {
            state: StateView::AwaitStatus { candidate },
            action: SupervisorAction::SampleStatus,
            publish: None,
            wait_ms: 0,
        },
        (StateView::Binding { .. }, EventView::BindFailed) => StepView {
            state: discovering_state(fixed),
            action: discovering_action(fixed),
            publish: None,
            wait_ms: BIND_RETRY_MS,
        },
        (StateView::AwaitStatus { candidate }, EventView::StatusSampled { status }) => match status {
            Some(PlaybackStatus::Playing) => StepView {
                state: StateView::AwaitMetadata { candidate },
                action: SupervisorAction::SampleMetadata,
                publish: None,
                wait_ms: 0,
            },
            _ => StepView {
                state: discovering_state(fixed),
                action: discovering_action(fixed),
                publish: Some(None),
                wait_ms: 0,
            },
        },
        (StateView::AwaitMetadata { candidate }, EventView::MetadataSampled { title, artists }) => StepView {
            state: StateView::AwaitStatus { candidate },
            action: SupervisorAction::SampleStatus,
            publish: Some(spec_extract_view(title, artists)),
            wait_ms: POLL_INTERVAL_MS,
        },
        (StateView::AwaitMetadata { .. }, EventView::MetadataFailed) => StepView {
            state: discovering_state(fixed),
            action: discovering_action(fixed),
            publish: Some(None),
            wait_ms: 0,
        },
        (_, EventView::BusLost) => StepView {
            state: StateView::Disconnected,
            action: SupervisorAction::Connect,
            publish: Some(None),
            wait_ms: 0,
        },
        (other, _) => StepView {
            state: other,
            action: natural_action(other),
            publish: None,
            wait_ms: 0,
        },
    }
}

/// The state reached after a sequence of events.
pub open spec fn run_states(
    fixed: Option<Seq<char>>,
    st: StateView,
    evs: Seq<EventView>,
) -> StateView
    decreases evs.len(),
{
    if evs.len() == 0 {
        st
    } else {
        run_states(fixed, spec_step(fixed, st, evs[0]).state, evs.drop_first())
    }
}

/// While the bus stays unreachable, the machine never leaves
/// `Disconnected`, however long the failure lasts; every retry keeps
/// the published state cleared and waits the connect backoff.
pub proof fn lemma_bus_unreachable(fixed: Option<Seq<char>>, evs: Seq<EventView>)
    requires
        forall|i: int| 0 <= i < evs.len() ==> evs[i] == EventView::ConnectFailed,
    ensures
        run_states(fixed, StateView::Disconnected, evs) == StateView::Disconnected,
        forall|i: int|
            0 <= i < evs.len() ==> spec_step(fixed, StateView::Disconnected, #[trigger] evs[i])
                == (StepView {
                state: StateView::Disconnected,
                action: SupervisorAction::Connect,
                publish: Some(None),
                wait_ms: CONNECT_RETRY_MS,
            }),
    decreases evs.len(),
{
    if evs.len() > 0 {
        assert(evs[0] == EventView::ConnectFailed);
        assert(forall|i: int|
            0 <= i < evs.drop_first().len() ==> #[trigger] evs.drop_first()[i] == evs[i + 1]);
        lemma_bus_unreachable(fixed, evs.drop_first());
    }
}

/// A candidate that is no longer playing is abandoned: any status
/// sample other than "Playing" while polling clears the published
/// state and retreats to discovery.
pub proof fn lemma_not_playing_clears(
    fixed: Option<Seq<char>>,
    candidate: Seq<char>,
    status: Option<PlaybackStatus>,
)
    requires
        status != Some(PlaybackStatus::Playing),
    ensures
        ({
            let step = spec_step(
                fixed,
                StateView::AwaitStatus { candidate },
                EventView::StatusSampled { status },
            );
            &&& step.state == discovering_state(fixed)
            &&& step.action == discovering_action(fixed)
            &&& step.publish == Some(Option::<TrackView>::None)
        }),
{
}

/// No step ever publishes a record with an empty field: whatever the
/// state and the event, the publication is to leave the cell alone, to
/// clear it, or to show a displayable record.
pub proof fn lemma_step_publishes_valid(fixed: Option<Seq<char>>, st: StateView, ev: EventView)
    ensures
        match spec_step(fixed, st, ev).publish {
            Some(Some(tv)) => crate::track::track_view_valid(tv),
            _ => true,
        },
{
}

/// The directive and the state agree: every step asks for exactly the
/// action its new state waits on, so a driver that performs each
/// directive's action can never get out of phase with the machine.
pub proof fn lemma_action_matches_state(fixed: Option<Seq<char>>, st: StateView, ev: EventView)
    ensures
        spec_step(fixed, st, ev).action == natural_action(spec_step(fixed, st, ev).state),
{
}

/// The supervisor: the optionally pinned player name and the current
/// state. Created disconnected; driven by [`Supervisor::step`].
pub struct Supervisor {
    pub fixed: Option<String>,
    pub state: SupervisorState,
}

impl Supervisor {
    /// A fresh supervisor, not yet connected. `fixed` pins a player
    /// name and disables dynamic discovery.
    pub fn new(fixed: Option<String>) -> (s: Supervisor)
        ensures
            s.state@ == StateView::Disconnected,
            s.fixed == fixed,
    {
        Supervisor { fixed, state: SupervisorState::Disconnected }
    }

    /// The action the driver should perform next, before any event has
    /// been reported (and whenever it needs to re-derive it).
    pub fn pending_action(&self) -> (a: SupervisorAction)
        ensures
            a == natural_action(self.state@),
    {
        match &self.state {
            SupervisorState::Disconnected => SupervisorAction::Connect,
            SupervisorState::Discovering => SupervisorAction::Discover,
            SupervisorState::Binding { .. } => SupervisorAction::Bind,
            SupervisorState::AwaitStatus { .. } => SupervisorAction::SampleStatus,
            SupervisorState::AwaitMetadata { .. } => SupervisorAction::SampleMetadata,
        }
    }

    /// Advance the machine by one event and obtain the next directive.
    /// The transition, the directive and the publication are exactly
    /// those of [`spec_step`] on the old state.
    pub fn step(&mut self, ev: SupervisorEvent) -> (d: Directive)
        ensures
            ({
                let step = spec_step(opt_str_view(old(self).fixed), old(self).state@, ev@);
                &&& opt_str_view(final(self).fixed) == opt_str_view(old(self).fixed)
                &&& final(self).state@ == step.state
                &&& d.action == step.action
                &&& opt2_track_view(d.publish) == step.publish
                &&& d.wait_ms == step.wait_ms
            }),
    {
        let mut st = SupervisorState::Disconnected;
        core::mem::swap(&mut st, &mut self.state);
        let (next, d) = self.transition(st, ev);
        self.state = next;
        d
    }

    /// Retreat to discovery: with a pinned name, straight back to
    /// binding it; otherwise to a fresh ranking cycle.
    fn enter_discovering(&self) -> (r: (SupervisorState, SupervisorAction))
        ensures
            r.0@ == discovering_state(opt_str_view(self.fixed)),
            r.1 == discovering_action(opt_str_view(self.fixed)),
    {
        match &self.fixed {
            Some(f) => (SupervisorState::Binding { candidate: f.clone() }, SupervisorAction::Bind),
            None => (SupervisorState::Discovering, SupervisorAction::Discover),
        }
    }

    /// The transition table, on owned values.
    fn transition(&self, st: SupervisorState, ev: SupervisorEvent) -> (r: (
        SupervisorState,
        Directive,
    ))
        ensures
            ({
                let step = spec_step(opt_str_view(self.fixed), st@, ev@);
                &&& r.0@ == step.state
                &&& r.1.action == step.action
                &&& opt2_track_view(r.1.publish) == step.publish
                &&& r.1.wait_ms == step.wait_ms
            }),
    {
        match (st, ev) {
            (SupervisorState::Disconnected, SupervisorEvent::Connected) => {
                let (next, action) = self.enter_discovering();
                (next, Directive { action, publish: None, wait_ms: 0 })
            },
            (SupervisorState::Disconnected, SupervisorEvent::ConnectFailed) => (
                SupervisorState::Disconnected,
                Directive {
                    action: SupervisorAction::Connect,
                    publish: Some(None),
                    wait_ms: CONNECT_RETRY_MS,
                },
            ),
            (SupervisorState::Discovering, SupervisorEvent::Discovered { candidate }) => match candidate {
                Some(c) => (
                    SupervisorState::Binding { candidate: c },
                    Directive { action: SupervisorAction::Bind, publish: None, wait_ms: 0 },
                ),
                None => (
                    SupervisorState::Discovering,
                    Directive {
                        action: SupervisorAction::Discover,
                        publish: Some(None),
                        wait_ms: DISCOVERY_RETRY_MS,
                    },
                ),
            },
            (SupervisorState::Binding { candidate }, SupervisorEvent::Bound) => (
                SupervisorState::AwaitStatus { candidate },
                Directive { action: SupervisorAction::SampleStatus, publish: None, wait_ms: 0 },
            ),
            (SupervisorState::Binding { candidate: _ }, SupervisorEvent::BindFailed) => {
                let (next, action) = self.enter_discovering();
                (next, Directive { action, publish: None, wait_ms: BIND_RETRY_MS })
            },
            (
                SupervisorState::AwaitStatus { candidate },
                SupervisorEvent::StatusSampled { status },
            ) => match status {
                Some(PlaybackStatus::Playing) => (
                    SupervisorState::AwaitMetadata { candidate },
                    Directive {
                        action: SupervisorAction::SampleMetadata,
                        publish: None,
                        wait_ms: 0,
                    },
                ),
                _ => {
                    let (next, action) = self.enter_discovering();
                    (next, Directive { action, publish: Some(None), wait_ms: 0 })
                },
            },
            (
                SupervisorState::AwaitMetadata { candidate },
                SupervisorEvent::MetadataSampled { title, artists },
            ) => {
                let ghost title_g = title;
                let ghost artists_g = artists;
                let published = extract_track(title, artists);
                proof {
                    lemma_extract_view(title_g, artists_g);
                }
                (
                    SupervisorState::AwaitStatus { candidate },
                    Directive {
                        action: SupervisorAction::SampleStatus,
                        publish: Some(published),
                        wait_ms: POLL_INTERVAL_MS,
                    },
                )
            },
            (SupervisorState::AwaitMetadata { candidate: _ }, SupervisorEvent::MetadataFailed) => {
                let (next, action) = self.enter_discovering();
                (next, Directive { action, publish: Some(None), wait_ms: 0 })
            },
            (_, SupervisorEvent::BusLost) => (
                SupervisorState::Disconnected,
                Directive { action: SupervisorAction::Connect, publish: Some(None), wait_ms: 0 },
            ),
            (s, _) => {
                let action = match &s {
                    SupervisorState::Disconnected => SupervisorAction::Connect,
                    SupervisorState::Discovering => SupervisorAction::Discover,
                    SupervisorState::Binding { .. } => SupervisorAction::Bind,
                    SupervisorState::AwaitStatus { .. } => SupervisorAction::SampleStatus,
                    SupervisorState::AwaitMetadata { .. } => SupervisorAction::SampleMetadata,
                };
                (s, Directive { action, publish: None, wait_ms: 0 })
            },
        }
    }
}

} // verus!
