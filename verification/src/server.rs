//! The supervisor of the proxy process, as a state machine.
//!
//! The supervisor owns one child process that carries the guest's stream
//! on its standard output and takes the host's answers and input on its
//! standard input. This module decides; it does no I/O. Its caller spawns,
//! reads, writes and sleeps, tells the machine what happened, and carries
//! out, in order, the actions that the machine answers with. When a write
//! or a required flush fails, the caller drops the rest of the actions and
//! reports [`SupervisorEvent::IoFailed`].

use crate::buf::bytes_as_slice;
use crate::le::{push_u32_le, u32_le};
use crate::wayland::client::{
    events_view, messages_view, millis_since_epoch, wall_time_millis, RenderEvent,
    SerialCounter, WaylandClient,
};
use crate::wayland::model::{ClientView, RenderEventView};
use crate::wayland::wire::{encode_message, MessageView};
use vstd::prelude::*;
use vstd::slice::slice_to_vec;

verus! {

/// The id of the one client that the proxy stands for.
pub const CLIENT_ID: u32 = 1;

/// How long the supervisor waits before it starts the proxy again.
pub const RESTART_DELAY_MILLIS: u64 = 3000;

/// How many events for the compositor may wait before the supervisor has
/// to.
pub const EVENT_QUEUE_CAPACITY: usize = 256;

/// How many commands may wait for the supervisor; older ones are lost to a
/// receiver that lags.
pub const COMMAND_QUEUE_CAPACITY: usize = 16;

/// The kind of an input frame that carries a key.
pub const INPUT_KIND_KEY: u32 = 1;

/// The kind of an input frame that carries pointer motion.
pub const INPUT_KIND_MOTION: u32 = 2;

/// The kind of an input frame that carries a button.
pub const INPUT_KIND_BUTTON: u32 = 3;

/// Input from the host for the guest. States are 0 for released and 1 for
/// pressed; codes are those of the Linux input layer; coordinates are
/// whole pixels.
#[derive(Debug, Clone, Copy, PartialEq, Eq, Structural)]
pub enum InputEvent {
    Key { state: u32, code: u32 },
    Motion { x: u32, y: u32 },
    Button { state: u32, button: u32 },
}

/// What the compositor asks of the supervisor.
#[derive(Debug, Clone, Copy, PartialEq, Eq, Structural)]
pub enum ServerCommand {
    SendInput(InputEvent),
    Shutdown,
}

/// What the supervisor tells the compositor.
#[derive(Debug, PartialEq, Eq)]
pub enum ServerEvent {
    /// A client has connected.
    ClientConnected { id: u32 },
    /// A client has disconnected.
    ClientDisconnected { id: u32 },
    /// Raw bytes from a client.
    Data { id: u32, data: Vec<u8> },
    /// Something for the renderer, from the Wayland stream of a client.
    Render(u32, RenderEvent),
    /// Pixels that arrived beside the Wayland stream of a client.
    PixelData {
        client_id: u32,
        surface_id: u32,
        width: u32,
        height: u32,
        format: u32,
        data: Vec<u8>,
    },
}

/// A server event as a mathematical value.
pub enum ServerEventView {
    ClientConnected { id: u32 },
    ClientDisconnected { id: u32 },
    Data { id: u32, data: Seq<u8> },
    Render(u32, RenderEventView),
    PixelData {
        client_id: u32,
        surface_id: u32,
        width: u32,
        height: u32,
        format: u32,
        data: Seq<u8>,
    },
}

impl View for ServerEvent {
    type V = ServerEventView;

    open spec fn view(&self) -> ServerEventView {
        match *self {
            ServerEvent::ClientConnected { id } => ServerEventView::ClientConnected { id },
            ServerEvent::ClientDisconnected { id } => ServerEventView::ClientDisconnected { id },
            ServerEvent::Data { id, data } => ServerEventView::Data { id, data: data@ },
            ServerEvent::Render(client_id, event) => ServerEventView::Render(client_id, event@),
            ServerEvent::PixelData {
                client_id,
                surface_id,
                width,
                height,
                format,
                data,
            } => ServerEventView::PixelData {
                client_id,
                surface_id,
                width,
                height,
                format,
                data: data@,
            },
        }
    }
}

/// The four bytes that open an input frame: `INPT`.
pub open spec fn input_magic() -> Seq<u8> {
    seq![0x49u8, 0x4Eu8, 0x50u8, 0x54u8]
}

/// The input frame for an event: the magic, the kind, two operands and a
/// word of padding, twenty bytes in all.
pub open spec fn input_frame(event: InputEvent) -> Seq<u8> {
    match event {
        InputEvent::Key { state, code } => input_magic() + u32_le(INPUT_KIND_KEY) + u32_le(state)
            + u32_le(code) + u32_le(0),
        InputEvent::Motion { x, y } => input_magic() + u32_le(INPUT_KIND_MOTION) + u32_le(x)
            + u32_le(y) + u32_le(0),
        InputEvent::Button { state, button } => input_magic() + u32_le(INPUT_KIND_BUTTON) + u32_le(
            state,
        ) + u32_le(button) + u32_le(0),
    }
}

/// Every input frame is twenty bytes long.
pub proof fn lemma_input_frame_len(event: InputEvent)
    ensures
        input_frame(event).len() == 20,
{
}

/// The input frame for an event.
pub fn encode_input(event: InputEvent) -> (frame: Vec<u8>)
    ensures
        frame@ == input_frame(event),
{
    let mut frame: Vec<u8> = Vec::with_capacity(20);
    frame.push(0x49);
    frame.push(0x4E);
    frame.push(0x50);
    frame.push(0x54);
    assert(frame@ =~= input_magic());
    let (kind, a, b): (u32, u32, u32) = match event {
        InputEvent::Key { state, code } => (INPUT_KIND_KEY, state, code),
        InputEvent::Motion { x, y } => (INPUT_KIND_MOTION, x, y),
        InputEvent::Button { state, button } => (INPUT_KIND_BUTTON, state, button),
    };
    push_u32_le(&mut frame, kind);
    push_u32_le(&mut frame, a);
    push_u32_le(&mut frame, b);
    push_u32_le(&mut frame, 0);
    frame
}

/// How an event for the renderer reaches the compositor: pixels that came
/// beside the stream as an event of their own, anything else wrapped, both
/// with the client's id.
pub open spec fn forwarded(client_id: u32, event: RenderEventView) -> ServerEventView {
    match event {
        RenderEventView::PixelData {
            surface_id,
            width,
            height,
            format,
            data,
        } => ServerEventView::PixelData { client_id, surface_id, width, height, format, data },
        other => ServerEventView::Render(client_id, other),
    }
}

/// Wraps an event for the renderer for the compositor.
pub fn forward(client_id: u32, event: RenderEvent) -> (wrapped: ServerEvent)
    ensures
        wrapped@ == forwarded(client_id, event@),
{
    match event {
        RenderEvent::PixelData {
            surface_id,
            width,
            height,
            format,
            data,
        } => ServerEvent::PixelData { client_id, surface_id, width, height, format, data },
        other => ServerEvent::Render(client_id, other),
    }
}

/// The number of connected clients after an event.
pub open spec fn client_count_after_view(count: u32, event: ServerEventView) -> u32 {
    match event {
        ServerEventView::ClientConnected { .. } => if count < u32::MAX {
            (count + 1) as u32
        } else {
            count
        },
        ServerEventView::ClientDisconnected { .. } => if count > 0 {
            (count - 1) as u32
        } else {
            0
        },
        _ => count,
    }
}

/// The number of connected clients after an event: one more for a
/// connection, one fewer for a disconnection, never below zero.
pub fn client_count_after(count: u32, event: &ServerEvent) -> (after: u32)
    ensures
        after == client_count_after_view(count, event@),
{
    match event {
        ServerEvent::ClientConnected { .. } => count.saturating_add(1),
        ServerEvent::ClientDisconnected { .. } => count.saturating_sub(1),
        _ => count,
    }
}

/// Where the supervisor stands.
#[derive(Debug, Clone, Copy, PartialEq, Eq, Structural)]
pub enum Phase {
    /// Nothing has been started yet.
    Idle,
    /// The proxy is being spawned.
    Starting,
    /// The proxy runs and its stream is being handled.
    Running,
    /// The proxy is gone and the supervisor waits to start it again.
    Backoff,
    /// The supervisor has been shut down.
    Stopped,
}

/// What happened outside.
#[derive(Debug, PartialEq, Eq)]
pub enum SupervisorEvent {
    /// The supervisor is asked to begin.
    Start,
    /// The proxy has been spawned.
    Spawned,
    /// The proxy could not be spawned.
    SpawnFailed,
    /// The proxy has written these bytes; there is at least one.
    Output(Vec<u8>),
    /// The proxy has closed its output.
    Eof,
    /// Reading from or writing to the proxy has failed.
    IoFailed,
    /// The compositor asks for something.
    Command(ServerCommand),
    /// The wait before a restart is over.
    BackoffElapsed,
}

/// An event as a mathematical value.
pub enum SupervisorEventView {
    Start,
    Spawned,
    SpawnFailed,
    Output(Seq<u8>),
    Eof,
    IoFailed,
    Command(ServerCommand),
    BackoffElapsed,
}

impl View for SupervisorEvent {
    type V = SupervisorEventView;

    open spec fn view(&self) -> SupervisorEventView {
        match *self {
            SupervisorEvent::Start => SupervisorEventView::Start,
            SupervisorEvent::Spawned => SupervisorEventView::Spawned,
            SupervisorEvent::SpawnFailed => SupervisorEventView::SpawnFailed,
            SupervisorEvent::Output(data) => SupervisorEventView::Output(data@),
            SupervisorEvent::Eof => SupervisorEventView::Eof,
            SupervisorEvent::IoFailed => SupervisorEventView::IoFailed,
            SupervisorEvent::Command(command) => SupervisorEventView::Command(command),
            SupervisorEvent::BackoffElapsed => SupervisorEventView::BackoffElapsed,
        }
    }
}

/// What the caller is to do next.
#[derive(Debug, PartialEq, Eq)]
pub enum Action {
    /// Spawn the proxy, with its input and output piped.
    Spawn,
    /// Hand an event to the compositor, waiting for room if need be.
    Emit(ServerEvent),
    /// Write these bytes to the proxy's input.
    Write(Vec<u8>),
    /// Flush the proxy's input. A flush that is not required may fail
    /// without consequence.
    Flush { required: bool },
    /// Kill the proxy.
    Kill,
    /// Wait this long, then report [`SupervisorEvent::BackoffElapsed`].
    Sleep { millis: u64 },
}

/// An action as a mathematical value.
pub enum ActionView {
    Spawn,
    Emit(ServerEventView),
    Write(Seq<u8>),
    Flush { required: bool },
    Kill,
    Sleep { millis: u64 },
}

impl View for Action {
    type V = ActionView;

    open spec fn view(&self) -> ActionView {
        match *self {
            Action::Spawn => ActionView::Spawn,
            Action::Emit(event) => ActionView::Emit(event@),
            Action::Write(bytes) => ActionView::Write(bytes@),
            Action::Flush { required } => ActionView::Flush { required },
            Action::Kill => ActionView::Kill,
            Action::Sleep { millis } => ActionView::Sleep { millis },
        }
    }
}

/// The views of the actions, in order.
pub open spec fn actions_view(actions: Seq<Action>) -> Seq<ActionView> {
    Seq::new(actions.len(), |i: int| actions[i]@)
}

/// The views of a list with one more action are the views of the list
/// with one more view.
proof fn lemma_actions_push(actions: Seq<Action>, action: Action)
    ensures
        actions_view(actions.push(action)) == actions_view(actions).push(action@),
{
    assert(actions_view(actions.push(action)) =~= actions_view(actions).push(action@));
}

/// One write for each event for the client, in order.
pub open spec fn writes(events: Seq<MessageView>) -> Seq<ActionView> {
    Seq::new(events.len(), |i: int| ActionView::Write(encode_message(events[i])))
}

/// One emission for each event for the renderer, in order.
pub open spec fn emissions(client_id: u32, events: Seq<RenderEventView>) -> Seq<ActionView> {
    Seq::new(events.len(), |i: int| ActionView::Emit(forwarded(client_id, events[i])))
}

/// What ends a connection: the compositor is told, the proxy is killed.
pub open spec fn teardown() -> Seq<ActionView> {
    seq![
        ActionView::Emit(ServerEventView::ClientDisconnected { id: CLIENT_ID }),
        ActionView::Kill,
    ]
}

/// What ends a connection that is to be started again: the teardown, then
/// the wait.
pub open spec fn teardown_and_wait() -> Seq<ActionView> {
    teardown().push(ActionView::Sleep { millis: RESTART_DELAY_MILLIS })
}

/// The state of the supervisor.
pub struct SupervisorView {
    pub phase: Phase,
    pub client: ClientView,
}

/// What the supervisor makes of an event: its new state, the serial
/// counter beside it, and the actions for the caller, in order.
pub struct Reaction {
    pub state: SupervisorView,
    pub serial: u32,
    pub actions: Seq<ActionView>,
}

impl SupervisorView {
    /// A supervisor that has not begun.
    pub open spec fn initial() -> SupervisorView {
        SupervisorView { phase: Phase::Idle, client: ClientView::initial(CLIENT_ID) }
    }

    /// In another phase.
    pub open spec fn at(self, phase: Phase) -> SupervisorView {
        SupervisorView { phase, ..self }
    }

    /// What output of the proxy leads to: everything whole in it is
    /// handled; the events for the client are written and flushed; the
    /// events for the renderer are passed on; and where the stream is
    /// broken the connection is torn down, to be started again after the
    /// wait.
    pub open spec fn on_output(self, data: Seq<u8>, time: u32, serial: u32) -> Reaction {
        let end = self.client.received(data).drain(time, serial);
        let answered = writes(end.state.outgoing).push(ActionView::Flush { required: true })
            + emissions(CLIENT_ID, end.state.render_events);
        let client = end.state.without_outgoing().without_render_events();
        match end.failure {
            None => Reaction {
                state: SupervisorView { phase: Phase::Running, client },
                serial: end.serial,
                actions: answered,
            },
            Some(_) => Reaction {
                state: SupervisorView { phase: Phase::Backoff, client },
                serial: end.serial,
                actions: answered + teardown_and_wait(),
            },
        }
    }

    /// What an event leads to. An event that does not belong to the phase
    /// changes nothing and asks for nothing; commands are heard only while
    /// the proxy runs.
    pub open spec fn react(self, event: SupervisorEventView, time: u32, serial: u32) -> Reaction {
        match (self.phase, event) {
            (Phase::Idle, SupervisorEventView::Start) => Reaction {
                state: self.at(Phase::Starting),
                serial,
                actions: seq![ActionView::Spawn],
            },
            (Phase::Starting, SupervisorEventView::Spawned) => Reaction {
                state: SupervisorView {
                    phase: Phase::Running,
                    client: ClientView::initial(CLIENT_ID),
                },
                serial,
                actions: seq![
                    ActionView::Emit(ServerEventView::ClientConnected { id: CLIENT_ID }),
                ],
            },
            (Phase::Starting, SupervisorEventView::SpawnFailed) => Reaction {
                state: self.at(Phase::Backoff),
                serial,
                actions: seq![ActionView::Sleep { millis: RESTART_DELAY_MILLIS }],
            },
            (Phase::Running, SupervisorEventView::Output(data)) => self.on_output(
                data,
                time,
                serial,
            ),
            (Phase::Running, SupervisorEventView::Eof) => Reaction {
                state: self.at(Phase::Backoff),
                serial,
                actions: teardown_and_wait(),
            },
            (Phase::Running, SupervisorEventView::IoFailed) => Reaction {
                state: self.at(Phase::Backoff),
                serial,
                actions: teardown_and_wait(),
            },
            (Phase::Running, SupervisorEventView::Command(ServerCommand::Shutdown)) => Reaction {
                state: self.at(Phase::Stopped),
                serial,
                actions: teardown(),
            },
            (
                Phase::Running,
                SupervisorEventView::Command(ServerCommand::SendInput(input)),
            ) => Reaction {
                state: self,
                serial,
                actions: seq![
                    ActionView::Write(input_frame(input)),
                    ActionView::Flush { required: false },
                ],
            },
            (Phase::Backoff, SupervisorEventView::BackoffElapsed) => Reaction {
                state: self.at(Phase::Starting),
                serial,
                actions: seq![ActionView::Spawn],
            },
            _ => Reaction { state: self, serial, actions: Seq::empty() },
        }
    }
}

/// Whether a supervisor in state `before`, with the counter at `serial`,
/// that is told of `event` at the time `time` ends in state `after`, with
/// the counter at `next`, and answers with `actions`.
pub open spec fn reacted(
    before: SupervisorView,
    event: SupervisorEventView,
    time: u32,
    serial: u32,
    after: SupervisorView,
    next: u32,
    actions: Seq<ActionView>,
) -> bool {
    let reaction = before.react(event, time, serial);
    &&& after == reaction.state
    &&& next == reaction.serial
    &&& actions == reaction.actions
}

/// The supervisor of the proxy process.
pub struct Supervisor {
    phase: Phase,
    client: WaylandClient,
}

impl View for Supervisor {
    type V = SupervisorView;

    closed spec fn view(&self) -> SupervisorView {
        SupervisorView { phase: self.phase, client: self.client@ }
    }
}

impl Supervisor {
    /// The connection it holds is in order.
    pub open spec fn wf(&self) -> bool {
        self@.client.wf()
    }

    /// A supervisor that has not begun.
    pub fn new() -> (supervisor: Supervisor)
        ensures
            supervisor.wf(),
            supervisor@ == SupervisorView::initial(),
    {
        Supervisor { phase: Phase::Idle, client: WaylandClient::new(CLIENT_ID) }
    }

    /// Where the supervisor stands.
    pub fn phase(&self) -> (phase: Phase)
        ensures
            phase == self@.phase,
    {
        self.phase
    }

    /// The actions that end a connection, with the wait before the
    /// restart where there is to be one.
    fn end_connection(actions: &mut Vec<Action>, restart: bool)
        ensures
            actions_view(final(actions)@) == actions_view(old(actions)@) + if restart {
                teardown_and_wait()
            } else {
                teardown()
            },
    {
        actions.push(Action::Emit(ServerEvent::ClientDisconnected { id: CLIENT_ID }));
        actions.push(Action::Kill);
        if restart {
            actions.push(Action::Sleep { millis: RESTART_DELAY_MILLIS });
        }
        assert(actions_view(actions@) =~= actions_view(old(actions)@) + if restart {
            teardown_and_wait()
        } else {
            teardown()
        });
    }

    /// Handles output of the proxy.
    fn handle_output(&mut self, data: &[u8], time: u32, serials: &mut SerialCounter) -> (actions:
        Vec<Action>)
        requires
            old(self).wf(),
        ensures
            final(self).wf(),
            ({
                let reaction = old(self)@.on_output(data@, time, old(serials)@);
                &&& final(self)@ == reaction.state
                &&& final(serials)@ == reaction.serial
                &&& actions_view(actions@) == reaction.actions
            }),
    {
        let done = self.client.process_at(data, time, serials);
        let ghost end = self.client@;
        let outgoing = self.client.take_outgoing();
        let events = self.client.take_render_events();
        let mut actions: Vec<Action> = Vec::new();
        let mut i: usize = 0;
        assert(actions_view(actions@) =~= writes(end.outgoing).take(0));
        while i < outgoing.len()
            invariant
                i <= outgoing.len(),
                messages_view(outgoing@) == end.outgoing,
                actions_view(actions@) == writes(end.outgoing).take(i as int),
            decreases outgoing.len() - i,
        {
            let frame = outgoing[i].encode();
            let write = Action::Write(slice_to_vec(bytes_as_slice(&frame)));
            proof {
                lemma_actions_push(actions@, write);
                assert(end.outgoing[i as int] == outgoing@[i as int]@);
                assert(write@ == writes(end.outgoing)[i as int]);
                assert(writes(end.outgoing).take(i as int).push(write@) =~= writes(
                    end.outgoing,
                ).take(i as int + 1));
            }
            actions.push(write);
            i = i + 1;
        }
        assert(writes(end.outgoing).take(i as int) =~= writes(end.outgoing));
        actions.push(Action::Flush { required: true });
        let ghost written = writes(end.outgoing).push(ActionView::Flush { required: true });
        assert(actions_view(actions@) =~= written);
        let ghost all = events_view(events@);
        let ghost queued = events@;
        assert(actions_view(actions@) =~= written + emissions(CLIENT_ID, all).take(0));
        for event in iter: events
            invariant
                iter.seq() == queued,
                all == events_view(queued),
                actions_view(actions@) == written + emissions(CLIENT_ID, all).take(
                    iter.index() as int,
                ),
        {
            let emit = Action::Emit(forward(CLIENT_ID, event));
            proof {
                let at = iter.index() as int;
                lemma_actions_push(actions@, emit);
                assert(all[at] == queued[at]@);
                assert(emit@ == emissions(CLIENT_ID, all)[at]);
                assert((written + emissions(CLIENT_ID, all).take(at)).push(emit@) =~= written
                    + emissions(CLIENT_ID, all).take(at + 1));
            }
            actions.push(emit);
        }
        assert(emissions(CLIENT_ID, all).take(all.len() as int) =~= emissions(CLIENT_ID, all));
        match done {
            Ok(()) => {
                self.phase = Phase::Running;
            },
            Err(_) => {
                Supervisor::end_connection(&mut actions, true);
                self.phase = Phase::Backoff;
            },
        }
        actions
    }

    /// Decides what to do about an event, with `time` as the time of all
    /// Wayland events that carry one.
    pub fn handle_at(
        &mut self,
        event: SupervisorEvent,
        time: u32,
        serials: &mut SerialCounter,
    ) -> (actions: Vec<Action>)
        requires
            old(self).wf(),
        ensures
            final(self).wf(),
            reacted(
                old(self)@,
                event@,
                time,
                old(serials)@,
                final(self)@,
                final(serials)@,
                actions_view(actions@),
            ),
    {
        let mut actions: Vec<Action> = Vec::new();
        assert(actions_view(actions@) =~= Seq::<ActionView>::empty());
        match (self.phase, event) {
            (Phase::Idle, SupervisorEvent::Start) => {
                self.phase = Phase::Starting;
                actions.push(Action::Spawn);
                assert(actions_view(actions@) =~= seq![ActionView::Spawn]);
            },
            (Phase::Starting, SupervisorEvent::Spawned) => {
                self.client = WaylandClient::new(CLIENT_ID);
                self.phase = Phase::Running;
                actions.push(Action::Emit(ServerEvent::ClientConnected { id: CLIENT_ID }));
                assert(actions_view(actions@) =~= seq![
                    ActionView::Emit(ServerEventView::ClientConnected { id: CLIENT_ID }),
                ]);
            },
            (Phase::Starting, SupervisorEvent::SpawnFailed) => {
                self.phase = Phase::Backoff;
                actions.push(Action::Sleep { millis: RESTART_DELAY_MILLIS });
                assert(actions_view(actions@) =~= seq![
                    ActionView::Sleep { millis: RESTART_DELAY_MILLIS },
                ]);
            },
            (Phase::Running, SupervisorEvent::Output(data)) => {
                return self.handle_output(data.as_slice(), time, serials);
            },
            (Phase::Running, SupervisorEvent::Eof) => {
                Supervisor::end_connection(&mut actions, true);
                self.phase = Phase::Backoff;
            },
            (Phase::Running, SupervisorEvent::IoFailed) => {
                Supervisor::end_connection(&mut actions, true);
                self.phase = Phase::Backoff;
            },
            (Phase::Running, SupervisorEvent::Command(ServerCommand::Shutdown)) => {
                Supervisor::end_connection(&mut actions, false);
                self.phase = Phase::Stopped;
            },
            (Phase::Running, SupervisorEvent::Command(ServerCommand::SendInput(input))) => {
                actions.push(Action::Write(encode_input(input)));
                actions.push(Action::Flush { required: false });
                assert(actions_view(actions@) =~= seq![
                    ActionView::Write(input_frame(input)),
                    ActionView::Flush { required: false },
                ]);
            },
            (Phase::Backoff, SupervisorEvent::BackoffElapsed) => {
                self.phase = Phase::Starting;
                actions.push(Action::Spawn);
                assert(actions_view(actions@) =~= seq![ActionView::Spawn]);
            },
            _ => {},
        }
        actions
    }

    /// Decides what to do about an event. The clock is read once, and
    /// every Wayland event that this leads to and that carries a time
    /// carries that reading.
    pub fn handle(&mut self, event: SupervisorEvent, serials: &mut SerialCounter) -> (actions: Vec<
        Action,
    >)
        requires
            old(self).wf(),
        ensures
            final(self).wf(),
            exists|time: u32| #[trigger]
                reacted(
                    old(self)@,
                    event@,
                    time,
                    old(serials)@,
                    final(self)@,
                    final(serials)@,
                    actions_view(actions@),
                ),
    {
        let time: u32 = wall_time_millis(millis_since_epoch());
        self.handle_at(event, time, serials)
    }
}

} // verus!
