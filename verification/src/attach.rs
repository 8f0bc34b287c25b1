//! The attach tunnel: a duplex bridge between a container's stdio streams
//! and the UI, with the framed control protocol on the inbound direction
//! and clean teardown on every exit path.
//!
//! The tunnel's two directions run as independent cooperative tasks in
//! the surrounding process; they synchronize only through the machine's
//! `terminated` flag. Each task hands the events it observes — outbound
//! chunks, UI messages, stream ends and errors — to `step` one at a
//! time and performs the returned action, so the
//! machine below is the linearized view of one attach call: it decides
//! every transition, what reaches the UI, what reaches stdin, and when
//! the listener registration, the stdin sink and the outbound reader are
//! let go.

use vstd::prelude::*;
use crate::engine::classify_error;
use crate::errors::{error_wf, lemma_error_totality, map_error, ErrorKind, StructuredError};
use crate::frames::{
    end_tunnel_tag, first_sep, frame_body, frame_tag, parse_frame, ControlFrame,
};

verus! {

/// The phases of one attach call.
#[derive(Clone, Copy, PartialEq, Eq, Structural, Debug)]
pub enum AttachPhase {
    Attaching,
    Streaming,
    Terminating,
    Closed,
}

/// The state of one attach call: its phase, the single-writer termination
/// flag the two directions share, which of the three scoped resources —
/// the UI listener registration, the stdin sink, the outbound reader —
/// are currently held, and the error of a failed handshake.
pub struct AttachMachine {
    pub phase: AttachPhase,
    pub terminated: bool,
    pub listener_registered: bool,
    pub sink_held: bool,
    pub reader_held: bool,
    pub failure: Option<StructuredError>,
}

/// An event one of the two streaming tasks observed: a chunk read from
/// the outbound attach reader, the outbound stream's natural end or
/// failure, a raw message delivered to the UI listener, a stdin sink
/// failure, or the listener's own failure.
pub enum StreamEvent {
    OutboundChunk(String),
    OutboundEnd,
    OutboundError,
    UiMessage(Vec<u8>),
    SinkError,
    ListenerClosed,
}

/// The action the observing task must perform: nothing, forward a chunk
/// onto the UI channel, write a frame body to the stdin sink until it is
/// fully consumed, or tear the session down — revoke the listener
/// registration, release the sink, drop the reader — and then report the
/// teardown done.
pub enum StreamAction {
    Ignore,
    Emit(String),
    WriteStdin(Vec<u8>),
    BeginTeardown,
}

impl AttachMachine {
    /// The machine's invariant: while streaming all three resources are
    /// held and the termination flag is clear; terminating keeps the
    /// resources until teardown finishes; a closed machine holds nothing.
    pub open spec fn wf(self) -> bool {
        match self.phase {
            AttachPhase::Attaching => !self.terminated && !self.listener_registered
                && !self.sink_held && !self.reader_held && self.failure is None,
            AttachPhase::Streaming => !self.terminated && self.listener_registered
                && self.sink_held && self.reader_held && self.failure is None,
            AttachPhase::Terminating => self.terminated && self.listener_registered
                && self.sink_held && self.reader_held && self.failure is None,
            AttachPhase::Closed => !self.listener_registered && !self.sink_held
                && !self.reader_held,
        }
    }

    /// A fresh machine: the attach request is on its way, nothing is held.
    pub fn start() -> (r: AttachMachine)
        ensures
            r.phase is Attaching,
            !r.terminated,
            !r.listener_registered,
            !r.sink_held,
            !r.reader_held,
            r.failure is None,
            r.wf(),
    {
        AttachMachine {
            phase: AttachPhase::Attaching,
            terminated: false,
            listener_registered: false,
            sink_held: false,
            reader_held: false,
            failure: None,
        }
    }

    /// The engine accepted the attach request and delivered both
    /// endpoints: the call registers its UI listener and acquires the
    /// stdin sink and the outbound reader, and streaming begins.
    pub fn accept(&mut self)
        requires
            old(self).phase is Attaching,
            old(self).wf(),
        ensures
            final(self).phase is Streaming,
            final(self).listener_registered,
            final(self).sink_held,
            final(self).reader_held,
            !final(self).terminated,
            final(self).failure is None,
            final(self).wf(),
    {
        self.phase = AttachPhase::Streaming;
        self.listener_registered = true;
        self.sink_held = true;
        self.reader_held = true;
    }

    /// The engine rejected the attach request: the call closes at once
    /// with the mapped error; no listener was registered, no stream and
    /// no sink were acquired, and no event is ever emitted.
    pub fn reject(&mut self, err: bollard::errors::Error)
        requires
            old(self).phase is Attaching,
            old(self).wf(),
        ensures
            final(self).phase is Closed,
            !final(self).listener_registered,
            !final(self).sink_held,
            !final(self).reader_held,
            final(self).failure matches Some(e) && error_wf(e) && e.kind
                != ErrorKind::NoConnection,
            final(self).wf(),
    {
        let te = classify_error(err);
        proof {
            lemma_error_totality(te);
        }
        self.phase = AttachPhase::Closed;
        self.failure = Some(map_error(te));
    }

    /// One streaming event. Total over phases: an event arriving after
    /// streaming ended is ignored — a late outbound chunk is dropped, not
    /// emitted. During streaming a chunk is forwarded verbatim; a UI
    /// message without a separator is no frame and is ignored; the
    /// reserved tag raises the termination flag and begins teardown and
    /// its body is not forwarded; any other tag's body goes to stdin
    /// as-is; the stream's end and either direction's failure begin
    /// teardown as well.
    pub fn step(&mut self, ev: StreamEvent) -> (r: StreamAction)
        ensures
            *final(self) == spec_step_state(*old(self), ev),
            step_action_ok(*old(self), ev, r),
            old(self).wf() ==> final(self).wf(),
    {
        let ph = self.phase;
        match ph {
            AttachPhase::Streaming => match ev {
                StreamEvent::OutboundChunk(s) => StreamAction::Emit(s),
                StreamEvent::OutboundEnd => self.begin_teardown(),
                StreamEvent::OutboundError => self.begin_teardown(),
                StreamEvent::SinkError => self.begin_teardown(),
                StreamEvent::ListenerClosed => self.begin_teardown(),
                StreamEvent::UiMessage(msg) => match parse_frame(&msg) {
                    None => StreamAction::Ignore,
                    Some(ControlFrame::EndTunnel) => self.begin_teardown(),
                    Some(ControlFrame::Data(body)) => StreamAction::WriteStdin(body),
                },
            },
            _ => StreamAction::Ignore,
        }
    }

    /// Raises the shared termination flag and moves to the terminating
    /// phase; the resources stay held until the teardown is done.
    fn begin_teardown(&mut self) -> (r: StreamAction)
        requires
            old(self).phase is Streaming,
        ensures
            *final(self) == with_terminating(*old(self)),
            r is BeginTeardown,
    {
        self.phase = AttachPhase::Terminating;
        self.terminated = true;
        StreamAction::BeginTeardown
    }

    /// The observing task revoked the listener registration, released the
    /// stdin sink and dropped or drained the outbound reader: the call is
    /// closed. Every terminating path ends here.
    pub fn finish_teardown(&mut self)
        requires
            old(self).phase is Terminating,
            old(self).wf(),
        ensures
            final(self).phase is Closed,
            !final(self).listener_registered,
            !final(self).sink_held,
            !final(self).reader_held,
            final(self).failure is None,
            final(self).wf(),
    {
        self.phase = AttachPhase::Closed;
        self.listener_registered = false;
        self.sink_held = false;
        self.reader_held = false;
    }

    /// The call's return value. A failed handshake surfaces its mapped
    /// error; once streaming began the call returns success, because the
    /// session already reached the UI and later failures were surfaced as
    /// events and clean termination instead.
    pub fn finish(self) -> (r: Result<(), StructuredError>)
        requires
            self.phase is Closed,
        ensures
            self.failure matches Some(e) ==> r == Err::<(), StructuredError>(e),
            self.failure is None ==> r == Ok::<(), StructuredError>(()),
    {
        match self.failure {
            Some(e) => Err(e),
            None => Ok(()),
        }
    }
}

/// A machine that has raised the termination flag and entered the
/// terminating phase.
pub open spec fn with_terminating(m: AttachMachine) -> AttachMachine {
    AttachMachine { phase: AttachPhase::Terminating, terminated: true, ..m }
}

/// What one streaming event does to the machine's state.
pub open spec fn spec_step_state(m: AttachMachine, ev: StreamEvent) -> AttachMachine {
    if m.phase is Streaming {
        match ev {
            StreamEvent::OutboundChunk(_) => m,
            StreamEvent::OutboundEnd => with_terminating(m),
            StreamEvent::OutboundError => with_terminating(m),
            StreamEvent::SinkError => with_terminating(m),
            StreamEvent::ListenerClosed => with_terminating(m),
            StreamEvent::UiMessage(msg) => if first_sep(msg@) == msg@.len() {
                m
            } else if frame_tag(msg@) == end_tunnel_tag() {
                with_terminating(m)
            } else {
                m
            },
        }
    } else {
        m
    }
}

/// Which action `step` must return for one streaming event.
pub open spec fn step_action_ok(m: AttachMachine, ev: StreamEvent, r: StreamAction) -> bool {
    if m.phase is Streaming {
        match ev {
            StreamEvent::OutboundChunk(s) => r == StreamAction::Emit(s),
            StreamEvent::OutboundEnd => r is BeginTeardown,
            StreamEvent::OutboundError => r is BeginTeardown,
            StreamEvent::SinkError => r is BeginTeardown,
            StreamEvent::ListenerClosed => r is BeginTeardown,
            StreamEvent::UiMessage(msg) => if first_sep(msg@) == msg@.len() {
                r is Ignore
            } else if frame_tag(msg@) == end_tunnel_tag() {
                r is BeginTeardown
            } else {
                r matches StreamAction::WriteStdin(b) && b@ == frame_body(msg@)
            },
        }
    } else {
        r is Ignore
    }
}

/// The machine after a whole sequence of streaming events.
pub open spec fn run_state(m: AttachMachine, events: Seq<StreamEvent>) -> AttachMachine
    decreases events.len(),
{
    if events.len() == 0 {
        m
    } else {
        run_state(spec_step_state(m, events[0]), events.skip(1))
    }
}

/// What one event puts onto the UI channel: the chunk, during streaming.
pub open spec fn step_emits(m: AttachMachine, ev: StreamEvent) -> Seq<Seq<char>> {
    match ev {
        StreamEvent::OutboundChunk(s) => if m.phase is Streaming {
            seq![s@]
        } else {
            Seq::empty()
        },
        _ => Seq::empty(),
    }
}

/// What one event writes to stdin: the frame's body, for a data frame
/// delivered during streaming.
pub open spec fn step_writes(m: AttachMachine, ev: StreamEvent) -> Seq<Seq<u8>> {
    match ev {
        StreamEvent::UiMessage(msg) => if m.phase is Streaming && first_sep(msg@) != msg@.len()
            && frame_tag(msg@) != end_tunnel_tag() {
            seq![frame_body(msg@)]
        } else {
            Seq::empty()
        },
        _ => Seq::empty(),
    }
}

/// Everything a sequence of streaming events puts onto the UI channel,
/// in event order.
pub open spec fn run_emitted(m: AttachMachine, events: Seq<StreamEvent>) -> Seq<Seq<char>>
    decreases events.len(),
{
    if events.len() == 0 {
        Seq::empty()
    } else {
        step_emits(m, events[0]) + run_emitted(spec_step_state(m, events[0]), events.skip(1))
    }
}

/// Everything a sequence of streaming events writes to stdin, in event
/// order.
pub open spec fn run_writes(m: AttachMachine, events: Seq<StreamEvent>) -> Seq<Seq<u8>>
    decreases events.len(),
{
    if events.len() == 0 {
        Seq::empty()
    } else {
        step_writes(m, events[0]) + run_writes(spec_step_state(m, events[0]), events.skip(1))
    }
}

/// The result of driving one attach call through a sequence of streaming
/// events: the machine it reached, the chunks that were emitted on the
/// UI channel and the frame bodies that were written to stdin, each in
/// order.
pub struct AttachRunOutput {
    pub machine: AttachMachine,
    pub emitted: Vec<String>,
    pub stdin_writes: Vec<Vec<u8>>,
}

/// Drives the machine through a whole sequence of streaming events and
/// collects what the actions emit and write. This is the sequential
/// replay of one attach call's linearized event order.
pub fn run_stream(m: AttachMachine, events: Vec<StreamEvent>) -> (r: AttachRunOutput)
    requires
        m.wf(),
    ensures
        r.machine == run_state(m, events@),
        r.machine.wf(),
        r.emitted@.map_values(|s: String| s@) == run_emitted(m, events@),
        r.stdin_writes@.map_values(|b: Vec<u8>| b@) == run_writes(m, events@),
{
    let ghost m0 = m;
    let ghost orig = events@;
    let mut machine = m;
    let mut rest = events;
    let mut emitted: Vec<String> = Vec::new();
    let mut stdin_writes: Vec<Vec<u8>> = Vec::new();
    while rest.len() > 0
        invariant
            machine.wf(),
            run_state(m0, orig) == run_state(machine, rest@),
            run_emitted(m0, orig) == emitted@.map_values(|s: String| s@) + run_emitted(
                machine,
                rest@,
            ),
            run_writes(m0, orig) == stdin_writes@.map_values(|b: Vec<u8>| b@) + run_writes(
                machine,
                rest@,
            ),
        decreases rest@.len(),
    {
        let ghost prev_m = machine;
        let ghost prev_rest = rest@;
        let ev = rest.remove(0);
        proof {
            assert(rest@ =~= prev_rest.skip(1));
            assert(ev == prev_rest[0]);
        }
        let action = machine.step(ev);
        proof {
            assert(run_state(prev_m, prev_rest) == run_state(machine, rest@));
            assert(run_emitted(prev_m, prev_rest) == step_emits(prev_m, ev) + run_emitted(
                machine,
                rest@,
            ));
            assert(run_writes(prev_m, prev_rest) == step_writes(prev_m, ev) + run_writes(
                machine,
                rest@,
            ));
        }
        match action {
            StreamAction::Emit(s) => {
                proof {
                    assert(step_emits(prev_m, ev) =~= seq![s@]);
                    assert(step_writes(prev_m, ev) =~= Seq::<Seq<u8>>::empty());
                }
                let ghost before = emitted@;
                emitted.push(s);
                proof {
                    assert(emitted@.map_values(|t: String| t@) =~= before.map_values(
                        |t: String| t@,
                    ) + seq![s@]);
                    assert(before.map_values(|t: String| t@) + (seq![s@] + run_emitted(
                        machine,
                        rest@,
                    )) =~= (before.map_values(|t: String| t@) + seq![s@]) + run_emitted(
                        machine,
                        rest@,
                    ));
                    assert(stdin_writes@.map_values(|b: Vec<u8>| b@) + (Seq::<
                        Seq<u8>,
                    >::empty() + run_writes(machine, rest@)) =~= stdin_writes@.map_values(
                        |b: Vec<u8>| b@,
                    ) + run_writes(machine, rest@));
                }
            },
            StreamAction::WriteStdin(b) => {
                proof {
                    assert(step_writes(prev_m, ev) =~= seq![b@]);
                    assert(step_emits(prev_m, ev) =~= Seq::<Seq<char>>::empty());
                }
                let ghost before = stdin_writes@;
                stdin_writes.push(b);
                proof {
                    assert(stdin_writes@.map_values(|c: Vec<u8>| c@) =~= before.map_values(
                        |c: Vec<u8>| c@,
                    ) + seq![b@]);
                    assert(before.map_values(|c: Vec<u8>| c@) + (seq![b@] + run_writes(
                        machine,
                        rest@,
                    )) =~= (before.map_values(|c: Vec<u8>| c@) + seq![b@]) + run_writes(
                        machine,
                        rest@,
                    ));
                    assert(emitted@.map_values(|t: String| t@) + (Seq::<
                        Seq<char>,
                    >::empty() + run_emitted(machine, rest@)) =~= emitted@.map_values(
                        |t: String| t@,
                    ) + run_emitted(machine, rest@));
                }
            },
            StreamAction::Ignore => {
                proof {
                    lemma_step_keeps_nothing(prev_m, ev, action, emitted@, stdin_writes@, machine, rest@);
                }
            },
            StreamAction::BeginTeardown => {
                proof {
                    lemma_step_keeps_nothing(prev_m, ev, action, emitted@, stdin_writes@, machine, rest@);
                }
            },
        }
    }
    proof {
        assert(run_emitted(machine, rest@) =~= Seq::<Seq<char>>::empty());
        assert(run_writes(machine, rest@) =~= Seq::<Seq<u8>>::empty());
        assert(emitted@.map_values(|s: String| s@) + Seq::<Seq<char>>::empty()
            =~= emitted@.map_values(|s: String| s@));
        assert(stdin_writes@.map_values(|b: Vec<u8>| b@) + Seq::<Seq<u8>>::empty()
            =~= stdin_writes@.map_values(|b: Vec<u8>| b@));
    }
    AttachRunOutput { machine, emitted, stdin_writes }
}

/// An event answered with neither an emit nor a write leaves both
/// collections' accounts unchanged.
proof fn lemma_step_keeps_nothing(
    prev_m: AttachMachine,
    ev: StreamEvent,
    action: StreamAction,
    emitted: Seq<String>,
    stdin_writes: Seq<Vec<u8>>,
    machine: AttachMachine,
    rest: Seq<StreamEvent>,
)
    requires
        step_action_ok(prev_m, ev, action),
        action is Ignore || action is BeginTeardown,
    ensures
        emitted.map_values(|s: String| s@) + (step_emits(prev_m, ev) + run_emitted(machine, rest))
            == emitted.map_values(|s: String| s@) + run_emitted(machine, rest),
        stdin_writes.map_values(|b: Vec<u8>| b@) + (step_writes(prev_m, ev) + run_writes(
            machine,
            rest,
        )) == stdin_writes.map_values(|b: Vec<u8>| b@) + run_writes(machine, rest),
{
    assert(step_emits(prev_m, ev) =~= Seq::<Seq<char>>::empty());
    assert(step_writes(prev_m, ev) =~= Seq::<Seq<u8>>::empty());
    assert(emitted.map_values(|s: String| s@) + (Seq::<Seq<char>>::empty() + run_emitted(
        machine,
        rest,
    )) =~= emitted.map_values(|s: String| s@) + run_emitted(machine, rest));
    assert(stdin_writes.map_values(|b: Vec<u8>| b@) + (Seq::<Seq<u8>>::empty() + run_writes(
        machine,
        rest,
    )) =~= stdin_writes.map_values(|b: Vec<u8>| b@) + run_writes(machine, rest));
}

/// One streaming event preserves the machine's invariant.
proof fn lemma_step_preserves_wf(m: AttachMachine, ev: StreamEvent)
    ensures
        m.wf() ==> spec_step_state(m, ev).wf(),
{
}

/// A whole sequence of streaming events preserves the machine's
/// invariant.
pub proof fn lemma_run_preserves_wf(m: AttachMachine, events: Seq<StreamEvent>)
    requires
        m.wf(),
    ensures
        run_state(m, events).wf(),
    decreases events.len(),
{
    if events.len() > 0 {
        lemma_step_preserves_wf(m, events[0]);
        lemma_run_preserves_wf(spec_step_state(m, events[0]), events.skip(1));
    }
}

/// Control-frame handling during streaming, over a frame built from its
/// parts: a data frame's body reaches stdin exactly as its bytes, even
/// when the body itself contains the separator, and the machine keeps
/// streaming; the reserved tag's frame writes nothing to stdin and begins
/// termination.
pub proof fn lemma_control_frame_effect(
    m: AttachMachine,
    ev: StreamEvent,
    tag: Seq<u8>,
    body: Seq<u8>,
)
    requires
        m.phase is Streaming,
        forall|j: int| 0 <= j < tag.len() ==> tag[j] != crate::frames::FRAME_SEPARATOR,
        ev matches StreamEvent::UiMessage(msg) && msg@ == tag + seq![
            crate::frames::FRAME_SEPARATOR,
        ] + body,
    ensures
        tag == end_tunnel_tag() ==> spec_step_state(m, ev) == with_terminating(m) && step_writes(
            m,
            ev,
        ) == Seq::<Seq<u8>>::empty(),
        tag != end_tunnel_tag() ==> spec_step_state(m, ev) == m && step_writes(m, ev) == seq![body],
{
    crate::frames::lemma_control_frame_round_trip(tag, body);
}

/// Attach teardown: whatever streaming events an attach call sees, when
/// its machine closes, the listener registration, the stdin sink and the
/// outbound reader have all been let go — the listener count on the UI
/// channel is back at its pre-call value on every exit path.
pub proof fn lemma_attach_teardown(m: AttachMachine, events: Seq<StreamEvent>)
    requires
        m.wf(),
    ensures
        run_state(m, events).phase is Closed ==> !run_state(m, events).listener_registered
            && !run_state(m, events).sink_held && !run_state(m, events).reader_held,
{
    lemma_run_preserves_wf(m, events);
}

} // verus!
