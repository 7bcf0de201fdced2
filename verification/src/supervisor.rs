use vstd::prelude::*;
use crate::text::{decode_lossy, lossy_of, quote_line, quoted};

verus! {

/// A raw event received from the sidecar's combined output channel.
pub enum SidecarEvent {
    /// A chunk the child wrote to its standard output.
    StdoutChunk { bytes: Vec<u8> },
    /// A chunk the child wrote to its standard error.
    StderrChunk { bytes: Vec<u8> },
    /// The child terminated, with its exit code if one was available.
    Terminated { code: Option<i32> },
    /// Any other event of the output channel; not forwarded.
    Other,
}

/// The model of a raw event: the same variants over mathematical values.
pub enum EventModel {
    StdoutChunk { bytes: Seq<u8> },
    StderrChunk { bytes: Seq<u8> },
    Terminated { code: Option<i32> },
    Other,
}

impl View for SidecarEvent {
    type V = EventModel;

    open spec fn view(&self) -> EventModel {
        match self {
            SidecarEvent::StdoutChunk { bytes } => EventModel::StdoutChunk { bytes: bytes@ },
            SidecarEvent::StderrChunk { bytes } => EventModel::StderrChunk { bytes: bytes@ },
            SidecarEvent::Terminated { code } => EventModel::Terminated { code: *code },
            SidecarEvent::Other => EventModel::Other,
        }
    }
}

/// An event forwarded to the event sink, as a topic with its payload.
pub enum Emission {
    /// A decoded output or error line, wrapped in single quotes.
    Line { topic: String, payload: String },
    /// The termination notice, with the child's exit code if available.
    Termination { topic: String, code: Option<i32> },
}

/// The model of a forwarded event.
pub enum EmissionModel {
    Line { topic: Seq<char>, payload: Seq<char> },
    Termination { topic: Seq<char>, code: Option<i32> },
}

impl View for Emission {
    type V = EmissionModel;

    open spec fn view(&self) -> EmissionModel {
        match self {
            Emission::Line { topic, payload } => EmissionModel::Line {
                topic: topic@,
                payload: payload@,
            },
            Emission::Termination { topic, code } => EmissionModel::Termination {
                topic: topic@,
                code: *code,
            },
        }
    }
}

/// What one raw event is forwarded as: standard output and standard error
/// chunks become quoted lines, decoded as UTF-8 with lossy replacement, on
/// their topics; termination carries the exit code; anything else is not
/// forwarded.
pub open spec fn emission_of(e: EventModel) -> Option<EmissionModel> {
    match e {
        EventModel::StdoutChunk { bytes } => Some(
            EmissionModel::Line { topic: "backend-message"@, payload: quoted(lossy_of(bytes)) },
        ),
        EventModel::StderrChunk { bytes } => Some(
            EmissionModel::Line { topic: "backend-error"@, payload: quoted(lossy_of(bytes)) },
        ),
        EventModel::Terminated { code } => Some(
            EmissionModel::Termination { topic: "backend-terminated"@, code },
        ),
        EventModel::Other => None,
    }
}

/// The sidecar's lifetime: it never returns to `Running`; a fresh sidecar
/// needs a fresh supervisor.
#[derive(Clone, Copy, PartialEq, Eq, Structural, Debug)]
pub enum SupervisorPhase {
    NotStarted,
    Running,
    Terminated,
}

/// Owns the sidecar's lifecycle. The supervisor decides what each raw
/// event is forwarded as and when forwarding stops; receiving events and
/// delivering emissions is the driver's.
pub struct Supervisor {
    phase: SupervisorPhase,
}

impl View for Supervisor {
    type V = SupervisorPhase;

    closed spec fn view(&self) -> SupervisorPhase {
        self.phase
    }
}

impl Supervisor {
    pub fn new() -> (r: Supervisor)
        ensures
            r@ is NotStarted,
    {
        Supervisor { phase: SupervisorPhase::NotStarted }
    }

    pub fn phase(&self) -> (r: SupervisorPhase)
        ensures
            r == self@,
    {
        self.phase
    }

    /// The spawn succeeded: the sidecar runs and its events are consumed
    /// from now on. A failed spawn is fatal to startup and never reaches
    /// the supervisor.
    pub fn mark_started(&mut self)
        requires
            old(self)@ is NotStarted,
        ensures
            final(self)@ is Running,
    {
        self.phase = SupervisorPhase::Running;
    }

    /// Consumes one raw event: returns what is forwarded for it, if
    /// anything, and leaves `Running` exactly on a termination event,
    /// after which no event is consumed any more.
    pub fn on_event(&mut self, event: &SidecarEvent) -> (r: Option<Emission>)
        requires
            old(self)@ is Running,
        ensures
            final(self)@ == (if event@ is Terminated {
                SupervisorPhase::Terminated
            } else {
                SupervisorPhase::Running
            }),
            emission_of(event@) is None ==> r is None,
            emission_of(event@) matches Some(m) ==> (r matches Some(em) && em@ == m),
    {
        match event {
            SidecarEvent::StdoutChunk { bytes } => {
                let line = decode_lossy(bytes.as_slice());
                Some(
                    Emission::Line {
                        topic: "backend-message".to_owned(),
                        payload: quote_line(line.as_str()),
                    },
                )
            },
            SidecarEvent::StderrChunk { bytes } => {
                let line = decode_lossy(bytes.as_slice());
                Some(
                    Emission::Line {
                        topic: "backend-error".to_owned(),
                        payload: quote_line(line.as_str()),
                    },
                )
            },
            SidecarEvent::Terminated { code } => {
                self.phase = SupervisorPhase::Terminated;
                Some(Emission::Termination { topic: "backend-terminated".to_owned(), code: *code })
            },
            SidecarEvent::Other => None,
        }
    }
}

/// The views of a sequence of raw events.
pub open spec fn event_views(s: Seq<SidecarEvent>) -> Seq<EventModel> {
    Seq::new(s.len(), |i: int| s[i]@)
}

/// The views of a sequence of forwarded events.
pub open spec fn emission_views(s: Seq<Emission>) -> Seq<EmissionModel> {
    Seq::new(s.len(), |i: int| s[i]@)
}

/// What the forwarding task delivers for a sequence of raw events: each
/// event's emission, in the events' order, up to and including the first
/// termination event; nothing after it is delivered, even if more events
/// were buffered.
pub open spec fn forward_model(events: Seq<EventModel>) -> Seq<EmissionModel>
    decreases events.len(),
{
    if events.len() == 0 {
        Seq::empty()
    } else {
        match emission_of(events[0]) {
            Some(m) => if events[0] is Terminated {
                seq![m]
            } else {
                seq![m] + forward_model(events.drop_first())
            },
            None => forward_model(events.drop_first()),
        }
    }
}

/// Forwarding stops at the first termination event: the emissions for a
/// whole trace are exactly those for its prefix up to and including the
/// first termination event, and the termination notice, with that event's
/// exit code, is the last emission delivered; whatever follows that event,
/// buffered or not, contributes nothing.
pub proof fn lemma_forwarding_stops_at_termination(events: Seq<EventModel>, k: int)
    requires
        0 <= k < events.len(),
        (events[k] is Terminated),
        forall|j: int| 0 <= j < k ==> !((#[trigger] events[j]) is Terminated),
    ensures
        forward_model(events) == forward_model(events.take(k + 1)),
        forward_model(events).len() > 0,
        forward_model(events).last() == (EmissionModel::Termination {
            topic: "backend-terminated"@,
            code: events[k]->code,
        }),
    decreases k,
{
    if k == 0 {
        assert(events.take(1)[0] == events[0]);
        assert(events.take(1).len() == 1);
    } else {
        let rest = events.drop_first();
        assert(rest[k - 1] == events[k]);
        assert forall|j: int| 0 <= j < k - 1 implies !((#[trigger] rest[j]) is Terminated) by {
            assert(rest[j] == events[j + 1]);
        }
        lemma_forwarding_stops_at_termination(rest, k - 1);
        assert(events.take(k + 1)[0] == events[0]);
        assert(events.take(k + 1).drop_first() =~= rest.take(k));
    }
}

/// Forwards a trace of raw events as the consumption loop does: one
/// emission per output, error or termination event, in the trace's order,
/// stopping right after the first termination event.
pub fn forward_events(events: &Vec<SidecarEvent>) -> (r: Vec<Emission>)
    ensures
        emission_views(r@) == forward_model(event_views(events@)),
{
    let ghost evs = event_views(events@);
    let mut sup = Supervisor::new();
    sup.mark_started();
    let mut out: Vec<Emission> = Vec::new();
    let mut done = false;
    let mut i: usize = 0;
    proof {
        assert(evs.skip(0) =~= evs);
        assert(emission_views(out@) + forward_model(evs) =~= forward_model(evs));
    }
    while !done && i < events.len()
        invariant
            i <= evs.len(),
            evs == event_views(events@),
            evs.len() == events@.len(),
            !done ==> sup@ is Running,
            !done ==> forward_model(evs) == emission_views(out@) + forward_model(
                evs.skip(i as int),
            ),
            done ==> forward_model(evs) == emission_views(out@),
        decreases evs.len() - i,
    {
        let ev = &events[i];
        proof {
            assert(ev@ == evs[i as int]);
            assert(evs.skip(i as int)[0] == evs[i as int]);
            assert(evs.skip(i as int).drop_first() =~= evs.skip(i as int + 1));
        }
        let ghost out_pre = out@;
        let em = sup.on_event(ev);
        match em {
            Some(e) => {
                proof {
                    let m = emission_of(evs[i as int])->Some_0;
                    assert(e@ == m);
                }
                out.push(e);
                proof {
                    assert(emission_views(out@) =~= emission_views(out_pre) + seq![e@]);
                }
            },
            None => {},
        }
        done = sup.phase() == SupervisorPhase::Terminated;
        proof {
            let s_i = evs.skip(i as int);
            let s_n = evs.skip(i as int + 1);
            if evs[i as int] is Terminated {
                assert(forward_model(s_i) == seq![emission_of(evs[i as int])->Some_0]);
                assert(emission_views(out@) =~= emission_views(out_pre) + forward_model(s_i));
            } else {
                match emission_of(evs[i as int]) {
                    Some(m) => {
                        assert(forward_model(s_i) == seq![m] + forward_model(s_n));
                        assert(emission_views(out_pre) + forward_model(s_i) =~= emission_views(
                            out@,
                        ) + forward_model(s_n));
                    },
                    None => {
                        assert(forward_model(s_i) == forward_model(s_n));
                    },
                }
            }
        }
        i += 1;
    }
    proof {
        if !done {
            assert(evs.skip(evs.len() as int) =~= Seq::<EventModel>::empty());
            assert(emission_views(out@) + Seq::<EmissionModel>::empty() =~= emission_views(out@));
        }
    }
    out
}

} // verus!
