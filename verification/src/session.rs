use vstd::prelude::*;
use crate::graph::GraphAssembly;
use crate::graph::GraphPlan;
use crate::graph::NodeConfig;
use crate::graph::TARGET_BITRATE_BPS;
use crate::graph::build_plan;
use crate::graph::canonical_kinds;
use crate::graph::canonical_links;
use crate::graph::has_canonical_topology;
use crate::params::CameraCaps;

verus! {

/// The graph states the control plane distinguishes. `Active` is the state
/// in which data flows end-to-end; `Inactive` holds no node resources.
#[derive(Clone, Copy, Debug, PartialEq, Eq)]
pub enum GraphState {
    Inactive,
    Ready,
    Paused,
    Active,
}

/// One notification from the active graph's ordered event stream.
#[derive(Clone, Debug, PartialEq, Eq)]
pub enum GraphEvent {
    /// Normal end of the stream.
    EndOfStream,
    /// A fatal engine error during the running phase.
    FatalError,
    /// A node, or the whole graph, changed state. `whole_graph` is true
    /// only for the graph-wide transition, not for a sub-branch's.
    StateChanged { target: GraphState, whole_graph: bool },
    /// Any other notification.
    Other,
}

/// Why the worker's event loop ended.
#[derive(Clone, Copy, Debug, PartialEq, Eq)]
pub enum StopReason {
    EndOfStream,
    Error,
    StopRequested,
}

/// What the worker does after handling one event.
#[derive(Clone, Copy, Debug, PartialEq, Eq)]
pub enum LoopAction {
    KeepRunning,
    ExitLoop(StopReason),
}

/// The two flags shared between the caller and the worker — the only
/// cross-thread mutable state of a session.
#[derive(Clone, Copy, Debug, PartialEq, Eq)]
pub struct SessionControl {
    /// Raised exactly once, by the worker, when the whole graph (not a
    /// sub-branch) has entered the active state.
    pub running: bool,
    /// Raised by the caller through the handle to request teardown.
    pub stop_requested: bool,
}

impl SessionControl {
    /// A fresh session: neither flag raised.
    pub open spec fn initial() -> SessionControl {
        SessionControl { running: false, stop_requested: false }
    }

    pub fn new() -> (c: SessionControl)
        ensures
            c == SessionControl::initial(),
    {
        SessionControl { running: false, stop_requested: false }
    }
}

/// The caller-held handle for one session: its view of the session's
/// shared control flags.
#[derive(Clone, Copy, Debug)]
pub struct Recorder {
    pub control: SessionControl,
}

/// The control state after a stop request: `stop-requested` raised and
/// nothing else touched.
pub open spec fn stop_requested_state(c: SessionControl) -> SessionControl {
    SessionControl { running: c.running, stop_requested: true }
}

/// Request teardown (fire-and-forget): raise `stop-requested` and nothing
/// more. The call does not block, does not wait for the worker, and is
/// safe at any time — in particular before the worker has ever reported
/// running, and after it has already exited.
pub fn stop_recording(recorder: &mut Recorder)
    ensures
        final(recorder).control == stop_requested_state(old(recorder).control),
{
    recorder.control.stop_requested = true;
}

/// Stopping is idempotent: a second stop request leaves the control state
/// exactly as the first left it.
pub proof fn lemma_stop_idempotent(c: SessionControl)
    ensures
        stop_requested_state(stop_requested_state(c)) == stop_requested_state(c),
{
}

/// Whether one event makes the worker raise `running`: the whole graph —
/// not a sub-branch — reached the active state. This is the only path by
/// which the caller's blocking wait in `start` completes.
pub open spec fn raises_running(e: GraphEvent) -> bool {
    e matches GraphEvent::StateChanged { target, whole_graph } && target == GraphState::Active
        && whole_graph
}

/// What the loop decides on one event, given whether a stop was requested:
/// a terminal event (end of stream, fatal error) ends the loop with its
/// own reason; otherwise a pending stop request ends it; otherwise it
/// keeps running. The stop flag is polled on every iteration, whatever the
/// event's type, so a stop request is honored on the next event to arrive.
pub open spec fn event_decision(stop_requested: bool, e: GraphEvent) -> LoopAction {
    match e {
        GraphEvent::EndOfStream => LoopAction::ExitLoop(StopReason::EndOfStream),
        GraphEvent::FatalError => LoopAction::ExitLoop(StopReason::Error),
        _ => if stop_requested {
            LoopAction::ExitLoop(StopReason::StopRequested)
        } else {
            LoopAction::KeepRunning
        },
    }
}

/// The per-session worker state: whether the graph holds engine resources,
/// the worker's view of the shared flags, and the reason the loop ended,
/// once it has.
#[derive(Clone, Copy, Debug, PartialEq, Eq)]
pub struct PipelineController {
    pub graph_state: GraphState,
    pub control: SessionControl,
    pub stop_reason: Option<StopReason>,
}

/// The controller after handling one event: `running` is raised by a
/// whole-graph transition to active and never lowered, `stop-requested` is
/// never written by the worker, and an exiting decision records its
/// reason.
pub open spec fn step_model(c: PipelineController, e: GraphEvent) -> PipelineController {
    PipelineController {
        graph_state: c.graph_state,
        control: SessionControl {
            running: c.control.running || raises_running(e),
            stop_requested: c.control.stop_requested,
        },
        stop_reason: match event_decision(c.control.stop_requested, e) {
            LoopAction::KeepRunning => c.stop_reason,
            LoopAction::ExitLoop(why) => Some(why),
        },
    }
}

/// The loop's effect over a finite prefix of the event stream: events are
/// handled in order until one of them ends the loop.
pub open spec fn run_model(c: PipelineController, events: Seq<GraphEvent>) -> PipelineController
    decreases events.len(),
{
    if events.len() == 0 {
        c
    } else if event_decision(c.control.stop_requested, events[0]) is KeepRunning {
        run_model(step_model(c, events[0]), events.drop_first())
    } else {
        step_model(c, events[0])
    }
}

/// Why the loop ended over that prefix, or `None` if the prefix ran out
/// before any event ended it.
pub open spec fn run_exit(c: PipelineController, events: Seq<GraphEvent>) -> Option<StopReason>
    decreases events.len(),
{
    if events.len() == 0 {
        None
    } else {
        match event_decision(c.control.stop_requested, events[0]) {
            LoopAction::KeepRunning => run_exit(step_model(c, events[0]), events.drop_first()),
            LoopAction::ExitLoop(why) => Some(why),
        }
    }
}

impl PipelineController {
    /// A fresh session's controller: no resources held, no flag raised, no
    /// exit reason yet.
    pub open spec fn initial() -> PipelineController {
        PipelineController {
            graph_state: GraphState::Inactive,
            control: SessionControl::initial(),
            stop_reason: None,
        }
    }

    pub fn new() -> (c: PipelineController)
        ensures
            c == PipelineController::initial(),
    {
        PipelineController {
            graph_state: GraphState::Inactive,
            control: SessionControl::new(),
            stop_reason: None,
        }
    }

    /// The graph has been asked to enter the active state and now holds
    /// engine resources.
    pub fn mark_active(&mut self)
        ensures
            *final(self) == (PipelineController { graph_state: GraphState::Active, ..*old(self) }),
    {
        self.graph_state = GraphState::Active;
    }

    /// Unconditional teardown: the graph is back in the inactive state and
    /// every node resource is released. Runs whatever ended the loop, an
    /// error included.
    pub fn teardown(&mut self)
        ensures
            *final(self) == (PipelineController {
                graph_state: GraphState::Inactive,
                ..*old(self)
            }),
    {
        self.graph_state = GraphState::Inactive;
    }

    /// Handle one event from the graph's stream: raise `running` on the
    /// whole graph's transition to active, and decide whether the loop
    /// goes on. The stop flag is consulted on every call.
    pub fn handle_event(&mut self, event: &GraphEvent) -> (a: LoopAction)
        ensures
            *final(self) == step_model(*old(self), *event),
            a == event_decision(old(self).control.stop_requested, *event),
    {
        let raise: bool = match event {
            GraphEvent::StateChanged { target, whole_graph } => match target {
                GraphState::Active => *whole_graph,
                _ => false,
            },
            _ => false,
        };
        if raise {
            self.control.running = true;
        }
        let decision: LoopAction = match event {
            GraphEvent::EndOfStream => LoopAction::ExitLoop(StopReason::EndOfStream),
            GraphEvent::FatalError => LoopAction::ExitLoop(StopReason::Error),
            _ => if self.control.stop_requested {
                LoopAction::ExitLoop(StopReason::StopRequested)
            } else {
                LoopAction::KeepRunning
            },
        };
        match decision {
            LoopAction::KeepRunning => {}
            LoopAction::ExitLoop(why) => {
                self.stop_reason = Some(why);
            }
        }
        decision
    }

    /// Run the event loop over a finite prefix of the event stream. The
    /// worker blocks for each next event; a finite sequence stands for the
    /// events that arrived, with the stop flag as it stood when the loop
    /// began (a request made mid-run reaches the per-event `handle_event`,
    /// which re-reads the flag on every call). Returns the reason the loop
    /// ended, or `None` if the prefix ran out first.
    pub fn run_event_loop(&mut self, events: &Vec<GraphEvent>) -> (r: Option<StopReason>)
        ensures
            *final(self) == run_model(*old(self), events@),
            r == run_exit(*old(self), events@),
    {
        let ghost init: PipelineController = *self;
        proof {
            assert(events@.skip(0) =~= events@);
        }
        let mut i: usize = 0;
        let mut exit: Option<StopReason> = None;
        while i < events.len() && exit.is_none()
            invariant
                i <= events@.len(),
                exit is None ==> run_model(init, events@) == run_model(
                    *self,
                    events@.skip(i as int),
                ),
                exit is None ==> run_exit(init, events@) == run_exit(
                    *self,
                    events@.skip(i as int),
                ),
                exit is Some ==> run_model(init, events@) == *self && run_exit(init, events@)
                    == exit,
            decreases events@.len() - i,
        {
            let e = &events[i];
            let a = self.handle_event(e);
            proof {
                assert(events@.skip(i as int)[0] == events@[i as int]);
                assert(events@.skip(i as int).drop_first() =~= events@.skip(i as int + 1));
            }
            match a {
                LoopAction::KeepRunning => {}
                LoopAction::ExitLoop(why) => {
                    exit = Some(why);
                }
            }
            i = i + 1;
        }
        proof {
            if exit is None {
                assert(events@.skip(i as int) =~= Seq::<GraphEvent>::empty());
            }
        }
        exit
    }

    /// One whole worker run: request the active state, process the events
    /// that arrive, and tear the graph down unconditionally — whatever
    /// ended the loop, the session never leaves the graph active.
    pub fn run_session(&mut self, events: &Vec<GraphEvent>) -> (r: Option<StopReason>)
        ensures
            *final(self) == (PipelineController {
                graph_state: GraphState::Inactive,
                ..run_model(
                    (PipelineController { graph_state: GraphState::Active, ..*old(self) }),
                    events@,
                )
            }),
            final(self).graph_state == GraphState::Inactive,
            r == run_exit(
                (PipelineController { graph_state: GraphState::Active, ..*old(self) }),
                events@,
            ),
    {
        self.mark_active();
        let r = self.run_event_loop(events);
        self.teardown();
        r
    }
}

/// The worker never lowers `running`, never writes `stop-requested`, and
/// the loop itself never changes which resources the graph holds.
pub proof fn lemma_run_preserves_flags(c: PipelineController, events: Seq<GraphEvent>)
    ensures
        run_model(c, events).control.stop_requested == c.control.stop_requested,
        c.control.running ==> run_model(c, events).control.running,
        run_model(c, events).graph_state == c.graph_state,
    decreases events.len(),
{
    if events.len() > 0 {
        if event_decision(c.control.stop_requested, events[0]) is KeepRunning {
            lemma_run_preserves_flags(step_model(c, events[0]), events.drop_first());
        }
    }
}

/// `running` is raised only by a whole-graph transition to the active
/// state: a run that ends with `running` true processed an event that
/// reported the whole graph active. This is the ordering guarantee behind
/// the caller's blocking wait.
pub proof fn lemma_running_needs_active_event(c: PipelineController, events: Seq<GraphEvent>)
    requires
        !c.control.running,
        run_model(c, events).control.running,
    ensures
        exists|i: int| 0 <= i < events.len() && raises_running(#[trigger] events[i]),
    decreases events.len(),
{
    if events.len() == 0 {
    } else {
        let e = events[0];
        let stepped = step_model(c, e);
        if raises_running(e) {
            assert(0 <= 0 < events.len() && raises_running(events[0]));
        } else if event_decision(c.control.stop_requested, e) is KeepRunning {
            lemma_running_needs_active_event(stepped, events.drop_first());
            let j = choose|j: int|
                0 <= j < events.drop_first().len() && raises_running(
                    #[trigger] events.drop_first()[j],
                );
            assert(events.drop_first()[j] == events[j + 1]);
            assert(raises_running(events[j + 1]));
        } else {
            assert(false);
        }
    }
}

/// With a stop already requested, the loop ends on the very first event to
/// arrive, whatever its type: the stop flag is polled on every iteration,
/// so teardown is delayed by at most one event.
pub proof fn lemma_prompt_stop(c: PipelineController, events: Seq<GraphEvent>)
    requires
        c.control.stop_requested,
        events.len() > 0,
    ensures
        run_model(c, events) == step_model(c, events[0]),
        run_exit(c, events) is Some,
{
    assert(!(event_decision(c.control.stop_requested, events[0]) is KeepRunning));
}

/// The first construction step that failed: the index of the first false
/// outcome, or the sequence's length when every step succeeded.
pub open spec fn first_failed_step(outcomes: Seq<bool>) -> int
    decreases outcomes.len(),
{
    if outcomes.len() == 0 {
        0
    } else if !outcomes[0] {
        0
    } else {
        1 + first_failed_step(outcomes.drop_first())
    }
}

proof fn lemma_first_failed(outcomes: Seq<bool>, i: int)
    requires
        0 <= i < outcomes.len(),
        !outcomes[i],
        forall|j: int| 0 <= j < i ==> outcomes[j],
    ensures
        first_failed_step(outcomes) == i,
    decreases i,
{
    if i > 0 {
        assert(outcomes[0]);
        assert forall|j: int| 0 <= j < i - 1 implies #[trigger] outcomes.drop_first()[j] by {
            assert(outcomes[j + 1]);
        }
        assert(!outcomes.drop_first()[i - 1]);
        lemma_first_failed(outcomes.drop_first(), i - 1);
    }
}

/// Errors a caller can see from `start`: a failed construction step while
/// building the graph, or a graph that never reported running within the
/// wait budget.
#[derive(Clone, Copy, Debug, PartialEq, Eq)]
pub enum StartError {
    /// A node creation or link failed at this construction step.
    Construction { step: usize },
    /// The graph never reached the active state before the bounded wait
    /// ran out.
    ActivationTimeout,
}

/// One poll of `start`'s bounded wait.
#[derive(Clone, Copy, Debug, PartialEq, Eq)]
pub enum StartPoll {
    /// `running` was observed true: hand the caller its handle.
    Ready,
    /// Not running yet and budget remains: sleep one interval and poll
    /// again.
    Waiting,
    /// The poll budget is spent and `running` was never observed.
    TimedOut,
}

/// Decide one poll of the bounded startup wait from the `running` value
/// just observed and the number of polls already made.
pub fn poll_start(running: bool, polls_made: u32, max_polls: u32) -> (p: StartPoll)
    ensures
        (p == StartPoll::Ready) == running,
        (p == StartPoll::TimedOut) == (!running && polls_made >= max_polls),
        (p == StartPoll::Waiting) == (!running && polls_made < max_polls),
{
    if running {
        StartPoll::Ready
    } else if polls_made >= max_polls {
        StartPoll::TimedOut
    } else {
        StartPoll::Waiting
    }
}

/// The bounded startup wait over the sequence of `running` observations
/// the caller makes, one per poll interval: `Ok` with the index of the
/// first observation that saw `running` true within the poll budget, or a
/// definite timeout error if no observation in the budget did.
pub fn await_running(observations: &Vec<bool>, max_polls: usize) -> (r: Result<
    usize,
    StartError,
>)
    ensures
        (r is Ok) == (exists|j: int|
            0 <= j < observations@.len() && j < max_polls && #[trigger] observations@[j]),
        (r matches Ok(i) ==> i < observations@.len() && i < max_polls && observations@[i as int]
            && (forall|j: int| 0 <= j < i ==> !observations@[j])),
        r matches Err(e) ==> e == StartError::ActivationTimeout,
{
    let mut i: usize = 0;
    while i < observations.len() && i < max_polls
        invariant
            i <= observations@.len(),
            i <= max_polls,
            forall|j: int| 0 <= j < i ==> !observations@[j],
        decreases observations@.len() - i,
    {
        if observations[i] {
            return Ok(i);
        }
        i = i + 1;
    }
    Err(StartError::ActivationTimeout)
}

/// The caller-facing start protocol, with the worker's half abstracted by
/// the `running` observations the bounded wait makes: build the canonical
/// plan for the parameters and destination, wait for the worker to report
/// running, and only then hand back a handle. A handle is returned exactly
/// when some observation within the poll budget saw `running` true — a
/// session whose graph never became active surfaces a definite startup
/// error, never a silent handle.
pub fn start_recording(
    caps: &CameraCaps,
    filename: &String,
    observations: &Vec<bool>,
    max_polls: usize,
) -> (r: Result<(Recorder, GraphPlan), StartError>)
    requires
        caps.valid(),
    ensures
        (r is Ok) == (exists|j: int|
            0 <= j < observations@.len() && j < max_polls && #[trigger] observations@[j]),
        (r matches Ok(pair) ==> pair.0.control.running && !pair.0.control.stop_requested),
        (r matches Ok(pair) ==> has_canonical_topology(pair.1) && pair.1.wf()
            && pair.1.all_reachable()),
        (r matches Ok(pair) ==> pair.1.nodes@[1].config matches NodeConfig::VideoCaps {
            width,
            height,
            framerate_numerator,
            framerate_denominator,
        } && width == caps.width && height == caps.height && framerate_numerator
            == caps.framerate_numerator && framerate_denominator == caps.framerate_denominator),
        (r matches Ok(pair) ==> pair.1.nodes@[8].config matches NodeConfig::Bitrate {
            bits_per_second,
        } && bits_per_second == TARGET_BITRATE_BPS),
        (r matches Ok(pair) ==> pair.1.nodes@[11].config matches NodeConfig::Location { path }
            && path@ == filename@),
        r matches Err(e) ==> e == StartError::ActivationTimeout,
{
    let plan = build_plan(caps, filename);
    match await_running(observations, max_polls) {
        Ok(_) => Ok(
            (Recorder { control: SessionControl { running: true, stop_requested: false } }, plan),
        ),
        Err(e) => Err(e),
    }
}

/// One whole worker life, with the engine abstracted by what it reported:
/// the outcome of each construction step (one per node creation, then one
/// per link of the canonical plan), and the events its stream delivered.
/// Any failed step ends the session with a construction error naming that
/// step, before the graph was ever activated and with the controller
/// untouched — a partially built graph is never set active and raises no
/// `running`. When every step succeeded, the graph is activated, the event
/// prefix is processed, and the graph is torn down unconditionally.
pub fn record(
    caps: &CameraCaps,
    filename: &String,
    step_outcomes: &Vec<bool>,
    events: &Vec<GraphEvent>,
    controller: &mut PipelineController,
) -> (r: Result<Option<StopReason>, StartError>)
    requires
        step_outcomes@.len() == canonical_kinds().len() + canonical_links().len(),
    ensures
        (r is Ok) == (forall|k: int| 0 <= k < step_outcomes@.len() ==> #[trigger] step_outcomes@[k]),
        (r matches Err(e) ==> e matches StartError::Construction { step } && step
            == first_failed_step(step_outcomes@)),
        (r is Err ==> *final(controller) == *old(controller)),
        (r is Ok ==> *final(controller) == (PipelineController {
            graph_state: GraphState::Inactive,
            ..run_model(
                (PipelineController { graph_state: GraphState::Active, ..*old(controller) }),
                events@,
            )
        })),
        (r matches Ok(why) ==> why == run_exit(
            (PipelineController { graph_state: GraphState::Active, ..*old(controller) }),
            events@,
        )),
{
    let plan = build_plan(caps, filename);
    let total: usize = plan.nodes.len() + plan.links.len();
    let mut assembly = GraphAssembly::new(plan);
    let mut i: usize = 0;
    while i < total
        invariant
            total == step_outcomes@.len(),
            total == assembly.total_steps(),
            i <= total,
            assembly.steps_done == i,
            !assembly.failed,
            forall|j: int| 0 <= j < i ==> #[trigger] step_outcomes@[j],
        decreases total - i,
    {
        let ok = step_outcomes[i];
        match assembly.apply_step(ok) {
            Ok(()) => {}
            Err(e) => {
                proof {
                    assert(!step_outcomes@[i as int]);
                    lemma_first_failed(step_outcomes@, i as int);
                }
                return Err(StartError::Construction { step: e.step });
            }
        }
        i = i + 1;
    }
    // Every step succeeded: only now may the graph be activated.
    let ready = assembly.can_activate();
    assert(ready);
    let why = controller.run_session(events);
    Ok(why)
}

} // verus!
