//! The decisions of the radiance integrator, apart from its arithmetic.
//!
//! A primary ray is traced bounce by bounce. At each bounce the scene is queried for the
//! nearest surface and the struck material is asked to scatter; what came of that is a
//! [`Bounce`]. The integrator decides from it alone whether the path goes on and, when it
//! stops, what its color is made of: nothing (black), or the background seen after some
//! number of scatterings, weighted by the product of their attenuations.
use vstd::prelude::*;

verus! {

/// What one query of the scene, followed by the struck material's scatter, gave for the
/// current ray.
#[derive(Clone, Copy, Debug, PartialEq, Eq, Structural)]
pub enum Bounce {
    /// Nothing was hit: the background is seen along the ray.
    Missed,
    /// A surface was hit and its material absorbed the ray.
    Absorbed,
    /// A surface was hit and its material sent out a new ray with an attenuation.
    Scattered,
}

/// How a traced path ends.
#[derive(Clone, Copy, Debug, PartialEq, Eq, Structural)]
pub enum PathEnd {
    /// No radiance: the ray was absorbed, or the bounce budget ran out.
    Black,
    /// The background is seen after `bounces` scatterings. The path's color is the product
    /// of their attenuations times the background gradient along the last ray.
    Sky { bounces: u32 },
}

impl View for PathEnd {
    /// `None` for black, `Some(k)` for the background after `k` scatterings.
    type V = Option<nat>;

    open spec fn view(&self) -> Option<nat> {
        match *self {
            PathEnd::Black => None,
            PathEnd::Sky { bounces } => Some(bounces as nat),
        }
    }
}

/// A path that is still being traced.
#[derive(Clone, Copy, Debug, PartialEq, Eq, Structural)]
pub struct PathState {
    /// Queries of the scene that the path may still make.
    pub depth_left: u32,
    /// Scatterings so far: the attenuations that weigh the path's color.
    pub bounces: u32,
}

impl PathState {
    /// At least one query is left, and the bounce count can grow through all of them.
    pub open spec fn wf(self) -> bool {
        &&& self.depth_left > 0
        &&& self.bounces + self.depth_left <= u32::MAX
    }
}

/// What the integrator does next.
#[derive(Clone, Copy, Debug, PartialEq, Eq, Structural)]
pub enum Step {
    /// Query the scene with the current ray.
    Trace(PathState),
    /// Stop: the path's color is settled.
    Done(PathEnd),
}

/// The color of a path traced with a budget of `depth` queries, where `events[k]` is what
/// the `k`-th query gave: the recursive formulation of the integrator. `None` is black,
/// `Some(k)` the background after `k` scatterings.
pub open spec fn fate(depth: nat, events: Seq<Bounce>) -> Option<nat>
    decreases depth,
{
    if depth == 0 || events.len() == 0 {
        None
    } else {
        match events[0] {
            Bounce::Missed => Some(0),
            Bounce::Absorbed => None,
            Bounce::Scattered => match fate((depth - 1) as nat, events.drop_first()) {
                Some(k) => Some(k + 1),
                None => None,
            },
        }
    }
}

/// The first step of a path traced with a budget of `max_depth` queries.
pub open spec fn start_spec(max_depth: u32) -> Step {
    if max_depth == 0 {
        Step::Done(PathEnd::Black)
    } else {
        Step::Trace(PathState { depth_left: max_depth, bounces: 0 })
    }
}

/// The step that follows `state` when its query gave `event`.
pub open spec fn advance_spec(state: PathState, event: Bounce) -> Step {
    match event {
        Bounce::Missed => Step::Done(PathEnd::Sky { bounces: state.bounces }),
        Bounce::Absorbed => Step::Done(PathEnd::Black),
        Bounce::Scattered => if state.depth_left <= 1 {
            Step::Done(PathEnd::Black)
        } else {
            Step::Trace(
                PathState {
                    depth_left: (state.depth_left - 1) as u32,
                    bounces: (state.bounces + 1) as u32,
                },
            )
        },
    }
}

/// The color that the step-by-step integrator settles on from `step`, where `events[k]` is
/// what its `k`-th query from there gives.
pub open spec fn outcome(step: Step, events: Seq<Bounce>) -> Option<nat>
    decreases events.len(),
{
    match step {
        Step::Done(end) => end@,
        Step::Trace(state) => if events.len() == 0 {
            None
        } else {
            outcome(advance_spec(state, events[0]), events.drop_first())
        },
    }
}

/// Begins a path with a budget of `max_depth` queries of the scene. With no budget the
/// path is black at once, whatever the scene holds.
pub fn start(max_depth: u32) -> (r: Step)
    ensures
        r == start_spec(max_depth),
        max_depth == 0 ==> r == Step::Done(PathEnd::Black),
        match r {
            Step::Trace(s) => s.wf(),
            Step::Done(_) => true,
        },
{
    if max_depth == 0 {
        Step::Done(PathEnd::Black)
    } else {
        Step::Trace(PathState { depth_left: max_depth, bounces: 0 })
    }
}

/// Decides what follows a query of the scene. A miss ends the path in the background, an
/// absorption in black; a scattering goes on with one query fewer and one more
/// attenuation, unless that was the last query allowed, which leaves the path black.
pub fn advance(state: PathState, event: Bounce) -> (r: Step)
    requires
        state.wf(),
    ensures
        r == advance_spec(state, event),
        match r {
            Step::Trace(s) => s.wf() && s.bounces + s.depth_left == state.bounces
                + state.depth_left,
            Step::Done(_) => true,
        },
{
    match event {
        Bounce::Missed => Step::Done(PathEnd::Sky { bounces: state.bounces }),
        Bounce::Absorbed => Step::Done(PathEnd::Black),
        Bounce::Scattered => {
            if state.depth_left <= 1 {
                Step::Done(PathEnd::Black)
            } else {
                Step::Trace(
                    PathState { depth_left: state.depth_left - 1, bounces: state.bounces + 1 },
                )
            }
        },
    }
}

/// `Some(k)` moved up by `b`; `None` stays.
spec fn shifted(o: Option<nat>, b: nat) -> Option<nat> {
    match o {
        Some(k) => Some(k + b),
        None => None,
    }
}

proof fn lemma_trace_from(state: PathState, events: Seq<Bounce>)
    requires
        state.wf(),
        events.len() >= state.depth_left,
    ensures
        outcome(Step::Trace(state), events) == shifted(
            fate(state.depth_left as nat, events),
            state.bounces as nat,
        ),
    decreases state.depth_left,
{
    let next = advance_spec(state, events[0]);
    assert(outcome(Step::Trace(state), events) == outcome(next, events.drop_first()));
    match events[0] {
        Bounce::Missed => {},
        Bounce::Absorbed => {},
        Bounce::Scattered => {
            if state.depth_left > 1 {
                let s = PathState {
                    depth_left: (state.depth_left - 1) as u32,
                    bounces: (state.bounces + 1) as u32,
                };
                lemma_trace_from(s, events.drop_first());
            }
        },
    }
}

/// Tracing step by step, one query at a time, ends exactly as the recursive formulation
/// does, for every budget and every sequence of query results that lasts the budget.
pub proof fn lemma_steps_match_recursion(max_depth: u32, events: Seq<Bounce>)
    requires
        events.len() >= max_depth,
    ensures
        outcome(start_spec(max_depth), events) == fate(max_depth as nat, events),
{
    if max_depth > 0 {
        let s = PathState { depth_left: max_depth, bounces: 0 };
        lemma_trace_from(s, events);
    }
}

/// With a budget of no queries a path is black, whatever the scene would answer.
pub proof fn lemma_no_budget_is_black(events: Seq<Bounce>)
    ensures
        fate(0, events) == None::<nat>,
        outcome(start_spec(0), events) == None::<nat>,
{
}

/// A path whose first query misses shows the background along the primary ray, with no
/// attenuation, for every positive budget.
pub proof fn lemma_miss_is_background(max_depth: u32, events: Seq<Bounce>)
    requires
        max_depth > 0,
        events.len() > 0,
        events[0] == Bounce::Missed,
    ensures
        fate(max_depth as nat, events) == Some(0nat),
        outcome(start_spec(max_depth), events) == Some(0nat),
{
    let next = advance_spec(PathState { depth_left: max_depth, bounces: 0 }, events[0]);
    assert(outcome(next, events.drop_first()) == Some(0nat));
}

} // verus!
