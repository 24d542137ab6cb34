use vstd::prelude::*;

verus! {

/// What happened when a ray was traced one step into the scene.
#[derive(Clone, Copy, PartialEq, Eq, Structural, Debug)]
pub enum Event {
    /// The ray hit nothing and leaves toward the background.
    Missed,
    /// The ray hit a surface whose material absorbed it.
    Absorbed,
    /// The ray hit a surface and was scattered into a new ray.
    Scattered,
}

/// How a light path ends.
#[derive(Clone, Copy, PartialEq, Eq, Structural, Debug)]
pub enum Ending {
    /// The path carries no light: it was absorbed or ran out of bounces.
    Dark,
    /// The path reaches the background, whose colour it carries.
    Sky,
}

/// The tracer's next move on a path.
#[derive(Clone, Copy, PartialEq, Eq, Structural, Debug)]
pub enum Step {
    /// Trace the current ray, with this many bounces still allowed.
    Trace(u32),
    /// The path is over.
    Stop(Ending),
}

/// The move for a path that may still bounce `depth` times.
pub open spec fn begin_spec(depth: int) -> Step {
    if depth <= 0 {
        Step::Stop(Ending::Dark)
    } else {
        Step::Trace(depth as u32)
    }
}

/// The move after `event`, on a ray traced with `depth` bounces still allowed.
pub open spec fn advance_spec(depth: int, event: Event) -> Step {
    match event {
        Event::Missed => Step::Stop(Ending::Sky),
        Event::Absorbed => Step::Stop(Ending::Dark),
        Event::Scattered => begin_spec(depth - 1),
    }
}

/// The first move on a path traced at most `max_depth` times: a path with no
/// bounce allowed is dark at once.
pub fn begin(max_depth: i32) -> (r: Step)
    ensures
        r == begin_spec(max_depth as int),
{
    if max_depth <= 0 {
        Step::Stop(Ending::Dark)
    } else {
        Step::Trace(max_depth as u32)
    }
}

/// The move after a ray traced with `depth` bounces allowed met `event`: the
/// background on a miss, darkness on absorption, and on a scatter the next ray
/// with one bounce fewer, or darkness when none is left.
pub fn advance(depth: u32, event: Event) -> (r: Step)
    requires
        depth > 0,
    ensures
        r == advance_spec(depth as int, event),
{
    match event {
        Event::Missed => Step::Stop(Ending::Sky),
        Event::Absorbed => Step::Stop(Ending::Dark),
        Event::Scattered => {
            if depth == 1 {
                Step::Stop(Ending::Dark)
            } else {
                Step::Trace(depth - 1)
            }
        },
    }
}

/// The moves of a path begun with `depth` bounces allowed that meets `events` in
/// turn: the step reached once the events are used up or the path stops, and
/// how many rays were traced.
pub open spec fn run(depth: int, events: Seq<Event>) -> (Step, nat)
    decreases events.len(),
{
    match begin_spec(depth) {
        Step::Stop(e) => (Step::Stop(e), 0),
        Step::Trace(d) => if events.len() == 0 {
            (Step::Trace(d), 0)
        } else {
            let after = run(depth - 1, events.drop_first());
            match events[0] {
                Event::Scattered => (after.0, after.1 + 1),
                _ => (advance_spec(depth, events[0]), 1),
            }
        },
    }
}

/// However the scene answers, a path traces at most `max_depth` rays, and a
/// path whose every ray scatters goes dark once `max_depth` rays were traced.
pub proof fn lemma_depth_bounds_path(max_depth: int, events: Seq<Event>)
    ensures
        run(max_depth, events).1 <= if max_depth <= 0 { 0 } else { max_depth },
        events.len() >= max_depth
            && (forall|i: int| 0 <= i < events.len() ==> #[trigger] events[i] == Event::Scattered)
            ==> run(max_depth, events).0 == Step::Stop(Ending::Dark),
    decreases events.len(),
{
    if max_depth > 0 && events.len() > 0 {
        lemma_depth_bounds_path(max_depth - 1, events.drop_first());
        if forall|i: int| 0 <= i < events.len() ==> #[trigger] events[i] == Event::Scattered {
            assert forall|i: int| 0 <= i < events.drop_first().len() implies #[trigger] events.drop_first()[i]
                == Event::Scattered by {
                assert(events.drop_first()[i] == events[i + 1]);
            }
            assert(events[0] == Event::Scattered);
        }
    }
}

} // verus!
