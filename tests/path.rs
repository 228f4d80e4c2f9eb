use ray_tracer::path::{advance, start, Bounce, PathEnd, PathState, Step};

fn run(max_depth: u32, events: &[Bounce]) -> PathEnd {
    let mut step = start(max_depth);
    let mut k = 0;
    loop {
        match step {
            Step::Done(end) => return end,
            Step::Trace(state) => {
                step = advance(state, events[k]);
                k += 1;
            }
        }
    }
}

#[test]
fn no_budget_is_black_at_once() {
    assert_eq!(start(0), Step::Done(PathEnd::Black));
}

#[test]
fn first_step_queries_with_full_budget() {
    assert_eq!(
        start(50),
        Step::Trace(PathState { depth_left: 50, bounces: 0 })
    );
}

#[test]
fn diffuse_hit_with_depth_one_is_black() {
    // One query allowed: the ray hits the sphere and scatters, and the budget is spent
    // before the scattered ray can see anything.
    assert_eq!(run(1, &[Bounce::Scattered]), PathEnd::Black);
}

#[test]
fn miss_shows_background_unattenuated() {
    assert_eq!(run(1, &[Bounce::Missed]), PathEnd::Sky { bounces: 0 });
    assert_eq!(run(50, &[Bounce::Missed]), PathEnd::Sky { bounces: 0 });
}

#[test]
fn absorption_is_black() {
    assert_eq!(
        run(5, &[Bounce::Scattered, Bounce::Absorbed]),
        PathEnd::Black
    );
}

#[test]
fn scatterings_are_counted_until_the_sky() {
    assert_eq!(
        run(3, &[Bounce::Scattered, Bounce::Scattered, Bounce::Missed]),
        PathEnd::Sky { bounces: 2 }
    );
}

#[test]
fn budget_exhausted_after_scatterings_is_black() {
    assert_eq!(
        run(3, &[Bounce::Scattered, Bounce::Scattered, Bounce::Scattered]),
        PathEnd::Black
    );
}

#[test]
fn advance_decrements_depth_by_one() {
    let s = PathState { depth_left: 4, bounces: 1 };
    assert_eq!(
        advance(s, Bounce::Scattered),
        Step::Trace(PathState { depth_left: 3, bounces: 2 })
    );
    assert_eq!(advance(s, Bounce::Missed), Step::Done(PathEnd::Sky { bounces: 1 }));
    assert_eq!(advance(s, Bounce::Absorbed), Step::Done(PathEnd::Black));
}

#[test]
fn largest_budget_starts_tracing() {
    assert_eq!(
        start(u32::MAX),
        Step::Trace(PathState { depth_left: u32::MAX, bounces: 0 })
    );
}
