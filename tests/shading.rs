use raytracer::{plan, Finish, Plan, Recurse, Scatter, SurfaceKind};

fn surface(finish: Finish, translucent: bool) -> Option<SurfaceKind> {
    Some(SurfaceKind { finish, translucent })
}

#[test]
fn spent_budget_is_black_even_on_a_hit() {
    assert_eq!(plan(0, false, None), Plan::Black);
    assert_eq!(plan(0, true, surface(Finish::Mirror, true)), Plan::Black);
}

#[test]
fn a_miss_is_sky() {
    assert_eq!(plan(10, false, None), Plan::Sky);
    assert_eq!(plan(1, true, None), Plan::Sky);
}

#[test]
fn leaving_a_medium_keeps_the_budget() {
    assert_eq!(plan(3, true, surface(Finish::Glossy, true)), Plan::Exit { bounces: 3 });
}

#[test]
fn diffuse_opaque_surface_scatters_over_the_hemisphere() {
    assert_eq!(
        plan(10, false, surface(Finish::Diffuse, false)),
        Plan::Shade {
            direct_light: true,
            sharpen: false,
            outer: Recurse { scatter: Scatter::Hemisphere, bounces: 9, inside: false },
            inner: None,
        }
    );
}

#[test]
fn mirror_takes_no_direct_light() {
    assert_eq!(
        plan(1, false, surface(Finish::Mirror, false)),
        Plan::Shade {
            direct_light: false,
            sharpen: false,
            outer: Recurse { scatter: Scatter::Specular, bounces: 0, inside: false },
            inner: None,
        }
    );
}

#[test]
fn glossy_translucent_surface_blends_both_ways() {
    assert_eq!(
        plan(5, false, surface(Finish::Glossy, true)),
        Plan::Shade {
            direct_light: true,
            sharpen: true,
            outer: Recurse { scatter: Scatter::Blend, bounces: 4, inside: false },
            inner: Some(Recurse { scatter: Scatter::Blend, bounces: 4, inside: true }),
        }
    );
}

#[test]
fn mirror_translucent_surface_refracts_straight_in() {
    assert_eq!(
        plan(2, false, surface(Finish::Mirror, true)),
        Plan::Shade {
            direct_light: false,
            sharpen: false,
            outer: Recurse { scatter: Scatter::Specular, bounces: 1, inside: false },
            inner: Some(Recurse { scatter: Scatter::Specular, bounces: 1, inside: true }),
        }
    );
}

#[test]
fn recursion_depth_is_bounded_by_the_budget() {
    // Follow the deepest chain of traces a translucent glossy scene can ask for.
    let mut depth = 0;
    let mut stack = vec![(10u32, false)];
    while let Some((bounces, inside)) = stack.pop() {
        depth += 1;
        assert!(depth < 10_000);
        match plan(bounces, inside, surface(Finish::Glossy, true)) {
            Plan::Exit { bounces } => stack.push((bounces, false)),
            Plan::Shade { outer, inner, .. } => {
                stack.push((outer.bounces, outer.inside));
                if let Some(t) = inner {
                    stack.push((t.bounces, t.inside));
                }
            }
            _ => {}
        }
    }
}
