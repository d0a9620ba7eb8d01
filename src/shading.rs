use vstd::prelude::*;

verus! {

/// How a surface scatters light, by its reflectivity.
#[derive(Debug, Clone, Copy, PartialEq, Eq)]
pub enum Finish {
    /// Reflectivity 0: light leaves uniformly over the hemisphere.
    Diffuse,
    /// Reflectivity strictly between 0 and 1: a blend of both, with a
    /// sharpened highlight.
    Glossy,
    /// Reflectivity 1: a perfect mirror.
    Mirror,
}

/// What the shading of a hit depends on besides geometry.
#[derive(Debug, Clone, Copy, PartialEq, Eq)]
pub struct SurfaceKind {
    pub finish: Finish,
    /// Opacity below 1: part of the light passes through the surface.
    pub translucent: bool,
}

/// Direction of a secondary ray.
#[derive(Debug, Clone, Copy, PartialEq, Eq)]
pub enum Scatter {
    /// The mirror image of the incoming direction (outside), or the refracted
    /// direction (entering a medium).
    Specular,
    /// Uniform over the hemisphere on the ray's side of the surface.
    Hemisphere,
    /// The hemisphere sample and the specular direction mixed by
    /// `1 - reflectivity` and `reflectivity`, renormalised.
    Blend,
}

/// A recursive trace: its direction, remaining bounce budget, and whether it
/// travels inside a transparent medium.
#[derive(Debug, Clone, Copy, PartialEq, Eq)]
pub struct Recurse {
    pub scatter: Scatter,
    pub bounces: u32,
    pub inside: bool,
}

/// What tracing one ray amounts to.
#[derive(Debug, Clone, Copy, PartialEq, Eq)]
pub enum Plan {
    /// The bounce budget is spent: black.
    Black,
    /// Nothing is hit: the sky colour.
    Sky,
    /// The ray leaves a medium: refract out through the negated normal with
    /// relative index `1 / r_index` (mirror it on total internal reflection)
    /// and trace on outside with the same budget, unshaded.
    Exit { bounces: u32 },
    /// Shade the hit: add each unoccluded light unless `direct_light` is
    /// false (sharpening the intensity when `sharpen`), add the `outer`
    /// trace, blend in the `inner` trace by opacity when there is one, and
    /// scale the sum by the surface colour.
    Shade { direct_light: bool, sharpen: bool, outer: Recurse, inner: Option<Recurse> },
}

/// The plan for a ray with `remaining` bounces, `inside` a medium or not,
/// that hits a surface of kind `hit` (or nothing).
pub open spec fn spec_plan(remaining: nat, inside: bool, hit: Option<SurfaceKind>) -> Plan {
    if remaining == 0 {
        Plan::Black
    } else if hit is None {
        Plan::Sky
    } else if inside {
        Plan::Exit { bounces: remaining as u32 }
    } else {
        let surface = hit->0;
        let bounces = (remaining - 1) as u32;
        Plan::Shade {
            direct_light: surface.finish != Finish::Mirror,
            sharpen: surface.finish == Finish::Glossy,
            outer: Recurse {
                scatter: match surface.finish {
                    Finish::Mirror => Scatter::Specular,
                    Finish::Diffuse => Scatter::Hemisphere,
                    Finish::Glossy => Scatter::Blend,
                },
                bounces,
                inside: false,
            },
            inner: if surface.translucent {
                Some(
                    Recurse {
                        scatter: if surface.finish == Finish::Mirror {
                            Scatter::Specular
                        } else {
                            Scatter::Blend
                        },
                        bounces,
                        inside: true,
                    },
                )
            } else {
                None
            },
        }
    }
}

/// Decreases with every recursive trace: a bounce costs two, leaving a
/// medium one.
pub open spec fn measure(bounces: nat, inside: bool) -> nat {
    2 * bounces + if inside {
        1nat
    } else {
        0nat
    }
}

/// Decide how to trace a ray with `remaining` bounces left.
pub fn plan(remaining: u32, inside: bool, hit: Option<SurfaceKind>) -> (r: Plan)
    ensures
        r == spec_plan(remaining as nat, inside, hit),
{
    if remaining == 0 {
        return Plan::Black;
    }
    let surface = match hit {
        None => {
            return Plan::Sky;
        },
        Some(s) => s,
    };
    if inside {
        return Plan::Exit { bounces: remaining };
    }
    let bounces = remaining - 1;
    let is_mirror = match surface.finish {
        Finish::Mirror => true,
        _ => false,
    };
    let outer = Recurse {
        scatter: match surface.finish {
            Finish::Mirror => Scatter::Specular,
            Finish::Diffuse => Scatter::Hemisphere,
            Finish::Glossy => Scatter::Blend,
        },
        bounces,
        inside: false,
    };
    let inner = if surface.translucent {
        Some(
            Recurse {
                scatter: if is_mirror {
                    Scatter::Specular
                } else {
                    Scatter::Blend
                },
                bounces,
                inside: true,
            },
        )
    } else {
        None
    };
    Plan::Shade {
        direct_light: !is_mirror,
        sharpen: match surface.finish {
            Finish::Glossy => true,
            _ => false,
        },
        outer,
        inner,
    }
}

/// Every trace a plan asks for is smaller by `measure` than the trace that
/// planned it, so shading a ray always terminates; only leaving a medium
/// keeps the bounce budget.
pub proof fn lemma_plan_terminates(remaining: nat, inside: bool, hit: Option<SurfaceKind>)
    requires
        remaining <= u32::MAX,
    ensures
        match spec_plan(remaining, inside, hit) {
            Plan::Exit { bounces } => {
                &&& bounces == remaining
                &&& measure(bounces as nat, false) < measure(remaining, inside)
            },
            Plan::Shade { outer, inner, .. } => {
                &&& outer.bounces + 1 == remaining
                &&& measure(outer.bounces as nat, outer.inside) < measure(remaining, inside)
                &&& inner matches Some(t) ==> {
                    &&& t.bounces + 1 == remaining
                    &&& measure(t.bounces as nat, t.inside) < measure(remaining, inside)
                }
            },
            _ => true,
        },
{
}

} // verus!
