//! The closed, ordered set of celestial bodies the foreign surface can
//! compute positions for, and iteration over its contiguous sub-ranges.
//!
//! Ordering matters: clients walk spans such as "Sun through Chiron,
//! skipping Earth", and `bodies_between` proves that such a walk visits
//! every non-Earth body of the span exactly once, in declared order.

use vstd::prelude::*;

verus! {

/// One body the foreign surface knows, plus the pseudo-body carrying
/// ecliptic-nutation data. Declaration order is the surface's ordinal
/// order.
#[derive(Copy, Clone, PartialEq, Eq, Structural, Debug)]
pub enum Body {
    EclipticNutation,
    Sun,
    Moon,
    Mercury,
    Venus,
    Mars,
    Jupiter,
    Saturn,
    Uranus,
    Neptune,
    Pluto,
    MeanNode,
    TrueNode,
    MeanLunarApogee,
    OsculatingLunarApogee,
    Earth,
    Chiron,
    Pholus,
    Ceres,
    Pallas,
    Juno,
    Vesta,
}

/// The ordinal identifier the foreign surface assigns to each body.
pub open spec fn body_id(b: Body) -> i32 {
    match b {
        Body::EclipticNutation => -1i32,
        Body::Sun => 0,
        Body::Moon => 1,
        Body::Mercury => 2,
        Body::Venus => 3,
        Body::Mars => 4,
        Body::Jupiter => 5,
        Body::Saturn => 6,
        Body::Uranus => 7,
        Body::Neptune => 8,
        Body::Pluto => 9,
        Body::MeanNode => 10,
        Body::TrueNode => 11,
        Body::MeanLunarApogee => 12,
        Body::OsculatingLunarApogee => 13,
        Body::Earth => 14,
        Body::Chiron => 15,
        Body::Pholus => 16,
        Body::Ceres => 17,
        Body::Pallas => 18,
        Body::Juno => 19,
        Body::Vesta => 20,
    }
}

/// The body with a given ordinal identifier, if any.
pub open spec fn spec_body_from_id(id: i32) -> Option<Body> {
    if id == -1 {
        Some(Body::EclipticNutation)
    } else if id == 0 {
        Some(Body::Sun)
    } else if id == 1 {
        Some(Body::Moon)
    } else if id == 2 {
        Some(Body::Mercury)
    } else if id == 3 {
        Some(Body::Venus)
    } else if id == 4 {
        Some(Body::Mars)
    } else if id == 5 {
        Some(Body::Jupiter)
    } else if id == 6 {
        Some(Body::Saturn)
    } else if id == 7 {
        Some(Body::Uranus)
    } else if id == 8 {
        Some(Body::Neptune)
    } else if id == 9 {
        Some(Body::Pluto)
    } else if id == 10 {
        Some(Body::MeanNode)
    } else if id == 11 {
        Some(Body::TrueNode)
    } else if id == 12 {
        Some(Body::MeanLunarApogee)
    } else if id == 13 {
        Some(Body::OsculatingLunarApogee)
    } else if id == 14 {
        Some(Body::Earth)
    } else if id == 15 {
        Some(Body::Chiron)
    } else if id == 16 {
        Some(Body::Pholus)
    } else if id == 17 {
        Some(Body::Ceres)
    } else if id == 18 {
        Some(Body::Pallas)
    } else if id == 19 {
        Some(Body::Juno)
    } else if id == 20 {
        Some(Body::Vesta)
    } else {
        None
    }
}

/// The identifier round-trips: every body is the body of its identifier.
pub proof fn lemma_body_id_roundtrip()
    ensures
        forall|b: Body| spec_body_from_id(body_id(b)) == Some(b),
        forall|b1: Body, b2: Body| body_id(b1) == body_id(b2) ==> b1 == b2,
{
    assert forall|b: Body| spec_body_from_id(body_id(b)) == Some(b) by {
        match b {
            Body::EclipticNutation => {},
            Body::Sun => {},
            Body::Moon => {},
            Body::Mercury => {},
            Body::Venus => {},
            Body::Mars => {},
            Body::Jupiter => {},
            Body::Saturn => {},
            Body::Uranus => {},
            Body::Neptune => {},
            Body::Pluto => {},
            Body::MeanNode => {},
            Body::TrueNode => {},
            Body::MeanLunarApogee => {},
            Body::OsculatingLunarApogee => {},
            Body::Earth => {},
            Body::Chiron => {},
            Body::Pholus => {},
            Body::Ceres => {},
            Body::Pallas => {},
            Body::Juno => {},
            Body::Vesta => {},
        }
    }
    assert forall|b1: Body, b2: Body| body_id(b1) == body_id(b2) implies b1 == b2 by {
        assert(spec_body_from_id(body_id(b1)) == Some(b1));
        assert(spec_body_from_id(body_id(b2)) == Some(b2));
    }
}

impl Body {
    /// The ordinal identifier of this body, as executable code.
    pub fn id(&self) -> (r: i32)
        ensures
            r == body_id(*self),
    {
        match self {
            Body::EclipticNutation => -1,
            Body::Sun => 0,
            Body::Moon => 1,
            Body::Mercury => 2,
            Body::Venus => 3,
            Body::Mars => 4,
            Body::Jupiter => 5,
            Body::Saturn => 6,
            Body::Uranus => 7,
            Body::Neptune => 8,
            Body::Pluto => 9,
            Body::MeanNode => 10,
            Body::TrueNode => 11,
            Body::MeanLunarApogee => 12,
            Body::OsculatingLunarApogee => 13,
            Body::Earth => 14,
            Body::Chiron => 15,
            Body::Pholus => 16,
            Body::Ceres => 17,
            Body::Pallas => 18,
            Body::Juno => 19,
            Body::Vesta => 20,
        }
    }

    /// The body with a given ordinal identifier, as executable code.
    pub fn from_id(id: i32) -> (r: Option<Body>)
        ensures
            r == spec_body_from_id(id),
    {
        if id == -1 {
            Some(Body::EclipticNutation)
        } else if id == 0 {
            Some(Body::Sun)
        } else if id == 1 {
            Some(Body::Moon)
        } else if id == 2 {
            Some(Body::Mercury)
        } else if id == 3 {
            Some(Body::Venus)
        } else if id == 4 {
            Some(Body::Mars)
        } else if id == 5 {
            Some(Body::Jupiter)
        } else if id == 6 {
            Some(Body::Saturn)
        } else if id == 7 {
            Some(Body::Uranus)
        } else if id == 8 {
            Some(Body::Neptune)
        } else if id == 9 {
            Some(Body::Pluto)
        } else if id == 10 {
            Some(Body::MeanNode)
        } else if id == 11 {
            Some(Body::TrueNode)
        } else if id == 12 {
            Some(Body::MeanLunarApogee)
        } else if id == 13 {
            Some(Body::OsculatingLunarApogee)
        } else if id == 14 {
            Some(Body::Earth)
        } else if id == 15 {
            Some(Body::Chiron)
        } else if id == 16 {
            Some(Body::Pholus)
        } else if id == 17 {
            Some(Body::Ceres)
        } else if id == 18 {
            Some(Body::Pallas)
        } else if id == 19 {
            Some(Body::Juno)
        } else if id == 20 {
            Some(Body::Vesta)
        } else {
            None
        }
    }
}

/// Walk the contiguous ordinal span from `lo` (inclusive) to `hi`
/// (exclusive), skipping the Earth: every non-Earth body of the span
/// appears exactly once, in declared enum order, and nothing else does.
pub fn bodies_between(lo: Body, hi: Body) -> (r: Vec<Body>)
    ensures
        forall|k: int|
            0 <= k < r@.len() ==> body_id(lo) <= body_id(#[trigger] r@[k]) < body_id(hi)
                && r@[k] != Body::Earth,
        forall|k: int| 0 <= k < r@.len() - 1 ==> body_id(#[trigger] r@[k]) < body_id(r@[k + 1]),
        forall|b: Body|
            body_id(lo) <= body_id(b) < body_id(hi) && b != Body::Earth ==> r@.contains(b),
{
    proof {
        lemma_body_id_roundtrip();
    }
    let mut r: Vec<Body> = Vec::new();
    let hi_id = hi.id();
    let mut i: i32 = lo.id();
    while i < hi_id
        invariant
            r@.len() == 0 || i <= hi_id,
            -1 <= body_id(lo),
            hi_id == body_id(hi) <= 20,
            i >= body_id(lo),
            forall|k: int|
                0 <= k < r@.len() ==> body_id(lo) <= body_id(#[trigger] r@[k]) < i && r@[k]
                    != Body::Earth,
            forall|k: int| 0 <= k < r@.len() - 1 ==> body_id(#[trigger] r@[k]) < body_id(r@[k + 1]),
            forall|b: Body|
                body_id(lo) <= body_id(b) < i && b != Body::Earth ==> r@.contains(b),
            forall|b: Body| spec_body_from_id(body_id(b)) == Some(b),
        decreases hi_id - i,
    {
        match Body::from_id(i) {
            Some(b) => {
                if !matches!(b, Body::Earth) {
                    let ghost old_r = r@;
                    r.push(b);
                    proof {
                        assert(r@[r@.len() - 1] == b);
                        assert forall|x: Body|
                            body_id(lo) <= body_id(x) < i + 1 && x != Body::Earth implies r@.contains(
                            x,
                        ) by {
                            if body_id(x) < i {
                                assert(old_r.contains(x));
                                let k = choose|k: int| 0 <= k < old_r.len() && old_r[k] == x;
                                assert(old_r[k] == x);
                                assert(r@[k] == old_r[k]);
                                assert(r@.contains(x));
                            } else {
                                assert(spec_body_from_id(body_id(x)) == Some(x));
                                assert(x == b);
                                assert(r@[r@.len() - 1] == x);
                            }
                        }
                    }
                } else {
                    proof {
                        assert forall|x: Body|
                            body_id(lo) <= body_id(x) < i + 1 && x != Body::Earth implies r@.contains(
                            x,
                        ) by {
                            if body_id(x) == i {
                                assert(spec_body_from_id(body_id(x)) == Some(x));
                                assert(x == b);
                            }
                        }
                    }
                }
            },
            None => {
                proof {
                    assert forall|x: Body|
                        body_id(lo) <= body_id(x) < i + 1 && x != Body::Earth implies r@.contains(
                        x,
                    ) by {
                        if body_id(x) == i {
                            assert(spec_body_from_id(i) is Some);
                        }
                    }
                }
            },
        }
        i = i + 1;
    }
    r
}

} // verus!
