//! The bounding-box finder: replays the pose, one advance step at a time, and
//! keeps the tight extent of every visible vertex.

use vstd::prelude::*;
use crate::frame::RenderError;
use crate::geometry::{
    lemma_tight_insert, lemma_tight_single, max_int, min_int, tight_bounds, SUBPIXELS,
    VISIBLE_ALPHA,
};

verus! {

/// A vertex in render space, in sub-pixels.
#[derive(Debug, Clone, Copy, PartialEq, Eq)]
pub struct Vertex {
    pub x: i32,
    pub y: i32,
}

/// One triangle batch as the pose engine yields it: its opacity (millionths)
/// and its vertices.
#[derive(Debug, Clone)]
pub struct Renderable {
    pub alpha: u32,
    pub vertices: Vec<Vertex>,
}

pub open spec fn is_visible(r: Renderable) -> bool {
    r.alpha >= VISIBLE_ALPHA
}

/// The points of the visible batches of `b` that come before vertex `k` of
/// batch `j`.
pub open spec fn seen_points(b: Seq<Renderable>, j: int, k: int) -> Set<(int, int)> {
    Set::new(
        |p: (int, int)|
            exists|jj: int, kk: int|
                #![trigger b[jj].vertices@[kk]]
                0 <= jj < b.len() && is_visible(b[jj]) && 0 <= kk < b[jj].vertices@.len() && (jj
                    < j || (jj == j && kk < k)) && b[jj].vertices@[kk].x == p.0
                    && b[jj].vertices@[kk].y == p.1,
    )
}

/// Every vertex of every visible batch of one advance step.
pub open spec fn visible_points(b: Seq<Renderable>) -> Set<(int, int)> {
    seen_points(b, b.len() as int, 0)
}

/// The inclusive extent of a non-empty set of vertices, in sub-pixels.
#[derive(Debug, Clone, Copy, PartialEq, Eq)]
pub struct Extent {
    pub min_x: i32,
    pub min_y: i32,
    pub max_x: i32,
    pub max_y: i32,
}

pub open spec fn extent_tight(e: Option<Extent>, pts: Set<(int, int)>) -> bool {
    match e {
        None => pts == Set::<(int, int)>::empty(),
        Some(e) => tight_bounds(e.min_x as int, e.min_y as int, e.max_x as int, e.max_y as int, pts),
    }
}

/// An axis-aligned box in sub-pixels; `width` and `height` are never negative.
#[derive(Debug, Clone, Copy, PartialEq, Eq)]
pub struct BoundingBox {
    pub left: i64,
    pub top: i64,
    pub width: i64,
    pub height: i64,
}

/// The box of an extent, or `NothingRendered` where nothing visible was seen
/// or the box is narrower or lower than one pixel.
pub open spec fn spec_bounding_box(e: Option<Extent>) -> Result<BoundingBox, RenderError> {
    match e {
        None => Err(RenderError::NothingRendered),
        Some(e) => {
            let w = e.max_x - e.min_x;
            let h = e.max_y - e.min_y;
            if w < SUBPIXELS || h < SUBPIXELS {
                Err(RenderError::NothingRendered)
            } else {
                Ok(BoundingBox { left: e.min_x as i64, top: e.min_y as i64, width: w as i64, height: h as i64 })
            }
        },
    }
}

/// Once batch `j` is done (all of its vertices where it is visible, none
/// where it is not), the next batch starts from the same points.
proof fn lemma_next_batch(b: Seq<Renderable>, j: int, k: int)
    requires
        0 <= j < b.len(),
        is_visible(b[j]) ==> k == b[j].vertices@.len(),
        !is_visible(b[j]) ==> k == 0,
    ensures
        seen_points(b, j + 1, 0) == seen_points(b, j, k),
{
    let s0 = seen_points(b, j, k);
    let s1 = seen_points(b, j + 1, 0);
    assert forall|p: (int, int)| s1.contains(p) implies #[trigger] s0.contains(p) by {
        let (jj, kk) = choose|jj: int, kk: int|
            #![trigger b[jj].vertices@[kk]]
            0 <= jj < b.len() && is_visible(b[jj]) && 0 <= kk < b[jj].vertices@.len() && (jj < j + 1 || (
            jj == j + 1 && kk < 0)) && b[jj].vertices@[kk].x == p.0 && b[jj].vertices@[kk].y == p.1;
        assert(b[jj].vertices@[kk].x == p.0);
    }
    assert forall|p: (int, int)| #[trigger] s0.contains(p) implies s1.contains(p) by {
        let (jj, kk) = choose|jj: int, kk: int|
            #![trigger b[jj].vertices@[kk]]
            0 <= jj < b.len() && is_visible(b[jj]) && 0 <= kk < b[jj].vertices@.len() && (jj < j || (jj
                == j && kk < k)) && b[jj].vertices@[kk].x == p.0 && b[jj].vertices@[kk].y == p.1;
        assert(b[jj].vertices@[kk].x == p.0);
    }
    assert(s1 =~= s0);
}

pub struct BoundsFinder {
    extent: Option<Extent>,
    points: Ghost<Set<(int, int)>>,
}

impl BoundsFinder {
    /// The visible vertices measured so far.
    pub closed spec fn points(&self) -> Set<(int, int)> {
        self.points@
    }

    pub closed spec fn current(&self) -> Option<Extent> {
        self.extent
    }

    pub closed spec fn wf(&self) -> bool {
        extent_tight(self.extent, self.points@)
    }

    pub fn new() -> (r: BoundsFinder)
        ensures
            r.wf(),
            r.points() == Set::<(int, int)>::empty(),
    {
        BoundsFinder { extent: None, points: Ghost(Set::empty()) }
    }

    fn add_point(&mut self, v: Vertex)
        requires
            old(self).wf(),
        ensures
            final(self).wf(),
            final(self).points() == old(self).points().insert((v.x as int, v.y as int)),
    {
        let ghost pts = self.points@;
        proof {
            self.points@ = pts.insert((v.x as int, v.y as int));
        }
        match self.extent {
            None => {
                self.extent = Some(Extent { min_x: v.x, min_y: v.y, max_x: v.x, max_y: v.y });
                proof {
                    lemma_tight_single(v.x as int, v.y as int);
                }
            },
            Some(e) => {
                let n = Extent {
                    min_x: if v.x < e.min_x { v.x } else { e.min_x },
                    min_y: if v.y < e.min_y { v.y } else { e.min_y },
                    max_x: if v.x > e.max_x { v.x } else { e.max_x },
                    max_y: if v.y > e.max_y { v.y } else { e.max_y },
                };
                proof {
                    lemma_tight_insert(
                        e.min_x as int,
                        e.min_y as int,
                        e.max_x as int,
                        e.max_y as int,
                        pts,
                        v.x as int,
                        v.y as int,
                    );
                    assert(n.min_x as int == min_int(e.min_x as int, v.x as int));
                }
                self.extent = Some(n);
            },
        }
    }

    /// Measures one advance step: every vertex of every batch whose opacity
    /// reaches [`VISIBLE_ALPHA`]; fainter batches are ignored.
    pub fn add_step(&mut self, batches: &Vec<Renderable>)
        requires
            old(self).wf(),
        ensures
            final(self).wf(),
            final(self).points() == old(self).points().union(visible_points(batches@)),
    {
        let ghost b = batches@;
        let ghost start = self.points@;
        let mut j: usize = 0;
        assert(start.union(seen_points(b, 0, 0)) =~= start);
        while j < batches.len()
            invariant
                self.wf(),
                0 <= j <= b.len(),
                b == batches@,
                self.points@ == start.union(seen_points(b, j as int, 0)),
            decreases batches.len() - j,
        {
            let r = &batches[j];
            if r.alpha >= VISIBLE_ALPHA {
                let mut k: usize = 0;
                while k < r.vertices.len()
                    invariant
                        self.wf(),
                        0 <= j < b.len(),
                        b == batches@,
                        *r == b[j as int],
                        is_visible(*r),
                        0 <= k <= r.vertices@.len(),
                        self.points@ == start.union(seen_points(b, j as int, k as int)),
                    decreases r.vertices.len() - k,
                {
                    let v = r.vertices[k];
                    self.add_point(v);
                    proof {
                        let s0 = seen_points(b, j as int, k as int);
                        let s1 = seen_points(b, j as int, k + 1);
                        let pv = (v.x as int, v.y as int);
                        assert(b[j as int].vertices@[k as int] == v);
                        assert(s1.contains(pv));
                        assert forall|p: (int, int)| s1.contains(p) implies #[trigger] s0.insert(pv).contains(p) by {
                            let (jj, kk) = choose|jj: int, kk: int|
                                #![trigger b[jj].vertices@[kk]]
                                0 <= jj < b.len() && is_visible(b[jj]) && 0 <= kk
                                    < b[jj].vertices@.len() && (jj < j || (jj == j && kk < k + 1))
                                    && b[jj].vertices@[kk].x == p.0 && b[jj].vertices@[kk].y
                                    == p.1;
                            if !(jj == j && kk == k) {
                                assert(s0.contains(p));
                            }
                        }
                        assert forall|p: (int, int)| #[trigger] s0.contains(p) implies s1.contains(p) by {
                            let (jj, kk) = choose|jj: int, kk: int|
                                #![trigger b[jj].vertices@[kk]]
                                0 <= jj < b.len() && is_visible(b[jj]) && 0 <= kk
                                    < b[jj].vertices@.len() && (jj < j || (jj == j && kk < k))
                                    && b[jj].vertices@[kk].x == p.0 && b[jj].vertices@[kk].y
                                    == p.1;
                            assert(b[jj].vertices@[kk].x == p.0);
                        }
                        assert(s1 =~= s0.insert(pv));
                        assert(self.points@ =~= start.union(s1));
                    }
                    k = k + 1;
                }
                proof {
                    lemma_next_batch(b, j as int, k as int);
                }
            } else {
                proof {
                    lemma_next_batch(b, j as int, 0);
                }
            }
            j = j + 1;
        }
    }

    /// The tight extent of the vertices measured so far, if any.
    pub fn extent(&self) -> (r: Option<Extent>)
        requires
            self.wf(),
        ensures
            extent_tight(r, self.points()),
    {
        self.extent
    }

    /// The bounding box of everything measured, or `NothingRendered` where it
    /// is empty or under one pixel wide or high.
    pub fn bounding_box(&self) -> (r: Result<BoundingBox, RenderError>)
        requires
            self.wf(),
        ensures
            r == spec_bounding_box(self.current()),
            extent_tight(self.current(), self.points()),
    {
        match self.extent {
            None => Err(RenderError::NothingRendered),
            Some(e) => {
                let w = e.max_x as i64 - e.min_x as i64;
                let h = e.max_y as i64 - e.min_y as i64;
                if w < SUBPIXELS || h < SUBPIXELS {
                    Err(RenderError::NothingRendered)
                } else {
                    Ok(BoundingBox { left: e.min_x as i64, top: e.min_y as i64, width: w, height: h })
                }
            },
        }
    }
}

/// Fully transparent geometry is never measured: a step in which no batch
/// reaches [`VISIBLE_ALPHA`] adds no point.
pub proof fn lemma_invisible_step_adds_nothing(b: Seq<Renderable>)
    requires
        forall|j: int| 0 <= j < b.len() ==> !is_visible(#[trigger] b[j]),
    ensures
        visible_points(b) == Set::<(int, int)>::empty(),
{
    assert forall|p: (int, int)| !#[trigger] visible_points(b).contains(p) by {
        if visible_points(b).contains(p) {
            let (jj, kk) = choose|jj: int, kk: int|
                #![trigger b[jj].vertices@[kk]]
                0 <= jj < b.len() && is_visible(b[jj]) && 0 <= kk < b[jj].vertices@.len() && (jj
                    < b.len() || (jj == b.len() && kk < 0)) && b[jj].vertices@[kk].x == p.0
                    && b[jj].vertices@[kk].y == p.1;
            assert(!is_visible(b[jj]));
        }
    }
    assert(visible_points(b) =~= Set::<(int, int)>::empty());
}

/// A replay that measured no visible vertex, such as one whose only content
/// is fully transparent, ends in `NothingRendered`.
pub proof fn lemma_nothing_visible_is_nothing_rendered(e: Option<Extent>)
    requires
        extent_tight(e, Set::<(int, int)>::empty()),
    ensures
        spec_bounding_box(e) == Err::<BoundingBox, RenderError>(RenderError::NothingRendered),
{
    if let Some(x) = e {
        let p = choose|p: (int, int)| #[trigger] Set::<(int, int)>::empty().contains(p) && p.0 == x.min_x as int;
        assert(Set::<(int, int)>::empty().contains(p));
    }
}

} // verus!
