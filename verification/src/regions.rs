//! The region state machine: one rectangle being drawn or completed, and
//! the ordered collection of regions with its selection.

use vstd::prelude::*;

use crate::color::Color;
use crate::color::spec_gray;
use crate::geometry::BoundLine;
use crate::geometry::Line;
use crate::image::Image;
use crate::image::Ratio;
use crate::image::is_extraction;

verus! {

/// The collision margin, in preview pixels, used when hit-testing a
/// region's outline. It roughly matches the rendered outline thickness.
pub const HIT_TEST_MARGIN: u32 = 4;

/// The lifecycle of a region: one corner fixed and the pointer still
/// moving, or both corners fixed with `x1 <= x2` and `y1 <= y2`.
#[derive(Clone, Copy, Debug, PartialEq, Eq, Structural)]
pub enum RegionState {
    Start { x1: u32, y1: u32 },
    Complete { x1: u32, y1: u32, x2: u32, y2: u32 },
}

/// A user-drawn rectangle with a lifecycle state and a color tag.
#[derive(Clone, Copy, Debug, PartialEq, Eq, Structural)]
pub struct Region {
    pub state: RegionState,
    pub color: Color,
}

/// An axis-aligned rectangle with normalized corners, the completed
/// region's geometry handed to the rendering side.
#[derive(Clone, Copy, Debug, PartialEq, Eq, Structural)]
pub struct Rect {
    pub x1: u32,
    pub y1: u32,
    pub x2: u32,
    pub y2: u32,
}

/// The region that `start(x1, y1)` creates: still drawing, tagged with the
/// default neutral gray.
pub open spec fn fresh_region(x1: u32, y1: u32) -> Region {
    Region { state: RegionState::Start { x1, y1 }, color: spec_gray() }
}

/// The state that finishing a region started at `(x1, y1)` with the second
/// corner `(x2, y2)` reaches: the x values swapped if `x1 > x2`, the y
/// values swapped if `y1 > y2`.
pub open spec fn completed_state(x1: u32, y1: u32, x2: u32, y2: u32) -> RegionState {
    RegionState::Complete {
        x1: if x1 > x2 { x2 } else { x1 },
        y1: if y1 > y2 { y2 } else { y1 },
        x2: if x1 > x2 { x1 } else { x2 },
        y2: if y1 > y2 { y1 } else { y2 },
    }
}

impl Region {
    /// A completed region's corners are normalized; a drawing region has
    /// nothing to normalize yet.
    pub open spec fn wf(self) -> bool {
        match self.state {
            RegionState::Start { .. } => true,
            RegionState::Complete { x1, y1, x2, y2 } => x1 <= x2 && y1 <= y2,
        }
    }

    /// The four thickened edges of a completed region, in the order top,
    /// bottom, left, right; empty while still drawing.
    pub open spec fn spec_blines(self, margin: u32) -> Seq<BoundLine> {
        match self.state {
            RegionState::Complete { x1, y1, x2, y2 } => seq![
                BoundLine { line: Line::Horizontal { y: y1, start_x: x1, end_x: x2 }, margin },
                BoundLine { line: Line::Horizontal { y: y2, start_x: x1, end_x: x2 }, margin },
                BoundLine { line: Line::Vertical { x: x1, start_y: y1, end_y: y2 }, margin },
                BoundLine { line: Line::Vertical { x: x2, start_y: y1, end_y: y2 }, margin },
            ],
            RegionState::Start { .. } => seq![],
        }
    }

    /// The point lies on the outline of this completed region: within the
    /// hit-test margin of at least one of its four edges.
    pub open spec fn spec_outline_hit(self, px: int, py: int) -> bool {
        exists|k: int|
            0 <= k < self.spec_blines(HIT_TEST_MARGIN).len()
                && (#[trigger] self.spec_blines(HIT_TEST_MARGIN)[k]).spec_collides(px, py)
    }

    /// The region is completed and the point hits its outline; exactly
    /// when `collides` returns `Some(true)`.
    pub open spec fn hit_by(self, px: int, py: int) -> bool {
        self.state is Complete && self.spec_outline_hit(px, py)
    }

    /// Construct a `Start` region at `(x1, y1)` with the default color.
    pub fn start(x1: u32, y1: u32) -> (r: Region)
        ensures
            r == fresh_region(x1, y1),
    {
        Region { state: RegionState::Start { x1, y1 }, color: Color::gray() }
    }

    /// Fix the second corner and transition to `Complete`, normalizing the
    /// corners. Finishing an already completed region is a caller protocol
    /// violation and is ruled out by the precondition. A zero-area region
    /// (both corners equal on an axis) is permitted; extracting it later
    /// yields an empty crop.
    pub fn finish(&mut self, x2: u32, y2: u32)
        requires
            old(self).state is Start,
        ensures
            old(self).state matches RegionState::Start { x1, y1 }
                ==> final(self).state == completed_state(x1, y1, x2, y2),
            final(self).color == old(self).color,
            final(self).wf(),
    {
        match self.state {
            RegionState::Start { x1, y1 } => {
                let nx1 = if x1 > x2 { x2 } else { x1 };
                let nx2 = if x1 > x2 { x1 } else { x2 };
                let ny1 = if y1 > y2 { y2 } else { y1 };
                let ny2 = if y1 > y2 { y1 } else { y2 };
                self.state = RegionState::Complete { x1: nx1, y1: ny1, x2: nx2, y2: ny2 };
            },
            RegionState::Complete { .. } => {
                proof {
                    assert(false);
                }
            },
        }
    }

    /// Overwrite the color tag; legal in any state.
    pub fn update_color(&mut self, color: Color)
        ensures
            final(self).state == old(self).state,
            final(self).color == color,
    {
        self.color = color;
    }

    /// The completed rectangle, or `None` while still drawing.
    pub fn path(&self) -> (r: Option<Rect>)
        ensures
            self.state matches RegionState::Complete { x1, y1, x2, y2 }
                ==> r == Some(Rect { x1, y1, x2, y2 }),
            self.state is Start ==> r is None,
    {
        match self.state {
            RegionState::Complete { x1, y1, x2, y2 } => Some(Rect { x1, y1, x2, y2 }),
            RegionState::Start { .. } => None,
        }
    }

    /// The four thickened edges of the completed rectangle, each carrying
    /// `margin`; `None` while still drawing.
    pub fn blines(&self, margin: u32) -> (r: Option<[BoundLine; 4]>)
        ensures
            self.state is Complete
                ==> (r matches Some(lines) && lines@ == self.spec_blines(margin)),
            self.state is Start ==> r is None,
    {
        match self.state {
            RegionState::Complete { x1, y1, x2, y2 } => {
                let lines = [
                    BoundLine::horizontal(y1, x1, x2, margin),
                    BoundLine::horizontal(y2, x1, x2, margin),
                    BoundLine::vertical(x1, y1, y2, margin),
                    BoundLine::vertical(x2, y1, y2, margin),
                ];
                proof {
                    assert(lines@ =~= self.spec_blines(margin));
                }
                Some(lines)
            },
            RegionState::Start { .. } => None,
        }
    }

    /// Hit-test the point against the region's outline only: `None` while
    /// drawing, otherwise whether any of the four edges is within the
    /// hit-test margin. The interior of the rectangle never collides.
    pub fn collides(&self, px: u32, py: u32) -> (r: Option<bool>)
        ensures
            self.state is Complete ==> r == Some(self.spec_outline_hit(px as int, py as int)),
            self.state is Start ==> r is None,
            r == Some(true) <==> self.hit_by(px as int, py as int),
    {
        match self.blines(HIT_TEST_MARGIN) {
            None => None,
            Some(lines) => {
                let hit = lines[0].collides(px, py) || lines[1].collides(px, py)
                    || lines[2].collides(px, py) || lines[3].collides(px, py);
                proof {
                    let bls = self.spec_blines(HIT_TEST_MARGIN);
                    if hit {
                        assert(self.spec_outline_hit(px as int, py as int)) by {
                            if lines@[0].spec_collides(px as int, py as int) {
                                assert(bls[0].spec_collides(px as int, py as int));
                            } else if lines@[1].spec_collides(px as int, py as int) {
                                assert(bls[1].spec_collides(px as int, py as int));
                            } else if lines@[2].spec_collides(px as int, py as int) {
                                assert(bls[2].spec_collides(px as int, py as int));
                            } else {
                                assert(bls[3].spec_collides(px as int, py as int));
                            }
                        }
                    } else {
                        assert forall|k: int| 0 <= k < bls.len()
                            implies !(#[trigger] bls[k]).spec_collides(px as int, py as int) by {
                            assert(bls[k] == lines@[k]);
                        }
                    }
                }
                Some(hit)
            },
        }
    }
}

/// An ordered, append-only collection of regions plus the index of the
/// currently selected region, if any. Creation order is z-order for
/// hit-testing and numbering for export.
pub struct Regions {
    regions: Vec<Region>,
    selected_region: Option<usize>,
}

impl Regions {
    /// The regions in creation order.
    pub closed spec fn regions_view(self) -> Seq<Region> {
        self.regions@
    }

    /// The index of the currently selected region, if any.
    pub closed spec fn selected_view(self) -> Option<int> {
        match self.selected_region {
            Some(i) => Some(i as int),
            None => None,
        }
    }

    /// A selected index always points into the collection. The collection
    /// never shrinks, so selection stays in bounds once established.
    pub open spec fn wf(self) -> bool {
        match self.selected_view() {
            Some(i) => 0 <= i < self.regions_view().len(),
            None => true,
        }
    }

    /// The collection is settled: empty, or the last region is completed.
    /// Only then is it safe to start a new region.
    pub open spec fn spec_is_finished(self) -> bool {
        seq_is_finished(self.regions_view())
    }

    /// An empty collection with nothing selected.
    pub fn new() -> (r: Regions)
        ensures
            r.regions_view() == Seq::<Region>::empty(),
            r.selected_view() is None,
            r.wf(),
            r.spec_is_finished(),
    {
        Regions { regions: Vec::new(), selected_region: None }
    }

    /// Append a new drawing region at `(x1, y1)`. The caller is
    /// responsible for only starting when the collection is settled; see
    /// `is_finished`.
    pub fn start(&mut self, x1: u32, y1: u32)
        requires
            old(self).wf(),
        ensures
            final(self).regions_view() == old(self).regions_view().push(fresh_region(x1, y1)),
            final(self).selected_view() == old(self).selected_view(),
            final(self).wf(),
            !final(self).spec_is_finished(),
    {
        self.regions.push(Region::start(x1, y1));
    }

    /// Complete the last region at `(x2, y2)`. Finishing an empty
    /// collection, or a collection whose last region is already completed,
    /// is a caller protocol violation and is ruled out by the
    /// precondition.
    pub fn finish(&mut self, x2: u32, y2: u32)
        requires
            old(self).wf(),
            old(self).regions_view().len() > 0,
            old(self).regions_view().last().state is Start,
        ensures
            old(self).regions_view().last().state matches RegionState::Start { x1, y1 }
                ==> final(self).regions_view() == old(self).regions_view().update(
                    old(self).regions_view().len() - 1,
                    (Region {
                        state: completed_state(x1, y1, x2, y2),
                        color: old(self).regions_view().last().color,
                    }),
                ),
            final(self).selected_view() == old(self).selected_view(),
            final(self).wf(),
            final(self).spec_is_finished(),
    {
        let idx = self.regions.len() - 1;
        let mut last = self.regions[idx];
        last.finish(x2, y2);
        self.regions[idx] = last;
    }

    /// Whether the collection is settled: true if empty or if the last
    /// region is completed. Callers use this to decide whether the next
    /// click starts a new rectangle or completes the current one.
    pub fn is_finished(&self) -> (r: bool)
        ensures
            r == self.spec_is_finished(),
    {
        if self.regions.len() == 0 {
            true
        } else {
            match self.regions[self.regions.len() - 1].state {
                RegionState::Complete { .. } => true,
                RegionState::Start { .. } => false,
            }
        }
    }

    /// Scan the regions in creation order and select the first whose
    /// outline the point hits; first-match-wins, not topmost-wins. Returns
    /// whether any was found; no match leaves the selection unchanged.
    pub fn select_collided_region(&mut self, px: u32, py: u32) -> (found: bool)
        requires
            old(self).wf(),
        ensures
            final(self).regions_view() == old(self).regions_view(),
            final(self).wf(),
            found == (exists|i: int|
                0 <= i < old(self).regions_view().len()
                    && (#[trigger] old(self).regions_view()[i]).hit_by(px as int, py as int)),
            found ==> (final(self).selected_view() matches Some(i)
                && 0 <= i < old(self).regions_view().len()
                && old(self).regions_view()[i].hit_by(px as int, py as int)
                && (forall|k: int|
                    0 <= k < i
                        ==> !(#[trigger] old(self).regions_view()[k]).hit_by(
                            px as int,
                            py as int,
                        ))),
            !found ==> final(self).selected_view() == old(self).selected_view(),
    {
        let ghost orig = *self;
        let mut idx: usize = 0;
        while idx < self.regions.len()
            invariant
                *self == orig,
                orig == *old(self),
                orig.wf(),
                idx <= orig.regions_view().len(),
                forall|k: int|
                    0 <= k < idx ==> !(#[trigger] orig.regions_view()[k]).hit_by(
                        px as int,
                        py as int,
                    ),
            decreases self.regions.len() - idx,
        {
            let hit = self.regions[idx].collides(px, py);
            match hit {
                Some(true) => {
                    proof {
                        assert(orig.regions_view()[idx as int].hit_by(px as int, py as int));
                    }
                    self.selected_region = Some(idx);
                    return true;
                },
                _ => {},
            }
            idx = idx + 1;
        }
        false
    }

    /// Overwrite the selected region's color tag; a no-op when nothing is
    /// selected.
    pub fn update_selected_color(&mut self, color: Color)
        requires
            old(self).wf(),
        ensures
            final(self).selected_view() == old(self).selected_view(),
            final(self).wf(),
            match old(self).selected_view() {
                Some(i) => final(self).regions_view() == old(self).regions_view().update(
                    i,
                    (Region { state: old(self).regions_view()[i].state, color }),
                ),
                None => final(self).regions_view() == old(self).regions_view(),
            },
    {
        match self.selected_region {
            Some(idx) => {
                let mut r = self.regions[idx];
                r.update_color(color);
                self.regions[idx] = r;
            },
            None => {},
        }
    }

    /// Clear the selection. Deselecting when nothing is selected is a
    /// caller protocol violation and is ruled out by the precondition; in
    /// particular a second deselect in a row is rejected.
    pub fn deselect(&mut self)
        requires
            old(self).selected_view() is Some,
        ensures
            final(self).regions_view() == old(self).regions_view(),
            final(self).selected_view() is None,
            final(self).wf(),
    {
        self.selected_region = None;
    }

    /// Extract every region from the source image, in creation order,
    /// numbering the crops from zero. A region still being drawn at
    /// export time must not be extracted, so all regions are required to
    /// be completed.
    pub fn get_image_crops(&self, ratio: Ratio, original_image: &Image) -> (r: Vec<Image>)
        requires
            ratio.wf(),
            original_image.wf(),
            self.regions_view().len() <= u32::MAX,
            forall|i: int|
                0 <= i < self.regions_view().len()
                    ==> (#[trigger] self.regions_view()[i]).state is Complete,
            forall|i: int|
                0 <= i < self.regions_view().len() ==> (#[trigger] self.regions_view()[i]).wf(),
        ensures
            r@.len() == self.regions_view().len(),
            forall|i: int| 0 <= i < r@.len() ==> (#[trigger] r@[i]).wf(),
            forall|i: int|
                0 <= i < r@.len() ==> is_extraction(
                    *original_image,
                    i as nat,
                    ratio,
                    self.regions_view()[i],
                    #[trigger] r@[i],
                ),
    {
        let mut res: Vec<Image> = Vec::new();
        let mut c: usize = 0;
        while c < self.regions.len()
            invariant
                ratio.wf(),
                original_image.wf(),
                self.regions_view().len() <= u32::MAX,
                forall|i: int|
                    0 <= i < self.regions_view().len()
                        ==> (#[trigger] self.regions_view()[i]).state is Complete,
                forall|i: int|
                    0 <= i < self.regions_view().len()
                        ==> (#[trigger] self.regions_view()[i]).wf(),
                c <= self.regions_view().len(),
                res@.len() == c,
                forall|i: int| 0 <= i < res@.len() ==> (#[trigger] res@[i]).wf(),
                forall|i: int|
                    0 <= i < res@.len() ==> is_extraction(
                        *original_image,
                        i as nat,
                        ratio,
                        self.regions_view()[i],
                        #[trigger] res@[i],
                    ),
            decreases self.regions_view().len() - c,
        {
            res.push(original_image.extract_region(c as u32, ratio, self.regions[c]));
            c = c + 1;
        }
        res
    }

    /// A read-only view of all regions, in creation order, for the
    /// rendering side.
    pub fn all_regions(&self) -> (r: &Vec<Region>)
        ensures
            r@ == self.regions_view(),
    {
        &self.regions
    }
}

/// A sequence of regions is settled when it is empty or its last region is
/// completed.
pub open spec fn seq_is_finished(s: Seq<Region>) -> bool {
    s.len() == 0 || s.last().state is Complete
}

/// Settledness across the drawing cycle: a fresh collection is settled;
/// starting a region unsettles any collection; completing the last region
/// settles it again.
pub proof fn lemma_settledness(s: Seq<Region>, x1: u32, y1: u32, x2: u32, y2: u32)
    ensures
        seq_is_finished(Seq::<Region>::empty()),
        !seq_is_finished(s.push(fresh_region(x1, y1))),
        s.len() > 0 ==> seq_is_finished(
            s.update(s.len() - 1, (Region { state: completed_state(x1, y1, x2, y2), color: s.last().color })),
        ),
{
}

/// Normalization: finishing a region started at `(x1, y1)` with second
/// corner `(x2, y2)` stores corners with `x1 <= x2` and `y1 <= y2`, and
/// the stored pair of x values is `{x1, x2}` as an unordered pair, the
/// stored pair of y values `{y1, y2}`.
pub proof fn lemma_finish_normalizes(x1: u32, y1: u32, x2: u32, y2: u32)
    ensures
        completed_state(x1, y1, x2, y2) matches RegionState::Complete {
            x1: sx1,
            y1: sy1,
            x2: sx2,
            y2: sy2,
        } && sx1 <= sx2 && sy1 <= sy2
            && ((sx1 == x1 && sx2 == x2) || (sx1 == x2 && sx2 == x1))
            && ((sy1 == y1 && sy2 == y2) || (sy1 == y2 && sy2 == y1)),
{
}

/// Hit-testing touches only the outline: a point strictly further than the
/// hit-test margin inside a completed region's corners collides with none
/// of its edges.
pub proof fn lemma_interior_point_misses(r: Region, px: int, py: int)
    requires
        r.state matches RegionState::Complete { x1, y1, x2, y2 }
            && x1 + HIT_TEST_MARGIN < px < x2 - HIT_TEST_MARGIN
            && y1 + HIT_TEST_MARGIN < py < y2 - HIT_TEST_MARGIN,
    ensures
        !r.hit_by(px, py),
{
    let bls = r.spec_blines(HIT_TEST_MARGIN);
    assert forall|k: int| 0 <= k < bls.len()
        implies !(#[trigger] bls[k]).spec_collides(px, py) by {
    }
}

/// The deselect guard: deselecting leaves nothing selected, and the
/// precondition of `deselect` rejects exactly that state, so a second
/// deselect without an intervening selection is refused.
pub proof fn lemma_deselect_guard(r: Regions)
    requires
        r.selected_view() is None,
    ensures
        !(r.selected_view() is Some),
{
}

} // verus!
