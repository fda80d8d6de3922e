//! Following a transparent shape over a moving background.
//!
//! Positions and velocities are computed outside, in whatever type `P` holds a position there. Here
//! stands what is remembered from one frame to the next and what is made of each answer.

use vstd::prelude::*;

use crate::geometry::{fits, Point, Rect};

verus! {

/// How many frames in a row the position may be guessed.
pub const MAX_MISS: u32 = 20;

pub const MIN_BLOB_AREA: i32 = 6;

pub const MAX_BLOB_AREA: i32 = 4000;

/// A connected piece of what moves against the background.
#[derive(Debug, Clone, Copy, PartialEq, Eq, Structural)]
pub struct Blob {
    pub area: i32,
    /// Whether its centroid lies near the anchor; without an anchor every blob does.
    pub near_anchor: bool,
}

impl Blob {
    /// Neither noise nor too large, and near where the shape is expected.
    pub open spec fn eligible(self) -> bool {
        MIN_BLOB_AREA <= self.area <= MAX_BLOB_AREA && self.near_anchor
    }
}

/// The blob at `best` is eligible, none is larger, and those before it are smaller.
pub open spec fn is_best(blobs: Seq<Blob>, best: int) -> bool {
    &&& 0 <= best < blobs.len()
    &&& blobs[best].eligible()
    &&& forall|i: int|
        0 <= i < blobs.len() && (#[trigger] blobs[i]).eligible() ==> blobs[i].area
            <= blobs[best].area
    &&& forall|i: int|
        0 <= i < best && (#[trigger] blobs[i]).eligible() ==> blobs[i].area < blobs[best].area
}

/// No blob is eligible.
pub open spec fn none_eligible(blobs: Seq<Blob>) -> bool {
    forall|i: int| 0 <= i < blobs.len() ==> !(#[trigger] blobs[i]).eligible()
}

/// Chooses the blob that is the shape itself: the largest eligible one, the first of several.
pub fn best_blob(blobs: &Vec<Blob>) -> (best: Option<usize>)
    ensures
        match best {
            Some(best) => is_best(blobs@, best as int),
            None => none_eligible(blobs@),
        },
{
    let mut best: Option<usize> = None;
    let mut best_area: i32 = 0;
    let mut i: usize = 0;
    while i < blobs.len()
        invariant
            i <= blobs.len(),
            match best {
                Some(b) => {
                    &&& b < i
                    &&& is_best(blobs@.take(i as int), b as int)
                    &&& best_area == blobs[b as int].area
                },
                None => best_area == 0 && forall|k: int|
                    0 <= k < i ==> !(#[trigger] blobs[k]).eligible(),
            },
        decreases blobs.len() - i,
    {
        let blob = blobs[i];
        let ghost seen = blobs@.take(i as int);
        let ghost now = blobs@.take(i + 1);
        proof {
            assert forall|k: int| 0 <= k < i implies #[trigger] now[k] == seen[k] by {}
        }
        if MIN_BLOB_AREA <= blob.area && blob.area <= MAX_BLOB_AREA && blob.near_anchor && blob.area
            > best_area {
            best_area = blob.area;
            best = Some(i);
            proof {
                assert forall|k: int| 0 <= k < i && (#[trigger] now[k]).eligible() implies now[k].area
                    < blob.area by {
                    assert(now[k] == blobs[k]);
                    assert(now[k] == seen[k]);
                }
                assert(now[i as int] == blob);
                assert(is_best(now, i as int));
            }
        } else {
            proof {
                if let Some(b) = best {
                    assert(now[b as int] == seen[b as int]);
                    assert(now[i as int] == blob);
                    assert(is_best(now, b as int));
                }
            }
        }
        i += 1;
    }
    assert(blobs@.take(i as int) =~= blobs@);
    best
}

/// Where the shape is expected.
#[derive(Debug)]
pub enum Anchor<P> {
    /// As far from `from` as the shape moves in one frame.
    Predicted { from: P, by: P },
    /// At the mouse cursor, while the shape itself was not seen yet.
    Cursor(P),
    Unknown,
}

/// What was computed for one frame.
#[derive(Debug)]
pub struct ShapeFrame<P> {
    /// The mouse cursor, where it shows.
    pub cursor: Option<P>,
    /// The shape, where it was found, pulled back into reach of the anchor.
    pub target: Option<P>,
    /// The velocity blended with the last step, for a target that follows another.
    pub velocity: P,
    /// The position to go on from where there is no target.
    pub reckoned: P,
    /// The position to send the mouse to, in whole pixels of the region.
    pub local: Point,
}

/// The position `local` of the region on the screen, where it lies in the region.
pub open spec fn in_region(local: Point, region: Rect) -> Option<Point> {
    if region.covers(region.x + local.x, region.y + local.y) {
        Some(Point { x: (region.x + local.x) as i32, y: (region.y + local.y) as i32 })
    } else {
        None
    }
}

/// What is remembered of the shape.
#[derive(Debug)]
pub struct TransparentShapeSolver<P> {
    /// Columns and rows of the previous frame.
    pub prev_size: Option<(i32, i32)>,
    pub last_cursor: Option<P>,
    pub last_target: Option<P>,
    pub velocity: P,
    /// Frames in a row without a target.
    pub miss_count: u32,
}

impl<P: Copy> TransparentShapeSolver<P> {
    /// A solver that has seen nothing; `still` is the velocity of what does not move.
    pub fn new(still: P) -> (solver: TransparentShapeSolver<P>)
        ensures
            solver == (TransparentShapeSolver {
                prev_size: None,
                last_cursor: None,
                last_target: None,
                velocity: still,
                miss_count: 0,
            }),
    {
        TransparentShapeSolver {
            prev_size: None,
            last_cursor: None,
            last_target: None,
            velocity: still,
            miss_count: 0,
        }
    }

    /// The cursor as last seen, given what the current frame shows of it.
    pub open spec fn cursor_after(self, cursor: Option<P>) -> Option<P> {
        match cursor {
            Some(_) => cursor,
            None => self.last_cursor,
        }
    }

    /// Where the shape is expected on a frame that shows the mouse at `cursor`.
    pub open spec fn spec_anchor(self, cursor: Option<P>) -> Anchor<P> {
        match (self.last_target, self.cursor_after(cursor)) {
            (Some(from), _) => Anchor::Predicted { from, by: self.velocity },
            (None, Some(at)) => Anchor::Cursor(at),
            (None, None) => Anchor::Unknown,
        }
    }

    /// Tells where the shape is expected on a frame that shows the mouse at `cursor`.
    pub fn anchor(&self, cursor: Option<P>) -> (anchor: Anchor<P>)
        ensures
            anchor == self.spec_anchor(cursor),
    {
        match self.last_target {
            Some(from) => Anchor::Predicted { from, by: self.velocity },
            None => match cursor {
                Some(at) => Anchor::Cursor(at),
                None => match self.last_cursor {
                    Some(at) => Anchor::Cursor(at),
                    None => Anchor::Unknown,
                },
            },
        }
    }

    /// Takes in the size of a frame and tells whether it can be compared with the previous one.
    pub fn next_frame(&mut self, size: (i32, i32)) -> (comparable: bool)
        ensures
            comparable == (old(self).prev_size == Some(size)),
            *final(self) == (TransparentShapeSolver { prev_size: Some(size), ..*old(self) }),
    {
        let comparable = match self.prev_size {
            Some(prev) => prev.0 == size.0 && prev.1 == size.1,
            None => false,
        };
        self.prev_size = Some(size);
        comparable
    }

    /// Where the position is reckoned from without a target.
    pub open spec fn base(self, cursor: Option<P>) -> Option<P> {
        match self.last_target {
            Some(_) => self.last_target,
            None => self.cursor_after(cursor),
        }
    }

    /// Whether the frame gives a position at all: one that was measured, or a guess while not too
    /// many were made in a row.
    pub open spec fn follows(self, frame: ShapeFrame<P>) -> bool {
        frame.target is Some || self.base(frame.cursor) is Some && self.miss_count < MAX_MISS
    }

    /// Where the mouse is sent: to the position computed for the frame, where there is one and it
    /// lies in the region.
    pub open spec fn answer(self, frame: ShapeFrame<P>, region: Rect) -> Option<Point> {
        if self.follows(frame) {
            in_region(frame.local, region)
        } else {
            None
        }
    }

    /// What is remembered after the frame.
    pub open spec fn after(self, frame: ShapeFrame<P>) -> TransparentShapeSolver<P> {
        let seen = TransparentShapeSolver {
            last_cursor: self.cursor_after(frame.cursor),
            ..self
        };
        match frame.target {
            Some(target) => TransparentShapeSolver {
                velocity: if self.last_target is Some {
                    frame.velocity
                } else {
                    self.velocity
                },
                last_target: Some(target),
                miss_count: 0,
                ..seen
            },
            None => if self.base(frame.cursor) is None {
                seen
            } else if self.miss_count < MAX_MISS {
                TransparentShapeSolver {
                    last_target: Some(frame.reckoned),
                    miss_count: (self.miss_count + 1) as u32,
                    ..seen
                }
            } else {
                TransparentShapeSolver { miss_count: (self.miss_count + 1) as u32, ..seen }
            },
        }
    }

    /// Takes in one frame and tells where to send the mouse: to the position computed for it, where
    /// there is one and it lies in the region.
    pub fn solve(&mut self, frame: ShapeFrame<P>, region: Rect) -> (cursor: Option<Point>)
        requires
            old(self).miss_count < u32::MAX,
            region.has_edges(),
            old(self).follows(frame) ==> fits(region.x + frame.local.x) && fits(
                region.y + frame.local.y,
            ),
        ensures
            *final(self) == old(self).after(frame),
            cursor == old(self).answer(frame, region),
    {
        if frame.cursor.is_some() {
            self.last_cursor = frame.cursor;
        }
        match frame.target {
            Some(target) => {
                if self.last_target.is_some() {
                    self.velocity = frame.velocity;
                }
                self.last_target = Some(target);
                self.miss_count = 0;
            },
            None => {
                if self.last_target.is_none() && self.last_cursor.is_none() {
                    return None;
                }
                self.miss_count = self.miss_count + 1;
                if self.miss_count > MAX_MISS {
                    return None;
                }
                self.last_target = Some(frame.reckoned);
            },
        }
        let absolute = region.tl().offset(frame.local);
        if !region.contains(absolute) {
            return None;
        }
        Some(absolute)
    }
}

/// A measured position forgets all misses.
pub proof fn law_hit_forgets_misses<P: Copy>(
    solver: TransparentShapeSolver<P>,
    frame: ShapeFrame<P>,
)
    requires
        frame.target is Some,
    ensures
        solver.follows(frame),
        solver.after(frame).miss_count == 0,
        solver.after(frame).last_target == frame.target,
{
}

/// Once the position was guessed for [`MAX_MISS`] frames in a row it is given up, and stays so until
/// the shape is found again.
pub proof fn law_guessing_ends<P: Copy>(
    solver: TransparentShapeSolver<P>,
    first: ShapeFrame<P>,
    second: ShapeFrame<P>,
)
    requires
        solver.miss_count < u32::MAX,
        first.target is None,
        second.target is None,
    ensures
        solver.miss_count >= MAX_MISS ==> {
            &&& !solver.follows(first)
            &&& !solver.after(first).follows(second)
            &&& solver.after(first).last_target == solver.last_target
        },
        solver.base(first.cursor) is Some ==> solver.after(first).miss_count == solver.miss_count
            + 1,
{
}

/// Where the shape was once found, it is expected from its own position on, never at the mouse.
pub proof fn law_target_is_never_forgotten<P: Copy>(
    solver: TransparentShapeSolver<P>,
    frame: ShapeFrame<P>,
    cursor: Option<P>,
)
    requires
        solver.last_target is Some,
    ensures
        solver.after(frame).last_target is Some,
        solver.after(frame).spec_anchor(cursor) is Predicted,
{
}

/// No frame holds a target.
pub open spec fn all_missed<P>(frames: Seq<ShapeFrame<P>>) -> bool {
    forall|i: int| 0 <= i < frames.len() ==> (#[trigger] frames[i]).target is None
}

/// What is remembered after one frame after the other.
pub open spec fn after_all<P: Copy>(
    solver: TransparentShapeSolver<P>,
    frames: Seq<ShapeFrame<P>>,
) -> TransparentShapeSolver<P>
    decreases frames.len(),
{
    if frames.len() == 0 {
        solver
    } else {
        after_all(solver, frames.drop_last()).after(frames.last())
    }
}

/// The position that is reckoned `k` times from `from` at an unchanged velocity.
pub open spec fn reckoned_from<P>(
    reckon: spec_fn(P, P) -> P,
    from: P,
    velocity: P,
    k: nat,
) -> P
    decreases k,
{
    if k == 0 {
        from
    } else {
        reckon(reckoned_from(reckon, from, velocity, (k - 1) as nat), velocity)
    }
}

/// Each frame's reckoned position goes on from what was remembered before it, and without a target
/// the mouse is sent there, rounded.
pub open spec fn reckons<P: Copy>(
    solver: TransparentShapeSolver<P>,
    frames: Seq<ShapeFrame<P>>,
    reckon: spec_fn(P, P) -> P,
    round: spec_fn(P) -> Point,
) -> bool {
    forall|i: int|
        0 <= i < frames.len() ==> {
            let before = after_all(solver, #[trigger] frames.take(i));
            &&& before.last_target matches Some(last) ==> frames[i].reckoned == reckon(
                last,
                before.velocity,
            )
            &&& frames[i].target is None ==> frames[i].local == round(frames[i].reckoned)
        }
}

/// After the shape was found at `target`, the mouse is sent after it for the first [`MAX_MISS`]
/// frames without it in a row, on the `k`-th of them to the position reckoned `k` times, and not sent
/// anywhere on those after them. The velocity stays as it was.
pub proof fn law_misses_in_a_row<P: Copy>(
    solver: TransparentShapeSolver<P>,
    frames: Seq<ShapeFrame<P>>,
    reckon: spec_fn(P, P) -> P,
    round: spec_fn(P) -> Point,
    target: P,
    region: Rect,
)
    requires
        solver.last_target == Some(target),
        solver.miss_count == 0,
        0 < frames.len() <= u32::MAX,
        all_missed(frames),
        reckons(solver, frames, reckon, round),
    ensures
        ({
            let k = frames.len();
            let after = after_all(solver, frames);
            let answer = after_all(solver, frames.drop_last()).answer(frames.last(), region);
            let followed = if k <= MAX_MISS {
                k
            } else {
                MAX_MISS as nat
            };
            let reached = reckoned_from(reckon, target, solver.velocity, followed);
            &&& k <= MAX_MISS ==> answer == in_region(round(reached), region)
            &&& k > MAX_MISS ==> answer is None
            &&& after.miss_count == k
            &&& after.velocity == solver.velocity
            &&& after.last_target == Some(reached)
        }),
    decreases frames.len(),
{
    let init = frames.drop_last();
    let k = frames.len();
    assert(frames[k - 1].target is None);
    assert(frames.take(k - 1) =~= init);
    if init.len() == 0 {
        assert(after_all(solver, init) == solver);
        assert(reckoned_from(reckon, target, solver.velocity, 0) == target);
    } else {
        assert forall|i: int| 0 <= i < init.len() implies (#[trigger] init[i]).target is None by {
            assert(frames[i].target is None);
        }
        assert forall|i: int| 0 <= i < init.len() implies ({
            let before = after_all(solver, #[trigger] init.take(i));
            &&& before.last_target matches Some(last) ==> init[i].reckoned == reckon(
                last,
                before.velocity,
            )
            &&& init[i].target is None ==> init[i].local == round(init[i].reckoned)
        }) by {
            assert(init.take(i) =~= frames.take(i));
        }
        law_misses_in_a_row(solver, init, reckon, round, target, region);
    }
}

/// How many steps at the last velocity the shape is taken to have moved on a frame without it.
pub open spec fn dead_reckon_gain() -> real {
    3 as real / 2 as real
}

/// The position one frame after `position`, reckoned in exact numbers.
pub open spec fn dead_reckoned(position: (real, real), velocity: (real, real)) -> (real, real) {
    (
        position.0 + velocity.0 * dead_reckon_gain(),
        position.1 + velocity.1 * dead_reckon_gain(),
    )
}

/// The position `k` frames after `position`, in exact numbers.
pub open spec fn dead_reckoned_by(
    position: (real, real),
    velocity: (real, real),
    k: nat,
) -> (real, real) {
    (
        position.0 + velocity.0 * dead_reckon_gain() * (k as real),
        position.1 + velocity.1 * dead_reckon_gain() * (k as real),
    )
}

/// The nearest whole number, away from zero where two are equally near.
pub open spec fn rounded(x: real) -> int {
    let half = 1 as real / 2 as real;
    if x >= 0 as real {
        (x + half).floor()
    } else {
        -((half - x).floor())
    }
}

/// The nearest pixel.
pub open spec fn pixel(position: (real, real)) -> Point {
    Point { x: rounded(position.0) as i32, y: rounded(position.1) as i32 }
}

proof fn lemma_one_more_step(step: real, k: nat)
    requires
        k > 0,
    ensures
        step * (k as real) == step * ((k - 1) as real) + step,
{
    assert(step * (k as real) == step * ((k - 1) as real) + step) by (nonlinear_arith)
        requires
            k as real == (k - 1) as real + 1 as real,
    ;
}

/// Reckoning frame by frame comes out where all steps at once lead.
pub proof fn law_reckoning_is_linear(target: (real, real), velocity: (real, real), k: nat)
    ensures
        reckoned_from(
            |position: (real, real), by: (real, real)| dead_reckoned(position, by),
            target,
            velocity,
            k,
        ) == dead_reckoned_by(target, velocity, k),
    decreases k,
{
    if k == 0 {
        assert(velocity.0 * dead_reckon_gain() * (0 as real) == 0 as real) by (nonlinear_arith);
        assert(velocity.1 * dead_reckon_gain() * (0 as real) == 0 as real) by (nonlinear_arith);
    } else {
        law_reckoning_is_linear(target, velocity, (k - 1) as nat);
        lemma_one_more_step(velocity.0 * dead_reckon_gain(), k);
        lemma_one_more_step(velocity.1 * dead_reckon_gain(), k);
    }
}

/// With positions in exact numbers: on the `k`-th frame in a row without the shape the mouse is sent
/// to the pixel nearest to `target` and one and a half times `k` times the velocity, where that lies
/// in the region, up to [`MAX_MISS`] frames, and not sent anywhere after them.
pub proof fn law_exact_positions_of_misses(
    solver: TransparentShapeSolver<(real, real)>,
    frames: Seq<ShapeFrame<(real, real)>>,
    target: (real, real),
    region: Rect,
)
    requires
        solver.last_target == Some(target),
        solver.miss_count == 0,
        0 < frames.len() <= u32::MAX,
        all_missed(frames),
        reckons(
            solver,
            frames,
            |position: (real, real), by: (real, real)| dead_reckoned(position, by),
            |position: (real, real)| pixel(position),
        ),
    ensures
        ({
            let k = frames.len();
            let answer = after_all(solver, frames.drop_last()).answer(frames.last(), region);
            &&& k <= MAX_MISS ==> answer == in_region(
                pixel(dead_reckoned_by(target, solver.velocity, k)),
                region,
            )
            &&& k > MAX_MISS ==> answer is None
            &&& after_all(solver, frames).velocity == solver.velocity
        }),
{
    let reckon = |position: (real, real), by: (real, real)| dead_reckoned(position, by);
    let round = |position: (real, real)| pixel(position);
    law_misses_in_a_row(solver, frames, reckon, round, target, region);
    law_reckoning_is_linear(target, solver.velocity, frames.len());
}

/// A shape that was found is remembered where it was found, with the velocity of its last step where
/// it was known before; without it the position is reckoned for twenty frames in a row, given up after
/// them, and not guessed at all where nothing was ever seen. The mouse is sent where the position lies
/// in the region.
pub proof fn law_frame_is_taken_in<P: Copy>(
    solver: &mut TransparentShapeSolver<P>,
    frame: ShapeFrame<P>,
    region: Rect,
    cursor: Option<Point>,
)
    requires
        call_ensures(TransparentShapeSolver::<P>::solve, (solver, frame, region), cursor),
        old(solver).miss_count < u32::MAX,
        fits(region.x + frame.local.x) && fits(region.y + frame.local.y),
    ensures
        ({
            let found = frame.target is Some;
            let known = old(solver).last_target is Some || frame.cursor is Some || old(
                solver,
            ).last_cursor is Some;
            let guessed = !found && known && old(solver).miss_count < 20;
            let inside = 0 <= frame.local.x < region.width && 0 <= frame.local.y < region.height;
            &&& final(solver).prev_size == old(solver).prev_size
            &&& frame.cursor is Some ==> final(solver).last_cursor == frame.cursor
            &&& frame.cursor is None ==> final(solver).last_cursor == old(solver).last_cursor
            &&& found ==> final(solver).last_target == frame.target && final(solver).miss_count == 0
            &&& found && old(solver).last_target is Some ==> final(solver).velocity
                == frame.velocity
            &&& !found || old(solver).last_target is None ==> final(solver).velocity == old(
                solver,
            ).velocity
            &&& !found && known ==> final(solver).miss_count == old(solver).miss_count + 1
            &&& !found && !known ==> final(solver).miss_count == old(solver).miss_count
            &&& guessed ==> final(solver).last_target == Some(frame.reckoned)
            &&& !found && !guessed ==> final(solver).last_target == old(solver).last_target
            &&& cursor is Some <==> (found || guessed) && inside
            &&& cursor matches Some(point) ==> point.x - region.x == frame.local.x && point.y
                - region.y == frame.local.y
        }),
{
}

/// The shape is expected one step of its velocity from where it last was; before it was ever seen at
/// the mouse, which the current frame shows or an earlier one did.
pub proof fn law_anchor<P: Copy>(
    solver: &TransparentShapeSolver<P>,
    cursor: Option<P>,
    anchor: Anchor<P>,
)
    requires
        call_ensures(TransparentShapeSolver::<P>::anchor, (solver, cursor), anchor),
    ensures
        solver.last_target matches Some(from) ==> anchor == (Anchor::Predicted {
            from,
            by: solver.velocity,
        }),
        solver.last_target is None && cursor is Some ==> anchor == Anchor::Cursor(cursor->Some_0),
        solver.last_target is None && cursor is None && solver.last_cursor is Some ==> anchor
            == Anchor::Cursor(solver.last_cursor->Some_0),
        solver.last_target is None && cursor is None && solver.last_cursor is None ==> anchor
            is Unknown,
{
}

/// A frame can be compared with the previous one where there is one of the same size, and is the
/// previous one from then on.
pub proof fn law_next_frame<P: Copy>(
    solver: &mut TransparentShapeSolver<P>,
    size: (i32, i32),
    comparable: bool,
)
    requires
        call_ensures(TransparentShapeSolver::<P>::next_frame, (solver, size), comparable),
    ensures
        comparable <==> (old(solver).prev_size matches Some(prev) && prev.0 == size.0 && prev.1
            == size.1),
        final(solver).prev_size == Some(size),
        final(solver).last_target == old(solver).last_target,
        final(solver).last_cursor == old(solver).last_cursor,
        final(solver).velocity == old(solver).velocity,
        final(solver).miss_count == old(solver).miss_count,
{
}

/// A new solver has seen nothing.
pub proof fn law_new_solver<P: Copy>(still: P, solver: TransparentShapeSolver<P>)
    requires
        call_ensures(TransparentShapeSolver::<P>::new, (still,), solver),
    ensures
        solver.prev_size is None && solver.last_cursor is None && solver.last_target is None,
        solver.velocity == still,
        solver.miss_count == 0,
{
}

/// The blob that is taken for the shape is near the anchor, of six to four thousand pixels, and no
/// other such blob is larger, nor as large and before it. Where none is taken there is no such blob.
pub proof fn law_best_blob(blobs: &Vec<Blob>, best: Option<usize>, i: int)
    requires
        call_ensures(best_blob, (blobs,), best),
        0 <= i < blobs.len(),
    ensures
        ({
            let fits = blobs[i].near_anchor && 6 <= blobs[i].area <= 4000;
            &&& best is None ==> !fits
            &&& best matches Some(best) ==> {
                &&& best < blobs.len()
                &&& blobs[best as int].near_anchor
                &&& 6 <= blobs[best as int].area <= 4000
                &&& fits ==> blobs[i].area <= blobs[best as int].area
                &&& fits && i < best ==> blobs[i].area < blobs[best as int].area
            }
        }),
{
    assert(blobs@[i].eligible() == (blobs[i].near_anchor && 6 <= blobs[i].area <= 4000));
    match best {
        Some(best) => {
            assert(is_best(blobs@, best as int));
            assert(blobs@[best as int].eligible());
        },
        None => {
            assert(none_eligible(blobs@));
        },
    }
}

} // verus!
