//! Following the mushroom that hides Violetta until the shuffling stops.
//!
//! Four mushrooms trade places. A tracker outside assigns boxes to track ids; this module keeps each
//! mushroom on its track, also when ids get lost, and tells which number to click in the end.

use vstd::prelude::*;

use crate::geometry::{abs_diff, distance, fits, half, half_of, law_meets, Point, Rect};

verus! {

pub const MUSHROOM_COUNT: usize = 4;

/// Where something moves horizontally.
#[derive(Debug, Clone, Copy, PartialEq, Eq, Structural)]
pub enum Direction {
    Left,
    Right,
    Neither,
}

/// One box that the tracker follows.
#[derive(Debug, Clone, Copy, PartialEq, Eq, Structural)]
pub struct Track {
    pub track_id: u64,
    /// The detected box.
    pub rect: Rect,
    /// The box that the motion model predicts.
    pub kalman_rect: Rect,
    /// Where the predicted velocity points.
    pub direction: Direction,
    /// The smallest whole number of pixels that is not below the width of the predicted box plus two
    /// and a half times the horizontal velocity.
    pub reach: i64,
}

/// One mushroom, as last seen.
#[derive(Debug, Clone, Copy, PartialEq, Eq, Structural)]
pub struct Mushroom {
    pub last_track_id: u64,
    pub last_kalman_rect: Rect,
    pub last_reach: i64,
    pub last_direction: Direction,
    pub last_candidate_direction: Direction,
    pub last_candidate_direction_count: u32,
    pub is_violetta: bool,
}

impl Mushroom {
    /// The mushroom after it was seen on `track`: it takes over the box and the reach, and a
    /// direction once it was seen twice in a row.
    pub open spec fn seen_on(self, track: Track) -> Mushroom {
        let count = if self.last_candidate_direction == track.direction {
            self.last_candidate_direction_count + 1
        } else {
            0
        };
        Mushroom {
            last_track_id: track.track_id,
            last_kalman_rect: track.kalman_rect,
            last_reach: track.reach,
            last_direction: if count >= 1 {
                track.direction
            } else {
                self.last_direction
            },
            last_candidate_direction: track.direction,
            last_candidate_direction_count: 0,
            is_violetta: self.is_violetta,
        }
    }
}

/// Moves a mushroom onto a track.
pub fn update_mushroom_from_track(mushroom: &mut Mushroom, track: &Track)
    requires
        old(mushroom).last_candidate_direction_count < u32::MAX,
    ensures
        *final(mushroom) == old(mushroom).seen_on(*track),
{
    mushroom.last_track_id = track.track_id;
    mushroom.last_kalman_rect = track.kalman_rect;
    mushroom.last_reach = track.reach;

    if mushroom.last_candidate_direction == track.direction {
        mushroom.last_candidate_direction_count = mushroom.last_candidate_direction_count + 1;
    } else {
        mushroom.last_candidate_direction = track.direction;
        mushroom.last_candidate_direction_count = 0;
    }
    if mushroom.last_candidate_direction_count >= 1 {
        mushroom.last_candidate_direction_count = 0;
        mushroom.last_direction = mushroom.last_candidate_direction;
    }
}

/// How far `rect` lies from `last_rect` horizontally, measured at the edge in front.
pub open spec fn x_distance(rect: Rect, last_direction: Direction, last_rect: Rect) -> int {
    match last_direction {
        Direction::Left => distance(rect.x as int, last_rect.x as int),
        Direction::Right => distance(rect.right(), last_rect.right()),
        Direction::Neither => distance(rect.mid_x(), last_rect.mid_x()),
    }
}

pub open spec fn y_distance(rect: Rect, last_rect: Rect) -> int {
    distance(rect.y as int, last_rect.y as int)
}

/// How badly `track` fits the mushroom.
pub open spec fn misfit(track: Track, mushroom: Mushroom) -> int {
    x_distance(track.kalman_rect, mushroom.last_direction, mushroom.last_kalman_rect) + y_distance(
        track.kalman_rect,
        mushroom.last_kalman_rect,
    )
}

fn wide_distance(a: i64, b: i64) -> (d: i64)
    requires
        -0x1_0000_0000 <= a <= 0x1_0000_0000,
        -0x1_0000_0000 <= b <= 0x1_0000_0000,
    ensures
        d == distance(a as int, b as int),
{
    if a >= b {
        a - b
    } else {
        b - a
    }
}

fn x_mid(rect: Rect) -> (mid: i64)
    ensures
        mid == rect.mid_x(),
        -0x1_0000_0000 <= mid <= 0x1_0000_0000,
{
    rect.x as i64 + half_of(rect.width) as i64
}

pub fn x_score(rect: Rect, last_direction: Direction, last_rect: Rect) -> (score: i64)
    ensures
        score == x_distance(rect, last_direction, last_rect),
        0 <= score <= 0x2_0000_0000,
{
    match last_direction {
        Direction::Left => wide_distance(rect.x as i64, last_rect.x as i64),
        Direction::Right => wide_distance(
            rect.x as i64 + rect.width as i64,
            last_rect.x as i64 + last_rect.width as i64,
        ),
        Direction::Neither => wide_distance(x_mid(rect), x_mid(last_rect)),
    }
}

pub fn y_score(rect: Rect, last_rect: Rect) -> (score: u32)
    ensures
        score == y_distance(rect, last_rect),
{
    abs_diff(rect.y, last_rect.y)
}

pub fn track_score(track: &Track, mushroom: &Mushroom) -> (score: i64)
    ensures
        score == misfit(*track, *mushroom),
{
    let x: i64 = x_score(track.kalman_rect, mushroom.last_direction, mushroom.last_kalman_rect);
    let y: u32 = y_score(track.kalman_rect, mushroom.last_kalman_rect);
    x + y as i64
}

/// Within this many pixels vertically a box can be the same mushroom.
pub const MAX_Y_SCORE: u32 = 12;

/// Whether the detected box of `track` is near enough to be the mushroom.
pub open spec fn near_enough(track: Track, mushroom: Mushroom) -> bool {
    &&& y_distance(track.rect, mushroom.last_kalman_rect) < MAX_Y_SCORE
    &&& x_distance(track.rect, mushroom.last_direction, mushroom.last_kalman_rect)
        < mushroom.last_reach
}

/// The mushrooms, the tracks that are not taken yet and the mushrooms that have none.
pub struct Matching {
    pub mushrooms: Seq<Mushroom>,
    pub tracks: Seq<Track>,
    pub pending: Seq<int>,
}

/// The first track with the given id, if there is one.
pub open spec fn has_id(tracks: Seq<Track>, id: u64, j: int) -> bool {
    &&& 0 <= j < tracks.len()
    &&& tracks[j].track_id == id
    &&& forall|k: int| 0 <= k < j ==> (#[trigger] tracks[k]).track_id != id
}

pub open spec fn lacks_id(tracks: Seq<Track>, id: u64) -> bool {
    forall|k: int| 0 <= k < tracks.len() ==> (#[trigger] tracks[k]).track_id != id
}

/// The place of the first track with the given id.
pub open spec fn id_index(tracks: Seq<Track>, id: u64) -> int
    decreases tracks.len(),
{
    if tracks.len() == 0 || tracks[0].track_id == id {
        0
    } else {
        1 + id_index(tracks.skip(1), id)
    }
}

proof fn lemma_id_index(tracks: Seq<Track>, id: u64, j: int)
    requires
        has_id(tracks, id, j),
    ensures
        id_index(tracks, id) == j,
    decreases tracks.len(),
{
    if j > 0 {
        assert(tracks[0].track_id != id);
        let rest = tracks.skip(1);
        assert forall|k: int| 0 <= k < j - 1 implies (#[trigger] rest[k]).track_id != id by {
            assert(tracks[k + 1].track_id != id);
        }
        lemma_id_index(rest, id, j - 1);
    }
}

/// The first `n` mushrooms follow the tracks that carry their ids; those whose id is gone are left
/// pending.
pub open spec fn matched_by_id(mushrooms: Seq<Mushroom>, tracks: Seq<Track>, n: int) -> Matching
    decreases n,
{
    if n <= 0 {
        Matching { mushrooms, tracks, pending: Seq::empty() }
    } else {
        let before = matched_by_id(mushrooms, tracks, n - 1);
        let mushroom = mushrooms[n - 1];
        if lacks_id(before.tracks, mushroom.last_track_id) {
            Matching { pending: before.pending.push(n - 1), ..before }
        } else {
            let j = id_index(before.tracks, mushroom.last_track_id);
            Matching {
                mushrooms: before.mushrooms.update(n - 1, mushroom.seen_on(before.tracks[j])),
                tracks: before.tracks.remove(j),
                pending: before.pending,
            }
        }
    }
}

/// The place of the first of the best fitting tracks among the first `n`.
pub open spec fn best_index(tracks: Seq<Track>, mushroom: Mushroom, n: int) -> int
    decreases n,
{
    if n <= 1 {
        0
    } else {
        let best = best_index(tracks, mushroom, n - 1);
        if misfit(tracks[n - 1], mushroom) < misfit(tracks[best], mushroom) {
            n - 1
        } else {
            best
        }
    }
}

/// The first `n` of the pending mushrooms each take the best fitting track that is left. Where
/// `gate` is set, only if it is near enough.
pub open spec fn matched_by_fit(start: Matching, gate: bool, n: int) -> Matching
    decreases n,
{
    if n <= 0 {
        start
    } else {
        let before = matched_by_fit(start, gate, n - 1);
        if before.tracks.len() == 0 {
            before
        } else {
            let i = start.pending[n - 1];
            let mushroom = start.mushrooms[i];
            let j = best_index(before.tracks, mushroom, before.tracks.len() as int);
            let track = before.tracks[j];
            if gate && !near_enough(track, mushroom) {
                before
            } else {
                Matching {
                    mushrooms: before.mushrooms.update(i, mushroom.seen_on(track)),
                    tracks: before.tracks.remove(j),
                    ..before
                }
            }
        }
    }
}

/// The mushrooms after one round of tracking. Guesses are held to what is near as soon as there are
/// more or fewer free tracks than mushrooms without one.
pub open spec fn followed(mushrooms: Seq<Mushroom>, tracks: Seq<Track>) -> Seq<Mushroom> {
    let by_id = matched_by_id(mushrooms, tracks, mushrooms.len() as int);
    let gate = by_id.tracks.len() != by_id.pending.len();
    matched_by_fit(by_id, gate, by_id.pending.len() as int).mushrooms
}

/// What a frame shows, as far as it was asked for.
#[derive(Debug)]
pub struct ViolettaFrame {
    pub tracks: Vec<Track>,
    /// The numbers under which the mushrooms come to rest, in the region.
    pub numbers: Vec<Rect>,
    /// Where the face of Violetta shows, in the region.
    pub face: Option<Rect>,
}

#[derive(Debug)]
pub struct ViolettaSolver {
    pub numbers: Vec<Rect>,
    pub mushrooms: Vec<Mushroom>,
    pub is_initialized: bool,
}

impl Default for ViolettaSolver {
    fn default() -> (solver: ViolettaSolver)
        ensures
            solver.wf(),
            !solver.is_initialized,
            solver.numbers@ == Seq::<Rect>::empty(),
            all_unseen(solver.mushrooms@),
    {
        let unseen = Mushroom {
            last_track_id: 0,
            last_kalman_rect: Rect::new(0, 0, 0, 0),
            last_reach: 0,
            last_direction: Direction::Neither,
            last_candidate_direction: Direction::Neither,
            last_candidate_direction_count: 0,
            is_violetta: false,
        };
        let mut mushrooms: Vec<Mushroom> = Vec::new();
        mushrooms.push(unseen);
        mushrooms.push(unseen);
        mushrooms.push(unseen);
        mushrooms.push(unseen);
        ViolettaSolver { numbers: Vec::new(), mushrooms, is_initialized: false }
    }
}

/// A mushroom that was not seen yet.
pub open spec fn unseen_mushroom() -> Mushroom {
    Mushroom {
        last_track_id: 0,
        last_kalman_rect: Rect { x: 0, y: 0, width: 0, height: 0 },
        last_reach: 0,
        last_direction: Direction::Neither,
        last_candidate_direction: Direction::Neither,
        last_candidate_direction_count: 0,
        is_violetta: false,
    }
}

/// No mushroom was seen yet.
pub open spec fn all_unseen(mushrooms: Seq<Mushroom>) -> bool {
    forall|i: int| 0 <= i < MUSHROOM_COUNT ==> #[trigger] mushrooms[i] == unseen_mushroom()
}

/// Mushroom `i` as it starts out on `track`, with Violetta under it where her face meets its box.
pub open spec fn started(mushroom: Mushroom, track: Track, face: Rect) -> Mushroom {
    (Mushroom { is_violetta: track.kalman_rect.meets(face), ..mushroom }).seen_on(track)
}

/// Whether the frame shows what is needed to tell the mushrooms apart.
pub open spec fn shows_start(tracks: Seq<Track>, face: Option<Rect>) -> bool {
    tracks.len() == MUSHROOM_COUNT && face is Some
}

/// Whether no mushroom waits for the second sighting of a direction halfway.
pub open spec fn settled(mushrooms: Seq<Mushroom>) -> bool {
    forall|i: int|
        0 <= i < mushrooms.len() ==> (#[trigger] mushrooms[i]).last_candidate_direction_count == 0
}

/// The mushrooms once the first complete frame was seen.
pub open spec fn started_mushrooms(
    mushrooms: Seq<Mushroom>,
    tracks: Seq<Track>,
    face: Rect,
) -> Seq<Mushroom> {
    Seq::new(mushrooms.len(), |i: int| started(mushrooms[i], tracks[i], face))
}

/// The place of the first mushroom that hides Violetta among the first `n`, `n` where none does.
pub open spec fn violetta_index(mushrooms: Seq<Mushroom>, n: int) -> int
    decreases n,
{
    if n <= 0 {
        0
    } else {
        let before = violetta_index(mushrooms, n - 1);
        if before < n - 1 || mushrooms[n - 1].is_violetta {
            before
        } else {
            n
        }
    }
}

/// The number `rect` stands under the column `x`.
pub open spec fn under_column(rect: Rect, x: int) -> bool {
    rect.x <= x < rect.right()
}

/// The first number under the column `x`.
pub open spec fn number_under(numbers: Seq<Rect>, x: int) -> Option<Rect>
    decreases numbers.len(),
{
    if numbers.len() == 0 {
        None
    } else if under_column(numbers[0], x) {
        Some(numbers[0])
    } else {
        number_under(numbers.skip(1), x)
    }
}

impl ViolettaSolver {
    pub open spec fn wf(self) -> bool {
        self.mushrooms.len() == MUSHROOM_COUNT && settled(self.mushrooms@)
    }

    /// The numbers after a frame: once found they stay.
    pub open spec fn numbers_after(self, frame: ViolettaFrame) -> Seq<Rect> {
        if self.numbers.len() == 0 {
            frame.numbers@
        } else {
            self.numbers@
        }
    }

    pub open spec fn starts_on(self, frame: ViolettaFrame) -> bool {
        !self.is_initialized && shows_start(frame.tracks@, frame.face)
    }

    /// The mushrooms before tracking: started where this is the first complete frame.
    pub open spec fn mushrooms_before(self, frame: ViolettaFrame) -> Seq<Mushroom> {
        if self.starts_on(frame) {
            started_mushrooms(self.mushrooms@, frame.tracks@, frame.face->Some_0)
        } else {
            self.mushrooms@
        }
    }

    pub open spec fn mushrooms_after(self, frame: ViolettaFrame) -> Seq<Mushroom> {
        followed(self.mushrooms_before(frame), frame.tracks@)
    }

    /// Whether an answer can be given after the frame: the start was seen and there are numbers.
    pub open spec fn answers(self, frame: ViolettaFrame) -> bool {
        (self.is_initialized || self.starts_on(frame)) && self.numbers_after(frame).len() > 0
    }

    /// The number to click, in the region.
    pub open spec fn answer(self, frame: ViolettaFrame) -> Option<Rect> {
        let mushrooms = self.mushrooms_after(frame);
        let at = violetta_index(mushrooms, mushrooms.len() as int);
        number_under(self.numbers_after(frame), mushrooms[at].last_kalman_rect.mid_x())
    }

    /// Whether the numbers are still to be looked for.
    pub fn wants_numbers(&self) -> (wants: bool)
        ensures
            wants == (self.numbers.len() == 0),
    {
        self.numbers.len() == 0
    }

    /// Whether the face is to be looked for, given the tracks of the frame.
    pub fn wants_face(&self, tracks: &Vec<Track>) -> (wants: bool)
        ensures
            wants == (!self.is_initialized && tracks.len() == MUSHROOM_COUNT),
    {
        !self.is_initialized && tracks.len() == MUSHROOM_COUNT
    }

    /// Learns the numbers, and from the first complete frame under which mushroom Violetta is.
    pub fn update_initial_state_if_needed(&mut self, frame: ViolettaFrame) -> (tracks: Vec<Track>)
        requires
            old(self).wf(),
        ensures
            final(self).wf(),
            tracks == frame.tracks,
            final(self).numbers@ == old(self).numbers_after(frame),
            final(self).mushrooms@ == old(self).mushrooms_before(frame),
            final(self).is_initialized == (old(self).is_initialized || old(self).starts_on(frame)),
    {
        if self.numbers.len() == 0 {
            self.numbers = frame.numbers;
        }
        let tracks = frame.tracks;
        if self.is_initialized || tracks.len() != MUSHROOM_COUNT {
            return tracks;
        }
        let face = match frame.face {
            Some(face) => face,
            None => {
                return tracks;
            },
        };
        let mut index: usize = 0;
        while index < MUSHROOM_COUNT
            invariant
                index <= MUSHROOM_COUNT,
                tracks.len() == MUSHROOM_COUNT,
                old(self).wf(),
                self.mushrooms.len() == MUSHROOM_COUNT,
                self.numbers@ == old(self).numbers_after(frame),
                forall|i: int|
                    0 <= i < index ==> #[trigger] self.mushrooms[i] == started(
                        old(self).mushrooms[i],
                        tracks[i],
                        face,
                    ),
                forall|i: int|
                    index <= i < MUSHROOM_COUNT ==> #[trigger] self.mushrooms[i]
                        == old(self).mushrooms[i],
            decreases MUSHROOM_COUNT - index,
        {
            let track = tracks[index];
            let mut mushroom = self.mushrooms[index];
            assert(mushroom == old(self).mushrooms[index as int]);
            mushroom.is_violetta = track.kalman_rect.overlaps(face);
            update_mushroom_from_track(&mut mushroom, &track);
            self.mushrooms.set(index, mushroom);
            index += 1;
        }
        self.is_initialized = true;
        assert(self.mushrooms@ =~= started_mushrooms(old(self).mushrooms@, tracks@, face));
        tracks
    }

    /// Moves every mushroom onto its track.
    pub fn update_tracking(&mut self, tracks: Vec<Track>)
        requires
            old(self).wf(),
        ensures
            final(self).wf(),
            final(self).mushrooms@ == followed(old(self).mushrooms@, tracks@),
            final(self).numbers == old(self).numbers,
            final(self).is_initialized == old(self).is_initialized,
    {
        let ghost all = tracks@;
        let ghost start = self.mushrooms@;
        let mut tracks = tracks;
        let mut unprocessed_indexes: Vec<usize> = Vec::new();
        let mut i: usize = 0;
        while i < self.mushrooms.len()
            invariant
                i <= start.len(),
                start.len() == MUSHROOM_COUNT,
                settled(start),
                self.mushrooms@ == matched_by_id(start, all, i as int).mushrooms,
                tracks@ == matched_by_id(start, all, i as int).tracks,
                indexes(unprocessed_indexes@) == matched_by_id(start, all, i as int).pending,
                forall|k: int|
                    0 <= k < unprocessed_indexes.len() ==> #[trigger] unprocessed_indexes[k] < i,
                self.mushrooms.len() == start.len(),
                settled(self.mushrooms@),
                forall|k: int| i <= k < start.len() ==> #[trigger] self.mushrooms[k] == start[k],
                forall|k: int|
                    0 <= k < unprocessed_indexes.len() ==> self.mushrooms[(
                    #[trigger] unprocessed_indexes[k]) as int]
                        == start[unprocessed_indexes[k] as int],
                distinct(unprocessed_indexes@),
                self.numbers == old(self).numbers,
                self.is_initialized == old(self).is_initialized,
            decreases start.len() - i,
        {
            let mut mushroom = self.mushrooms[i];
            assert(mushroom == start[i as int]);
            match find_track(&tracks, mushroom.last_track_id) {
                Some(j) => {
                    proof {
                        lemma_id_index(tracks@, mushroom.last_track_id, j as int);
                        assert(!lacks_id(tracks@, mushroom.last_track_id)) by {
                            assert(tracks[j as int].track_id == mushroom.last_track_id);
                        }
                    }
                    let track = tracks.remove(j);
                    update_mushroom_from_track(&mut mushroom, &track);
                    self.mushrooms.set(i, mushroom);
                },
                None => {
                    let ghost before = unprocessed_indexes@;
                    unprocessed_indexes.push(i);
                    assert(indexes(unprocessed_indexes@) =~= indexes(before).push(i as int));
                },
            }
            i += 1;
        }

        let ghost by_id = matched_by_id(start, all, start.len() as int);
        let gate = tracks.len() != unprocessed_indexes.len();
        let ghost n = unprocessed_indexes.len();
        proof {
            assert(by_id.pending.len() == n);
        }
        let mut k: usize = 0;
        while k < unprocessed_indexes.len()
            invariant
                k <= unprocessed_indexes.len() == n,
                start.len() == MUSHROOM_COUNT,
                by_id == matched_by_id(start, all, start.len() as int),
                indexes(unprocessed_indexes@) == by_id.pending,
                self.mushrooms@ == matched_by_fit(by_id, gate, k as int).mushrooms,
                tracks@ == matched_by_fit(by_id, gate, k as int).tracks,
                self.mushrooms.len() == start.len(),
                settled(self.mushrooms@),
                forall|m: int|
                    0 <= m < unprocessed_indexes.len() ==> #[trigger] unprocessed_indexes[m]
                        < start.len(),
                forall|m: int|
                    k <= m < unprocessed_indexes.len() ==> self.mushrooms[(
                    #[trigger] unprocessed_indexes[m]) as int]
                        == by_id.mushrooms[unprocessed_indexes[m] as int],
                distinct(unprocessed_indexes@),
                self.numbers == old(self).numbers,
                self.is_initialized == old(self).is_initialized,
            ensures
                self.mushrooms@ == matched_by_fit(by_id, gate, n as int).mushrooms,
                self.mushrooms.len() == start.len(),
                settled(self.mushrooms@),
                self.numbers == old(self).numbers,
                self.is_initialized == old(self).is_initialized,
            decreases unprocessed_indexes.len() - k,
        {
            let index: usize = unprocessed_indexes[k];
            assert(by_id.pending[k as int] == index);
            let mut mushroom = self.mushrooms[index];
            if tracks.len() == 0 {
                proof {
                    lemma_no_tracks_left(by_id, gate, k as int, n as int);
                }
                break;
            }
            let j: usize = best_track(&tracks, &mushroom);
            let track = tracks[j];
            if gate && !is_near_enough(&track, &mushroom) {
                k += 1;
                continue;
            }
            tracks.remove(j);
            update_mushroom_from_track(&mut mushroom, &track);
            self.mushrooms.set(index, mushroom);
            k += 1;
        }
    }

    /// Whether [`ViolettaSolver::solve`] can answer on this frame: it need not, or Violetta was seen
    /// under one of the mushrooms.
    pub fn can_solve(&self, frame: &ViolettaFrame) -> (can: bool)
        requires
            self.wf(),
        ensures
            can == (self.answers(*frame) ==> hides_violetta(self.mushrooms_before(*frame))),
    {
        let has_numbers = self.numbers.len() > 0 || frame.numbers.len() > 0;
        if !has_numbers {
            return true;
        }
        if self.is_initialized {
            let mut i: usize = 0;
            while i < self.mushrooms.len()
                invariant
                    i <= self.mushrooms.len(),
                    self.is_initialized,
                    forall|k: int| 0 <= k < i ==> !(#[trigger] self.mushrooms[k]).is_violetta,
                decreases self.mushrooms.len() - i,
            {
                if self.mushrooms[i].is_violetta {
                    assert(hides_violetta(self.mushrooms@)) by {
                        assert(self.mushrooms@[i as int].is_violetta);
                    }
                    return true;
                }
                i += 1;
            }
            return false;
        }
        let face = match frame.face {
            Some(face) => face,
            None => {
                return true;
            },
        };
        if frame.tracks.len() != MUSHROOM_COUNT {
            return true;
        }
        let ghost begun = started_mushrooms(self.mushrooms@, frame.tracks@, face);
        let mut i: usize = 0;
        while i < frame.tracks.len()
            invariant
                i <= frame.tracks.len() == MUSHROOM_COUNT,
                self.mushrooms.len() == MUSHROOM_COUNT,
                begun == started_mushrooms(self.mushrooms@, frame.tracks@, face),
                !self.is_initialized,
                frame.face == Some(face),
                forall|k: int| 0 <= k < i ==> !(#[trigger] begun[k]).is_violetta,
            decreases frame.tracks.len() - i,
        {
            let overlap = frame.tracks[i].kalman_rect.overlaps(face);
            assert(begun[i as int].is_violetta == overlap);
            if overlap {
                return true;
            }
            i += 1;
        }
        false
    }

    /// Takes in one frame and tells where to click, once that is known: the centre of the number
    /// under the mushroom that hides Violetta, in screen coordinates.
    pub fn solve(&mut self, frame: ViolettaFrame, region: Rect) -> (click: Option<Point>)
        requires
            old(self).wf(),
            old(self).answers(frame) ==> hides_violetta(old(self).mushrooms_before(frame)),
            old(self).answers(frame) ==> (old(self).answer(frame) matches Some(number) ==> fits(
                number.mid_x() + region.x,
            ) && fits(number.mid_y() + region.y)),
        ensures
            final(self).wf(),
            final(self).numbers@ == old(self).numbers_after(frame),
            final(self).mushrooms@ == old(self).mushrooms_after(frame),
            final(self).is_initialized == (old(self).is_initialized || old(self).starts_on(frame)),
            click is Some <==> old(self).answers(frame) && old(self).answer(frame) is Some,
            click matches Some(point) ==> {
                &&& point.x == old(self).answer(frame)->Some_0.mid_x() + region.x
                &&& point.y == old(self).answer(frame)->Some_0.mid_y() + region.y
            },
    {
        let ghost begun = self.mushrooms_before(frame);
        let ghost all = frame.tracks@;
        let tracks = self.update_initial_state_if_needed(frame);
        self.update_tracking(tracks);

        if !self.is_initialized || self.numbers.len() == 0 {
            return None;
        }
        proof {
            law_violetta_stays(begun, all);
        }
        let mut at: usize = 0;
        while !self.mushrooms[at].is_violetta
            invariant
                at < self.mushrooms.len(),
                hides_violetta(self.mushrooms@),
                violetta_index(self.mushrooms@, at as int) == at,
                forall|k: int| 0 <= k < at ==> !(#[trigger] self.mushrooms[k]).is_violetta,
            decreases self.mushrooms.len() - at,
        {
            at += 1;
            assert(violetta_index(self.mushrooms@, at as int) == at);
        }
        proof {
            lemma_violetta_found(self.mushrooms@, at as int, self.mushrooms.len() as int);
        }
        let x: i64 = x_mid(self.mushrooms[at].last_kalman_rect);
        assert(self.numbers@.skip(0) =~= self.numbers@);
        let mut i: usize = 0;
        while i < self.numbers.len()
            invariant
                i <= self.numbers.len(),
                number_under(self.numbers@, x as int) == number_under(
                    self.numbers@.skip(i as int),
                    x as int,
                ),
                self.numbers@ == old(self).numbers_after(frame),
                old(self).answer(frame) == number_under(self.numbers@, x as int),
                old(self).answers(frame),
                old(self).answer(frame) matches Some(number) ==> fits(
                    number.mid_x() + region.x,
                ) && fits(number.mid_y() + region.y),
                self.wf(),
                self.mushrooms@ == old(self).mushrooms_after(frame),
                self.is_initialized == (old(self).is_initialized || old(self).starts_on(frame)),
            decreases self.numbers.len() - i,
        {
            let number = self.numbers[i];
            let ghost rest = self.numbers@.skip(i as int);
            assert(rest[0] == number);
            assert(rest.skip(1) =~= self.numbers@.skip(i + 1));
            if number.x as i64 <= x && x < number.x as i64 + number.width as i64 {
                let click_x: i64 = x_mid(number) + region.x as i64;
                let click_y: i64 = number.y as i64 + half_of(number.height) as i64 + region.y as i64;
                return Some(Point::new(click_x as i32, click_y as i32));
            }
            i += 1;
        }
        None
    }
}

/// Some mushroom hides Violetta.
pub open spec fn hides_violetta(mushrooms: Seq<Mushroom>) -> bool {
    exists|i: int| 0 <= i < mushrooms.len() && (#[trigger] mushrooms[i]).is_violetta
}

/// The places as integers.
pub open spec fn indexes(places: Seq<usize>) -> Seq<int> {
    places.map_values(|place: usize| place as int)
}

pub open spec fn distinct(places: Seq<usize>) -> bool {
    forall|i: int, j: int|
        0 <= i < j < places.len() ==> #[trigger] places[i] != #[trigger] places[j]
}

/// Finds the first track with the given id.
fn find_track(tracks: &Vec<Track>, id: u64) -> (place: Option<usize>)
    ensures
        match place {
            Some(j) => has_id(tracks@, id, j as int),
            None => lacks_id(tracks@, id),
        },
{
    let mut j: usize = 0;
    while j < tracks.len()
        invariant
            j <= tracks.len(),
            forall|k: int| 0 <= k < j ==> (#[trigger] tracks[k]).track_id != id,
        decreases tracks.len() - j,
    {
        if tracks[j].track_id == id {
            return Some(j);
        }
        j += 1;
    }
    None
}

/// Finds the first of the best fitting tracks.
fn best_track(tracks: &Vec<Track>, mushroom: &Mushroom) -> (place: usize)
    requires
        tracks.len() > 0,
    ensures
        place == best_index(tracks@, *mushroom, tracks.len() as int),
        place < tracks.len(),
{
    let mut best: usize = 0;
    let mut best_score: i64 = track_score(&tracks[0], mushroom);
    let mut j: usize = 1;
    while j < tracks.len()
        invariant
            1 <= j <= tracks.len(),
            best < j,
            best == best_index(tracks@, *mushroom, j as int),
            best_score == misfit(tracks[best as int], *mushroom),
        decreases tracks.len() - j,
    {
        let score: i64 = track_score(&tracks[j], mushroom);
        if score < best_score {
            best = j;
            best_score = score;
        }
        j += 1;
    }
    best
}

fn is_near_enough(track: &Track, mushroom: &Mushroom) -> (near: bool)
    ensures
        near == near_enough(*track, *mushroom),
{
    if y_score(track.rect, mushroom.last_kalman_rect) >= MAX_Y_SCORE {
        return false;
    }
    x_score(track.rect, mushroom.last_direction, mushroom.last_kalman_rect) < mushroom.last_reach
}

/// Once no track is left, nothing changes any more.
proof fn lemma_no_tracks_left(start: Matching, gate: bool, k: int, n: int)
    requires
        0 <= k <= n,
        matched_by_fit(start, gate, k).tracks.len() == 0,
    ensures
        matched_by_fit(start, gate, n) == matched_by_fit(start, gate, k),
    decreases n - k,
{
    if k < n {
        lemma_no_tracks_left(start, gate, k, n - 1);
    }
}

/// The first mushroom that hides Violetta is the one at its index.
proof fn lemma_violetta_found(mushrooms: Seq<Mushroom>, at: int, n: int)
    requires
        0 <= at < n <= mushrooms.len(),
        violetta_index(mushrooms, at) == at,
        mushrooms[at].is_violetta,
    ensures
        violetta_index(mushrooms, n) == at,
    decreases n - at,
{
    if at + 1 < n {
        lemma_violetta_found(mushrooms, at, n - 1);
    }
}

/// Matching by id keeps the mushrooms in number and under which Violetta is, and leaves pending only
/// what it came across.
proof fn lemma_by_id(mushrooms: Seq<Mushroom>, tracks: Seq<Track>, n: int)
    requires
        0 <= n <= mushrooms.len(),
    ensures
        ({
            let by_id = matched_by_id(mushrooms, tracks, n);
            &&& by_id.mushrooms.len() == mushrooms.len()
            &&& forall|i: int|
                0 <= i < mushrooms.len() ==> {
                    &&& (#[trigger] by_id.mushrooms[i]).is_violetta == mushrooms[i].is_violetta
                    &&& by_id.mushrooms[i].last_track_id == mushrooms[i].last_track_id
                }
            &&& forall|k: int|
                0 <= k < by_id.pending.len() ==> 0 <= #[trigger] by_id.pending[k] < n
        }),
    decreases n,
{
    if n > 0 {
        lemma_by_id(mushrooms, tracks, n - 1);
        let before = matched_by_id(mushrooms, tracks, n - 1);
        let id = mushrooms[n - 1].last_track_id;
        if !lacks_id(before.tracks, id) {
            lemma_id_found(before.tracks, id);
        }
    }
}

/// An id that is not missing is found at its index.
proof fn lemma_id_found(tracks: Seq<Track>, id: u64)
    requires
        !lacks_id(tracks, id),
    ensures
        has_id(tracks, id, id_index(tracks, id)),
    decreases tracks.len(),
{
    if tracks[0].track_id != id {
        let rest = tracks.skip(1);
        let k = choose|k: int| 0 <= k < tracks.len() && (#[trigger] tracks[k]).track_id == id;
        assert(rest[k - 1].track_id == id);
        lemma_id_found(rest, id);
        let j = id_index(rest, id);
        assert(tracks[j + 1] == rest[j]);
        assert forall|m: int| 0 <= m < j + 1 implies (#[trigger] tracks[m]).track_id != id by {
            if m > 0 {
                assert(rest[m - 1].track_id != id);
            }
        }
    }
}

/// Matching by fit keeps the mushrooms in number and under which Violetta is.
proof fn lemma_by_fit(start: Matching, gate: bool, n: int)
    requires
        0 <= n <= start.pending.len(),
        forall|k: int|
            0 <= k < start.pending.len() ==> 0 <= #[trigger] start.pending[k]
                < start.mushrooms.len(),
    ensures
        ({
            let by_fit = matched_by_fit(start, gate, n);
            &&& by_fit.mushrooms.len() == start.mushrooms.len()
            &&& forall|i: int|
                0 <= i < start.mushrooms.len() ==> (#[trigger] by_fit.mushrooms[i]).is_violetta
                    == start.mushrooms[i].is_violetta
        }),
    decreases n,
{
    if n > 0 {
        lemma_by_fit(start, gate, n - 1);
        assert(0 <= start.pending[n - 1] < start.mushrooms.len());
    }
}

/// Tracking never changes under which mushroom Violetta is.
pub proof fn law_violetta_stays(mushrooms: Seq<Mushroom>, tracks: Seq<Track>)
    ensures
        followed(mushrooms, tracks).len() == mushrooms.len(),
        forall|i: int|
            0 <= i < mushrooms.len() ==> (#[trigger] followed(mushrooms, tracks)[i]).is_violetta
                == mushrooms[i].is_violetta,
        hides_violetta(followed(mushrooms, tracks)) == hides_violetta(mushrooms),
{
    let by_id = matched_by_id(mushrooms, tracks, mushrooms.len() as int);
    lemma_by_id(mushrooms, tracks, mushrooms.len() as int);
    let gate = by_id.tracks.len() != by_id.pending.len();
    lemma_by_fit(by_id, gate, by_id.pending.len() as int);
    let after = followed(mushrooms, tracks);
    assert forall|i: int| 0 <= i < mushrooms.len() implies (#[trigger] after[i]).is_violetta
        == mushrooms[i].is_violetta by {
        assert(by_id.mushrooms[i].is_violetta == mushrooms[i].is_violetta);
    }
    if hides_violetta(mushrooms) {
        let i = choose|i: int| 0 <= i < mushrooms.len() && (#[trigger] mushrooms[i]).is_violetta;
        assert(after[i].is_violetta);
    }
}

/// No two tracks carry the same id.
pub open spec fn distinct_ids(tracks: Seq<Track>) -> bool {
    forall|i: int, j: int|
        0 <= i < j < tracks.len() ==> (#[trigger] tracks[i]).track_id != (
        #[trigger] tracks[j]).track_id
}

/// No two mushrooms follow the same track.
pub open spec fn apart(mushrooms: Seq<Mushroom>) -> bool {
    forall|i: int, j: int|
        0 <= i < j < mushrooms.len() ==> (#[trigger] mushrooms[i]).last_track_id != (
        #[trigger] mushrooms[j]).last_track_id
}

/// Taking a track away leaves the others distinct, and none with its id.
proof fn lemma_take_track(tracks: Seq<Track>, j: int)
    requires
        0 <= j < tracks.len(),
        distinct_ids(tracks),
    ensures
        distinct_ids(tracks.remove(j)),
        lacks_id(tracks.remove(j), tracks[j].track_id),
        forall|id: u64| lacks_id(tracks, id) ==> lacks_id(tracks.remove(j), id),
{
    let left = tracks.remove(j);
    assert forall|k: int| 0 <= k < left.len() implies (#[trigger] left[k]).track_id
        != tracks[j].track_id by {
        if k < j {
            assert(left[k] == tracks[k]);
        } else {
            assert(left[k] == tracks[k + 1]);
        }
    }
    assert forall|id: u64| lacks_id(tracks, id) implies lacks_id(left, id) by {
        assert forall|k: int| 0 <= k < left.len() implies (#[trigger] left[k]).track_id != id by {
            if k < j {
                assert(left[k] == tracks[k]);
            } else {
                assert(left[k] == tracks[k + 1]);
            }
        }
    }
}

/// After matching by id, no free track carries the id of a mushroom that was looked at.
proof fn lemma_free_by_id(mushrooms: Seq<Mushroom>, tracks: Seq<Track>, n: int)
    requires
        0 <= n <= mushrooms.len(),
        distinct_ids(tracks),
    ensures
        ({
            let by_id = matched_by_id(mushrooms, tracks, n);
            &&& distinct_ids(by_id.tracks)
            &&& forall|i: int|
                0 <= i < n ==> lacks_id(by_id.tracks, (#[trigger] mushrooms[i]).last_track_id)
        }),
    decreases n,
{
    if n > 0 {
        lemma_free_by_id(mushrooms, tracks, n - 1);
        let before = matched_by_id(mushrooms, tracks, n - 1);
        let id = mushrooms[n - 1].last_track_id;
        if !lacks_id(before.tracks, id) {
            lemma_id_found(before.tracks, id);
            lemma_take_track(before.tracks, id_index(before.tracks, id));
        }
    }
}

/// The best fitting track is one of the tracks.
proof fn lemma_best_index(tracks: Seq<Track>, mushroom: Mushroom, n: int)
    requires
        1 <= n <= tracks.len(),
    ensures
        0 <= best_index(tracks, mushroom, n) < n,
        forall|k: int|
            0 <= k < n ==> misfit(tracks[best_index(tracks, mushroom, n)], mushroom) <= misfit(
                #[trigger] tracks[k],
                mushroom,
            ),
        forall|k: int|
            0 <= k < best_index(tracks, mushroom, n) ==> misfit(
                tracks[best_index(tracks, mushroom, n)],
                mushroom,
            ) < misfit(#[trigger] tracks[k], mushroom),
    decreases n,
{
    if n > 1 {
        lemma_best_index(tracks, mushroom, n - 1);
    }
}

/// The track that a pending mushroom is held to fits it at least as well as any other free one, and
/// better than those before it.
pub proof fn law_best_track_fits_best(tracks: Seq<Track>, mushroom: Mushroom, k: int)
    requires
        0 <= k < tracks.len(),
    ensures
        ({
            let best = best_index(tracks, mushroom, tracks.len() as int);
            &&& 0 <= best < tracks.len()
            &&& misfit(tracks[best], mushroom) <= misfit(tracks[k], mushroom)
            &&& k < best ==> misfit(tracks[best], mushroom) < misfit(tracks[k], mushroom)
        }),
{
    lemma_best_index(tracks, mushroom, tracks.len() as int);
}

proof fn lemma_apart_by_fit(start: Matching, gate: bool, n: int)
    requires
        0 <= n <= start.pending.len(),
        forall|k: int|
            0 <= k < start.pending.len() ==> 0 <= #[trigger] start.pending[k]
                < start.mushrooms.len(),
        apart(start.mushrooms),
        distinct_ids(start.tracks),
        forall|i: int|
            0 <= i < start.mushrooms.len() ==> lacks_id(
                start.tracks,
                (#[trigger] start.mushrooms[i]).last_track_id,
            ),
    ensures
        ({
            let by_fit = matched_by_fit(start, gate, n);
            &&& by_fit.mushrooms.len() == start.mushrooms.len()
            &&& apart(by_fit.mushrooms)
            &&& distinct_ids(by_fit.tracks)
            &&& forall|i: int|
                0 <= i < by_fit.mushrooms.len() ==> lacks_id(
                    by_fit.tracks,
                    (#[trigger] by_fit.mushrooms[i]).last_track_id,
                )
        }),
    decreases n,
{
    if n > 0 {
        lemma_apart_by_fit(start, gate, n - 1);
        let before = matched_by_fit(start, gate, n - 1);
        let after = matched_by_fit(start, gate, n);
        if before.tracks.len() > 0 {
            let i = start.pending[n - 1];
            let mushroom = start.mushrooms[i];
            let j = best_index(before.tracks, mushroom, before.tracks.len() as int);
            lemma_best_index(before.tracks, mushroom, before.tracks.len() as int);
            let track = before.tracks[j];
            if !(gate && !near_enough(track, mushroom)) {
                lemma_take_track(before.tracks, j);
                assert forall|k: int| 0 <= k < after.mushrooms.len() implies lacks_id(
                    after.tracks,
                    (#[trigger] after.mushrooms[k]).last_track_id,
                ) by {
                    if k != i {
                        assert(after.mushrooms[k] == before.mushrooms[k]);
                    }
                }
                assert forall|a: int, b: int| 0 <= a < b < after.mushrooms.len() implies (
                #[trigger] after.mushrooms[a]).last_track_id != (
                #[trigger] after.mushrooms[b]).last_track_id by {
                    if a == i {
                        assert(after.mushrooms[b] == before.mushrooms[b]);
                        assert(lacks_id(before.tracks, before.mushrooms[b].last_track_id));
                    } else if b == i {
                        assert(after.mushrooms[a] == before.mushrooms[a]);
                        assert(lacks_id(before.tracks, before.mushrooms[a].last_track_id));
                    } else {
                        assert(after.mushrooms[a] == before.mushrooms[a]);
                        assert(after.mushrooms[b] == before.mushrooms[b]);
                    }
                }
            }
        }
    }
}

/// Mushrooms that follow different tracks still do after tracking: no track is given to two of them.
pub proof fn law_mushrooms_stay_apart(mushrooms: Seq<Mushroom>, tracks: Seq<Track>)
    requires
        apart(mushrooms),
        distinct_ids(tracks),
    ensures
        apart(followed(mushrooms, tracks)),
{
    let n = mushrooms.len() as int;
    let by_id = matched_by_id(mushrooms, tracks, n);
    lemma_by_id(mushrooms, tracks, n);
    lemma_free_by_id(mushrooms, tracks, n);
    assert forall|i: int| 0 <= i < by_id.mushrooms.len() implies lacks_id(
        by_id.tracks,
        (#[trigger] by_id.mushrooms[i]).last_track_id,
    ) by {
        assert(lacks_id(by_id.tracks, mushrooms[i].last_track_id));
    }
    let gate = by_id.tracks.len() != by_id.pending.len();
    lemma_apart_by_fit(by_id, gate, by_id.pending.len() as int);
}

/// The mushrooms start out on different tracks.
pub proof fn law_mushrooms_start_apart(mushrooms: Seq<Mushroom>, tracks: Seq<Track>, face: Rect)
    requires
        distinct_ids(tracks),
        mushrooms.len() == tracks.len(),
    ensures
        apart(started_mushrooms(mushrooms, tracks, face)),
{
    let begun = started_mushrooms(mushrooms, tracks, face);
    assert forall|i: int, j: int| 0 <= i < j < begun.len() implies (
    #[trigger] begun[i]).last_track_id != (#[trigger] begun[j]).last_track_id by {
        assert(tracks[i].track_id != tracks[j].track_id);
    }
}

/// The number to click is one of the numbers and stands under the column; where none is given, none
/// does.
pub proof fn law_answer_stands_under_column(numbers: Seq<Rect>, x: int)
    ensures
        match number_under(numbers, x) {
            Some(number) => under_column(number, x) && numbers.contains(number),
            None => forall|i: int|
                0 <= i < numbers.len() ==> !under_column(#[trigger] numbers[i], x),
        },
    decreases numbers.len(),
{
    if numbers.len() > 0 {
        let rest = numbers.skip(1);
        law_answer_stands_under_column(rest, x);
        match number_under(numbers, x) {
            Some(number) => {
                if under_column(numbers[0], x) {
                    assert(numbers.contains(numbers[0]));
                } else {
                    let k = choose|k: int| 0 <= k < rest.len() && rest[k] == number;
                    assert(numbers[k + 1] == number);
                }
            },
            None => {
                assert forall|i: int| 0 <= i < numbers.len() implies !under_column(
                    #[trigger] numbers[i],
                    x,
                ) by {
                    if i > 0 {
                        assert(rest[i - 1] == numbers[i]);
                    }
                }
            },
        }
    }
}

/// A direction is believed only when it is seen twice in a row.
pub proof fn law_direction_needs_two_sightings(mushroom: Mushroom, first: Track, second: Track)
    requires
        mushroom.last_candidate_direction_count == 0,
    ensures
        mushroom.seen_on(first).last_direction != mushroom.last_direction
            ==> mushroom.last_candidate_direction == first.direction,
        first.direction == second.direction ==> mushroom.seen_on(first).seen_on(
            second,
        ).last_direction == second.direction,
        first.direction != second.direction ==> mushroom.seen_on(first).seen_on(
            second,
        ).last_direction == mushroom.seen_on(first).last_direction,
{
}

/// The first mushroom that hides Violetta stands at its index.
proof fn lemma_first_violetta(mushrooms: Seq<Mushroom>, at: int, n: int)
    requires
        0 <= n <= at < mushrooms.len(),
        forall|k: int| 0 <= k < at ==> !(#[trigger] mushrooms[k]).is_violetta,
    ensures
        violetta_index(mushrooms, n) == n,
    decreases n,
{
    if n > 0 {
        lemma_first_violetta(mushrooms, at, n - 1);
        assert(!mushrooms[n - 1].is_violetta);
    }
}

/// The number under a column is the first one that spans it.
proof fn lemma_first_number(numbers: Seq<Rect>, x: int)
    ensures
        match number_under(numbers, x) {
            Some(number) => exists|i: int|
                #![trigger numbers[i]]
                {
                    &&& 0 <= i < numbers.len()
                    &&& numbers[i] == number
                    &&& number.x <= x < number.x + number.width
                    &&& forall|k: int|
                        0 <= k < i ==> !((#[trigger] numbers[k]).x <= x < numbers[k].x
                            + numbers[k].width)
                },
            None => forall|k: int|
                0 <= k < numbers.len() ==> !((#[trigger] numbers[k]).x <= x < numbers[k].x
                    + numbers[k].width),
        },
    decreases numbers.len(),
{
    if numbers.len() > 0 {
        let rest = numbers.skip(1);
        if under_column(numbers[0], x) {
            assert(numbers[0].x <= x < numbers[0].x + numbers[0].width);
        } else {
            lemma_first_number(rest, x);
            match number_under(rest, x) {
                Some(number) => {
                    let i = choose|i: int|
                        #![trigger rest[i]]
                        {
                            &&& 0 <= i < rest.len()
                            &&& rest[i] == number
                            &&& number.x <= x < number.x + number.width
                            &&& forall|k: int|
                                0 <= k < i ==> !((#[trigger] rest[k]).x <= x < rest[k].x
                                    + rest[k].width)
                        };
                    assert(numbers[i + 1] == number);
                    assert forall|k: int| 0 <= k < i + 1 implies !((#[trigger] numbers[k]).x <= x
                        < numbers[k].x + numbers[k].width) by {
                        if k > 0 {
                            assert(rest[k - 1] == numbers[k]);
                        }
                    }
                },
                None => {
                    assert forall|k: int| 0 <= k < numbers.len() implies !((#[trigger] numbers[k]).x
                        <= x < numbers[k].x + numbers[k].width) by {
                        if k > 0 {
                            assert(rest[k - 1] == numbers[k]);
                        }
                    }
                },
            }
        }
    }
}

/// Once the start was seen and there are numbers, a click comes out exactly where some number spans
/// the middle of the last box of the mushroom that hides Violetta, and it goes to the centre of the
/// first number that does.
pub proof fn law_click_is_under_violetta(
    solver: &mut ViolettaSolver,
    frame: ViolettaFrame,
    region: Rect,
    click: Option<Point>,
    at: int,
)
    requires
        call_ensures(ViolettaSolver::solve, (solver, frame, region), click),
        final(solver).is_initialized,
        final(solver).numbers.len() > 0,
        0 <= at < final(solver).mushrooms.len(),
        final(solver).mushrooms[at].is_violetta,
        forall|k: int| 0 <= k < at ==> !(#[trigger] final(solver).mushrooms@[k]).is_violetta,
    ensures
        ({
            let numbers = final(solver).numbers@;
            let under = final(solver).mushrooms[at].last_kalman_rect;
            let middle = under.x + half(under.width as int);
            &&& click is None ==> forall|k: int|
                0 <= k < numbers.len() ==> !((#[trigger] numbers[k]).x <= middle < numbers[k].x
                    + numbers[k].width)
            &&& click matches Some(point) ==> exists|i: int|
                #![trigger numbers[i]]
                {
                    &&& 0 <= i < numbers.len()
                    &&& numbers[i].x <= middle < numbers[i].x + numbers[i].width
                    &&& forall|k: int|
                        0 <= k < i ==> !((#[trigger] numbers[k]).x <= middle < numbers[k].x
                            + numbers[k].width)
                    &&& point.x - region.x - numbers[i].x == half(numbers[i].width as int)
                    &&& point.y - region.y - numbers[i].y == half(numbers[i].height as int)
                }
        }),
{
    let mushrooms = final(solver).mushrooms@;
    let numbers = final(solver).numbers@;
    lemma_first_violetta(mushrooms, at, at);
    lemma_violetta_found(mushrooms, at, mushrooms.len() as int);
    let under = mushrooms[at].last_kalman_rect;
    lemma_first_number(numbers, under.x + half(under.width as int));
}

/// Nothing is clicked before the start was seen and numbers were found.
pub proof fn law_no_click_before_start(
    solver: &mut ViolettaSolver,
    frame: ViolettaFrame,
    region: Rect,
    click: Option<Point>,
)
    requires
        call_ensures(ViolettaSolver::solve, (solver, frame, region), click),
    ensures
        click is Some ==> final(solver).is_initialized && final(solver).numbers.len() > 0,
        old(solver).numbers.len() > 0 ==> final(solver).numbers@ == old(solver).numbers@,
        old(solver).numbers.len() == 0 ==> final(solver).numbers@ == frame.numbers@,
{
}

/// The first frame with four tracks and the face is the start: from then on Violetta is under the
/// mushrooms whose boxes overlap her face, for good.
pub proof fn law_face_tells_the_mushroom(
    solver: &mut ViolettaSolver,
    frame: ViolettaFrame,
    region: Rect,
    click: Option<Point>,
    i: int,
)
    requires
        call_ensures(ViolettaSolver::solve, (solver, frame, region), click),
        old(solver).mushrooms.len() == 4,
        0 <= i < 4,
    ensures
        ({
            let starts = !old(solver).is_initialized && frame.tracks.len() == 4 && frame.face
                is Some;
            let after = final(solver).mushrooms@[i];
            let body = frame.tracks[i].kalman_rect;
            let face = frame.face->Some_0;
            &&& final(solver).mushrooms.len() == 4
            &&& final(solver).is_initialized == (old(solver).is_initialized || starts)
            &&& starts ==> (after.is_violetta <==> {
                &&& body.width > 0 && face.width > 0 && body.height > 0 && face.height > 0
                &&& body.x < face.x + face.width && face.x < body.x + body.width
                &&& body.y < face.y + face.height && face.y < body.y + body.height
            })
            &&& !starts ==> after.is_violetta == old(solver).mushrooms[i].is_violetta
        }),
{
    law_violetta_stays(old(solver).mushrooms_before(frame), frame.tracks@);
    let begun = old(solver).mushrooms_before(frame);
    assert(followed(begun, frame.tracks@)[i].is_violetta == begun[i].is_violetta);
    if old(solver).starts_on(frame) {
        law_meets(frame.tracks[i].kalman_rect, frame.face->Some_0);
    }
}

/// A mushroom that is moved onto a track takes over its id, its box and its reach. Its direction
/// becomes that of the track where that was also the one before, and nothing else changes.
pub proof fn law_seen_on_a_track(mushroom: &mut Mushroom, track: &Track)
    requires
        call_ensures(update_mushroom_from_track, (mushroom, track), ()),
    ensures
        final(mushroom).last_track_id == track.track_id,
        final(mushroom).last_kalman_rect == track.kalman_rect,
        final(mushroom).last_reach == track.reach,
        final(mushroom).last_candidate_direction == track.direction,
        final(mushroom).last_candidate_direction_count == 0,
        final(mushroom).is_violetta == old(mushroom).is_violetta,
        old(mushroom).last_candidate_direction == track.direction ==> final(mushroom).last_direction
            == track.direction,
        old(mushroom).last_candidate_direction != track.direction ==> final(mushroom).last_direction
            == old(mushroom).last_direction,
        *final(mushroom) == old(mushroom).seen_on(*track),
{
}

/// How far two numbers lie apart.
pub open spec fn gap(a: int, b: int) -> int {
    if a < b {
        b - a
    } else {
        a - b
    }
}

/// How far a box lies from where a mushroom last was: across between their left edges where it moved
/// left, their right edges where it moved right, else their middles.
pub open spec fn gap_across(rect: Rect, mushroom: Mushroom) -> int {
    let last = mushroom.last_kalman_rect;
    match mushroom.last_direction {
        Direction::Left => gap(rect.x as int, last.x as int),
        Direction::Right => gap(rect.x + rect.width, last.x + last.width),
        Direction::Neither => gap(
            rect.x + half(rect.width as int),
            last.x + half(last.width as int),
        ),
    }
}

/// The whole distance of the predicted box of a track from where a mushroom last was.
pub open spec fn gap_to(track: Track, mushroom: Mushroom) -> int {
    gap_across(track.kalman_rect, mushroom) + gap(
        track.kalman_rect.y as int,
        mushroom.last_kalman_rect.y as int,
    )
}

/// The detected box of a track is near where a mushroom last was: less than twelve pixels away in
/// height, and across less than the reach of the mushroom.
pub open spec fn is_near(track: Track, mushroom: Mushroom) -> bool {
    gap(track.rect.y as int, mushroom.last_kalman_rect.y as int) < 12 && gap_across(
        track.rect,
        mushroom,
    ) < mushroom.last_reach
}

/// A track fits a mushroom the worse the farther it is from where the mushroom last was.
pub proof fn law_scores(
    track: &Track,
    mushroom: &Mushroom,
    score: i64,
    x: i64,
    y: u32,
)
    requires
        call_ensures(track_score, (track, mushroom), score),
        call_ensures(
            x_score,
            (track.rect, mushroom.last_direction, mushroom.last_kalman_rect),
            x,
        ),
        call_ensures(y_score, (track.rect, mushroom.last_kalman_rect), y),
    ensures
        score == gap_to(*track, *mushroom),
        x == gap_across(track.rect, *mushroom),
        y == gap(track.rect.y as int, mushroom.last_kalman_rect.y as int),
        near_enough(*track, *mushroom) == is_near(*track, *mushroom),
        misfit(*track, *mushroom) == gap_to(*track, *mushroom),
{
}

/// The mushroom sits on the track.
pub open spec fn sits_on(mushroom: Mushroom, track: Track) -> bool {
    &&& mushroom.last_track_id == track.track_id
    &&& mushroom.last_kalman_rect == track.kalman_rect
    &&& mushroom.last_reach == track.reach
}

/// No mushroom sits on a track with this id.
pub open spec fn is_free(mushrooms: Seq<Mushroom>, track: Track) -> bool {
    forall|k: int|
        0 <= k < mushrooms.len() ==> (#[trigger] mushrooms[k]).last_track_id != track.track_id
}

/// What matching by id has done once the first `n` mushrooms were looked at.
proof fn lemma_by_id_outcome(mushrooms: Seq<Mushroom>, tracks: Seq<Track>, n: int)
    requires
        0 <= n <= mushrooms.len(),
        distinct_ids(tracks),
        apart(mushrooms),
    ensures
        ({
            let by_id = matched_by_id(mushrooms, tracks, n);
            &&& by_id.mushrooms.len() == mushrooms.len()
            &&& distinct_ids(by_id.tracks)
            &&& forall|k: int|
                0 <= k < by_id.tracks.len() ==> tracks.contains(#[trigger] by_id.tracks[k])
            &&& forall|j: int|
                #![trigger tracks[j]]
                0 <= j < tracks.len() ==> by_id.tracks.contains(tracks[j]) || exists|i: int|
                    #![trigger mushrooms[i]]
                    0 <= i < n && mushrooms[i].last_track_id == tracks[j].track_id
            &&& forall|i: int|
                n <= i < mushrooms.len() ==> #[trigger] by_id.mushrooms[i] == mushrooms[i]
            &&& forall|i: int, j: int|
                #![trigger mushrooms[i], tracks[j]]
                0 <= i < n && 0 <= j < tracks.len() && mushrooms[i].last_track_id
                    == tracks[j].track_id ==> by_id.mushrooms[i] == mushrooms[i].seen_on(tracks[j])
                    && !by_id.pending.contains(i)
            &&& forall|i: int|
                #![trigger mushrooms[i]]
                0 <= i < n && lacks_id(tracks, mushrooms[i].last_track_id) ==> by_id.mushrooms[i]
                    == mushrooms[i] && by_id.pending.contains(i)
            &&& forall|k: int| 0 <= k < by_id.pending.len() ==> 0 <= #[trigger] by_id.pending[k] < n
            &&& forall|a: int, b: int|
                0 <= a < b < by_id.pending.len() ==> #[trigger] by_id.pending[a]
                    != #[trigger] by_id.pending[b]
            &&& by_id.tracks.len() - by_id.pending.len() == tracks.len() - n
        }),
    decreases n,
{
    if n > 0 {
        lemma_by_id_outcome(mushrooms, tracks, n - 1);
        let before = matched_by_id(mushrooms, tracks, n - 1);
        let after = matched_by_id(mushrooms, tracks, n);
        let mushroom = mushrooms[n - 1];
        let id = mushroom.last_track_id;
        if lacks_id(before.tracks, id) {
            assert(lacks_id(tracks, id)) by {
                assert forall|j: int| 0 <= j < tracks.len() implies (#[trigger] tracks[j]).track_id
                    != id by {
                    if tracks[j].track_id == id {
                        if before.tracks.contains(tracks[j]) {
                            let k = choose|k: int|
                                0 <= k < before.tracks.len() && before.tracks[k] == tracks[j];
                            assert(before.tracks[k].track_id != id);
                        }
                    }
                }
            }
            assert(after.pending[after.pending.len() - 1] == n - 1);
            assert forall|i: int|
                #![trigger mushrooms[i]]
                0 <= i < n && lacks_id(tracks, mushrooms[i].last_track_id) implies
                    after.mushrooms[i] == mushrooms[i] && after.pending.contains(i) by {
                if i < n - 1 {
                    let k = choose|k: int| 0 <= k < before.pending.len() && before.pending[k] == i;
                    assert(after.pending[k] == i);
                } else {
                    assert(before.mushrooms[i] == mushrooms[i]);
                }
            }
            assert forall|i: int, j: int|
                #![trigger mushrooms[i], tracks[j]]
                0 <= i < n && 0 <= j < tracks.len() && mushrooms[i].last_track_id
                    == tracks[j].track_id implies after.mushrooms[i] == mushrooms[i].seen_on(
                tracks[j],
            ) && !after.pending.contains(i) by {
                assert(i < n - 1);
                if after.pending.contains(i) {
                    let k = choose|k: int| 0 <= k < after.pending.len() && after.pending[k] == i;
                    assert(before.pending[k] == i);
                }
            }
        } else {
            lemma_id_found(before.tracks, id);
            let j = id_index(before.tracks, id);
            let track = before.tracks[j];
            lemma_take_track(before.tracks, j);
            let left = before.tracks.remove(j);
            assert forall|k: int| 0 <= k < left.len() implies tracks.contains(
                #[trigger] left[k],
            ) by {
                if k < j {
                    assert(left[k] == before.tracks[k]);
                } else {
                    assert(left[k] == before.tracks[k + 1]);
                }
            }
            assert forall|m: int|
                #![trigger tracks[m]]
                0 <= m < tracks.len() implies left.contains(tracks[m]) || exists|i: int|
                    #![trigger mushrooms[i]]
                    0 <= i < n && mushrooms[i].last_track_id == tracks[m].track_id by {
                if before.tracks.contains(tracks[m]) {
                    let k = choose|k: int|
                        0 <= k < before.tracks.len() && before.tracks[k] == tracks[m];
                    if k == j {
                        assert(mushrooms[n - 1].last_track_id == tracks[m].track_id);
                    } else if k < j {
                        assert(left[k] == tracks[m]);
                    } else {
                        assert(left[k - 1] == tracks[m]);
                    }
                } else {
                    let i = choose|i: int|
                        #![trigger mushrooms[i]]
                        0 <= i < n - 1 && mushrooms[i].last_track_id == tracks[m].track_id;
                    assert(mushrooms[i].last_track_id == tracks[m].track_id);
                }
            }
            assert(tracks.contains(track));
            let at = choose|at: int| 0 <= at < tracks.len() && tracks[at] == track;
            assert(tracks[at].track_id == id);
            assert forall|i: int, m: int|
                #![trigger mushrooms[i], tracks[m]]
                0 <= i < n && 0 <= m < tracks.len() && mushrooms[i].last_track_id
                    == tracks[m].track_id implies after.mushrooms[i] == mushrooms[i].seen_on(
                tracks[m],
            ) && !after.pending.contains(i) by {
                if i == n - 1 {
                    if m < at {
                        assert(tracks[m].track_id != tracks[at].track_id);
                    } else if at < m {
                        assert(tracks[at].track_id != tracks[m].track_id);
                    }
                    if after.pending.contains(i) {
                        let k = choose|k: int|
                            0 <= k < after.pending.len() && after.pending[k] == i;
                        assert(before.pending[k] < n - 1);
                    }
                }
            }
            assert forall|i: int|
                #![trigger mushrooms[i]]
                0 <= i < n && lacks_id(tracks, mushrooms[i].last_track_id) implies
                    after.mushrooms[i] == mushrooms[i] && after.pending.contains(i) by {
                if i == n - 1 {
                    assert(tracks[at].track_id != id);
                }
            }
        }
    }
}

/// What matching by fit has done once the first `n` of the pending mushrooms were looked at.
proof fn lemma_by_fit_outcome(start: Matching, gate: bool, n: int)
    requires
        0 <= n <= start.pending.len(),
        forall|k: int|
            0 <= k < start.pending.len() ==> 0 <= #[trigger] start.pending[k]
                < start.mushrooms.len(),
        forall|a: int, b: int|
            0 <= a < b < start.pending.len() ==> #[trigger] start.pending[a]
                != #[trigger] start.pending[b],
    ensures
        ({
            let by_fit = matched_by_fit(start, gate, n);
            &&& by_fit.mushrooms.len() == start.mushrooms.len()
            &&& forall|t: Track| #[trigger]
                by_fit.tracks.contains(t) ==> start.tracks.contains(t)
            &&& forall|t: Track| #[trigger]
                start.tracks.contains(t) ==> by_fit.tracks.contains(t) || exists|k: int|
                    #![trigger start.pending[k]]
                    0 <= k < n && by_fit.mushrooms[start.pending[k]].last_track_id == t.track_id
            &&& forall|i: int|
                #![trigger by_fit.mushrooms[i]]
                0 <= i < start.mushrooms.len() && (forall|k: int|
                    0 <= k < n ==> #[trigger] start.pending[k] != i) ==> by_fit.mushrooms[i]
                    == start.mushrooms[i]
            &&& forall|k: int|
                #![trigger start.pending[k]]
                0 <= k < n ==> fit_outcome(
                    start,
                    gate,
                    by_fit.tracks,
                    start.mushrooms[start.pending[k]],
                    by_fit.mushrooms[start.pending[k]],
                )
            &&& !gate && start.tracks.len() >= start.pending.len() ==> by_fit.tracks.len()
                == start.tracks.len() - n
            &&& !gate && start.tracks.len() >= start.pending.len() ==> forall|k: int|
                #![trigger start.pending[k]]
                0 <= k < n ==> exists|t: Track| #[trigger]
                    start.tracks.contains(t) && by_fit.mushrooms[start.pending[k]]
                        == start.mushrooms[start.pending[k]].seen_on(t)
        }),
    decreases n,
{
    if n > 0 {
        lemma_by_fit_outcome(start, gate, n - 1);
        let before = matched_by_fit(start, gate, n - 1);
        let after = matched_by_fit(start, gate, n);
        let i = start.pending[n - 1];
        let mushroom = start.mushrooms[i];
        assert forall|k: int| 0 <= k < n - 1 implies #[trigger] start.pending[k] != i by {}
        assert(before.mushrooms[i] == mushroom);
        if before.tracks.len() > 0 {
            let j = best_index(before.tracks, mushroom, before.tracks.len() as int);
            lemma_best_index(before.tracks, mushroom, before.tracks.len() as int);
            let track = before.tracks[j];
            assert(before.tracks.contains(track));
            if gate && !near_enough(track, mushroom) {
                assert(fit_outcome(start, gate, after.tracks, mushroom, after.mushrooms[i])) by {
                    assert(start.tracks.contains(track));
                    assert forall|u: Track| #[trigger] after.tracks.contains(u) implies misfit(
                        track,
                        mushroom,
                    ) <= misfit(u, mushroom) by {
                        let m = choose|m: int|
                            0 <= m < before.tracks.len() && before.tracks[m] == u;
                        assert(misfit(track, mushroom) <= misfit(before.tracks[m], mushroom));
                    }
                }
            } else {
                let left = before.tracks.remove(j);
                assert forall|t: Track| #[trigger] left.contains(t) implies
                    before.tracks.contains(t) by {
                    let k = choose|k: int| 0 <= k < left.len() && left[k] == t;
                    if k < j {
                        assert(before.tracks[k] == t);
                    } else {
                        assert(before.tracks[k + 1] == t);
                    }
                }
                assert(after.mushrooms[i].last_track_id == track.track_id);
                assert forall|t: Track| #[trigger] start.tracks.contains(t) implies
                    left.contains(t) || exists|k: int|
                    #![trigger start.pending[k]]
                    0 <= k < n && after.mushrooms[start.pending[k]].last_track_id == t.track_id by {
                    if before.tracks.contains(t) {
                        let m = choose|m: int|
                            0 <= m < before.tracks.len() && before.tracks[m] == t;
                        if m == j {
                            assert(after.mushrooms[start.pending[n - 1]].last_track_id
                                == t.track_id);
                        } else if m < j {
                            assert(left[m] == t);
                        } else {
                            assert(left[m - 1] == t);
                        }
                    } else {
                        let k = choose|k: int|
                            #![trigger start.pending[k]]
                            0 <= k < n - 1 && before.mushrooms[start.pending[k]].last_track_id
                                == t.track_id;
                        assert(start.pending[k] != i);
                        assert(after.mushrooms[start.pending[k]].last_track_id == t.track_id);
                    }
                }
                assert(fit_outcome(start, gate, left, mushroom, after.mushrooms[i])) by {
                    assert(start.tracks.contains(track));
                    assert forall|u: Track| #[trigger] left.contains(u) implies misfit(
                        track,
                        mushroom,
                    ) <= misfit(u, mushroom) by {
                        assert(before.tracks.contains(u));
                        let m = choose|m: int|
                            0 <= m < before.tracks.len() && before.tracks[m] == u;
                        assert(misfit(track, mushroom) <= misfit(before.tracks[m], mushroom));
                    }
                }
                assert forall|k: int|
                    #![trigger start.pending[k]]
                    0 <= k < n implies fit_outcome(
                    start,
                    gate,
                    after.tracks,
                    start.mushrooms[start.pending[k]],
                    after.mushrooms[start.pending[k]],
                ) by {
                    if k < n - 1 {
                        assert(start.pending[k] != i);
                        lemma_fewer_tracks(
                            start,
                            gate,
                            before.tracks,
                            left,
                            start.mushrooms[start.pending[k]],
                            before.mushrooms[start.pending[k]],
                        );
                    }
                }
                if !gate && start.tracks.len() >= start.pending.len() {
                    assert forall|k: int|
                        #![trigger start.pending[k]]
                        0 <= k < n implies exists|t: Track| #[trigger]
                        start.tracks.contains(t) && after.mushrooms[start.pending[k]]
                            == start.mushrooms[start.pending[k]].seen_on(t) by {
                        if k < n - 1 {
                            assert(start.pending[k] != i);
                            let t = choose|t: Track| #[trigger]
                                start.tracks.contains(t) && before.mushrooms[start.pending[k]]
                                    == start.mushrooms[start.pending[k]].seen_on(t);
                            assert(start.tracks.contains(t));
                        } else {
                            assert(start.tracks.contains(track));
                        }
                    }
                }
                assert forall|m: int|
                    #![trigger after.mushrooms[m]]
                    0 <= m < start.mushrooms.len() && (forall|k: int|
                        0 <= k < n ==> #[trigger] start.pending[k] != m) implies
                    after.mushrooms[m] == start.mushrooms[m] by {
                    assert(start.pending[n - 1] != m);
                    assert(after.mushrooms[m] == before.mushrooms[m]);
                }
            }
        }
    }
}

/// How a mushroom without its id fares: it takes a free track that fits it at least as well as any
/// that is left in the end, or it stays because there is none left or the best fitting one is too far.
spec fn fit_outcome(
    start: Matching,
    gate: bool,
    left: Seq<Track>,
    before: Mushroom,
    after: Mushroom,
) -> bool {
    ||| exists|t: Track| #[trigger]
        start.tracks.contains(t) && after == before.seen_on(t) && (gate ==> near_enough(t, before))
            && forall|u: Track| #[trigger]
            left.contains(u) ==> misfit(t, before) <= misfit(u, before)
    ||| after == before && left.len() == 0
    ||| after == before && gate && exists|t: Track| #[trigger]
        start.tracks.contains(t) && !near_enough(t, before) && forall|u: Track| #[trigger]
            left.contains(u) ==> misfit(t, before) <= misfit(u, before)
}

proof fn lemma_fewer_tracks(
    start: Matching,
    gate: bool,
    left: Seq<Track>,
    fewer: Seq<Track>,
    before: Mushroom,
    after: Mushroom,
)
    requires
        fit_outcome(start, gate, left, before, after),
        forall|u: Track| #[trigger] fewer.contains(u) ==> left.contains(u),
    ensures
        fit_outcome(start, gate, fewer, before, after),
{
    if after == before && left.len() == 0 {
        if fewer.len() > 0 {
            assert(fewer.contains(fewer[0]));
        }
    }
}

/// A mushroom follows the track that carries its id. One whose id is gone takes, of the tracks that
/// no other has, one that is not farther than any that is left in the end; if there are more or fewer
/// tracks than mushrooms, only one that is near. It stays as it was where no track is left for it, or
/// where one that is too far is not farther than any that is left. With as many tracks as mushrooms
/// none stays.
pub proof fn law_tracking(solver: &mut ViolettaSolver, tracks: Vec<Track>, i: int)
    requires
        call_ensures(ViolettaSolver::update_tracking, (solver, tracks), ()),
        apart(old(solver).mushrooms@),
        distinct_ids(tracks@),
        0 <= i < old(solver).mushrooms.len(),
    ensures
        ({
            let mushroom = old(solver).mushrooms@[i];
            let all = final(solver).mushrooms@;
            let after = all[i];
            let as_many = tracks.len() == old(solver).mushrooms.len();
            let lost = lacks_id(tracks@, mushroom.last_track_id);
            let nearest = |t: Track|
                forall|u: Track| #[trigger]
                    tracks@.contains(u) && is_free(all, u) ==> gap_to(t, mushroom) <= gap_to(
                        u,
                        mushroom,
                    );
            let takes = |t: Track|
                sits_on(after, t) && after == mushroom.seen_on(t) && nearest(t) && (!as_many
                    ==> is_near(t, mushroom));
            &&& all.len() == old(solver).mushrooms.len()
            &&& final(solver).numbers == old(solver).numbers
            &&& final(solver).is_initialized == old(solver).is_initialized
            &&& forall|t: Track| #[trigger]
                tracks@.contains(t) && t.track_id == mushroom.last_track_id ==> sits_on(after, t)
                    && after == mushroom.seen_on(t)
            &&& lost ==> {
                ||| exists|t: Track| #[trigger] tracks@.contains(t) && takes(t)
                ||| after == mushroom && !as_many && exists|t: Track| #[trigger]
                    tracks@.contains(t) && !is_near(t, mushroom) && nearest(t)
                ||| after == mushroom && forall|t: Track| #[trigger]
                    tracks@.contains(t) ==> !is_free(all, t)
            }
            &&& lost && as_many ==> exists|t: Track| #[trigger]
                tracks@.contains(t) && sits_on(after, t)
        }),
{
    let mushrooms = old(solver).mushrooms@;
    let mushroom = mushrooms[i];
    let n = mushrooms.len() as int;
    let by_id = matched_by_id(mushrooms, tracks@, n);
    let gate = by_id.tracks.len() != by_id.pending.len();
    let m = by_id.pending.len() as int;
    lemma_by_id_outcome(mushrooms, tracks@, n);
    lemma_by_fit_outcome(by_id, gate, m);
    let by_fit = matched_by_fit(by_id, gate, m);
    let all = by_fit.mushrooms;
    assert(all == final(solver).mushrooms@);
    let after = all[i];
    assert forall|t: Track| #[trigger] by_id.tracks.contains(t) implies tracks@.contains(t) by {
        let k = choose|k: int| 0 <= k < by_id.tracks.len() && by_id.tracks[k] == t;
        assert(tracks@.contains(by_id.tracks[k]));
    }
    assert forall|t: Track| #[trigger]
        tracks@.contains(t) && t.track_id == mushroom.last_track_id implies sits_on(after, t)
        && after == mushroom.seen_on(t) by {
        let j = choose|j: int| 0 <= j < tracks@.len() && tracks@[j] == t;
        assert(mushrooms[i].last_track_id == tracks@[j].track_id);
        assert(!by_id.pending.contains(i));
        assert forall|k: int| 0 <= k < m implies #[trigger] by_id.pending[k] != i by {
            if by_id.pending[k] == i {
                assert(by_id.pending.contains(i));
            }
        }
        assert(by_fit.mushrooms[i] == by_id.mushrooms[i]);
    }
    // A track of the frame that no mushroom has in the end was left over.
    assert forall|u: Track| #[trigger] tracks@.contains(u) && is_free(all, u) implies
        by_fit.tracks.contains(u) by {
        let j = choose|j: int| 0 <= j < tracks@.len() && tracks@[j] == u;
        if !by_id.tracks.contains(tracks@[j]) {
            let k = choose|k: int|
                #![trigger mushrooms[k]]
                0 <= k < n && mushrooms[k].last_track_id == tracks@[j].track_id;
            assert(by_id.mushrooms[k] == mushrooms[k].seen_on(tracks@[j]));
            assert forall|p: int| 0 <= p < m implies #[trigger] by_id.pending[p] != k by {
                if by_id.pending[p] == k {
                    assert(by_id.pending.contains(k));
                }
            }
            assert(all[k] == by_id.mushrooms[k]);
            assert(all[k].last_track_id == u.track_id);
        } else if !by_fit.tracks.contains(u) {
            let k = choose|k: int|
                #![trigger by_id.pending[k]]
                0 <= k < m && all[by_id.pending[k]].last_track_id == u.track_id;
            assert(0 <= by_id.pending[k] < n);
            assert(all[by_id.pending[k]].last_track_id != u.track_id);
        }
    }
    if lacks_id(tracks@, mushroom.last_track_id) {
        assert(by_id.mushrooms[i] == mushroom);
        let k = choose|k: int| 0 <= k < m && by_id.pending[k] == i;
        assert(by_id.pending[k] == i);
        assert(fit_outcome(by_id, gate, by_fit.tracks, mushroom, after));
        if after == mushroom && by_fit.tracks.len() == 0 {
            assert forall|t: Track| #[trigger] tracks@.contains(t) implies !is_free(all, t) by {}
        }
        if tracks.len() == mushrooms.len() {
            let t = choose|t: Track| #[trigger]
                by_id.tracks.contains(t) && by_fit.mushrooms[by_id.pending[k]]
                    == by_id.mushrooms[by_id.pending[k]].seen_on(t);
            assert(tracks@.contains(t) && sits_on(after, t));
        }
    }
}

/// The numbers are looked for until there are some, and the face in frames with four tracks until the
/// start was seen.
pub proof fn law_what_is_looked_for(
    solver: &ViolettaSolver,
    tracks: &Vec<Track>,
    numbers: bool,
    face: bool,
)
    requires
        call_ensures(ViolettaSolver::wants_numbers, (solver,), numbers),
        call_ensures(ViolettaSolver::wants_face, (solver, tracks), face),
    ensures
        numbers <==> solver.numbers.len() == 0,
        face <==> !solver.is_initialized && tracks.len() == 4,
{
}

/// A frame can be taken in unless it would have to be answered without a mushroom that hides
/// Violetta.
pub proof fn law_can_solve(solver: &ViolettaSolver, frame: &ViolettaFrame, can: bool)
    requires
        call_ensures(ViolettaSolver::can_solve, (solver, frame), can),
        solver.mushrooms.len() == 4,
    ensures
        ({
            let starts = !solver.is_initialized && frame.tracks.len() == 4 && frame.face is Some;
            let has_numbers = solver.numbers.len() > 0 || frame.numbers.len() > 0;
            let face = frame.face->Some_0;
            &&& !has_numbers || !solver.is_initialized && !starts ==> can
            &&& has_numbers && solver.is_initialized ==> (can <==> exists|i: int|
                0 <= i < 4 && (#[trigger] solver.mushrooms@[i]).is_violetta)
            &&& has_numbers && starts ==> (can <==> exists|i: int|
                0 <= i < 4 && (#[trigger] frame.tracks@[i]).kalman_rect.meets(face))
        }),
{
    if !solver.is_initialized && frame.tracks.len() == 4 && frame.face is Some {
        let face = frame.face->Some_0;
        let begun = solver.mushrooms_before(*frame);
        assert forall|i: int| 0 <= i < 4 implies (#[trigger] begun[i]).is_violetta
            == frame.tracks@[i].kalman_rect.meets(face) by {}
        if hides_violetta(begun) {
            let i = choose|i: int| 0 <= i < begun.len() && (#[trigger] begun[i]).is_violetta;
            assert(frame.tracks@[i].kalman_rect.meets(face));
        }
        if exists|i: int| 0 <= i < 4 && (#[trigger] frame.tracks@[i]).kalman_rect.meets(face) {
            let i = choose|i: int|
                0 <= i < 4 && (#[trigger] frame.tracks@[i]).kalman_rect.meets(face);
            assert(begun[i].is_violetta);
        }
    }
}

/// The same frame is taken in by starting where it is the start, then by tracking.
pub proof fn law_start_then_track(
    solver: &mut ViolettaSolver,
    frame: ViolettaFrame,
    region: Rect,
    click: Option<Point>,
    i: int,
)
    requires
        call_ensures(ViolettaSolver::solve, (solver, frame, region), click),
        old(solver).mushrooms.len() == 4,
        distinct_ids(frame.tracks@),
        0 <= i < 4,
        !old(solver).is_initialized,
        frame.tracks.len() == 4,
        frame.face is Some,
    ensures
        sits_on(final(solver).mushrooms@[i], frame.tracks@[i]),
{
    let begun = old(solver).mushrooms_before(frame);
    law_mushrooms_start_apart(old(solver).mushrooms@, frame.tracks@, frame.face->Some_0);
    lemma_by_id_outcome(begun, frame.tracks@, 4);
    let by_id = matched_by_id(begun, frame.tracks@, 4);
    assert(begun[i].last_track_id == frame.tracks@[i].track_id);
    let gate = by_id.tracks.len() != by_id.pending.len();
    lemma_by_fit_outcome(by_id, gate, by_id.pending.len() as int);
    assert forall|k: int| 0 <= k < by_id.pending.len() implies #[trigger] by_id.pending[k] != i by {
        if by_id.pending[k] == i {
            assert(by_id.pending.contains(i));
        }
    }
    assert(followed(begun, frame.tracks@)[i] == by_id.mushrooms[i]);
}

/// A frame that is not the start only moves the mushrooms as tracking does.
pub proof fn law_solving_is_tracking(
    solver: &mut ViolettaSolver,
    tracker: &mut ViolettaSolver,
    frame: ViolettaFrame,
    region: Rect,
    click: Option<Point>,
)
    requires
        call_ensures(ViolettaSolver::solve, (solver, frame, region), click),
        call_ensures(ViolettaSolver::update_tracking, (tracker, frame.tracks), ()),
        old(tracker).mushrooms@ == old(solver).mushrooms@,
        old(solver).is_initialized || frame.tracks.len() != 4 || frame.face is None,
    ensures
        final(solver).mushrooms@ == final(tracker).mushrooms@,
{
}

/// A new solver has four mushrooms, none of them seen and none with Violetta under it, and knows no
/// numbers.
pub proof fn law_new_solver(solver: ViolettaSolver, i: int)
    requires
        call_ensures(ViolettaSolver::default, (), solver),
        0 <= i < 4,
    ensures
        !solver.is_initialized,
        solver.numbers.len() == 0,
        solver.mushrooms.len() == 4,
        !solver.mushrooms@[i].is_violetta,
        solver.mushrooms@[i].last_track_id == 0,
        solver.mushrooms@[i].last_reach == 0,
        solver.mushrooms@[i].last_direction is Neither,
        solver.mushrooms@[i].last_candidate_direction is Neither,
        solver.mushrooms@[i].last_candidate_direction_count == 0,
        solver.mushrooms@[i].last_kalman_rect.x == 0 && solver.mushrooms@[i].last_kalman_rect.y
            == 0,
        solver.mushrooms@[i].last_kalman_rect.width == 0
            && solver.mushrooms@[i].last_kalman_rect.height == 0,
{
    assert(solver.mushrooms@[i] == unseen_mushroom());
}

} // verus!
