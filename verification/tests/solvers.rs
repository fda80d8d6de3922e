use bot_core::geometry::{Point, Rect};
use bot_core::solvers::shape::{best_blob, Anchor, Blob, ShapeFrame, TransparentShapeSolver};
use bot_core::solvers::violetta::{
    track_score, update_mushroom_from_track, x_score, y_score, Direction, Mushroom, Track,
    ViolettaFrame, ViolettaSolver,
};

fn track(track_id: u64, x: i32, y: i32) -> Track {
    Track {
        track_id,
        rect: Rect::new(x, y, 20, 20),
        kalman_rect: Rect::new(x, y, 20, 20),
        direction: Direction::Neither,
        reach: 30,
    }
}

fn four() -> Vec<Track> {
    vec![track(1, 0, 0), track(2, 100, 0), track(3, 200, 0), track(4, 300, 0)]
}

fn frame(tracks: Vec<Track>) -> ViolettaFrame {
    ViolettaFrame { tracks, numbers: vec![], face: None }
}

fn started() -> ViolettaSolver {
    let mut solver = ViolettaSolver::default();
    let first = ViolettaFrame {
        tracks: four(),
        numbers: vec![Rect::new(0, 50, 40, 10), Rect::new(190, 50, 40, 10)],
        face: Some(Rect::new(205, 5, 5, 5)),
    };
    assert!(solver.wants_numbers());
    assert!(solver.wants_face(&first.tracks));
    assert!(solver.can_solve(&first));
    let click = solver.solve(first, Rect::new(1000, 2000, 500, 500));
    assert_eq!(click, Some(Point::new(1210, 2055)));
    solver
}

fn ids(solver: &ViolettaSolver) -> Vec<u64> {
    solver.mushrooms.iter().map(|mushroom| mushroom.last_track_id).collect()
}

fn violettas(solver: &ViolettaSolver) -> Vec<bool> {
    solver.mushrooms.iter().map(|mushroom| mushroom.is_violetta).collect()
}

#[test]
fn violetta_starts_under_her_face() {
    let solver = started();
    assert!(solver.is_initialized);
    assert!(!solver.wants_numbers());
    assert!(!solver.wants_face(&four()));
    assert_eq!(ids(&solver), vec![1, 2, 3, 4]);
    assert_eq!(violettas(&solver), vec![false, false, true, false]);
}

#[test]
fn violetta_needs_four_tracks_and_a_face() {
    let mut solver = ViolettaSolver::default();
    let three = vec![track(1, 0, 0), track(2, 100, 0), track(3, 200, 0)];
    assert_eq!(solver.solve(frame(three), Rect::new(0, 0, 1, 1)), None);
    assert!(!solver.is_initialized);
    assert_eq!(solver.solve(frame(four()), Rect::new(0, 0, 1, 1)), None);
    assert!(!solver.is_initialized);
}

#[test]
fn violetta_cannot_answer_without_a_hiding_place() {
    let solver = ViolettaSolver::default();
    let nowhere = ViolettaFrame {
        tracks: four(),
        numbers: vec![Rect::new(0, 50, 40, 10)],
        face: Some(Rect::new(900, 900, 5, 5)),
    };
    assert!(!solver.can_solve(&nowhere));
}

#[test]
fn violetta_is_followed_by_id() {
    let mut solver = started();
    let shuffled = vec![track(3, 5, 0), track(1, 205, 0), track(2, 100, 0), track(4, 300, 0)];
    let click = solver.solve(frame(shuffled), Rect::new(0, 0, 500, 500));
    assert_eq!(click, Some(Point::new(20, 55)));
    assert_eq!(ids(&solver), vec![1, 2, 3, 4]);
    assert_eq!(solver.mushrooms[2].last_kalman_rect, Rect::new(5, 0, 20, 20));
}

#[test]
fn violetta_between_numbers_is_not_answered() {
    let mut solver = started();
    let shuffled = vec![track(3, 120, 0), track(1, 205, 0), track(2, 100, 0), track(4, 300, 0)];
    assert_eq!(solver.solve(frame(shuffled), Rect::new(0, 0, 500, 500)), None);
}

#[test]
fn violetta_lost_ids_take_the_nearest_track() {
    let mut solver = started();
    let renamed = vec![track(9, 310, 0), track(8, 190, 2), track(1, 0, 0), track(2, 100, 0)];
    solver.solve(frame(renamed), Rect::new(0, 0, 500, 500));
    assert_eq!(ids(&solver), vec![1, 2, 8, 9]);
    assert_eq!(violettas(&solver), vec![false, false, true, false]);
}

#[test]
fn violetta_guesses_stay_near_when_tracks_are_missing() {
    let mut solver = started();
    let missing = vec![track(1, 0, 0), track(2, 100, 0), track(9, 205, 0)];
    solver.solve(frame(missing), Rect::new(0, 0, 500, 500));
    assert_eq!(ids(&solver), vec![1, 2, 9, 4]);

    let mut solver = started();
    let far_below = vec![track(1, 0, 0), track(2, 100, 0), track(9, 205, 12)];
    solver.solve(frame(far_below), Rect::new(0, 0, 500, 500));
    assert_eq!(ids(&solver), vec![1, 2, 3, 4]);

    let mut solver = started();
    let far_aside = vec![track(1, 0, 0), track(2, 100, 0), track(9, 230, 0)];
    solver.solve(frame(far_aside), Rect::new(0, 0, 500, 500));
    assert_eq!(ids(&solver), vec![1, 2, 3, 4]);
}

#[test]
fn violetta_equally_near_tracks_are_taken_in_order() {
    let mut solver = started();
    let tied = vec![track(1, 0, 0), track(2, 100, 0), track(8, 210, 0), track(9, 190, 0)];
    solver.solve(frame(tied), Rect::new(0, 0, 500, 500));
    assert_eq!(ids(&solver), vec![1, 2, 8, 9]);
}

#[test]
fn violetta_no_track_is_taken_twice() {
    let mut solver = started();
    solver.solve(frame(vec![track(7, 200, 0)]), Rect::new(0, 0, 500, 500));
    let mut after = ids(&solver);
    after.sort();
    after.dedup();
    assert_eq!(after.len(), 4);
    solver.solve(frame(vec![]), Rect::new(0, 0, 500, 500));
    assert_eq!(violettas(&solver), vec![false, false, true, false]);
}

#[test]
fn scores_measure_the_front_edge() {
    let last = Rect::new(10, 10, 20, 10);
    let rect = Rect::new(14, 4, 30, 10);
    assert_eq!(x_score(rect, Direction::Left, last), 4);
    assert_eq!(x_score(rect, Direction::Right, last), 14);
    assert_eq!(x_score(rect, Direction::Neither, last), 9);
    assert_eq!(y_score(rect, last), 6);
    let solver = started();
    assert_eq!(track_score(&track(1, 3, 4), &solver.mushrooms[0]), 7);
}

#[test]
fn directions_are_believed_on_the_second_sighting() {
    let mut mushroom: Mushroom = started().mushrooms[0];
    let mut right = track(1, 0, 0);
    right.direction = Direction::Right;
    let before = mushroom.last_direction;
    update_mushroom_from_track(&mut mushroom, &right);
    assert_eq!(mushroom.last_direction, before);
    assert_eq!(mushroom.last_candidate_direction, Direction::Right);
    update_mushroom_from_track(&mut mushroom, &right);
    assert_eq!(mushroom.last_direction, Direction::Right);
    assert_eq!(mushroom.last_candidate_direction_count, 0);
}

fn blob(area: i32, near_anchor: bool) -> Blob {
    Blob { area, near_anchor }
}

#[test]
fn largest_eligible_blob_wins() {
    assert_eq!(best_blob(&vec![]), None);
    assert_eq!(best_blob(&vec![blob(5, true), blob(4001, true), blob(100, false)]), None);
    assert_eq!(best_blob(&vec![blob(6, true), blob(4000, true), blob(4000, true)]), Some(1));
    assert_eq!(best_blob(&vec![blob(50, true), blob(60, false), blob(20, true)]), Some(0));
}

fn shape_frame(cursor: Option<i64>, target: Option<i64>, local: Point) -> ShapeFrame<i64> {
    ShapeFrame { cursor, target, velocity: 77, reckoned: 88, local }
}

#[test]
fn shape_anchor_prefers_the_shape() {
    let mut solver: TransparentShapeSolver<i64> = TransparentShapeSolver::new(0);
    assert!(matches!(solver.anchor(None), Anchor::Unknown));
    assert!(matches!(solver.anchor(Some(5)), Anchor::Cursor(5)));
    solver.last_cursor = Some(6);
    assert!(matches!(solver.anchor(None), Anchor::Cursor(6)));
    solver.last_target = Some(7);
    assert!(matches!(solver.anchor(Some(5)), Anchor::Predicted { from: 7, by: 0 }));
}

#[test]
fn shape_frames_compare_by_size() {
    let mut solver: TransparentShapeSolver<i64> = TransparentShapeSolver::new(0);
    assert!(!solver.next_frame((3, 4)));
    assert!(solver.next_frame((3, 4)));
    assert!(!solver.next_frame((3, 5)));
    assert_eq!(solver.prev_size, Some((3, 5)));
}

#[test]
fn shape_hits_are_remembered() {
    let region = Rect::new(100, 200, 50, 50);
    let mut solver: TransparentShapeSolver<i64> = TransparentShapeSolver::new(0);
    let click = solver.solve(shape_frame(Some(1), Some(10), Point::new(7, 8)), region);
    assert_eq!(click, Some(Point::new(107, 208)));
    assert_eq!(solver.last_target, Some(10));
    assert_eq!(solver.last_cursor, Some(1));
    assert_eq!(solver.velocity, 0);
    solver.miss_count = 9;
    solver.solve(shape_frame(None, Some(11), Point::new(7, 8)), region);
    assert_eq!(solver.velocity, 77);
    assert_eq!(solver.miss_count, 0);
    assert_eq!(solver.last_cursor, Some(1));
}

#[test]
fn shape_misses_are_guessed_for_a_while() {
    let region = Rect::new(0, 0, 50, 50);
    let mut solver: TransparentShapeSolver<i64> = TransparentShapeSolver::new(0);
    assert_eq!(solver.solve(shape_frame(None, None, Point::new(1, 1)), region), None);
    assert_eq!(solver.miss_count, 0);
    for miss in 1..=20 {
        let click = solver.solve(shape_frame(Some(3), None, Point::new(1, 1)), region);
        assert_eq!(click, Some(Point::new(1, 1)));
        assert_eq!(solver.miss_count, miss);
        assert_eq!(solver.last_target, Some(88));
    }
    assert_eq!(solver.solve(shape_frame(None, None, Point::new(1, 1)), region), None);
    assert_eq!(solver.solve(shape_frame(None, None, Point::new(1, 1)), region), None);
    assert_eq!(solver.miss_count, 22);
    assert!(solver.solve(shape_frame(None, Some(4), Point::new(1, 1)), region).is_some());
}

#[test]
fn shape_positions_outside_the_region_are_dropped() {
    let region = Rect::new(10, 10, 5, 5);
    let mut solver: TransparentShapeSolver<i64> = TransparentShapeSolver::new(0);
    assert_eq!(solver.solve(shape_frame(None, Some(1), Point::new(5, 0)), region), None);
    assert_eq!(solver.last_target, Some(1));
    assert_eq!(solver.solve(shape_frame(None, Some(1), Point::new(-1, 0)), region), None);
    assert_eq!(
        solver.solve(shape_frame(None, Some(1), Point::new(4, 4)), region),
        Some(Point::new(14, 14))
    );
}
