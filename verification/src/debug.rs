//! Saving runes for training, and what is drawn on frames to watch the bot at work.

use vstd::prelude::*;

use crate::geometry::{half_of, Point, Rect};
use crate::resources::KeyKind;
use crate::text::{decimal, to_decimal};

verus! {

/// How many random characters make a name.
pub const NAME_LEN: usize = 8;

/// Whether `c` is one of the ASCII letters and digits.
pub open spec fn is_alphanumeric(c: char) -> bool {
    'A' <= c <= 'Z' || 'a' <= c <= 'z' || '0' <= c <= '9'
}

/// `len` letters and digits.
pub open spec fn is_name(text: Seq<char>, len: nat) -> bool {
    text.len() == len && forall|i: int| 0 <= i < text.len() ==> is_alphanumeric(#[trigger] text[i])
}

/// `rand::distr::SampleString::sample_string` of `rand::distr::Alphanumeric`, with the generator
/// that `rand::rng` gives. Its result depends on chance: what is claimed is that it has `len`
/// characters, all of them ASCII letters or digits.
#[verifier::external_body]
fn random_alphanumerics(len: usize) -> (text: String)
    requires
        len <= isize::MAX,
    ensures
        is_name(text@, len as nat),
{
    rand::distr::SampleString::sample_string(
        &rand::distr::Alphanumeric,
        &mut rand::rng(),
        len,
    )
}

/// A name that nothing else is likely to have.
pub fn random_name() -> (name: String)
    ensures
        is_name(name@, NAME_LEN as nat),
{
    random_alphanumerics(NAME_LEN)
}

/// A solved rune: where its four arrows are, which of them spin, and the keys they stand for.
#[derive(Debug, Clone, Copy)]
pub struct ArrowsComplete {
    pub bboxes: [Rect; 4],
    pub spins: [bool; 4],
    pub keys: [KeyKind; 4],
}

impl ArrowsComplete {
    pub open spec fn spec_has_spin(self) -> bool {
        self.spins[0] || self.spins[1] || self.spins[2] || self.spins[3]
    }

    /// Whether any of the arrows spins.
    pub fn has_spin(&self) -> (spin: bool)
        ensures
            spin == self.spec_has_spin(),
    {
        self.spins[0] || self.spins[1] || self.spins[2] || self.spins[3]
    }

    /// Every key is an arrow key.
    pub open spec fn has_arrow_keys(self) -> bool {
        forall|i: int| 0 <= i < 4 ==> (#[trigger] self.keys[i]) !is Code
    }
}

/// The class of an arrow.
pub open spec fn arrow_class(key: KeyKind) -> u32 {
    match key {
        KeyKind::Up => 0,
        KeyKind::Down => 1,
        KeyKind::Left => 2,
        _ => 3,
    }
}

/// The boxes of the first `n` arrows that are labelled, each with its class. A rune with spinning
/// arrows labels only those, all alike.
pub open spec fn labels(result: ArrowsComplete, n: int) -> Seq<(u32, Rect)>
    decreases n,
{
    if n <= 0 {
        Seq::empty()
    } else {
        let before = labels(result, n - 1);
        if !result.spec_has_spin() {
            before.push((arrow_class(result.keys[n - 1]), result.bboxes[n - 1]))
        } else if result.spins[n - 1] {
            before.push((0u32, result.bboxes[n - 1]))
        } else {
            before
        }
    }
}

/// The labelled boxes of a rune.
pub fn training_labels(result: &ArrowsComplete) -> (list: Vec<(u32, Rect)>)
    requires
        !result.spec_has_spin() ==> result.has_arrow_keys(),
    ensures
        list@ == labels(*result, 4),
{
    let has_spin_arrow = result.has_spin();
    let mut list: Vec<(u32, Rect)> = Vec::new();
    let mut i: usize = 0;
    while i < 4
        invariant
            i <= 4,
            has_spin_arrow == result.spec_has_spin(),
            list@ == labels(*result, i as int),
        decreases 4 - i,
    {
        let bbox = result.bboxes[i];
        if has_spin_arrow {
            if result.spins[i] {
                list.push((0, bbox));
            }
        } else {
            let class: u32 = match result.keys[i] {
                KeyKind::Up => 0,
                KeyKind::Down => 1,
                KeyKind::Left => 2,
                _ => 3,
            };
            list.push((class, bbox));
        }
        i += 1;
    }
    list
}

/// The name of a saved rune: runes with spinning arrows are marked.
pub open spec fn rune_name(id: Seq<char>, has_spin: bool) -> Seq<char> {
    if has_spin {
        id + "_spin"@
    } else {
        id
    }
}

/// The names of the image and the label file of a rune.
pub fn rune_files(id: &str, has_spin: bool) -> (files: (String, String))
    ensures
        files.0@ == rune_name(id@, has_spin) + ".png"@,
        files.1@ == rune_name(id@, has_spin) + ".txt"@,
{
    let mut name = String::from_str(id);
    if has_spin {
        name.append("_spin");
    }
    let mut image = String::from_str(name.as_str());
    image.append(".png");
    name.append(".txt");
    (image, name)
}

/// What is to be saved of a rune.
#[derive(Debug)]
pub struct TrainingRune {
    pub image_file: String,
    pub label_file: String,
    pub labels: Vec<(u32, Rect)>,
}

/// Names the files of a rune and labels it.
pub fn save_rune_for_training(result: &ArrowsComplete) -> (rune: TrainingRune)
    requires
        !result.spec_has_spin() ==> result.has_arrow_keys(),
    ensures
        rune.labels@ == labels(*result, 4),
        exists|id: Seq<char>| #[trigger]
            is_name(id, NAME_LEN as nat) && rune.image_file@ == rune_name(
                id,
                result.spec_has_spin(),
            ) + ".png"@ && rune.label_file@ == rune_name(id, result.spec_has_spin()) + ".txt"@,
{
    let id = random_name();
    let (image_file, label_file) = rune_files(id.as_str(), result.has_spin());
    TrainingRune { image_file, label_file, labels: training_labels(result) }
}

/// A track, as far as it is drawn.
#[derive(Debug, Clone, Copy, PartialEq, Eq, Structural)]
pub struct DrawnTrack {
    pub track_id: u64,
    /// Over how many frames it was followed.
    pub tracklet_len: u64,
    pub rect: Rect,
    pub kalman_rect: Rect,
}

/// A box with a text above it.
#[derive(Debug)]
pub struct BoxLabel {
    pub bbox: Rect,
    pub text: String,
    pub at: Point,
}

/// How far above a box its text stands.
pub const LABEL_OFFSET: i32 = 10;

/// There is room for a text above the box.
pub open spec fn has_label_room(bbox: Rect) -> bool {
    bbox.y >= i32::MIN + LABEL_OFFSET
}

/// Where the text of a box stands.
pub fn label_position(bbox: Rect) -> (at: Point)
    requires
        has_label_room(bbox),
    ensures
        at.x == bbox.x,
        at.y == bbox.y - LABEL_OFFSET,
{
    Point::new(bbox.x, bbox.y - LABEL_OFFSET)
}

/// `label` marks the predicted box of `track` with its id.
pub open spec fn labels_track(label: BoxLabel, track: DrawnTrack) -> bool {
    &&& label.bbox == track.kalman_rect
    &&& label.text@ == "Track "@ + decimal(track.track_id as nat)
    &&& label.at.x == track.kalman_rect.x
    &&& label.at.y == track.kalman_rect.y - LABEL_OFFSET
}

/// `boxes` mark `tracks`, one by one.
pub open spec fn label_tracks(boxes: Seq<BoxLabel>, tracks: Seq<DrawnTrack>) -> bool {
    &&& boxes.len() == tracks.len()
    &&& forall|i: int| 0 <= i < tracks.len() ==> labels_track(#[trigger] boxes[i], tracks[i])
}

/// The boxes that are drawn for the tracks.
pub fn track_boxes(tracks: &Vec<DrawnTrack>) -> (boxes: Vec<BoxLabel>)
    requires
        forall|i: int|
            0 <= i < tracks.len() ==> has_label_room((#[trigger] tracks[i]).kalman_rect),
    ensures
        label_tracks(boxes@, tracks@),
{
    let mut boxes: Vec<BoxLabel> = Vec::new();
    let mut i: usize = 0;
    while i < tracks.len()
        invariant
            i <= tracks.len(),
            boxes.len() == i,
            forall|k: int|
                0 <= k < tracks.len() ==> has_label_room((#[trigger] tracks[k]).kalman_rect),
            forall|k: int| 0 <= k < i ==> labels_track(#[trigger] boxes[k], tracks[k]),
        decreases tracks.len() - i,
    {
        let track = tracks[i];
        let mut text = String::from_str("Track ");
        text.append(to_decimal(track.track_id as u128).as_str());
        let at = label_position(track.kalman_rect);
        boxes.push(BoxLabel { bbox: track.kalman_rect, text, at });
        i += 1;
    }
    boxes
}

/// The centre of a box.
pub fn mid_point(rect: Rect) -> (point: Point)
    requires
        rect.has_center(),
    ensures
        point.x == rect.mid_x(),
        point.y == rect.mid_y(),
{
    Point::new(rect.x + half_of(rect.width), rect.y + half_of(rect.height))
}

/// The tracks among the first `n` that were followed long enough to have a direction.
pub open spec fn steady(tracks: Seq<DrawnTrack>, n: int) -> Seq<int>
    decreases n,
{
    if n <= 0 {
        Seq::empty()
    } else if tracks[n - 1].tracklet_len > 1 {
        steady(tracks, n - 1).push(n - 1)
    } else {
        steady(tracks, n - 1)
    }
}

/// `starts` are the steady ones of `tracks`, each with the centre of its box.
pub open spec fn are_arrow_starts(starts: Seq<(usize, Point)>, tracks: Seq<DrawnTrack>) -> bool {
    &&& starts.len() == steady(tracks, tracks.len() as int).len()
    &&& forall|k: int|
        0 <= k < starts.len() ==> {
            &&& (#[trigger] starts[k]).0 == steady(tracks, tracks.len() as int)[k]
            &&& starts[k].1.x == tracks[starts[k].0 as int].rect.mid_x()
            &&& starts[k].1.y == tracks[starts[k].0 as int].rect.mid_y()
        }
}

/// The tracks that get an arrow, each with the point where the arrow starts.
pub fn arrow_starts(tracks: &Vec<DrawnTrack>) -> (starts: Vec<(usize, Point)>)
    requires
        forall|i: int| 0 <= i < tracks.len() ==> (#[trigger] tracks[i]).rect.has_center(),
    ensures
        are_arrow_starts(starts@, tracks@),
{
    let mut starts: Vec<(usize, Point)> = Vec::new();
    let mut i: usize = 0;
    while i < tracks.len()
        invariant
            i <= tracks.len(),
            forall|k: int| 0 <= k < tracks.len() ==> (#[trigger] tracks[k]).rect.has_center(),
            starts.len() == steady(tracks@, i as int).len(),
            forall|k: int|
                0 <= k < starts.len() ==> {
                    &&& (#[trigger] starts[k]).0 == steady(tracks@, i as int)[k]
                    &&& starts[k].1.x == tracks[starts[k].0 as int].rect.mid_x()
                    &&& starts[k].1.y == tracks[starts[k].0 as int].rect.mid_y()
                },
        decreases tracks.len() - i,
    {
        let track = tracks[i];
        if track.tracklet_len > 1 {
            starts.push((i, mid_point(track.rect)));
        }
        i += 1;
    }
    starts
}

/// `moved` are `points`, one by one, each moved by `by`.
pub open spec fn are_shifted(moved: Seq<Point>, points: Seq<Point>, by: Point) -> bool {
    &&& moved.len() == points.len()
    &&& forall|i: int|
        0 <= i < points.len() ==> (#[trigger] moved[i]).x == points[i].x + by.x && moved[i].y
            == points[i].y + by.y
}

/// The points of a region, moved to where the region is on the frame.
pub fn shifted(points: &Vec<Point>, by: Point) -> (moved: Vec<Point>)
    requires
        forall|i: int| 0 <= i < points.len() ==> (#[trigger] points[i]).can_add(by),
    ensures
        are_shifted(moved@, points@, by),
{
    let mut moved: Vec<Point> = Vec::new();
    let mut i: usize = 0;
    while i < points.len()
        invariant
            i <= points.len(),
            moved.len() == i,
            forall|k: int| 0 <= k < points.len() ==> (#[trigger] points[k]).can_add(by),
            forall|k: int|
                0 <= k < i ==> (#[trigger] moved[k]).x == points[k].x + by.x && moved[k].y
                    == points[k].y + by.y,
        decreases points.len() - i,
    {
        moved.push(points[i].offset(by));
        i += 1;
    }
    moved
}

/// The key that closes a window with a frame.
pub const CLOSE_KEY: i32 = 81;

/// Whether a pressed key closes the window.
pub fn closes_window(key: i32) -> (closes: bool)
    ensures
        closes == (key == CLOSE_KEY),
{
    key == CLOSE_KEY
}

/// A rune without spinning arrows labels all four, one with spinning arrows only those, as class
/// zero.
pub proof fn law_labels(result: ArrowsComplete)
    ensures
        !result.spec_has_spin() ==> labels(result, 4).len() == 4,
        result.spec_has_spin() ==> {
            &&& 0 < labels(result, 4).len() <= 4
            &&& forall|i: int|
                0 <= i < labels(result, 4).len() ==> (#[trigger] labels(result, 4)[i]).0 == 0
        },
{
    reveal_with_fuel(labels, 5);
}

/// A name has eight characters, each an ASCII letter or digit.
pub proof fn law_random_name(name: String, i: int)
    requires
        call_ensures(random_name, (), name),
        0 <= i < name@.len(),
    ensures
        name@.len() == 8,
        'A' <= name@[i] <= 'Z' || 'a' <= name@[i] <= 'z' || '0' <= name@[i] <= '9',
{
}

/// A rune spins where any of its four arrows does.
pub proof fn law_any_spin(result: &ArrowsComplete, spin: bool, i: int)
    requires
        call_ensures(ArrowsComplete::has_spin, (result,), spin),
        0 <= i < 4,
    ensures
        result.spins[i] ==> spin,
        !result.spins[0] && !result.spins[1] && !result.spins[2] && !result.spins[3] ==> !spin,
{
}

/// Without spinning arrows every arrow is labelled, in order, by the way that it points.
pub proof fn law_arrows_are_labelled(result: &ArrowsComplete, list: Vec<(u32, Rect)>, i: int)
    requires
        call_ensures(training_labels, (result,), list),
        !result.spins[0] && !result.spins[1] && !result.spins[2] && !result.spins[3],
        0 <= i < 4,
    ensures
        list.len() == 4,
        list@[i].1 == result.bboxes[i],
        result.keys[i] is Up ==> list@[i].0 == 0,
        result.keys[i] is Down ==> list@[i].0 == 1,
        result.keys[i] is Left ==> list@[i].0 == 2,
        result.keys[i] is Right ==> list@[i].0 == 3,
{
    reveal_with_fuel(labels, 5);
}

/// With spinning arrows those are labelled, all alike, in order, and no others.
pub proof fn law_spinning_arrows_are_labelled(result: &ArrowsComplete, list: Vec<(u32, Rect)>)
    requires
        call_ensures(training_labels, (result,), list),
        result.spins[0] || result.spins[1] || result.spins[2] || result.spins[3],
    ensures
        ({
            let count = |n: int|
                (if n > 0 && result.spins[0] {
                    1int
                } else {
                    0
                }) + (if n > 1 && result.spins[1] {
                    1int
                } else {
                    0
                }) + (if n > 2 && result.spins[2] {
                    1int
                } else {
                    0
                }) + (if n > 3 && result.spins[3] {
                    1int
                } else {
                    0
                });
            &&& list.len() == count(4)
            &&& result.spins[0] ==> list@[count(0)] == (0u32, result.bboxes[0])
            &&& result.spins[1] ==> list@[count(1)] == (0u32, result.bboxes[1])
            &&& result.spins[2] ==> list@[count(2)] == (0u32, result.bboxes[2])
            &&& result.spins[3] ==> list@[count(3)] == (0u32, result.bboxes[3])
        }),
{
    reveal_with_fuel(labels, 5);
}

/// The image and the labels of a rune have one name, which tells whether the rune spins.
pub proof fn law_rune_files(
    id: &str,
    still: (String, String),
    spinning: (String, String),
)
    requires
        call_ensures(rune_files, (id, false), still),
        call_ensures(rune_files, (id, true), spinning),
    ensures
        still.0@ == id@ + ".png"@,
        still.1@ == id@ + ".txt"@,
        spinning.0@ == id@ + "_spin"@ + ".png"@,
        spinning.1@ == id@ + "_spin"@ + ".txt"@,
{
}

/// A rune is saved with its labels, under a new name of eight letters and digits.
pub proof fn law_rune_is_saved(
    result: &ArrowsComplete,
    rune: TrainingRune,
    list: Vec<(u32, Rect)>,
    spin: bool,
)
    requires
        call_ensures(save_rune_for_training, (result,), rune),
        call_ensures(training_labels, (result,), list),
        call_ensures(ArrowsComplete::has_spin, (result,), spin),
    ensures
        rune.labels@ == list@,
        exists|id: Seq<char>| #[trigger]
            is_name(id, 8) && if spin {
                rune.image_file@ == id + "_spin"@ + ".png"@ && rune.label_file@ == id + "_spin"@
                    + ".txt"@
            } else {
                rune.image_file@ == id + ".png"@ && rune.label_file@ == id + ".txt"@
            },
{
}

/// The text of a box starts where the box does, ten above it.
pub proof fn law_label_position(bbox: Rect, at: Point)
    requires
        call_ensures(label_position, (bbox,), at),
    ensures
        at.x == bbox.x,
        at.y == bbox.y - 10,
{
}

/// Every track is drawn as the box where it is predicted, with its id ten above it.
pub proof fn law_track_boxes(
    tracks: &Vec<DrawnTrack>,
    boxes: Vec<BoxLabel>,
    i: int,
    id: String,
)
    requires
        call_ensures(track_boxes, (tracks,), boxes),
        0 <= i < tracks.len(),
        call_ensures(to_decimal, (tracks@[i].track_id as u128,), id),
    ensures
        boxes.len() == tracks.len(),
        boxes@[i].bbox == tracks@[i].kalman_rect,
        boxes@[i].text@ == "Track "@ + id@,
        boxes@[i].at.x == tracks@[i].kalman_rect.x,
        boxes@[i].at.y == tracks@[i].kalman_rect.y - 10,
{
    assert(labels_track(boxes@[i], tracks@[i]));
}

/// The centre of a box that has a size is half of it away from its corner.
pub proof fn law_mid_point(rect: Rect, point: Point)
    requires
        call_ensures(mid_point, (rect,), point),
        rect.width >= 0,
        rect.height >= 0,
    ensures
        point.x == rect.x + rect.width as int / 2,
        point.y == rect.y + rect.height as int / 2,
{
}

/// The steady tracks are those that were followed over more than one frame, in order.
proof fn lemma_steady(tracks: Seq<DrawnTrack>, n: int)
    requires
        0 <= n <= tracks.len(),
    ensures
        forall|i: int|
            0 <= i < n ==> ((#[trigger] tracks[i]).tracklet_len > 1 <==> steady(
                tracks,
                n,
            ).contains(i)),
        forall|k: int| 0 <= k < steady(tracks, n).len() ==> 0 <= #[trigger] steady(tracks, n)[k] < n,
        forall|j: int, k: int|
            0 <= j < k < steady(tracks, n).len() ==> #[trigger] steady(tracks, n)[j]
                < #[trigger] steady(tracks, n)[k],
    decreases n,
{
    if n > 0 {
        lemma_steady(tracks, n - 1);
        let before = steady(tracks, n - 1);
        let after = steady(tracks, n);
        assert forall|i: int| 0 <= i < n implies ((#[trigger] tracks[i]).tracklet_len > 1
            <==> after.contains(i)) by {
            if i < n - 1 {
                if before.contains(i) {
                    let k = choose|k: int| 0 <= k < before.len() && before[k] == i;
                    assert(after[k] == i);
                }
                if after.contains(i) {
                    let k = choose|k: int| 0 <= k < after.len() && after[k] == i;
                    assert(before[k] == i);
                }
            } else {
                if tracks[i].tracklet_len > 1 {
                    assert(after[after.len() - 1] == i);
                }
                if after.contains(i) {
                    let k = choose|k: int| 0 <= k < after.len() && after[k] == i;
                    assert(k < before.len() ==> before[k] == i);
                }
            }
        }
    }
}

/// A track gets an arrow exactly where it was followed over more than one frame. The arrow starts in
/// the middle of where the track was seen, and arrows come in the order of the tracks.
pub proof fn law_arrow_starts(
    tracks: &Vec<DrawnTrack>,
    starts: Vec<(usize, Point)>,
    i: int,
    k: int,
)
    requires
        call_ensures(arrow_starts, (tracks,), starts),
        0 <= i < tracks.len(),
        0 <= k < starts.len(),
    ensures
        tracks@[i].tracklet_len > 1 <==> exists|j: int|
            0 <= j < starts.len() && (#[trigger] starts@[j]).0 == i,
        starts@[k].0 < tracks.len(),
        starts@[k].1.x == tracks@[starts@[k].0 as int].rect.mid_x(),
        starts@[k].1.y == tracks@[starts@[k].0 as int].rect.mid_y(),
        k > 0 ==> starts@[k - 1].0 < starts@[k].0,
{
    let n = tracks.len() as int;
    lemma_steady(tracks@, n);
    let all = steady(tracks@, n);
    assert(starts@[k].0 == all[k]);
    if k > 0 {
        assert(starts@[k - 1].0 == all[k - 1]);
    }
    if all.contains(i) {
        let j = choose|j: int| 0 <= j < all.len() && all[j] == i;
        assert(starts@[j].0 == i);
    }
    if exists|j: int| 0 <= j < starts.len() && (#[trigger] starts@[j]).0 == i {
        let j = choose|j: int| 0 <= j < starts.len() && (#[trigger] starts@[j]).0 == i;
        assert(all[j] == i);
        assert(all.contains(i));
    }
}

/// A track gets no arrow where nothing gets one, unless it was followed.
pub proof fn law_no_arrow_starts(tracks: &Vec<DrawnTrack>, starts: Vec<(usize, Point)>, i: int)
    requires
        call_ensures(arrow_starts, (tracks,), starts),
        0 <= i < tracks.len(),
        starts.len() == 0,
    ensures
        tracks@[i].tracklet_len <= 1,
{
    lemma_steady(tracks@, tracks.len() as int);
    assert(!steady(tracks@, tracks.len() as int).contains(i));
}

/// Every point moves by the same amount, right and down.
pub proof fn law_shifted(points: &Vec<Point>, by: Point, moved: Vec<Point>, i: int)
    requires
        call_ensures(shifted, (points, by), moved),
        0 <= i < points.len(),
    ensures
        moved.len() == points.len(),
        moved@[i].x - points@[i].x == by.x,
        moved@[i].y - points@[i].y == by.y,
{
    assert(moved@[i].x == points@[i].x + by.x);
}

/// One key closes a window, and no other does.
pub proof fn law_close_key(key: i32, closes: bool)
    requires
        call_ensures(closes_window, (key,), closes),
    ensures
        closes <==> key == 81,
{
}

} // verus!
