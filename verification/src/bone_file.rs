//! The skeleton part of a bone file. Line by line, a line whose first word is
//! `BONECOUNT:` gives the number of bones in its second word, and a line whose first
//! word is `BONE_NAME:` starts a bone named by its second word: the next line gives the
//! bone's parent index in its second word (-1 for none), the line after is skipped,
//! and the four lines after that hold the rows of the bone's offset matrix, four
//! numbers each. Scanning goes on after the last of those rows. Other lines are
//! skipped. The numbers of the offset rows are read by the caller.
//!
//! The animation part is read in a second pass over the whole file. A line whose first
//! word is `ANIMATION_NAME:` closes the clip being read, if any, and opens the clip
//! named by its second word; `DURATION:` sets the clip's duration and `FPS:` the
//! frame rate, which stays in force until the next `FPS:` line; `TIMESTAMP:` starts a
//! keyframe whose position, rotation and scale rows for each bone follow, four lines
//! per bone of which the fourth is skipped. The end of the file closes the last clip.
//! A closed clip must name an animation type; the clips that play once do not loop,
//! and each clip loses its first keyframe. The numbers are read by the caller.
//!
//! Loading the file for an animator keeps one clip per animation type, the last one
//! read of each; the animator starts on the last clip of the file, as its current and
//! its next clip, and that clip is also handed out with all its keyframes, the first
//! one included. A skeleton needs a bone without a parent, and every parent index
//! must name a bone.
use crate::animation::{is_one_shot_clip, spec_is_one_shot_clip, AnimationSelection};
use crate::skeleton::{
    build_bone_hierarchy, find_root_bone, has_root, lists_children_of, parents_in_range, BoneHierarchy,
};
use crate::enums_types::AnimationType;
use crate::numbers::{parse_i32_chars, parse_u32_chars, spec_parse_i32, spec_parse_u32};
use crate::text::{chars_eq, chars_of, split_lines, split_words, string_from_chars, text_lines, words};
use vstd::prelude::*;

verus! {

/// The parent that a parent index names: -1 names none.
pub open spec fn parent_of_index(v: i32) -> Option<u32> {
    if v == -1 {
        None
    } else {
        Some(v as u32)
    }
}

/// The four lines from `first` on each hold at least four words.
pub open spec fn offset_rows_present(lines: Seq<Seq<char>>, first: int) -> bool {
    &&& words(lines[first]).len() >= 4
    &&& words(lines[first + 1]).len() >= 4
    &&& words(lines[first + 2]).len() >= 4
    &&& words(lines[first + 3]).len() >= 4
}

/// The bones listed from line `i` on, each as its name, its parent and the line of its
/// first offset row, with the bone count the last `BONECOUNT:` line from there on
/// gives; None when a line there cannot be read as the format asks.
pub open spec fn scan_bones(lines: Seq<Seq<char>>, i: nat) -> Option<
    (Seq<(Seq<char>, Option<u32>, int)>, Option<u32>),
>
    decreases lines.len() - i,
{
    if i >= lines.len() {
        Some((Seq::empty(), None))
    } else {
        let w = words(lines[i as int]);
        if w.len() > 0 && w[0] == "BONECOUNT:"@ {
            if w.len() < 2 || spec_parse_u32(w[1]) is None {
                None
            } else {
                match scan_bones(lines, i + 1) {
                    None => None,
                    Some((bones, count)) => Some(
                        (bones, if count is Some { count } else { spec_parse_u32(w[1]) }),
                    ),
                }
            }
        } else if w.len() > 0 && w[0] == "BONE_NAME:"@ {
            if w.len() < 2 || i + 6 >= lines.len() {
                None
            } else {
                let pw = words(lines[i + 1 as int]);
                if pw.len() < 2 || spec_parse_i32(pw[1]) is None || !offset_rows_present(
                    lines,
                    i + 3 as int,
                ) {
                    None
                } else {
                    match scan_bones(lines, i + 7) {
                        None => None,
                        Some((bones, count)) => Some(
                            (
                                seq![(w[1], parent_of_index(spec_parse_i32(pw[1]).unwrap()), i + 3 as int)]
                                    + bones,
                                count,
                            ),
                        ),
                    }
                }
            }
        } else {
            scan_bones(lines, i + 1)
        }
    }
}

/// The result of scanning the lines before some point, joined to that of scanning
/// the rest.
pub open spec fn joined(
    bones: Seq<(Seq<char>, Option<u32>, int)>,
    count: Option<u32>,
    rest: Option<(Seq<(Seq<char>, Option<u32>, int)>, Option<u32>)>,
) -> Option<(Seq<(Seq<char>, Option<u32>, int)>, Option<u32>)> {
    match rest {
        None => None,
        Some((more, c)) => Some((bones + more, if c is Some { c } else { count })),
    }
}

/// A bone as the skeleton lists it.
#[derive(Debug)]
pub struct BoneRecord {
    pub name: String,
    pub parent: Option<u32>,
    /// the line where the four rows of the bone's offset matrix begin
    pub offset_row: usize,
}

impl BoneRecord {
    pub open spec fn spec_view(&self) -> (Seq<char>, Option<u32>, int) {
        (self.name@, self.parent, self.offset_row as int)
    }
}

/// The skeleton part of a bone file.
#[derive(Debug)]
pub struct SkeletonScan {
    pub bone_count: Option<u32>,
    pub bones: Vec<BoneRecord>,
}

/// Scans the skeleton part of a bone file; None when a line cannot be read as the
/// format asks.
pub fn scan_skeleton(text: &str) -> (r: Option<SkeletonScan>)
    ensures
        match scan_bones(text_lines(text@), 0) {
            None => r is None,
            Some((bones, count)) => r matches Some(sc) && sc.bone_count == count && sc.bones@.len()
                == bones.len() && forall|k: int|
                0 <= k < bones.len() ==> (#[trigger] sc.bones@[k]).spec_view() == bones[k],
        },
{
    let chars = chars_of(text);
    let lines = split_lines(&chars);
    scan_skeleton_lines(&lines, Ghost(text_lines(text@)))
}

fn scan_skeleton_lines(lines: &Vec<Vec<char>>, Ghost(ls): Ghost<Seq<Seq<char>>>) -> (r: Option<SkeletonScan>)
    requires
        lines@.len() == ls.len(),
        forall|k: int| 0 <= k < lines@.len() ==> (#[trigger] lines@[k])@ == ls[k],
    ensures
        match scan_bones(ls, 0) {
            None => r is None,
            Some((bones, count)) => r matches Some(sc) && sc.bone_count == count && sc.bones@.len()
                == bones.len() && forall|k: int|
                0 <= k < bones.len() ==> (#[trigger] sc.bones@[k]).spec_view() == bones[k],
        },
{
    let count_word = chars_of("BONECOUNT:");
    let name_word = chars_of("BONE_NAME:");
    let mut bones: Vec<BoneRecord> = Vec::new();
    let ghost mut bone_views: Seq<(Seq<char>, Option<u32>, int)> = Seq::empty();
    let mut count: Option<u32> = None;
    let mut i: usize = 0;
    while i < lines.len()
        invariant
            i <= lines.len(),
            lines@.len() == ls.len(),
            forall|k: int| 0 <= k < lines@.len() ==> (#[trigger] lines@[k])@ == ls[k],
            count_word@ == "BONECOUNT:"@,
            name_word@ == "BONE_NAME:"@,
            bones@.len() == bone_views.len(),
            forall|k: int| 0 <= k < bones@.len() ==> (#[trigger] bones@[k]).spec_view() == bone_views[k],
            scan_bones(ls, 0) == joined(bone_views, count, scan_bones(ls, i as nat)),
        decreases lines.len() - i,
    {
        let mut w = split_words(&lines[i]);
        assert(lines@[i as int]@ == ls[i as int]);
        if w.len() > 0 && chars_eq(&w[0], &count_word) {
            if w.len() < 2 {
                return None;
            }
            match parse_u32_chars(&w[1]) {
                None => {
                    return None;
                },
                Some(v) => {
                    count = Some(v);
                },
            }
            i = i + 1;
        } else if w.len() > 0 && chars_eq(&w[0], &name_word) {
            if w.len() < 2 || lines.len() - i <= 6 {
                return None;
            }
            let pw = split_words(&lines[i + 1]);
            assert(lines@[i + 1]@ == ls[i + 1]);
            if pw.len() < 2 {
                return None;
            }
            let parent_index = match parse_i32_chars(&pw[1]) {
                None => {
                    return None;
                },
                Some(v) => v,
            };
            let rows_ok = split_words(&lines[i + 3]).len() >= 4 && split_words(&lines[i + 4]).len()
                >= 4 && split_words(&lines[i + 5]).len() >= 4 && split_words(&lines[i + 6]).len() >= 4;
            assert(lines@[i + 3]@ == ls[i + 3]);
            assert(lines@[i + 4]@ == ls[i + 4]);
            assert(lines@[i + 5]@ == ls[i + 5]);
            assert(lines@[i + 6]@ == ls[i + 6]);
            if !rows_ok {
                return None;
            }
            let name_chars = w.remove(1);
            let parent = if parent_index == -1 {
                None
            } else {
                Some(parent_index as u32)
            };
            let record = BoneRecord { name: string_from_chars(name_chars), parent, offset_row: i + 3 };
            let ghost rv = record.spec_view();
            let ghost before = bone_views;
            let ghost old_bones = bones@;
            bones.push(record);
            proof {
                bone_views = bone_views.push(rv);
                assert forall|k: int| 0 <= k < bones@.len() implies (#[trigger] bones@[k]).spec_view()
                    == bone_views[k] by {
                    if k < before.len() {
                        assert(bones@[k] == old_bones[k]);
                    }
                }
                match scan_bones(ls, (i + 7) as nat) {
                    None => {},
                    Some((more, c)) => {
                        assert(before + (seq![rv] + more) =~= bone_views + more);
                    },
                }
            }
            i = i + 7;
        } else {
            i = i + 1;
        }
    }
    Some(SkeletonScan { bone_count: count, bones })
}

/// A clip as the animation part lists it: its animation type, whether it loops, the
/// line of its duration, the line of the frame rate in force when it closed, the
/// `TIMESTAMP:` lines of the keyframes it keeps, and the `TIMESTAMP:` line of the
/// first keyframe, which it drops.
pub type ClipView = (AnimationType, bool, Option<int>, Option<int>, Seq<int>, Option<int>);

/// The clip named `name`, closed with the duration line `dur`, the frame-rate line
/// `fps` and the keyframe lines `keys`; None when the name names no animation type.
pub open spec fn closed_clip(name: Seq<char>, dur: Option<int>, fps: Option<int>, keys: Seq<int>) -> Option<ClipView> {
    match AnimationType::spec_from_name(name) {
        None => None,
        Some(a) => Some(
            (
                a,
                !spec_is_one_shot_clip(name),
                dur,
                fps,
                if keys.len() > 0 {
                    keys.drop_first()
                } else {
                    keys
                },
                if keys.len() > 0 {
                    Some(keys[0])
                } else {
                    None
                },
            ),
        ),
    }
}

/// The rows of bone `k` of the keyframe at line `t`: a position, a rotation and a
/// scale.
pub open spec fn key_rows_present(lines: Seq<Seq<char>>, t: int, k: int) -> bool {
    &&& t + 3 + 4 * k < lines.len()
    &&& words(lines[t + 1 + 4 * k]).len() >= 3
    &&& words(lines[t + 2 + 4 * k]).len() >= 4
    &&& words(lines[t + 3 + 4 * k]).len() >= 3
}

/// The keyframe at line `t` can be read for `bone_count` bones of the `bones_known`
/// the skeleton lists.
pub open spec fn keyframe_readable(lines: Seq<Seq<char>>, t: int, bone_count: nat, bones_known: nat) -> bool {
    &&& bone_count <= bones_known
    &&& forall|k: int| 0 <= k < bone_count ==> #[trigger] key_rows_present(lines, t, k)
}

/// The clips closed from line `i` on, given the clip open there (its name, duration
/// line and keyframe lines) and the frame-rate line in force; None when a line cannot
/// be read as the format asks or a closed clip names no animation type.
pub open spec fn scan_clips(
    lines: Seq<Seq<char>>,
    bone_count: nat,
    bones_known: nat,
    i: nat,
    name: Option<Seq<char>>,
    dur: Option<int>,
    keys: Seq<int>,
    fps: Option<int>,
) -> Option<Seq<ClipView>>
    decreases (if i >= lines.len() {
        0
    } else {
        lines.len() - i
    }),
{
    if i >= lines.len() {
        match name {
            None => None,
            Some(n) => match closed_clip(n, dur, fps, keys) {
                None => None,
                Some(c) => Some(seq![c]),
            },
        }
    } else {
        let w = words(lines[i as int]);
        if w.len() > 0 && w[0] == "ANIMATION_NAME:"@ {
            if w.len() < 2 {
                None
            } else {
                let saved: Option<Seq<ClipView>> = match name {
                    None => Some(Seq::empty()),
                    Some(n) => match closed_clip(n, dur, fps, keys) {
                        None => None,
                        Some(c) => Some(seq![c]),
                    },
                };
                match saved {
                    None => None,
                    Some(sv) => match scan_clips(lines, bone_count, bones_known, i + 1, Some(w[1]), None, Seq::empty(), fps) {
                        None => None,
                        Some(rest) => Some(sv + rest),
                    },
                }
            }
        } else if w.len() > 0 && w[0] == "DURATION:"@ {
            if w.len() < 2 {
                None
            } else {
                scan_clips(lines, bone_count, bones_known, i + 1, name, Some(i as int), keys, fps)
            }
        } else if w.len() > 0 && w[0] == "FPS:"@ {
            if w.len() < 2 {
                None
            } else {
                scan_clips(lines, bone_count, bones_known, i + 1, name, dur, keys, Some(i as int))
            }
        } else if w.len() > 0 && w[0] == "TIMESTAMP:"@ {
            if w.len() < 2 || !keyframe_readable(lines, i as int, bone_count, bones_known) {
                None
            } else {
                scan_clips(
                    lines,
                    bone_count,
                    bones_known,
                    i + 1 + 4 * bone_count,
                    name,
                    dur,
                    keys.push(i as int),
                    fps,
                )
            }
        } else {
            scan_clips(lines, bone_count, bones_known, i + 1, name, dur, keys, fps)
        }
    }
}

/// A clip as the animation part lists it.
#[derive(Debug)]
pub struct ClipRecord {
    pub name: AnimationType,
    pub looping: bool,
    /// the line of the clip's duration
    pub duration_row: Option<usize>,
    /// the line of the frame rate in force when the clip closed
    pub fps_row: Option<usize>,
    /// the `TIMESTAMP:` lines of the keyframes the clip keeps
    pub keyframes: Vec<usize>,
    /// the `TIMESTAMP:` line of the clip's first keyframe, which it drops
    pub first_keyframe: Option<usize>,
}

impl ClipRecord {
    pub open spec fn spec_view(&self) -> ClipView {
        (
            self.name,
            self.looping,
            match self.duration_row {
                Some(r) => Some(r as int),
                None => None,
            },
            match self.fps_row {
                Some(r) => Some(r as int),
                None => None,
            },
            self.keyframes@.map_values(|r: usize| r as int),
            match self.first_keyframe {
                Some(r) => Some(r as int),
                None => None,
            },
        )
    }
}

fn close_clip(name: Vec<char>, dur: Option<usize>, fps: Option<usize>, keys: Vec<usize>) -> (r: Option<ClipRecord>)
    ensures
        match closed_clip(
            name@,
            match dur {
                Some(v) => Some(v as int),
                None => None,
            },
            match fps {
                Some(v) => Some(v as int),
                None => None,
            },
            keys@.map_values(|r: usize| r as int),
        ) {
            None => r is None,
            Some(c) => r matches Some(rec) && rec.spec_view() == c,
        },
{
    let ghost name_view = name@;
    let text = string_from_chars(name);
    let kind = match AnimationType::try_from_name(text.as_str()) {
        None => {
            return None;
        },
        Some(k) => k,
    };
    let looping = !is_one_shot_clip(text.as_str());
    let mut kept = keys;
    let ghost all = kept@;
    let mut first_keyframe: Option<usize> = None;
    if kept.len() > 0 {
        first_keyframe = Some(kept.remove(0));
    }
    let rec = ClipRecord { name: kind, looping, duration_row: dur, fps_row: fps, keyframes: kept, first_keyframe };
    proof {
        let m = all.map_values(|r: usize| r as int);
        if all.len() > 0 {
            assert(rec.keyframes@.map_values(|r: usize| r as int) =~= m.drop_first());
        } else {
            assert(rec.keyframes@.map_values(|r: usize| r as int) =~= m);
        }
    }
    Some(rec)
}

/// A name as characters, seen as a sequence.
pub open spec fn name_view(o: Option<Vec<char>>) -> Option<Seq<char>> {
    match o {
        Some(v) => Some(v@),
        None => None,
    }
}

/// A line number, seen as an integer.
pub open spec fn row_view(o: Option<usize>) -> Option<int> {
    match o {
        Some(v) => Some(v as int),
        None => None,
    }
}

/// Line numbers, seen as integers.
pub open spec fn rows_view(rows: Seq<usize>) -> Seq<int> {
    rows.map_values(|r: usize| r as int)
}

/// The clips closed before some line, joined to those closed from that line on.
pub open spec fn joined_clips(done: Seq<ClipView>, rest: Option<Seq<ClipView>>) -> Option<Seq<ClipView>> {
    match rest {
        None => None,
        Some(r) => Some(done + r),
    }
}

fn keyframe_rows_ok(
    lines: &Vec<Vec<char>>,
    Ghost(ls): Ghost<Seq<Seq<char>>>,
    t: usize,
    bone_count: u32,
    bones_known: usize,
) -> (b: bool)
    requires
        t < lines@.len(),
        lines@.len() == ls.len(),
        forall|k: int| 0 <= k < lines@.len() ==> (#[trigger] lines@[k])@ == ls[k],
    ensures
        b == keyframe_readable(ls, t as int, bone_count as nat, bones_known as nat),
{
    if bone_count as usize > bones_known {
        return false;
    }
    let bc = bone_count as usize;
    if (lines.len() - t) / 4 < bc {
        proof {
            let span = (lines.len() - t) as int;
            vstd::arithmetic::div_mod::lemma_fundamental_div_mod(span, 4);
            assert(!key_rows_present(ls, t as int, bc - 1));
        }
        return false;
    }
    proof {
        let span = (lines.len() - t) as int;
        vstd::arithmetic::div_mod::lemma_fundamental_div_mod(span, 4);
    }
    let mut k: usize = 0;
    while k < bc
        invariant
            k <= bc,
            bc == bone_count as usize,
            bc <= bones_known,
            4 * bc <= lines@.len() - t,
            t < lines@.len(),
            lines@.len() == ls.len(),
            forall|j: int| 0 <= j < lines@.len() ==> (#[trigger] lines@[j])@ == ls[j],
            forall|j: int| 0 <= j < k ==> #[trigger] key_rows_present(ls, t as int, j),
        decreases bc - k,
    {
        assert(4 * k < 4 * bc);
        assert(t + 1 + 4 * k + 2 < lines@.len());
        assert(lines@.len() == lines.len());
        let first = t + 1 + 4 * k;
        let ok = split_words(&lines[first]).len() >= 3 && split_words(&lines[first + 1]).len() >= 4
            && split_words(&lines[first + 2]).len() >= 3;
        assert(lines@[first as int]@ == ls[first as int]);
        assert(lines@[first + 1]@ == ls[first + 1]);
        assert(lines@[first + 2]@ == ls[first + 2]);
        if !ok {
            assert(!key_rows_present(ls, t as int, k as int));
            return false;
        }
        k = k + 1;
    }
    true
}

fn scan_clip_lines(
    lines: &Vec<Vec<char>>,
    Ghost(ls): Ghost<Seq<Seq<char>>>,
    bone_count: u32,
    bones_known: usize,
) -> (r: Option<Vec<ClipRecord>>)
    requires
        lines@.len() == ls.len(),
        forall|k: int| 0 <= k < lines@.len() ==> (#[trigger] lines@[k])@ == ls[k],
    ensures
        match scan_clips(ls, bone_count as nat, bones_known as nat, 0, None, None, Seq::empty(), None) {
            None => r is None,
            Some(clips) => r matches Some(v) && v@.len() == clips.len() && v@.len() > 0 && forall|k: int|
                0 <= k < clips.len() ==> (#[trigger] v@[k]).spec_view() == clips[k],
        },
{
    let name_word = chars_of("ANIMATION_NAME:");
    let duration_word = chars_of("DURATION:");
    let fps_word = chars_of("FPS:");
    let timestamp_word = chars_of("TIMESTAMP:");
    let ghost bc = bone_count as nat;
    let ghost known = bones_known as nat;
    let mut clips: Vec<ClipRecord> = Vec::new();
    let ghost mut clip_views: Seq<ClipView> = Seq::empty();
    let mut name: Option<Vec<char>> = None;
    let mut dur: Option<usize> = None;
    let mut keys: Vec<usize> = Vec::new();
    let mut fps: Option<usize> = None;
    let mut i: usize = 0;
    proof {
        assert(rows_view(keys@) =~= Seq::<int>::empty());
        match scan_clips(ls, bc, known, 0, None, None, Seq::empty(), None) {
            None => {},
            Some(r) => {
                assert(Seq::<ClipView>::empty() + r =~= r);
            },
        }
    }
    while i < lines.len()
        invariant
            i <= lines@.len(),
            lines@.len() == ls.len(),
            forall|k: int| 0 <= k < lines@.len() ==> (#[trigger] lines@[k])@ == ls[k],
            bc == bone_count as nat,
            known == bones_known as nat,
            name_word@ == "ANIMATION_NAME:"@,
            duration_word@ == "DURATION:"@,
            fps_word@ == "FPS:"@,
            timestamp_word@ == "TIMESTAMP:"@,
            clips@.len() == clip_views.len(),
            forall|k: int| 0 <= k < clips@.len() ==> (#[trigger] clips@[k]).spec_view() == clip_views[k],
            scan_clips(ls, bc, known, 0, None, None, Seq::empty(), None) == joined_clips(
                clip_views,
                scan_clips(ls, bc, known, i as nat, name_view(name), row_view(dur), rows_view(keys@), row_view(fps)),
            ),
        decreases lines.len() - i,
    {
        let mut w = split_words(&lines[i]);
        assert(lines@[i as int]@ == ls[i as int]);
        if w.len() > 0 && chars_eq(&w[0], &name_word) {
            if w.len() < 2 {
                return None;
            }
            let new_name = w.remove(1);
            let prev = name;
            match prev {
                Some(n) => {
                    let ghost old_views = clip_views;
                    let ghost old_clips = clips@;
                    match close_clip(n, dur, fps, keys) {
                        None => {
                            return None;
                        },
                        Some(rec) => {
                            let ghost rv = rec.spec_view();
                            clips.push(rec);
                            proof {
                                clip_views = clip_views.push(rv);
                                assert forall|k: int| 0 <= k < clips@.len() implies (#[trigger] clips@[k]).spec_view()
                                    == clip_views[k] by {
                                    if k < old_clips.len() {
                                        assert(clips@[k] == old_clips[k]);
                                    }
                                }
                                match scan_clips(ls, bc, known, (i + 1) as nat, Some(new_name@), None, Seq::empty(), row_view(fps)) {
                                    None => {},
                                    Some(rest) => {
                                        assert(old_views + (seq![rv] + rest) =~= clip_views + rest);
                                    },
                                }
                            }
                        },
                    }
                },
                None => {
                    proof {
                        match scan_clips(ls, bc, known, (i + 1) as nat, Some(new_name@), None, Seq::empty(), row_view(fps)) {
                            None => {},
                            Some(rest) => {
                                assert(Seq::<ClipView>::empty() + rest =~= rest);
                            },
                        }
                    }
                },
            }
            name = Some(new_name);
            dur = None;
            keys = Vec::new();
            assert(rows_view(keys@) =~= Seq::<int>::empty());
            i = i + 1;
        } else if w.len() > 0 && chars_eq(&w[0], &duration_word) {
            if w.len() < 2 {
                return None;
            }
            dur = Some(i);
            i = i + 1;
        } else if w.len() > 0 && chars_eq(&w[0], &fps_word) {
            if w.len() < 2 {
                return None;
            }
            fps = Some(i);
            i = i + 1;
        } else if w.len() > 0 && chars_eq(&w[0], &timestamp_word) {
            if w.len() < 2 {
                return None;
            }
            if !keyframe_rows_ok(lines, Ghost(ls), i, bone_count, bones_known) {
                return None;
            }
            let ghost old_keys = keys@;
            keys.push(i);
            assert(rows_view(keys@) =~= rows_view(old_keys).push(i as int));
            let bcu = bone_count as usize;
            proof {
                vstd::arithmetic::div_mod::lemma_fundamental_div_mod((lines@.len() - i) as int, 4);
                if bcu > 0 {
                    assert(key_rows_present(ls, i as int, bcu - 1));
                }
            }
            let ghost spec_next = (i + 1 + 4 * bcu) as nat;
            let ghost st = (name_view(name), row_view(dur), rows_view(keys@), row_view(fps));
            let last = i + 4 * bcu;
            if last >= lines.len() {
                i = lines.len();
                assert(scan_clips(ls, bc, known, spec_next, st.0, st.1, st.2, st.3) == scan_clips(
                    ls,
                    bc,
                    known,
                    i as nat,
                    st.0,
                    st.1,
                    st.2,
                    st.3,
                ));
            } else {
                i = last + 1;
            }
        } else {
            i = i + 1;
        }
    }
    match name {
        None => None,
        Some(n) => match close_clip(n, dur, fps, keys) {
            None => None,
            Some(rec) => {
                let ghost rv = rec.spec_view();
                let ghost old_clips = clips@;
                clips.push(rec);
                proof {
                    let all = clip_views.push(rv);
                    assert(clip_views + seq![rv] =~= all);
                    assert forall|k: int| 0 <= k < clips@.len() implies (#[trigger] clips@[k]).spec_view() == all[k] by {
                        if k < old_clips.len() {
                            assert(clips@[k] == old_clips[k]);
                        }
                    }
                }
                Some(clips)
            },
        },
    }
}

/// What a bone file lists: its skeleton and its clips.
#[derive(Debug)]
pub struct BoneFileScan {
    pub skeleton: SkeletonScan,
    pub clips: Vec<ClipRecord>,
}

/// The clips of a bone file whose skeleton part gave `bones` and `count`: keyframes
/// carry rows for the number of bones the count gives (none without a count).
pub open spec fn clips_of(lines: Seq<Seq<char>>, bones: Seq<(Seq<char>, Option<u32>, int)>, count: Option<u32>) -> Option<
    Seq<ClipView>,
> {
    let bone_count: nat = match count {
        Some(c) => c as nat,
        None => 0,
    };
    scan_clips(lines, bone_count, bones.len(), 0, None, None, Seq::empty(), None)
}

/// Reads a bone file: its skeleton, then its clips; None when a line cannot be read as
/// the format asks, the file has no clip, or a clip names no animation type.
pub fn read_bone_file(text: &str) -> (r: Option<BoneFileScan>)
    ensures
        match scan_bones(text_lines(text@), 0) {
            None => r is None,
            Some((bones, count)) => match clips_of(text_lines(text@), bones, count) {
                None => r is None,
                Some(clips) => r matches Some(f) && clips.len() > 0 && f.skeleton.bone_count == count
                    && f.skeleton.bones@.len() == bones.len() && (forall|k: int|
                    0 <= k < bones.len() ==> (#[trigger] f.skeleton.bones@[k]).spec_view() == bones[k])
                    && f.clips@.len() == clips.len() && forall|k: int|
                    0 <= k < clips.len() ==> (#[trigger] f.clips@[k]).spec_view() == clips[k],
            },
        },
{
    let chars = chars_of(text);
    let lines = split_lines(&chars);
    let ghost ls = text_lines(text@);
    let skeleton = match scan_skeleton_lines(&lines, Ghost(ls)) {
        None => {
            return None;
        },
        Some(sc) => sc,
    };
    let bone_count: u32 = match skeleton.bone_count {
        Some(c) => c,
        None => 0,
    };
    match scan_clip_lines(&lines, Ghost(ls), bone_count, skeleton.bones.len()) {
        None => None,
        Some(clips) => Some(BoneFileScan { skeleton, clips }),
    }
}

/// What a bone file lists, when it can be read: its bones, its bone count and its
/// clips.
pub open spec fn bone_file_parts(text: Seq<char>) -> Option<
    (Seq<(Seq<char>, Option<u32>, int)>, Option<u32>, Seq<ClipView>),
> {
    match scan_bones(text_lines(text), 0) {
        None => None,
        Some((bones, count)) => match clips_of(text_lines(text), bones, count) {
            None => None,
            Some(clips) => Some((bones, count, clips)),
        },
    }
}

/// `f` lists the bones `bones`, the bone count `count` and the clips `clips`.
pub open spec fn scan_lists(
    f: &BoneFileScan,
    bones: Seq<(Seq<char>, Option<u32>, int)>,
    count: Option<u32>,
    clips: Seq<ClipView>,
) -> bool {
    &&& f.skeleton.bone_count == count
    &&& f.skeleton.bones@.len() == bones.len()
    &&& forall|k: int| 0 <= k < bones.len() ==> (#[trigger] f.skeleton.bones@[k]).spec_view() == bones[k]
    &&& f.clips@.len() == clips.len()
    &&& forall|k: int| 0 <= k < clips.len() ==> (#[trigger] f.clips@[k]).spec_view() == clips[k]
}

/// The parent of each bone.
pub open spec fn bone_parents(bones: Seq<(Seq<char>, Option<u32>, int)>) -> Seq<Option<u32>> {
    bones.map_values(|b: (Seq<char>, Option<u32>, int)| b.1)
}

/// `h` is the hierarchy of the bones whose parents are `parents`: its root is the first
/// bone without a parent, and it lists under each bone the bones whose parent it is.
pub open spec fn is_hierarchy_of(h: BoneHierarchy, parents: Seq<Option<u32>>) -> bool {
    &&& h.root < parents.len()
    &&& parents[h.root as int] is None
    &&& forall|j: int| 0 <= j < h.root ==> (#[trigger] parents[j]) is Some
    &&& h.children_of@.len() == parents.len()
    &&& forall|p: int| 0 <= p < parents.len() ==> lists_children_of(parents, p, #[trigger] h.children_of@[p]@)
}

/// Clip `i` is the last of its animation type: no later clip has its type.
pub open spec fn last_of_its_type(clips: Seq<ClipView>, i: int) -> bool {
    forall|j: int| i < j < clips.len() ==> (#[trigger] clips[j]).0 != clips[i].0
}

/// In order, the indices below `n` of the clips that are the last of their type.
pub open spec fn kept_clips(clips: Seq<ClipView>, n: nat) -> Seq<int>
    decreases n,
{
    if n == 0 {
        Seq::empty()
    } else if last_of_its_type(clips, n - 1) {
        kept_clips(clips, (n - 1) as nat).push(n - 1)
    } else {
        kept_clips(clips, (n - 1) as nat)
    }
}

/// The `TIMESTAMP:` lines of all the keyframes of a clip, the one it drops first.
pub open spec fn all_keyframes(c: ClipView) -> Seq<int> {
    match c.5 {
        Some(f) => seq![f] + c.4,
        None => c.4,
    }
}

/// A bone file loaded for an animator.
#[derive(Debug)]
pub struct BoneData {
    /// what the file lists
    pub scan: BoneFileScan,
    /// the skeleton's root and the bones hanging from each bone
    pub hierarchy: BoneHierarchy,
    /// the clips the animator keeps, by index into `scan.clips`: one per animation
    /// type, the last one read of each, in file order
    pub animator_clips: Vec<usize>,
    /// the clip the animator starts on, current and next: the last clip read
    pub selection: AnimationSelection,
    /// the `TIMESTAMP:` lines of all the keyframes of the last clip read, its first
    /// keyframe included
    pub selected_keyframes: Vec<usize>,
}

/// Loads a bone file for an animator; None where the file cannot be read as a bone
/// file (as `read_bone_file` says), a parent index names no bone, or no bone is
/// without a parent.
pub fn import_bone_data(text: &str) -> (r: Option<BoneData>)
    ensures
        match bone_file_parts(text@) {
            None => r is None,
            Some((bones, count, clips)) => if parents_in_range(bone_parents(bones)) && has_root(
                bone_parents(bones),
            ) {
                r matches Some(d) && {
                    &&& clips.len() > 0
                    &&& scan_lists(&d.scan, bones, count, clips)
                    &&& is_hierarchy_of(d.hierarchy, bone_parents(bones))
                    &&& d.animator_clips@.map_values(|i: usize| i as int) == kept_clips(
                        clips,
                        clips.len(),
                    )
                    &&& d.selection.current_animation == clips.last().0
                    &&& d.selection.next_animation == clips.last().0
                    &&& d.selected_keyframes@.map_values(|r: usize| r as int) == all_keyframes(
                        clips.last(),
                    )
                }
            } else {
                r is None
            },
        },
{
    let scan = match read_bone_file(text) {
        None => {
            return None;
        },
        Some(f) => f,
    };
    let ghost parts = bone_file_parts(text@);
    let ghost bones = parts.unwrap().0;
    let ghost clips = parts.unwrap().2;
    let ghost count_g = parts.unwrap().1;
    assert(parts == Some((bones, count_g, clips)));
    let n = scan.skeleton.bones.len();
    let mut parents: Vec<Option<u32>> = Vec::new();
    let mut i: usize = 0;
    while i < n
        invariant
            n == scan.skeleton.bones@.len(),
            scan.skeleton.bones@.len() == bones.len(),
            forall|k: int| 0 <= k < bones.len() ==> (#[trigger] scan.skeleton.bones@[k]).spec_view() == bones[k],
            i <= n,
            parents@ == bone_parents(bones).take(i as int),
        decreases n - i,
    {
        parents.push(scan.skeleton.bones[i].parent);
        assert(parents@ =~= bone_parents(bones).take(i + 1));
        i = i + 1;
    }
    assert(parents@ =~= bone_parents(bones));
    let mut j: usize = 0;
    while j < n
        invariant
            n == parents@.len(),
            parents@ == bone_parents(bones),
            parts == bone_file_parts(text@),
            parts == Some((bones, count_g, clips)),
            j <= n,
            forall|k: int|
                0 <= k < j && (#[trigger] parents@[k]) is Some ==> (parents@[k]->0 as int) < n,
        decreases n - j,
    {
        if let Some(p) = parents[j] {
            if p as usize >= n {
                assert(!parents_in_range(bone_parents(bones))) by {
                    assert(bone_parents(bones)[j as int] == Some(p));
                }
                return None;
            }
        }
        j = j + 1;
    }
    if find_root_bone(&parents).is_none() {
        return None;
    }
    let hierarchy = build_bone_hierarchy(&parents);
    let m = scan.clips.len();
    let mut kept: Vec<usize> = Vec::new();
    let mut a: usize = 0;
    while a < m
        invariant
            m == scan.clips@.len(),
            m == clips.len(),
            forall|k: int| 0 <= k < clips.len() ==> (#[trigger] scan.clips@[k]).spec_view() == clips[k],
            a <= m,
            kept@.map_values(|x: usize| x as int) == kept_clips(clips, a as nat),
        decreases m - a,
    {
        let mut last = true;
        let mut b: usize = a + 1;
        while b < m
            invariant
                m == scan.clips@.len(),
                m == clips.len(),
                forall|k: int| 0 <= k < clips.len() ==> (#[trigger] scan.clips@[k]).spec_view() == clips[k],
                a < b <= m,
                last == forall|j: int| a < j < b ==> (#[trigger] clips[j]).0 != clips[a as int].0,
            decreases m - b,
        {
            assert(scan.clips@[b as int].spec_view() == clips[b as int]);
            assert(scan.clips@[a as int].spec_view() == clips[a as int]);
            if scan.clips[b].name == scan.clips[a].name {
                last = false;
            }
            b = b + 1;
        }
        assert(last == last_of_its_type(clips, a as int));
        let ghost before = kept@;
        if last {
            kept.push(a);
            assert(kept@.map_values(|x: usize| x as int) =~= before.map_values(|x: usize| x as int).push(
                a as int,
            ));
        }
        a = a + 1;
    }
    let ghost lastv = clips.last();
    let last_clip = &scan.clips[m - 1];
    assert(last_clip.spec_view() == lastv);
    let selection = AnimationSelection { current_animation: last_clip.name, next_animation: last_clip.name };
    let mut selected_keyframes: Vec<usize> = Vec::new();
    if let Some(f) = last_clip.first_keyframe {
        selected_keyframes.push(f);
    }
    let ghost start = selected_keyframes@;
    let mut k: usize = 0;
    while k < last_clip.keyframes.len()
        invariant
            k <= last_clip.keyframes@.len(),
            selected_keyframes@ == start + last_clip.keyframes@.take(k as int),
        decreases last_clip.keyframes@.len() - k,
    {
        selected_keyframes.push(last_clip.keyframes[k]);
        assert(selected_keyframes@ =~= start + last_clip.keyframes@.take(k + 1));
        k = k + 1;
    }
    assert(last_clip.keyframes@.take(last_clip.keyframes@.len() as int) =~= last_clip.keyframes@);
    assert(selected_keyframes@.map_values(|r: usize| r as int) =~= all_keyframes(lastv));
    Some(BoneData { scan, hierarchy, animator_clips: kept, selection, selected_keyframes })
}

} // verus!
