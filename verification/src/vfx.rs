use vstd::prelude::*;

pub mod continuous_emitter;

use crate::err::DecodeError;
use crate::strutil::{chars_vec, is_numeric_str, sp_eq_ignore_case, sp_is_numeric, sp_parse_u32,
    str_eq, str_eq_ignore_case, string_from_chars, parse_u32_str};
use crate::vfx::continuous_emitter::{sp_emitter_rel, sp_emitter_wf, ContinuousEmitter,
    ContinuousEmitterV};
use crate::xml::{lemma_view_xml_nodes_seq, sp_view_xml_nodes_seq, sp_view_xml_nodes_vec, XmlAttr,
    XmlAttrV, XmlNode, XmlNodeV};

verus! {

// The keyframed-property model of the visual-effect descriptors. Values
// and times are exact: a value is an IEEE single's bit pattern, a time an
// integer frame index, so the selection logic here is fully checked; only
// the final blend of two values is floating-point work left to callers.

/// How an effect plays out over time.
#[derive(Debug, Clone, Copy, PartialEq, Eq, Structural)]
pub enum VisualEffectKind {
    Single,
    Looping,
    Infinite,
}

/// One keyframe: an integer frame time and a value carried as an IEEE
/// single's bit pattern.
#[derive(Debug, Clone, Copy, PartialEq, Eq, Structural)]
pub struct VisualEffectPropertyKeyframe {
    pub time: u32,
    pub value: u32,
}

/// A property is either one constant value or a keyframe track; a track is
/// kept strictly ascending by time and free of duplicate times.
#[derive(Debug, Clone, PartialEq, Eq)]
pub enum VisualEffectProperty {
    Constant(u32),
    Animated(Vec<VisualEffectPropertyKeyframe>),
}

/// Strictly ascending by time; strictness is exactly duplicate-freedom on
/// top of sortedness.
pub open spec fn sp_strictly_sorted(ks: Seq<VisualEffectPropertyKeyframe>) -> bool {
    forall|i: int, j: int|
        0 <= i < j < ks.len() ==> (#[trigger] ks[i]).time < (#[trigger] ks[j]).time
}

/// Some keyframe of `ks` carries time `t`.
pub open spec fn sp_has_time(ks: Seq<VisualEffectPropertyKeyframe>, t: u32) -> bool {
    exists|i: int| 0 <= i < ks.len() && (#[trigger] ks[i]).time == t
}

/// Every entry of `r` is an entry of the first `bound` input entries, and
/// the earliest one of its time.
pub open spec fn sp_keeps_first(
    input: Seq<VisualEffectPropertyKeyframe>,
    r: Seq<VisualEffectPropertyKeyframe>,
    bound: int,
) -> bool {
    forall|k: int|
        0 <= k < r.len() ==> exists|i: int|
            0 <= i < bound && input[i] == #[trigger] r[k] && (forall|l: int|
                0 <= l < i ==> (#[trigger] input[l]).time != r[k].time)
}

/// Sort keyframes by time and drop duplicate times, keeping for every time
/// the first keyframe of the input that carries it. The result is strictly
/// ascending, holds a time exactly when the input does, and every entry is
/// the input's first entry for its time.
pub fn normalize_keyframes(input: &Vec<VisualEffectPropertyKeyframe>) -> (r: Vec<
    VisualEffectPropertyKeyframe,
>)
    ensures
        sp_strictly_sorted(r@),
        forall|t: u32| sp_has_time(r@, t) <==> sp_has_time(input@, t),
        sp_keeps_first(input@, r@, input@.len() as int),
{
    let mut res: Vec<VisualEffectPropertyKeyframe> = Vec::new();
    let n: usize = input.len();
    let mut i: usize = 0;
    while i < n
        invariant
            i <= n,
            n == input@.len(),
            sp_strictly_sorted(res@),
            forall|t: u32| sp_has_time(res@, t) <==> sp_has_time(input@.take(i as int), t),
            sp_keeps_first(input@, res@, i as int),
        decreases n - i,
    {
        let kf = input[i];
        let t = kf.time;
        let m: usize = res.len();
        let mut idx: usize = 0;
        while idx < m && res[idx].time < t
            invariant
                idx <= m,
                m == res@.len(),
                forall|q: int| 0 <= q < idx ==> (#[trigger] res@[q]).time < t,
            decreases m - idx,
        {
            idx = idx + 1;
        }
        let present = idx < m && res[idx].time == t;
        if !present {
            proof {
                assert(!sp_has_time(res@, t)) by {
                    if sp_has_time(res@, t) {
                        let w = choose|w: int| 0 <= w < res@.len() && (#[trigger] res@[w]).time == t;
                        if w < idx {
                        } else {
                            assert(idx < res@.len() && res@[idx as int].time >= t);
                            if w > idx {
                                assert(res@[idx as int].time < res@[w].time);
                            }
                        }
                    }
                }
            }
            let ghost old_res = res@;
            res.insert(idx, kf);
            proof {
                assert(res@ == old_res.insert(idx as int, kf));
                assert forall|a: int, b: int|
                    0 <= a < b < res@.len() implies (#[trigger] res@[a]).time < (
                #[trigger] res@[b]).time by {
                    if b < idx {
                    } else if a > idx {
                    } else if a == idx && b > idx {
                        assert(res@[b] == old_res[b - 1]);
                        assert(old_res[idx as int].time >= t && old_res[idx as int].time != t);
                        if b - 1 > idx {
                            assert(old_res[idx as int].time < old_res[b - 1].time);
                        }
                    } else if b == idx {
                        assert(res@[a] == old_res[a]);
                    } else if a < idx && b > idx {
                        assert(res@[a] == old_res[a] && res@[b] == old_res[b - 1]);
                        assert(old_res[a].time < t || a == idx);
                        if b - 1 > idx {
                            assert(old_res[idx as int].time < old_res[b - 1].time);
                        }
                        assert(old_res[idx as int].time > t);
                    }
                }
                assert forall|t2: u32| sp_has_time(res@, t2) <==> sp_has_time(
                    input@.take(i + 1),
                    t2,
                ) by {
                    if sp_has_time(res@, t2) {
                        let w = choose|w: int| 0 <= w < res@.len() && (#[trigger] res@[w]).time == t2;
                        if w == idx {
                            assert(input@.take(i + 1)[i as int] == kf);
                        } else {
                            let w0 = if w < idx {
                                w
                            } else {
                                w - 1
                            };
                            assert(old_res[w0].time == t2);
                            assert(sp_has_time(old_res, t2));
                            let u = choose|u: int|
                                0 <= u < input@.take(i as int).len() && (#[trigger] input@.take(
                                    i as int,
                                )[u]).time == t2;
                            assert(input@.take(i + 1)[u] == input@[u]);
                        }
                    }
                    if sp_has_time(input@.take(i + 1), t2) {
                        let u = choose|u: int|
                            0 <= u < input@.take(i + 1).len() && (#[trigger] input@.take(i + 1)[u]).time
                                == t2;
                        if u == i {
                            assert(res@[idx as int].time == t2);
                        } else {
                            assert(input@.take(i as int)[u].time == t2);
                            assert(sp_has_time(old_res, t2));
                            let w = choose|w: int|
                                0 <= w < old_res.len() && (#[trigger] old_res[w]).time == t2;
                            if w < idx {
                                assert(res@[w].time == t2);
                            } else {
                                assert(res@[w + 1].time == t2);
                            }
                        }
                    }
                }
                assert forall|k: int| 0 <= k < res@.len() implies exists|ii: int|
                    0 <= ii < i + 1 && input@[ii] == #[trigger] res@[k] && (forall|l: int|
                        0 <= l < ii ==> (#[trigger] input@[l]).time != res@[k].time) by {
                    assert(sp_keeps_first(input@, old_res, i as int));
                    if k == idx {
                        assert forall|l: int| 0 <= l < i implies (#[trigger] input@[l]).time
                            != res@[k].time by {
                            if input@[l].time == t {
                                assert(input@.take(i as int)[l].time == t);
                                assert(sp_has_time(old_res, t));
                            }
                        }
                        assert(input@[i as int] == res@[k]);
                    } else {
                        let k0 = if k < idx {
                            k
                        } else {
                            k - 1
                        };
                        assert(old_res[k0] == res@[k]);
                    }
                }
            }
        } else {
            proof {
                assert(sp_has_time(res@, t));
                assert forall|t2: u32| sp_has_time(res@, t2) <==> sp_has_time(
                    input@.take(i + 1),
                    t2,
                ) by {
                    if sp_has_time(input@.take(i + 1), t2) {
                        let u = choose|u: int|
                            0 <= u < input@.take(i + 1).len() && (#[trigger] input@.take(i + 1)[u]).time
                                == t2;
                        if u == i {
                        } else {
                            assert(input@.take(i as int)[u].time == t2);
                        }
                    } else {
                    }
                    if sp_has_time(res@, t2) {
                        let u = choose|u: int|
                            0 <= u < input@.take(i as int).len() && input@.take(i as int)[u].time
                                == t2;
                        assert(input@.take(i + 1)[u] == input@[u]);
                    }
                }
            }
        }
        i = i + 1;
    }
    proof {
        assert(input@.take(n as int) =~= input@);
    }
    res
}

impl VisualEffectProperty {
    /// Build an animated property from keyframes in any order; the track
    /// is sorted and de-duplicated as `normalize_keyframes` describes.
    pub fn animated(input: &Vec<VisualEffectPropertyKeyframe>) -> (r: VisualEffectProperty)
        ensures
            r matches VisualEffectProperty::Animated(ks) && sp_strictly_sorted(ks@) && (forall|
                t: u32,
            | sp_has_time(ks@, t) <==> sp_has_time(input@, t)),
    {
        VisualEffectProperty::Animated(normalize_keyframes(input))
    }
}

/// What a property yields at one frame: a single value, or a blend of two
/// keyframe values where `num / den` is the blend factor. The caller turns
/// the blend into floating-point arithmetic; everything up to that point
/// is decided here.
#[derive(Debug, Clone, Copy, PartialEq, Eq, Structural)]
pub enum Interpolation {
    Value(u32),
    Blend { v0: u32, v1: u32, num: u32, den: u32 },
}

/// Index of the first keyframe pair whose second member lies at or past
/// the frame.
pub open spec fn sp_bracket(ks: Seq<VisualEffectPropertyKeyframe>, frame: u32) -> int
    decreases ks.len(),
{
    if ks.len() < 2 {
        0
    } else if frame <= ks[1].time {
        0
    } else {
        1 + sp_bracket(ks.drop_first(), frame)
    }
}

impl VisualEffectProperty {
    /// What the property yields at the given frame: a constant yields its
    /// value; a track clamps to its first and last value outside its time
    /// range and otherwise blends across the bracketing pair, with the
    /// factor `(frame - earlier time) / (later time - earlier time)`.
    pub fn interpolate(&self, frame: u32) -> (r: Interpolation)
        requires
            self matches VisualEffectProperty::Animated(ks) ==> ks@.len() > 0
                && sp_strictly_sorted(ks@),
        ensures
            match self {
                VisualEffectProperty::Constant(v) => r == Interpolation::Value(*v),
                VisualEffectProperty::Animated(ks) => {
                    if frame <= ks@[0].time {
                        r == Interpolation::Value(ks@[0].value)
                    } else if frame >= ks@.last().time {
                        r == Interpolation::Value(ks@.last().value)
                    } else {
                        {
                            let b = sp_bracket(ks@, frame);
                            r == (Interpolation::Blend {
                                v0: ks@[b].value,
                                v1: ks@[b + 1].value,
                                num: (frame - ks@[b].time) as u32,
                                den: (ks@[b + 1].time - ks@[b].time) as u32,
                            })
                        }
                    }
                },
            },
    {
        match self {
            VisualEffectProperty::Constant(v) => Interpolation::Value(*v),
            VisualEffectProperty::Animated(ks) => {
                let first = ks[0];
                if frame <= first.time {
                    return Interpolation::Value(first.value);
                }
                let last = ks[ks.len() - 1];
                if frame >= last.time {
                    return Interpolation::Value(last.value);
                }
                let n: usize = ks.len();
                let mut w: usize = 0;
                proof {
                    assert(ks@.skip(0) =~= ks@);
                }
                while w < n - 1
                    invariant
                        *self == VisualEffectProperty::Animated(*ks),
                        n == ks@.len(),
                        w < n,
                        n >= 2,
                        sp_strictly_sorted(ks@),
                        frame > ks@[0].time,
                        frame > ks@[w as int].time,
                        frame < ks@.last().time,
                        sp_bracket(ks@, frame) == w + sp_bracket(ks@.skip(w as int), frame),
                    decreases n - w,
                {
                    if frame <= ks[w + 1].time {
                        proof {
                            assert(ks@.skip(w as int)[1] == ks@[w + 1]);
                            assert(sp_bracket(ks@.skip(w as int), frame) == 0);
                        }
                        return Interpolation::Blend {
                            v0: ks[w].value,
                            v1: ks[w + 1].value,
                            num: frame - ks[w].time,
                            den: ks[w + 1].time - ks[w].time,
                        };
                    }
                    proof {
                        assert(ks@.skip(w as int)[1] == ks@[w + 1]);
                        assert(ks@.skip(w as int).len() >= 2);
                        assert(ks@.skip(w as int).drop_first() =~= ks@.skip(w + 1));
                    }
                    w = w + 1;
                }
                proof {
                    assert(ks@[w as int].time < ks@.last().time || w == n - 1);
                    assert(false);
                }
                Interpolation::Value(first.value)
            },
        }
    }
}

// ------------------------- the dialect, over raw attribute text --------

// Attribute values that denote IEEE singles stay as their raw text inside
// the library (floating point is out of its reach); times are integers and
// are parsed and checked here. The caller turns value text into bit
// patterns at the edge.

/// One raw keyframe: an integer frame time and the value's numeric text.
#[derive(Debug, Clone, PartialEq, Eq)]
pub struct RawKeyframe {
    pub time: u32,
    pub value: String,
}

pub struct RawKeyframeV {
    pub time: u32,
    pub value: Seq<char>,
}

impl View for RawKeyframe {
    type V = RawKeyframeV;

    open spec fn view(&self) -> RawKeyframeV {
        RawKeyframeV { time: self.time, value: self.value@ }
    }
}

/// A property as the dialect stores it: one constant value text, or a
/// keyframe track sorted strictly ascending by time.
#[derive(Debug, Clone, PartialEq, Eq)]
pub enum RawProperty {
    Constant(String),
    Animated(Vec<RawKeyframe>),
}

pub enum RawPropertyV {
    Constant(Seq<char>),
    Animated(Seq<RawKeyframeV>),
}

impl View for RawProperty {
    type V = RawPropertyV;

    open spec fn view(&self) -> RawPropertyV {
        match self {
            RawProperty::Constant(v) => RawPropertyV::Constant(v@),
            RawProperty::Animated(ks) => RawPropertyV::Animated(
                ks@.map_values(|k: RawKeyframe| k@),
            ),
        }
    }
}

pub open spec fn sp_strictly_sorted_raw(ks: Seq<RawKeyframeV>) -> bool {
    forall|i: int, j: int|
        0 <= i < j < ks.len() ==> (#[trigger] ks[i]).time < (#[trigger] ks[j]).time
}

pub open spec fn sp_has_time_raw(ks: Seq<RawKeyframeV>, t: u32) -> bool {
    exists|i: int| 0 <= i < ks.len() && (#[trigger] ks[i]).time == t
}

/// Every entry of `r` is an entry of the first `bound` input entries, and
/// the earliest one of its time.
pub open spec fn sp_keeps_first_raw(
    input: Seq<RawKeyframeV>,
    r: Seq<RawKeyframeV>,
    bound: int,
) -> bool {
    forall|k: int|
        0 <= k < r.len() ==> exists|i: int|
            0 <= i < bound && input[i] == #[trigger] r[k] && (forall|l: int|
                0 <= l < i ==> (#[trigger] input[l]).time != r[k].time)
}

/// The views of raw keyframes, in order.
pub open spec fn sp_raw_views(s: Seq<RawKeyframe>) -> Seq<RawKeyframeV> {
    s.map_values(|k: RawKeyframe| k@)
}

/// Sort raw keyframes by time and drop duplicate times, keeping for every
/// time the first keyframe of the input that carries it, exactly as the
/// bit-level normalization does.
pub fn normalize_raw_keyframes(input: &Vec<RawKeyframe>) -> (r: Vec<RawKeyframe>)
    ensures
        sp_strictly_sorted_raw(sp_raw_views(r@)),
        forall|t: u32|
            #[trigger] sp_has_time_raw(sp_raw_views(r@), t) <==> sp_has_time_raw(
                sp_raw_views(input@),
                t,
            ),
        sp_keeps_first_raw(
            sp_raw_views(input@),
            sp_raw_views(r@),
            input@.len() as int,
        ),
{
    let ghost iv = sp_raw_views(input@);
    let mut res: Vec<RawKeyframe> = Vec::new();
    let n: usize = input.len();
    let mut i: usize = 0;
    while i < n
        invariant
            i <= n,
            n == input@.len(),
            iv == sp_raw_views(input@),
            sp_strictly_sorted_raw(sp_raw_views(res@)),
            forall|t: u32|
                #[trigger] sp_has_time_raw(sp_raw_views(res@), t)
                    <==> sp_has_time_raw(iv.take(i as int), t),
            sp_keeps_first_raw(iv, sp_raw_views(res@), i as int),
        decreases n - i,
    {
        let ghost rv0 = sp_raw_views(res@);
        let t = input[i].time;
        let kf = RawKeyframe { time: t, value: input[i].value.clone() };
        proof {
            assert(kf@ == iv[i as int]);
        }
        let m: usize = res.len();
        let mut idx: usize = 0;
        while idx < m && res[idx].time < t
            invariant
                idx <= m,
                m == res@.len(),
                forall|q: int| 0 <= q < idx ==> (#[trigger] res@[q]).time < t,
            decreases m - idx,
        {
            idx = idx + 1;
        }
        let present = idx < m && res[idx].time == t;
        if !present {
            proof {
                assert(!sp_has_time_raw(rv0, t)) by {
                    if sp_has_time_raw(rv0, t) {
                        let w = choose|w: int| 0 <= w < rv0.len() && (#[trigger] rv0[w]).time == t;
                        assert(rv0[w] == res@[w]@);
                        if w < idx {
                            assert(res@[w].time < t);
                        } else {
                            assert(w < res@.len());
                            assert(res@[idx as int].time >= t);
                            if w > idx {
                                assert(rv0[idx as int] == res@[idx as int]@);
                                assert(rv0[idx as int].time < rv0[w].time);
                            }
                        }
                    }
                }
            }
            let ghost old_res = res@;
            res.insert(idx, kf);
            proof {
                let rv = sp_raw_views(res@);
                assert(res@ == old_res.insert(idx as int, kf));
                assert forall|a: int, b: int|
                    0 <= a < b < rv.len() implies (#[trigger] rv[a]).time < (
                #[trigger] rv[b]).time by {
                    assert(rv.len() == old_res.len() + 1);
                    if b < idx {
                        assert(rv[a] == rv0[a] && rv[b] == rv0[b]);
                    } else if a > idx {
                        assert(rv[a] == rv0[a - 1] && rv[b] == rv0[b - 1]);
                    } else if a == idx && b > idx {
                        assert(rv[a] == kf@ && kf@.time == t);
                        assert(rv[b] == rv0[b - 1]);
                        assert(rv0[idx as int] == old_res[idx as int]@);
                        assert(old_res[idx as int].time >= t && old_res[idx as int].time != t);
                        if b - 1 > idx {
                            assert(rv0[idx as int].time < rv0[b - 1].time);
                        }
                    } else if b == idx {
                        assert(rv[a] == rv0[a] && rv[b] == kf@ && kf@.time == t);
                        assert(rv0[a] == old_res[a]@);
                        assert(old_res[a].time < t);
                    } else if a < idx && b > idx {
                        assert(rv[a] == rv0[a] && rv[b] == rv0[b - 1]);
                        assert(rv0[a] == old_res[a]@);
                        assert(old_res[a].time < t);
                        if b - 1 > idx {
                            assert(rv0[idx as int].time < rv0[b - 1].time);
                        }
                        assert(rv0[idx as int] == old_res[idx as int]@);
                        assert(old_res[idx as int].time >= t && old_res[idx as int].time != t);
                    }
                }
                assert forall|t2: u32| sp_has_time_raw(rv, t2) <==> sp_has_time_raw(
                    iv.take(i + 1),
                    t2,
                ) by {
                    if sp_has_time_raw(rv, t2) {
                        let w = choose|w: int| 0 <= w < rv.len() && (#[trigger] rv[w]).time == t2;
                        if w == idx {
                            assert(iv.take(i + 1)[i as int] == kf@);
                        } else {
                            let w0 = if w < idx {
                                w
                            } else {
                                w - 1
                            };
                            assert(rv0[w0].time == t2);
                            assert(sp_has_time_raw(rv0, t2));
                            let u = choose|u: int|
                                0 <= u < iv.take(i as int).len() && (#[trigger] iv.take(
                                    i as int,
                                )[u]).time == t2;
                            assert(iv.take(i + 1)[u] == iv[u]);
                        }
                    }
                    if sp_has_time_raw(iv.take(i + 1), t2) {
                        let u = choose|u: int|
                            0 <= u < iv.take(i + 1).len() && (#[trigger] iv.take(i + 1)[u]).time
                                == t2;
                        if u == i {
                            assert(rv[idx as int].time == t2);
                        } else {
                            assert(iv.take(i as int)[u].time == t2);
                            assert(sp_has_time_raw(rv0, t2));
                            let w = choose|w: int|
                                0 <= w < rv0.len() && (#[trigger] rv0[w]).time == t2;
                            if w < idx {
                                assert(rv[w].time == t2);
                            } else {
                                assert(rv[w + 1].time == t2);
                            }
                        }
                    }
                }
                assert forall|k: int| 0 <= k < rv.len() implies exists|ii: int|
                    0 <= ii < i + 1 && iv[ii] == #[trigger] rv[k] && (forall|l: int|
                        0 <= l < ii ==> (#[trigger] iv[l]).time != rv[k].time) by {
                    assert(sp_keeps_first_raw(iv, rv0, i as int));
                    if k == idx {
                        assert forall|l: int| 0 <= l < i implies (#[trigger] iv[l]).time
                            != rv[k].time by {
                            if iv[l].time == t {
                                assert(iv.take(i as int)[l].time == t);
                                assert(sp_has_time_raw(rv0, t));
                            }
                        }
                        assert(iv[i as int] == rv[k]);
                    } else {
                        let k0 = if k < idx {
                            k
                        } else {
                            k - 1
                        };
                        assert(rv0[k0] == rv[k]);
                    }
                }
            }
        } else {
            proof {
                assert(res@[idx as int]@.time == t);
                assert(sp_has_time_raw(rv0, t));
                assert forall|t2: u32| sp_has_time_raw(rv0, t2) <==> sp_has_time_raw(
                    iv.take(i + 1),
                    t2,
                ) by {
                    if sp_has_time_raw(iv.take(i + 1), t2) {
                        let u = choose|u: int|
                            0 <= u < iv.take(i + 1).len() && (#[trigger] iv.take(i + 1)[u]).time
                                == t2;
                        if u == i {
                        } else {
                            assert(iv.take(i as int)[u].time == t2);
                        }
                    } else {
                    }
                    if sp_has_time_raw(rv0, t2) {
                        let u = choose|u: int|
                            0 <= u < iv.take(i as int).len() && (#[trigger] iv.take(
                                i as int,
                            )[u]).time == t2;
                        assert(iv.take(i + 1)[u] == iv[u]);
                    }
                }
            }
        }
        i = i + 1;
    }
    proof {
        assert(iv.take(n as int) =~= iv);
    }
    res
}

/// The distinct times a raw track mentions.
pub open spec fn sp_track_times(ks: Seq<RawKeyframeV>) -> Set<u32> {
    ks.map_values(|k: RawKeyframeV| k.time).to_set()
}

/// Law: a strictly ascending track whose time set equals the input's
/// holds exactly one entry per distinct input time — its length is the
/// cardinality of the input's time set.
pub proof fn lemma_one_entry_per_time(raw: Seq<RawKeyframeV>, ks: Seq<RawKeyframeV>)
    requires
        sp_strictly_sorted_raw(ks),
        forall|t: u32| sp_has_time_raw(ks, t) <==> sp_has_time_raw(raw, t),
    ensures
        ks.len() == sp_track_times(raw).len(),
        forall|t: u32| #[trigger] sp_track_times(raw).contains(t) <==> sp_has_time_raw(raw, t),
{
    let tks = ks.map_values(|k: RawKeyframeV| k.time);
    let traw = raw.map_values(|k: RawKeyframeV| k.time);
    assert(tks.no_duplicates()) by {
        assert forall|i: int, j: int| 0 <= i < tks.len() && 0 <= j < tks.len() && i != j implies
            tks[i] != tks[j] by {
            if i < j {
                assert(ks[i].time < ks[j].time);
            } else {
                assert(ks[j].time < ks[i].time);
            }
        }
    }
    tks.unique_seq_to_set();
    assert forall|t: u32| #[trigger] tks.to_set().contains(t) <==> sp_has_time_raw(ks, t) by {
        if tks.to_set().contains(t) {
            let i = choose|i: int| 0 <= i < tks.len() && tks[i] == t;
            assert(ks[i].time == t);
        }
        if sp_has_time_raw(ks, t) {
            let i = choose|i: int| 0 <= i < ks.len() && (#[trigger] ks[i]).time == t;
            assert(tks[i] == t);
            assert(tks.contains(t));
        }
    }
    assert forall|t: u32| #[trigger] traw.to_set().contains(t) <==> sp_has_time_raw(raw, t) by {
        if traw.to_set().contains(t) {
            let i = choose|i: int| 0 <= i < traw.len() && traw[i] == t;
            assert(raw[i].time == t);
        }
        if sp_has_time_raw(raw, t) {
            let i = choose|i: int| 0 <= i < raw.len() && (#[trigger] raw[i]).time == t;
            assert(traw[i] == t);
            assert(traw.contains(t));
        }
    }
    assert(tks.to_set() =~= traw.to_set());
}

// -------------------------------------------- attribute and key lookup --

/// The first attribute carrying exactly this name, as the markup library's
/// own lookup returns it.
pub open spec fn sp_attr_exact(attrs: Seq<XmlAttrV>, name: Seq<char>) -> Option<Seq<char>>
    decreases attrs.len(),
{
    if attrs.len() == 0 {
        None
    } else if attrs[0].name == name {
        Some(attrs[0].value)
    } else {
        sp_attr_exact(attrs.drop_first(), name)
    }
}

/// The first attribute whose name matches ignoring ASCII case; the dialect
/// looks its `value` attribute up this way.
pub open spec fn sp_attr_ci(attrs: Seq<XmlAttrV>, name: Seq<char>) -> Option<Seq<char>>
    decreases attrs.len(),
{
    if attrs.len() == 0 {
        None
    } else if sp_eq_ignore_case(attrs[0].name, name) {
        Some(attrs[0].value)
    } else {
        sp_attr_ci(attrs.drop_first(), name)
    }
}

/// Exact-name attribute lookup.
pub fn attr_exact<'a>(n: &'a XmlNode, name: &str) -> (r: Option<&'a String>)
    ensures
        match r {
            Some(v) => sp_attr_exact(n@.attrs, name@) == Some(v@),
            None => sp_attr_exact(n@.attrs, name@) is None,
        },
{
    let m: usize = n.attrs.len();
    let mut i: usize = 0;
    proof {
        assert(n@.attrs =~= n.attrs@.map_values(|a: XmlAttr| a@));
        assert(n@.attrs.skip(0) =~= n@.attrs);
    }
    while i < m
        invariant
            i <= m,
            m == n.attrs@.len(),
            n@.attrs == n.attrs@.map_values(|a: XmlAttr| a@),
            sp_attr_exact(n@.attrs, name@) == sp_attr_exact(n@.attrs.skip(i as int), name@),
        decreases m - i,
    {
        proof {
            assert(n@.attrs.skip(i as int)[0] == n@.attrs[i as int]);
            assert(n@.attrs.skip(i as int).drop_first() =~= n@.attrs.skip(i + 1));
        }
        if str_eq(n.attrs[i].name.as_str(), name) {
            return Some(&n.attrs[i].value);
        }
        i = i + 1;
    }
    proof {
        assert(n@.attrs.skip(m as int) =~= Seq::<XmlAttrV>::empty());
    }
    None
}

/// Case-insensitive attribute lookup.
pub fn attr_ci<'a>(n: &'a XmlNode, name: &str) -> (r: Option<&'a String>)
    ensures
        match r {
            Some(v) => sp_attr_ci(n@.attrs, name@) == Some(v@),
            None => sp_attr_ci(n@.attrs, name@) is None,
        },
{
    let m: usize = n.attrs.len();
    let mut i: usize = 0;
    proof {
        assert(n@.attrs =~= n.attrs@.map_values(|a: XmlAttr| a@));
        assert(n@.attrs.skip(0) =~= n@.attrs);
    }
    while i < m
        invariant
            i <= m,
            m == n.attrs@.len(),
            n@.attrs == n.attrs@.map_values(|a: XmlAttr| a@),
            sp_attr_ci(n@.attrs, name@) == sp_attr_ci(n@.attrs.skip(i as int), name@),
        decreases m - i,
    {
        proof {
            assert(n@.attrs.skip(i as int)[0] == n@.attrs[i as int]);
            assert(n@.attrs.skip(i as int).drop_first() =~= n@.attrs.skip(i + 1));
        }
        if str_eq_ignore_case(n.attrs[i].name.as_str(), name) {
            return Some(&n.attrs[i].value);
        }
        i = i + 1;
    }
    proof {
        assert(n@.attrs.skip(m as int) =~= Seq::<XmlAttrV>::empty());
    }
    None
}

/// The raw keyframes of a property's children: every `Key` element must
/// carry an integer `time` and a numeric `value`; other child tags are
/// skipped.
pub open spec fn sp_keys_raw(cs: Seq<XmlNodeV>) -> Option<Seq<RawKeyframeV>>
    decreases cs.len(),
{
    if cs.len() == 0 {
        Some(Seq::empty())
    } else if cs[0].tag != "Key"@ {
        sp_keys_raw(cs.drop_first())
    } else {
        match sp_attr_exact(cs[0].attrs, "time"@) {
            None => None,
            Some(ts) => match sp_parse_u32(ts) {
                None => None,
                Some(t) => match sp_attr_exact(cs[0].attrs, "value"@) {
                    None => None,
                    Some(v) => {
                        if !sp_is_numeric(v) {
                            None
                        } else {
                            match sp_keys_raw(cs.drop_first()) {
                                None => None,
                                Some(rest) => Some(
                                    Seq::empty().push(RawKeyframeV { time: t, value: v }) + rest,
                                ),
                            }
                        }
                    },
                },
            },
        }
    }
}

fn keys_raw(children: &Vec<XmlNode>) -> (r: Result<Vec<RawKeyframe>, DecodeError>)
    ensures
        match r {
            Ok(v) => sp_keys_raw(sp_view_xml_nodes_seq(children@)) == Some(
                v@.map_values(|k: RawKeyframe| k@),
            ),
            Err(_) => sp_keys_raw(sp_view_xml_nodes_seq(children@)) is None,
        },
{
    let ghost cs = sp_view_xml_nodes_seq(children@);
    let n: usize = children.len();
    let mut out: Vec<RawKeyframe> = Vec::new();
    let mut i: usize = 0;
    proof {
        lemma_view_xml_nodes_seq(children@);
        assert(cs.skip(0) =~= cs);
    }
    while i < n
        invariant
            i <= n,
            n == children@.len(),
            cs == sp_view_xml_nodes_seq(children@),
            cs == children@.map_values(|c: XmlNode| c@),
            sp_keys_raw(cs) == match sp_keys_raw(cs.skip(i as int)) {
                None => None::<Seq<RawKeyframeV>>,
                Some(rest) => Some(out@.map_values(|k: RawKeyframe| k@) + rest),
            },
        decreases n - i,
    {
        proof {
            assert(cs.skip(i as int)[0] == cs[i as int]);
            assert(cs.skip(i as int).drop_first() =~= cs.skip(i + 1));
        }
        let c = &children[i];
        if str_eq(c.tag.as_str(), "Key") {
            let ts = match attr_exact(c, "time") {
                Some(v) => v,
                None => {
                    return Err(DecodeError::MissingXmlAttribute);
                },
            };
            let t = match parse_u32_str(ts.as_str()) {
                Some(v) => v,
                None => {
                    return Err(DecodeError::InvalidXmlValue);
                },
            };
            let vs = match attr_exact(c, "value") {
                Some(v) => v,
                None => {
                    return Err(DecodeError::MissingXmlAttribute);
                },
            };
            if !is_numeric_str(vs.as_str()) {
                return Err(DecodeError::InvalidXmlValue);
            }
            let kf = RawKeyframe { time: t, value: vs.clone() };
            proof {
                let rest = sp_keys_raw(cs.skip(i + 1));
                if rest is Some {
                    assert(out@.push(kf).map_values(|k: RawKeyframe| k@) + rest->0
                        =~= out@.map_values(|k: RawKeyframe| k@) + (Seq::empty().push(kf@)
                        + rest->0));
                }
            }
            out.push(kf);
        }
        i = i + 1;
    }
    proof {
        assert(cs.skip(n as int) =~= Seq::<XmlNodeV>::empty());
        assert(out@.map_values(|k: RawKeyframe| k@) + Seq::<RawKeyframeV>::empty()
            =~= out@.map_values(|k: RawKeyframe| k@));
    }
    Ok(out)
}

/// A property element is well formed when it carries a numeric `value`
/// attribute, or at least one well-formed `Key` child.
pub open spec fn sp_raw_prop_valid(nv: XmlNodeV) -> bool {
    match sp_attr_ci(nv.attrs, "value"@) {
        Some(v) => sp_is_numeric(v),
        None => sp_keys_raw(nv.children) matches Some(ks) && ks.len() > 0,
    }
}

/// What a well-formed property element denotes: its constant value text,
/// or its keyframes sorted strictly ascending with first-per-time kept.
pub open spec fn sp_raw_prop_rel(nv: XmlNodeV, p: RawPropertyV) -> bool {
    match sp_attr_ci(nv.attrs, "value"@) {
        Some(v) => p == RawPropertyV::Constant(v),
        None => match sp_keys_raw(nv.children) {
            Some(raw) => p matches RawPropertyV::Animated(ks) && sp_strictly_sorted_raw(ks) && (
            forall|t: u32| sp_has_time_raw(ks, t) <==> sp_has_time_raw(raw, t))
                && sp_keeps_first_raw(raw, ks, raw.len() as int),
            None => false,
        },
    }
}

/// Read one property element: a `value` attribute wins, else the `Key`
/// children, sorted and de-duplicated by time.
pub fn property_from_node(n: &XmlNode) -> (r: Result<RawProperty, DecodeError>)
    ensures
        match r {
            Ok(p) => sp_raw_prop_valid(n@) && sp_raw_prop_rel(n@, p@),
            Err(_) => !sp_raw_prop_valid(n@),
        },
{
    match attr_ci(n, "value") {
        Some(v) => {
            if !is_numeric_str(v.as_str()) {
                return Err(DecodeError::InvalidXmlValue);
            }
            Ok(RawProperty::Constant(v.clone()))
        },
        None => {
            let raw = match keys_raw(&n.children) {
                Ok(v) => v,
                Err(e) => {
                    return Err(e);
                },
            };
            proof {
                assert(n@.children == sp_view_xml_nodes_vec(n.children));
            }
            if raw.len() == 0 {
                return Err(DecodeError::MissingXmlChild);
            }
            let ks = normalize_raw_keyframes(&raw);
            Ok(RawProperty::Animated(ks))
        },
    }
}

// ------------------------------------------------ the effect document --

/// One emitter of an effect. The dialect currently defines one kind.
#[derive(Debug, PartialEq, Eq)]
pub enum ParticleEmitter {
    Continuous(ContinuousEmitter),
}

pub enum ParticleEmitterV {
    Continuous(ContinuousEmitterV),
}

impl View for ParticleEmitter {
    type V = ParticleEmitterV;

    open spec fn view(&self) -> ParticleEmitterV {
        match self {
            ParticleEmitter::Continuous(e) => ParticleEmitterV::Continuous(e@),
        }
    }
}

/// A decoded effect document: kind, validated numeric duration text,
/// integer keyframe rate, and the emitters in document order.
#[derive(Debug, PartialEq, Eq)]
pub struct VisualEffectAsset {
    pub kind: VisualEffectKind,
    pub duration: String,
    pub keyframes_per_second: u32,
    pub emitters: Vec<ParticleEmitter>,
}

pub struct VisualEffectAssetV {
    pub kind: VisualEffectKind,
    pub duration: Seq<char>,
    pub keyframes_per_second: u32,
    pub emitters: Seq<ParticleEmitterV>,
}

impl View for VisualEffectAsset {
    type V = VisualEffectAssetV;

    open spec fn view(&self) -> VisualEffectAssetV {
        VisualEffectAssetV {
            kind: self.kind,
            duration: self.duration@,
            keyframes_per_second: self.keyframes_per_second,
            emitters: self.emitters@.map_values(|e: ParticleEmitter| e@),
        }
    }
}

/// The children of an effect that are emitter elements, in order; any
/// other sibling tag is tolerated and skipped.
pub open spec fn sp_emitter_children(cs: Seq<XmlNodeV>) -> Seq<XmlNodeV>
    decreases cs.len(),
{
    if cs.len() == 0 {
        Seq::empty()
    } else if cs.last().tag == "ContinuousEmitter"@ {
        sp_emitter_children(cs.drop_last()).push(cs.last())
    } else {
        sp_emitter_children(cs.drop_last())
    }
}

/// A well-formed effect document: the root is an `Effect` element with a
/// recognized `type`, a `duration`, an integer `keyFramesPerSecond`, and
/// well-formed emitter children.
pub open spec fn sp_effect_wf(nv: XmlNodeV) -> bool {
    &&& nv.tag == "Effect"@
    &&& (match sp_attr_exact(nv.attrs, "type"@) {
        Some(v) => v == "Single"@ || v == "Looping"@ || v == "Infinite"@,
        None => false,
    })
    &&& (match sp_attr_exact(nv.attrs, "duration"@) {
        Some(v) => sp_is_numeric(v),
        None => false,
    })
    &&& (match sp_attr_exact(nv.attrs, "keyFramesPerSecond"@) {
        Some(v) => sp_parse_u32(v) is Some,
        None => false,
    })
    &&& (forall|i: int|
        0 <= i < nv.children.len() && (#[trigger] nv.children[i]).tag == "ContinuousEmitter"@
            ==> sp_emitter_wf(nv.children[i]))
}

/// What a well-formed effect document denotes, field by field.
pub open spec fn sp_effect_rel(nv: XmlNodeV, a: VisualEffectAssetV) -> bool {
    let ems = sp_emitter_children(nv.children);
    &&& a.kind == (if sp_attr_exact(nv.attrs, "type"@) == Some("Single"@) {
        VisualEffectKind::Single
    } else if sp_attr_exact(nv.attrs, "type"@) == Some("Looping"@) {
        VisualEffectKind::Looping
    } else {
        VisualEffectKind::Infinite
    })
    &&& Some(a.duration) == sp_attr_exact(nv.attrs, "duration"@)
    &&& (match sp_attr_exact(nv.attrs, "keyFramesPerSecond"@) {
        Some(v) => sp_parse_u32(v) == Some(a.keyframes_per_second),
        None => false,
    })
    &&& a.emitters.len() == ems.len()
    &&& (forall|i: int|
        0 <= i < ems.len() ==> ((#[trigger] a.emitters[i]) matches ParticleEmitterV::Continuous(e)
            && sp_emitter_rel(ems[i], e)))
}

impl VisualEffectAsset {
    /// Decode one effect document from its element tree: the root checks,
    /// the three attributes, then each emitter child; unknown sibling
    /// tags are skipped, as the self-describing dialect allows.
    pub fn from_tree(root: &XmlNode) -> (r: Result<VisualEffectAsset, DecodeError>)
        ensures
            match r {
                Ok(a) => sp_effect_wf(root@) && sp_effect_rel(root@, a@),
                Err(_) => !sp_effect_wf(root@),
            },
    {
        proof {
            assert(root@.children == sp_view_xml_nodes_vec(root.children));
            lemma_view_xml_nodes_seq(root.children@);
        }
        if !str_eq(root.tag.as_str(), "Effect") {
            return Err(DecodeError::InvalidXmlValue);
        }
        let kind_attr = match attr_exact(root, "type") {
            Some(v) => v,
            None => {
                return Err(DecodeError::MissingXmlAttribute);
            },
        };
        let kind = if str_eq(kind_attr.as_str(), "Single") {
            VisualEffectKind::Single
        } else if str_eq(kind_attr.as_str(), "Looping") {
            VisualEffectKind::Looping
        } else if str_eq(kind_attr.as_str(), "Infinite") {
            VisualEffectKind::Infinite
        } else {
            return Err(DecodeError::InvalidXmlValue);
        };
        let duration = match attr_exact(root, "duration") {
            Some(v) => v.clone(),
            None => {
                return Err(DecodeError::MissingXmlAttribute);
            },
        };
        if !is_numeric_str(duration.as_str()) {
            return Err(DecodeError::InvalidXmlValue);
        }
        let kfps_attr = match attr_exact(root, "keyFramesPerSecond") {
            Some(v) => v,
            None => {
                return Err(DecodeError::MissingXmlAttribute);
            },
        };
        let keyframes_per_second = match parse_u32_str(kfps_attr.as_str()) {
            Some(v) => v,
            None => {
                return Err(DecodeError::InvalidXmlValue);
            },
        };
        let ghost cs = root@.children;
        let n: usize = root.children.len();
        let mut emitters: Vec<ParticleEmitter> = Vec::new();
        let mut i: usize = 0;
        proof {
            assert(cs.take(0) =~= Seq::<XmlNodeV>::empty());
        }
        while i < n
            invariant
                i <= n,
                n == root.children@.len(),
                cs == root@.children,
                cs == sp_view_xml_nodes_seq(root.children@),
                cs == root.children@.map_values(|c: XmlNode| c@),
                forall|q: int|
                    0 <= q < i && (#[trigger] cs[q]).tag == "ContinuousEmitter"@
                        ==> sp_emitter_wf(cs[q]),
                emitters@.len() == sp_emitter_children(cs.take(i as int)).len(),
                forall|k: int|
                    0 <= k < emitters@.len() ==> ((#[trigger] emitters@[k]@)
                        matches ParticleEmitterV::Continuous(e) && sp_emitter_rel(
                        sp_emitter_children(cs.take(i as int))[k],
                        e,
                    )),
            decreases n - i,
        {
            proof {
                assert(cs.take(i + 1).last() == cs[i as int]);
                assert(cs.take(i + 1).drop_last() =~= cs.take(i as int));
            }
            if str_eq(root.children[i].tag.as_str(), "ContinuousEmitter") {
                let em = match ContinuousEmitter::read(&root.children[i]) {
                    Ok(v) => v,
                    Err(e) => {
                        return Err(e);
                    },
                };
                emitters.push(ParticleEmitter::Continuous(em));
            }
            proof {
                assert forall|q: int|
                    0 <= q < i + 1 && (#[trigger] cs[q]).tag == "ContinuousEmitter"@ implies
                    sp_emitter_wf(cs[q]) by {}
            }
            i = i + 1;
        }
        proof {
            assert(cs.take(n as int) =~= cs);
        }
        Ok(VisualEffectAsset { kind, duration, keyframes_per_second, emitters })
    }
}

// --------------------------------------------- entity-reference repair --

/// Whether the standard library counts this character as whitespace; the
/// entity repair pass stops skipping at whitespace or a semicolon.
pub uninterp spec fn sp_is_whitespace(c: char) -> bool;

/// Relies on `char::is_whitespace`: a function of the character alone.
#[verifier::external_body]
fn is_whitespace_char(c: char) -> (r: bool)
    ensures
        r == sp_is_whitespace(c),
{
    c.is_whitespace()
}

/// First position at or after `k` holding a terminator (whitespace or a
/// semicolon), or the text's end.
pub open spec fn sp_entity_end(s: Seq<char>, k: int) -> int
    decreases s.len() - k,
{
    if !(0 <= k < s.len()) {
        s.len() as int
    } else if sp_is_whitespace(s[k]) || s[k] == ';' {
        k
    } else {
        sp_entity_end(s, k + 1)
    }
}

proof fn lemma_entity_end_range(s: Seq<char>, k: int)
    requires
        0 <= k <= s.len(),
    ensures
        k <= sp_entity_end(s, k) <= s.len(),
    decreases s.len() - k,
{
    if k < s.len() && !(sp_is_whitespace(s[k]) || s[k] == ';') {
        lemma_entity_end_range(s, k + 1);
    }
}

/// The text with every entity-looking run removed: from each ampersand,
/// characters are dropped up to and including the first terminator.
pub open spec fn sp_strip_refs(s: Seq<char>, i: int) -> Seq<char>
    decreases s.len() - i,
{
    if !(0 <= i < s.len()) {
        Seq::empty()
    } else if s[i] != '&' {
        Seq::empty().push(s[i]) + sp_strip_refs(s, i + 1)
    } else {
        let j = sp_entity_end(s, i + 1);
        let next = if j >= s.len() {
            s.len() as int
        } else {
            j + 1
        };
        if i < next <= s.len() {
            sp_strip_refs(s, next)
        } else {
            Seq::empty()
        }
    }
}

/// One repair pass for corrupt effect text: strip every `&`-led run up to
/// its terminator. The caller retries the markup parse exactly once on
/// the stripped text.
pub fn strip_malformed_reference(xml: &str) -> (r: String)
    ensures
        r@ == sp_strip_refs(xml@, 0),
{
    let t = chars_vec(xml);
    let ghost s = xml@;
    let n: usize = t.len();
    let mut out: Vec<char> = Vec::new();
    let mut i: usize = 0;
    while i < n
        invariant
            i <= n,
            n == t@.len(),
            t@ == s,
            sp_strip_refs(s, 0) == out@ + sp_strip_refs(s, i as int),
        decreases n - i,
    {
        let c = t[i];
        if c != '&' {
            proof {
                assert(out@.push(c) + sp_strip_refs(s, i + 1) =~= out@ + (Seq::empty().push(c)
                    + sp_strip_refs(s, i + 1)));
            }
            out.push(c);
            i = i + 1;
        } else {
            let mut j: usize = i + 1;
            while j < n && !(is_whitespace_char(t[j]) || t[j] == ';')
                invariant
                    i + 1 <= j <= n,
                    n == t@.len(),
                    t@ == s,
                    sp_entity_end(s, i + 1) == sp_entity_end(s, j as int),
                decreases n - j,
            {
                j = j + 1;
            }
            proof {
                lemma_entity_end_range(s, j as int);
                assert(sp_entity_end(s, j as int) == j as int || j == n);
            }
            let next: usize = if j >= n {
                n
            } else {
                j + 1
            };
            i = next;
        }
    }
    proof {
        assert(sp_strip_refs(s, n as int) =~= Seq::<char>::empty());
        assert(out@ + Seq::<char>::empty() =~= out@);
    }
    string_from_chars(&out)
}

impl VisualEffectAsset {
    /// Decode an effect from markup text. If the markup parse fails on a
    /// malformed entity reference, the text is repaired once and parsed
    /// again; any second failure is fatal. Success means the text (or its
    /// one-shot repair) was well-formed markup whose tree is a well-formed
    /// effect, and the result is that tree's denotation; the exact dialect
    /// contract lives on `from_tree`, which this hands the parsed tree to.
    pub fn read_xml(text: &str) -> (r: Result<VisualEffectAsset, DecodeError>)
        ensures
            r matches Ok(a) ==> (exists|t: XmlNodeV|
                #[trigger] sp_effect_wf(t) && sp_effect_rel(t, a@)),
            r is Ok ==> (crate::xml::sp_xml_wellformed(text@) || crate::xml::sp_xml_wellformed(
                sp_strip_refs(text@, 0),
            )),
    {
        let root = match crate::xml::parse_xml_tree(text) {
            Ok(n) => n,
            Err(DecodeError::MalformedEntityReference) => {
                let repaired = strip_malformed_reference(text);
                match crate::xml::parse_xml_tree(repaired.as_str()) {
                    Ok(n) => n,
                    Err(e) => {
                        return Err(e);
                    },
                }
            },
            Err(e) => {
                return Err(e);
            },
        };
        let r = VisualEffectAsset::from_tree(&root);
        proof {
            if r is Ok {
                assert(sp_effect_wf(root@) && sp_effect_rel(root@, r->Ok_0@));
            }
        }
        r
    }
}

} // verus!
