use vstd::prelude::*;

use crate::err::DecodeError;
use crate::reader::{sp_f32bits, sp_i32le, Reader};
use crate::xnb::asset::math::{sp_quat, sp_vec3, Quat, Vec3};

verus! {

/// A rigid pose: translation, orientation, scale.
#[derive(Debug, Clone, Copy, PartialEq, Eq, Structural)]
pub struct AnimationPose {
    pub translation: Vec3,
    pub orientation: Quat,
    pub scale: Vec3,
}

/// A timestamped pose; the time is an IEEE single's bit pattern.
#[derive(Debug, Clone, Copy, PartialEq, Eq, Structural)]
pub struct AnimationKeyframe {
    pub time: u32,
    pub pose: AnimationPose,
}

/// One bone's keyframe track.
#[derive(Debug, Clone, PartialEq, Eq)]
pub struct AnimationChannel {
    pub keyframes: Vec<AnimationKeyframe>,
}

pub struct AnimationChannelV {
    pub keyframes: Seq<AnimationKeyframe>,
}

impl View for AnimationChannel {
    type V = AnimationChannelV;

    open spec fn view(&self) -> AnimationChannelV {
        AnimationChannelV { keyframes: self.keyframes@ }
    }
}

/// A named clip grouping channels by bone name.
#[derive(Debug, Clone, PartialEq, Eq)]
pub struct AnimationClip {
    pub name: String,
    pub duration: u32,
    pub channels: Vec<(String, AnimationChannel)>,
}

pub open spec fn sp_animation_pose(d: Seq<u8>, p: int) -> Option<(AnimationPose, int)> {
    match sp_vec3(d, p) {
        None => None,
        Some((translation, p1)) => match sp_quat(d, p1) {
            None => None,
            Some((orientation, p2)) => match sp_vec3(d, p2) {
                None => None,
                Some((scale, p3)) => Some((AnimationPose { translation, orientation, scale }, p3)),
            },
        },
    }
}

pub open spec fn sp_animation_keyframe(d: Seq<u8>, p: int) -> Option<(AnimationKeyframe, int)> {
    match sp_f32bits(d, p) {
        None => None,
        Some((time, p1)) => match sp_animation_pose(d, p1) {
            None => None,
            Some((pose, p2)) => Some((AnimationKeyframe { time, pose }, p2)),
        },
    }
}

pub open spec fn sp_animation_keyframes(d: Seq<u8>, p: int, n: nat) -> Option<
    (Seq<AnimationKeyframe>, int),
>
    decreases n,
{
    if n == 0 {
        Some((Seq::empty(), p))
    } else {
        match sp_animation_keyframe(d, p) {
            None => None,
            Some((k, p1)) => match sp_animation_keyframes(d, p1, (n - 1) as nat) {
                None => None,
                Some((ks, p2)) => Some((Seq::empty().push(k) + ks, p2)),
            },
        }
    }
}

/// Negative declared counts denote an empty list, as a loop over the count
/// would run no iterations.
pub open spec fn sp_count(v: i32) -> nat {
    if v < 0 {
        0
    } else {
        v as nat
    }
}

pub open spec fn sp_animation_channel(d: Seq<u8>, p: int) -> Option<(AnimationChannelV, int)> {
    match sp_i32le(d, p) {
        None => None,
        Some((n, p1)) => match sp_animation_keyframes(d, p1, sp_count(n)) {
            None => None,
            Some((ks, p2)) => Some((AnimationChannelV { keyframes: ks }, p2)),
        },
    }
}

impl AnimationPose {
    pub fn read(rd: &mut Reader) -> (r: Result<AnimationPose, DecodeError>)
        requires
            old(rd).wf(),
        ensures
            final(rd).wf(),
            final(rd).data@ == old(rd).data@,
            match r {
                Ok(v) => sp_animation_pose(old(rd).data@, old(rd).pos as int) == Some(
                    (v, final(rd).pos as int),
                ),
                Err(_) => sp_animation_pose(old(rd).data@, old(rd).pos as int) is None,
            },
    {
        let translation = match rd.read_vec3() {
            Ok(v) => v,
            Err(e) => {
                return Err(e);
            },
        };
        let orientation = match rd.read_quat() {
            Ok(v) => v,
            Err(e) => {
                return Err(e);
            },
        };
        let scale = match rd.read_vec3() {
            Ok(v) => v,
            Err(e) => {
                return Err(e);
            },
        };
        Ok(AnimationPose { translation, orientation, scale })
    }
}

impl AnimationKeyframe {
    pub fn read(rd: &mut Reader) -> (r: Result<AnimationKeyframe, DecodeError>)
        requires
            old(rd).wf(),
        ensures
            final(rd).wf(),
            final(rd).data@ == old(rd).data@,
            match r {
                Ok(v) => sp_animation_keyframe(old(rd).data@, old(rd).pos as int) == Some(
                    (v, final(rd).pos as int),
                ) && final(rd).pos > old(rd).pos,
                Err(_) => sp_animation_keyframe(old(rd).data@, old(rd).pos as int) is None,
            },
    {
        let time = match rd.read_f32bits() {
            Ok(v) => v,
            Err(e) => {
                return Err(e);
            },
        };
        let pose = match AnimationPose::read(rd) {
            Ok(v) => v,
            Err(e) => {
                return Err(e);
            },
        };
        Ok(AnimationKeyframe { time, pose })
    }
}

impl AnimationChannel {
    pub fn read(rd: &mut Reader) -> (r: Result<AnimationChannel, DecodeError>)
        requires
            old(rd).wf(),
        ensures
            final(rd).wf(),
            final(rd).data@ == old(rd).data@,
            match r {
                Ok(v) => sp_animation_channel(old(rd).data@, old(rd).pos as int) == Some(
                    (v@, final(rd).pos as int),
                ) && final(rd).pos > old(rd).pos,
                Err(_) => sp_animation_channel(old(rd).data@, old(rd).pos as int) is None,
            },
    {
        let ghost d = old(rd).data@;
        let num = match rd.read_i32le() {
            Ok(v) => v,
            Err(e) => {
                return Err(e);
            },
        };
        let n: u32 = if num < 0 {
            0
        } else {
            num as u32
        };
        let ghost p1 = rd.pos as int;
        let mut keyframes: Vec<AnimationKeyframe> = Vec::new();
        let mut i: u32 = 0;
        while i < n
            invariant
                rd.wf(),
                rd.data@ == d,
                d == old(rd).data@,
                sp_i32le(d, old(rd).pos as int) == Some((num, p1)),
                old(rd).pos < p1 <= rd.pos,
                n as nat == sp_count(num),
                i <= n,
                keyframes@.len() == i,
                sp_animation_keyframes(d, p1, n as nat) == match sp_animation_keyframes(
                    d,
                    rd.pos as int,
                    (n - i) as nat,
                ) {
                    None => None::<(Seq<AnimationKeyframe>, int)>,
                    Some((ks, pe)) => Some((keyframes@ + ks, pe)),
                },
            decreases n - i,
        {
            let k = match AnimationKeyframe::read(rd) {
                Ok(v) => v,
                Err(e) => {
                    return Err(e);
                },
            };
            proof {
                match sp_animation_keyframes(d, rd.pos as int, (n - i - 1) as nat) {
                    Some((ks, pe)) => {
                        assert(keyframes@.push(k) + ks =~= keyframes@ + (Seq::empty().push(k)
                            + ks));
                    },
                    None => {},
                }
            }
            keyframes.push(k);
            i = i + 1;
        }
        proof {
            assert(keyframes@ + Seq::<AnimationKeyframe>::empty() =~= keyframes@);
        }
        Ok(AnimationChannel { keyframes })
    }
}

} // verus!
