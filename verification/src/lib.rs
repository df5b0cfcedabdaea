//! Decoder library for XNB game-asset containers and the companion
//! keyframed visual-effect XML dialect.

use vstd::prelude::*;

pub mod err;
pub mod reader;
pub mod strutil;
pub mod vfx;
pub mod xml;
pub mod xnb;

pub use err::DecodeError;
pub use reader::Reader;
pub use strutil::fix_xnb_path;
pub use vfx::continuous_emitter::{ContinuousEmitter, SpreadType};
pub use vfx::{Interpolation, ParticleEmitter, RawKeyframe, RawProperty, VisualEffectAsset,
    VisualEffectKind, VisualEffectProperty, VisualEffectPropertyKeyframe};
pub use xml::{XmlAttr, XmlNode};
pub use xnb::{Header, Platform, TypeReader, Version, Xnb, XnbContent};
pub use xnb::asset::XnbAsset;

verus! {

} // verus!
