//! Classification of attributes by the effect they have on a device. These
//! are presentation hints: they never change how an attribute renders.

use vstd::prelude::*;

verus! {

/// What an attribute does.
#[derive(Clone, Copy, Debug, PartialEq, Eq, Structural)]
pub enum EffectType {
    Misc,
    ModeSelect,
    Color,
    Dimmer,
    Relay,
    Focus,
    Zoom,
    Iris,
    Frame,
    Strobe,
    Position,
    Orientation,
    Transform,
    FilterSelect,
    FilterIntensity,
    Raster,
    Control,
    Smoothing,
}

/// How an attribute does it.
#[derive(Clone, Copy, Debug, PartialEq, Eq, Structural)]
pub enum EffectSubtype {
    Other,
    ColorspaceRgb,
    ColorspaceHsb,
    ColorspaceRgbi,
    ColorspaceRgbw,
    ColorspaceRgbaw,
    ColorspaceHsl,
    Colorspace1x,
    Colorspace2x,
    Colorspace3x,
    Colorspace4x,
    Colorspace5x,
    ColorspaceI1x,
    ColorspaceI2x,
    ColorspaceI3x,
    ColorspaceI4x,
    ColorspaceI5x,
    ColorspaceI,
    TransformRotate,
    TransformScroll,
    TransformTranslate,
    FilterMisc,
    FilterMultiply,
    FilterDistort,
    FilterSubtract,
    FilterAdd,
    OrientationMirror,
    OrientationYoke,
}

/// Which quantity of the effect an attribute controls.
#[derive(Clone, Copy, Debug, PartialEq, Eq, Structural)]
pub enum EffectSubsubtype {
    Value,
    Frequency,
    Duration,
}

} // verus!
