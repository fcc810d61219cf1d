//! The format's small enumerations. A wire value out of range wraps around
//! by modulo into the set instead of being rejected.

use vstd::prelude::*;

verus! {

#[derive(Clone, Copy, Debug, PartialEq, Eq, Structural)]
pub enum AsepriteBlendMode {
    Normal,
    Multiply,
    Screen,
    Overlay,
    Darken,
    Lighten,
    ColorDodge,
    ColorBurn,
    HardLight,
    SoftLight,
    Difference,
    Exclusion,
    Hue,
    Saturation,
    Color,
    Luminosity,
    Addition,
    Subtract,
    Divide,
}

/// The blend mode of a wire value, taken modulo the nineteen modes.
pub open spec fn blend_mode_of(v: u16) -> AsepriteBlendMode {
    let k = v % 19;
    if k == 0 {
        AsepriteBlendMode::Normal
    } else if k == 1 {
        AsepriteBlendMode::Multiply
    } else if k == 2 {
        AsepriteBlendMode::Screen
    } else if k == 3 {
        AsepriteBlendMode::Overlay
    } else if k == 4 {
        AsepriteBlendMode::Darken
    } else if k == 5 {
        AsepriteBlendMode::Lighten
    } else if k == 6 {
        AsepriteBlendMode::ColorDodge
    } else if k == 7 {
        AsepriteBlendMode::ColorBurn
    } else if k == 8 {
        AsepriteBlendMode::HardLight
    } else if k == 9 {
        AsepriteBlendMode::SoftLight
    } else if k == 10 {
        AsepriteBlendMode::Difference
    } else if k == 11 {
        AsepriteBlendMode::Exclusion
    } else if k == 12 {
        AsepriteBlendMode::Hue
    } else if k == 13 {
        AsepriteBlendMode::Saturation
    } else if k == 14 {
        AsepriteBlendMode::Color
    } else if k == 15 {
        AsepriteBlendMode::Luminosity
    } else if k == 16 {
        AsepriteBlendMode::Addition
    } else if k == 17 {
        AsepriteBlendMode::Subtract
    } else {
        AsepriteBlendMode::Divide
    }
}

impl From<u16> for AsepriteBlendMode {
    fn from(value: u16) -> Self {
        match value % 19 {
            0 => Self::Normal,
            1 => Self::Multiply,
            2 => Self::Screen,
            3 => Self::Overlay,
            4 => Self::Darken,
            5 => Self::Lighten,
            6 => Self::ColorDodge,
            7 => Self::ColorBurn,
            8 => Self::HardLight,
            9 => Self::SoftLight,
            10 => Self::Difference,
            11 => Self::Exclusion,
            12 => Self::Hue,
            13 => Self::Saturation,
            14 => Self::Color,
            15 => Self::Luminosity,
            16 => Self::Addition,
            17 => Self::Subtract,
            _ => Self::Divide,
        }
    }
}

impl vstd::std_specs::convert::FromSpecImpl<u16> for AsepriteBlendMode {
    open spec fn obeys_from_spec() -> bool {
        true
    }

    open spec fn from_spec(v: u16) -> Self {
        blend_mode_of(v)
    }
}

impl AsepriteBlendMode {
    /// The mode's name as the editor shows it.
    pub fn label(&self) -> (r: &'static str)
        ensures
            r@ == blend_mode_label(*self),
    {
        match self {
            Self::Normal => "Normal",
            Self::Multiply => "Multiply",
            Self::Screen => "Screen",
            Self::Overlay => "Overlay",
            Self::Darken => "Darken",
            Self::Lighten => "Lighten",
            Self::ColorDodge => "Color Dodge",
            Self::ColorBurn => "Color Burn",
            Self::HardLight => "Hard Light",
            Self::SoftLight => "Soft Light",
            Self::Difference => "Difference",
            Self::Exclusion => "Exclusion",
            Self::Hue => "Hue",
            Self::Saturation => "Saturation",
            Self::Color => "Color",
            Self::Luminosity => "Luminosity",
            Self::Addition => "Addition",
            Self::Subtract => "Subtract",
            Self::Divide => "Divide",
        }
    }
}

pub open spec fn blend_mode_label(m: AsepriteBlendMode) -> Seq<char> {
    match m {
        AsepriteBlendMode::Normal => "Normal"@,
        AsepriteBlendMode::Multiply => "Multiply"@,
        AsepriteBlendMode::Screen => "Screen"@,
        AsepriteBlendMode::Overlay => "Overlay"@,
        AsepriteBlendMode::Darken => "Darken"@,
        AsepriteBlendMode::Lighten => "Lighten"@,
        AsepriteBlendMode::ColorDodge => "Color Dodge"@,
        AsepriteBlendMode::ColorBurn => "Color Burn"@,
        AsepriteBlendMode::HardLight => "Hard Light"@,
        AsepriteBlendMode::SoftLight => "Soft Light"@,
        AsepriteBlendMode::Difference => "Difference"@,
        AsepriteBlendMode::Exclusion => "Exclusion"@,
        AsepriteBlendMode::Hue => "Hue"@,
        AsepriteBlendMode::Saturation => "Saturation"@,
        AsepriteBlendMode::Color => "Color"@,
        AsepriteBlendMode::Luminosity => "Luminosity"@,
        AsepriteBlendMode::Addition => "Addition"@,
        AsepriteBlendMode::Subtract => "Subtract"@,
        AsepriteBlendMode::Divide => "Divide"@,
    }
}

#[derive(Clone, Copy, Debug, PartialEq, Eq, Structural)]
pub enum AsepriteLayerType {
    Normal,
    Group,
    Tilemap,
}

/// The layer kind of a wire value, taken modulo the three kinds.
pub open spec fn layer_type_of(v: u16) -> AsepriteLayerType {
    let k = v % 3;
    if k == 0 {
        AsepriteLayerType::Normal
    } else if k == 1 {
        AsepriteLayerType::Group
    } else {
        AsepriteLayerType::Tilemap
    }
}

impl From<u16> for AsepriteLayerType {
    fn from(value: u16) -> Self {
        match value % 3 {
            0 => Self::Normal,
            1 => Self::Group,
            _ => Self::Tilemap,
        }
    }
}

impl vstd::std_specs::convert::FromSpecImpl<u16> for AsepriteLayerType {
    open spec fn obeys_from_spec() -> bool {
        true
    }

    open spec fn from_spec(v: u16) -> Self {
        layer_type_of(v)
    }
}

/// The bits of a layer's flag word.
#[derive(Clone, Copy, Debug, PartialEq, Eq, Structural)]
pub enum AsepriteLayerFlags {
    Visible,
    Editable,
    LockMovement,
    Background,
    PreferLinkingCels,
    IsCollapsed,
    IsReference,
}

/// A flag's mask in the flag word: bit 0 for `Visible` up to bit 6 for `IsReference`.
pub open spec fn layer_flag_mask(f: AsepriteLayerFlags) -> u16 {
    match f {
        AsepriteLayerFlags::Visible => 1,
        AsepriteLayerFlags::Editable => 2,
        AsepriteLayerFlags::LockMovement => 4,
        AsepriteLayerFlags::Background => 8,
        AsepriteLayerFlags::PreferLinkingCels => 16,
        AsepriteLayerFlags::IsCollapsed => 32,
        AsepriteLayerFlags::IsReference => 64,
    }
}

impl AsepriteLayerFlags {
    /// The flag's mask.
    pub fn mask(self) -> (r: u16)
        ensures
            r == layer_flag_mask(self),
    {
        match self {
            Self::Visible => 1,
            Self::Editable => 2,
            Self::LockMovement => 4,
            Self::Background => 8,
            Self::PreferLinkingCels => 16,
            Self::IsCollapsed => 32,
            Self::IsReference => 64,
        }
    }

    /// `flags` with every bit cleared but this flag's.
    pub fn masked(self, flags: u16) -> (r: u16)
        ensures
            r == flags & layer_flag_mask(self),
    {
        flags & self.mask()
    }
}

#[derive(Clone, Copy, Debug, PartialEq, Eq, Structural)]
pub enum AsepriteCelType {
    Raw,
    Linked,
    CompressedImage,
    CompressedTilemap,
}

/// The cel kind of a wire value, taken modulo the four kinds.
pub open spec fn cel_type_of(v: u16) -> AsepriteCelType {
    let k = v % 4;
    if k == 0 {
        AsepriteCelType::Raw
    } else if k == 1 {
        AsepriteCelType::Linked
    } else if k == 2 {
        AsepriteCelType::CompressedImage
    } else {
        AsepriteCelType::CompressedTilemap
    }
}

impl From<u16> for AsepriteCelType {
    fn from(value: u16) -> Self {
        match value % 4 {
            0 => Self::Raw,
            1 => Self::Linked,
            2 => Self::CompressedImage,
            _ => Self::CompressedTilemap,
        }
    }
}

impl vstd::std_specs::convert::FromSpecImpl<u16> for AsepriteCelType {
    open spec fn obeys_from_spec() -> bool {
        true
    }

    open spec fn from_spec(v: u16) -> Self {
        cel_type_of(v)
    }
}

impl AsepriteCelType {
    /// The kind's name.
    pub fn label(&self) -> (r: &'static str)
        ensures
            r@ == cel_type_label(*self),
    {
        match self {
            Self::Raw => "Raw",
            Self::Linked => "Linked",
            Self::CompressedImage => "CompressedImage",
            Self::CompressedTilemap => "CompressedTilemap",
        }
    }
}

pub open spec fn cel_type_label(c: AsepriteCelType) -> Seq<char> {
    match c {
        AsepriteCelType::Raw => "Raw"@,
        AsepriteCelType::Linked => "Linked"@,
        AsepriteCelType::CompressedImage => "CompressedImage"@,
        AsepriteCelType::CompressedTilemap => "CompressedTilemap"@,
    }
}

#[derive(Clone, Copy, Debug, PartialEq, Eq, Structural)]
pub enum AsepriteTagDirection {
    Forward,
    Reverse,
    PingPong,
    PingPongReverse,
}

/// The playback direction of a wire value, taken modulo the four directions.
pub open spec fn tag_direction_of(v: u8) -> AsepriteTagDirection {
    let k = v % 4;
    if k == 0 {
        AsepriteTagDirection::Forward
    } else if k == 1 {
        AsepriteTagDirection::Reverse
    } else if k == 2 {
        AsepriteTagDirection::PingPong
    } else {
        AsepriteTagDirection::PingPongReverse
    }
}

impl From<u8> for AsepriteTagDirection {
    fn from(value: u8) -> Self {
        match value % 4 {
            0 => Self::Forward,
            1 => Self::Reverse,
            2 => Self::PingPong,
            _ => Self::PingPongReverse,
        }
    }
}

impl vstd::std_specs::convert::FromSpecImpl<u8> for AsepriteTagDirection {
    open spec fn obeys_from_spec() -> bool {
        true
    }

    open spec fn from_spec(v: u8) -> Self {
        tag_direction_of(v)
    }
}

impl AsepriteTagDirection {
    /// The direction's name.
    pub fn label(&self) -> (r: &'static str)
        ensures
            r@ == tag_direction_label(*self),
    {
        match self {
            Self::Forward => "Forward",
            Self::Reverse => "Reverse",
            Self::PingPong => "PingPong",
            Self::PingPongReverse => "PingPongReverse",
        }
    }
}

pub open spec fn tag_direction_label(d: AsepriteTagDirection) -> Seq<char> {
    match d {
        AsepriteTagDirection::Forward => "Forward"@,
        AsepriteTagDirection::Reverse => "Reverse"@,
        AsepriteTagDirection::PingPong => "PingPong"@,
        AsepriteTagDirection::PingPongReverse => "PingPongReverse"@,
    }
}

} // verus!
