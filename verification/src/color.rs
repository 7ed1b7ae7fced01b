//! Entity colours and the AutoCAD colour index (ACI) of DXF files.

use vstd::prelude::*;

verus! {

/// Where an entity's colour comes from.
#[derive(Debug, Clone, Copy, PartialEq, Eq, Structural)]
pub enum ColorSource {
    /// The colour's own components.
    Explicit,
    /// The colour of the entity's layer.
    ByLayer,
    /// The colour of the enclosing block.
    ByBlock,
}

/// An RGB colour, or a reference to the layer's or block's colour.
#[derive(Debug, Clone, Copy, PartialEq, Eq, Structural)]
pub struct Color {
    pub r: u8,
    pub g: u8,
    pub b: u8,
    pub source: ColorSource,
}

impl Color {
    pub fn rgb(r: u8, g: u8, b: u8) -> (c: Self)
        ensures
            c == (Color { r, g, b, source: ColorSource::Explicit }),
    {
        Color { r, g, b, source: ColorSource::Explicit }
    }

    pub fn is_by_layer(&self) -> (r: bool)
        ensures
            r == (self.source == ColorSource::ByLayer),
    {
        self.source == ColorSource::ByLayer
    }

    pub fn is_by_block(&self) -> (r: bool)
        ensures
            r == (self.source == ColorSource::ByBlock),
    {
        self.source == ColorSource::ByBlock
    }
}

/// The RGB components of the first eight ACI colours: red, yellow, green,
/// cyan, blue, magenta, white and gray; other indices show as white.
pub open spec fn aci_rgb(aci: u16) -> (u8, u8, u8) {
    match aci {
        1 => (255, 0, 0),
        2 => (255, 255, 0),
        3 => (0, 255, 0),
        4 => (0, 255, 255),
        5 => (0, 0, 255),
        6 => (255, 0, 255),
        8 => (128, 128, 128),
        _ => (255, 255, 255),
    }
}

/// The ACI of some RGB components: the palette index they match, white (7)
/// otherwise.
pub open spec fn rgb_aci(r: u8, g: u8, b: u8) -> u16 {
    if (r, g, b) == (255u8, 0u8, 0u8) {
        1
    } else if (r, g, b) == (255u8, 255u8, 0u8) {
        2
    } else if (r, g, b) == (0u8, 255u8, 0u8) {
        3
    } else if (r, g, b) == (0u8, 255u8, 255u8) {
        4
    } else if (r, g, b) == (0u8, 0u8, 255u8) {
        5
    } else if (r, g, b) == (255u8, 0u8, 255u8) {
        6
    } else if (r, g, b) == (128u8, 128u8, 128u8) {
        8
    } else {
        7
    }
}

/// The ACI of the block colour.
pub const ACI_BY_BLOCK: u16 = 0;

/// The ACI of the layer colour.
pub const ACI_BY_LAYER: u16 = 256;

/// Where the colour of an ACI index comes from.
pub open spec fn aci_source(aci: u16) -> ColorSource {
    if aci == ACI_BY_BLOCK {
        ColorSource::ByBlock
    } else if aci == ACI_BY_LAYER {
        ColorSource::ByLayer
    } else {
        ColorSource::Explicit
    }
}

/// The ACI index of a colour.
pub open spec fn aci_of(c: Color) -> u16 {
    if c.source == ColorSource::ByBlock {
        ACI_BY_BLOCK
    } else if c.source == ColorSource::ByLayer {
        ACI_BY_LAYER
    } else {
        rgb_aci(c.r, c.g, c.b)
    }
}

/// The colour of an ACI index: 0 is the block colour, 256 the layer colour,
/// other indices the palette (white outside it).
pub fn aci_to_color(aci: u16) -> (c: Color)
    ensures
        c.source == aci_source(aci),
        (c.r, c.g, c.b) == aci_rgb(aci),
{
    match aci {
        0 => Color { r: 255, g: 255, b: 255, source: ColorSource::ByBlock },
        256 => Color { r: 255, g: 255, b: 255, source: ColorSource::ByLayer },
        1 => Color::rgb(255, 0, 0),
        2 => Color::rgb(255, 255, 0),
        3 => Color::rgb(0, 255, 0),
        4 => Color::rgb(0, 255, 255),
        5 => Color::rgb(0, 0, 255),
        6 => Color::rgb(255, 0, 255),
        7 => Color::rgb(255, 255, 255),
        8 => Color::rgb(128, 128, 128),
        _ => Color::rgb(255, 255, 255),
    }
}

/// The ACI index of a colour: 0 for the block colour, 256 for the layer
/// colour, the palette index of an explicit colour, white (7) for colours
/// outside the palette.
pub fn color_to_aci(color: &Color) -> (aci: u16)
    ensures
        aci == aci_of(*color),
{
    if color.is_by_block() {
        return 0;
    }
    if color.is_by_layer() {
        return 256;
    }
    match (color.r, color.g, color.b) {
        (255, 0, 0) => 1,
        (255, 255, 0) => 2,
        (0, 255, 0) => 3,
        (0, 255, 255) => 4,
        (0, 0, 255) => 5,
        (255, 0, 255) => 6,
        (255, 255, 255) => 7,
        (128, 128, 128) => 8,
        _ => 7,
    }
}

/// The block index, the palette indices and the layer index survive a trip
/// through a colour.
pub proof fn lemma_aci_roundtrip(aci: u16)
    requires
        aci <= 8 || aci == ACI_BY_LAYER,
    ensures
        aci_of(Color { r: aci_rgb(aci).0, g: aci_rgb(aci).1, b: aci_rgb(aci).2, source: aci_source(aci) }) == aci,
{
}

/// Every index maps to a colour whose index maps back to the same colour.
pub proof fn lemma_aci_stable(aci: u16)
    ensures
        aci_rgb(rgb_aci(aci_rgb(aci).0, aci_rgb(aci).1, aci_rgb(aci).2)) == aci_rgb(aci),
{
}

} // verus!
