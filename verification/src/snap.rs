//! Object-snap kinds and the bit mask that enables them.

use vstd::prelude::*;

verus! {

/// Kind of object snap.
#[derive(Debug, Clone, Copy, PartialEq, Eq, Structural, Hash)]
pub enum SnapType {
    Endpoint,
    Midpoint,
    Center,
    Intersection,
    Perpendicular,
    Tangent,
    Nearest,
    Grid,
    Quadrant,
}

/// Display name of a snap kind.
pub open spec fn snap_type_name(t: SnapType) -> Seq<char> {
    match t {
        SnapType::Endpoint => "端点"@,
        SnapType::Midpoint => "中点"@,
        SnapType::Center => "圆心"@,
        SnapType::Intersection => "交点"@,
        SnapType::Perpendicular => "垂足"@,
        SnapType::Tangent => "切点"@,
        SnapType::Nearest => "最近点"@,
        SnapType::Grid => "网格点"@,
        SnapType::Quadrant => "象限点"@,
    }
}

/// Command-line shortcut of a snap kind.
pub open spec fn snap_type_shortcut(t: SnapType) -> Seq<char> {
    match t {
        SnapType::Endpoint => "END"@,
        SnapType::Midpoint => "MID"@,
        SnapType::Center => "CEN"@,
        SnapType::Intersection => "INT"@,
        SnapType::Perpendicular => "PER"@,
        SnapType::Tangent => "TAN"@,
        SnapType::Nearest => "NEA"@,
        SnapType::Grid => "GRI"@,
        SnapType::Quadrant => "QUA"@,
    }
}

/// Bit assigned to each snap kind in a `SnapMask`.
pub open spec fn snap_bit(t: SnapType) -> u16 {
    match t {
        SnapType::Endpoint => 1u16,
        SnapType::Midpoint => 2u16,
        SnapType::Center => 4u16,
        SnapType::Intersection => 8u16,
        SnapType::Perpendicular => 16u16,
        SnapType::Tangent => 32u16,
        SnapType::Nearest => 64u16,
        SnapType::Grid => 128u16,
        SnapType::Quadrant => 256u16,
    }
}

/// The bits of a mask after enabling or disabling one snap kind.
pub open spec fn set_bits(bits: u16, t: SnapType, enabled: bool) -> u16 {
    if enabled {
        bits | snap_bit(t)
    } else {
        bits & !snap_bit(t)
    }
}

impl SnapType {
    pub fn name(&self) -> (r: &'static str)
        ensures
            r@ == snap_type_name(*self),
    {
        match self {
            SnapType::Endpoint => "端点",
            SnapType::Midpoint => "中点",
            SnapType::Center => "圆心",
            SnapType::Intersection => "交点",
            SnapType::Perpendicular => "垂足",
            SnapType::Tangent => "切点",
            SnapType::Nearest => "最近点",
            SnapType::Grid => "网格点",
            SnapType::Quadrant => "象限点",
        }
    }

    pub fn shortcut(&self) -> (r: &'static str)
        ensures
            r@ == snap_type_shortcut(*self),
    {
        match self {
            SnapType::Endpoint => "END",
            SnapType::Midpoint => "MID",
            SnapType::Center => "CEN",
            SnapType::Intersection => "INT",
            SnapType::Perpendicular => "PER",
            SnapType::Tangent => "TAN",
            SnapType::Nearest => "NEA",
            SnapType::Grid => "GRI",
            SnapType::Quadrant => "QUA",
        }
    }
}

/// A set of enabled snap kinds, one bit per kind.
#[derive(Debug, Clone, Copy)]
pub struct SnapMask {
    bits: u16,
}

fn bit_of(snap_type: SnapType) -> (b: u16)
    ensures
        b == snap_bit(snap_type),
{
    match snap_type {
        SnapType::Endpoint => SnapMask::ENDPOINT,
        SnapType::Midpoint => SnapMask::MIDPOINT,
        SnapType::Center => SnapMask::CENTER,
        SnapType::Intersection => SnapMask::INTERSECTION,
        SnapType::Perpendicular => SnapMask::PERPENDICULAR,
        SnapType::Tangent => SnapMask::TANGENT,
        SnapType::Nearest => SnapMask::NEAREST,
        SnapType::Grid => SnapMask::GRID,
        SnapType::Quadrant => SnapMask::QUADRANT,
    }
}

impl SnapMask {
    pub const ENDPOINT: u16 = 1;
    pub const MIDPOINT: u16 = 2;
    pub const CENTER: u16 = 4;
    pub const INTERSECTION: u16 = 8;
    pub const PERPENDICULAR: u16 = 16;
    pub const TANGENT: u16 = 32;
    pub const NEAREST: u16 = 64;
    pub const GRID: u16 = 128;
    pub const QUADRANT: u16 = 256;

    /// The mask with no snap kind enabled.
    #[allow(non_snake_case)]
    pub fn NONE() -> (m: SnapMask)
        ensures
            m.spec_bits() == 0,
    {
        SnapMask { bits: 0 }
    }

    /// The mask with every bit set.
    #[allow(non_snake_case)]
    pub fn ALL() -> (m: SnapMask)
        ensures
            m.spec_bits() == 0xFFFF,
    {
        SnapMask { bits: 0xFFFF }
    }

    /// The raw bits of the mask.
    pub closed spec fn spec_bits(self) -> u16 {
        self.bits
    }

    /// Whether the mask enables a snap kind.
    pub open spec fn enables(self, t: SnapType) -> bool {
        self.spec_bits() & snap_bit(t) != 0
    }

    pub fn new(bits: u16) -> (m: Self)
        ensures
            m.spec_bits() == bits,
    {
        Self { bits }
    }

    /// The raw bits of the mask.
    pub fn bits(&self) -> (b: u16)
        ensures
            b == self.spec_bits(),
    {
        self.bits
    }

    pub fn is_enabled(&self, snap_type: SnapType) -> (r: bool)
        ensures
            r == self.enables(snap_type),
    {
        let bit = bit_of(snap_type);
        self.bits & bit != 0
    }

    pub fn set(&mut self, snap_type: SnapType, enabled: bool)
        ensures
            final(self).spec_bits() == set_bits(old(self).spec_bits(), snap_type, enabled),
    {
        let bit = bit_of(snap_type);
        if enabled {
            self.bits = self.bits | bit;
        } else {
            self.bits = self.bits & !bit;
        }
    }

    pub fn toggle(&mut self, snap_type: SnapType)
        ensures
            final(self).spec_bits() == old(self).spec_bits() ^ snap_bit(snap_type),
    {
        let enabled = self.is_enabled(snap_type);
        let ghost b = self.bits;
        let ghost k = snap_bit(snap_type);
        self.set(snap_type, !enabled);
        proof {
            lemma_toggle_bits(b, k);
        }
    }

}

impl Default for SnapMask {
    /// The mask enabled by default: endpoint, midpoint, center and intersection.
    fn default() -> (m: Self)
        ensures
            m.spec_bits() == 15,
    {
        assert(1u16 | 2u16 | 4u16 | 8u16 == 15u16) by (bit_vector);
        Self { bits: Self::ENDPOINT | Self::MIDPOINT | Self::CENTER | Self::INTERSECTION }
    }
}

/// Each snap kind is enabled exactly by its own named bit, and the named
/// bits are the successive powers of two: endpoint 1 << 0, midpoint 1 << 1,
/// center 1 << 2, intersection 1 << 3, perpendicular 1 << 4, tangent 1 << 5,
/// nearest 1 << 6, grid 1 << 7, quadrant 1 << 8.
pub proof fn lemma_kinds_use_their_bits(m: SnapMask)
    ensures
        m.enables(SnapType::Endpoint) == (m.spec_bits() & SnapMask::ENDPOINT != 0),
        m.enables(SnapType::Midpoint) == (m.spec_bits() & SnapMask::MIDPOINT != 0),
        m.enables(SnapType::Center) == (m.spec_bits() & SnapMask::CENTER != 0),
        m.enables(SnapType::Intersection) == (m.spec_bits() & SnapMask::INTERSECTION != 0),
        m.enables(SnapType::Perpendicular) == (m.spec_bits() & SnapMask::PERPENDICULAR != 0),
        m.enables(SnapType::Tangent) == (m.spec_bits() & SnapMask::TANGENT != 0),
        m.enables(SnapType::Nearest) == (m.spec_bits() & SnapMask::NEAREST != 0),
        m.enables(SnapType::Grid) == (m.spec_bits() & SnapMask::GRID != 0),
        m.enables(SnapType::Quadrant) == (m.spec_bits() & SnapMask::QUADRANT != 0),
        SnapMask::ENDPOINT == 1u16 << 0u16,
        SnapMask::MIDPOINT == 1u16 << 1u16,
        SnapMask::CENTER == 1u16 << 2u16,
        SnapMask::INTERSECTION == 1u16 << 3u16,
        SnapMask::PERPENDICULAR == 1u16 << 4u16,
        SnapMask::TANGENT == 1u16 << 5u16,
        SnapMask::NEAREST == 1u16 << 6u16,
        SnapMask::GRID == 1u16 << 7u16,
        SnapMask::QUADRANT == 1u16 << 8u16,
{
    assert(1u16 << 0u16 == 1u16 && 1u16 << 1u16 == 2u16 && 1u16 << 2u16 == 4u16 && 1u16 << 3u16 == 8u16 && 1u16
        << 4u16 == 16u16 && 1u16 << 5u16 == 32u16 && 1u16 << 6u16 == 64u16 && 1u16 << 7u16 == 128u16 && 1u16
        << 8u16 == 256u16) by (bit_vector);
}

pub open spec fn is_snap_bit(k: u16) -> bool {
    k == 1 || k == 2 || k == 4 || k == 8 || k == 16 || k == 32 || k == 64 || k == 128 || k == 256
}

proof fn lemma_snap_bits_distinct(t: SnapType, u: SnapType)
    ensures
        is_snap_bit(snap_bit(t)),
        t != u ==> snap_bit(t) != snap_bit(u),
{
}

/// Setting a snap kind makes the mask report exactly the requested state for
/// that kind and leaves every other kind as it was.
pub proof fn lemma_set_then_query(bits: u16, t: SnapType, enabled: bool, other: SnapType)
    ensures
        (set_bits(bits, t, enabled) & snap_bit(t) != 0) == enabled,
        other != t ==> ((set_bits(bits, t, enabled) & snap_bit(other) != 0) == (bits & snap_bit(
            other,
        ) != 0)),
{
    lemma_snap_bits_distinct(t, other);
    let k = snap_bit(t);
    let j = snap_bit(other);
    assert(((bits | k) & k != 0) && ((bits & !k) & k == 0)) by (bit_vector)
        requires
            k == 1 || k == 2 || k == 4 || k == 8 || k == 16 || k == 32 || k == 64 || k == 128 || k
                == 256,
    ;
    if other != t {
        assert((((bits | k) & j != 0) == (bits & j != 0)) && (((bits & !k) & j != 0) == (bits & j
            != 0))) by (bit_vector)
            requires
                k == 1 || k == 2 || k == 4 || k == 8 || k == 16 || k == 32 || k == 64 || k == 128
                    || k == 256,
                j == 1 || j == 2 || j == 4 || j == 8 || j == 16 || j == 32 || j == 64 || j == 128
                    || j == 256,
                j != k,
        ;
    }
}

/// Toggling the same snap kind twice restores the mask.
pub proof fn lemma_toggle_twice(bits: u16, t: SnapType)
    ensures
        (bits ^ snap_bit(t)) ^ snap_bit(t) == bits,
{
    let k = snap_bit(t);
    assert((bits ^ k) ^ k == bits) by (bit_vector);
}

proof fn lemma_toggle_bits(b: u16, k: u16)
    requires
        k == 1 || k == 2 || k == 4 || k == 8 || k == 16 || k == 32 || k == 64 || k == 128 || k
            == 256,
    ensures
        (if b & k != 0 { b & !k } else { b | k }) == b ^ k,
{
    assert((if b & k != 0 { b & !k } else { b | k }) == b ^ k) by (bit_vector)
        requires
            k == 1 || k == 2 || k == 4 || k == 8 || k == 16 || k == 32 || k == 64 || k == 128 || k
                == 256,
    ;
}

} // verus!
