use vstd::prelude::*;

verus! {

/// Clockwise rotation of the displayed image.
#[derive(Clone, Copy, PartialEq, Eq, Structural, Debug)]
pub enum Rotation {
    Deg0,
    Deg90,
    Deg180,
    Deg270,
}

/// Order in which the panel expects the color channels of a pixel.
#[derive(Clone, Copy, PartialEq, Eq, Structural, Debug)]
pub enum ColorOrder {
    Rgb,
    Bgr,
}

/// Caller-supplied display options. They deterministically produce the
/// memory-access-control (orientation) register value and the inversion
/// command parameter; they never change which commands are sent, nor their
/// order.
#[derive(Clone, Copy, PartialEq, Eq, Structural, Debug)]
pub struct ModelOptions {
    pub rotation: Rotation,
    pub mirrored: bool,
    pub invert_colors: bool,
    pub color_order: ColorOrder,
}

impl ModelOptions {
    /// Options for the panel's default orientation: no rotation, no
    /// mirroring, normal colors, RGB channel order.
    pub fn default_portrait() -> (r: Self)
        ensures
            r == (ModelOptions {
                rotation: Rotation::Deg0,
                mirrored: false,
                invert_colors: false,
                color_order: ColorOrder::Rgb,
            }),
    {
        ModelOptions {
            rotation: Rotation::Deg0,
            mirrored: false,
            invert_colors: false,
            color_order: ColorOrder::Rgb,
        }
    }

    /// The memory-access-control register value these options select.
    ///
    /// Bit 7 flips the row scan direction, bit 6 the column scan direction,
    /// bit 5 exchanges rows and columns (these three together realize the
    /// four rotations), mirroring flips the column direction on top of the
    /// rotation, and bit 3 selects BGR channel order.
    pub open spec fn spec_madctl(&self) -> u8 {
        let rotated: u8 = match self.rotation {
            Rotation::Deg0 => 0x00,
            Rotation::Deg90 => 0x60,
            Rotation::Deg180 => 0xc0,
            Rotation::Deg270 => 0xa0,
        };
        let mirrored: u8 = if self.mirrored {
            rotated ^ 0x40
        } else {
            rotated
        };
        if self.color_order is Bgr {
            mirrored | 0x08
        } else {
            mirrored
        }
    }

    /// Computes the memory-access-control register value.
    pub fn madctl(&self) -> (r: u8)
        ensures
            r == self.spec_madctl(),
    {
        let rotated: u8 = match self.rotation {
            Rotation::Deg0 => 0x00,
            Rotation::Deg90 => 0x60,
            Rotation::Deg180 => 0xc0,
            Rotation::Deg270 => 0xa0,
        };
        let mirrored: u8 = if self.mirrored {
            rotated ^ 0x40
        } else {
            rotated
        };
        if matches!(self.color_order, ColorOrder::Bgr) {
            mirrored | 0x08
        } else {
            mirrored
        }
    }
}

} // verus!
