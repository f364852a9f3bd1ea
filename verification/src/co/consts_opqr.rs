use vstd::prelude::*;

verus! {

/// Output precision of a logical font.
#[derive(Clone, Copy, Debug, PartialEq, Eq, Structural)]
pub struct OUT(pub u8);

impl OUT {
    pub const DEFAULT_PRECIS: u8 = 0;
    pub const STRING_PRECIS: u8 = 1;
    pub const CHARACTER_PRECIS: u8 = 2;
    pub const STROKE_PRECIS: u8 = 3;
    pub const TT_PRECIS: u8 = 4;
    pub const DEVICE_PRECIS: u8 = 5;
    pub const RASTER_PRECIS: u8 = 6;
    pub const TT_ONLY_PRECIS: u8 = 7;
    pub const OUTLINE_PRECIS: u8 = 8;
    pub const SCREEN_OUTLINE_PRECIS: u8 = 9;
    pub const PS_ONLY_PRECIS: u8 = 10;
}

} // verus!
