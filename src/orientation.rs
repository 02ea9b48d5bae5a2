use vstd::prelude::*;

verus! {

/// An image orientation. Its code (see `code`) packs three flags: bit 0 transposes the
/// axes, bit 1 and bit 2 with bit 0 decide the horizontal and vertical flips, and bit 2
/// marks a mirrored image.
#[derive(Debug, Clone, Copy, PartialEq, Eq, Structural)]
pub enum Orientation {
    Normal,
    Rotate90CW,
    Rotate180,
    Rotate90CCW,
    Mirror,
    Mirror90CW,
    Mirror180,
    Mirror90CCW,
    Unknown,
}

impl Orientation {
    /// The orientation's code: its position in the declaration, from 0 to 8.
    pub open spec fn spec_code(self) -> u32 {
        match self {
            Orientation::Normal => 0,
            Orientation::Rotate90CW => 1,
            Orientation::Rotate180 => 2,
            Orientation::Rotate90CCW => 3,
            Orientation::Mirror => 4,
            Orientation::Mirror90CW => 5,
            Orientation::Mirror180 => 6,
            Orientation::Mirror90CCW => 7,
            Orientation::Unknown => 8,
        }
    }

    /// The value of the TIFF orientation tag that stands for this orientation.
    pub open spec fn spec_tiff(self) -> u32 {
        match self {
            Orientation::Normal => 1,
            Orientation::Mirror => 2,
            Orientation::Rotate180 => 3,
            Orientation::Mirror180 => 4,
            Orientation::Mirror90CCW => 5,
            Orientation::Rotate90CW => 6,
            Orientation::Mirror90CW => 7,
            Orientation::Rotate90CCW => 8,
            Orientation::Unknown => 9,
        }
    }

    pub open spec fn spec_flip_d(self) -> bool {
        self.spec_code() & 1 != 0
    }

    pub open spec fn spec_flip_h(self) -> bool {
        if self.spec_code() & 4 != 0 {
            self.spec_code() & 2 == 0
        } else {
            self.spec_code() & 2 != 0
        }
    }

    pub fn code(self) -> (r: u32)
        ensures
            r == self.spec_code(),
    {
        match self {
            Orientation::Normal => 0,
            Orientation::Rotate90CW => 1,
            Orientation::Rotate180 => 2,
            Orientation::Rotate90CCW => 3,
            Orientation::Mirror => 4,
            Orientation::Mirror90CW => 5,
            Orientation::Mirror180 => 6,
            Orientation::Mirror90CCW => 7,
            Orientation::Unknown => 8,
        }
    }

    /// Reads a TIFF orientation tag; a value outside 1 to 9 reads as `Normal`.
    pub fn from_tiff(tiff: u32) -> (r: Self)
        ensures
            1 <= tiff <= 9 ==> r.spec_tiff() == tiff,
            !(1 <= tiff <= 9) ==> r == Orientation::Normal,
    {
        match tiff {
            1 => Orientation::Normal,
            2 => Orientation::Mirror,
            3 => Orientation::Rotate180,
            4 => Orientation::Mirror180,
            5 => Orientation::Mirror90CCW,
            6 => Orientation::Rotate90CW,
            7 => Orientation::Mirror90CW,
            8 => Orientation::Rotate90CCW,
            9 => Orientation::Unknown,
            _ => Orientation::Normal,
        }
    }

    /// The TIFF orientation tag for this orientation.
    pub fn to_tiff(&self) -> (r: u32)
        ensures
            r == self.spec_tiff(),
            1 <= r <= 9,
    {
        match self {
            Orientation::Normal => 1,
            Orientation::Mirror => 2,
            Orientation::Rotate180 => 3,
            Orientation::Mirror180 => 4,
            Orientation::Mirror90CCW => 5,
            Orientation::Rotate90CW => 6,
            Orientation::Mirror90CW => 7,
            Orientation::Rotate90CCW => 8,
            Orientation::Unknown => 9,
        }
    }

    /// Whether the orientation swaps the two axes.
    pub fn flip_d(self) -> (r: bool)
        ensures
            r == self.spec_flip_d(),
    {
        self.code() & 1 != 0
    }

    /// Whether the orientation flips the image left to right.
    pub fn flip_h(self) -> (r: bool)
        ensures
            r == self.spec_flip_h(),
    {
        let c = self.code();
        if c & 4 != 0 {
            c & 2 == 0
        } else {
            c & 2 != 0
        }
    }

    /// Whether the orientation flips the image top to bottom.
    pub fn flip_v(self) -> (r: bool)
        ensures
            self.spec_code() & 4 != 0 ==> r == (self.spec_flip_d() == self.spec_flip_h()),
            self.spec_code() & 4 == 0 ==> r == (self.spec_flip_d() != self.spec_flip_h()),
    {
        if self.code() & 4 != 0 {
            self.flip_d() == self.flip_h()
        } else {
            self.flip_d() != self.flip_h()
        }
    }

    /// Whether the orientation mirrors the image.
    pub fn is_mirrored(self) -> (r: bool)
        ensures
            r == (self.spec_code() & 4 != 0),
    {
        self.code() & 4 != 0
    }
}

/// Writing an orientation as a TIFF tag and reading the tag back gives the orientation.
pub proof fn lemma_tiff_round_trip(o: Orientation)
    ensures
        forall|r: Orientation| r.spec_tiff() == o.spec_tiff() ==> r == o,
{
}

} // verus!
