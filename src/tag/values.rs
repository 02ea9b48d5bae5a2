use vstd::prelude::*;

verus! {

/// The light source of an EXIF `LightSource` or DNG `CalibrationIlluminant` tag.
#[derive(Debug, Clone, Copy, PartialEq, Eq, Hash, Structural)]
pub enum LightSource {
    Unknown,
    Daylight,
    Fluorescent,
    Tungsten,
    Flash,
    FineWeather,
    CloudyWeather,
    Shade,
    /// D 5700 - 7100K
    DaylightFluorescent,
    /// N 4600 - 5500K
    DayWhiteFluorescent,
    /// W 3800 - 4500K
    CoolWhiteFluorescent,
    /// WW 3250 - 3800K
    WhiteFluorescent,
    /// L 2600 - 3250K
    WarmWhiteFluorescent,
    StandardLightA,
    StandardLightB,
    StandardLightC,
    D55,
    D65,
    D75,
    D50,
    ISOStudioTungsten,
    Other,
}

impl LightSource {
    /// The tag value that stands for this light source.
    pub open spec fn spec_code(self) -> u8 {
        match self {
            LightSource::Unknown => 0,
            LightSource::Daylight => 1,
            LightSource::Fluorescent => 2,
            LightSource::Tungsten => 3,
            LightSource::Flash => 4,
            LightSource::FineWeather => 9,
            LightSource::CloudyWeather => 10,
            LightSource::Shade => 11,
            LightSource::DaylightFluorescent => 12,
            LightSource::DayWhiteFluorescent => 13,
            LightSource::CoolWhiteFluorescent => 14,
            LightSource::WhiteFluorescent => 15,
            LightSource::WarmWhiteFluorescent => 16,
            LightSource::StandardLightA => 17,
            LightSource::StandardLightB => 18,
            LightSource::StandardLightC => 19,
            LightSource::D55 => 20,
            LightSource::D65 => 21,
            LightSource::D75 => 22,
            LightSource::D50 => 23,
            LightSource::ISOStudioTungsten => 24,
            LightSource::Other => 255,
        }
    }

    pub fn code(self) -> (r: u8)
        ensures
            r == self.spec_code(),
    {
        match self {
            LightSource::Unknown => 0,
            LightSource::Daylight => 1,
            LightSource::Fluorescent => 2,
            LightSource::Tungsten => 3,
            LightSource::Flash => 4,
            LightSource::FineWeather => 9,
            LightSource::CloudyWeather => 10,
            LightSource::Shade => 11,
            LightSource::DaylightFluorescent => 12,
            LightSource::DayWhiteFluorescent => 13,
            LightSource::CoolWhiteFluorescent => 14,
            LightSource::WhiteFluorescent => 15,
            LightSource::WarmWhiteFluorescent => 16,
            LightSource::StandardLightA => 17,
            LightSource::StandardLightB => 18,
            LightSource::StandardLightC => 19,
            LightSource::D55 => 20,
            LightSource::D65 => 21,
            LightSource::D75 => 22,
            LightSource::D50 => 23,
            LightSource::ISOStudioTungsten => 24,
            LightSource::Other => 255,
        }
    }

    /// The light source of a tag value, if the value names one.
    pub fn from_code(code: u8) -> (r: Option<Self>)
        ensures
            r matches Some(l) ==> l.spec_code() == code,
            r is None ==> forall|l: LightSource| l.spec_code() != code,
    {
        match code {
            0 => Some(LightSource::Unknown),
            1 => Some(LightSource::Daylight),
            2 => Some(LightSource::Fluorescent),
            3 => Some(LightSource::Tungsten),
            4 => Some(LightSource::Flash),
            9 => Some(LightSource::FineWeather),
            10 => Some(LightSource::CloudyWeather),
            11 => Some(LightSource::Shade),
            12 => Some(LightSource::DaylightFluorescent),
            13 => Some(LightSource::DayWhiteFluorescent),
            14 => Some(LightSource::CoolWhiteFluorescent),
            15 => Some(LightSource::WhiteFluorescent),
            16 => Some(LightSource::WarmWhiteFluorescent),
            17 => Some(LightSource::StandardLightA),
            18 => Some(LightSource::StandardLightB),
            19 => Some(LightSource::StandardLightC),
            20 => Some(LightSource::D55),
            21 => Some(LightSource::D65),
            22 => Some(LightSource::D75),
            23 => Some(LightSource::D50),
            24 => Some(LightSource::ISOStudioTungsten),
            255 => Some(LightSource::Other),
            _ => None,
        }
    }
}

/// The magic number in the header of a TIFF-like file.
#[derive(Debug, Clone, Copy, PartialEq, Eq, Hash, Structural)]
pub enum Magic {
    /// TIFF, and DNG
    Tiff,
    /// BigTIFF, and BigDNG
    BigTiff,
    /// 'CR'
    ExtendedProfile,
    /// Other raw formats that a DNG reader may parse.
    Panasonic,
    OlympusA,
    OlympusB,
}

impl Magic {
    /// The header value that stands for this magic number.
    pub open spec fn spec_code(self) -> u32 {
        match self {
            Magic::Tiff => 42,
            Magic::BigTiff => 43,
            Magic::ExtendedProfile => 0x4352,
            Magic::Panasonic => 85,
            Magic::OlympusA => 0x4F52,
            Magic::OlympusB => 0x5352,
        }
    }

    pub fn code(self) -> (r: u32)
        ensures
            r == self.spec_code(),
    {
        match self {
            Magic::Tiff => 42,
            Magic::BigTiff => 43,
            Magic::ExtendedProfile => 0x4352,
            Magic::Panasonic => 85,
            Magic::OlympusA => 0x4F52,
            Magic::OlympusB => 0x5352,
        }
    }

    /// The magic number of a header value, if the value is one.
    pub fn from_code(code: u32) -> (r: Option<Self>)
        ensures
            r matches Some(m) ==> m.spec_code() == code,
            r is None ==> forall|m: Magic| m.spec_code() != code,
    {
        match code {
            42 => Some(Magic::Tiff),
            43 => Some(Magic::BigTiff),
            0x4352 => Some(Magic::ExtendedProfile),
            85 => Some(Magic::Panasonic),
            0x4F52 => Some(Magic::OlympusA),
            0x5352 => Some(Magic::OlympusB),
            _ => None,
        }
    }
}

} // verus!
