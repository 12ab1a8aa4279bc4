//! Coded and raw video formats of the decode accelerator, and the checks
//! that turn the numbers it reports into them.

use vstd::prelude::*;
use vstd::string::*;

verus! {

/// Raw number of the lowest VP8 profile.
pub const VP8PROFILE_MIN: i32 = 11;

/// Raw number of VP9 profile 0.
pub const VP9PROFILE_PROFILE0: i32 = 12;

/// Raw number of the H.264 main profile.
pub const H264PROFILE_MAIN: i32 = 1;

/// Raw number of the YV12 pixel format.
pub const RAW_YV12: u32 = 0;

/// Raw number of the NV12 pixel format.
pub const RAW_NV12: u32 = 1;

/// What is wrong with the formats that an accelerator reported.
#[derive(Debug)]
pub enum Error {
    /// The capabilities are unusable; the string says why.
    InvalidCapabilities(String),
    /// No pixel format has this raw number.
    UnknownPixelFormat(u32),
    /// No profile has this raw number.
    UnknownProfile(i32),
}

/// Represents a video codec.
#[derive(Clone, Copy, Debug, PartialEq, Eq, Structural)]
pub enum Profile {
    VP8,
    VP9Profile0,
    H264,
}

impl Profile {
    /// The raw number of the profile.
    pub open spec fn raw(self) -> i32 {
        match self {
            Profile::VP8 => VP8PROFILE_MIN,
            Profile::VP9Profile0 => VP9PROFILE_PROFILE0,
            Profile::H264 => H264PROFILE_MAIN,
        }
    }

    /// The profile with a raw number, if there is one.
    pub open spec fn of_raw(raw: i32) -> Option<Profile> {
        if raw == VP8PROFILE_MIN {
            Some(Profile::VP8)
        } else if raw == VP9PROFILE_PROFILE0 {
            Some(Profile::VP9Profile0)
        } else if raw == H264PROFILE_MAIN {
            Some(Profile::H264)
        } else {
            None
        }
    }

    /// The profile with a raw number, if there is one.
    pub fn n(raw: i32) -> (profile: Option<Profile>)
        ensures
            profile == Profile::of_raw(raw),
    {
        if raw == VP8PROFILE_MIN {
            Some(Profile::VP8)
        } else if raw == VP9PROFILE_PROFILE0 {
            Some(Profile::VP9Profile0)
        } else if raw == H264PROFILE_MAIN {
            Some(Profile::H264)
        } else {
            None
        }
    }

    pub fn to_raw_profile(self) -> (raw: i32)
        ensures
            raw == self.raw(),
    {
        match self {
            Profile::VP8 => VP8PROFILE_MIN,
            Profile::VP9Profile0 => VP9PROFILE_PROFILE0,
            Profile::H264 => H264PROFILE_MAIN,
        }
    }
}

/// An input format as the accelerator reports it.
#[derive(Clone, Copy, Debug, PartialEq, Eq, Structural)]
pub struct RawInputFormat {
    pub profile: i32,
    pub min_width: u32,
    pub min_height: u32,
    pub max_width: u32,
    pub max_height: u32,
}

/// Represents an input video format for VDA.
#[derive(Clone, Copy, Debug, PartialEq, Eq, Structural)]
pub struct InputFormat {
    pub profile: Profile,
    pub min_width: u32,
    pub min_height: u32,
    pub max_width: u32,
    pub max_height: u32,
}

impl InputFormat {
    /// The input format that a raw one stands for, if its profile is known.
    pub open spec fn of_raw(f: RawInputFormat) -> Option<InputFormat> {
        match Profile::of_raw(f.profile) {
            Some(profile) => Some(
                InputFormat {
                    profile,
                    min_width: f.min_width,
                    min_height: f.min_height,
                    max_width: f.max_width,
                    max_height: f.max_height,
                },
            ),
            None => None,
        }
    }

    pub fn new(f: &RawInputFormat) -> (format: Result<InputFormat, Error>)
        ensures
            format == match InputFormat::of_raw(*f) {
                Some(found) => Ok::<InputFormat, Error>(found),
                None => Err(Error::UnknownProfile(f.profile)),
            },
    {
        match Profile::n(f.profile) {
            Some(profile) => Ok(
                InputFormat {
                    profile,
                    min_width: f.min_width,
                    min_height: f.min_height,
                    max_width: f.max_width,
                    max_height: f.max_height,
                },
            ),
            None => Err(Error::UnknownProfile(f.profile)),
        }
    }
}

/// Represents a raw pixel format.
#[derive(Clone, Copy, Debug, PartialEq, Eq, Structural)]
pub enum PixelFormat {
    YV12,
    NV12,
}

impl PixelFormat {
    /// The raw number of the pixel format.
    pub open spec fn raw(self) -> u32 {
        match self {
            PixelFormat::YV12 => RAW_YV12,
            PixelFormat::NV12 => RAW_NV12,
        }
    }

    /// The pixel format with a raw number, if there is one.
    pub open spec fn of_raw(raw: u32) -> Option<PixelFormat> {
        if raw == RAW_YV12 {
            Some(PixelFormat::YV12)
        } else if raw == RAW_NV12 {
            Some(PixelFormat::NV12)
        } else {
            None
        }
    }

    pub fn new(f: u32) -> (format: Result<PixelFormat, Error>)
        ensures
            format == match PixelFormat::of_raw(f) {
                Some(found) => Ok::<PixelFormat, Error>(found),
                None => Err(Error::UnknownPixelFormat(f)),
            },
    {
        if f == RAW_YV12 {
            Ok(PixelFormat::YV12)
        } else if f == RAW_NV12 {
            Ok(PixelFormat::NV12)
        } else {
            Err(Error::UnknownPixelFormat(f))
        }
    }

    pub fn to_raw_pixel_format(&self) -> (raw: u32)
        ensures
            raw == self.raw(),
    {
        match *self {
            PixelFormat::YV12 => RAW_YV12,
            PixelFormat::NV12 => RAW_NV12,
        }
    }
}

/// Represents a video frame plane.
#[derive(Clone, Copy, Debug, PartialEq, Eq, Structural)]
pub struct FramePlane {
    pub offset: i32,
    pub stride: i32,
}

/// Represents a backend implementation of the accelerator.
#[derive(Clone, Copy, Debug, PartialEq, Eq, Structural)]
pub enum VdaImplType {
    Fake,
    Gavda,
}

/// Represents decoding capabilities of an accelerator instance.
#[derive(Debug)]
pub struct Capabilities {
    pub input_formats: Vec<InputFormat>,
    pub output_formats: Vec<PixelFormat>,
}

/// The index of the first raw input format whose profile is unknown, or
/// the length if all are known.
pub open spec fn first_unknown_profile(raw: Seq<RawInputFormat>) -> int
    decreases raw.len(),
{
    if raw.len() == 0 {
        0
    } else if InputFormat::of_raw(raw[0]) is None {
        0
    } else {
        1 + first_unknown_profile(raw.skip(1))
    }
}

/// The index of the first raw number that is no pixel format, or the
/// length if all are.
pub open spec fn first_unknown_pixel_format(raw: Seq<u32>) -> int
    decreases raw.len(),
{
    if raw.len() == 0 {
        0
    } else if PixelFormat::of_raw(raw[0]) is None {
        0
    } else {
        1 + first_unknown_pixel_format(raw.skip(1))
    }
}

proof fn first_unknown_profile_is(raw: Seq<RawInputFormat>, k: int)
    requires
        0 <= k <= raw.len(),
        forall|j: int| 0 <= j < k ==> InputFormat::of_raw(#[trigger] raw[j]) is Some,
        k == raw.len() || InputFormat::of_raw(raw[k]) is None,
    ensures
        first_unknown_profile(raw) == k,
    decreases k,
{
    if k > 0 {
        let rest = raw.skip(1);
        assert forall|j: int| 0 <= j < k - 1 implies InputFormat::of_raw(#[trigger] rest[j])
            is Some by {
            assert(rest[j] == raw[j + 1]);
        }
        assert(InputFormat::of_raw(raw[0]) is Some);
        first_unknown_profile_is(rest, k - 1);
    }
}

proof fn first_unknown_pixel_format_is(raw: Seq<u32>, k: int)
    requires
        0 <= k <= raw.len(),
        forall|j: int| 0 <= j < k ==> PixelFormat::of_raw(#[trigger] raw[j]) is Some,
        k == raw.len() || PixelFormat::of_raw(raw[k]) is None,
    ensures
        first_unknown_pixel_format(raw) == k,
    decreases k,
{
    if k > 0 {
        let rest = raw.skip(1);
        assert forall|j: int| 0 <= j < k - 1 implies PixelFormat::of_raw(#[trigger] rest[j])
            is Some by {
            assert(rest[j] == raw[j + 1]);
        }
        assert(PixelFormat::of_raw(raw[0]) is Some);
        first_unknown_pixel_format_is(rest, k - 1);
    }
}

/// Checks the input formats that an accelerator reported. An empty list is
/// invalid; otherwise the first unknown profile is the error, and without
/// one every raw format is turned into its input format, in order.
pub fn validate_input_formats(raw: &Vec<RawInputFormat>) -> (formats: Result<Vec<InputFormat>, Error>)
    ensures
        match formats {
            Ok(found) => raw@.len() > 0 && first_unknown_profile(raw@) == raw@.len() && found@.len()
                == raw@.len() && forall|i: int|
                0 <= i < raw@.len() ==> InputFormat::of_raw(raw@[i]) == Some(#[trigger] found@[i]),
            Err(Error::InvalidCapabilities(reason)) => raw@.len() == 0 && reason@
                == "num must not be 0"@,
            Err(Error::UnknownProfile(profile)) => first_unknown_profile(raw@) < raw@.len()
                && profile == raw@[first_unknown_profile(raw@)].profile,
            Err(_) => false,
        },
{
    if raw.len() == 0 {
        return Err(Error::InvalidCapabilities(String::from_str("num must not be 0")));
    }
    let mut found: Vec<InputFormat> = Vec::new();
    let mut i: usize = 0;
    while i < raw.len()
        invariant
            i <= raw.len(),
            found@.len() == i,
            forall|j: int| 0 <= j < i ==> InputFormat::of_raw(#[trigger] raw@[j]) == Some(found@[j]),
        decreases raw.len() - i,
    {
        match InputFormat::new(&raw[i]) {
            Ok(format) => {
                found.push(format);
            },
            Err(error) => {
                proof {
                    first_unknown_profile_is(raw@, i as int);
                }
                return Err(error);
            },
        }
        i += 1;
    }
    proof {
        first_unknown_profile_is(raw@, raw@.len() as int);
    }
    Ok(found)
}

/// Checks the output formats that an accelerator reported, in the same
/// way.
pub fn validate_output_formats(raw: &Vec<u32>) -> (formats: Result<Vec<PixelFormat>, Error>)
    ensures
        match formats {
            Ok(found) => raw@.len() > 0 && first_unknown_pixel_format(raw@) == raw@.len()
                && found@.len() == raw@.len() && forall|i: int|
                0 <= i < raw@.len() ==> PixelFormat::of_raw(raw@[i]) == Some(#[trigger] found@[i]),
            Err(Error::InvalidCapabilities(reason)) => raw@.len() == 0 && reason@
                == "num must not be 0"@,
            Err(Error::UnknownPixelFormat(format)) => first_unknown_pixel_format(raw@) < raw@.len()
                && format == raw@[first_unknown_pixel_format(raw@)],
            Err(_) => false,
        },
{
    if raw.len() == 0 {
        return Err(Error::InvalidCapabilities(String::from_str("num must not be 0")));
    }
    let mut found: Vec<PixelFormat> = Vec::new();
    let mut i: usize = 0;
    while i < raw.len()
        invariant
            i <= raw.len(),
            found@.len() == i,
            forall|j: int| 0 <= j < i ==> PixelFormat::of_raw(#[trigger] raw@[j]) == Some(found@[j]),
        decreases raw.len() - i,
    {
        match PixelFormat::new(raw[i]) {
            Ok(format) => {
                found.push(format);
            },
            Err(error) => {
                proof {
                    first_unknown_pixel_format_is(raw@, i as int);
                }
                return Err(error);
            },
        }
        i += 1;
    }
    proof {
        first_unknown_pixel_format_is(raw@, raw@.len() as int);
    }
    Ok(found)
}

/// A raw number names the profile that has it, and only that one.
pub proof fn profile_raw_roundtrip(profile: Profile, raw: i32)
    ensures
        Profile::of_raw(profile.raw()) == Some(profile),
        Profile::of_raw(raw) == Some(profile) ==> profile.raw() == raw,
{
}

/// A raw number names the pixel format that has it, and only that one.
pub proof fn pixel_format_raw_roundtrip(format: PixelFormat, raw: u32)
    ensures
        PixelFormat::of_raw(format.raw()) == Some(format),
        PixelFormat::of_raw(raw) == Some(format) ==> format.raw() == raw,
{
}

} // verus!
