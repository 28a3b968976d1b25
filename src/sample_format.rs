use vstd::prelude::*;

verus! {

/// Audio sample formats; the "p" forms keep each channel in a plane of its own.
#[derive(Debug, Clone, Copy, PartialEq, Eq, Structural)]
pub enum AVSampleFormat {
    Unspecified,
    U8,
    S16,
    S32,
    Flt,
    Dbl,
    U8p,
    S16p,
    S32p,
    Fltp,
    Dblp,
    S64,
    S64p,
}

/// The codec library's number for each sample format.
pub open spec fn sample_format_raw(f: AVSampleFormat) -> i32 {
    match f {
        AVSampleFormat::Unspecified => -1i32,
        AVSampleFormat::U8 => 0,
        AVSampleFormat::S16 => 1,
        AVSampleFormat::S32 => 2,
        AVSampleFormat::Flt => 3,
        AVSampleFormat::Dbl => 4,
        AVSampleFormat::U8p => 5,
        AVSampleFormat::S16p => 6,
        AVSampleFormat::S32p => 7,
        AVSampleFormat::Fltp => 8,
        AVSampleFormat::Dblp => 9,
        AVSampleFormat::S64 => 10,
        AVSampleFormat::S64p => 11,
    }
}

/// Bytes that one sample of one channel takes (none for `Unspecified`).
pub open spec fn spec_bytes_per_sample(f: AVSampleFormat) -> nat {
    match f {
        AVSampleFormat::Unspecified => 0,
        AVSampleFormat::U8 | AVSampleFormat::U8p => 1,
        AVSampleFormat::S16 | AVSampleFormat::S16p => 2,
        AVSampleFormat::S32 | AVSampleFormat::S32p | AVSampleFormat::Flt | AVSampleFormat::Fltp => 4,
        AVSampleFormat::Dbl | AVSampleFormat::Dblp | AVSampleFormat::S64 | AVSampleFormat::S64p => 8,
    }
}

impl AVSampleFormat {
    pub fn raw(self) -> (r: i32)
        ensures
            r == sample_format_raw(self),
    {
        match self {
            AVSampleFormat::Unspecified => -1i32,
            AVSampleFormat::U8 => 0,
            AVSampleFormat::S16 => 1,
            AVSampleFormat::S32 => 2,
            AVSampleFormat::Flt => 3,
            AVSampleFormat::Dbl => 4,
            AVSampleFormat::U8p => 5,
            AVSampleFormat::S16p => 6,
            AVSampleFormat::S32p => 7,
            AVSampleFormat::Fltp => 8,
            AVSampleFormat::Dblp => 9,
            AVSampleFormat::S64 => 10,
            AVSampleFormat::S64p => 11,
        }
    }

    /// The sample format with the library's number `raw`, if any.
    pub fn from_raw(raw: i32) -> (r: Option<AVSampleFormat>)
        ensures
            r matches Some(f) ==> sample_format_raw(f) == raw,
            r is None <==> (raw < -1 || raw > 11),
    {
        if raw == -1 {
            Some(AVSampleFormat::Unspecified)
        } else if raw == 0 {
            Some(AVSampleFormat::U8)
        } else if raw == 1 {
            Some(AVSampleFormat::S16)
        } else if raw == 2 {
            Some(AVSampleFormat::S32)
        } else if raw == 3 {
            Some(AVSampleFormat::Flt)
        } else if raw == 4 {
            Some(AVSampleFormat::Dbl)
        } else if raw == 5 {
            Some(AVSampleFormat::U8p)
        } else if raw == 6 {
            Some(AVSampleFormat::S16p)
        } else if raw == 7 {
            Some(AVSampleFormat::S32p)
        } else if raw == 8 {
            Some(AVSampleFormat::Fltp)
        } else if raw == 9 {
            Some(AVSampleFormat::Dblp)
        } else if raw == 10 {
            Some(AVSampleFormat::S64)
        } else if raw == 11 {
            Some(AVSampleFormat::S64p)
        } else {
            None
        }
    }

    /// Whether each channel has a plane of its own.
    pub fn is_planar(self) -> (r: bool)
        ensures
            r == (self is U8p || self is S16p || self is S32p || self is Fltp || self is Dblp
                || self is S64p),
    {
        match self {
            AVSampleFormat::U8p | AVSampleFormat::S16p | AVSampleFormat::S32p
            | AVSampleFormat::Fltp | AVSampleFormat::Dblp | AVSampleFormat::S64p => true,
            _ => false,
        }
    }

    /// Bytes that one sample of one channel takes.
    pub fn bytes_per_sample(self) -> (r: usize)
        ensures
            r == spec_bytes_per_sample(self),
    {
        match self {
            AVSampleFormat::Unspecified => 0,
            AVSampleFormat::U8 | AVSampleFormat::U8p => 1,
            AVSampleFormat::S16 | AVSampleFormat::S16p => 2,
            AVSampleFormat::S32 | AVSampleFormat::S32p | AVSampleFormat::Flt
            | AVSampleFormat::Fltp => 4,
            AVSampleFormat::Dbl | AVSampleFormat::Dblp | AVSampleFormat::S64
            | AVSampleFormat::S64p => 8,
        }
    }
}

} // verus!
