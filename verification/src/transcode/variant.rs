//! The kind of work a transcode job does for one FLAC file.
use crate::text::{decimal, owned, pad_left, pad_right, spec_decimal, spec_pad_left, spec_pad_right};
use crate::transcode::jobs::{spec_target_name, TargetFormat};
use vstd::string::StringExecFns;
use vstd::prelude::*;

verus! {

/// Decode a FLAC file, resampling it when a rate is given.
#[derive(Clone, Debug)]
pub struct Decode {
    /// Path of the FLAC file.
    pub input: String,
    /// Sample rate to resample to, if any.
    pub resample_rate: Option<u32>,
}

/// Encode decoded audio to a target format.
#[derive(Clone, Debug)]
pub struct Encode {
    /// Format to encode to.
    pub format: TargetFormat,
    /// Path of the file to write.
    pub output: String,
}

/// Resample a FLAC file to another FLAC file.
#[derive(Clone, Debug)]
pub struct Resample {
    /// Path of the FLAC file.
    pub input: String,
    /// Path of the FLAC file to write.
    pub output: String,
    /// Sample rate to resample to.
    pub resample_rate: u32,
}

/// Include a FLAC file unchanged.
#[derive(Clone, Debug)]
pub struct Include {
    /// Path of the FLAC file.
    pub input: String,
    /// Path to place it at.
    pub output: String,
    /// Hard link rather than copy.
    pub hard_link: bool,
}

/// The work of a transcode job.
#[derive(Clone, Debug)]
pub enum Variant {
    /// Decode then encode to MP3.
    Transcode(Decode, Encode),
    /// Resample to FLAC.
    Resample(Resample),
    /// Include the FLAC file unchanged.
    Include(Include),
}

/// The work for transcoding `input` to `format` at `output`: a FLAC target
/// is resampled when a rate is given, else included unchanged; an MP3
/// target is decoded (resampled when a rate is given) and encoded.
pub open spec fn spec_variant_for(
    format: TargetFormat,
    input: String,
    output: String,
    resample_rate: Option<u32>,
    hard_link: bool,
) -> Variant {
    match format {
        TargetFormat::Flac => match resample_rate {
            Some(rate) => Variant::Resample(Resample { input, output, resample_rate: rate }),
            None => Variant::Include(Include { input, output, hard_link }),
        },
        _ => Variant::Transcode(Decode { input, resample_rate }, Encode { format, output }),
    }
}

impl Variant {
    /// The work for transcoding `input` to `format` at `output`.
    ///
    /// - `resample_rate` is the rate to resample to, when the source's sample
    ///   rate requires resampling
    /// - FLAC targets are resampled when required, else included unchanged
    /// - MP3 targets are decoded (resampled when required) and encoded
    pub fn for_target(format: TargetFormat, input: String, output: String, resample_rate: Option<u32>, hard_link: bool) -> (res: Variant)
        ensures
            res == spec_variant_for(format, input, output, resample_rate, hard_link),
    {
        match format {
            TargetFormat::Flac => match resample_rate {
                Some(rate) => Variant::Resample(Resample { input, output, resample_rate: rate }),
                None => Variant::Include(Include { input, output, hard_link }),
            },
            _ => Variant::Transcode(Decode { input, resample_rate }, Encode { format, output }),
        }
    }
}


/// Id of the transcode job of the `index`th FLAC file to `format`:
/// "Transcode " then the format's name padded to 4 characters, then the
/// index right-aligned in 3 characters.
pub open spec fn spec_transcode_id(format: TargetFormat, index: nat) -> Seq<char> {
    "Transcode "@ + spec_pad_right(spec_target_name(format), 4) + spec_pad_left(spec_decimal(index), 3)
}

/// Id of the transcode job of the `index`th FLAC file to `format`.
pub fn transcode_id(format: TargetFormat, index: usize) -> (res: String)
    ensures
        res@ == spec_transcode_id(format, index as nat),
{
    let mut id = owned("Transcode ");
    let name = pad_right(format.name(), 4);
    id.append(name.as_str());
    let digits = decimal(index as u64);
    let padded = pad_left(digits.as_str(), 3);
    id.append(padded.as_str());
    id
}

/// A job transcoding one FLAC file, with the tags written to MP3 output.
#[derive(Clone, Debug)]
pub struct TranscodeJob<T> {
    /// Job id.
    pub id: String,
    /// The work to do.
    pub variant: Variant,
    /// Tags to write, for MP3 targets.
    pub tags: Option<T>,
}

impl<T> TranscodeJob<T> {
    /// The job for the `index`th FLAC file: its id, the work for `format`,
    /// and the file's tags kept only for an MP3 target.
    pub fn new(
        index: usize,
        format: TargetFormat,
        input: String,
        output: String,
        resample_rate: Option<u32>,
        hard_link: bool,
        tags: Option<T>,
    ) -> (res: Self)
        ensures
            res.id@ == spec_transcode_id(format, index as nat),
            res.variant == spec_variant_for(format, input, output, resample_rate, hard_link),
            res.tags == (if format is Flac {
                None
            } else {
                tags
            }),
    {
        let id = transcode_id(format, index);
        let is_mp3 = format.is_mp3();
        let variant = Variant::for_target(format, input, output, resample_rate, hard_link);
        TranscodeJob { id, variant, tags: if is_mp3 { tags } else { None } }
    }
}
} // verus!
