//! Target formats and the external commands and plans of transcode,
//! additional file and spectrogram jobs.
use crate::text::{
    decimal, owned, pad_left, pad_right, spec_decimal, spec_pad_left, spec_pad_right,
};
use crate::torrent::indexer::str_eq;
use crate::torrent::torrent_verifier::{join_path, spec_join_path};
use vstd::prelude::*;
use vstd::string::StringExecFns;

verus! {

/// Program name of the image converter.
pub const CONVERT: &'static str = "convert";

/// Program name of the audio processor used for spectrograms.
pub const SOX: &'static str = "sox";

/// A format to transcode a FLAC source to.
#[allow(non_camel_case_types)]
#[derive(Clone, Copy, Debug, Eq, Hash, PartialEq, Structural)]
pub enum TargetFormat {
    /// FLAC.
    Flac,
    /// MP3 at a constant 320 kbps.
    _320,
    /// MP3 at variable bit rate V0.
    V0,
}

/// The `Debug` name of a target format.
pub open spec fn spec_target_debug(t: TargetFormat) -> Seq<char> {
    match t {
        TargetFormat::Flac => "Flac"@,
        TargetFormat::_320 => "_320"@,
        TargetFormat::V0 => "V0"@,
    }
}

/// The name a target format is shown by.
pub open spec fn spec_target_name(t: TargetFormat) -> Seq<char> {
    match t {
        TargetFormat::Flac => "FLAC"@,
        TargetFormat::_320 => "320"@,
        TargetFormat::V0 => "V0"@,
    }
}

impl TargetFormat {
    /// The `Debug` name of the format.
    pub fn debug_name(&self) -> (res: &'static str)
        ensures
            res@ == spec_target_debug(*self),
    {
        match self {
            TargetFormat::Flac => "Flac",
            TargetFormat::_320 => "_320",
            TargetFormat::V0 => "V0",
        }
    }

    /// The name the format is shown by: "FLAC", "320" or "V0".
    pub fn name(&self) -> (res: &'static str)
        ensures
            res@ == spec_target_name(*self),
    {
        match self {
            TargetFormat::Flac => "FLAC",
            TargetFormat::_320 => "320",
            TargetFormat::V0 => "V0",
        }
    }

    /// Whether transcoding to this format encodes MP3, whose files get ID3v2 tags.
    pub fn is_mp3(&self) -> (res: bool)
        ensures
            res == (*self is _320 || *self is V0),
    {
        match self {
            TargetFormat::Flac => false,
            _ => true,
        }
    }
}

/// A program and its arguments.
#[derive(Clone, Debug)]
pub struct CommandInfo {
    /// Program to run.
    pub program: String,
    /// Arguments, in order.
    pub args: Vec<String>,
}

/// Character sequences of the arguments of a command.
pub open spec fn args_view(info: CommandInfo) -> Seq<Seq<char>> {
    Seq::new(info.args@.len(), |i: int| info.args@[i]@)
}

/// Information needed to resize an image.
#[derive(Clone, Debug)]
pub struct Resize {
    /// Path to the input file.
    pub input: String,
    /// Path to the output file.
    pub output: String,
    /// Maximum size in pixels.
    pub max_pixel_size: u32,
    /// Quality percentage to apply for jpg compression.
    pub quality: u8,
}

/// The geometry argument of a resize: "{n}x{n}>", shrinking only.
pub open spec fn spec_geometry(n: nat) -> Seq<char> {
    spec_decimal(n) + "x"@ + spec_decimal(n) + ">"@
}

/// The arguments of the command resizing an image.
pub open spec fn spec_resize_args(r: Resize) -> Seq<Seq<char>> {
    seq![
        r.input@,
        "-resize"@,
        spec_geometry(r.max_pixel_size as nat),
        "-quality"@,
        spec_decimal(r.quality as nat) + "%"@,
        r.output@,
    ]
}

impl Resize {
    /// The convert command that resizes the image.
    pub fn to_info(self) -> (res: CommandInfo)
        ensures
            res.program@ == CONVERT@,
            args_view(res) == spec_resize_args(self),
    {
        let size = decimal(self.max_pixel_size as u64);
        let mut geometry = size.clone();
        geometry.append("x");
        geometry.append(size.as_str());
        geometry.append(">");
        let mut quality = decimal(self.quality as u64);
        quality.append("%");
        let mut args: Vec<String> = Vec::new();
        args.push(self.input);
        args.push(owned("-resize"));
        args.push(geometry);
        args.push(owned("-quality"));
        args.push(quality);
        args.push(self.output);
        let res = CommandInfo { program: owned(CONVERT), args };
        assert(args_view(res) =~= spec_resize_args(self));
        res
    }
}

/// Image file extensions.
pub open spec fn is_image_extension(ext: Seq<char>) -> bool {
    ext == "jpg"@ || ext == "jpeg"@ || ext == "png"@
}

/// Extension given to a resized image.
#[derive(Clone, Copy, Debug, Eq, PartialEq, Structural)]
pub enum ImageExtension {
    /// ".jpg".
    Jpg,
    /// ".png.jpg", used when a JPG of the same name already exists.
    PngJpg,
}

impl ImageExtension {
    /// The extension text, without the leading dot.
    pub fn as_str(&self) -> (res: &'static str)
        ensures
            res@ == (match self {
                ImageExtension::Jpg => "jpg"@,
                ImageExtension::PngJpg => "png.jpg"@,
            }),
    {
        match self {
            ImageExtension::Jpg => "jpg",
            ImageExtension::PngJpg => "png.jpg",
        }
    }
}

/// What to do with an additional (non audio) file of a source.
#[derive(Clone, Copy, Debug, Eq, PartialEq, Structural)]
pub enum AdditionalPlan {
    /// Include the file unchanged, hard linked or copied; when it is larger
    /// than the limit, warn with its size in KB.
    Include {
        /// Hard link rather than copy.
        hard_link: bool,
        /// Size in KB to warn about, for a file over the limit.
        large_warning: Option<u64>,
    },
    /// Resize and compress the image; when set, change the output file's
    /// extension to the given one.
    Resize {
        /// New extension of the output file, if any.
        output_extension: Option<ImageExtension>,
    },
}

/// Options that decide how additional files are handled.
#[derive(Clone, Copy, Debug)]
pub struct AdditionalOptions {
    /// Files larger than this many bytes are compressed, if images.
    pub max_file_size: u64,
    /// Never compress images.
    pub no_image_compression: bool,
    /// Keep PNG images as PNG.
    pub no_png_to_jpg: bool,
    /// Hard link included files rather than copy them.
    pub hard_link: bool,
}

/// The plan for an additional file with the lower-cased extension `ext` and
/// `size` bytes: images over the size limit are resized unless image
/// compression is off, PNGs then become JPGs unless that is off (as
/// ".png.jpg" when a JPG of the same name exists); every other file is
/// included unchanged, with a warning when over the limit.
pub open spec fn spec_additional_plan(ext: Seq<char>, size: u64, o: AdditionalOptions, jpg_exists: bool) -> AdditionalPlan {
    let is_large = size > o.max_file_size;
    if !is_image_extension(ext) || o.no_image_compression || !is_large {
        AdditionalPlan::Include {
            hard_link: o.hard_link,
            large_warning: if is_large {
                Some((size / 1000) as u64)
            } else {
                None
            },
        }
    } else if !o.no_png_to_jpg && ext == "png"@ {
        AdditionalPlan::Resize {
            output_extension: Some(
                if jpg_exists {
                    ImageExtension::PngJpg
                } else {
                    ImageExtension::Jpg
                },
            ),
        }
    } else {
        AdditionalPlan::Resize { output_extension: None }
    }
}

/// Decide how to handle an additional file.
///
/// - `extension` is the file's lower-cased extension
/// - `jpg_exists` tells whether a JPG of the same name exists beside it
pub fn plan_additional(extension: &str, size: u64, options: &AdditionalOptions, jpg_exists: bool) -> (res: AdditionalPlan)
    ensures
        res == spec_additional_plan(extension@, size, *options, jpg_exists),
{
    let is_image = str_eq(extension, "jpg") || str_eq(extension, "jpeg") || str_eq(extension, "png");
    let is_large = size > options.max_file_size;
    if !is_image || options.no_image_compression || !is_large {
        return AdditionalPlan::Include {
            hard_link: options.hard_link,
            large_warning: if is_large {
                Some(size / 1000)
            } else {
                None
            },
        };
    }
    if !options.no_png_to_jpg && str_eq(extension, "png") {
        AdditionalPlan::Resize {
            output_extension: Some(
                if jpg_exists {
                    ImageExtension::PngJpg
                } else {
                    ImageExtension::Jpg
                },
            ),
        }
    } else {
        AdditionalPlan::Resize { output_extension: None }
    }
}

/// Large images are compressed. A JPG, JPEG or PNG file larger than the size
/// limit is resized whenever image compression is on: a PNG becomes a JPG
/// (".png.jpg" beside an existing JPG) unless that is off, and JPG or JPEG
/// keeps its extension. Any other file (not one of those images, not over
/// the limit, or with compression off) is included as it is, hard linked
/// as the options say, with its size in KB as a warning exactly when it is
/// over the limit.
pub proof fn large_images_are_resized(ext: Seq<char>, size: u64, o: AdditionalOptions, jpg_exists: bool)
    ensures
        (ext == "jpg"@ || ext == "jpeg"@ || ext == "png"@) && size > o.max_file_size
            && !o.no_image_compression ==> (spec_additional_plan(ext, size, o, jpg_exists) matches AdditionalPlan::Resize {
            output_extension,
        } && (if ext == "png"@ && !o.no_png_to_jpg {
            output_extension == Some(
                if jpg_exists {
                    ImageExtension::PngJpg
                } else {
                    ImageExtension::Jpg
                },
            )
        } else {
            output_extension is None
        })),
        !((ext == "jpg"@ || ext == "jpeg"@ || ext == "png"@) && size > o.max_file_size
            && !o.no_image_compression) ==> (spec_additional_plan(ext, size, o, jpg_exists) matches AdditionalPlan::Include {
            hard_link,
            large_warning,
        } && hard_link == o.hard_link && (size > o.max_file_size <==> large_warning is Some) && (
        large_warning matches Some(kb) ==> kb == size / 1000)),
{
}

/// Id of the job of the `index`th additional file for `target`:
/// "Additional " then the format's `Debug` name padded to 7 characters, then
/// the index right-aligned in 3 characters.
pub open spec fn spec_additional_id(target: TargetFormat, index: nat) -> Seq<char> {
    "Additional "@ + spec_pad_right(spec_target_debug(target), 7) + spec_pad_left(spec_decimal(index), 3)
}

/// Id of the job of the `index`th additional file for `target`.
pub fn additional_id(target: TargetFormat, index: usize) -> (res: String)
    ensures
        res@ == spec_additional_id(target, index as nat),
{
    let mut id = owned("Additional ");
    let name = pad_right(target.debug_name(), 7);
    id.append(name.as_str());
    let digits = decimal(index as u64);
    let padded = pad_left(digits.as_str(), 3);
    id.append(padded.as_str());
    id
}

/// Name for what `Path::with_extension` gives for a path and an extension.
pub uninterp spec fn spec_with_extension(path: Seq<char>, extension: Seq<char>) -> Seq<char>;

/// `path` with its extension replaced by `extension`, which must hold no
/// path separator (`Path::with_extension` panics on one).
///
/// Trusted: calls `std::path::Path::with_extension` and converts the result
/// to a string; claims only that the result is the named function of the
/// arguments.
#[verifier::external_body]
fn with_extension(path: &str, extension: &str) -> (res: String)
    requires
        !extension@.contains('/'),
        !extension@.contains('\\'),
    ensures
        res@ == spec_with_extension(path@, extension@),
{
    std::path::Path::new(path).with_extension(extension).to_string_lossy().into_owned()
}

/// The extension text of an [`ImageExtension`].
pub open spec fn spec_image_extension(e: ImageExtension) -> Seq<char> {
    match e {
        ImageExtension::Jpg => "jpg"@,
        ImageExtension::PngJpg => "png.jpg"@,
    }
}

/// Where an additional file goes: its sub directory under the target
/// directory, under its own name, with the planned extension when one is
/// set.
pub open spec fn spec_additional_output(
    target_dir: Seq<char>,
    sub_dir: Seq<char>,
    file_name: Seq<char>,
    extension: Option<ImageExtension>,
) -> Seq<char> {
    let out = spec_join_path(spec_join_path(target_dir, sub_dir), file_name);
    match extension {
        Some(e) => spec_with_extension(out, spec_image_extension(e)),
        None => out,
    }
}

/// A job resizing an additional image.
#[derive(Clone, Debug)]
pub struct AdditionalJob {
    /// Job id.
    pub id: String,
    /// The resize to run.
    pub resize: Resize,
}

/// The work for an additional file.
#[derive(Clone, Debug)]
pub enum AdditionalWork {
    /// Copy, or hard link, the file unchanged.
    Include {
        /// Path of the file.
        source: String,
        /// Where it goes.
        destination: String,
        /// Hard link rather than copy.
        hard_link: bool,
        /// Size in KB to warn about, for a file over the limit.
        large_warning: Option<u64>,
    },
    /// Resize the image.
    Resize(AdditionalJob),
}

/// The work for the `index`th additional file of a transcode to `target`,
/// at `source_path`, found in `sub_dir` under the name `file_name`.
///
/// - An included file goes, under its own name, to its sub directory of
///   `target_dir`
/// - A resized image goes there too, with the planned extension, resized to
///   at most `max_pixel_size` pixels at JPG quality `quality`
pub fn additional_work(
    index: usize,
    target: TargetFormat,
    source_path: &str,
    target_dir: &str,
    sub_dir: &str,
    file_name: &str,
    plan: AdditionalPlan,
    max_pixel_size: u32,
    quality: u8,
) -> (res: AdditionalWork)
    ensures
        match plan {
            AdditionalPlan::Include { hard_link, large_warning } => res matches AdditionalWork::Include {
                source,
                destination,
                hard_link: h,
                large_warning: w,
            } && source@ == source_path@ && destination@ == spec_additional_output(
                target_dir@,
                sub_dir@,
                file_name@,
                None,
            ) && h == hard_link && w == large_warning,
            AdditionalPlan::Resize { output_extension } => res matches AdditionalWork::Resize(job) && job.id@
                == spec_additional_id(target, index as nat) && job.resize.input@ == source_path@
                && job.resize.output@ == spec_additional_output(
                target_dir@,
                sub_dir@,
                file_name@,
                output_extension,
            ) && job.resize.max_pixel_size == max_pixel_size && job.resize.quality == quality,
        },
{
    let dir = join_path(target_dir, sub_dir);
    let out = join_path(dir.as_str(), file_name);
    match plan {
        AdditionalPlan::Include { hard_link, large_warning } => AdditionalWork::Include {
            source: owned(source_path),
            destination: out,
            hard_link,
            large_warning,
        },
        AdditionalPlan::Resize { output_extension } => {
            let output = match output_extension {
                Some(e) => {
                    proof {
                        reveal_strlit("jpg");
                        reveal_strlit("png.jpg");
                    }
                    let text = e.as_str();
                    assert(!text@.contains('/') && !text@.contains('\\')) by {
                        if text@.contains('/') || text@.contains('\\') {
                            let k = choose|k: int| 0 <= k < text@.len() && (text@[k] == '/' || text@[k] == '\\');
                            assert(text@[k] != '/' && text@[k] != '\\');
                        }
                    }
                    with_extension(out.as_str(), text)
                },
                None => out,
            };
            AdditionalWork::Resize(
                AdditionalJob {
                    id: additional_id(target, index),
                    resize: Resize { input: owned(source_path), output, max_pixel_size, quality },
                },
            )
        },
    }
}

/// Size of a spectrogram image.
#[derive(Clone, Copy, Debug, Eq, PartialEq, Structural)]
pub enum Size {
    /// The whole track.
    Full,
    /// Two seconds from the first minute.
    Zoom,
}

/// A command to generate a spectrogram image of a FLAC file.
#[derive(Clone, Debug)]
pub struct SpectrogramJob {
    /// Job id.
    pub id: String,
    /// Path of the FLAC file.
    pub source_path: String,
    /// Path of the image to write.
    pub output_path: String,
    /// Title printed on the image.
    pub image_title: String,
    /// Which spectrogram to draw.
    pub size: Size,
}

/// Arguments of the command drawing a spectrogram of `job`.
pub open spec fn spec_spectrogram_args(job: SpectrogramJob) -> Seq<Seq<char>> {
    let head = seq![job.source_path@, "-n"@, "remix"@, "1"@, "spectrogram"@];
    let tail = seq![
        "-t"@,
        job.image_title@,
        "-c"@,
        "red_oxide"@,
        "-o"@,
        job.output_path@,
    ];
    match job.size {
        Size::Zoom => head + seq![
            "-x"@,
            "500"@,
            "-y"@,
            "1025"@,
            "-z"@,
            "120"@,
            "-w"@,
            "Kaiser"@,
            "-S"@,
            "1:00"@,
            "-d"@,
            "0:02"@,
        ] + tail,
        Size::Full => head + seq!["-x"@, "3000"@, "-y"@, "513"@, "-z"@, "120"@, "-w"@, "Kaiser"@]
            + tail,
    }
}

fn push_arg(args: &mut Vec<String>, arg: &str)
    ensures
        Seq::new(final(args)@.len(), |i: int| final(args)@[i]@) == Seq::new(
            old(args)@.len(),
            |i: int| old(args)@[i]@,
        ).push(arg@),
{
    let ghost before = Seq::new(args@.len(), |i: int| args@[i]@);
    args.push(owned(arg));
    assert(Seq::new(args@.len(), |i: int| args@[i]@) =~= before.push(arg@));
}

impl SpectrogramJob {
    /// The sox command that draws the spectrogram.
    pub fn to_info(&self) -> (res: CommandInfo)
        ensures
            res.program@ == SOX@,
            args_view(res) == spec_spectrogram_args(*self),
    {
        let mut args: Vec<String> = Vec::new();
        push_arg(&mut args, self.source_path.as_str());
        push_arg(&mut args, "-n");
        push_arg(&mut args, "remix");
        push_arg(&mut args, "1");
        push_arg(&mut args, "spectrogram");
        match self.size {
            Size::Zoom => {
                push_arg(&mut args, "-x");
                push_arg(&mut args, "500");
                push_arg(&mut args, "-y");
                push_arg(&mut args, "1025");
                push_arg(&mut args, "-z");
                push_arg(&mut args, "120");
                push_arg(&mut args, "-w");
                push_arg(&mut args, "Kaiser");
                push_arg(&mut args, "-S");
                push_arg(&mut args, "1:00");
                push_arg(&mut args, "-d");
                push_arg(&mut args, "0:02");
            },
            Size::Full => {
                push_arg(&mut args, "-x");
                push_arg(&mut args, "3000");
                push_arg(&mut args, "-y");
                push_arg(&mut args, "513");
                push_arg(&mut args, "-z");
                push_arg(&mut args, "120");
                push_arg(&mut args, "-w");
                push_arg(&mut args, "Kaiser");
            },
        }
        push_arg(&mut args, "-t");
        push_arg(&mut args, self.image_title.as_str());
        push_arg(&mut args, "-c");
        push_arg(&mut args, "red_oxide");
        push_arg(&mut args, "-o");
        push_arg(&mut args, self.output_path.as_str());
        let res = CommandInfo { program: owned(SOX), args };
        assert(args_view(res) =~= spec_spectrogram_args(*self));
        res
    }
}

} // verus!
