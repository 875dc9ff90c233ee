//! The resizer: one image at a time, or a batch of them.

use vstd::prelude::*;
use image::DynamicImage;
use crate::dimensions::resolved_size;
use crate::error::ProcessingError;
use crate::format::{output_codec, output_extension, source_codec, Codec};
use crate::imaging::{
    buffers_fit, decode, decoded, dimensions, encode, encode_jpeg, encoded, fitted, jpeg_encoded,
    pixel_dimensions, resize_exact, resize_to_fit, stretched, Resampling,
};
use crate::paths::{file_stem, join, joined, stem_of};
use crate::presets::ResizePreset;
use crate::text::{chars_of, decimal, push_decimal, push_text, string_of};

verus! {

/// The operations of the resizer. It holds no state.
pub struct ImageResizer;

/// A source file as it was read: its path, and its bytes where it could be
/// read.
#[derive(Debug, Clone, PartialEq, Eq)]
pub struct SourceFile {
    pub path: String,
    pub data: Option<Vec<u8>>,
}

/// An output ready to be stored: where it goes, and its bytes.
#[derive(Debug, Clone, PartialEq, Eq)]
pub struct OutputFile {
    pub path: String,
    pub data: Vec<u8>,
}

/// The quality at which JPEG outputs are encoded: the highest.
pub const JPEG_QUALITY: u8 = 100;

/// Whether a resize to `width` by `height` stays within what can be
/// allocated.
fn check_buffers_fit(source_width: u32, width: u32, height: u32) -> (fit: bool)
    ensures
        fit == buffers_fit(source_width, width, height),
{
    assert(16 * source_width * height <= 16 * 0xffff_ffff * 0xffff_ffff) by (nonlinear_arith)
        requires
            source_width <= 0xffff_ffff,
            height <= 0xffff_ffff,
    ;
    assert(16 * width * height <= 16 * 0xffff_ffff * 0xffff_ffff) by (nonlinear_arith)
        requires
            width <= 0xffff_ffff,
            height <= 0xffff_ffff,
    ;
    let limit: u128 = isize::MAX as u128;
    let sampled: u128 = 16 * (source_width as u128) * (height as u128);
    let resized: u128 = 16 * (width as u128) * (height as u128);
    sampled <= limit && resized <= limit
}

/// The image that `preset` makes of `image`: resampled with the Lanczos
/// kernel to the resolved size, within it where the aspect ratio is kept and
/// exactly to it where not. A size whose buffers cannot be allocated counts
/// as an output that cannot be written.
pub open spec fn resampled(image: DynamicImage, preset: ResizePreset) -> Result<
    DynamicImage,
    ProcessingError,
> {
    let original = pixel_dimensions(image);
    match resolved_size(
        original.0,
        original.1,
        preset.width,
        preset.height,
        preset.maintain_aspect_ratio,
    ) {
        Err(e) => Err(e),
        Ok(size) => if !buffers_fit(original.0, size.0, size.1) {
            Err(ProcessingError::WriteError)
        } else if preset.maintain_aspect_ratio {
            Ok(fitted(image, size.0, size.1, Resampling::Lanczos3))
        } else {
            Ok(stretched(image, size.0, size.1, Resampling::Lanczos3))
        },
    }
}

/// The bytes of `image` in the format of `codec`: JPEG at the highest
/// quality, every other format as its encoder writes it by default.
pub open spec fn encoding(image: DynamicImage, codec: Codec) -> Result<Seq<u8>, ProcessingError> {
    let bytes = if codec == Codec::Jpeg {
        jpeg_encoded(image, JPEG_QUALITY)
    } else {
        encoded(image, codec)
    };
    match bytes {
        Some(b) => Ok(b),
        None => Err(ProcessingError::WriteError),
    }
}

/// What resizing the file at `path` with the contents `data` gives: the
/// bytes of the output, or the first step that failed. The steps are, in
/// this order: decode as the path's extension says, resample, choose the
/// output's codec, encode.
pub open spec fn resize_outcome(path: Seq<char>, data: Seq<u8>, preset: ResizePreset) -> Result<
    Seq<u8>,
    ProcessingError,
> {
    match source_codec(path) {
        Err(_) => Err(ProcessingError::DecodeError),
        Ok(source) => match decoded(data, source) {
            None => Err(ProcessingError::DecodeError),
            Some(image) => match resampled(image, preset) {
                Err(e) => Err(e),
                Ok(resized) => match output_codec(preset.output_format, path) {
                    Err(e) => Err(e),
                    Ok(codec) => encoding(resized, codec),
                },
            },
        },
    }
}

/// How resizing one file fails. It is a decode error exactly where the
/// path's extension names no codec or the contents do not decode; it is a
/// degenerate image only where the aspect ratio is kept and the decoded
/// image has no area; and it is never an invalid file name nor an
/// unsupported format: a path whose extension names no codec has failed to
/// decode before an output format is chosen.
pub proof fn lemma_resize_failures(path: Seq<char>, data: Seq<u8>, preset: ResizePreset)
    ensures
        resize_outcome(path, data, preset) == Err::<Seq<u8>, ProcessingError>(
            ProcessingError::DecodeError,
        ) <==> source_codec(path) is Err || decoded(data, source_codec(path)->Ok_0) is None,
        resize_outcome(path, data, preset) == Err::<Seq<u8>, ProcessingError>(
            ProcessingError::DegenerateImage,
        ) ==> {
            let image = decoded(data, source_codec(path)->Ok_0)->Some_0;
            &&& preset.maintain_aspect_ratio
            &&& pixel_dimensions(image).0 == 0 || pixel_dimensions(image).1 == 0
        },
        resize_outcome(path, data, preset) != Err::<Seq<u8>, ProcessingError>(
            ProcessingError::InvalidFileName,
        ),
        resize_outcome(path, data, preset) != Err::<Seq<u8>, ProcessingError>(
            ProcessingError::UnsupportedFormat,
        ),
{
}

/// A result that holds bytes, with the bytes as a sequence.
pub open spec fn bytes_of(result: Result<Vec<u8>, ProcessingError>) -> Result<
    Seq<u8>,
    ProcessingError,
> {
    match result {
        Ok(b) => Ok(b@),
        Err(e) => Err(e),
    }
}

/// The name of the output for a source with the stem `stem`: the stem,
/// `_resized_`, the preset's width and height in decimal with an `x`
/// between them, a `.`, and the extension.
pub open spec fn output_name(stem: Seq<char>, width: u32, height: u32, extension: Seq<char>) -> Seq<
    char,
> {
    stem + "_resized_"@ + decimal(width as nat) + "x"@ + decimal(height as nat) + "."@ + extension
}

/// Where the output for the source at `input_path` is stored: under its
/// output name in `output_dir`. A path that ends in no file name has no
/// output.
pub open spec fn output_path_of(
    input_path: Seq<char>,
    output_dir: Seq<char>,
    preset: ResizePreset,
) -> Result<Seq<char>, ProcessingError> {
    match stem_of(input_path) {
        None => Err(ProcessingError::InvalidFileName),
        Some(stem) => Ok(
            joined(
                output_dir,
                output_name(
                    stem,
                    preset.width,
                    preset.height,
                    output_extension(preset.output_format, input_path),
                ),
            ),
        ),
    }
}

/// The bytes of a source file, where it was read.
pub open spec fn contents_of(file: SourceFile) -> Option<Seq<u8>> {
    match file.data {
        Some(d) => Some(d@),
        None => None,
    }
}

/// What one file of a batch comes to: the path and the bytes of its output,
/// or its error. A path without a file name is refused before anything else;
/// a file that could not be read counts as one that cannot be decoded.
pub open spec fn file_outcome(
    path: Seq<char>,
    contents: Option<Seq<u8>>,
    output_dir: Seq<char>,
    preset: ResizePreset,
) -> Result<(Seq<char>, Seq<u8>), ProcessingError> {
    match output_path_of(path, output_dir, preset) {
        Err(e) => Err(e),
        Ok(output_path) => match contents {
            None => Err(ProcessingError::DecodeError),
            Some(data) => match resize_outcome(path, data, preset) {
                Err(e) => Err(e),
                Ok(bytes) => Ok((output_path, bytes)),
            },
        },
    }
}

/// A result that holds an output, with the output's path and bytes as
/// sequences.
pub open spec fn output_of(result: Result<OutputFile, ProcessingError>) -> Result<
    (Seq<char>, Seq<u8>),
    ProcessingError,
> {
    match result {
        Ok(file) => Ok((file.path@, file.data@)),
        Err(e) => Err(e),
    }
}

/// What each file of a batch comes to, in the order of the files.
pub open spec fn batch_outcomes(
    files: Seq<SourceFile>,
    output_dir: Seq<char>,
    preset: ResizePreset,
) -> Seq<Result<(Seq<char>, Seq<u8>), ProcessingError>> {
    Seq::new(
        files.len(),
        |i: int| file_outcome(files[i].path@, contents_of(files[i]), output_dir, preset),
    )
}

/// The results of a batch, with each output's path and bytes as sequences.
pub open spec fn outputs_of(results: Seq<Result<OutputFile, ProcessingError>>) -> Seq<
    Result<(Seq<char>, Seq<u8>), ProcessingError>,
> {
    Seq::new(results.len(), |i: int| output_of(results[i]))
}

/// A batch has one outcome for each file, whatever fails: a file's error
/// takes the file's own place and no other.
pub proof fn lemma_every_file_has_its_outcome(
    files: Seq<SourceFile>,
    output_dir: Seq<char>,
    preset: ResizePreset,
    i: int,
)
    requires
        0 <= i < files.len(),
    ensures
        batch_outcomes(files, output_dir, preset).len() == files.len(),
        batch_outcomes(files, output_dir, preset)[i] == file_outcome(
            files[i].path@,
            contents_of(files[i]),
            output_dir,
            preset,
        ),
{
}

/// Running a batch again on the same files, into the same directory, with
/// the same preset gives the same outputs: the same paths, the same bytes,
/// and the same errors in the same places.
pub proof fn lemma_rerun_gives_the_same_outputs(
    first: Seq<Result<OutputFile, ProcessingError>>,
    second: Seq<Result<OutputFile, ProcessingError>>,
    files: Seq<SourceFile>,
    output_dir: Seq<char>,
    preset: ResizePreset,
)
    requires
        outputs_of(first) == batch_outcomes(files, output_dir, preset),
        outputs_of(second) == batch_outcomes(files, output_dir, preset),
    ensures
        first.len() == second.len(),
        forall|i: int|
            0 <= i < first.len() ==> (match (#[trigger] first[i], second[i]) {
                (Ok(a), Ok(b)) => a.path@ == b.path@ && a.data@ == b.data@,
                (Err(a), Err(b)) => a == b,
                _ => false,
            }),
{
    assert(outputs_of(first).len() == first.len());
    assert(outputs_of(second).len() == second.len());
    assert forall|i: int| 0 <= i < first.len() implies (match (#[trigger] first[i], second[i]) {
        (Ok(a), Ok(b)) => a.path@ == b.path@ && a.data@ == b.data@,
        (Err(a), Err(b)) => a == b,
        _ => false,
    }) by {
        assert(outputs_of(first)[i] == output_of(first[i]));
        assert(outputs_of(second)[i] == output_of(second[i]));
    }
}

impl ImageResizer {
    /// Resamples `image` as `preset` asks: to the size that
    /// `resolve_dimensions` gives for the image's own size, with the Lanczos
    /// kernel. With the aspect ratio kept, the result fits within that size;
    /// without, it has exactly the preset's size.
    pub fn resample(image: &DynamicImage, preset: &ResizePreset) -> (resized: Result<
        DynamicImage,
        ProcessingError,
    >)
        requires
            preset.is_valid(),
        ensures
            resized == resampled(*image, *preset),
            resized matches Ok(r) ==> {
                let size = resolved_size(
                    pixel_dimensions(*image).0,
                    pixel_dimensions(*image).1,
                    preset.width,
                    preset.height,
                    preset.maintain_aspect_ratio,
                )->Ok_0;
                &&& 1 <= pixel_dimensions(r).0 <= size.0
                &&& 1 <= pixel_dimensions(r).1 <= size.1
                &&& !preset.maintain_aspect_ratio ==> pixel_dimensions(r) == (
                    preset.width,
                    preset.height,
                )
            },
    {
        let (original_width, original_height) = dimensions(image);
        let (width, height) = match Self::resolve_dimensions(
            original_width,
            original_height,
            preset.width,
            preset.height,
            preset.maintain_aspect_ratio,
        ) {
            Ok(size) => size,
            Err(e) => {
                return Err(e);
            },
        };
        if !check_buffers_fit(original_width, width, height) {
            Err(ProcessingError::WriteError)
        } else if preset.maintain_aspect_ratio {
            Ok(resize_to_fit(image, width, height, Resampling::Lanczos3))
        } else {
            Ok(resize_exact(image, width, height, Resampling::Lanczos3))
        }
    }

    /// Encodes `img` in the format of `format`: JPEG at the highest quality,
    /// every other format as its encoder writes it by default. An image that
    /// the encoder refuses is an output that cannot be written.
    pub fn save_image_with_format(img: &DynamicImage, format: Codec) -> (bytes: Result<
        Vec<u8>,
        ProcessingError,
    >)
        ensures
            bytes_of(bytes) == encoding(*img, format),
    {
        let written = match format {
            Codec::Jpeg => encode_jpeg(img, JPEG_QUALITY),
            _ => encode(img, format),
        };
        match written {
            Ok(bytes) => Ok(bytes),
            Err(_) => Err(ProcessingError::WriteError),
        }
    }

    /// Resizes one image: decodes `data` as the extension of `input_path`
    /// says, resamples it as `preset` asks, and encodes it in the format that
    /// the preset chooses for this path. The first step that fails decides
    /// the error.
    pub fn resize_image(input_path: &str, data: &[u8], preset: &ResizePreset) -> (output: Result<
        Vec<u8>,
        ProcessingError,
    >)
        requires
            preset.is_valid(),
        ensures
            bytes_of(output) == resize_outcome(input_path@, data@, *preset),
    {
        let source = match Self::get_image_format(input_path) {
            Ok(codec) => codec,
            Err(_) => {
                return Err(ProcessingError::DecodeError);
            },
        };
        let image = match decode(data, source) {
            Ok(image) => image,
            Err(_) => {
                return Err(ProcessingError::DecodeError);
            },
        };
        let resized = match Self::resample(&image, preset) {
            Ok(resized) => resized,
            Err(e) => {
                return Err(e);
            },
        };
        let codec = match Self::get_output_format(&preset.output_format, input_path) {
            Ok(codec) => codec,
            Err(e) => {
                return Err(e);
            },
        };
        Self::save_image_with_format(&resized, codec)
    }

    /// The name of the output for a source with the stem `stem`.
    pub fn output_file_name(stem: &str, width: u32, height: u32, extension: &str) -> (name: String)
        ensures
            name@ == output_name(stem@, width, height, extension@),
    {
        let mut name = chars_of(stem);
        push_text(&mut name, &chars_of("_resized_"));
        push_decimal(&mut name, width as u128);
        push_text(&mut name, &chars_of("x"));
        push_decimal(&mut name, height as u128);
        push_text(&mut name, &chars_of("."));
        push_text(&mut name, &chars_of(extension));
        string_of(&name)
    }

    /// Where the output for the source at `input_path` is stored. A path
    /// that ends in no file name is refused.
    pub fn output_path(input_path: &str, output_dir: &str, preset: &ResizePreset) -> (path: Result<
        String,
        ProcessingError,
    >)
        ensures
            match path {
                Ok(p) => output_path_of(input_path@, output_dir@, *preset) == Ok::<
                    Seq<char>,
                    ProcessingError,
                >(p@),
                Err(e) => output_path_of(input_path@, output_dir@, *preset) == Err::<
                    Seq<char>,
                    ProcessingError,
                >(e),
            },
    {
        let stem = match file_stem(input_path) {
            Some(stem) => stem,
            None => {
                return Err(ProcessingError::InvalidFileName);
            },
        };
        let extension = match Self::get_extension_for_format(&preset.output_format, input_path) {
            Ok(extension) => extension,
            Err(e) => {
                return Err(e);
            },
        };
        let name = Self::output_file_name(
            stem.as_str(),
            preset.width,
            preset.height,
            extension.as_str(),
        );
        Ok(join(output_dir, name.as_str()))
    }

    /// Takes one source file to its output: finds where the output goes,
    /// then resizes the file's contents.
    pub fn process_file(file: &SourceFile, output_dir: &str, preset: &ResizePreset) -> (output:
        Result<OutputFile, ProcessingError>)
        requires
            preset.is_valid(),
        ensures
            output_of(output) == file_outcome(file.path@, contents_of(*file), output_dir@, *preset),
    {
        let path = match Self::output_path(file.path.as_str(), output_dir, preset) {
            Ok(path) => path,
            Err(e) => {
                return Err(e);
            },
        };
        let data = match &file.data {
            Some(data) => data,
            None => {
                return Err(ProcessingError::DecodeError);
            },
        };
        match Self::resize_image(file.path.as_str(), data.as_slice(), preset) {
            Ok(bytes) => Ok(OutputFile { path, data: bytes }),
            Err(e) => Err(e),
        }
    }

    /// Resizes a batch of source files, in their order, one at a time.
    ///
    /// Before the file at `i` is taken up, `progress_callback` is called with
    /// `i` and the number of files; after the last file it is called once
    /// more with that number twice. A file that fails does not stop the
    /// batch: its place in the result holds its error.
    pub fn batch_resize(
        input_files: &Vec<SourceFile>,
        output_dir: &str,
        preset: &ResizePreset,
        progress_callback: impl Fn(usize, usize),
    ) -> (results: Vec<Result<OutputFile, ProcessingError>>)
        requires
            preset.is_valid(),
            forall|current: usize|
                current <= input_files.len() ==> call_requires(
                    progress_callback,
                    (current, input_files.len()),
                ),
        ensures
            results.len() == input_files.len(),
            outputs_of(results@) == batch_outcomes(input_files@, output_dir@, *preset),
    {
        let total = input_files.len();
        let mut results: Vec<Result<OutputFile, ProcessingError>> = Vec::new();
        let mut index: usize = 0;
        while index < total
            invariant
                index <= total,
                total == input_files.len(),
                preset.is_valid(),
                results.len() == index,
                forall|current: usize|
                    current <= input_files.len() ==> call_requires(
                        progress_callback,
                        (current, input_files.len()),
                    ),
                forall|i: int|
                    0 <= i < index ==> output_of(#[trigger] results[i]) == file_outcome(
                        input_files[i].path@,
                        contents_of(input_files[i]),
                        output_dir@,
                        *preset,
                    ),
            decreases total - index,
        {
            progress_callback(index, total);
            let result = Self::process_file(&input_files[index], output_dir, preset);
            results.push(result);
            index += 1;
        }
        progress_callback(total, total);
        results
    }
}

} // verus!
