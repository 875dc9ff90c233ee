//! Which codec an output is written with, and which extension its file gets.

use vstd::prelude::*;
use vstd::string::*;
use crate::error::ProcessingError;
use crate::paths::{extension, extension_of};
use crate::presets::OutputFormat;
use crate::resizer::ImageResizer;
use crate::text::{chars_of, lowered, spells, to_lowered};

verus! {

/// An image format that can be read and written.
#[derive(Debug, Clone, Copy, PartialEq, Eq, Structural)]
pub enum Codec {
    Jpeg,
    Png,
    Gif,
    Bmp,
    Tiff,
    WebP,
}

/// The codec that a file extension names, whatever the case of its letters.
pub open spec fn codec_of_extension(extension: Seq<char>) -> Option<Codec> {
    let e = lowered(extension);
    if e == "jpg"@ || e == "jpeg"@ {
        Some(Codec::Jpeg)
    } else if e == "png"@ {
        Some(Codec::Png)
    } else if e == "gif"@ {
        Some(Codec::Gif)
    } else if e == "bmp"@ {
        Some(Codec::Bmp)
    } else if e == "tiff"@ || e == "tif"@ {
        Some(Codec::Tiff)
    } else if e == "webp"@ {
        Some(Codec::WebP)
    } else {
        None
    }
}

/// The codec that an explicit choice names; `KeepOriginal` names none.
pub open spec fn chosen_codec(choice: OutputFormat) -> Option<Codec> {
    match choice {
        OutputFormat::KeepOriginal => None,
        OutputFormat::Jpeg => Some(Codec::Jpeg),
        OutputFormat::Png => Some(Codec::Png),
        OutputFormat::Webp => Some(Codec::WebP),
        OutputFormat::Bmp => Some(Codec::Bmp),
        OutputFormat::Tiff => Some(Codec::Tiff),
    }
}

/// The extension that an explicit choice gives to its outputs.
pub open spec fn chosen_extension(choice: OutputFormat) -> Option<Seq<char>> {
    match choice {
        OutputFormat::KeepOriginal => None,
        OutputFormat::Jpeg => Some("jpg"@),
        OutputFormat::Png => Some("png"@),
        OutputFormat::Webp => Some("webp"@),
        OutputFormat::Bmp => Some("bmp"@),
        OutputFormat::Tiff => Some("tiff"@),
    }
}

/// The codec of the file that `path` names, by its extension.
pub open spec fn source_codec(path: Seq<char>) -> Result<Codec, ProcessingError> {
    match extension_of(path) {
        Some(e) => match codec_of_extension(e) {
            Some(codec) => Ok(codec),
            None => Err(ProcessingError::UnsupportedFormat),
        },
        None => Err(ProcessingError::UnsupportedFormat),
    }
}

/// The codec that the output for `path` is written with under `choice`.
pub open spec fn output_codec(choice: OutputFormat, path: Seq<char>) -> Result<
    Codec,
    ProcessingError,
> {
    match chosen_codec(choice) {
        Some(codec) => Ok(codec),
        None => source_codec(path),
    }
}

/// The extension under `choice` of the output for a source whose extension
/// is `source`: the choice's own extension, or the source's as it is spelt.
pub open spec fn extension_under(choice: OutputFormat, source: Option<Seq<char>>) -> Seq<char> {
    match chosen_extension(choice) {
        Some(e) => e,
        None => match source {
            Some(e) => e,
            None => Seq::empty(),
        },
    }
}

/// The extension of the output for `path` under `choice`.
pub open spec fn output_extension(choice: OutputFormat, path: Seq<char>) -> Seq<char> {
    extension_under(choice, extension_of(path))
}

/// An explicit choice decides codec and extension by itself: whatever the
/// source's path, they are the same.
pub proof fn lemma_explicit_choice_ignores_path(
    choice: OutputFormat,
    first: Seq<char>,
    second: Seq<char>,
)
    requires
        choice != OutputFormat::KeepOriginal,
    ensures
        output_extension(choice, first) == output_extension(choice, second),
        output_extension(choice, first) == chosen_extension(choice)->Some_0,
        output_codec(choice, first) == output_codec(choice, second),
        output_codec(choice, first) == Ok::<Codec, ProcessingError>(chosen_codec(choice)->Some_0),
{
}

/// The extension that an explicit choice gives names the codec that the
/// choice names: an output is read back in the format it was written in.
pub proof fn lemma_chosen_extension_names_chosen_codec(choice: OutputFormat)
    requires
        choice != OutputFormat::KeepOriginal,
    ensures
        codec_of_extension(chosen_extension(choice)->Some_0) == chosen_codec(choice),
{
    reveal_strlit("jpg");
    reveal_strlit("jpeg");
    reveal_strlit("png");
    reveal_strlit("gif");
    reveal_strlit("bmp");
    reveal_strlit("tiff");
    reveal_strlit("tif");
    reveal_strlit("webp");
    let e = chosen_extension(choice)->Some_0;
    assert(e[0] != 'j' || e == "jpg"@);
    assert(e[0] != 'b' || e == "bmp"@);
    assert(e[0] != 'p' || e == "png"@);
    assert(e[0] != 't' || e == "tiff"@);
    assert(e[0] != 'w' || e == "webp"@);
    assert(lowered(e) =~= e);
}

/// `KeepOriginal` keeps the source's extension as it is spelt, and writes in
/// the format that this extension names.
pub proof fn lemma_keep_original_follows_source(path: Seq<char>)
    ensures
        output_codec(OutputFormat::KeepOriginal, path) == source_codec(path),
        extension_of(path) matches Some(e) ==> output_extension(OutputFormat::KeepOriginal, path)
            == e,
        extension_of(path) is None ==> output_extension(OutputFormat::KeepOriginal, path).len()
            == 0,
{
}

/// The case of an extension's letters does not change the codec it names.
pub proof fn lemma_codec_ignores_case(first: Seq<char>, second: Seq<char>)
    requires
        lowered(first) == lowered(second),
    ensures
        codec_of_extension(first) == codec_of_extension(second),
{
}

impl Codec {
    /// The codec that `extension` names, whatever the case of its letters:
    /// `jpg` and `jpeg`, `png`, `gif`, `bmp`, `tiff` and `tif`, `webp`.
    pub fn from_extension(extension: &str) -> (codec: Option<Codec>)
        ensures
            codec == codec_of_extension(extension@),
    {
        let e = to_lowered(&chars_of(extension));
        if spells(&e, "jpg") || spells(&e, "jpeg") {
            Some(Codec::Jpeg)
        } else if spells(&e, "png") {
            Some(Codec::Png)
        } else if spells(&e, "gif") {
            Some(Codec::Gif)
        } else if spells(&e, "bmp") {
            Some(Codec::Bmp)
        } else if spells(&e, "tiff") || spells(&e, "tif") {
            Some(Codec::Tiff)
        } else if spells(&e, "webp") {
            Some(Codec::WebP)
        } else {
            None
        }
    }
}

impl OutputFormat {
    /// The codec that this choice names; `KeepOriginal` names none.
    pub fn codec(&self) -> (codec: Option<Codec>)
        ensures
            codec == chosen_codec(*self),
    {
        match self {
            OutputFormat::KeepOriginal => None,
            OutputFormat::Jpeg => Some(Codec::Jpeg),
            OutputFormat::Png => Some(Codec::Png),
            OutputFormat::Webp => Some(Codec::WebP),
            OutputFormat::Bmp => Some(Codec::Bmp),
            OutputFormat::Tiff => Some(Codec::Tiff),
        }
    }

    /// The extension that this choice gives to its outputs; `KeepOriginal`
    /// has none of its own.
    pub fn extension(&self) -> (extension: Option<&'static str>)
        ensures
            match extension {
                Some(e) => chosen_extension(*self) == Some(e@),
                None => chosen_extension(*self) is None,
            },
    {
        match self {
            OutputFormat::KeepOriginal => None,
            OutputFormat::Jpeg => Some("jpg"),
            OutputFormat::Png => Some("png"),
            OutputFormat::Webp => Some("webp"),
            OutputFormat::Bmp => Some("bmp"),
            OutputFormat::Tiff => Some("tiff"),
        }
    }

    /// The extension of an output under this choice, for a source whose
    /// extension is `source`.
    pub fn extension_for(&self, source: Option<&str>) -> (extension: String)
        ensures
            extension@ == extension_under(
                *self,
                match source {
                    Some(e) => Some(e@),
                    None => None,
                },
            ),
    {
        match self.extension() {
            Some(e) => String::from_str(e),
            None => match source {
                Some(e) => String::from_str(e),
                None => String::new(),
            },
        }
    }
}

impl ImageResizer {
    /// The codec of the file that `path` names, by its extension. A path
    /// without an extension, or with one that names no codec, is refused.
    pub fn get_image_format(path: &str) -> (codec: Result<Codec, ProcessingError>)
        ensures
            codec == source_codec(path@),
    {
        match extension(path) {
            Some(e) => match Codec::from_extension(e.as_str()) {
                Some(codec) => Ok(codec),
                None => Err(ProcessingError::UnsupportedFormat),
            },
            None => Err(ProcessingError::UnsupportedFormat),
        }
    }

    /// The codec that the output for `input_path` is written with: the one
    /// that an explicit choice names, whatever the path; under `KeepOriginal`
    /// the one that the path's extension names.
    pub fn get_output_format(output_format: &OutputFormat, input_path: &str) -> (codec: Result<
        Codec,
        ProcessingError,
    >)
        ensures
            codec == output_codec(*output_format, input_path@),
    {
        match output_format.codec() {
            Some(codec) => Ok(codec),
            None => Self::get_image_format(input_path),
        }
    }

    /// The extension of the output for `input_path`: the one that an explicit
    /// choice gives, whatever the path; under `KeepOriginal` the path's own
    /// extension as it is spelt, empty where it has none. It never fails.
    pub fn get_extension_for_format(output_format: &OutputFormat, input_path: &str) -> (extension:
        Result<String, ProcessingError>)
        ensures
            extension matches Ok(e) && e@ == output_extension(*output_format, input_path@),
    {
        match extension(input_path) {
            Some(e) => Ok(output_format.extension_for(Some(e.as_str()))),
            None => Ok(output_format.extension_for(None)),
        }
    }

    /// The extensions of the files that can be read, in small letters.
    pub fn get_supported_extensions() -> (extensions: Vec<&'static str>)
        ensures
            extensions@ == seq!["jpg", "jpeg", "png", "gif", "bmp", "tiff", "tif", "webp"],
    {
        let mut extensions: Vec<&'static str> = Vec::new();
        extensions.push("jpg");
        extensions.push("jpeg");
        extensions.push("png");
        extensions.push("gif");
        extensions.push("bmp");
        extensions.push("tiff");
        extensions.push("tif");
        extensions.push("webp");
        extensions
    }
}

} // verus!
