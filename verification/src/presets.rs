//! Presets: a target size, whether the aspect ratio is kept, and the format
//! the output is written in.

use vstd::prelude::*;
use crate::text::{chars_of, decimal, push_decimal, push_text, string_of};

verus! {

/// The format an output is written in.
#[derive(Debug, Clone, Copy, PartialEq, Eq, Structural)]
pub enum OutputFormat {
    /// The format that the source file's extension names.
    KeepOriginal,
    Jpeg,
    Png,
    Webp,
    Bmp,
    Tiff,
}

/// A named target size with its aspect policy and output format.
#[derive(Debug, Clone, Copy, PartialEq, Eq)]
pub struct ResizePreset {
    /// Label shown to the user; it changes nothing in the result.
    pub name: &'static str,
    pub width: u32,
    pub height: u32,
    pub maintain_aspect_ratio: bool,
    pub output_format: OutputFormat,
}

/// The built-in presets, in the order in which they are offered.
pub open spec fn catalog() -> Seq<ResizePreset> {
    seq![
        (ResizePreset { name: "340×570", width: 340, height: 570, maintain_aspect_ratio: true, output_format: OutputFormat::Png }),
        (ResizePreset { name: "1040×570", width: 1040, height: 570, maintain_aspect_ratio: true, output_format: OutputFormat::Png }),
        (ResizePreset { name: "Instagram Square", width: 1080, height: 1080, maintain_aspect_ratio: false, output_format: OutputFormat::KeepOriginal }),
        (ResizePreset { name: "Instagram Story", width: 1080, height: 1920, maintain_aspect_ratio: false, output_format: OutputFormat::KeepOriginal }),
        (ResizePreset { name: "Facebook Cover", width: 820, height: 312, maintain_aspect_ratio: false, output_format: OutputFormat::KeepOriginal }),
        (ResizePreset { name: "Twitter Header", width: 1500, height: 500, maintain_aspect_ratio: false, output_format: OutputFormat::KeepOriginal }),
        (ResizePreset { name: "YouTube Thumbnail", width: 1280, height: 720, maintain_aspect_ratio: false, output_format: OutputFormat::KeepOriginal }),
        (ResizePreset { name: "HD 1080p", width: 1920, height: 1080, maintain_aspect_ratio: true, output_format: OutputFormat::KeepOriginal }),
        (ResizePreset { name: "HD 720p", width: 1280, height: 720, maintain_aspect_ratio: true, output_format: OutputFormat::KeepOriginal }),
        (ResizePreset { name: "Small Web", width: 800, height: 600, maintain_aspect_ratio: true, output_format: OutputFormat::KeepOriginal }),
        (ResizePreset { name: "Thumbnail", width: 150, height: 150, maintain_aspect_ratio: true, output_format: OutputFormat::KeepOriginal }),
    ]
}

impl ResizePreset {
    /// A preset asks for at least one pixel on each side.
    pub open spec fn is_valid(&self) -> bool {
        self.width > 0 && self.height > 0
    }

    /// Whether the preset asks for at least one pixel on each side.
    pub fn check_valid(&self) -> (valid: bool)
        ensures
            valid == self.is_valid(),
    {
        self.width > 0 && self.height > 0
    }

    /// What `custom` returns.
    pub open spec fn custom_preset(
        width: u32,
        height: u32,
        maintain_aspect_ratio: bool,
    ) -> Option<ResizePreset> {
        if width > 0 && height > 0 {
            Some(
                ResizePreset {
                    name: "Custom",
                    width,
                    height,
                    maintain_aspect_ratio,
                    output_format: OutputFormat::KeepOriginal,
                },
            )
        } else {
            None
        }
    }

    /// A preset of the caller's own size, which keeps each file's format; none
    /// where a side is zero.
    pub fn custom(width: u32, height: u32, maintain_aspect_ratio: bool) -> (preset: Option<
        ResizePreset,
    >)
        ensures
            preset == Self::custom_preset(width, height, maintain_aspect_ratio),
            preset matches Some(p) ==> p.is_valid(),
    {
        if width > 0 && height > 0 {
            Some(
                ResizePreset {
                    name: "Custom",
                    width,
                    height,
                    maintain_aspect_ratio,
                    output_format: OutputFormat::KeepOriginal,
                },
            )
        } else {
            None
        }
    }

    /// The text of `label`.
    pub open spec fn label_text(self) -> Seq<char> {
        self.name@ + " ("@ + decimal(self.width as nat) + "x"@ + decimal(self.height as nat)
            + ")"@
    }

    /// The text of `describe`.
    pub open spec fn description_text(self) -> Seq<char> {
        "Size: "@ + decimal(self.width as nat) + "x"@ + decimal(self.height as nat)
            + " (Aspect ratio: "@ + (if self.maintain_aspect_ratio {
            "maintained"@
        } else {
            "ignored"@
        }) + ")"@
    }

    /// The line under which the preset is offered: its name, and its size in
    /// brackets.
    pub fn label(&self) -> (text: String)
        ensures
            text@ == self.label_text(),
    {
        let mut text = chars_of(self.name);
        push_text(&mut text, &chars_of(" ("));
        push_decimal(&mut text, self.width as u128);
        push_text(&mut text, &chars_of("x"));
        push_decimal(&mut text, self.height as u128);
        push_text(&mut text, &chars_of(")"));
        string_of(&text)
    }

    /// The line that says what the preset does: its size, and whether the
    /// aspect ratio is kept.
    pub fn describe(&self) -> (text: String)
        ensures
            text@ == self.description_text(),
    {
        let mut text = chars_of("Size: ");
        push_decimal(&mut text, self.width as u128);
        push_text(&mut text, &chars_of("x"));
        push_decimal(&mut text, self.height as u128);
        push_text(&mut text, &chars_of(" (Aspect ratio: "));
        if self.maintain_aspect_ratio {
            push_text(&mut text, &chars_of("maintained"));
        } else {
            push_text(&mut text, &chars_of("ignored"));
        }
        push_text(&mut text, &chars_of(")"));
        string_of(&text)
    }

    /// The built-in presets.
    pub fn presets() -> (list: Vec<ResizePreset>)
        ensures
            list@ == catalog(),
    {
        let mut list: Vec<ResizePreset> = Vec::new();
        list.push(ResizePreset { name: "340×570", width: 340, height: 570, maintain_aspect_ratio: true, output_format: OutputFormat::Png });
        list.push(ResizePreset { name: "1040×570", width: 1040, height: 570, maintain_aspect_ratio: true, output_format: OutputFormat::Png });
        list.push(ResizePreset { name: "Instagram Square", width: 1080, height: 1080, maintain_aspect_ratio: false, output_format: OutputFormat::KeepOriginal });
        list.push(ResizePreset { name: "Instagram Story", width: 1080, height: 1920, maintain_aspect_ratio: false, output_format: OutputFormat::KeepOriginal });
        list.push(ResizePreset { name: "Facebook Cover", width: 820, height: 312, maintain_aspect_ratio: false, output_format: OutputFormat::KeepOriginal });
        list.push(ResizePreset { name: "Twitter Header", width: 1500, height: 500, maintain_aspect_ratio: false, output_format: OutputFormat::KeepOriginal });
        list.push(ResizePreset { name: "YouTube Thumbnail", width: 1280, height: 720, maintain_aspect_ratio: false, output_format: OutputFormat::KeepOriginal });
        list.push(ResizePreset { name: "HD 1080p", width: 1920, height: 1080, maintain_aspect_ratio: true, output_format: OutputFormat::KeepOriginal });
        list.push(ResizePreset { name: "HD 720p", width: 1280, height: 720, maintain_aspect_ratio: true, output_format: OutputFormat::KeepOriginal });
        list.push(ResizePreset { name: "Small Web", width: 800, height: 600, maintain_aspect_ratio: true, output_format: OutputFormat::KeepOriginal });
        list.push(ResizePreset { name: "Thumbnail", width: 150, height: 150, maintain_aspect_ratio: true, output_format: OutputFormat::KeepOriginal });
        list
    }
}

impl Default for ResizePreset {
    /// The first built-in preset.
    fn default() -> (preset: ResizePreset)
        ensures
            preset == catalog()[0],
    {
        ResizePreset { name: "340×570", width: 340, height: 570, maintain_aspect_ratio: true, output_format: OutputFormat::Png }
    }
}

/// Every built-in preset asks for at least one pixel on each side.
pub proof fn lemma_catalog_valid(i: int)
    requires
        0 <= i < catalog().len(),
    ensures
        catalog()[i].is_valid(),
{
}

} // verus!
