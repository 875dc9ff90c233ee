use resize_rs::error::ProcessingError;
use resize_rs::format::Codec;
use resize_rs::presets::OutputFormat;
use resize_rs::resizer::ImageResizer;

#[test]
fn every_supported_extension_names_its_codec() {
    assert_eq!(ImageResizer::get_image_format("a.jpg"), Ok(Codec::Jpeg));
    assert_eq!(ImageResizer::get_image_format("a.jpeg"), Ok(Codec::Jpeg));
    assert_eq!(ImageResizer::get_image_format("a.png"), Ok(Codec::Png));
    assert_eq!(ImageResizer::get_image_format("a.gif"), Ok(Codec::Gif));
    assert_eq!(ImageResizer::get_image_format("a.bmp"), Ok(Codec::Bmp));
    assert_eq!(ImageResizer::get_image_format("a.tiff"), Ok(Codec::Tiff));
    assert_eq!(ImageResizer::get_image_format("a.tif"), Ok(Codec::Tiff));
    assert_eq!(ImageResizer::get_image_format("a.webp"), Ok(Codec::WebP));
}

#[test]
fn supported_extensions_are_listed_and_all_resolve() {
    let extensions = ImageResizer::get_supported_extensions();
    assert_eq!(
        extensions,
        vec!["jpg", "jpeg", "png", "gif", "bmp", "tiff", "tif", "webp"]
    );
    for extension in extensions {
        assert!(Codec::from_extension(extension).is_some());
    }
}

#[test]
fn extension_case_does_not_matter() {
    assert_eq!(ImageResizer::get_image_format("dir/photo.JPG"), Ok(Codec::Jpeg));
    assert_eq!(ImageResizer::get_image_format("photo.JpEg"), Ok(Codec::Jpeg));
    assert_eq!(ImageResizer::get_image_format("photo.WEBP"), Ok(Codec::WebP));
    assert_eq!(Codec::from_extension("TiF"), Some(Codec::Tiff));
}

#[test]
fn unknown_or_missing_extension_is_unsupported() {
    assert_eq!(
        ImageResizer::get_image_format("notes.txt"),
        Err(ProcessingError::UnsupportedFormat)
    );
    assert_eq!(
        ImageResizer::get_image_format("photo"),
        Err(ProcessingError::UnsupportedFormat)
    );
    assert_eq!(
        ImageResizer::get_image_format(".png"),
        Err(ProcessingError::UnsupportedFormat)
    );
    assert_eq!(
        ImageResizer::get_image_format("photo."),
        Err(ProcessingError::UnsupportedFormat)
    );
    assert_eq!(
        ImageResizer::get_image_format(""),
        Err(ProcessingError::UnsupportedFormat)
    );
    assert_eq!(Codec::from_extension("jpgx"), None);
    assert_eq!(Codec::from_extension(""), None);
    assert_eq!(Codec::from_extension("jfif"), None);
}

#[test]
fn explicit_choice_maps_to_its_codec_whatever_the_path() {
    let cases = [
        (OutputFormat::Jpeg, Codec::Jpeg),
        (OutputFormat::Png, Codec::Png),
        (OutputFormat::Webp, Codec::WebP),
        (OutputFormat::Bmp, Codec::Bmp),
        (OutputFormat::Tiff, Codec::Tiff),
    ];
    for (choice, codec) in cases {
        assert_eq!(ImageResizer::get_output_format(&choice, "a.gif"), Ok(codec));
        assert_eq!(ImageResizer::get_output_format(&choice, "a.txt"), Ok(codec));
        assert_eq!(ImageResizer::get_output_format(&choice, "noext"), Ok(codec));
        assert_eq!(choice.codec(), Some(codec));
    }
    assert_eq!(OutputFormat::KeepOriginal.codec(), None);
}

#[test]
fn keep_original_follows_the_input_extension() {
    assert_eq!(
        ImageResizer::get_output_format(&OutputFormat::KeepOriginal, "a.gif"),
        Ok(Codec::Gif)
    );
    assert_eq!(
        ImageResizer::get_output_format(&OutputFormat::KeepOriginal, "a.txt"),
        Err(ProcessingError::UnsupportedFormat)
    );
    assert_eq!(
        ImageResizer::get_output_format(&OutputFormat::KeepOriginal, "a"),
        Err(ProcessingError::UnsupportedFormat)
    );
}

#[test]
fn explicit_extension_is_constant_over_paths() {
    let cases = [
        (OutputFormat::Jpeg, "jpg"),
        (OutputFormat::Png, "png"),
        (OutputFormat::Webp, "webp"),
        (OutputFormat::Bmp, "bmp"),
        (OutputFormat::Tiff, "tiff"),
    ];
    let paths = ["a.gif", "b.JPEG", "c", "dir/d.tif", ""];
    for (choice, extension) in cases {
        for path in paths {
            assert_eq!(
                ImageResizer::get_extension_for_format(&choice, path),
                Ok(extension.to_string())
            );
        }
        assert_eq!(choice.extension(), Some(extension));
        // the extension reads back as the codec the choice names
        assert_eq!(Codec::from_extension(extension), choice.codec());
    }
    assert_eq!(OutputFormat::KeepOriginal.extension(), None);
}

#[test]
fn keep_original_on_photo_jpg_in_capitals() {
    assert_eq!(
        ImageResizer::get_output_format(&OutputFormat::KeepOriginal, "photo.JPG"),
        Ok(Codec::Jpeg)
    );
    assert_eq!(
        ImageResizer::get_extension_for_format(&OutputFormat::KeepOriginal, "photo.JPG"),
        Ok("JPG".to_string())
    );
}

#[test]
fn keep_original_keeps_the_spelling_of_the_extension() {
    assert_eq!(
        ImageResizer::get_extension_for_format(&OutputFormat::KeepOriginal, "a.jpg"),
        Ok("jpg".to_string())
    );
    assert_eq!(
        ImageResizer::get_extension_for_format(&OutputFormat::KeepOriginal, "a.jpeg"),
        Ok("jpeg".to_string())
    );
    assert_eq!(
        ImageResizer::get_extension_for_format(&OutputFormat::KeepOriginal, "a.txt"),
        Ok("txt".to_string())
    );
    assert_eq!(
        ImageResizer::get_extension_for_format(&OutputFormat::KeepOriginal, "noext"),
        Ok(String::new())
    );
    assert_eq!(
        OutputFormat::KeepOriginal.extension_for(Some("TIF")),
        "TIF".to_string()
    );
    assert_eq!(OutputFormat::KeepOriginal.extension_for(None), String::new());
    assert_eq!(
        OutputFormat::Png.extension_for(Some("TIF")),
        "png".to_string()
    );
}
