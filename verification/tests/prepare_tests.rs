use asset_upload::api::{CreatorType, RobloxApiClient, RobloxApiError};
use asset_upload::commands::upload_image::{prepare_image, upload_image, ImageError, StartError};
use asset_upload::header::Secret;
use asset_upload::http::{Action, Body, PartContent};
use asset_upload::options::{GlobalOptions, UploadImageOptions};
use image::codecs::png::PngEncoder;
use image::{ColorType, ImageEncoder};

fn png(width: u32, height: u32, rgba: &[u8]) -> Vec<u8> {
    let mut file = Vec::new();
    PngEncoder::new(&mut file)
        .write_image(rgba, width, height, ColorType::Rgba8)
        .expect("the test image is written as PNG");
    file
}

fn rgba_of(file: &[u8]) -> (u32, u32, Vec<u8>) {
    let img = image::load_from_memory(file).expect("the result is an image").into_rgba8();
    (img.width(), img.height(), img.into_raw())
}

#[test]
fn prepared_image_is_bled_and_written_as_png() {
    let file = png(2, 1, &[255, 0, 0, 255, 0, 0, 0, 0]);
    let prepared = prepare_image(&file).expect("a PNG file is accepted");
    assert_eq!(&prepared[..8], &[0x89, b'P', b'N', b'G', 0x0d, 0x0a, 0x1a, 0x0a]);
    assert_eq!(rgba_of(&prepared), (2, 1, vec![255, 0, 0, 255, 255, 0, 0, 0]));
}

#[test]
fn prepared_image_keeps_a_transparent_pixel() {
    let file = png(1, 1, &[9, 8, 7, 0]);
    let prepared = prepare_image(&file).expect("a PNG file is accepted");
    assert_eq!(rgba_of(&prepared), (1, 1, vec![9, 8, 7, 0]));
}

#[test]
fn prepared_image_is_the_same_each_time() {
    let file = png(2, 2, &[1, 2, 3, 0, 4, 5, 6, 7, 8, 9, 10, 0, 11, 12, 13, 255]);
    let first = prepare_image(&file).expect("a PNG file is accepted");
    let second = prepare_image(&file).expect("a PNG file is accepted");
    assert_eq!(first, second);
    assert_eq!(rgba_of(&first), (2, 2, vec![4, 5, 6, 0, 4, 5, 6, 7, 11, 12, 13, 0, 11, 12, 13, 255]));
}

#[test]
fn image_without_alpha_becomes_opaque_rgba() {
    let mut file = Vec::new();
    PngEncoder::new(&mut file)
        .write_image(&[10, 20, 30, 40, 50, 60], 2, 1, ColorType::Rgb8)
        .expect("the test image is written as PNG");
    let prepared = prepare_image(&file).expect("a PNG file is accepted");
    assert_eq!(rgba_of(&prepared), (2, 1, vec![10, 20, 30, 255, 40, 50, 60, 255]));
}

#[test]
fn image_in_another_format_is_accepted() {
    let picture = image::RgbaImage::from_raw(2, 1, vec![255, 0, 0, 255, 0, 0, 0, 0])
        .expect("eight bytes for two pixels");
    let mut file = std::io::Cursor::new(Vec::new());
    image::DynamicImage::ImageRgba8(picture)
        .write_to(&mut file, image::ImageFormat::Bmp)
        .expect("the test image is written as BMP");
    let prepared = prepare_image(file.get_ref()).expect("a BMP file is accepted");
    assert_eq!(&prepared[..8], &[0x89, b'P', b'N', b'G', 0x0d, 0x0a, 0x1a, 0x0a]);
    assert_eq!(rgba_of(&prepared), (2, 1, vec![255, 0, 0, 255, 255, 0, 0, 0]));
}

#[test]
fn file_that_is_no_image_is_refused() {
    assert_eq!(prepare_image(b"not an image"), Err(ImageError::Decode));
    assert_eq!(prepare_image(&[]), Err(ImageError::Decode));
    let file = png(2, 1, &[255, 0, 0, 255, 0, 0, 0, 0]);
    assert_eq!(prepare_image(&file[..file.len() / 2]), Err(ImageError::Decode));
}

fn global(api_key: Option<&str>, cookie: Option<&str>) -> GlobalOptions {
    GlobalOptions {
        api_key: api_key.map(|k| Secret::new(k.to_string())),
        cookie: cookie.map(|c| Secret::new(c.to_string())),
        creator_type: CreatorType::User,
        creator_id: 1,
    }
}

fn tree() -> UploadImageOptions<'static> {
    UploadImageOptions { name: "tree", description: "a tree" }
}

#[test]
fn upload_starts_with_the_prepared_image() {
    // a 2 by 2 image with alpha 255, 0, 0, 255
    let file = png(2, 2, &[10, 20, 30, 255, 0, 0, 0, 0, 0, 0, 0, 0, 40, 50, 60, 255]);
    let (client, first) = match upload_image(&file, global(Some("k"), None), tree(), None) {
        Ok(started) => started,
        Err(error) => panic!("expected the upload to start, got {:?}", error),
    };
    assert!(matches!(client, RobloxApiClient::Web(_)));
    let request = match first {
        Action::Send(request) => request,
        other => panic!("expected a request, got {:?}", other),
    };
    assert_eq!(request.url, "https://apis.roblox.com/assets/v1/assets");
    let parts = match request.body {
        Body::Multipart(parts) => parts,
        other => panic!("expected a multipart body, got {:?}", other),
    };
    let sent = match &parts[0].content {
        PartContent::Bytes(bytes) => bytes.clone(),
        other => panic!("expected the image, got {:?}", other),
    };
    assert_eq!(sent, prepare_image(&file).expect("a PNG file is accepted"));
    assert_eq!(
        rgba_of(&sent),
        (2, 2, vec![10, 20, 30, 255, 10, 20, 30, 0, 10, 20, 30, 0, 40, 50, 60, 255])
    );
    assert!(matches!(
        &parts[1].content,
        PartContent::Text(t) if t == "{\"assetType\":\"Decal\",\"displayName\":\"tree\",\"description\":\"a tree\",\"creationContext\":{\"creator\":{\"userId\":1}}}"
    ));
}

#[test]
fn upload_without_credentials_does_not_start() {
    let file = png(1, 1, &[1, 2, 3, 4]);
    match upload_image(&file, global(None, None), tree(), None) {
        Err(StartError::Api(error)) => assert_eq!(error, RobloxApiError::MissingCredential),
        Err(other) => panic!("expected a missing credential, got {:?}", other),
        Ok((_, first)) => panic!("expected a missing credential, got {:?}", first),
    }
}

#[test]
fn upload_uses_the_discovered_cookie_last() {
    let file = png(1, 1, &[1, 2, 3, 4]);
    let found = || Some(Secret::new("found".to_string()));
    let cookie_of = |started: Result<(RobloxApiClient, Action), StartError>| match started {
        Ok((RobloxApiClient::Cookie(_), Action::Send(request))) => {
            request.headers[0].value.as_bytes().to_vec()
        }
        Ok((_, first)) => panic!("expected a request of the session protocol, got {:?}", first),
        Err(error) => panic!("expected the upload to start, got {:?}", error),
    };
    assert_eq!(
        cookie_of(upload_image(&file, global(None, None), tree(), found())),
        b".ROBLOSECURITY=found".to_vec()
    );
    assert_eq!(
        cookie_of(upload_image(&file, global(None, Some("given")), tree(), found())),
        b".ROBLOSECURITY=given".to_vec()
    );
    match upload_image(&file, global(Some("key"), Some("given")), tree(), found()) {
        Ok((RobloxApiClient::Web(_), Action::Send(request))) => {
            assert_eq!(request.headers[0].value.as_bytes(), b"key")
        }
        Ok((_, first)) => panic!("expected a request of the cloud protocol, got {:?}", first),
        Err(error) => panic!("expected the upload to start, got {:?}", error),
    }
}

#[test]
fn upload_of_a_broken_file_does_not_start() {
    match upload_image(b"not an image", global(Some("k"), None), tree(), None) {
        Err(StartError::Image(error)) => assert_eq!(error, ImageError::Decode),
        Err(other) => panic!("expected a decoding error, got {:?}", other),
        Ok((_, first)) => panic!("expected a decoding error, got {:?}", first),
    }
    // the file is looked at before the credentials
    match upload_image(b"not an image", global(None, None), tree(), None) {
        Err(StartError::Image(error)) => assert_eq!(error, ImageError::Decode),
        Err(other) => panic!("expected a decoding error, got {:?}", other),
        Ok((_, first)) => panic!("expected a decoding error, got {:?}", first),
    }
}
