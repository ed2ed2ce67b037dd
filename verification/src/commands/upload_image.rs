//! Uploading one image: the file is decoded, alpha-bled and written as PNG
//! before it goes to the service, and the asset's id is printed as an asset
//! address.

use crate::alpha_bleed::{alpha_bleed, bled};
use crate::api::errors::{ErrorView, RobloxApiError};
use crate::api::{cookie, starts, web, ClientView, Creator, ImageData, RobloxApiClient};
use crate::auth::resolve;
use crate::header::Secret;
use crate::http::Action;
use crate::options::{GlobalOptions, UploadImageOptions};
use crate::raster::{pixels_of, rgba_bytes, Image};
use crate::text::{decimal, to_decimal};
use image::codecs::png::PngEncoder;
use image::{ColorType, ImageEncoder};
use vstd::prelude::*;
use vstd::string::StringExecFns;

verus! {

/// The width, the height and the RGBA bytes that the bytes of an image file
/// decode to, if they decode.
pub uninterp spec fn decoded_rgba(file: Seq<u8>) -> Option<(u32, u32, Seq<u8>)>;

/// The PNG file that holds the given RGBA bytes as an image of the given
/// width and height, if there is one.
pub uninterp spec fn png_file(rgba: Seq<u8>, width: u32, height: u32) -> Option<Seq<u8>>;

/// Why an image file could not be made ready for upload.
#[derive(Debug, Clone, Copy, PartialEq, Eq, Structural)]
pub enum ImageError {
    /// The file is no image that can be decoded.
    Decode,
    /// The image could not be written as PNG.
    Encode,
}

/// `image::load_from_memory`, then `DynamicImage::into_rgba8`: the image in
/// the file as width, height and RGBA bytes. The same file always decodes
/// to the same image, or never decodes.
#[verifier::external_body]
fn decode(file: &[u8]) -> (r: Option<(u32, u32, Vec<u8>)>)
    ensures
        match r {
            Some(t) => decoded_rgba(file@) == Some((t.0, t.1, t.2@)),
            None => decoded_rgba(file@) is None,
        },
{
    let img = image::load_from_memory(file).ok()?.into_rgba8();
    Some((img.width(), img.height(), img.into_raw()))
}

/// `PngEncoder::write_image` with colour type `Rgba8`, into a new buffer.
/// It wants four bytes for each pixel. The same image is always written as
/// the same file, or never written.
#[verifier::external_body]
fn encode(rgba: &[u8], width: u32, height: u32) -> (r: Option<Vec<u8>>)
    requires
        rgba@.len() == 4 * (width * height),
    ensures
        match r {
            Some(file) => png_file(rgba@, width, height) == Some(file@),
            None => png_file(rgba@, width, height) is None,
        },
{
    let mut file = Vec::new();
    PngEncoder::new(&mut file).write_image(rgba, width, height, ColorType::Rgba8).ok()?;
    Some(file)
}

/// The file that goes to the service for an image file: the image in it,
/// alpha-bled, as PNG.
pub open spec fn prepared(file: Seq<u8>) -> Result<Seq<u8>, ImageError> {
    match decoded_rgba(file) {
        None => Err(ImageError::Decode),
        Some((width, height, rgba)) => if rgba.len() != 4 * (width * height) {
            Err(ImageError::Decode)
        } else {
            match png_file(rgba_bytes(bled(width as int, pixels_of(rgba))), width, height) {
                Some(png) => Ok(png),
                None => Err(ImageError::Encode),
            }
        },
    }
}

/// Makes an image file ready for upload: decodes it, bleeds the colours
/// into the fully transparent pixels, and writes the result as PNG.
pub fn prepare_image(file: &[u8]) -> (r: Result<Vec<u8>, ImageError>)
    ensures
        match prepared(file@) {
            Ok(png) => r matches Ok(out) && out@ == png,
            Err(e) => r == Err::<Vec<u8>, ImageError>(e),
        },
{
    let (width, height, rgba) = match decode(file) {
        Some(decoded) => decoded,
        None => {
            return Err(ImageError::Decode);
        },
    };
    let mut img = match Image::from_rgba(width, height, rgba.as_slice()) {
        Some(img) => img,
        None => {
            return Err(ImageError::Decode);
        },
    };
    alpha_bleed(&mut img);
    let bytes = img.to_rgba();
    match encode(bytes.as_slice(), width, height) {
        Some(png) => Ok(png),
        None => Err(ImageError::Encode),
    }
}

/// Why an upload did not start.
#[derive(Debug)]
pub enum StartError {
    /// The file could not be made ready.
    Image(ImageError),
    /// No client could be made for the upload.
    Api(RobloxApiError),
}

/// The client that uploads for the given credentials, before it has
/// started: one with the API key where there is one, else one with the
/// cookie that was given, else one with the cookie that was discovered.
pub open spec fn first_client(api_key: Option<Secret>, cookie: Option<Secret>, discovered: Option<Secret>) -> Option<
    ClientView,
> {
    match api_key {
        Some(key) => Some(ClientView::Web(web::idle(key@))),
        None => match cookie {
            Some(given) => Some(ClientView::Cookie(cookie::idle(given@))),
            None => match discovered {
                Some(found) => Some(ClientView::Cookie(cookie::idle(found@))),
                None => None,
            },
        },
    }
}

/// Starts the upload of the image in `file`. The file is decoded, alpha-bled
/// and written as PNG first; then the credential is chosen and the client
/// is made; then the upload starts, and the client comes back with what it
/// wants sent first. `discovered` is the session cookie that was found
/// where neither a key nor a cookie was given.
pub fn upload_image(
    file: &[u8],
    global: GlobalOptions,
    options: UploadImageOptions,
    discovered: Option<Secret>,
) -> (r: Result<(RobloxApiClient, Action), StartError>)
    ensures
        match prepared(file@) {
            Err(e) => r matches Err(StartError::Image(x)) && x == e,
            Ok(png) => match first_client(global.api_key, global.cookie, discovered) {
                None => r matches Err(StartError::Api(x)) && x@ == ErrorView::MissingCredential,
                Some(before) => r matches Ok(pair) && starts(
                    before,
                    pair.0@,
                    pair.1@,
                    png,
                    ImageData {
                        name: options.name,
                        description: options.description,
                        creator: Creator { creator_type: global.creator_type, creator_id: global.creator_id },
                    },
                    false,
                ),
            },
        },
{
    let png = match prepare_image(file) {
        Ok(png) => png,
        Err(e) => {
            return Err(StartError::Image(e));
        },
    };
    let data = options.describe(global.creator());
    let credential = match resolve(global.api_key, global.cookie, discovered) {
        Ok(credential) => credential,
        Err(e) => {
            return Err(StartError::Api(e));
        },
    };
    let mut client = RobloxApiClient::from_credential(credential);
    let action = client.upload_asset(png, data);
    Ok((client, action))
}

/// The address of an asset: `rbxassetid://` and the id in decimal.
pub open spec fn asset_address(asset_id: u64) -> Seq<char> {
    "rbxassetid://"@ + decimal(asset_id as nat)
}

/// Writes the address under which an uploaded asset is used.
pub fn asset_url(asset_id: u64) -> (url: String)
    ensures
        url@ == asset_address(asset_id),
{
    let mut url = "rbxassetid://".to_owned();
    let id = to_decimal(asset_id);
    url.append(id.as_str());
    url
}

} // verus!
