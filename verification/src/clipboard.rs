//! Copying an image from a Messenger conversation to the clipboard: where the
//! bytes may come from (a `data:` URL or an allowed https image URL), the size
//! limit, and decoding to RGBA.

use base64::Engine;
use vstd::prelude::*;

use crate::navigation::{is_messenger_or_facebook_host_name, messenger_or_facebook_host_chars};
use crate::text::{
    ascii_lower, chars_of, contains, ends_with, find_char, first_index_of, has_infix, has_prefix,
    has_suffix, join_text, slice_chars, starts_with, string_of, to_ascii_lowercase,
};
use crate::web_url::{parse_url, parsed_url, WebUrl, WebUrlView};

verus! {

/// Largest image, in bytes, that is copied.
pub const MAX_IMAGE_BYTES: usize = 32 * 1024 * 1024;

// ---------------------------------------------------------------------------
// Outside calls
// ---------------------------------------------------------------------------

/// What the standard base64 engine of the `base64` crate makes of `payload`:
/// the decoded bytes, or the text of its `DecodeError`.
pub uninterp spec fn base64_standard_decoded(payload: Seq<char>) -> Result<Seq<u8>, Seq<char>>;

/// Calls `base64::engine::general_purpose::STANDARD.decode` (padded standard
/// alphabet). The contract names the outcome `base64_standard_decoded`; which
/// inputs decode to what is not stated.
#[verifier::external_body]
fn base64_decode(payload: &str) -> (res: Result<Vec<u8>, String>)
    ensures
        match res {
            Ok(bytes) => base64_standard_decoded(payload@) == Ok::<Seq<u8>, Seq<char>>(bytes@),
            Err(e) => base64_standard_decoded(payload@) == Err::<Seq<u8>, Seq<char>>(e@),
        },
{
    match base64::engine::general_purpose::STANDARD.decode(payload) {
        Ok(bytes) => Ok(bytes),
        Err(error) => Err(error.to_string()),
    }
}

/// What `image::load_from_memory` followed by `to_rgba8` makes of `bytes`:
/// width, height and RGBA8 pixel data, or the text of the `ImageError`.
pub uninterp spec fn decoded_rgba8(bytes: Seq<u8>) -> Result<(u32, u32, Seq<u8>), Seq<char>>;

/// Calls `image::load_from_memory` and converts the image with `to_rgba8`.
/// The contract names the outcome `decoded_rgba8`; which formats decode and
/// the pixel values are not stated.
#[verifier::external_body]
fn decode_image_rgba8(bytes: &Vec<u8>) -> (res: Result<(u32, u32, Vec<u8>), String>)
    ensures
        match res {
            Ok((w, h, data)) => decoded_rgba8(bytes@) == Ok::<(u32, u32, Seq<u8>), Seq<char>>((w, h, data@)),
            Err(e) => decoded_rgba8(bytes@) == Err::<(u32, u32, Seq<u8>), Seq<char>>(e@),
        },
{
    match image::load_from_memory(bytes) {
        Ok(image) => {
            let rgba = image.to_rgba8();
            let (width, height) = rgba.dimensions();
            Ok((width, height, rgba.into_raw()))
        },
        Err(error) => Err(error.to_string()),
    }
}

// ---------------------------------------------------------------------------
// Specifications
// ---------------------------------------------------------------------------

/// A host that serves Facebook's image assets.
pub open spec fn spec_image_asset_host(host: Seq<char>) -> bool {
    ||| has_suffix(host, ".fbcdn.net"@)
    ||| has_infix(host, ".xx.fbcdn.net"@)
    ||| has_prefix(host, "scontent."@)
    ||| has_prefix(host, "lookaside."@)
}

/// The image file extensions that are accepted.
pub open spec fn image_extension_at(i: int) -> Seq<char> {
    if i == 0 {
        ".avif"@
    } else if i == 1 {
        ".gif"@
    } else if i == 2 {
        ".jpg"@
    } else if i == 3 {
        ".jpeg"@
    } else if i == 4 {
        ".png"@
    } else {
        ".webp"@
    }
}

/// The path ends with an image file extension.
pub open spec fn spec_image_extension(path: Seq<char>) -> bool {
    exists|i: int| 0 <= i < 6 && #[trigger] has_suffix(path, image_extension_at(i))
}

/// The path segments under which Messenger serves media.
pub open spec fn media_route_at(i: int) -> Seq<char> {
    if i == 0 {
        "/photo"@
    } else if i == 1 {
        "/photos"@
    } else if i == 2 {
        "/media"@
    } else if i == 3 {
        "/image"@
    } else if i == 4 {
        "/attachment"@
    } else {
        "/attachments"@
    }
}

/// Some media route occurs in the path followed by '/' or by ".php".
pub open spec fn spec_media_route(path: Seq<char>) -> bool {
    exists|i: int|
        0 <= i < 6 && (#[trigger] has_infix(path, media_route_at(i).push('/')) || has_infix(
            path,
            media_route_at(i) + ".php"@,
        ))
}

/// An https URL of a Facebook image asset, or of an image or media page on a
/// Messenger/Facebook host.
pub open spec fn spec_allowed_image_url(url: WebUrlView) -> bool {
    &&& url.scheme == "https"@
    &&& url.host is Some
    &&& {
        let host = ascii_lower(url.host->0);
        let path = ascii_lower(url.path);
        ||| spec_image_asset_host(host)
        ||| is_messenger_or_facebook_host_name(host) && (spec_image_extension(path)
            || spec_media_route(path) || has_infix(path, "/ajax/mercury/attachments/"@))
    }
}

/// The bytes of a base64 `data:image/...` URL, or the message for the user.
pub open spec fn spec_image_bytes_from_data_url(data_url: Seq<char>) -> Result<Seq<u8>, Seq<char>> {
    match first_index_of(data_url, ',') {
        None => Err("Invalid image data"@),
        Some(comma) => {
            let metadata = ascii_lower(data_url.subrange(0, comma));
            let payload = data_url.subrange(comma + 1, data_url.len() as int);
            if !has_prefix(metadata, "data:image/"@) || !has_infix(metadata, ";base64"@) {
                Err("Invalid image data"@)
            } else {
                match base64_standard_decoded(payload) {
                    Err(e) => Err("Could not read image data: "@ + e),
                    Ok(bytes) => if bytes.len() == 0 {
                        Err("Image data is empty"@)
                    } else {
                        Ok(bytes)
                    },
                }
            }
        },
    }
}

/// The URL to download for an image URL given by the page, or the message.
pub open spec fn spec_image_download_url(image_url: Seq<char>) -> Result<Seq<char>, Seq<char>> {
    match parsed_url(image_url) {
        None => Err("Invalid image URL"@),
        Some((href, url)) => if spec_allowed_image_url(url) {
            Ok(href)
        } else {
            Err("Unsupported image URL"@)
        },
    }
}

/// The view of a byte result.
pub open spec fn bytes_result_view(r: Result<Vec<u8>, String>) -> Result<Seq<u8>, Seq<char>> {
    match r {
        Ok(b) => Ok(b@),
        Err(e) => Err(e@),
    }
}

/// The view of a text result.
pub open spec fn text_result_view(r: Result<String, String>) -> Result<Seq<char>, Seq<char>> {
    match r {
        Ok(t) => Ok(t@),
        Err(e) => Err(e@),
    }
}

// ---------------------------------------------------------------------------
// Host and path checks
// ---------------------------------------------------------------------------

/// Whether `host` (lower case) serves Facebook image assets.
pub fn is_image_asset_host(host: &str) -> (res: bool)
    ensures
        res == spec_image_asset_host(host@),
{
    let h = chars_of(host);
    ends_with(&h, &chars_of(".fbcdn.net")) || contains(&h, &chars_of(".xx.fbcdn.net"))
        || starts_with(&h, &chars_of("scontent.")) || starts_with(&h, &chars_of("lookaside."))
}

/// Whether `host` (lower case) belongs to Messenger or Facebook.
pub fn is_messenger_or_facebook_host(host: &str) -> (res: bool)
    ensures
        res == is_messenger_or_facebook_host_name(host@),
{
    messenger_or_facebook_host_chars(&chars_of(host))
}

/// The `i`-th accepted image extension.
fn image_extension(i: usize) -> (res: &'static str)
    requires
        i < 6,
    ensures
        res@ == image_extension_at(i as int),
{
    if i == 0 {
        ".avif"
    } else if i == 1 {
        ".gif"
    } else if i == 2 {
        ".jpg"
    } else if i == 3 {
        ".jpeg"
    } else if i == 4 {
        ".png"
    } else {
        ".webp"
    }
}

/// Whether `path` ends with an image file extension.
pub fn has_image_extension(path: &str) -> (res: bool)
    ensures
        res == spec_image_extension(path@),
{
    let p = chars_of(path);
    let mut i: usize = 0;
    while i < 6
        invariant
            i <= 6,
            p@ == path@,
            forall|k: int| 0 <= k < i ==> !#[trigger] has_suffix(path@, image_extension_at(k)),
        decreases 6 - i,
    {
        if ends_with(&p, &chars_of(image_extension(i))) {
            return true;
        }
        i = i + 1;
    }
    false
}

/// The `i`-th media route.
fn media_route(i: usize) -> (res: &'static str)
    requires
        i < 6,
    ensures
        res@ == media_route_at(i as int),
{
    if i == 0 {
        "/photo"
    } else if i == 1 {
        "/photos"
    } else if i == 2 {
        "/media"
    } else if i == 3 {
        "/image"
    } else if i == 4 {
        "/attachment"
    } else {
        "/attachments"
    }
}

/// Whether `path` contains a media route followed by '/' or ".php".
pub fn path_contains_media_route(path: &str) -> (res: bool)
    ensures
        res == spec_media_route(path@),
{
    let p = chars_of(path);
    let mut i: usize = 0;
    while i < 6
        invariant
            i <= 6,
            p@ == path@,
            forall|k: int|
                0 <= k < i ==> !(#[trigger] has_infix(path@, media_route_at(k).push('/')) || has_infix(
                    path@,
                    media_route_at(k) + ".php"@,
                )),
        decreases 6 - i,
    {
        let mut with_slash = chars_of(media_route(i));
        with_slash.push('/');
        let with_php = chars_of(join_text(media_route(i), ".php").as_str());
        if contains(&p, &with_slash) || contains(&p, &with_php) {
            return true;
        }
        i = i + 1;
    }
    false
}

/// Whether an image may be downloaded from `url`: https, and either a Facebook
/// image asset host or an image or media path on a Messenger/Facebook host.
pub fn is_allowed_image_url(url: &WebUrl) -> (res: bool)
    ensures
        res == spec_allowed_image_url(url@),
{
    let scheme = chars_of(url.scheme.as_str());
    if !crate::text::chars_eq(&scheme, &chars_of("https")) {
        return false;
    }
    let host = match &url.host {
        Some(h) => string_of(&to_ascii_lowercase(&chars_of(h.as_str()))),
        None => return false,
    };
    let path = string_of(&to_ascii_lowercase(&chars_of(url.path.as_str())));
    is_image_asset_host(host.as_str()) || (is_messenger_or_facebook_host(host.as_str()) && (
    has_image_extension(path.as_str()) || path_contains_media_route(path.as_str()) || contains(
        &chars_of(path.as_str()),
        &chars_of("/ajax/mercury/attachments/"),
    )))
}

// ---------------------------------------------------------------------------
// Getting the bytes
// ---------------------------------------------------------------------------

/// The image bytes carried by a base64 `data:image/...` URL.
pub fn image_bytes_from_data_url(data_url: &str) -> (res: Result<Vec<u8>, String>)
    ensures
        bytes_result_view(res) == spec_image_bytes_from_data_url(data_url@),
{
    let d = chars_of(data_url);
    let comma = match find_char(&d, ',') {
        Some(i) => i,
        None => return Err(string_of(&chars_of("Invalid image data"))),
    };
    let metadata = to_ascii_lowercase(&slice_chars(&d, 0, comma));
    let payload = string_of(&slice_chars(&d, comma + 1, d.len()));
    if !starts_with(&metadata, &chars_of("data:image/")) || !contains(&metadata, &chars_of(";base64")) {
        return Err(string_of(&chars_of("Invalid image data")));
    }
    match base64_decode(payload.as_str()) {
        Err(e) => Err(join_text("Could not read image data: ", e.as_str())),
        Ok(bytes) => if bytes.len() == 0 {
            Err(string_of(&chars_of("Image data is empty")))
        } else {
            Ok(bytes)
        },
    }
}

/// The URL to download for an image URL given by the page: its serialization
/// when it parses and is allowed.
pub fn image_download_url(image_url: &str) -> (res: Result<String, String>)
    ensures
        text_result_view(res) == spec_image_download_url(image_url@),
{
    match parse_url(image_url) {
        None => Err(string_of(&chars_of("Invalid image URL"))),
        Some((href, url)) => if is_allowed_image_url(&url) {
            Ok(href)
        } else {
            Err(string_of(&chars_of("Unsupported image URL")))
        },
    }
}

/// The body of the image download, checked: the response must be a success
/// and not empty. `status` is the response status as the user sees it.
pub fn image_bytes_from_download(success: bool, status: &str, bytes: Vec<u8>) -> (res: Result<Vec<u8>, String>)
    ensures
        !success ==> bytes_result_view(res) == Err::<Seq<u8>, Seq<char>>("Could not download image: HTTP "@ + status@),
        success && bytes@.len() == 0 ==> bytes_result_view(res) == Err::<Seq<u8>, Seq<char>>("Downloaded image is empty"@),
        success && bytes@.len() > 0 ==> bytes_result_view(res) == Ok::<Seq<u8>, Seq<char>>(bytes@),
{
    if !success {
        return Err(join_text("Could not download image: HTTP ", status));
    }
    if bytes.len() == 0 {
        return Err(string_of(&chars_of("Downloaded image is empty")));
    }
    Ok(bytes)
}

/// Where the bytes of an image to copy come from.
pub enum ImageSource {
    /// The bytes themselves, from a `data:` URL.
    Bytes(Vec<u8>),
    /// Download them from this (allowed) URL.
    Download(String),
}

/// The view of an [`ImageSource`] result.
pub open spec fn source_result_view(r: Result<ImageSource, String>) -> Result<Result<Seq<u8>, Seq<char>>, Seq<char>> {
    match r {
        Ok(ImageSource::Bytes(b)) => Ok(Ok(b@)),
        Ok(ImageSource::Download(u)) => Ok(Err(u@)),
        Err(e) => Err(e@),
    }
}

/// Where the image comes from: the data URL when the page sent one, else the
/// image URL; `Ok(Ok(bytes))` for bytes at hand, `Ok(Err(url))` for a download.
pub open spec fn spec_clipboard_image_source(
    image_data_url: Option<Seq<char>>,
    image_url: Option<Seq<char>>,
) -> Result<Result<Seq<u8>, Seq<char>>, Seq<char>> {
    match image_data_url {
        Some(d) => match spec_image_bytes_from_data_url(d) {
            Ok(b) => Ok(Ok(b)),
            Err(e) => Err(e),
        },
        None => match image_url {
            None => Err("Missing image data"@),
            Some(u) => match spec_image_download_url(u) {
                Ok(href) => Ok(Err(href)),
                Err(e) => Err(e),
            },
        },
    }
}

/// First step of copying an image: the bytes from the data URL, or the URL to
/// download when only an image URL was given.
pub fn clipboard_image_source(image_data_url: Option<String>, image_url: Option<String>) -> (res: Result<ImageSource, String>)
    ensures
        source_result_view(res) == spec_clipboard_image_source(
            crate::web_url::opt_view(image_data_url),
            crate::web_url::opt_view(image_url),
        ),
{
    match image_data_url {
        Some(data_url) => match image_bytes_from_data_url(data_url.as_str()) {
            Ok(bytes) => Ok(ImageSource::Bytes(bytes)),
            Err(e) => Err(e),
        },
        None => match image_url {
            None => Err(string_of(&chars_of("Missing image data"))),
            Some(u) => match image_download_url(u.as_str()) {
                Ok(href) => Ok(ImageSource::Download(href)),
                Err(e) => Err(e),
            },
        },
    }
}

/// A decoded image ready for the clipboard.
pub struct ClipboardImage {
    pub width: usize,
    pub height: usize,
    /// RGBA8 pixels, row by row.
    pub rgba: Vec<u8>,
}

/// Last step of copying an image: refuse images over [`MAX_IMAGE_BYTES`], then
/// decode to RGBA8.
pub fn clipboard_image_from_bytes(bytes: &Vec<u8>) -> (res: Result<ClipboardImage, String>)
    ensures
        bytes@.len() > MAX_IMAGE_BYTES ==> (res matches Err(e) && e@ == "Image is too large to copy"@),
        bytes@.len() <= MAX_IMAGE_BYTES ==> match decoded_rgba8(bytes@) {
            Err(msg) => (res matches Err(e) && e@ == "Could not decode image: "@ + msg),
            Ok((w, h, data)) => (res matches Ok(image) && image.width == w && image.height == h
                && image.rgba@ == data),
        },
{
    if bytes.len() > MAX_IMAGE_BYTES {
        return Err(string_of(&chars_of("Image is too large to copy")));
    }
    match decode_image_rgba8(bytes) {
        Err(e) => Err(join_text("Could not decode image: ", e.as_str())),
        Ok((width, height, rgba)) => Ok(ClipboardImage { width: width as usize, height: height as usize, rgba }),
    }
}

// ---------------------------------------------------------------------------
// Laws
// ---------------------------------------------------------------------------

/// Images are only downloaded over https, and only from a URL that parsed
/// and passed [`is_allowed_image_url`].
pub proof fn law_downloads_are_checked(image_url: Seq<char>)
    ensures
        spec_image_download_url(image_url) matches Ok(href) ==> (parsed_url(image_url) matches Some((h, url))
            && h == href && spec_allowed_image_url(url) && url.scheme == "https"@),
{
}

/// The bytes taken from a data URL are never empty.
pub proof fn law_data_url_bytes_are_not_empty(data_url: Seq<char>)
    ensures
        spec_image_bytes_from_data_url(data_url) matches Ok(bytes) ==> bytes.len() > 0,
{
}

/// A data URL, when given, is what is used, even if an image URL comes along.
pub proof fn law_data_url_takes_precedence(data_url: Seq<char>, image_url: Option<Seq<char>>)
    ensures
        spec_clipboard_image_source(Some(data_url), image_url) == spec_clipboard_image_source(
            Some(data_url),
            None,
        ),
{
}

} // verus!
