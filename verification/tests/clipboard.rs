use unofficial_messenger_next::clipboard::{
    clipboard_image_from_bytes, clipboard_image_source, has_image_extension,
    image_bytes_from_data_url, image_bytes_from_download, image_download_url,
    is_allowed_image_url, is_image_asset_host, is_messenger_or_facebook_host,
    path_contains_media_route, ImageSource, MAX_IMAGE_BYTES,
};
use unofficial_messenger_next::web_url::WebUrl;

const PNG_2X1: [u8; 71] = [
    137, 80, 78, 71, 13, 10, 26, 10, 0, 0, 0, 13, 73, 72, 68, 82, 0, 0, 0, 2, 0, 0, 0, 1, 8, 6, 0,
    0, 0, 244, 34, 127, 138, 0, 0, 0, 14, 73, 68, 65, 84, 120, 156, 99, 248, 207, 192, 0, 66, 13,
    0, 15, 122, 3, 126, 119, 233, 127, 151, 0, 0, 0, 0, 73, 69, 78, 68, 174, 66, 96, 130,
];
const PNG_2X1_BASE64: &str =
    "iVBORw0KGgoAAAANSUhEUgAAAAIAAAABCAYAAAD0In+KAAAADklEQVR4nGP4z8AAQg0AD3oDfnfpf5cAAAAASUVORK5CYII=";

fn https(host: &str, path: &str) -> WebUrl {
    WebUrl {
        scheme: "https".to_string(),
        host: Some(host.to_string()),
        path: path.to_string(),
        query: None,
    }
}

#[test]
fn asset_hosts() {
    assert!(is_image_asset_host("scontent-lax3-1.xx.fbcdn.net"));
    assert!(is_image_asset_host("static.fbcdn.net"));
    assert!(is_image_asset_host("scontent.example"));
    assert!(is_image_asset_host("lookaside.fbsbx.com"));
    assert!(!is_image_asset_host("fbcdn.net"));
    assert!(!is_image_asset_host("example.com"));
}

#[test]
fn messenger_host_names() {
    assert!(is_messenger_or_facebook_host("messenger.com"));
    assert!(is_messenger_or_facebook_host("www.facebook.com"));
    assert!(!is_messenger_or_facebook_host("facebook.com.evil.net"));
}

#[test]
fn image_extensions() {
    for path in ["/a.avif", "/a.gif", "/a.jpg", "/a.jpeg", "/a.png", "/a.webp"] {
        assert!(has_image_extension(path), "{path}");
    }
    assert!(!has_image_extension("/a.svg"));
    assert!(!has_image_extension("/png"));
}

#[test]
fn media_routes() {
    assert!(path_contains_media_route("/photo/123"));
    assert!(path_contains_media_route("/messages/attachments/9"));
    assert!(path_contains_media_route("/photo.php"));
    assert!(!path_contains_media_route("/photos"));
    assert!(!path_contains_media_route("/t/1"));
}

#[test]
fn allowed_image_urls() {
    assert!(is_allowed_image_url(&https("SCONTENT.xx.fbcdn.net", "/v/x")));
    assert!(is_allowed_image_url(&https("www.messenger.com", "/Photo.PHP")));
    assert!(is_allowed_image_url(&https("www.facebook.com", "/a/b.JPG")));
    assert!(is_allowed_image_url(&https("www.facebook.com", "/ajax/mercury/attachments/1")));
    assert!(!is_allowed_image_url(&https("www.facebook.com", "/t/1")));
    assert!(!is_allowed_image_url(&https("example.com", "/a.png")));
    let mut plain = https("scontent.xx.fbcdn.net", "/a.png");
    plain.scheme = "http".to_string();
    assert!(!is_allowed_image_url(&plain));
}

#[test]
fn data_url_decodes() {
    let data_url = format!("DATA:IMAGE/PNG;BASE64,{PNG_2X1_BASE64}");
    assert_eq!(image_bytes_from_data_url(&data_url), Ok(PNG_2X1.to_vec()));
    assert_eq!(image_bytes_from_data_url("data:image/gif;charset=x;base64,aGk="), Ok(b"hi".to_vec()));
}

#[test]
fn data_url_errors() {
    assert_eq!(image_bytes_from_data_url("no comma"), Err("Invalid image data".to_string()));
    assert_eq!(image_bytes_from_data_url("data:text/plain;base64,aGk="), Err("Invalid image data".to_string()));
    assert_eq!(image_bytes_from_data_url("data:image/png,aGk="), Err("Invalid image data".to_string()));
    assert_eq!(image_bytes_from_data_url("data:image/png;base64,"), Err("Image data is empty".to_string()));
    assert_eq!(
        image_bytes_from_data_url("data:image/png;base64,a,b"),
        Err("Could not read image data: Invalid symbol 44, offset 1.".to_string())
    );
}

#[test]
fn download_urls() {
    assert_eq!(
        image_download_url("https://SCONTENT.xx.fbcdn.net/a.jpg"),
        Ok("https://scontent.xx.fbcdn.net/a.jpg".to_string())
    );
    assert_eq!(image_download_url("not a url"), Err("Invalid image URL".to_string()));
    assert_eq!(image_download_url("https://example.com/a.png"), Err("Unsupported image URL".to_string()));
}

#[test]
fn download_results() {
    assert_eq!(
        image_bytes_from_download(false, "404 Not Found", vec![1]),
        Err("Could not download image: HTTP 404 Not Found".to_string())
    );
    assert_eq!(image_bytes_from_download(true, "200 OK", vec![]), Err("Downloaded image is empty".to_string()));
    assert_eq!(image_bytes_from_download(true, "200 OK", vec![1, 2]), Ok(vec![1, 2]));
}

#[test]
fn image_sources() {
    assert_eq!(clipboard_image_source(None, None).err(), Some("Missing image data".to_string()));
    match clipboard_image_source(Some("data:image/png;base64,aGk=".to_string()), Some("x".to_string())) {
        Ok(ImageSource::Bytes(bytes)) => assert_eq!(bytes, b"hi".to_vec()),
        _ => panic!("expected bytes"),
    }
    match clipboard_image_source(None, Some("https://scontent.xx.fbcdn.net/a.jpg".to_string())) {
        Ok(ImageSource::Download(url)) => assert_eq!(url, "https://scontent.xx.fbcdn.net/a.jpg"),
        _ => panic!("expected a download"),
    }
    assert_eq!(
        clipboard_image_source(None, Some("ftp://x".to_string())).err(),
        Some("Unsupported image URL".to_string())
    );
}

#[test]
fn image_decoding() {
    let image = clipboard_image_from_bytes(&PNG_2X1.to_vec()).expect("decodes");
    assert_eq!((image.width, image.height), (2, 1));
    assert_eq!(image.rgba, vec![255, 0, 0, 255, 0, 0, 255, 128]);
    let error = clipboard_image_from_bytes(&vec![1, 2, 3]).err().expect("fails");
    assert!(error.starts_with("Could not decode image: "), "{error}");
}

#[test]
fn image_size_limit() {
    let big = vec![0u8; MAX_IMAGE_BYTES + 1];
    assert_eq!(clipboard_image_from_bytes(&big).err(), Some("Image is too large to copy".to_string()));
    assert_eq!(MAX_IMAGE_BYTES, 32 * 1024 * 1024);
}
