//! Camera and microphone requests from the webview (calls).

use vstd::prelude::*;

use crate::navigation::spec_open_in_app;
use crate::navigation::should_open_in_app;
use crate::text::{chars_eq, chars_of};
use crate::web_url::{parse_url, parsed_url};

verus! {

/// The page at `page_uri` may use the camera and microphone: it parses as an
/// https URL on a Messenger or Facebook host.
pub open spec fn spec_trusted_media_origin(page_uri: Option<Seq<char>>) -> bool {
    match page_uri {
        None => false,
        Some(uri) => match parsed_url(uri) {
            None => false,
            Some((_, url)) => url.scheme == "https"@ && spec_open_in_app(url),
        },
    }
}

/// The answer to a permission request: `None` when it is not about call
/// media (left to the webview), otherwise whether to allow it.
pub fn call_media_permission(is_call_media_request: bool, page_uri: Option<&str>) -> (res: Option<bool>)
    ensures
        !is_call_media_request ==> res is None,
        is_call_media_request ==> res == Some(spec_trusted_media_origin(
            match page_uri {
                Some(u) => Some(u@),
                None => None,
            },
        )),
{
    if !is_call_media_request {
        return None;
    }
    let trusted = match page_uri {
        None => false,
        Some(uri) => match parse_url(uri) {
            None => false,
            Some((_, url)) => chars_eq(&chars_of(url.scheme.as_str()), &chars_of("https"))
                && should_open_in_app(&url),
        },
    };
    Some(trusted)
}

} // verus!
