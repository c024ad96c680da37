//! Reachability of an image URL, judged from the outcome of a request for
//! its headers.

use vstd::prelude::*;

verus! {

/// Seconds after which a request for an image's headers is given up.
pub const IMAGE_CHECK_TIMEOUT_SECS: u64 = 10;

/// What the check of one image URL found.
#[derive(Debug, Clone, PartialEq)]
pub enum ImageCheck {
    /// The server answered with a success status.
    Accessible,
    /// The server answered, with another status.
    Inaccessible,
    /// No answer came: the request failed on the way, for the reason given.
    TransportFailed(String),
}

/// Mathematical view of [`ImageCheck`].
pub enum ImageCheckView {
    Accessible,
    Inaccessible,
    TransportFailed(Seq<char>),
}

impl View for ImageCheck {
    type V = ImageCheckView;

    open spec fn view(&self) -> ImageCheckView {
        match self {
            ImageCheck::Accessible => ImageCheckView::Accessible,
            ImageCheck::Inaccessible => ImageCheckView::Inaccessible,
            ImageCheck::TransportFailed(reason) => ImageCheckView::TransportFailed(reason@),
        }
    }
}

/// Whether an HTTP status code reports success: 200 to 299.
pub open spec fn is_success(status: u16) -> bool {
    200 <= status < 300
}

/// The verdict on an image URL, given what the request for its headers
/// came to.
pub open spec fn verdict(head: Result<u16, Seq<char>>) -> ImageCheckView {
    match head {
        Ok(status) => if is_success(status) {
            ImageCheckView::Accessible
        } else {
            ImageCheckView::Inaccessible
        },
        Err(reason) => ImageCheckView::TransportFailed(reason),
    }
}

/// Whether `status` reports success.
pub fn status_is_success(status: u16) -> (success: bool)
    ensures
        success == is_success(status),
{
    200 <= status && status < 300
}

/// Judges an image URL from the outcome of the request for its headers:
/// the status code of the answer, or the reason why none came. A failure on
/// the way is kept apart from an answer that reports no success.
pub fn validate_image_url(head: Result<u16, String>) -> (check: ImageCheck)
    ensures
        check@ == verdict(
            match head {
                Ok(status) => Ok(status),
                Err(reason) => Err(reason@),
            },
        ),
{
    match head {
        Ok(status) => if status_is_success(status) {
            ImageCheck::Accessible
        } else {
            ImageCheck::Inaccessible
        },
        Err(reason) => ImageCheck::TransportFailed(reason),
    }
}

} // verus!
