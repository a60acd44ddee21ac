//! Downloading a video into memory.
//!
//! Nothing is written to disk. A video that is too big is refused before it is
//! read, where its size is known, and while it is read where it is not.

use vstd::prelude::*;
use crate::error::{ClipKnowError, Result};
use crate::text;
use crate::text::{u64_text, usize_text};

verus! {

/// The most bytes that a video may have.
pub const MAX_VIDEO_BYTES: usize = 104_857_600;

/// How long a download may take.
pub const DOWNLOAD_TIMEOUT_SECS: u64 = 180;

/// Somebody who gets the bytes behind an address.
pub trait VideoFetcher {
    fn fetch(&self, url: &str) -> Result<Vec<u8>>;
}

/// A number of bytes in tenths of a megabyte, the nearest; the even one of two
/// that are as near.
pub open spec fn tenths(bytes: int) -> int {
    let q = bytes * 10 / 1_048_576;
    let rest = bytes * 10 % 1_048_576;
    if rest > 524_288 || (rest == 524_288 && q % 2 == 1) {
        q + 1
    } else {
        q
    }
}

/// A number of bytes, in megabytes with one decimal.
pub open spec fn megabytes_text(bytes: int) -> Seq<char> {
    text::int_text(tenths(bytes) / 10) + "."@ + text::int_text(tenths(bytes) % 10)
}

/// A number of bytes, in megabytes with one decimal.
pub fn megabytes(bytes: usize) -> (r: String)
    ensures
        r@ == megabytes_text(bytes as int),
{
    let n: u128 = bytes as u128 * 10;
    let q: u128 = n / 1_048_576;
    let rest: u128 = n % 1_048_576;
    let t: u128 = if rest > 524_288 || (rest == 524_288 && q % 2 == 1) { q + 1 } else { q };
    u64_text((t / 10) as u64).concat(".").concat(u64_text((t % 10) as u64).as_str())
}

/// Whether `e` says that a video is too big, how big it is and how big it may be.
pub open spec fn says_too_big(e: ClipKnowError, actual: int, limit: int) -> bool {
    e matches ClipKnowError::Fetch { platform, message } && platform@ == "video-cdn"@ && message@
        == "视频 "@ + megabytes_text(actual) + "MB，超过 "@ + text::int_text(limit / 1_048_576)
        + "MB 下载上限"@
}

/// The error for a video that is too big. With the two numbers in it nobody takes
/// it for a fault of the network, and tries again.
pub fn too_big(actual: usize, limit: usize) -> (r: ClipKnowError)
    ensures
        says_too_big(r, actual as int, limit as int),
{
    ClipKnowError::Fetch {
        platform: "video-cdn".to_owned(),
        message: "视频 ".to_owned().concat(megabytes(actual).as_str()).concat("MB，超过 ").concat(
            usize_text(limit / 1_048_576).as_str(),
        ).concat("MB 下载上限"),
    }
}

/// Whether a download can begin: the status has to be a good one, and the size,
/// where it was announced, within the limit. `status` is how the status is
/// written.
pub fn check_start(success: bool, status: &str, length: Option<usize>, limit: usize) -> (r: Result<
    (),
>)
    ensures
        if !success {
            r matches Err(ClipKnowError::Fetch { platform, message }) && platform@ == "video-cdn"@
                && message@ == "HTTP "@ + status@
        } else {
            match length {
                Some(n) => if n > limit {
                    r matches Err(e) && says_too_big(e, n as int, limit as int)
                } else {
                    r is Ok
                },
                None => r is Ok,
            }
        },
{
    if !success {
        return Err(
            ClipKnowError::Fetch {
                platform: "video-cdn".to_owned(),
                message: "HTTP ".to_owned().concat(status),
            },
        );
    }
    match length {
        Some(n) if n > limit => Err(too_big(n, limit)),
        _ => Ok(()),
    }
}

/// Whether what was read is a video within the limit. No more than one byte over
/// the limit has to be read to tell.
pub fn check_read(size: usize, limit: usize) -> (r: Result<()>)
    ensures
        if size > limit {
            r matches Err(e) && says_too_big(e, size as int, limit as int)
        } else if size == 0 {
            r matches Err(ClipKnowError::Fetch { platform, message }) && platform@ == "video-cdn"@
                && message@ == "下载到 0 字节"@
        } else {
            r is Ok
        },
{
    if size > limit {
        Err(too_big(size, limit))
    } else if size == 0 {
        Err(
            ClipKnowError::Fetch {
                platform: "video-cdn".to_owned(),
                message: "下载到 0 字节".to_owned(),
            },
        )
    } else {
        Ok(())
    }
}

} // verus!
