//! Downloading a video.

use clipknow::error::{ClipKnowError, Result};
use clipknow::ingest::download::{
    check_read, check_start, megabytes, too_big, VideoFetcher, MAX_VIDEO_BYTES,
};

#[test]
fn the_limit_message_names_both_numbers() {
    let e = too_big(340 * 1_048_576, MAX_VIDEO_BYTES).message();
    assert!(e.contains("340.0MB"), "要说实际大小: {e}");
    assert!(e.contains("100MB"), "要说上限: {e}");
}

pub struct FakeFetcher {
    pub bytes: Vec<u8>,
    pub fail: Option<String>,
}

impl VideoFetcher for FakeFetcher {
    fn fetch(&self, _url: &str) -> Result<Vec<u8>> {
        match &self.fail {
            Some(m) => Err(ClipKnowError::Fetch {
                platform: "video-cdn".into(),
                message: m.clone(),
            }),
            None => Ok(self.bytes.clone()),
        }
    }
}

#[test]
fn a_fake_fetcher_can_stand_in_for_the_network() {
    let f = FakeFetcher {
        bytes: vec![1, 2, 3],
        fail: None,
    };
    assert_eq!(f.fetch("whatever").unwrap(), vec![1, 2, 3]);

    let f = FakeFetcher {
        bytes: vec![],
        fail: Some("下载超时".into()),
    };
    assert!(f.fetch("whatever").is_err());
}

#[test]
fn the_limit_leaves_room_above_the_largest_sample() {
    assert!(MAX_VIDEO_BYTES >= 90 * 1_048_576);
    assert_eq!(MAX_VIDEO_BYTES, 100 * 1024 * 1024);
}

#[test]
fn megabytes_are_written_as_a_float_would_be() {
    for n in [
        0usize, 1, 52_428, 52_429, 104_857, 262_144, 786_432, 1_048_575, 1_048_576, 1_310_720, 58_720_256,
        60_817_408, 104_857_601, 123_456_789, 4_294_967_295,
    ] {
        assert_eq!(megabytes(n), format!("{:.1}", n as f64 / 1_048_576.0), "{n}");
    }
}

#[test]
fn a_download_is_refused_before_it_begins_or_after_it_was_read() {
    assert!(check_start(true, "200 OK", None, 10).is_ok());
    assert!(check_start(true, "200 OK", Some(10), 10).is_ok());
    assert!(check_start(true, "200 OK", Some(11), 10).is_err());
    let e = check_start(false, "403 Forbidden", Some(1), 10).unwrap_err().message();
    assert_eq!(e, "抓取失败 (video-cdn): HTTP 403 Forbidden");
    assert!(check_read(10, 10).is_ok());
    assert!(check_read(11, 10).is_err());
    let e = check_read(0, 10).unwrap_err().message();
    assert_eq!(e, "抓取失败 (video-cdn): 下载到 0 字节");
}
