//! Seeing to it that a video is stored.

use vstd::prelude::*;
use crate::cli;
use crate::cli::lost_video;
use crate::content::model::FetchedVideo;
use crate::error::Result;
use crate::ingest::discovery::DiscoveryApi;
use crate::ingest::url;
use crate::ingest::url::ParsedUrl;
use crate::store;
use crate::store::shelf;
use crate::store::{Store, StoredVideo};

verus! {

/// Whether `r` is the video as it is read again after it was stored.
pub open spec fn is_read_back<S: Store>(s: S, p: ParsedUrl, r: Result<StoredVideo>) -> bool {
    exists|again: Result<Option<StoredVideo>>| #[trigger]
        store::finds(s, p.platform, p.native_id@, again) && match again {
            Ok(Some(sv)) => r matches Ok(x) && x == sv,
            Ok(None) => r matches Err(e) && cli::says_lost(e, p.platform),
            Err(e) => r matches Err(x) && x == e,
        }
}

/// Whether a video that was fetched was stored, and read again.
pub open spec fn is_put_away<S: Store>(
    before: S,
    p: ParsedUrl,
    f: FetchedVideo,
    after: S,
    r: Result<StoredVideo>,
) -> bool {
    exists|saved: Result<String>| #[trigger]
        store::saves(before, f, saved, after) && match saved {
            Ok(_) => is_read_back(after, p, r),
            Err(e) => r matches Err(x) && x == e,
        }
}

/// Whether the service was asked for a video once, and what came of it was stored.
pub open spec fn is_fetched_anew<A: DiscoveryApi, S: Store>(
    api: &A,
    before: S,
    p: ParsedUrl,
    raw_url: Seq<char>,
    after: S,
    r: Result<StoredVideo>,
) -> bool {
    exists|u: &str, got: Result<FetchedVideo>|
        u@ == raw_url && #[trigger] call_ensures(A::fetch_video, (api, &p, u), got) && match got {
            Ok(f) => is_put_away(before, p, f, after, r),
            Err(e) => after == before && (r matches Err(x) && x == e),
        }
}

/// Whether `r` is the video behind a link, as it is stored: as it was stored before, where
/// it was and need not be fresh, and else as it was fetched and stored now.
pub open spec fn is_ingested<A: DiscoveryApi, S: Store>(
    api: &A,
    before: S,
    p: ParsedUrl,
    raw_url: Seq<char>,
    refresh: bool,
    after: S,
    r: Result<StoredVideo>,
) -> bool {
    if refresh {
        is_fetched_anew(api, before, p, raw_url, after, r)
    } else {
        exists|hit: Result<Option<StoredVideo>>| #[trigger]
            store::finds(before, p.platform, p.native_id@, hit) && match hit {
                Ok(Some(sv)) => after == before && (r matches Ok(x) && x == sv),
                Ok(None) => is_fetched_anew(api, before, p, raw_url, after, r),
                Err(e) => after == before && (r matches Err(x) && x == e),
            }
    }
}

fn fetch_anew<A: DiscoveryApi, S: Store>(api: &A, store: &mut S, parsed: &ParsedUrl, raw_url: &str) -> (r:
    Result<StoredVideo>)
    ensures
        is_fetched_anew(api, *old(store), *parsed, raw_url@, *final(store), r),
{
    let ghost before = *store;
    let got = api.fetch_video(parsed, raw_url);
    assert(call_ensures(A::fetch_video, (api, parsed, raw_url), got));
    let fetched = match got {
        Ok(f) => f,
        Err(e) => return Err(e),
    };
    let saved = store.save(&fetched);
    assert(store::saves(before, fetched, saved, *store));
    if let Err(e) = saved {
        return Err(e);
    }
    let again = store.find_by_native(parsed.platform, parsed.native_id.as_str());
    assert(store::finds(*store, parsed.platform, parsed.native_id@, again));
    match again {
        Ok(Some(sv)) => Ok(sv),
        Ok(None) => Err(lost_video(parsed.platform)),
        Err(e) => Err(e),
    }
}

/// The video behind a link, as it is stored. One that is stored serves as it is, unless it
/// should be fresh; every other one is fetched, stored and read again. A link that means no
/// video is an error, and nothing is asked for it.
pub fn ensure_ingested<A: DiscoveryApi, S: Store>(
    api: &A,
    store: &mut S,
    raw_url: &str,
    refresh: bool,
) -> (r: Result<StoredVideo>)
    ensures
        match url::meaning(url::address(raw_url@)) {
            url::Meaning::Video(platform, id) => exists|p: ParsedUrl|
                p.platform == platform && p.native_id@ == id && #[trigger] is_ingested(
                    api,
                    *old(store),
                    p,
                    raw_url@,
                    refresh,
                    *final(store),
                    r,
                ),
            m => *final(store) == *old(store) && (r matches Err(e) && url::reports(
                Err(e),
                m,
                raw_url@,
            )),
        },
{
    let ghost before = *store;
    let parsed = match url::parse(raw_url) {
        Ok(p) => p,
        Err(e) => return Err(e),
    };
    if !refresh {
        let hit = store.find_by_native(parsed.platform, parsed.native_id.as_str());
        assert(store::finds(before, parsed.platform, parsed.native_id@, hit));
        match hit {
            Ok(Some(sv)) => {
                let r = Ok(sv);
                assert(is_ingested(api, before, parsed, raw_url@, refresh, *store, r));
                return r;
            },
            Ok(None) => {},
            Err(e) => {
                let r = Err(e);
                assert(is_ingested(api, before, parsed, raw_url@, refresh, *store, r));
                return r;
            },
        }
    }
    let r = fetch_anew(api, store, &parsed, raw_url);
    assert(is_ingested(api, before, parsed, raw_url@, refresh, *store, r));
    r
}

/// A video that is stored serves as it is, and nothing is fetched or stored for it, where
/// the store is in order and it need not be fresh.
pub proof fn law_stored_videos_serve<A: DiscoveryApi, S: Store>(
    api: &A,
    before: S,
    p: ParsedUrl,
    raw_url: Seq<char>,
    after: S,
    r: Result<StoredVideo>,
)
    requires
        before.steady(),
        store::found(before.kept(), p.platform, p.native_id@) is Some,
        is_ingested(api, before, p, raw_url, false, after, r),
    ensures
        after == before,
        r matches Ok(sv) && Some(sv@) == store::found(before.kept(), p.platform, p.native_id@),
{
}

/// Every other video is fetched once, stored, and given as it is stored then, where the
/// store is in order: with what was fetched, over what was stored of it before. Where the
/// service fails, its error is given, and nothing is stored.
pub proof fn law_other_videos_are_fetched_and_stored<A: DiscoveryApi, S: Store>(
    api: &A,
    before: S,
    p: ParsedUrl,
    raw_url: Seq<char>,
    refresh: bool,
    after: S,
    r: Result<StoredVideo>,
)
    requires
        before.steady(),
        refresh || store::found(before.kept(), p.platform, p.native_id@) is None,
        is_ingested(api, before, p, raw_url, refresh, after, r),
    ensures
        exists|u: &str, got: Result<FetchedVideo>|
            u@ == raw_url && #[trigger] call_ensures(A::fetch_video, (api, &p, u), got)
                && match got {
                Ok(f) => f.video.platform == p.platform && f.video.native_id@ == p.native_id@ ==> (
                r matches Ok(sv) && Some(sv@) == store::found(
                    after.kept(),
                    p.platform,
                    p.native_id@,
                ) && shelf::is_saved(
                    store::found(before.kept(), p.platform, p.native_id@),
                    f,
                    sv@,
                )),
                Err(e) => after == before && (r matches Err(x) && x == e),
            },
{
    assert(is_fetched_anew(api, before, p, raw_url, after, r));
    let (u, got) = choose|u: &str, got: Result<FetchedVideo>|
        u@ == raw_url && #[trigger] call_ensures(A::fetch_video, (api, &p, u), got) && match got {
            Ok(f) => is_put_away(before, p, f, after, r),
            Err(e) => after == before && (r matches Err(x) && x == e),
        };
    if let Ok(f) = got {
        let saved = choose|saved: Result<String>| #[trigger]
            store::saves(before, f, saved, after) && match saved {
                Ok(_) => is_read_back(after, p, r),
                Err(e) => r matches Err(x) && x == e,
            };
        assert(saved is Ok);
        assert(is_read_back(after, p, r));
    }
}

} // verus!
