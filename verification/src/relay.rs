//! The media relay's outbound requests.
//!
//! Each relay call is one GET against the fixed external API. The request is
//! described fully by its URL, a constant browser-identifying `User-Agent`
//! and a `Referer` chosen per call: the video's own watch page for metadata
//! lookups, the API host's root page for everything else. The upstream
//! rejects requests without a same-origin-looking referer, so these headers
//! are part of the wire contract, not decoration. Building a request has no
//! side effects and no state is kept across calls; the transport that sends
//! it lives outside the library.

use vstd::prelude::*;
use crate::encode::encode_component;
use crate::encode::percent_encode_str;
use crate::numfmt::spec_dec;
use crate::numfmt::u64_to_dec;

verus! {

/// One outbound relay call: the target URL and the two headers it carries.
pub struct RelayRequest {
    pub url: String,
    pub user_agent: &'static str,
    pub referer: String,
}

/// The constant desktop-browser identification every request carries.
pub open spec fn spec_user_agent() -> Seq<char> {
    "Mozilla/5.0 (Macintosh; Intel Mac OS X 10_15_7) AppleWebKit/537.36 (KHTML, like Gecko) Chrome/120.0.0.0 Safari/537.36"@
}

/// The API host's root page, the referer for every call but metadata lookup.
pub open spec fn spec_site_root() -> Seq<char> {
    "https://www.bilibili.com"@
}

/// The watch page of a video: the referer for its metadata lookup.
pub open spec fn spec_watch_page(v: Seq<char>) -> Seq<char> {
    "https://www.bilibili.com/video/"@ + v
}

/// The metadata-lookup URL embeds the video id unescaped (ids are URL-safe).
pub open spec fn spec_video_info_url(v: Seq<char>) -> Seq<char> {
    "https://api.bilibili.com/x/web-interface/view?bvid="@ + v
}

/// The query flags every play-url resolution carries, whatever the input:
/// the fixed quality tier and the separated audio/video stream format.
pub open spec fn spec_play_url_flags() -> Seq<char> {
    "&qn=16&fnval=16&fnver=0"@
}

/// The play-url resolution URL for a video id and a content id.
pub open spec fn spec_play_url(v: Seq<char>, cid: nat) -> Seq<char> {
    "https://api.bilibili.com/x/player/playurl?bvid="@ + v + "&cid="@ + spec_dec(cid)
        + spec_play_url_flags()
}

/// The search URL for an already percent-encoded keyword and a page number.
pub open spec fn spec_search_url(encoded_keyword: Seq<char>, page: nat) -> Seq<char> {
    "https://api.bilibili.com/x/web-interface/search/type?search_type=video&keyword="@
        + encoded_keyword + "&page="@ + spec_dec(page)
}

/// Every request a builder below returns: the constant identification and
/// one of the two admissible referers.
pub open spec fn wf_request(r: RelayRequest) -> bool {
    r.user_agent@ == spec_user_agent() && (r.referer@ == spec_site_root() || exists|v: Seq<char>|
        r.referer@ == spec_watch_page(v))
}

/// The constant browser-identifying string.
pub fn user_agent() -> (r: &'static str)
    ensures
        r@ == spec_user_agent(),
{
    "Mozilla/5.0 (Macintosh; Intel Mac OS X 10_15_7) AppleWebKit/537.36 (KHTML, like Gecko) Chrome/120.0.0.0 Safari/537.36"
}

/// The request that looks up a video's metadata: the URL embeds the id
/// unescaped and the referer is that video's own watch page.
pub fn build_video_info_request(bvid: &str) -> (r: RelayRequest)
    ensures
        r.url@ == spec_video_info_url(bvid@),
        r.referer@ == spec_watch_page(bvid@),
        r.user_agent@ == spec_user_agent(),
        wf_request(r),
{
    let mut url = String::from_str("https://api.bilibili.com/x/web-interface/view?bvid=");
    url.append(bvid);
    let mut referer = String::from_str("https://www.bilibili.com/video/");
    referer.append(bvid);
    let r = RelayRequest { url, user_agent: user_agent(), referer };
    proof {
        assert(wf_request(r)) by {
            assert(r.referer@ == spec_watch_page(bvid@));
        }
    }
    r
}

/// The request that resolves a play URL: it always asks for the fixed
/// quality tier and the separated-stream format, and its referer is the
/// site's root page.
pub fn build_play_url_request(bvid: &str, cid: u64) -> (r: RelayRequest)
    ensures
        r.url@ == spec_play_url(bvid@, cid as nat),
        r.referer@ == spec_site_root(),
        r.user_agent@ == spec_user_agent(),
        wf_request(r),
{
    let mut url = String::from_str("https://api.bilibili.com/x/player/playurl?bvid=");
    url.append(bvid);
    url.append("&cid=");
    let cid_dec = u64_to_dec(cid);
    url.append(cid_dec.as_str());
    url.append("&qn=16&fnval=16&fnver=0");
    RelayRequest {
        url,
        user_agent: user_agent(),
        referer: String::from_str("https://www.bilibili.com"),
    }
}

/// The request that searches videos by keyword: the keyword is
/// percent-encoded before it enters the query string, and the referer is
/// the site's root page.
pub fn build_search_request(keyword: &str, page: u64) -> (r: RelayRequest)
    ensures
        r.url@ == spec_search_url(percent_encode_str(keyword@), page as nat),
        r.referer@ == spec_site_root(),
        r.user_agent@ == spec_user_agent(),
        wf_request(r),
{
    let mut url = String::from_str(
        "https://api.bilibili.com/x/web-interface/search/type?search_type=video&keyword=",
    );
    let encoded = encode_component(keyword);
    url.append(encoded.as_str());
    url.append("&page=");
    let page_dec = u64_to_dec(page);
    url.append(page_dec.as_str());
    RelayRequest {
        url,
        user_agent: user_agent(),
        referer: String::from_str("https://www.bilibili.com"),
    }
}

/// The request that fetches a stream body (audio or image alike): the
/// caller-supplied URL is forwarded verbatim and the referer is the site's
/// root page.
pub fn build_stream_request(stream_url: &str) -> (r: RelayRequest)
    ensures
        r.url@ == stream_url@,
        r.referer@ == spec_site_root(),
        r.user_agent@ == spec_user_agent(),
        wf_request(r),
{
    RelayRequest {
        url: String::from_str(stream_url),
        user_agent: user_agent(),
        referer: String::from_str("https://www.bilibili.com"),
    }
}

/// The metadata-lookup URL embeds the video id unescaped: past the fixed
/// prefix, the URL's characters are exactly the id's.
pub proof fn lemma_video_info_embeds_id(v: Seq<char>)
    ensures
        spec_video_info_url(v).len() == "https://api.bilibili.com/x/web-interface/view?bvid="@.len()
            + v.len(),
        spec_video_info_url(v).skip(
            "https://api.bilibili.com/x/web-interface/view?bvid="@.len() as int,
        ) =~= v,
{
}

/// Every play-url resolution requests the fixed quality tier and the
/// separated-stream format: whatever the video and content ids, the URL
/// ends with the constant flag string.
pub proof fn lemma_play_url_fixed_flags(v: Seq<char>, cid: nat)
    ensures
        spec_play_url(v, cid).len() >= spec_play_url_flags().len(),
        spec_play_url(v, cid).skip(
            spec_play_url(v, cid).len() - spec_play_url_flags().len(),
        ) =~= spec_play_url_flags(),
{
}

/// The search URL carries the encoded keyword between its two fixed
/// separators: past the prefix, the next characters are exactly the encoded
/// keyword, followed by the page parameter.
pub proof fn lemma_search_embeds_encoded_keyword(encoded_keyword: Seq<char>, page: nat)
    ensures
        spec_search_url(encoded_keyword, page).subrange(
            "https://api.bilibili.com/x/web-interface/search/type?search_type=video&keyword="@.len() as int,
            "https://api.bilibili.com/x/web-interface/search/type?search_type=video&keyword="@.len()
                + encoded_keyword.len() as int,
        ) =~= encoded_keyword,
{
}

} // verus!
