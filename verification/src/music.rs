//! The music provider: the addresses it is asked at, the tracks it answers
//! with, and how a playable stream address is found in its answers.
use vstd::prelude::*;
use vstd::utf8::encode_utf8;
use vstd::string::StringSliceAdditionalSpecFns;
use base64::Engine;
use crate::errors::AppError;
use crate::json::{JsonValue, JsonView, member_str, member_value, as_str_spec, as_array_spec, parse_text, opt_string_view, spec_json_parse};
use crate::text::{push_str, i64_to_decimal, int_decimal, eq_ignore_ascii_case, eq_ignore_ascii_case_spec, str_eq};

verus! {

broadcast use vstd::string::group_string_axioms;

/// An album as the provider describes it.
#[derive(Debug, Clone)]
pub struct AlbumData {
    pub title: Option<String>,
    pub cover: Option<String>,
}

/// An artist as the provider describes it.
#[derive(Debug, Clone)]
pub struct ArtistData {
    pub name: Option<String>,
}

/// A track as the provider describes it.
#[derive(Debug, Clone)]
pub struct TrackItem {
    pub id: i64,
    pub title: String,
    pub duration: i32,
    pub audio_quality: Option<String>,
    pub album: Option<AlbumData>,
    pub artists: Option<Vec<ArtistData>>,
}

/// One page of search results.
pub struct SearchData {
    pub limit: u32,
    pub offset: u32,
    pub total_number_of_items: u32,
    pub items: Vec<TrackItem>,
}

/// The provider's answer to a search.
pub struct SearchResponse {
    pub version: String,
    pub data: SearchData,
}

/// The provider's answer to a request for a track's playback details.
pub struct TrackResponse {
    pub version: String,
    pub data: JsonValue,
}

/// The address a track streams from.
pub struct StreamUrlResponse {
    pub stream_url: String,
}

/// A track as the local cache holds it.
#[derive(Debug, Clone)]
pub struct TrackRecord {
    pub title: String,
    pub artist: Option<String>,
    pub album: Option<String>,
    pub cover: Option<String>,
    pub duration: i32,
}

/// The music provider reached over HTTP.
pub struct HifiProvider;

impl HifiProvider {
    pub fn new() -> (r: Self)
        ensures
            r == HifiProvider,
    {
        HifiProvider
    }
}

// ---------------------------------------------------------------------------
// Addresses

/// Whether `b` is left as it is by URL encoding: ASCII letters and digits and
/// `-`, `.`, `_`, `~`.
pub open spec fn is_unreserved(b: u8) -> bool {
    (48 <= b <= 57) || (65 <= b <= 90) || (97 <= b <= 122) || b == 45 || b == 46 || b == 95 || b == 126
}

/// The upper-case hexadecimal digit for `d` (below sixteen).
pub open spec fn hex_upper(d: u8) -> char {
    if d < 10 {
        (48 + d) as char
    } else {
        (55 + d) as char
    }
}

/// Percent-encoding of bytes: every byte but the unreserved ones becomes `%`
/// and two upper-case hexadecimal digits.
pub open spec fn url_encode_spec(bytes: Seq<u8>) -> Seq<char>
    decreases bytes.len(),
{
    if bytes.len() == 0 {
        Seq::empty()
    } else {
        let b = bytes[0];
        (if is_unreserved(b) {
            seq![b as char]
        } else {
            seq!['%', hex_upper(b / 16), hex_upper(b % 16)]
        }) + url_encode_spec(bytes.drop_first())
    }
}

/// `urlencoding::encode`: percent-encodes every byte of the UTF-8 encoding of
/// `s` except ASCII letters, digits and `-`, `.`, `_`, `~`, with upper-case
/// hexadecimal digits.
#[verifier::external_body]
fn url_encode(s: &str) -> (r: String)
    ensures
        r@ == url_encode_spec(s.spec_bytes()),
{
    urlencoding::encode(s).into_owned()
}

pub open spec fn search_url_spec(host: Seq<char>, query: Seq<char>) -> Seq<char> {
    "http://"@ + host + ":8000/search/?s="@ + url_encode_spec(encode_utf8(query))
}

pub open spec fn track_details_url_spec(host: Seq<char>, track_id: i64) -> Seq<char> {
    "http://"@ + host + ":8000/track/?id="@ + int_decimal(track_id as int) + "&quality=HIGH"@
}

pub open spec fn track_info_url_spec(host: Seq<char>, track_id: i64) -> Seq<char> {
    "http://"@ + host + ":8000/info/?id="@ + int_decimal(track_id as int)
}

pub open spec fn track_manifest_url_spec(host: Seq<char>, track_id: i64) -> Seq<char> {
    "http://"@ + host + ":8000/trackManifests/?id="@ + int_decimal(track_id as int)
        + "&adaptive=true&manifestType=HLS&uriScheme=HTTPS&usage=PLAYBACK&formats=AACLC"@
}

/// The address of a search for `query`, encoded.
pub fn search_url(host: &str, query: &str) -> (r: String)
    ensures
        r@ == search_url_spec(host@, query@),
{
    let enc = url_encode(query);
    let mut s = String::new();
    push_str(&mut s, "http://");
    push_str(&mut s, host);
    push_str(&mut s, ":8000/search/?s=");
    push_str(&mut s, enc.as_str());
    proof {
        assert(query.spec_bytes() == encode_utf8(query@));
        assert(s@ =~= search_url_spec(host@, query@));
    }
    s
}

/// The address of a search for `query` as given, at the local provider.
pub fn legacy_search_url(query: &str) -> (r: String)
    ensures
        r@ == "http://localhost:8000/search/?s="@ + query@,
{
    let mut s = String::new();
    push_str(&mut s, "http://localhost:8000/search/?s=");
    push_str(&mut s, query);
    s
}

/// The address of a track's playback details.
pub fn track_details_url(host: &str, track_id: i64) -> (r: String)
    ensures
        r@ == track_details_url_spec(host@, track_id),
{
    let id = i64_to_decimal(track_id);
    let mut s = String::new();
    push_str(&mut s, "http://");
    push_str(&mut s, host);
    push_str(&mut s, ":8000/track/?id=");
    push_str(&mut s, id.as_str());
    push_str(&mut s, "&quality=HIGH");
    assert(s@ =~= track_details_url_spec(host@, track_id));
    s
}

/// The address of a track's description.
pub fn track_info_url(host: &str, track_id: i64) -> (r: String)
    ensures
        r@ == track_info_url_spec(host@, track_id),
{
    let id = i64_to_decimal(track_id);
    let mut s = String::new();
    push_str(&mut s, "http://");
    push_str(&mut s, host);
    push_str(&mut s, ":8000/info/?id=");
    push_str(&mut s, id.as_str());
    assert(s@ =~= track_info_url_spec(host@, track_id));
    s
}

/// The address of a track's adaptive (HLS) manifest.
pub fn track_manifest_url(host: &str, track_id: i64) -> (r: String)
    ensures
        r@ == track_manifest_url_spec(host@, track_id),
{
    let id = i64_to_decimal(track_id);
    let mut s = String::new();
    push_str(&mut s, "http://");
    push_str(&mut s, host);
    push_str(&mut s, ":8000/trackManifests/?id=");
    push_str(&mut s, id.as_str());
    push_str(&mut s, "&adaptive=true&manifestType=HLS&uriScheme=HTTPS&usage=PLAYBACK&formats=AACLC");
    assert(s@ =~= track_manifest_url_spec(host@, track_id));
    s
}

// ---------------------------------------------------------------------------
// Stream addresses

/// The MIME type of a manifest that lists direct addresses (JSON).
pub open spec fn bts_mime() -> Seq<char> {
    "application/vnd.tidal.bts"@
}

/// The MIME type of a DASH manifest.
pub open spec fn dash_mime() -> Seq<char> {
    "application/dash+xml"@
}

/// What `base64::engine::general_purpose::STANDARD.decode` gives for `input`,
/// or `None` where it refuses it.
pub uninterp spec fn spec_base64_decode(input: Seq<u8>) -> Option<Seq<u8>>;

pub open spec fn opt_bytes_view(v: Option<Vec<u8>>) -> Option<Seq<u8>> {
    match v {
        Some(b) => Some(b@),
        None => None,
    }
}

/// `STANDARD.decode` (standard alphabet, padded): the decoded bytes, or `None`
/// where the input is not valid base64. The claim is that this is a function of
/// the input's bytes, named `spec_base64_decode`.
#[verifier::external_body]
fn decode_base64(input: &str) -> (r: Option<Vec<u8>>)
    ensures
        opt_bytes_view(r) == spec_base64_decode(input.spec_bytes()),
{
    base64::engine::general_purpose::STANDARD.decode(input).ok()
}

/// The first address that a base64-encoded JSON manifest lists, or the
/// message of what is wrong with it.
pub open spec fn manifest_url_spec(manifest_b64: Seq<char>) -> Result<Seq<char>, Seq<char>> {
    match spec_base64_decode(encode_utf8(manifest_b64)) {
        None => Err("Failed to decode manifest base64"@),
        Some(bytes) => match spec_json_parse(bytes) {
            None => Err("Failed to parse manifest JSON"@),
            Some(doc) => match as_array_spec(member_value(doc, "urls"@)) {
                None => Err("No URLs found in manifest"@),
                Some(items) => if items.len() == 0 {
                    Err("No playable URL found in manifest"@)
                } else {
                    match as_str_spec(parse_text(items[0])) {
                        Some(u) => Ok(u),
                        None => Err("No playable URL found in manifest"@),
                    }
                },
            },
        },
    }
}

/// The direct address that a track's playback details give: none unless the
/// manifest is a JSON one, else the manifest's first address, or the message
/// of what is wrong.
pub open spec fn direct_url_spec(track_data: JsonView) -> Result<Option<Seq<char>>, Seq<char>> {
    let mime = match member_str(track_data, "manifestMimeType"@) {
        Some(m) => m,
        None => Seq::empty(),
    };
    if mime != bts_mime() {
        Ok(None)
    } else {
        match member_str(track_data, "manifest"@) {
            None => Err("Missing or invalid manifest field"@),
            Some(b) => match manifest_url_spec(b) {
                Ok(u) => Ok(Some(u)),
                Err(e) => Err(e),
            },
        }
    }
}

/// The address the legacy service reads from a track's playback details:
/// the manifest's first address, whatever its type.
pub open spec fn legacy_stream_url_spec(track_data: JsonView) -> Result<Seq<char>, Seq<char>> {
    match member_str(track_data, "manifest"@) {
        None => Err("Missing or invalid manifest field"@),
        Some(b) => manifest_url_spec(b),
    }
}

/// Whether a result is the spec's outcome, an error being an internal error
/// with the spec's message.
pub open spec fn string_result_is(r: Result<String, AppError>, s: Result<Seq<char>, Seq<char>>) -> bool {
    match (r, s) {
        (Ok(x), Ok(y)) => x@ == y,
        (Err(AppError::InternalError(m)), Err(y)) => m@ == y,
        _ => false,
    }
}

pub open spec fn opt_string_result_is(r: Result<Option<String>, AppError>, s: Result<Option<Seq<char>>, Seq<char>>) -> bool {
    match (r, s) {
        (Ok(x), Ok(y)) => opt_string_view(x) == y,
        (Err(AppError::InternalError(m)), Err(y)) => m@ == y,
        _ => false,
    }
}

fn internal(msg: &str) -> (e: AppError)
    ensures
        e matches AppError::InternalError(m) && m@ == msg@,
{
    AppError::InternalError(msg.to_string())
}

/// The first address listed by a base64-encoded JSON manifest.
pub fn manifest_stream_url(manifest_b64: &str) -> (r: Result<String, AppError>)
    ensures
        string_result_is(r, manifest_url_spec(manifest_b64@)),
{
    proof {
        assert(manifest_b64.spec_bytes() == encode_utf8(manifest_b64@));
    }
    let bytes = match decode_base64(manifest_b64) {
        Some(b) => b,
        None => return Err(internal("Failed to decode manifest base64")),
    };
    let doc = match JsonValue::parse(bytes.as_slice()) {
        Some(d) => d,
        None => return Err(internal("Failed to parse manifest JSON")),
    };
    let urls = match doc.member("urls") {
        Some(JsonValue::Array(items)) => items,
        _ => return Err(internal("No URLs found in manifest")),
    };
    if urls.len() == 0 {
        return Err(internal("No playable URL found in manifest"));
    }
    proof {
        assert(urls@.map_values(|s: String| s@)[0] == urls@[0]@);
    }
    match JsonValue::parse(urls[0].as_str().as_bytes()) {
        Some(JsonValue::Str(u)) => Ok(u),
        _ => Err(internal("No playable URL found in manifest")),
    }
}

impl HifiProvider {
    /// The direct address in a track's playback details: `None` unless its
    /// manifest is a JSON one (`application/vnd.tidal.bts`), else the
    /// manifest's first address.
    pub fn extract_direct_stream_url(track_data: &JsonValue) -> (r: Result<Option<String>, AppError>)
        ensures
            opt_string_result_is(r, direct_url_spec(track_data@)),
    {
        let mime = match track_data.member_str("manifestMimeType") {
            Some(m) => m,
            None => String::new(),
        };
        if !str_eq(mime.as_str(), "application/vnd.tidal.bts") {
            return Ok(None);
        }
        let manifest = match track_data.member_str("manifest") {
            Some(m) => m,
            None => return Err(internal("Missing or invalid manifest field")),
        };
        match manifest_stream_url(manifest.as_str()) {
            Ok(u) => Ok(Some(u)),
            Err(e) => Err(e),
        }
    }
}

/// The address the legacy service streams a track from: the first address of
/// its manifest.
pub fn legacy_stream_url(track_data: &JsonValue) -> (r: Result<String, AppError>)
    ensures
        string_result_is(r, legacy_stream_url_spec(track_data@)),
{
    match track_data.member_str("manifest") {
        Some(m) => manifest_stream_url(m.as_str()),
        None => Err(internal("Missing or invalid manifest field")),
    }
}

/// The address of an adaptive manifest in the provider's answer: the `uri`
/// of `data.data.attributes`, or its `url` where it has no `uri`.
pub open spec fn manifest_response_url_spec(response: JsonView) -> Option<Seq<char>> {
    match member_value(response, "data"@) {
        None => None,
        Some(d1) => match member_value(d1, "data"@) {
            None => None,
            Some(d2) => match member_value(d2, "attributes"@) {
                None => None,
                Some(attrs) => match member_value(attrs, "uri"@) {
                    Some(u) => as_str_spec(Some(u)),
                    None => as_str_spec(member_value(attrs, "url"@)),
                },
            },
        },
    }
}

/// Reads the adaptive manifest's address from the provider's answer.
pub fn manifest_url_from_response(response: &JsonValue) -> (r: Option<String>)
    ensures
        opt_string_view(r) == manifest_response_url_spec(response@),
{
    let d1 = match response.member("data") {
        Some(v) => v,
        None => return None,
    };
    let d2 = match d1.member("data") {
        Some(v) => v,
        None => return None,
    };
    let attrs = match d2.member("attributes") {
        Some(v) => v,
        None => return None,
    };
    match attrs.member("uri") {
        Some(u) => u.as_str(),
        None => match attrs.member("url") {
            Some(u) => u.as_str(),
            None => None,
        },
    }
}

// ---------------------------------------------------------------------------
// Resolving a playable address

/// Where the resolution of a stream address stands while a manifest address
/// is being fetched.
#[derive(Debug, Clone, Copy, PartialEq, Eq, Structural)]
pub enum StreamStage {
    /// The track has a DASH manifest; its adaptive manifest is tried first.
    AfterDashManifest,
    /// The adaptive manifest is the last thing left to try.
    AfterLastManifest,
}

/// What to do next to resolve a stream address.
#[derive(Debug)]
pub enum StreamAction {
    /// The address is found.
    Resolved(String),
    /// Fetch the track's adaptive manifest address and hand it back.
    FetchManifest,
    /// No address can be had.
    Failed(AppError),
}

/// The state of the resolution of a stream address.
#[derive(Debug)]
pub struct StreamResolver {
    pub direct_url: Option<String>,
    pub stage: StreamStage,
}

/// A step of the resolution in the model: an address, a fetch to make (with
/// the stage and the direct address kept meanwhile), or a failure message.
pub enum StreamStep {
    Resolved(Seq<char>),
    Fetch(StreamStage, Option<Seq<char>>),
    Failed(Seq<char>),
}

/// Whether a client asked for a direct address: its platform is `web`, in
/// any ASCII case.
pub open spec fn prefers_direct(platform: Option<Seq<char>>) -> bool {
    match platform {
        Some(p) => eq_ignore_ascii_case_spec(p, "web"@),
        None => false,
    }
}

/// The first step: a web client gets the direct address when there is one;
/// a DASH track tries its adaptive manifest first; otherwise the direct
/// address, and failing that the adaptive manifest.
pub open spec fn stream_begin_spec(track_data: JsonView, platform: Option<Seq<char>>) -> StreamStep {
    match direct_url_spec(track_data) {
        Err(e) => StreamStep::Failed(e),
        Ok(direct) => if prefers_direct(platform) && direct is Some {
            StreamStep::Resolved(direct->0)
        } else if member_str(track_data, "manifestMimeType"@) == Some(dash_mime()) {
            StreamStep::Fetch(StreamStage::AfterDashManifest, direct)
        } else if direct is Some {
            StreamStep::Resolved(direct->0)
        } else {
            StreamStep::Fetch(StreamStage::AfterLastManifest, direct)
        },
    }
}

/// The step after a manifest address was fetched.
pub open spec fn stream_after_fetch_spec(stage: StreamStage, direct: Option<Seq<char>>, fetched: Option<Seq<char>>) -> StreamStep {
    match fetched {
        Some(u) => StreamStep::Resolved(u),
        None => match stage {
            StreamStage::AfterDashManifest => match direct {
                Some(d) => StreamStep::Resolved(d),
                None => StreamStep::Fetch(StreamStage::AfterLastManifest, direct),
            },
            StreamStage::AfterLastManifest => StreamStep::Failed("No playable stream URL could be resolved"@),
        },
    }
}

/// Whether a resolver and the action it asks for are the model's step.
pub open spec fn step_is(s: StreamResolver, a: StreamAction, step: StreamStep) -> bool {
    match step {
        StreamStep::Resolved(u) => a matches StreamAction::Resolved(x) && x@ == u,
        StreamStep::Fetch(stage, direct) => a is FetchManifest && s.stage == stage && opt_string_view(s.direct_url) == direct,
        StreamStep::Failed(m) => a matches StreamAction::Failed(AppError::InternalError(x)) && x@ == m,
    }
}

pub open spec fn opt_str_view(v: Option<&str>) -> Option<Seq<char>> {
    match v {
        Some(s) => Some(s@),
        None => None,
    }
}

impl StreamResolver {
    /// Starts resolving the stream address of a track from its playback
    /// details and the client's platform.
    pub fn begin(track_data: &JsonValue, platform: Option<&str>) -> (r: (StreamResolver, StreamAction))
        ensures
            step_is(r.0, r.1, stream_begin_spec(track_data@, opt_str_view(platform))),
    {
        let prefer_direct = match platform {
            Some(p) => eq_ignore_ascii_case(p, "web"),
            None => false,
        };
        let direct = match HifiProvider::extract_direct_stream_url(track_data) {
            Ok(d) => d,
            Err(e) => {
                return (StreamResolver { direct_url: None, stage: StreamStage::AfterLastManifest }, StreamAction::Failed(e));
            },
        };
        if prefer_direct {
            if let Some(u) = &direct {
                let u = u.clone();
                return (StreamResolver { direct_url: direct, stage: StreamStage::AfterLastManifest }, StreamAction::Resolved(u));
            }
        }
        let is_dash = match track_data.member_str("manifestMimeType") {
            Some(m) => str_eq(m.as_str(), "application/dash+xml"),
            None => false,
        };
        if is_dash {
            return (StreamResolver { direct_url: direct, stage: StreamStage::AfterDashManifest }, StreamAction::FetchManifest);
        }
        match &direct {
            Some(u) => {
                let u = u.clone();
                (StreamResolver { direct_url: direct, stage: StreamStage::AfterLastManifest }, StreamAction::Resolved(u))
            },
            None => (StreamResolver { direct_url: direct, stage: StreamStage::AfterLastManifest }, StreamAction::FetchManifest),
        }
    }

    /// Goes on after the adaptive manifest address was fetched (`None` where
    /// the provider's answer has none).
    pub fn on_manifest(self, fetched: Option<String>) -> (r: (StreamResolver, StreamAction))
        ensures
            step_is(r.0, r.1, stream_after_fetch_spec(self.stage, opt_string_view(self.direct_url), opt_string_view(fetched))),
    {
        if let Some(u) = fetched {
            return (self, StreamAction::Resolved(u));
        }
        match self.stage {
            StreamStage::AfterDashManifest => match &self.direct_url {
                Some(d) => {
                    let d = d.clone();
                    (self, StreamAction::Resolved(d))
                },
                None => (StreamResolver { direct_url: None, stage: StreamStage::AfterLastManifest }, StreamAction::FetchManifest),
            },
            StreamStage::AfterLastManifest => (self, StreamAction::Failed(internal("No playable stream URL could be resolved"))),
        }
    }
}

/// A resolution asks for the adaptive manifest at most twice: after the last
/// stage, a fetch always ends it.
pub proof fn law_stream_resolution_ends(direct: Option<Seq<char>>, fetched: Option<Seq<char>>)
    ensures
        !(stream_after_fetch_spec(StreamStage::AfterLastManifest, direct, fetched) is Fetch),
        stream_after_fetch_spec(StreamStage::AfterDashManifest, direct, fetched) matches StreamStep::Fetch(stage, _)
            ==> stage == StreamStage::AfterLastManifest,
{
}

/// A web client is handed the manifest's direct address whenever the track
/// has one, without any fetch.
pub proof fn law_web_prefers_direct(track_data: JsonView, platform: Option<Seq<char>>)
    requires
        prefers_direct(platform),
        direct_url_spec(track_data) matches Ok(Some(_)),
    ensures
        stream_begin_spec(track_data, platform) == StreamStep::Resolved(direct_url_spec(track_data)->Ok_0->0),
{
}

// ---------------------------------------------------------------------------
// Tracks

/// A cached track as the provider's description of it.
pub open spec fn track_from_record_spec(track_id: i64, t: TrackRecord, r: TrackItem) -> bool {
    &&& r.id == track_id
    &&& r.title == t.title
    &&& r.duration == t.duration
    &&& r.audio_quality is None
    &&& r.album == Some(AlbumData { title: t.album, cover: t.cover })
    &&& r.artists matches Some(a) && a@.len() == 1 && a@[0] == (ArtistData { name: t.artist })
}

impl TrackItem {
    /// The description of a track from its cached record.
    pub fn from_record(track_id: i64, t: TrackRecord) -> (r: TrackItem)
        ensures
            track_from_record_spec(track_id, t, r),
    {
        let mut artists: Vec<ArtistData> = Vec::new();
        artists.push(ArtistData { name: t.artist });
        TrackItem {
            id: track_id,
            title: t.title,
            duration: t.duration,
            audio_quality: None,
            album: Some(AlbumData { title: t.album, cover: t.cover }),
            artists: Some(artists),
        }
    }
}

/// The artist that a track is cached under: the name of its first artist, or
/// `Unknown`.
pub open spec fn cached_artist(item: TrackItem) -> Seq<char> {
    match item.artists {
        Some(a) => if a@.len() > 0 && a@[0].name is Some {
            a@[0].name->0@
        } else {
            "Unknown"@
        },
        None => "Unknown"@,
    }
}

impl TrackRecord {
    /// The record under which a described track is cached.
    pub fn from_item(item: &TrackItem) -> (r: TrackRecord)
        ensures
            r.title == item.title,
            r.artist matches Some(a) && a@ == cached_artist(*item),
            r.album == (match item.album { Some(a) => a.title, None => None }),
            r.cover == (match item.album { Some(a) => a.cover, None => None }),
            r.duration == item.duration,
    {
        let artist = match &item.artists {
            Some(a) => if a.len() > 0 {
                match &a[0].name {
                    Some(n) => n.clone(),
                    None => "Unknown".to_string(),
                }
            } else {
                "Unknown".to_string()
            },
            None => "Unknown".to_string(),
        };
        let (album, cover) = match &item.album {
            Some(a) => (a.title.clone(), a.cover.clone()),
            None => (None, None),
        };
        TrackRecord { title: item.title.clone(), artist: Some(artist), album, cover, duration: item.duration }
    }
}

/// The track description in the provider's answer to a request for a
/// track's description: its `data` member.
pub fn info_track_data(payload: &JsonValue) -> (r: Result<JsonValue, AppError>)
    ensures
        match member_value(payload@, "data"@) {
            Some(v) => r matches Ok(x) && x@ == v,
            None => r matches Err(AppError::InternalError(m)) && m@ == "Missing track data in info response"@,
        },
{
    match payload.member("data") {
        Some(v) => Ok(v),
        None => Err(internal("Missing track data in info response")),
    }
}

} // verus!
