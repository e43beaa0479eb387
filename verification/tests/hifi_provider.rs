use backend::errors::AppError;
use backend::json::JsonValue;
use backend::music::{
    info_track_data, legacy_search_url, legacy_stream_url, manifest_stream_url, manifest_url_from_response, search_url,
    track_details_url, track_info_url, track_manifest_url, AlbumData, ArtistData, HifiProvider, StreamAction,
    StreamResolver, StreamStage, TrackItem, TrackRecord,
};
use base64::{engine::general_purpose::STANDARD, Engine};

fn parse(text: &str) -> JsonValue {
    JsonValue::parse(text.as_bytes()).expect("test JSON should parse")
}

fn bts_track_data(manifest_json: &str) -> JsonValue {
    let encoded = STANDARD.encode(manifest_json);
    parse(&format!(
        r#"{{"manifestMimeType":"application/vnd.tidal.bts","manifest":"{}"}}"#,
        encoded
    ))
}

fn internal_message(e: &AppError) -> String {
    match e {
        AppError::InternalError(m) => m.clone(),
        other => panic!("expected an internal error, got {:?}", other),
    }
}

#[test]
fn extracts_direct_stream_url_from_bts_manifest() {
    let track_data = bts_track_data(
        r#"{"mimeType":"audio/flac","codecs":"flac","encryptionType":"NONE","urls":["https://example.com/audio.flac"]}"#,
    );

    let stream_url = HifiProvider::extract_direct_stream_url(&track_data)
        .expect("manifest should parse")
        .expect("url should exist");

    assert_eq!(stream_url, "https://example.com/audio.flac");
}

#[test]
fn ignores_dash_manifests_for_direct_url_extraction() {
    let track_data = parse(r#"{"manifestMimeType":"application/dash+xml","manifest":"PG1wZD48L21wZD4="}"#);

    let stream_url = HifiProvider::extract_direct_stream_url(&track_data)
        .expect("manifest detection should not fail");

    assert!(stream_url.is_none());
}

#[test]
fn direct_url_requires_a_manifest_field() {
    let track_data = parse(r#"{"manifestMimeType":"application/vnd.tidal.bts"}"#);
    let err = HifiProvider::extract_direct_stream_url(&track_data).unwrap_err();
    assert_eq!(internal_message(&err), "Missing or invalid manifest field");
}

#[test]
fn direct_url_reports_bad_base64() {
    let track_data = parse(r#"{"manifestMimeType":"application/vnd.tidal.bts","manifest":"***"}"#);
    let err = HifiProvider::extract_direct_stream_url(&track_data).unwrap_err();
    assert_eq!(internal_message(&err), "Failed to decode manifest base64");
}

#[test]
fn direct_url_reports_bad_manifest_json() {
    let track_data = bts_track_data("not json");
    let err = HifiProvider::extract_direct_stream_url(&track_data).unwrap_err();
    assert_eq!(internal_message(&err), "Failed to parse manifest JSON");
}

#[test]
fn direct_url_reports_missing_url_list() {
    let track_data = bts_track_data(r#"{"mimeType":"audio/flac"}"#);
    let err = HifiProvider::extract_direct_stream_url(&track_data).unwrap_err();
    assert_eq!(internal_message(&err), "No URLs found in manifest");
}

#[test]
fn direct_url_reports_empty_or_non_string_list() {
    let empty = bts_track_data(r#"{"urls":[]}"#);
    let err = HifiProvider::extract_direct_stream_url(&empty).unwrap_err();
    assert_eq!(internal_message(&err), "No playable URL found in manifest");
    let number = bts_track_data(r#"{"urls":[42]}"#);
    let err = HifiProvider::extract_direct_stream_url(&number).unwrap_err();
    assert_eq!(internal_message(&err), "No playable URL found in manifest");
}

#[test]
fn legacy_stream_url_reads_any_manifest() {
    let encoded = STANDARD.encode(r#"{"urls":["https://a.example/x","https://b.example/y"]}"#);
    let data = parse(&format!(r#"{{"manifest":"{}"}}"#, encoded));
    assert_eq!(legacy_stream_url(&data).unwrap(), "https://a.example/x");
    assert_eq!(manifest_stream_url(&encoded).unwrap(), "https://a.example/x");
    let missing = parse(r#"{"other":1}"#);
    assert_eq!(internal_message(&legacy_stream_url(&missing).unwrap_err()), "Missing or invalid manifest field");
}

#[test]
fn web_clients_get_the_direct_url_at_once() {
    let data = bts_track_data(r#"{"urls":["https://example.com/a.flac"]}"#);
    let (_, action) = StreamResolver::begin(&data, Some("WeB"));
    match action {
        StreamAction::Resolved(u) => assert_eq!(u, "https://example.com/a.flac"),
        other => panic!("unexpected {:?}", other),
    }
}

#[test]
fn other_clients_also_get_the_direct_url_of_a_bts_manifest() {
    let data = bts_track_data(r#"{"urls":["https://example.com/a.flac"]}"#);
    let (_, action) = StreamResolver::begin(&data, Some("android"));
    match action {
        StreamAction::Resolved(u) => assert_eq!(u, "https://example.com/a.flac"),
        other => panic!("unexpected {:?}", other),
    }
}

#[test]
fn dash_tracks_fetch_the_manifest_then_fail_after_two_misses() {
    let data = parse(r#"{"manifestMimeType":"application/dash+xml","manifest":"PG1wZD48L21wZD4="}"#);
    let (state, action) = StreamResolver::begin(&data, None);
    assert!(matches!(action, StreamAction::FetchManifest));
    assert_eq!(state.stage, StreamStage::AfterDashManifest);
    let (state, action) = state.on_manifest(None);
    assert!(matches!(action, StreamAction::FetchManifest));
    assert_eq!(state.stage, StreamStage::AfterLastManifest);
    let (_, action) = state.on_manifest(None);
    match action {
        StreamAction::Failed(e) => assert_eq!(internal_message(&e), "No playable stream URL could be resolved"),
        other => panic!("unexpected {:?}", other),
    }
}

#[test]
fn dash_tracks_use_the_fetched_manifest() {
    let data = parse(r#"{"manifestMimeType":"application/dash+xml"}"#);
    let (state, _) = StreamResolver::begin(&data, Some("web"));
    let (_, action) = state.on_manifest(Some("https://cdn.example/m.m3u8".to_string()));
    match action {
        StreamAction::Resolved(u) => assert_eq!(u, "https://cdn.example/m.m3u8"),
        other => panic!("unexpected {:?}", other),
    }
}

#[test]
fn resolution_fails_on_a_broken_manifest() {
    let data = bts_track_data("[]");
    let (_, action) = StreamResolver::begin(&data, None);
    match action {
        StreamAction::Failed(e) => assert_eq!(internal_message(&e), "No URLs found in manifest"),
        other => panic!("unexpected {:?}", other),
    }
}

#[test]
fn manifest_url_prefers_uri_over_url() {
    let both = parse(r#"{"data":{"data":{"attributes":{"uri":"https://u","url":"https://v"}}}}"#);
    assert_eq!(manifest_url_from_response(&both).as_deref(), Some("https://u"));
    let url_only = parse(r#"{"data":{"data":{"attributes":{"url":"https://v"}}}}"#);
    assert_eq!(manifest_url_from_response(&url_only).as_deref(), Some("https://v"));
    let none = parse(r#"{"data":{"data":{}}}"#);
    assert_eq!(manifest_url_from_response(&none), None);
    let not_string = parse(r#"{"data":{"data":{"attributes":{"uri":7,"url":"https://v"}}}}"#);
    assert_eq!(manifest_url_from_response(&not_string), None);
}

#[test]
fn provider_addresses() {
    assert_eq!(search_url("localhost", "daft punk&co"), "http://localhost:8000/search/?s=daft%20punk%26co");
    assert_eq!(search_url("h", "é~"), "http://h:8000/search/?s=%C3%A9~");
    assert_eq!(legacy_search_url("a b"), "http://localhost:8000/search/?s=a b");
    assert_eq!(track_details_url("h", 42), "http://h:8000/track/?id=42&quality=HIGH");
    assert_eq!(track_info_url("h", -7), "http://h:8000/info/?id=-7");
    assert_eq!(
        track_manifest_url("h", 9),
        "http://h:8000/trackManifests/?id=9&adaptive=true&manifestType=HLS&uriScheme=HTTPS&usage=PLAYBACK&formats=AACLC"
    );
}

#[test]
fn cached_tracks_round_trip_through_descriptions() {
    let record = TrackRecord {
        title: "Song".to_string(),
        artist: Some("Band".to_string()),
        album: Some("Album".to_string()),
        cover: None,
        duration: 180,
    };
    let item = TrackItem::from_record(5, record.clone());
    assert_eq!(item.id, 5);
    assert_eq!(item.title, "Song");
    assert!(item.audio_quality.is_none());
    assert_eq!(item.artists.as_ref().unwrap()[0].name.as_deref(), Some("Band"));
    let back = TrackRecord::from_item(&item);
    assert_eq!(back.title, "Song");
    assert_eq!(back.artist.as_deref(), Some("Band"));
    assert_eq!(back.album.as_deref(), Some("Album"));
    assert_eq!(back.duration, 180);
}

#[test]
fn uncredited_tracks_are_cached_under_unknown() {
    let item = TrackItem {
        id: 1,
        title: "T".to_string(),
        duration: 3,
        audio_quality: None,
        album: Some(AlbumData { title: None, cover: Some("c".to_string()) }),
        artists: Some(vec![ArtistData { name: None }]),
    };
    let rec = TrackRecord::from_item(&item);
    assert_eq!(rec.artist.as_deref(), Some("Unknown"));
    assert_eq!(rec.cover.as_deref(), Some("c"));
    let bare = TrackItem { id: 1, title: "T".to_string(), duration: 3, audio_quality: None, album: None, artists: None };
    assert_eq!(TrackRecord::from_item(&bare).artist.as_deref(), Some("Unknown"));
}

#[test]
fn info_answers_must_carry_data() {
    let ok = parse(r#"{"data":{"id":1,"title":"x"}}"#);
    assert!(matches!(info_track_data(&ok), Ok(JsonValue::Object(_, _))));
    let missing = parse(r#"{"version":"1"}"#);
    assert_eq!(internal_message(&info_track_data(&missing).unwrap_err()), "Missing track data in info response");
}
