use songdb::catalog::SongDb;
use songdb::dispatch::{
    blob_read, decimal_text, handle_http_request, handle_message, handle_songdb_request,
    plan_upload, query_param, snapshot_saved, song_stored, Action, Body, Origin, Wanted,
};
use songdb::registry::LiveUpdates;
use songdb::structs::{
    HttpRequest, IncomingMessage, Song, SongDbRequest, SongDbResponse, Tag, WsMessageType,
};
use songdb::upload::UploadForm;
use std::collections::HashMap;

fn request(method: &str, path: &str, query: &[(&str, &str)], content_type: Option<&str>) -> HttpRequest {
    HttpRequest {
        method: method.to_string(),
        path: path.to_string(),
        query: query.iter().map(|(k, v)| (k.to_string(), v.to_string())).collect(),
        content_type: content_type.map(|c| c.to_string()),
    }
}

fn upload_body(name: Option<&str>, tag: Option<&str>, file: Option<&[u8]>) -> Vec<u8> {
    let mut out = Vec::new();
    if let Some(n) = name {
        out.extend_from_slice(b"--XBOUND\r\nContent-Disposition: form-data; name=\"name\"\r\n\r\n");
        out.extend_from_slice(n.as_bytes());
        out.extend_from_slice(b"\r\n");
    }
    if let Some(t) = tag {
        out.extend_from_slice(b"--XBOUND\r\nContent-Disposition: form-data; name=\"tag\"\r\n\r\n");
        out.extend_from_slice(t.as_bytes());
        out.extend_from_slice(b"\r\n");
    }
    if let Some(f) = file {
        out.extend_from_slice(
            b"--XBOUND\r\nContent-Disposition: form-data; name=\"file\"; filename=\"up.mp3\"\r\nContent-Type: audio/mpeg\r\n\r\n",
        );
        out.extend_from_slice(f);
        out.extend_from_slice(b"\r\n");
    }
    out.extend_from_slice(b"--XBOUND--\r\n");
    out
}

fn filed(db: &mut SongDb, name: &str, tag: &str) {
    db.add_song(Song::from_upload(name, Tag::from_key(tag), vec![1]), Ok(())).unwrap();
}

fn expect_text(action: Action, status: u16, text: &str, notify: Option<&str>) {
    match action {
        Action::Respond { response, notify: n } => {
            assert_eq!(response.status, status);
            assert!(response.headers.is_empty());
            assert!(matches!(response.body, Body::Text(ref t) if t == text));
            assert_eq!(n.as_deref(), notify);
        }
        other => panic!("unexpected action {:?}", other),
    }
}

const UPLOAD_TYPE: &str = "multipart/form-data; boundary=XBOUND";

#[test]
fn upload_scenario_end_to_end() {
    let mut store: HashMap<String, Vec<u8>> = HashMap::new();
    let mut db = SongDb::new("/music");
    let mut channels = LiveUpdates::new();
    assert!(matches!(
        handle_message(
            &db,
            &mut channels,
            IncomingMessage::WebSocketOpen { path: "/".to_string(), channel_id: 5 },
            None
        ),
        Action::Nothing
    ));

    let data = b"seventeen bytes!!".to_vec();
    assert_eq!(data.len(), 17);
    let body = upload_body(Some("demo"), Some("lofi"), Some(&data));
    let upload = request("POST", "/upload_song", &[], Some(UPLOAD_TYPE));
    let action = handle_message(&db, &mut channels, IncomingMessage::Http(upload), Some(body));
    let (path, song, origin) = match action {
        Action::WriteBlob { path, song, origin } => (path, song, origin),
        other => panic!("unexpected action {:?}", other),
    };
    assert_eq!(path, "/music/demo.mp3");
    assert_eq!(song.id, "demo.mp3");
    assert_eq!(song.name, "demo");
    assert_eq!(song.data, data);
    assert_eq!(song.tag.key, "lofi");
    assert_eq!(song.tag.name, Some("lofi".to_string()));
    assert_eq!(origin, Origin::Http);
    assert!(db.list_all_songs().is_empty());

    store.insert(path, song.data.clone());
    let action = song_stored(&mut db, song, origin, Ok(()));
    let origin = match action {
        Action::Persist { snapshot, origin } => {
            assert_eq!(snapshot.vfs_dir_path, "/music");
            assert_eq!(snapshot.songs.len(), 1);
            assert_eq!(snapshot.songs[0].0, "lofi");
            assert_eq!(snapshot.songs[0].1.len(), 1);
            assert_eq!(snapshot.songs[0].1[0].id, "demo.mp3");
            assert!(snapshot.songs[0].1[0].data.is_empty());
            origin
        }
        other => panic!("unexpected action {:?}", other),
    };
    let action = snapshot_saved(origin, Ok(()));
    let notify = match action {
        Action::Respond { response, notify } => {
            assert_eq!(response.status, 200);
            assert!(matches!(response.body, Body::Text(ref t) if t == "Song uploaded successfully"));
            notify.unwrap()
        }
        other => panic!("unexpected action {:?}", other),
    };
    let pushes = channels.broadcast(&notify);
    assert_eq!(pushes.len(), 1);
    assert_eq!(pushes[0].channel_id, 5);
    assert_eq!(pushes[0].payload, "{\"type\":\"update\",\"data\":\"Song uploaded successfully\"}");

    let list = request("GET", "/list_all_songs", &[], None);
    match handle_http_request(&db, &list, None) {
        Action::Respond { response, notify } => {
            assert_eq!(response.status, 200);
            assert_eq!(
                response.headers,
                vec![("Content-Type".to_string(), "application/json".to_string())]
            );
            assert!(notify.is_none());
            match response.body {
                Body::Listing(songs) => {
                    assert_eq!(songs.len(), 1);
                    assert_eq!(songs[0].id, "demo.mp3");
                    assert_eq!(songs[0].name, "demo");
                    assert_eq!(songs[0].tag.key, "lofi");
                    assert!(songs[0].data.is_empty());
                }
                other => panic!("unexpected body {:?}", other),
            }
        }
        other => panic!("unexpected action {:?}", other),
    }

    let stream = request("GET", "/stream_audio", &[("id", "demo.mp3")], None);
    let (path, wanted) = match handle_http_request(&db, &stream, None) {
        Action::ReadBlob { path, wanted } => (path, wanted),
        other => panic!("unexpected action {:?}", other),
    };
    assert_eq!(path, "/music/demo.mp3");
    let read = store.get(&path).cloned().ok_or_else(|| "not found".to_string());
    match blob_read(wanted, read) {
        Action::Respond { response, notify } => {
            assert_eq!(response.status, 200);
            assert_eq!(
                response.headers,
                vec![
                    ("Content-Type".to_string(), "audio/mpeg".to_string()),
                    ("Content-Length".to_string(), "17".to_string()),
                ]
            );
            assert!(matches!(response.body, Body::Audio(ref b) if *b == data));
            assert!(notify.is_none());
        }
        other => panic!("unexpected action {:?}", other),
    }
}

#[test]
fn songs_from_tag_without_tag_is_a_client_error() {
    let mut db = SongDb::new("/music");
    filed(&mut db, "a", "rock");
    let req = request("GET", "/get_songs_from_tag", &[("other", "x")], None);
    expect_text(
        handle_http_request(&db, &req, None),
        400,
        "No tag provided",
        Some("Error: No tag provided"),
    );
    let list = request("GET", "/list_all_songs", &[], None);
    match handle_http_request(&db, &list, None) {
        Action::Respond { response, .. } => match response.body {
            Body::Listing(songs) => {
                assert_eq!(songs.len(), 1);
                assert_eq!(songs[0].id, "a.mp3");
            }
            other => panic!("unexpected body {:?}", other),
        },
        other => panic!("unexpected action {:?}", other),
    }
}

#[test]
fn songs_from_tag_lists_the_bucket() {
    let mut db = SongDb::new("/music");
    filed(&mut db, "a", "rock");
    filed(&mut db, "b", "jazz");
    filed(&mut db, "c", "rock");
    let req = request("GET", "/get_songs_from_tag", &[("tag", "rock")], None);
    match handle_http_request(&db, &req, None) {
        Action::Respond { response, notify } => {
            assert_eq!(response.status, 200);
            assert!(notify.is_none());
            match response.body {
                Body::Songs(songs) => {
                    let ids: Vec<&str> = songs.iter().map(|s| s.id.as_str()).collect();
                    assert_eq!(ids, vec!["a.mp3", "c.mp3"]);
                }
                other => panic!("unexpected body {:?}", other),
            }
        }
        other => panic!("unexpected action {:?}", other),
    }
    let req = request("GET", "/get_songs_from_tag", &[("tag", "folk")], None);
    match handle_http_request(&db, &req, None) {
        Action::Respond { response, .. } => {
            assert!(matches!(response.body, Body::Songs(ref s) if s.is_empty()))
        }
        other => panic!("unexpected action {:?}", other),
    }
}

#[test]
fn upload_without_tag_is_rejected_and_changes_nothing() {
    let db = SongDb::new("/music");
    let mut channels = LiveUpdates::new();
    let body = upload_body(Some("demo"), None, Some(b"abc"));
    let upload = request("POST", "/upload_song", &[], Some(UPLOAD_TYPE));
    let action = handle_message(&db, &mut channels, IncomingMessage::Http(upload), Some(body));
    expect_text(action, 400, "Missing required fields for song upload", None);
    assert!(db.get_all_tags().is_empty());
    assert!(db.list_all_songs().is_empty());
}

#[test]
fn upload_without_name_or_file_is_rejected() {
    let db = SongDb::new("/music");
    let upload = request("POST", "/upload_song", &[], Some(UPLOAD_TYPE));
    let body = upload_body(None, Some("lofi"), Some(b"abc"));
    expect_text(
        handle_http_request(&db, &upload, Some(body)),
        400,
        "Missing required fields for song upload",
        None,
    );
    let body = upload_body(Some("demo"), Some("lofi"), None);
    expect_text(
        handle_http_request(&db, &upload, Some(body)),
        400,
        "Missing required fields for song upload",
        None,
    );
}

#[test]
fn upload_without_blob_or_boundary_is_a_client_error() {
    let db = SongDb::new("/music");
    let upload = request("POST", "/upload_song", &[], Some(UPLOAD_TYPE));
    expect_text(
        handle_http_request(&db, &upload, None),
        400,
        "No blob provided for song upload",
        Some("Error: No blob provided for song upload"),
    );
    let upload = request("POST", "/upload_song", &[], None);
    expect_text(
        handle_http_request(&db, &upload, Some(vec![1])),
        400,
        "upload, Content-Type header not found",
        Some("Error: upload, Content-Type header not found"),
    );
    let upload = request("POST", "/upload_song", &[], Some("multipart/form-data"));
    expect_text(
        handle_http_request(&db, &upload, Some(vec![1])),
        400,
        "upload fail, no boundary found in POST content type",
        Some("Error: upload fail, no boundary found in POST content type"),
    );
    let upload = request("POST", "/upload_song", &[], Some(UPLOAD_TYPE));
    expect_text(
        handle_http_request(&db, &upload, Some(b"garbage".to_vec())),
        400,
        "Error reading multipart entry",
        Some("Error: Error reading multipart entry"),
    );
}

#[test]
fn unknown_routes_are_not_found() {
    let db = SongDb::new("/music");
    expect_text(handle_http_request(&db, &request("GET", "/nope", &[], None), None), 404, "Not Found", None);
    expect_text(
        handle_http_request(&db, &request("POST", "/list_all_songs", &[], None), None),
        404,
        "Not Found",
        None,
    );
    expect_text(
        handle_http_request(&db, &request("GET", "/upload_song", &[], None), None),
        404,
        "Not Found",
        None,
    );
}

#[test]
fn stream_without_id_is_a_client_error() {
    let db = SongDb::new("/music");
    expect_text(
        handle_http_request(&db, &request("GET", "/stream_audio", &[], None), None),
        400,
        "No song ID provided",
        Some("Error: No song ID provided"),
    );
}

#[test]
fn stream_of_a_missing_blob_is_not_found() {
    expect_text(
        blob_read(Wanted::Stream, Err("no such file".to_string())),
        404,
        "Audio file not found",
        None,
    );
}

#[test]
fn failed_write_is_a_server_error_and_files_nothing() {
    let mut db = SongDb::new("/music");
    let song = Song::from_upload("demo", Tag::from_key("lofi"), vec![1, 2]);
    let action = song_stored(&mut db, song, Origin::Http, Err("disk full".to_string()));
    expect_text(action, 500, "Failed to upload song: storage failure: disk full", None);
    assert!(db.list_all_songs().is_empty());
    let song = Song::from_upload("demo", Tag::from_key("lofi"), vec![1, 2]);
    match song_stored(&mut db, song, Origin::Direct, Err("disk full".to_string())) {
        Action::Reply { response, notify } => {
            assert!(matches!(response, SongDbResponse::Error(ref e)
                if e == "Failed to upload song: storage failure: disk full"));
            assert!(notify.is_none());
        }
        other => panic!("unexpected action {:?}", other),
    }
}

#[test]
fn failed_save_is_reported() {
    expect_text(
        snapshot_saved(Origin::Http, Err("quota".to_string())),
        500,
        "Failed to upload song: persistence failure: quota",
        None,
    );
    match snapshot_saved(Origin::Direct, Ok(())) {
        Action::Reply { response, notify } => {
            assert!(matches!(response, SongDbResponse::SongAdded));
            assert_eq!(notify.as_deref(), Some("Song uploaded successfully"));
        }
        other => panic!("unexpected action {:?}", other),
    }
}

#[test]
fn channel_events_reach_the_registry() {
    let db = SongDb::new("/music");
    let mut channels = LiveUpdates::new();
    let open = IncomingMessage::WebSocketOpen { path: "/".to_string(), channel_id: 1 };
    assert!(matches!(handle_message(&db, &mut channels, open, None), Action::Nothing));
    let open = IncomingMessage::WebSocketOpen { path: "/".to_string(), channel_id: 2 };
    assert!(matches!(handle_message(&db, &mut channels, open, None), Action::Nothing));
    let push = IncomingMessage::WebSocketPush { channel_id: 1, message_type: WsMessageType::Text };
    assert!(matches!(handle_message(&db, &mut channels, push, None), Action::Nothing));
    assert!(channels.is_open(1) && channels.is_open(2));
    let close = IncomingMessage::WebSocketClose(1);
    assert!(matches!(handle_message(&db, &mut channels, close, None), Action::Nothing));
    assert!(!channels.is_open(1));
    let ids: Vec<u32> = channels.broadcast("x").iter().map(|p| p.channel_id).collect();
    assert_eq!(ids, vec![2]);
}

#[test]
fn direct_requests_are_served() {
    let mut db = SongDb::new("/music");
    filed(&mut db, "a", "rock");
    filed(&mut db, "b", "jazz");
    match handle_songdb_request(&db, SongDbRequest::GetSongsByTag("jazz".to_string()), None) {
        Action::Reply { response: SongDbResponse::Songs(songs), notify: None } => {
            assert_eq!(songs.len(), 1);
            assert_eq!(songs[0].id, "b.mp3");
            assert!(songs[0].data.is_empty());
        }
        other => panic!("unexpected action {:?}", other),
    }
    match handle_songdb_request(&db, SongDbRequest::GetAllTags, None) {
        Action::Reply { response: SongDbResponse::Tags(tags), notify: None } => {
            assert_eq!(tags, vec!["rock".to_string(), "jazz".to_string()]);
        }
        other => panic!("unexpected action {:?}", other),
    }
    let mut channels = LiveUpdates::new();
    let msg = IncomingMessage::SongDb(SongDbRequest::GetAllTags);
    assert!(matches!(
        handle_message(&db, &mut channels, msg, None),
        Action::Reply { response: SongDbResponse::Tags(_), .. }
    ));
}

#[test]
fn direct_get_song_returns_the_bytes_read() {
    let mut db = SongDb::new("/music");
    filed(&mut db, "a", "rock");
    let (path, wanted) =
        match handle_songdb_request(&db, SongDbRequest::GetSong("a.mp3".to_string()), None) {
            Action::ReadBlob { path, wanted } => (path, wanted),
            other => panic!("unexpected action {:?}", other),
        };
    assert_eq!(path, "/music/a.mp3");
    match blob_read(wanted, Ok(vec![9, 8, 7])) {
        Action::Reply { response: SongDbResponse::Song(song), notify: None } => {
            assert_eq!(song.id, "a.mp3");
            assert_eq!(song.name, "a");
            assert_eq!(song.tag.key, "rock");
            assert_eq!(song.data, vec![9, 8, 7]);
        }
        other => panic!("unexpected action {:?}", other),
    }
    match handle_songdb_request(&db, SongDbRequest::GetSong("zz.mp3".to_string()), None) {
        Action::Reply { response: SongDbResponse::Error(e), notify: None } => {
            assert_eq!(e, "Song not found")
        }
        other => panic!("unexpected action {:?}", other),
    }
    let wanted = Wanted::Song(Song::from_upload("a", Tag::from_key("rock"), Vec::new()));
    match blob_read(wanted, Err("gone".to_string())) {
        Action::Reply { response: SongDbResponse::Error(e), notify: None } => {
            assert_eq!(e, "Failed to read song: storage failure: gone")
        }
        other => panic!("unexpected action {:?}", other),
    }
}

#[test]
fn direct_add_and_upload_ask_for_a_write() {
    let db = SongDb::new("/music");
    let song = Song {
        id: "own-id".to_string(),
        name: "n".to_string(),
        data: vec![1, 2, 3],
        tag: Tag { key: "k".to_string(), name: None },
    };
    match handle_songdb_request(&db, SongDbRequest::AddSong(song), None) {
        Action::WriteBlob { path, song, origin } => {
            assert_eq!(path, "/music/own-id");
            assert_eq!(song.data, vec![1, 2, 3]);
            assert_eq!(origin, Origin::Direct);
        }
        other => panic!("unexpected action {:?}", other),
    }
    let upload = SongDbRequest::UploadSong {
        name: "demo".to_string(),
        tag: Tag { key: "lofi".to_string(), name: Some("Lo-Fi".to_string()) },
    };
    match handle_songdb_request(&db, upload, Some(vec![4, 5])) {
        Action::WriteBlob { path, song, origin } => {
            assert_eq!(path, "/music/demo.mp3");
            assert_eq!(song.id, "demo.mp3");
            assert_eq!(song.data, vec![4, 5]);
            assert_eq!(song.tag.name, Some("Lo-Fi".to_string()));
            assert_eq!(origin, Origin::Direct);
        }
        other => panic!("unexpected action {:?}", other),
    }
    let upload = SongDbRequest::UploadSong { name: "demo".to_string(), tag: Tag::from_key("lofi") };
    match handle_songdb_request(&db, upload, None) {
        Action::Reply { response: SongDbResponse::Error(e), notify } => {
            assert_eq!(e, "No blob provided for song upload");
            assert_eq!(notify.as_deref(), Some("Error: No blob provided for song upload"));
        }
        other => panic!("unexpected action {:?}", other),
    }
}

#[test]
fn plan_upload_needs_all_three_values() {
    let db = SongDb::new("/r");
    let full = UploadForm { name: "n".to_string(), tag_key: "t".to_string(), file: vec![0] };
    assert!(matches!(plan_upload(&db, full), Action::WriteBlob { ref path, .. } if path == "/r/n.mp3"));
    let no_name = UploadForm { name: String::new(), tag_key: "t".to_string(), file: vec![0] };
    expect_text(plan_upload(&db, no_name), 400, "Missing required fields for song upload", None);
    let no_tag = UploadForm { name: "n".to_string(), tag_key: String::new(), file: vec![0] };
    expect_text(plan_upload(&db, no_tag), 400, "Missing required fields for song upload", None);
    let no_file = UploadForm { name: "n".to_string(), tag_key: "t".to_string(), file: Vec::new() };
    expect_text(plan_upload(&db, no_file), 400, "Missing required fields for song upload", None);
}

#[test]
fn first_query_parameter_wins() {
    let req = request("GET", "/", &[("a", "1"), ("b", "2"), ("a", "3")], None);
    assert_eq!(query_param(&req, "a"), Some("1".to_string()));
    assert_eq!(query_param(&req, "b"), Some("2".to_string()));
    assert_eq!(query_param(&req, "c"), None);
}

#[test]
fn decimal_numerals() {
    assert_eq!(decimal_text(0), "0");
    assert_eq!(decimal_text(7), "7");
    assert_eq!(decimal_text(10), "10");
    assert_eq!(decimal_text(17), "17");
    assert_eq!(decimal_text(1203), "1203");
    assert_eq!(decimal_text(usize::MAX), usize::MAX.to_string());
}
