//! The request dispatcher: from the catalog's state and an incoming message
//! to the next thing the caller must do.
//!
//! The dispatcher performs no effect itself. Where a request needs the blob
//! store or the persisted state, it answers with the step to take, and the
//! caller hands the step's outcome to the function that continues from there.

use vstd::prelude::*;
use crate::catalog::{
    blob_path_of, persistence_failure, song_with_id, storage_failure, Snapshot, SongDb, SongDbView,
};
use crate::registry::LiveUpdates;
use crate::structs::{
    pair_views, song_id, song_views, HttpRequest, HttpRequestView, IncomingMessage, Song,
    SongDbRequest, SongDbRequestView, SongDbResponse, SongDbResponseView, SongView, Tag, TagView,
};
use crate::text::same_text;
use crate::upload::{boundary_of, extract_boundary, parse_form, parsed, UploadForm, UploadFormView};

verus! {

/// On which side the answer to a request is awaited.
#[derive(Debug, Clone, Copy, PartialEq, Eq, Structural)]
pub enum Origin {
    /// The HTTP surface.
    Http,
    /// The programmatic channel.
    Direct,
}

/// What a [`Body`] stands for in contracts.
pub enum BodyView {
    Text(Seq<char>),
    Songs(Seq<SongView>),
    Listing(Seq<SongView>),
    Audio(Seq<u8>),
}

/// The body of an HTTP response.
#[derive(Debug)]
pub enum Body {
    /// A plain message.
    Text(String),
    /// Songs, to be sent as a JSON array of whole song records.
    Songs(Vec<Song>),
    /// Songs, to be sent as a JSON array of `id`, `name` and `tag` only.
    Listing(Vec<Song>),
    /// Raw audio bytes.
    Audio(Vec<u8>),
}

impl View for Body {
    type V = BodyView;

    open spec fn view(&self) -> BodyView {
        match self {
            Body::Text(text) => BodyView::Text(text@),
            Body::Songs(songs) => BodyView::Songs(song_views(songs@)),
            Body::Listing(songs) => BodyView::Listing(song_views(songs@)),
            Body::Audio(bytes) => BodyView::Audio(bytes@),
        }
    }
}

/// What an [`HttpResponse`] stands for in contracts.
pub struct HttpResponseView {
    pub status: u16,
    pub headers: Seq<(Seq<char>, Seq<char>)>,
    pub body: BodyView,
}

/// An HTTP response: status, headers and body.
#[derive(Debug)]
pub struct HttpResponse {
    pub status: u16,
    pub headers: Vec<(String, String)>,
    pub body: Body,
}

impl View for HttpResponse {
    type V = HttpResponseView;

    open spec fn view(&self) -> HttpResponseView {
        HttpResponseView {
            status: self.status,
            headers: pair_views(self.headers@),
            body: self.body@,
        }
    }
}

/// What a [`Wanted`] stands for in contracts.
pub enum WantedView {
    Stream,
    Song(SongView),
}

/// What a blob is read for.
#[derive(Debug)]
pub enum Wanted {
    /// To stream it over HTTP.
    Stream,
    /// To answer on the programmatic channel with this song, bytes filled in.
    Song(Song),
}

impl View for Wanted {
    type V = WantedView;

    open spec fn view(&self) -> WantedView {
        match self {
            Wanted::Stream => WantedView::Stream,
            Wanted::Song(song) => WantedView::Song(song@),
        }
    }
}

/// What an [`Action`] stands for in contracts.
#[allow(inconsistent_fields)]
pub enum ActionView {
    Nothing,
    Respond { response: HttpResponseView, notify: Option<Seq<char>> },
    Reply { response: SongDbResponseView, notify: Option<Seq<char>> },
    ReadBlob { path: Seq<char>, wanted: WantedView },
    WriteBlob { path: Seq<char>, song: SongView, origin: Origin },
    Persist { snapshot: SongDbView, origin: Origin },
}

/// The next thing the caller must do.
#[derive(Debug)]
#[allow(inconsistent_fields)]
pub enum Action {
    /// Nothing at all.
    Nothing,
    /// Send `response` over HTTP; then, if `notify` holds a message,
    /// broadcast it to the live-update subscribers.
    Respond { response: HttpResponse, notify: Option<String> },
    /// Send `response` on the programmatic channel; then broadcast `notify`
    /// likewise.
    Reply { response: SongDbResponse, notify: Option<String> },
    /// Read the blob at `path` and continue with [`blob_read`].
    ReadBlob { path: String, wanted: Wanted },
    /// Write the bytes of `song` to the blob at `path` and continue with
    /// [`song_stored`].
    WriteBlob { path: String, song: Song, origin: Origin },
    /// Persist `snapshot` and continue with [`snapshot_saved`].
    Persist { snapshot: Snapshot, origin: Origin },
}

/// The view of an optional string.
pub open spec fn optional_text(text: Option<String>) -> Option<Seq<char>> {
    match text {
        Some(t) => Some(t@),
        None => None,
    }
}

/// The view of optional bytes.
pub open spec fn optional_bytes(bytes: Option<Vec<u8>>) -> Option<Seq<u8>> {
    match bytes {
        Some(b) => Some(b@),
        None => None,
    }
}

impl View for Action {
    type V = ActionView;

    open spec fn view(&self) -> ActionView {
        match self {
            Action::Nothing => ActionView::Nothing,
            Action::Respond { response, notify } => ActionView::Respond {
                response: response@,
                notify: optional_text(*notify),
            },
            Action::Reply { response, notify } => ActionView::Reply {
                response: response@,
                notify: optional_text(*notify),
            },
            Action::ReadBlob { path, wanted } => ActionView::ReadBlob { path: path@, wanted: wanted@ },
            Action::WriteBlob { path, song, origin } => ActionView::WriteBlob {
                path: path@,
                song: song@,
                origin: *origin,
            },
            Action::Persist { snapshot, origin } => ActionView::Persist {
                snapshot: snapshot@,
                origin: *origin,
            },
        }
    }
}

/// Status of a request that was served.
pub const STATUS_OK: u16 = 200;

/// Status of a request that the client got wrong.
pub const STATUS_BAD_REQUEST: u16 = 400;

/// Status of a request for what is not there.
pub const STATUS_NOT_FOUND: u16 = 404;

/// Status of a request that failed on the server's side.
pub const STATUS_SERVER_ERROR: u16 = 500;

/// The decimal digit `d` as a character.
pub open spec fn digit(d: nat) -> char {
    seq!['0', '1', '2', '3', '4', '5', '6', '7', '8', '9'][d as int]
}

/// The decimal numeral of `n`, without leading zeros.
pub open spec fn decimal(n: nat) -> Seq<char>
    decreases n,
{
    if n < 10 {
        seq![digit(n)]
    } else {
        decimal(n / 10).push(digit(n % 10))
    }
}

fn digit_text(d: usize) -> (text: &'static str)
    requires
        d < 10,
    ensures
        text@ == seq![digit(d as nat)],
{
    proof {
        reveal_strlit("0");
        reveal_strlit("1");
        reveal_strlit("2");
        reveal_strlit("3");
        reveal_strlit("4");
        reveal_strlit("5");
        reveal_strlit("6");
        reveal_strlit("7");
        reveal_strlit("8");
        reveal_strlit("9");
    }
    let text = if d == 0 {
        "0"
    } else if d == 1 {
        "1"
    } else if d == 2 {
        "2"
    } else if d == 3 {
        "3"
    } else if d == 4 {
        "4"
    } else if d == 5 {
        "5"
    } else if d == 6 {
        "6"
    } else if d == 7 {
        "7"
    } else if d == 8 {
        "8"
    } else {
        "9"
    };
    assert(text@ =~= seq![digit(d as nat)]);
    text
}

/// The decimal numeral of `n`.
pub fn decimal_text(n: usize) -> (text: String)
    ensures
        text@ == decimal(n as nat),
{
    if n < 10 {
        return String::from_str(digit_text(n));
    }
    let mut rest: usize = n;
    let mut text = String::new();
    while rest > 0
        invariant
            rest > 0 ==> decimal(n as nat) == decimal(rest as nat) + text@,
            rest == 0 ==> decimal(n as nat) == text@,
        decreases rest,
    {
        let d = rest % 10;
        let ghost before = text@;
        text = String::from_str(digit_text(d)).concat(text.as_str());
        proof {
            assert(text@ =~= seq![digit(d as nat)] + before);
            if rest < 10 {
                assert(decimal(rest as nat) + before =~= text@);
            } else {
                assert(decimal(rest as nat) + before =~= decimal((rest / 10) as nat) + text@);
            }
        }
        rest = rest / 10;
    }
    text
}

/// The response that carries `body` as JSON.
pub open spec fn json_response(body: BodyView) -> HttpResponseView {
    HttpResponseView {
        status: STATUS_OK,
        headers: seq![("Content-Type"@, "application/json"@)],
        body,
    }
}

/// The response that carries `message` and no headers.
pub open spec fn plain_response(status: u16, message: Seq<char>) -> HttpResponseView {
    HttpResponseView {
        status,
        headers: Seq::<(Seq<char>, Seq<char>)>::empty(),
        body: BodyView::Text(message),
    }
}

/// The response that streams `bytes` as audio, with their length declared.
pub open spec fn audio_response(bytes: Seq<u8>) -> HttpResponseView {
    HttpResponseView {
        status: STATUS_OK,
        headers: seq![
            ("Content-Type"@, "audio/mpeg"@),
            ("Content-Length"@, decimal(bytes.len())),
        ],
        body: BodyView::Audio(bytes),
    }
}

/// How a request that the client got wrong is answered: a bad-request
/// response with the reason, which is also broadcast as a diagnostic.
pub open spec fn client_error(why: Seq<char>) -> ActionView {
    ActionView::Respond {
        response: plain_response(STATUS_BAD_REQUEST, why),
        notify: Some("Error: "@ + why),
    }
}

/// How a failure is reported to the side that awaits the answer.
pub open spec fn failure_action(origin: Origin, message: Seq<char>) -> ActionView {
    match origin {
        Origin::Http => ActionView::Respond {
            response: plain_response(STATUS_SERVER_ERROR, message),
            notify: None,
        },
        Origin::Direct => ActionView::Reply {
            response: SongDbResponseView::Error(message),
            notify: None,
        },
    }
}

/// How a finished upload is reported: success to the side that awaits the
/// answer, and a notification to the subscribers.
pub open spec fn success_action(origin: Origin) -> ActionView {
    match origin {
        Origin::Http => ActionView::Respond {
            response: plain_response(STATUS_OK, "Song uploaded successfully"@),
            notify: Some("Song uploaded successfully"@),
        },
        Origin::Direct => ActionView::Reply {
            response: SongDbResponseView::SongAdded,
            notify: Some("Song uploaded successfully"@),
        },
    }
}

/// The value of the first query parameter called `key`.
pub open spec fn query_value(query: Seq<(Seq<char>, Seq<char>)>, key: Seq<char>) -> Option<
    Seq<char>,
>
    decreases query.len(),
{
    if query.len() == 0 {
        None
    } else if query[0].0 == key {
        Some(query[0].1)
    } else {
        query_value(query.drop_first(), key)
    }
}

/// The step that stores `song`: a write of its bytes at the path of its
/// identifier.
pub open spec fn store_action(db: SongDbView, song: SongView, origin: Origin) -> ActionView {
    ActionView::WriteBlob { path: blob_path_of(db.root, song.id), song, origin }
}

/// Whether an upload carries all three of its values.
pub open spec fn form_complete(form: UploadFormView) -> bool {
    form.name.len() > 0 && form.tag_key.len() > 0 && form.file.len() > 0
}

/// The song that a complete upload makes: its tag is displayed by its key.
pub open spec fn uploaded_song(form: UploadFormView) -> SongView {
    SongView {
        id: song_id(form.name),
        name: form.name,
        data: form.file,
        tag: TagView { key: form.tag_key, name: Some(form.tag_key) },
    }
}

/// What a decoded upload leads to: the step that stores its song, or a
/// bad-request response where a value is missing.
pub open spec fn form_action(db: SongDbView, form: UploadFormView) -> ActionView {
    if form_complete(form) {
        store_action(db, uploaded_song(form), Origin::Http)
    } else {
        ActionView::Respond {
            response: plain_response(
                STATUS_BAD_REQUEST,
                "Missing required fields for song upload"@,
            ),
            notify: None,
        }
    }
}

/// What an upload request leads to.
pub open spec fn upload_action(
    db: SongDbView,
    content_type: Option<Seq<char>>,
    blob: Option<Seq<u8>>,
) -> ActionView {
    match blob {
        None => client_error("No blob provided for song upload"@),
        Some(body) => match content_type {
            None => client_error("upload, Content-Type header not found"@),
            Some(declared) => match boundary_of(declared) {
                None => client_error("upload fail, no boundary found in POST content type"@),
                Some(boundary) => match parsed(body, boundary) {
                    Err(_) => client_error("Error reading multipart entry"@),
                    Ok(form) => form_action(db, form),
                },
            },
        },
    }
}

/// What an HTTP request leads to, route by route.
pub open spec fn http_action(db: SongDbView, request: HttpRequestView, blob: Option<Seq<u8>>) -> ActionView {
    if request.method == "GET"@ && request.path == "/get_songs_from_tag"@ {
        match query_value(request.query, "tag"@) {
            None => client_error("No tag provided"@),
            Some(tag) => ActionView::Respond {
                response: json_response(BodyView::Songs(db.songs_by_tag(tag))),
                notify: None,
            },
        }
    } else if request.method == "GET"@ && request.path == "/list_all_songs"@ {
        ActionView::Respond {
            response: json_response(BodyView::Listing(db.all_songs())),
            notify: None,
        }
    } else if request.method == "GET"@ && request.path == "/stream_audio"@ {
        match query_value(request.query, "id"@) {
            None => client_error("No song ID provided"@),
            Some(id) => ActionView::ReadBlob {
                path: blob_path_of(db.root, id),
                wanted: WantedView::Stream,
            },
        }
    } else if request.method == "POST"@ && request.path == "/upload_song"@ {
        upload_action(db, request.content_type, blob)
    } else {
        ActionView::Respond {
            response: plain_response(STATUS_NOT_FOUND, "Not Found"@),
            notify: None,
        }
    }
}

/// What a request on the programmatic channel leads to.
pub open spec fn songdb_action(db: SongDbView, request: SongDbRequestView, blob: Option<Seq<u8>>) -> ActionView {
    match request {
        SongDbRequestView::GetSongsByTag(tag) => ActionView::Reply {
            response: SongDbResponseView::Songs(db.songs_by_tag(tag)),
            notify: None,
        },
        SongDbRequestView::GetSong(id) => match song_with_id(db.all_songs(), id) {
            None => ActionView::Reply {
                response: SongDbResponseView::Error("Song not found"@),
                notify: None,
            },
            Some(song) => ActionView::ReadBlob {
                path: blob_path_of(db.root, id),
                wanted: WantedView::Song(song),
            },
        },
        SongDbRequestView::GetAllTags => ActionView::Reply {
            response: SongDbResponseView::Tags(db.all_tags()),
            notify: None,
        },
        SongDbRequestView::AddSong(song) => store_action(db, song, Origin::Direct),
        SongDbRequestView::UploadSong { name, tag } => match blob {
            None => ActionView::Reply {
                response: SongDbResponseView::Error("No blob provided for song upload"@),
                notify: Some("Error: "@ + "No blob provided for song upload"@),
            },
            Some(bytes) => store_action(
                db,
                SongView { id: song_id(name), name, data: bytes, tag },
                Origin::Direct,
            ),
        },
    }
}

/// What the outcome of a blob read leads to.
pub open spec fn read_action(wanted: WantedView, read: Result<Seq<u8>, Seq<char>>) -> ActionView {
    match wanted {
        WantedView::Stream => match read {
            Ok(bytes) => ActionView::Respond { response: audio_response(bytes), notify: None },
            Err(_) => ActionView::Respond {
                response: plain_response(STATUS_NOT_FOUND, "Audio file not found"@),
                notify: None,
            },
        },
        WantedView::Song(song) => match read {
            Ok(bytes) => ActionView::Reply {
                response: SongDbResponseView::Song(
                    SongView { id: song.id, name: song.name, data: bytes, tag: song.tag },
                ),
                notify: None,
            },
            Err(why) => ActionView::Reply {
                response: SongDbResponseView::Error(
                    "Failed to read song: "@ + storage_failure(why),
                ),
                notify: None,
            },
        },
    }
}

fn plain(status: u16, message: &str) -> (response: HttpResponse)
    ensures
        response@ == plain_response(status, message@),
{
    let response = HttpResponse {
        status,
        headers: Vec::new(),
        body: Body::Text(String::from_str(message)),
    };
    assert(pair_views(response.headers@) =~= Seq::<(Seq<char>, Seq<char>)>::empty());
    response
}

fn json(body: Body) -> (response: HttpResponse)
    ensures
        response@ == json_response(body@),
{
    let mut headers: Vec<(String, String)> = Vec::new();
    headers.push((String::from_str("Content-Type"), String::from_str("application/json")));
    assert(pair_views(headers@) =~= seq![("Content-Type"@, "application/json"@)]);
    HttpResponse { status: STATUS_OK, headers, body }
}

fn audio(bytes: Vec<u8>) -> (response: HttpResponse)
    ensures
        response@ == audio_response(bytes@),
{
    let mut headers: Vec<(String, String)> = Vec::new();
    headers.push((String::from_str("Content-Type"), String::from_str("audio/mpeg")));
    headers.push((String::from_str("Content-Length"), decimal_text(bytes.len())));
    assert(pair_views(headers@) =~= seq![
        ("Content-Type"@, "audio/mpeg"@),
        ("Content-Length"@, decimal(bytes@.len())),
    ]);
    HttpResponse { status: STATUS_OK, headers, body: Body::Audio(bytes) }
}

fn reject(why: &str) -> (action: Action)
    ensures
        action@ == client_error(why@),
{
    Action::Respond {
        response: plain(STATUS_BAD_REQUEST, why),
        notify: Some(String::from_str("Error: ").concat(why)),
    }
}

fn failed(origin: Origin, message: String) -> (action: Action)
    ensures
        action@ == failure_action(origin, message@),
{
    match origin {
        Origin::Http => Action::Respond {
            response: plain(STATUS_SERVER_ERROR, message.as_str()),
            notify: None,
        },
        Origin::Direct => Action::Reply { response: SongDbResponse::Error(message), notify: None },
    }
}

fn store(db: &SongDb, song: Song, origin: Origin) -> (action: Action)
    ensures
        action@ == store_action(db@, song@, origin),
{
    let path = db.blob_path(song.id.as_str());
    Action::WriteBlob { path, song, origin }
}

/// The side that a message from the process `process` came in on: the HTTP
/// surface for the HTTP server's process, the programmatic channel for any
/// other.
pub open spec fn origin_of(process: Seq<char>) -> Origin {
    if process == "http_server:distro:sys"@ {
        Origin::Http
    } else {
        Origin::Direct
    }
}

/// The side that a message from the process `process` came in on.
pub fn classify_source(process: &str) -> (origin: Origin)
    ensures
        origin == origin_of(process@),
{
    if same_text(process, "http_server:distro:sys") {
        Origin::Http
    } else {
        Origin::Direct
    }
}

/// The value of the first query parameter called `key`.
pub fn query_param(request: &HttpRequest, key: &str) -> (value: Option<String>)
    ensures
        optional_text(value) == query_value(request@.query, key@),
{
    let ghost all = request@.query;
    let mut i: usize = 0;
    assert(all.skip(0) =~= all);
    while i < request.query.len()
        invariant
            0 <= i <= request.query@.len(),
            all == request@.query,
            query_value(all, key@) == query_value(all.skip(i as int), key@),
        decreases request.query@.len() - i,
    {
        assert(all.skip(i as int).drop_first() =~= all.skip(i + 1));
        assert(all.skip(i as int)[0] == (request.query@[i as int].0@, request.query@[i as int].1@));
        if same_text(request.query[i].0.as_str(), key) {
            return Some(request.query[i].1.clone());
        }
        i += 1;
    }
    None
}

/// What a decoded upload leads to: the step that stores its song if the
/// name, the tag and the file are all there, else a bad-request response.
/// The catalog is only read.
pub fn plan_upload(db: &SongDb, form: UploadForm) -> (action: Action)
    ensures
        action@ == form_action(db@, form@),
{
    if form.name.as_str().is_empty() || form.tag_key.as_str().is_empty() || form.file.len() == 0 {
        Action::Respond {
            response: plain(STATUS_BAD_REQUEST, "Missing required fields for song upload"),
            notify: None,
        }
    } else {
        let tag = Tag::from_key(form.tag_key.as_str());
        let song = Song::from_upload(form.name.as_str(), tag, form.file);
        store(db, song, Origin::Http)
    }
}

fn handle_upload(db: &SongDb, content_type: &Option<String>, blob: Option<Vec<u8>>) -> (action: Action)
    ensures
        action@ == upload_action(db@, optional_text(*content_type), optional_bytes(blob)),
{
    match blob {
        None => reject("No blob provided for song upload"),
        Some(body) => match content_type {
            None => reject("upload, Content-Type header not found"),
            Some(declared) => match extract_boundary(declared.as_str()) {
                None => reject("upload fail, no boundary found in POST content type"),
                Some(boundary) => match parse_form(body, boundary.as_str()) {
                    Err(_) => reject("Error reading multipart entry"),
                    Ok(form) => plan_upload(db, form),
                },
            },
        },
    }
}

/// Routes an HTTP request. Queries are answered at once; a stream or an
/// upload is answered with the step on the blob store that it needs. The
/// catalog is only read.
pub fn handle_http_request(db: &SongDb, request: &HttpRequest, blob: Option<Vec<u8>>) -> (action:
    Action)
    ensures
        action@ == http_action(db@, request@, optional_bytes(blob)),
{
    let get = same_text(request.method.as_str(), "GET");
    let post = same_text(request.method.as_str(), "POST");
    let path = request.path.as_str();
    if get && same_text(path, "/get_songs_from_tag") {
        match query_param(request, "tag") {
            None => reject("No tag provided"),
            Some(tag) => Action::Respond {
                response: json(Body::Songs(db.get_songs_by_tag(tag.as_str()))),
                notify: None,
            },
        }
    } else if get && same_text(path, "/list_all_songs") {
        Action::Respond { response: json(Body::Listing(db.list_all_songs())), notify: None }
    } else if get && same_text(path, "/stream_audio") {
        match query_param(request, "id") {
            None => reject("No song ID provided"),
            Some(id) => Action::ReadBlob { path: db.blob_path(id.as_str()), wanted: Wanted::Stream },
        }
    } else if post && same_text(path, "/upload_song") {
        handle_upload(db, &request.content_type, blob)
    } else {
        Action::Respond { response: plain(STATUS_NOT_FOUND, "Not Found"), notify: None }
    }
}

/// Serves a request on the programmatic channel. The catalog is only read.
pub fn handle_songdb_request(db: &SongDb, request: SongDbRequest, blob: Option<Vec<u8>>) -> (action:
    Action)
    ensures
        action@ == songdb_action(db@, request@, optional_bytes(blob)),
{
    match request {
        SongDbRequest::GetSongsByTag(tag) => Action::Reply {
            response: SongDbResponse::Songs(db.get_songs_by_tag(tag.as_str())),
            notify: None,
        },
        SongDbRequest::GetSong(id) => match db.find_song(id.as_str()) {
            None => Action::Reply {
                response: SongDbResponse::Error(String::from_str("Song not found")),
                notify: None,
            },
            Some(song) => Action::ReadBlob {
                path: db.blob_path(id.as_str()),
                wanted: Wanted::Song(song),
            },
        },
        SongDbRequest::GetAllTags => Action::Reply {
            response: SongDbResponse::Tags(db.get_all_tags()),
            notify: None,
        },
        SongDbRequest::AddSong(song) => store(db, song, Origin::Direct),
        SongDbRequest::UploadSong { name, tag } => match blob {
            None => Action::Reply {
                response: SongDbResponse::Error(String::from_str("No blob provided for song upload")),
                notify: Some(
                    String::from_str("Error: ").concat("No blob provided for song upload"),
                ),
            },
            Some(bytes) => store(db, Song::from_upload(name.as_str(), tag, bytes), Origin::Direct),
        },
    }
}

/// Takes one incoming message. A channel that opens or closes is entered in
/// or struck from the registry; a request is routed; a frame from a
/// subscriber is ignored.
pub fn handle_message(
    db: &SongDb,
    channels: &mut LiveUpdates,
    message: IncomingMessage,
    blob: Option<Vec<u8>>,
) -> (action: Action)
    ensures
        match message {
            IncomingMessage::Http(request) => {
                &&& final(channels)@ == old(channels)@
                &&& action@ == http_action(db@, request@, optional_bytes(blob))
            },
            IncomingMessage::WebSocketOpen { channel_id, .. } => {
                &&& final(channels)@ == old(channels)@.insert(channel_id)
                &&& action@ == ActionView::Nothing
            },
            IncomingMessage::WebSocketClose(channel_id) => {
                &&& final(channels)@ == old(channels)@.remove(channel_id)
                &&& action@ == ActionView::Nothing
            },
            IncomingMessage::WebSocketPush { .. } => {
                &&& final(channels)@ == old(channels)@
                &&& action@ == ActionView::Nothing
            },
            IncomingMessage::SongDb(request) => {
                &&& final(channels)@ == old(channels)@
                &&& action@ == songdb_action(db@, request@, optional_bytes(blob))
            },
        },
{
    match message {
        IncomingMessage::Http(request) => handle_http_request(db, &request, blob),
        IncomingMessage::WebSocketOpen { channel_id, .. } => {
            channels.open(channel_id);
            Action::Nothing
        },
        IncomingMessage::WebSocketClose(channel_id) => {
            channels.close(channel_id);
            Action::Nothing
        },
        IncomingMessage::WebSocketPush { .. } => Action::Nothing,
        IncomingMessage::SongDb(request) => handle_songdb_request(db, request, blob),
    }
}

/// Continues after a blob read: the bytes that were read go out as they
/// are, as an audio stream or inside the song that was asked for; a failed
/// read is reported as not found or as an error.
pub fn blob_read(wanted: Wanted, read: Result<Vec<u8>, String>) -> (action: Action)
    ensures
        action@ == read_action(
            wanted@,
            match read {
                Ok(bytes) => Ok(bytes@),
                Err(why) => Err(why@),
            },
        ),
{
    match wanted {
        Wanted::Stream => match SongDb::get_song_data(read) {
            Ok(bytes) => Action::Respond { response: audio(bytes), notify: None },
            Err(_) => Action::Respond {
                response: plain(STATUS_NOT_FOUND, "Audio file not found"),
                notify: None,
            },
        },
        Wanted::Song(song) => match SongDb::get_song_data(read) {
            Ok(bytes) => Action::Reply {
                response: SongDbResponse::Song(
                    Song { id: song.id, name: song.name, data: bytes, tag: song.tag },
                ),
                notify: None,
            },
            Err(e) => Action::Reply {
                response: SongDbResponse::Error(
                    String::from_str("Failed to read song: ").concat(e.message().as_str()),
                ),
                notify: None,
            },
        },
    }
}

/// Continues after the write of a song's bytes. After a failed write the
/// catalog is untouched and the failure is reported; after a good one the
/// song is filed and the catalog's snapshot is to be persisted.
pub fn song_stored(db: &mut SongDb, song: Song, origin: Origin, written: Result<(), String>) -> (action:
    Action)
    ensures
        final(db)@.wf(),
        match written {
            Ok(_) => {
                &&& final(db)@ == old(db)@.with_song(song@)
                &&& action@ == (ActionView::Persist { snapshot: final(db)@, origin })
            },
            Err(why) => {
                &&& final(db)@ == old(db)@
                &&& action@ == failure_action(
                    origin,
                    "Failed to upload song: "@ + storage_failure(why@),
                )
            },
        },
{
    match db.add_song(song, written) {
        Ok(_) => Action::Persist { snapshot: db.save(), origin },
        Err(e) => failed(origin, String::from_str("Failed to upload song: ").concat(e.message().as_str())),
    }
}

/// Continues after the attempt to persist the snapshot: success is reported
/// and broadcast, failure is reported.
pub fn snapshot_saved(origin: Origin, persisted: Result<(), String>) -> (action: Action)
    ensures
        action@ == match persisted {
            Ok(_) => success_action(origin),
            Err(why) => failure_action(
                origin,
                "Failed to upload song: "@ + persistence_failure(why@),
            ),
        },
{
    match SongDb::confirm_saved(persisted) {
        Ok(_) => match origin {
            Origin::Http => Action::Respond {
                response: plain(STATUS_OK, "Song uploaded successfully"),
                notify: Some(String::from_str("Song uploaded successfully")),
            },
            Origin::Direct => Action::Reply {
                response: SongDbResponse::SongAdded,
                notify: Some(String::from_str("Song uploaded successfully")),
            },
        },
        Err(e) => failed(origin, String::from_str("Failed to upload song: ").concat(e.message().as_str())),
    }
}

} // verus!
