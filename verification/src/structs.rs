//! The catalog's data: tags, songs and their mathematical views.

use vstd::prelude::*;
use vstd::std_specs::cmp::PartialEqSpecImpl;
use crate::text::text_views;

verus! {

/// What a [`Tag`] stands for in contracts.
pub struct TagView {
    pub key: Seq<char>,
    pub name: Option<Seq<char>>,
}

/// A category label. The `key` identifies the tag; `name` is only for display.
#[derive(Debug)]
pub struct Tag {
    pub key: String,
    pub name: Option<String>,
}

impl View for Tag {
    type V = TagView;

    open spec fn view(&self) -> TagView {
        TagView {
            key: self.key@,
            name: match self.name {
                Some(n) => Some(n@),
                None => None,
            },
        }
    }
}

impl Tag {
    /// A tag whose display name is its key.
    pub fn from_key(key: &str) -> (tag: Tag)
        ensures
            tag@.key == key@,
            tag@.name == Some(key@),
    {
        Tag { key: String::from_str(key), name: Some(String::from_str(key)) }
    }
}

impl Clone for Tag {
    fn clone(&self) -> (res: Tag)
        ensures
            res@ == self@,
    {
        let name = match &self.name {
            Some(n) => Some(n.clone()),
            None => None,
        };
        Tag { key: self.key.clone(), name }
    }
}

impl PartialEq for Tag {
    fn eq(&self, other: &Tag) -> (res: bool) {
        self.key == other.key
    }
}

impl Eq for Tag {
}

/// `String`'s own `Hash::hash`: feeds the string to the hasher. Nothing is
/// claimed of the hasher's state afterwards.
pub assume_specification<H: std::hash::Hasher>[ <String as std::hash::Hash>::hash::<H> ](
    s: &String,
    state: &mut H,
);

impl std::hash::Hash for Tag {
    fn hash<H: std::hash::Hasher>(&self, state: &mut H) {
        self.key.hash(state)
    }
}

impl PartialEqSpecImpl for Tag {
    open spec fn obeys_eq_spec() -> bool {
        true
    }

    open spec fn eq_spec(&self, other: &Tag) -> bool {
        self.key@ == other.key@
    }
}

/// What a [`Song`] stands for in contracts.
pub struct SongView {
    pub id: Seq<char>,
    pub name: Seq<char>,
    pub data: Seq<u8>,
    pub tag: TagView,
}

/// A song: its identifier, its name, its audio bytes and its tag. Entries
/// kept in the catalog's index carry no bytes; those live in the blob store.
#[derive(Debug)]
pub struct Song {
    pub id: String,
    pub name: String,
    pub data: Vec<u8>,
    pub tag: Tag,
}

impl View for Song {
    type V = SongView;

    open spec fn view(&self) -> SongView {
        SongView { id: self.id@, name: self.name@, data: self.data@, tag: self.tag@ }
    }
}

/// The extension that turns a song's name into its identifier.
pub open spec fn audio_extension() -> Seq<char> {
    seq!['.', 'm', 'p', '3']
}

/// The identifier of the song called `name`: the name with the audio
/// extension behind it.
pub open spec fn song_id(name: Seq<char>) -> Seq<char> {
    name + audio_extension()
}

/// The same song without its bytes: what the index keeps and what listings
/// show.
pub open spec fn metadata_of(song: SongView) -> SongView {
    SongView { id: song.id, name: song.name, data: Seq::<u8>::empty(), tag: song.tag }
}

/// The views of a sequence of songs, one for one.
pub open spec fn song_views(songs: Seq<Song>) -> Seq<SongView> {
    Seq::new(songs.len(), |i: int| songs[i]@)
}

impl Song {
    /// The song that an upload of `data` under `name` and `tag` makes: its
    /// identifier is derived from the name.
    pub fn from_upload(name: &str, tag: Tag, data: Vec<u8>) -> (song: Song)
        ensures
            song@.id == song_id(name@),
            song@.name == name@,
            song@.data == data@,
            song@.tag == tag@,
    {
        proof {
            reveal_strlit(".mp3");
        }
        let id = String::from_str(name).concat(".mp3");
        assert(id@ =~= song_id(name@));
        Song { id, name: String::from_str(name), data, tag }
    }

    /// This song without its bytes.
    pub fn metadata(&self) -> (meta: Song)
        ensures
            meta@ == metadata_of(self@),
    {
        Song { id: self.id.clone(), name: self.name.clone(), data: Vec::new(), tag: self.tag.clone() }
    }
}

impl Clone for Song {
    fn clone(&self) -> (res: Song)
        ensures
            res@ == self@,
    {
        Song {
            id: self.id.clone(),
            name: self.name.clone(),
            data: self.data.clone(),
            tag: self.tag.clone(),
        }
    }
}

/// An MP3 file as it is handed around outside the catalog: a name and bytes.
#[derive(Debug)]
pub struct MP3File {
    pub name: String,
    pub data: Vec<u8>,
}

impl Clone for MP3File {
    fn clone(&self) -> (res: MP3File)
        ensures
            res.name@ == self.name@,
            res.data@ == self.data@,
    {
        MP3File { name: self.name.clone(), data: self.data.clone() }
    }
}

/// The kinds of media that can be played.
#[derive(Debug)]
pub enum PlayableMedia {
    MP3File(MP3File),
}

impl Clone for PlayableMedia {
    fn clone(&self) -> (res: PlayableMedia)
        ensures
            match (*self, res) {
                (PlayableMedia::MP3File(a), PlayableMedia::MP3File(b)) => a.name@ == b.name@
                    && a.data@ == b.data@,
            },
    {
        match self {
            PlayableMedia::MP3File(file) => PlayableMedia::MP3File(file.clone()),
        }
    }
}

/// The kind of a frame that arrives on a live-update channel.
#[derive(Debug, Clone, Copy, PartialEq, Eq, Structural)]
pub enum WsMessageType {
    Text,
    Binary,
    Ping,
    Pong,
    Close,
}

/// What an [`HttpRequest`] stands for in contracts.
pub struct HttpRequestView {
    pub method: Seq<char>,
    pub path: Seq<char>,
    pub query: Seq<(Seq<char>, Seq<char>)>,
    pub content_type: Option<Seq<char>>,
}

/// An HTTP request as the dispatcher reads it: method, path, query
/// parameters and the `Content-Type` header if there is one.
#[derive(Debug)]
pub struct HttpRequest {
    pub method: String,
    pub path: String,
    pub query: Vec<(String, String)>,
    pub content_type: Option<String>,
}

/// The views of a list of pairs of strings, one for one.
pub open spec fn pair_views(pairs: Seq<(String, String)>) -> Seq<(Seq<char>, Seq<char>)> {
    Seq::new(pairs.len(), |i: int| (pairs[i].0@, pairs[i].1@))
}

impl View for HttpRequest {
    type V = HttpRequestView;

    open spec fn view(&self) -> HttpRequestView {
        HttpRequestView {
            method: self.method@,
            path: self.path@,
            query: pair_views(self.query@),
            content_type: match self.content_type {
                Some(c) => Some(c@),
                None => None,
            },
        }
    }
}

/// What a [`SongDbRequest`] stands for in contracts.
pub enum SongDbRequestView {
    GetSongsByTag(Seq<char>),
    GetSong(Seq<char>),
    GetAllTags,
    AddSong(SongView),
    UploadSong { name: Seq<char>, tag: TagView },
}

/// A request on the programmatic channel.
#[derive(Debug)]
pub enum SongDbRequest {
    /// The songs filed under a tag key.
    GetSongsByTag(String),
    /// One song by its identifier, bytes included.
    GetSong(String),
    /// Every tag key in the index.
    GetAllTags,
    /// Files a song that carries its own bytes.
    AddSong(Song),
    /// Files a song under `name` and `tag` whose bytes come as the
    /// request's blob.
    UploadSong { name: String, tag: Tag },
}

impl View for SongDbRequest {
    type V = SongDbRequestView;

    open spec fn view(&self) -> SongDbRequestView {
        match self {
            SongDbRequest::GetSongsByTag(tag) => SongDbRequestView::GetSongsByTag(tag@),
            SongDbRequest::GetSong(id) => SongDbRequestView::GetSong(id@),
            SongDbRequest::GetAllTags => SongDbRequestView::GetAllTags,
            SongDbRequest::AddSong(song) => SongDbRequestView::AddSong(song@),
            SongDbRequest::UploadSong { name, tag } => SongDbRequestView::UploadSong {
                name: name@,
                tag: tag@,
            },
        }
    }
}

/// What a [`SongDbResponse`] stands for in contracts.
pub enum SongDbResponseView {
    Songs(Seq<SongView>),
    Song(SongView),
    Tags(Seq<Seq<char>>),
    SongAdded,
    Error(Seq<char>),
}

/// An answer on the programmatic channel.
#[derive(Debug)]
pub enum SongDbResponse {
    Songs(Vec<Song>),
    Song(Song),
    Tags(Vec<String>),
    SongAdded,
    Error(String),
}

impl View for SongDbResponse {
    type V = SongDbResponseView;

    open spec fn view(&self) -> SongDbResponseView {
        match self {
            SongDbResponse::Songs(songs) => SongDbResponseView::Songs(song_views(songs@)),
            SongDbResponse::Song(song) => SongDbResponseView::Song(song@),
            SongDbResponse::Tags(tags) => SongDbResponseView::Tags(text_views(tags@)),
            SongDbResponse::SongAdded => SongDbResponseView::SongAdded,
            SongDbResponse::Error(why) => SongDbResponseView::Error(why@),
        }
    }
}

/// Everything that can arrive at the dispatcher.
#[derive(Debug)]
pub enum IncomingMessage {
    /// An HTTP request.
    Http(HttpRequest),
    /// A subscriber opened a live-update channel.
    WebSocketOpen { path: String, channel_id: u32 },
    /// A subscriber's channel closed.
    WebSocketClose(u32),
    /// A frame arrived on a subscriber's channel.
    WebSocketPush { channel_id: u32, message_type: WsMessageType },
    /// A request on the programmatic channel.
    SongDb(SongDbRequest),
}

} // verus!
