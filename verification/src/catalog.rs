//! The song catalog: an index from tag keys to the songs filed under them.
//!
//! The catalog holds metadata only. The audio bytes live in a blob store that
//! the caller drives: the catalog names the path, the caller writes or reads
//! there and hands the outcome back.

use vstd::prelude::*;
use crate::structs::{metadata_of, song_views, Song, SongView};
use crate::text::{same_text, text_views};

verus! {

/// One tag's songs, in the order in which they were added.
pub struct BucketView {
    pub key: Seq<char>,
    pub songs: Seq<SongView>,
}

/// What a [`SongDb`] stands for in contracts: the storage root and the
/// buckets, in the order in which their tags first appeared.
pub struct SongDbView {
    pub root: Seq<char>,
    pub buckets: Seq<BucketView>,
}

impl SongDbView {
    /// A catalog rooted at `root` that holds nothing.
    pub open spec fn empty(root: Seq<char>) -> SongDbView {
        SongDbView { root, buckets: Seq::<BucketView>::empty() }
    }

    /// Whether some bucket is filed under `key`.
    pub open spec fn has_tag(self, key: Seq<char>) -> bool {
        exists|i: int| 0 <= i < self.buckets.len() && #[trigger] self.buckets[i].key == key
    }

    /// The place of the bucket filed under `key`, where there is one.
    pub open spec fn position(self, key: Seq<char>) -> int {
        choose|i: int| 0 <= i < self.buckets.len() && #[trigger] self.buckets[i].key == key
    }

    /// The songs filed under `key`, oldest first; none for an unknown tag.
    pub open spec fn songs_by_tag(self, key: Seq<char>) -> Seq<SongView> {
        if self.has_tag(key) {
            self.buckets[self.position(key)].songs
        } else {
            Seq::<SongView>::empty()
        }
    }

    /// Every tag key in the index, in the order of first appearance.
    pub open spec fn all_tags(self) -> Seq<Seq<char>> {
        Seq::new(self.buckets.len(), |i: int| self.buckets[i].key)
    }

    /// Every song of every bucket: bucket after bucket, each oldest first.
    pub open spec fn all_songs(self) -> Seq<SongView>
        decreases self.buckets.len(),
    {
        if self.buckets.len() == 0 {
            Seq::<SongView>::empty()
        } else {
            SongDbView { root: self.root, buckets: self.buckets.drop_last() }.all_songs()
                + self.buckets.last().songs
        }
    }

    /// The catalog after `song` was filed: its metadata stands last in the
    /// bucket of its tag, which is created at the end if it was missing.
    pub open spec fn with_song(self, song: SongView) -> SongDbView {
        let key = song.tag.key;
        if self.has_tag(key) {
            let at = self.position(key);
            SongDbView {
                root: self.root,
                buckets: self.buckets.update(
                    at,
                    BucketView { key, songs: self.buckets[at].songs.push(metadata_of(song)) },
                ),
            }
        } else {
            SongDbView {
                root: self.root,
                buckets: self.buckets.push(BucketView { key, songs: seq![metadata_of(song)] }),
            }
        }
    }

    /// The catalog after each of `songs` was filed in turn.
    pub open spec fn with_songs(self, songs: Seq<SongView>) -> SongDbView
        decreases songs.len(),
    {
        if songs.len() == 0 {
            self
        } else {
            self.with_songs(songs.drop_last()).with_song(songs.last())
        }
    }

    /// The catalog after the bucket filed under `key` was dropped.
    pub open spec fn without_tag(self, key: Seq<char>) -> SongDbView {
        if self.has_tag(key) {
            SongDbView { root: self.root, buckets: self.buckets.remove(self.position(key)) }
        } else {
            self
        }
    }

    /// The same index under another storage root.
    pub open spec fn rooted_at(self, root: Seq<char>) -> SongDbView {
        SongDbView { root, buckets: self.buckets }
    }

    /// The index's invariant: no two buckets share a key, no bucket is empty,
    /// and every entry is filed under its own tag and carries no bytes.
    pub open spec fn wf(self) -> bool {
        &&& forall|i: int, j: int|
            0 <= i < j < self.buckets.len() ==> #[trigger] self.buckets[i].key
                != #[trigger] self.buckets[j].key
        &&& forall|i: int| 0 <= i < self.buckets.len() ==> (#[trigger] self.buckets[i]).songs.len() > 0
        &&& forall|i: int, k: int|
            0 <= i < self.buckets.len() && 0 <= k < self.buckets[i].songs.len() ==> {
                &&& (#[trigger] self.buckets[i].songs[k]).tag.key == self.buckets[i].key
                &&& self.buckets[i].songs[k].data.len() == 0
            }
    }
}

/// The first of `songs` whose identifier is `id`.
pub open spec fn song_with_id(songs: Seq<SongView>, id: Seq<char>) -> Option<SongView>
    decreases songs.len(),
{
    if songs.len() == 0 {
        None
    } else if songs[0].id == id {
        Some(songs[0])
    } else {
        song_with_id(songs.drop_first(), id)
    }
}

/// Where the blob of the song `song_id` lies under the storage root `root`.
pub open spec fn blob_path_of(root: Seq<char>, song_id: Seq<char>) -> Seq<char> {
    root + seq!['/'] + song_id
}

/// In a well-formed index the bucket of a key stands in one place only.
pub proof fn lemma_position_unique(v: SongDbView, key: Seq<char>, i: int)
    requires
        v.wf(),
        0 <= i < v.buckets.len(),
        v.buckets[i].key == key,
    ensures
        v.has_tag(key),
        v.position(key) == i,
{
    let at = v.position(key);
    if at < i {
        assert(v.buckets[at].key != v.buckets[i].key);
    } else if i < at {
        assert(v.buckets[i].key != v.buckets[at].key);
    }
}

/// Filing a song keeps the index well formed.
pub proof fn lemma_with_song_wf(v: SongDbView, song: SongView)
    requires
        v.wf(),
    ensures
        v.with_song(song).wf(),
{
    let w = v.with_song(song);
    let own = song.tag.key;
    if v.has_tag(own) {
        let at = v.position(own);
        assert(forall|i: int|
            0 <= i < w.buckets.len() ==> (#[trigger] w.buckets[i]).key == v.buckets[i].key);
        assert forall|i: int, k: int|
            0 <= i < w.buckets.len() && 0 <= k < w.buckets[i].songs.len() implies {
            &&& (#[trigger] w.buckets[i].songs[k]).tag.key == w.buckets[i].key
            &&& w.buckets[i].songs[k].data.len() == 0
        } by {
            if i == at && k == v.buckets[at].songs.len() {
            } else {
                assert(w.buckets[i].songs[k] == v.buckets[i].songs[k]);
            }
        }
    } else {
        let n = v.buckets.len() as int;
        assert(forall|i: int| 0 <= i < n ==> (#[trigger] w.buckets[i]) == v.buckets[i]);
        assert forall|i: int, j: int| 0 <= i < j < w.buckets.len() implies #[trigger] w.buckets[i].key
            != #[trigger] w.buckets[j].key by {
            if j == n {
                assert(v.buckets[i].key != own);
            }
        }
    }
}

/// Dropping a tag keeps the index well formed.
pub proof fn lemma_without_tag_wf(v: SongDbView, key: Seq<char>)
    requires
        v.wf(),
    ensures
        v.without_tag(key).wf(),
{
    let w = v.without_tag(key);
    if v.has_tag(key) {
        let at = v.position(key);
        assert(forall|i: int| 0 <= i < at ==> (#[trigger] w.buckets[i]) == v.buckets[i]);
        assert(forall|i: int|
            at <= i < w.buckets.len() ==> (#[trigger] w.buckets[i]) == v.buckets[i + 1]);
        assert forall|i: int, j: int| 0 <= i < j < w.buckets.len() implies #[trigger] w.buckets[i].key
            != #[trigger] w.buckets[j].key by {
            let oi = if i < at { i } else { i + 1 };
            let oj = if j < at { j } else { j + 1 };
            assert(v.buckets[oi].key != v.buckets[oj].key);
        }
        assert forall|i: int| 0 <= i < w.buckets.len() implies (#[trigger] w.buckets[i]).songs.len()
            > 0 by {
            let oi = if i < at { i } else { i + 1 };
            assert(v.buckets[oi].songs.len() > 0);
        }
        assert forall|i: int, k: int|
            0 <= i < w.buckets.len() && 0 <= k < w.buckets[i].songs.len() implies {
            &&& (#[trigger] w.buckets[i].songs[k]).tag.key == w.buckets[i].key
            &&& w.buckets[i].songs[k].data.len() == 0
        } by {
            let oi = if i < at { i } else { i + 1 };
            assert(w.buckets[i].songs[k] == v.buckets[oi].songs[k]);
        }
    }
}

/// Why a catalog operation failed.
#[derive(Debug)]
pub enum CatalogError {
    /// The blob store refused a read or a write; the message is the store's.
    Storage(String),
    /// The snapshot could not be saved; the message is the saver's.
    Persistence(String),
}

/// The catalog as plain data, for the caller to persist and to hand back at
/// the next start. Nothing is assumed of a snapshot that comes back.
#[derive(Debug)]
pub struct Snapshot {
    pub vfs_dir_path: String,
    pub songs: Vec<(String, Vec<Song>)>,
}

impl View for Snapshot {
    type V = SongDbView;

    open spec fn view(&self) -> SongDbView {
        SongDbView {
            root: self.vfs_dir_path@,
            buckets: Seq::new(
                self.songs@.len(),
                |i: int| BucketView { key: self.songs@[i].0@, songs: song_views(self.songs@[i].1@) },
            ),
        }
    }
}

/// A failure of the blob store in words.
pub open spec fn storage_failure(why: Seq<char>) -> Seq<char> {
    "storage failure: "@ + why
}

/// A failure to persist the snapshot in words.
pub open spec fn persistence_failure(why: Seq<char>) -> Seq<char> {
    "persistence failure: "@ + why
}

impl CatalogError {
    /// The error in words.
    pub open spec fn text(self) -> Seq<char> {
        match self {
            CatalogError::Storage(why) => storage_failure(why@),
            CatalogError::Persistence(why) => persistence_failure(why@),
        }
    }

    /// The error in words.
    pub fn message(&self) -> (message: String)
        ensures
            message@ == self.text(),
    {
        match self {
            CatalogError::Storage(why) => String::from_str("storage failure: ").concat(why.as_str()),
            CatalogError::Persistence(why) => String::from_str("persistence failure: ").concat(
                why.as_str(),
            ),
        }
    }
}

#[derive(Debug)]
struct Bucket {
    key: String,
    songs: Vec<Song>,
}

impl View for Bucket {
    type V = BucketView;

    closed spec fn view(&self) -> BucketView {
        BucketView { key: self.key@, songs: song_views(self.songs@) }
    }
}

/// The catalog: a storage root and the tag index.
#[derive(Debug)]
pub struct SongDb {
    vfs_dir_path: String,
    buckets: Vec<Bucket>,
}

impl View for SongDb {
    type V = SongDbView;

    closed spec fn view(&self) -> SongDbView {
        SongDbView {
            root: self.vfs_dir_path@,
            buckets: Seq::new(self.buckets@.len(), |i: int| self.buckets@[i]@),
        }
    }
}

impl SongDb {
    #[verifier::type_invariant]
    closed spec fn well_formed(&self) -> bool {
        self@.wf()
    }

    /// A fresh catalog under the storage root `root`.
    pub fn new(root: &str) -> (db: SongDb)
        ensures
            db@.wf(),
            db@ == SongDbView::empty(root@),
    {
        let db = SongDb { vfs_dir_path: String::from_str(root), buckets: Vec::new() };
        assert(db@.buckets =~= Seq::<BucketView>::empty());
        db
    }

    fn find(&self, key: &str) -> (at: Option<usize>)
        ensures
            self@.wf(),
            match at {
                Some(i) => self@.has_tag(key@) && i == self@.position(key@) && i
                    < self.buckets@.len(),
                None => !self@.has_tag(key@),
            },
    {
        proof {
            use_type_invariant(self);
        }
        let mut i: usize = 0;
        while i < self.buckets.len()
            invariant
                self@.wf(),
                0 <= i <= self.buckets@.len(),
                forall|j: int| 0 <= j < i ==> (#[trigger] self@.buckets[j]).key != key@,
            decreases self.buckets@.len() - i,
        {
            if same_text(self.buckets[i].key.as_str(), key) {
                proof {
                    lemma_position_unique(self@, key@, i as int);
                }
                return Some(i);
            }
            i += 1;
        }
        None
    }
}

impl SongDb {
    /// The storage root under which the blobs lie.
    pub fn root_path(&self) -> (root: &str)
        ensures
            root@ == self@.root,
    {
        self.vfs_dir_path.as_str()
    }

    /// The path in the blob store at which the bytes of `song_id` lie.
    pub fn blob_path(&self, song_id: &str) -> (path: String)
        ensures
            path@ == blob_path_of(self@.root, song_id@),
    {
        proof {
            reveal_strlit("/");
        }
        let path = self.vfs_dir_path.clone().concat("/").concat(song_id);
        assert(path@ =~= blob_path_of(self@.root, song_id@));
        path
    }

    /// The catalog as plain data: the same root and the same buckets.
    pub fn save(&self) -> (snapshot: Snapshot)
        ensures
            self@.wf(),
            snapshot@ == self@,
    {
        proof {
            use_type_invariant(self);
        }
        let mut songs: Vec<(String, Vec<Song>)> = Vec::new();
        let mut i: usize = 0;
        while i < self.buckets.len()
            invariant
                0 <= i <= self.buckets@.len(),
                songs@.len() == i,
                forall|j: int|
                    0 <= j < i ==> (#[trigger] songs@[j]).0@ == self@.buckets[j].key
                        && song_views(songs@[j].1@) == self@.buckets[j].songs,
            decreases self.buckets@.len() - i,
        {
            let bucket = &self.buckets[i];
            songs.push((bucket.key.clone(), clone_songs(&bucket.songs)));
            i += 1;
        }
        let snapshot = Snapshot { vfs_dir_path: self.vfs_dir_path.clone(), songs };
        assert(snapshot@.buckets =~= self@.buckets);
        snapshot
    }

    /// The catalog at start: fresh where nothing was persisted, else every
    /// song of the snapshot filed anew, bucket after bucket. The root is
    /// always the one given now, never the snapshot's.
    pub fn load(restored: Option<Snapshot>, root: &str) -> (db: SongDb)
        ensures
            db@.wf(),
            db@ == match restored {
                Some(snapshot) => SongDbView::empty(root@).with_songs(snapshot@.all_songs()),
                None => SongDbView::empty(root@),
            },
    {
        let mut db = SongDb::new(root);
        match restored {
            None => db,
            Some(snapshot) => {
                let mut i: usize = 0;
                while i < snapshot.songs.len()
                    invariant
                        0 <= i <= snapshot.songs@.len(),
                        db@.wf(),
                        db@ == SongDbView::empty(root@).with_songs(
                            SongDbView {
                                root: snapshot@.root,
                                buckets: snapshot@.buckets.take(i as int),
                            }.all_songs(),
                        ),
                    decreases snapshot.songs@.len() - i,
                {
                    let ghost done = SongDbView {
                        root: snapshot@.root,
                        buckets: snapshot@.buckets.take(i as int),
                    }.all_songs();
                    let bucket = &snapshot.songs[i].1;
                    let mut k: usize = 0;
                    while k < bucket.len()
                        invariant
                            0 <= k <= bucket@.len(),
                            db@.wf(),
                            db@ == SongDbView::empty(root@).with_songs(
                                done + song_views(bucket@).take(k as int),
                            ),
                        decreases bucket@.len() - k,
                    {
                        let song = bucket[k].clone();
                        let _ = db.add_song(song, Ok(()));
                        proof {
                            let next = done + song_views(bucket@).take(k + 1);
                            assert(next.drop_last() =~= done + song_views(bucket@).take(k as int));
                            assert(next.last() == bucket@[k as int]@);
                        }
                        k += 1;
                    }
                    proof {
                        let upto = snapshot@.buckets.take(i + 1);
                        assert(upto.drop_last() =~= snapshot@.buckets.take(i as int));
                        assert(upto.last().songs == song_views(bucket@));
                        assert(song_views(bucket@).take(k as int) =~= song_views(bucket@));
                    }
                    i += 1;
                }
                assert(snapshot@.buckets.take(i as int) =~= snapshot@.buckets);
                db
            },
        }
    }

    /// What a read of the blob at [`SongDb::blob_path`] of a song gave, as the
    /// catalog reports it: the very bytes that were read, or the store's
    /// message as a storage error.
    pub fn get_song_data(read: Result<Vec<u8>, String>) -> (res: Result<Vec<u8>, CatalogError>)
        ensures
            res == match read {
                Ok(bytes) => Ok::<Vec<u8>, CatalogError>(bytes),
                Err(why) => Err::<Vec<u8>, CatalogError>(CatalogError::Storage(why)),
            },
    {
        match read {
            Ok(bytes) => Ok(bytes),
            Err(why) => Err(CatalogError::Storage(why)),
        }
    }

    /// How an attempt to persist a snapshot went, as the catalog reports it.
    pub fn confirm_saved(persisted: Result<(), String>) -> (res: Result<(), CatalogError>)
        ensures
            res == match persisted {
                Ok(_) => Ok::<(), CatalogError>(()),
                Err(why) => Err::<(), CatalogError>(CatalogError::Persistence(why)),
            },
    {
        match persisted {
            Ok(_) => Ok(()),
            Err(why) => Err(CatalogError::Persistence(why)),
        }
    }

    /// The songs filed under `tag`, oldest first; none for an unknown tag.
    pub fn get_songs_by_tag(&self, tag: &str) -> (songs: Vec<Song>)
        ensures
            self@.wf(),
            song_views(songs@) == self@.songs_by_tag(tag@),
    {
        proof {
            use_type_invariant(self);
        }
        match self.find(tag) {
            Some(at) => clone_songs(&self.buckets[at].songs),
            None => {
                let songs: Vec<Song> = Vec::new();
                assert(song_views(songs@) =~= Seq::<SongView>::empty());
                songs
            },
        }
    }

    /// Every song of every bucket, without bytes: bucket after bucket, each
    /// oldest first.
    pub fn list_all_songs(&self) -> (songs: Vec<Song>)
        ensures
            self@.wf(),
            song_views(songs@) == self@.all_songs(),
    {
        proof {
            use_type_invariant(self);
        }
        let mut songs: Vec<Song> = Vec::new();
        let mut i: usize = 0;
        assert(self@.buckets.take(0) =~= Seq::<BucketView>::empty());
        while i < self.buckets.len()
            invariant
                0 <= i <= self.buckets@.len(),
                song_views(songs@) == (SongDbView {
                    root: self@.root,
                    buckets: self@.buckets.take(i as int),
                }).all_songs(),
            decreases self.buckets@.len() - i,
        {
            let ghost done = song_views(songs@);
            let bucket = &self.buckets[i].songs;
            let mut k: usize = 0;
            while k < bucket.len()
                invariant
                    0 <= k <= bucket@.len(),
                    song_views(songs@) == done + song_views(bucket@).take(k as int),
                decreases bucket@.len() - k,
            {
                let ghost prev = songs@;
                songs.push(bucket[k].clone());
                assert(song_views(songs@) =~= song_views(prev).push(bucket@[k as int]@));
                assert(song_views(songs@) =~= done + song_views(bucket@).take(k + 1));
                k += 1;
            }
            proof {
                let upto = self@.buckets.take(i + 1);
                assert(upto.drop_last() =~= self@.buckets.take(i as int));
                assert(upto.last().songs == song_views(bucket@));
                assert(song_views(bucket@).take(k as int) =~= song_views(bucket@));
            }
            i += 1;
        }
        assert(self@.buckets.take(i as int) =~= self@.buckets);
        songs
    }

    /// The first entry of the index, in listing order, whose identifier is
    /// `song_id`.
    pub fn find_song(&self, song_id: &str) -> (found: Option<Song>)
        ensures
            self@.wf(),
            match found {
                Some(song) => song_with_id(self@.all_songs(), song_id@) == Some(song@),
                None => song_with_id(self@.all_songs(), song_id@) is None,
            },
    {
        proof {
            use_type_invariant(self);
        }
        let songs = self.list_all_songs();
        let ghost all = self@.all_songs();
        let mut i: usize = 0;
        assert(all.skip(0) =~= all);
        while i < songs.len()
            invariant
                0 <= i <= songs@.len(),
                self@.wf(),
                all == song_views(songs@),
                all == self@.all_songs(),
                song_with_id(all, song_id@) == song_with_id(all.skip(i as int), song_id@),
            decreases songs@.len() - i,
        {
            assert(all.skip(i as int).drop_first() =~= all.skip(i + 1));
            assert(all.skip(i as int)[0] == songs@[i as int]@);
            if same_text(songs[i].id.as_str(), song_id) {
                assert(all.skip(i as int).len() > 0);
                assert(song_with_id(all.skip(i as int), song_id@) == Some(songs@[i as int]@));
                return Some(songs[i].clone());
            }
            i += 1;
        }
        None
    }

    /// Every tag key in the index, each once, in the order of first
    /// appearance.
    pub fn get_all_tags(&self) -> (tags: Vec<String>)
        ensures
            self@.wf(),
            text_views(tags@) == self@.all_tags(),
    {
        proof {
            use_type_invariant(self);
        }
        let mut tags: Vec<String> = Vec::new();
        let mut i: usize = 0;
        while i < self.buckets.len()
            invariant
                0 <= i <= self.buckets@.len(),
                tags@.len() == i,
                forall|j: int| 0 <= j < i ==> (#[trigger] tags@[j])@ == self@.all_tags()[j],
            decreases self.buckets@.len() - i,
        {
            tags.push(self.buckets[i].key.clone());
            i += 1;
        }
        assert(text_views(tags@) =~= self@.all_tags());
        tags
    }

    /// Files `song` once the caller has tried to write its bytes to the blob
    /// store at [`SongDb::blob_path`] of its identifier, and `written` is how
    /// that went. After a failed write the index is untouched and the store's
    /// message comes back; after a good one the song's metadata stands last
    /// in the bucket of its tag.
    pub fn add_song(&mut self, song: Song, written: Result<(), String>) -> (res: Result<
        (),
        CatalogError,
    >)
        ensures
            old(self)@.wf(),
            final(self)@.wf(),
            match written {
                Ok(_) => res is Ok && final(self)@ == old(self)@.with_song(song@),
                Err(why) => res == Err::<(), CatalogError>(CatalogError::Storage(why))
                    && final(self)@ == old(self)@,
            },
    {
        proof {
            use_type_invariant(&*self);
        }
        match written {
            Err(why) => Err(CatalogError::Storage(why)),
            Ok(_) => {
                let meta = song.metadata();
                let found = self.find(meta.tag.key.as_str());
                let mut buckets: Vec<Bucket> = Vec::new();
                assert(Seq::new(buckets@.len(), |i: int| buckets@[i]@) =~= Seq::<BucketView>::empty());
                std::mem::swap(&mut self.buckets, &mut buckets);
                match found {
                    Some(at) => {
                        let ghost before = buckets@[at as int];
                        buckets[at].songs.push(meta);
                        proof {
                            let after = buckets@[at as int];
                            assert(after.key == before.key);
                            assert(after.songs@ == before.songs@.push(meta));
                            assert(song_views(after.songs@) =~= song_views(before.songs@).push(
                                meta@,
                            ));
                            assert(forall|j: int|
                                0 <= j < buckets@.len() && j != at ==> buckets@[j] == old(
                                    self,
                                ).buckets@[j]);
                        }
                    },
                    None => {
                        let key = meta.tag.key.clone();
                        let mut songs: Vec<Song> = Vec::new();
                        songs.push(meta);
                        assert(song_views(songs@) =~= seq![meta@]);
                        buckets.push(Bucket { key, songs });
                    },
                }
                proof {
                    let filed = old(self)@.with_song(song@);
                    assert(Seq::new(buckets@.len(), |i: int| buckets@[i]@) =~= filed.buckets);
                    lemma_with_song_wf(old(self)@, song@);
                }
                std::mem::swap(&mut self.buckets, &mut buckets);
                Ok(())
            },
        }
    }

    /// Drops the whole bucket filed under `tag_key` and says whether there
    /// was one. The blobs of its songs are not touched.
    pub fn remove_songs_by_tag(&mut self, tag_key: &str) -> (removed: bool)
        ensures
            old(self)@.wf(),
            final(self)@.wf(),
            removed == old(self)@.has_tag(tag_key@),
            final(self)@ == old(self)@.without_tag(tag_key@),
    {
        proof {
            use_type_invariant(&*self);
        }
        match self.find(tag_key) {
            Some(at) => {
                let mut buckets: Vec<Bucket> = Vec::new();
                assert(Seq::new(buckets@.len(), |i: int| buckets@[i]@) =~= Seq::<BucketView>::empty());
                std::mem::swap(&mut self.buckets, &mut buckets);
                buckets.remove(at);
                proof {
                    let left = old(self)@.without_tag(tag_key@);
                    assert(Seq::new(buckets@.len(), |i: int| buckets@[i]@) =~= left.buckets);
                    lemma_without_tag_wf(old(self)@, tag_key@);
                }
                std::mem::swap(&mut self.buckets, &mut buckets);
                true
            },
            None => false,
        }
    }
}

fn clone_songs(songs: &Vec<Song>) -> (copy: Vec<Song>)
    ensures
        song_views(copy@) == song_views(songs@),
{
    let mut copy: Vec<Song> = Vec::new();
    let mut i: usize = 0;
    while i < songs.len()
        invariant
            0 <= i <= songs@.len(),
            copy@.len() == i,
            forall|j: int| 0 <= j < i ==> (#[trigger] copy@[j])@ == songs@[j]@,
        decreases songs@.len() - i,
    {
        copy.push(songs[i].clone());
        i += 1;
    }
    assert(song_views(copy@) =~= song_views(songs@));
    copy
}

} // verus!
