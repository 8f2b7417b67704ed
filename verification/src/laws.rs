//! What holds of the catalog's index over whole histories of operations.

use vstd::prelude::*;
use crate::catalog::{
    blob_path_of, lemma_position_unique, lemma_with_song_wf, lemma_without_tag_wf, BucketView,
    SongDbView,
};
use crate::dispatch::{
    audio_response, client_error, http_action, plain_response, query_value, read_action,
    store_action, success_action, upload_action, ActionView, Origin, WantedView,
    STATUS_BAD_REQUEST,
};
use crate::registry::{targets, Push};
use crate::structs::{metadata_of, HttpRequestView, SongView};
use crate::upload::{boundary_of, multipart_form, text_of, FormFieldView};

verus! {

/// The songs among `added` that carry the tag `key`, in the order in which
/// they stand there, each without its bytes.
pub open spec fn filed_under(added: Seq<SongView>, key: Seq<char>) -> Seq<SongView>
    decreases added.len(),
{
    if added.len() == 0 {
        Seq::<SongView>::empty()
    } else if added.last().tag.key == key {
        filed_under(added.drop_last(), key).push(metadata_of(added.last()))
    } else {
        filed_under(added.drop_last(), key)
    }
}

/// The tag keys of `added`, as a set.
pub open spec fn keys_of(added: Seq<SongView>) -> Set<Seq<char>> {
    Set::new(|key: Seq<char>| exists|i: int| 0 <= i < added.len() && (#[trigger] added[i]).tag.key == key)
}

/// Filing one song keeps the index well formed, puts the song's metadata
/// last under its own tag and leaves every other tag as it was.
pub proof fn lemma_with_song(v: SongDbView, song: SongView, key: Seq<char>)
    requires
        v.wf(),
    ensures
        v.with_song(song).wf(),
        v.with_song(song).has_tag(key) == (v.has_tag(key) || key == song.tag.key),
        v.with_song(song).songs_by_tag(key) == if key == song.tag.key {
            v.songs_by_tag(key).push(metadata_of(song))
        } else {
            v.songs_by_tag(key)
        },
{
    let w = v.with_song(song);
    let own = song.tag.key;
    lemma_with_song_wf(v, song);
    if v.has_tag(own) {
        let at = v.position(own);
        assert(forall|i: int|
            0 <= i < w.buckets.len() ==> (#[trigger] w.buckets[i]).key == v.buckets[i].key);
        if v.has_tag(key) {
            let p = v.position(key);
            assert(w.buckets[p].key == key);
            lemma_position_unique(w, key, p);
            lemma_position_unique(v, own, at);
        } else if w.has_tag(key) {
            let p = w.position(key);
            assert(v.buckets[p].key == key);
        }
    } else {
        let n = v.buckets.len() as int;
        assert(forall|i: int| 0 <= i < n ==> (#[trigger] w.buckets[i]) == v.buckets[i]);
        assert(w.buckets[n].key == own);
        lemma_position_unique(w, own, n);
        if v.has_tag(key) {
            let p = v.position(key);
            assert(w.buckets[p].key == key);
            lemma_position_unique(w, key, p);
        } else if key != own && w.has_tag(key) {
            let p = w.position(key);
            assert(v.buckets[p].key == key);
        }
        assert(seq![metadata_of(song)] =~= Seq::<SongView>::empty().push(metadata_of(song)));
    }
}

/// After any run of additions, a tag holds what it held before followed by
/// exactly the songs added under it, in the order of their addition; songs
/// added under other tags do not show.
pub proof fn lemma_songs_by_tag_after_adds(v: SongDbView, added: Seq<SongView>, key: Seq<char>)
    requires
        v.wf(),
    ensures
        v.with_songs(added).wf(),
        v.with_songs(added).songs_by_tag(key) == v.songs_by_tag(key) + filed_under(added, key),
        v.with_songs(added).has_tag(key) == (v.has_tag(key) || keys_of(added).contains(key)),
    decreases added.len(),
{
    if added.len() == 0 {
        assert(v.songs_by_tag(key) + filed_under(added, key) =~= v.songs_by_tag(key));
    } else {
        let before = added.drop_last();
        lemma_songs_by_tag_after_adds(v, before, key);
        lemma_with_song(v.with_songs(before), added.last(), key);
        if added.last().tag.key == key {
            assert((v.songs_by_tag(key) + filed_under(before, key)).push(metadata_of(added.last()))
                =~= v.songs_by_tag(key) + filed_under(added, key));
            assert(added[added.len() - 1].tag.key == key);
        }
        if keys_of(before).contains(key) {
            let i = choose|i: int| 0 <= i < before.len() && (#[trigger] before[i]).tag.key == key;
            assert(added[i].tag.key == key);
        }
        if keys_of(added).contains(key) && added.last().tag.key != key {
            let i = choose|i: int| 0 <= i < added.len() && (#[trigger] added[i]).tag.key == key;
            assert(before[i].tag.key == key);
        }
    }
}

/// In a catalog that started empty, a tag holds exactly the songs that were
/// added under it, in the order of their addition.
pub proof fn lemma_songs_by_tag_from_empty(root: Seq<char>, added: Seq<SongView>, key: Seq<char>)
    ensures
        SongDbView::empty(root).with_songs(added).songs_by_tag(key) == filed_under(added, key),
{
    let start = SongDbView::empty(root);
    lemma_songs_by_tag_after_adds(start, added, key);
    assert(start.songs_by_tag(key) + filed_under(added, key) =~= filed_under(added, key));
}

/// The tags of a well-formed index are listed once each, and a tag is listed
/// exactly when a bucket is filed under it.
pub proof fn lemma_all_tags_distinct(v: SongDbView)
    requires
        v.wf(),
    ensures
        v.all_tags().no_duplicates(),
        forall|key: Seq<char>| v.all_tags().contains(key) <==> v.has_tag(key),
{
    assert forall|key: Seq<char>| v.all_tags().contains(key) <==> v.has_tag(key) by {
        if v.all_tags().contains(key) {
            let i = choose|i: int| 0 <= i < v.all_tags().len() && v.all_tags()[i] == key;
            assert(v.buckets[i].key == key);
        }
        if v.has_tag(key) {
            let i = v.position(key);
            assert(v.all_tags()[i] == key);
        }
    }
}

/// In a catalog that started empty, the tags listed are exactly the tags of
/// the songs that were added, each once however often it was used.
pub proof fn lemma_all_tags_from_empty(root: Seq<char>, added: Seq<SongView>)
    ensures
        SongDbView::empty(root).with_songs(added).all_tags().no_duplicates(),
        SongDbView::empty(root).with_songs(added).all_tags().to_set() == keys_of(added),
{
    let start = SongDbView::empty(root);
    let end = start.with_songs(added);
    lemma_songs_by_tag_after_adds(start, added, Seq::<char>::empty());
    lemma_all_tags_distinct(end);
    assert forall|key: Seq<char>| end.all_tags().to_set().contains(key) <==> keys_of(added).contains(
        key,
    ) by {
        lemma_songs_by_tag_after_adds(start, added, key);
    }
    assert(end.all_tags().to_set() =~= keys_of(added));
}

/// Dropping a tag empties that tag and leaves every other tag as it was.
pub proof fn lemma_without_tag(v: SongDbView, dropped: Seq<char>, key: Seq<char>)
    requires
        v.wf(),
    ensures
        v.without_tag(dropped).wf(),
        v.without_tag(dropped).songs_by_tag(key) == if key == dropped {
            Seq::<SongView>::empty()
        } else {
            v.songs_by_tag(key)
        },
{
    let w = v.without_tag(dropped);
    lemma_without_tag_wf(v, dropped);
    if v.has_tag(dropped) {
        let at = v.position(dropped);
        assert(forall|i: int| 0 <= i < at ==> (#[trigger] w.buckets[i]) == v.buckets[i]);
        assert(forall|i: int|
            at <= i < w.buckets.len() ==> (#[trigger] w.buckets[i]) == v.buckets[i + 1]);
        if w.has_tag(key) {
            let p = w.position(key);
            let op = if p < at { p } else { p + 1 };
            assert(v.buckets[op].key == key);
            lemma_position_unique(v, key, op);
            if key == dropped {
                assert(op == at);
            }
        } else if v.has_tag(key) && key != dropped {
            let op = v.position(key);
            let p = if op < at { op } else { op - 1 };
            assert(w.buckets[p].key == key);
        }
    }
}

/// Filing two runs of songs one after the other is filing their
/// concatenation.
pub proof fn lemma_with_songs_concat(v: SongDbView, first: Seq<SongView>, second: Seq<SongView>)
    ensures
        v.with_songs(first + second) == v.with_songs(first).with_songs(second),
    decreases second.len(),
{
    if second.len() == 0 {
        assert(first + second =~= first);
    } else {
        lemma_with_songs_concat(v, first, second.drop_last());
        assert((first + second).drop_last() =~= first + second.drop_last());
        assert((first + second).last() == second.last());
    }
}

/// Filing a run of metadata entries that all carry one tag, new to the
/// index, appends one bucket that holds exactly that run.
pub proof fn lemma_with_songs_new_bucket(v: SongDbView, key: Seq<char>, songs: Seq<SongView>)
    requires
        v.wf(),
        !v.has_tag(key),
        songs.len() > 0,
        forall|k: int|
            0 <= k < songs.len() ==> (#[trigger] songs[k]).tag.key == key && songs[k].data.len() == 0,
    ensures
        v.with_songs(songs) == (SongDbView {
            root: v.root,
            buckets: v.buckets.push(BucketView { key, songs }),
        }),
    decreases songs.len(),
{
    let last = songs.last();
    assert(metadata_of(last).data =~= last.data);
    assert(metadata_of(last) == last);
    if songs.len() == 1 {
        assert(songs.drop_last() =~= Seq::<SongView>::empty());
        assert(v.with_songs(songs.drop_last()) == v);
        assert(seq![last] =~= songs);
    } else {
        let before = songs.drop_last();
        lemma_with_songs_new_bucket(v, key, before);
        let mid = v.with_songs(before);
        lemma_songs_by_tag_after_adds(v, before, key);
        let n = v.buckets.len() as int;
        assert(mid.buckets[n].key == key);
        lemma_position_unique(mid, key, n);
        assert(before.push(last) =~= songs);
        assert(mid.with_song(last).buckets =~= v.buckets.push(BucketView { key, songs }));
    }
}

/// Filing anew every song of a well-formed index, bucket after bucket,
/// rebuilds that index: a snapshot that is saved and loaded again gives the
/// catalog back, under the root named at loading.
pub proof fn lemma_snapshot_round_trip(v: SongDbView, root: Seq<char>)
    requires
        v.wf(),
    ensures
        SongDbView::empty(root).with_songs(v.all_songs()) == v.rooted_at(root),
    decreases v.buckets.len(),
{
    let start = SongDbView::empty(root);
    if v.buckets.len() == 0 {
        assert(v.rooted_at(root).buckets =~= start.buckets);
    } else {
        let head = SongDbView { root: v.root, buckets: v.buckets.drop_last() };
        let last = v.buckets.last();
        let n = v.buckets.len() - 1;
        assert(forall|i: int| 0 <= i < n ==> (#[trigger] head.buckets[i]) == v.buckets[i]);
        assert(head.wf()) by {
            assert forall|i: int, k: int|
                0 <= i < head.buckets.len() && 0 <= k < head.buckets[i].songs.len() implies {
                &&& (#[trigger] head.buckets[i].songs[k]).tag.key == head.buckets[i].key
                &&& head.buckets[i].songs[k].data.len() == 0
            } by {
                assert(head.buckets[i].songs[k] == v.buckets[i].songs[k]);
            }
        }
        lemma_snapshot_round_trip(head, root);
        lemma_with_songs_concat(start, head.all_songs(), last.songs);
        let rebuilt = head.rooted_at(root);
        assert(rebuilt.wf());
        assert(!rebuilt.has_tag(last.key)) by {
            if rebuilt.has_tag(last.key) {
                let p = rebuilt.position(last.key);
                assert(v.buckets[p].key != v.buckets[n].key);
            }
        }
        assert(v.buckets[n].songs.len() > 0);
        assert forall|k: int| 0 <= k < last.songs.len() implies (#[trigger] last.songs[k]).tag.key
            == last.key && last.songs[k].data.len() == 0 by {
            assert(v.buckets[n].songs[k].tag.key == v.buckets[n].key);
        }
        lemma_with_songs_new_bucket(rebuilt, last.key, last.songs);
        assert(rebuilt.buckets.push(last) =~= v.buckets);
    }
}

/// A blob store as a map from paths to bytes, after the write that filing
/// `song` under the root `root` asks for.
pub open spec fn store_after_add(
    store: Map<Seq<char>, Seq<u8>>,
    root: Seq<char>,
    song: SongView,
) -> Map<Seq<char>, Seq<u8>> {
    store.insert(blob_path_of(root, song.id), song.data)
}

/// A song's bytes come back as they went in: the path that is read for a
/// song's identifier is the path that was written when the song was added,
/// and it holds the bytes that were submitted.
pub proof fn lemma_blob_round_trip(store: Map<Seq<char>, Seq<u8>>, root: Seq<char>, song: SongView)
    ensures
        store_after_add(store, root, song).dom().contains(blob_path_of(root, song.id)),
        store_after_add(store, root, song)[blob_path_of(root, song.id)] == song.data,
{
}

/// The blob store after the caller has carried out a write step; any other
/// step leaves it as it was.
pub open spec fn store_after(store: Map<Seq<char>, Seq<u8>>, step: ActionView) -> Map<
    Seq<char>,
    Seq<u8>,
> {
    match step {
        ActionView::WriteBlob { path, song, .. } => store.insert(path, song.data),
        _ => store,
    }
}

/// What was uploaded is what is streamed: once the write step of a song has
/// been carried out, a request to stream that song's identifier asks for a
/// read of the very path that was written, and the bytes read there go out
/// as the response, identical to those submitted.
pub proof fn lemma_stored_song_streams_back(
    db: SongDbView,
    store: Map<Seq<char>, Seq<u8>>,
    song: SongView,
    origin: Origin,
    request: HttpRequestView,
)
    requires
        db.wf(),
        request.method == "GET"@,
        request.path == "/stream_audio"@,
        query_value(request.query, "id"@) == Some(song.id),
    ensures
        ({
            let held = store_after(store, store_action(db, song, origin));
            let path = blob_path_of(db.root, song.id);
            &&& http_action(db.with_song(song), request, None) == (ActionView::ReadBlob {
                path,
                wanted: WantedView::Stream,
            })
            &&& held.dom().contains(path)
            &&& read_action(WantedView::Stream, Ok(held[path])) == (ActionView::Respond {
                response: audio_response(song.data),
                notify: None,
            })
        }),
{
    reveal_strlit("/stream_audio");
    reveal_strlit("/get_songs_from_tag");
    reveal_strlit("/list_all_songs");
    assert("/stream_audio"@.len() == 13);
    assert("/get_songs_from_tag"@.len() == 19);
    assert("/list_all_songs"@.len() == 15);
}

/// No field of `fields` is called `which`.
pub open spec fn lacks_field(fields: Seq<FormFieldView>, which: Seq<char>) -> bool {
    forall|i: int| 0 <= i < fields.len() ==> (#[trigger] fields[i]).name != which
}

/// A form without a field of some name yields no text under that name.
pub proof fn lemma_missing_field_is_empty(fields: Seq<FormFieldView>, which: Seq<char>)
    requires
        lacks_field(fields, which),
    ensures
        text_of(fields, which).len() == 0,
    decreases fields.len(),
{
    if fields.len() > 0 {
        assert(fields[fields.len() - 1].name != which);
        assert forall|i: int| 0 <= i < fields.drop_last().len() implies (#[trigger] fields.drop_last()[i]).name
            != which by {
            assert(fields[i].name != which);
        }
        lemma_missing_field_is_empty(fields.drop_last(), which);
    }
}

/// An upload whose form has no `tag` field is answered with a bad-request
/// response, whatever else it holds: no write is asked for, so neither the
/// index nor the blob store changes.
pub proof fn lemma_upload_without_tag_is_rejected(
    db: SongDbView,
    content_type: Seq<char>,
    body: Seq<u8>,
    boundary: Seq<char>,
    fields: Seq<FormFieldView>,
)
    ensures
        boundary_of(content_type) == Some(boundary) && multipart_form(body, boundary) == Some(fields)
            && lacks_field(fields, "tag"@) ==> {
            let action = upload_action(db, Some(content_type), Some(body));
            &&& action is Respond
            &&& action->Respond_response.status == STATUS_BAD_REQUEST
            &&& !(action is WriteBlob)
        },
{
    if lacks_field(fields, "tag"@) {
        lemma_missing_field_is_empty(fields, "tag"@);
    }
}

/// A request for the songs of a tag that names no tag is answered with a
/// bad-request response; the catalog is only read.
pub proof fn lemma_songs_from_tag_without_tag(db: SongDbView, request: HttpRequestView, blob: Option<Seq<u8>>)
    requires
        request.method == "GET"@,
        request.path == "/get_songs_from_tag"@,
        forall|i: int| 0 <= i < request.query.len() ==> (#[trigger] request.query[i]).0 != "tag"@,
    ensures
        http_action(db, request, blob) == client_error("No tag provided"@),
        http_action(db, request, blob) == (ActionView::Respond {
            response: plain_response(STATUS_BAD_REQUEST, "No tag provided"@),
            notify: Some("Error: "@ + "No tag provided"@),
        }),
{
    lemma_query_value_absent(request.query, "tag"@);
}

/// A key that no parameter carries has no value.
pub proof fn lemma_query_value_absent(query: Seq<(Seq<char>, Seq<char>)>, key: Seq<char>)
    requires
        forall|i: int| 0 <= i < query.len() ==> (#[trigger] query[i]).0 != key,
    ensures
        query_value(query, key) is None,
    decreases query.len(),
{
    if query.len() > 0 {
        assert(query[0].0 != key);
        assert forall|i: int| 0 <= i < query.drop_first().len() implies (#[trigger] query.drop_first()[i]).0
            != key by {
            assert(query[i + 1].0 != key);
        }
        lemma_query_value_absent(query.drop_first(), key);
    }
}

/// A finished upload is announced to the subscribers, on whichever side it
/// came in.
pub proof fn lemma_success_is_announced(origin: Origin)
    ensures
        match success_action(origin) {
            ActionView::Respond { notify, .. } => notify == Some("Song uploaded successfully"@),
            ActionView::Reply { notify, .. } => notify == Some("Song uploaded successfully"@),
            _ => false,
        },
{
}

/// A channel that has been opened is among the targets of the next
/// broadcast.
pub proof fn lemma_open_channel_is_notified(channels: Set<u32>, channel: u32, pushes: Seq<Push>)
    requires
        targets(pushes).to_set() == channels.insert(channel),
    ensures
        targets(pushes).contains(channel),
{
    assert(targets(pushes).to_set().contains(channel));
}

/// A channel that has been closed is not among the targets of any later
/// broadcast, until it is opened again.
pub proof fn lemma_closed_channel_is_not_notified(channels: Set<u32>, channel: u32, pushes: Seq<Push>)
    requires
        targets(pushes).to_set() == channels.remove(channel),
    ensures
        !targets(pushes).contains(channel),
{
    if targets(pushes).contains(channel) {
        assert(targets(pushes).to_set().contains(channel));
    }
}

} // verus!
