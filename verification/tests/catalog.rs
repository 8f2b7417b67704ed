use songdb::catalog::{CatalogError, SongDb};
use songdb::structs::{Song, Tag};

fn song(name: &str, tag: &str, data: &[u8]) -> Song {
    Song::from_upload(name, Tag::from_key(tag), data.to_vec())
}

#[test]
fn songs_come_back_by_tag_in_order() {
    let mut db = SongDb::new("/music");
    db.add_song(song("a", "rock", b"1"), Ok(())).unwrap();
    db.add_song(song("b", "jazz", b"2"), Ok(())).unwrap();
    db.add_song(song("c", "rock", b"3"), Ok(())).unwrap();
    let rock = db.get_songs_by_tag("rock");
    let ids: Vec<&str> = rock.iter().map(|s| s.id.as_str()).collect();
    assert_eq!(ids, vec!["a.mp3", "c.mp3"]);
    assert!(rock.iter().all(|s| s.data.is_empty()));
    let jazz = db.get_songs_by_tag("jazz");
    assert_eq!(jazz.len(), 1);
    assert_eq!(jazz[0].name, "b");
    assert!(db.get_songs_by_tag("folk").is_empty());
}

#[test]
fn failed_write_leaves_the_index_alone() {
    let mut db = SongDb::new("/music");
    let res = db.add_song(song("a", "rock", b"1"), Err("disk full".to_string()));
    assert!(matches!(res, Err(CatalogError::Storage(ref why)) if why == "disk full"));
    assert!(db.get_all_tags().is_empty());
    assert!(db.list_all_songs().is_empty());
}

#[test]
fn tags_are_listed_once_each() {
    let mut db = SongDb::new("/music");
    db.add_song(song("a", "rock", b"1"), Ok(())).unwrap();
    db.add_song(song("b", "jazz", b"2"), Ok(())).unwrap();
    db.add_song(song("c", "rock", b"3"), Ok(())).unwrap();
    let mut tags = db.get_all_tags();
    tags.sort();
    assert_eq!(tags, vec!["jazz".to_string(), "rock".to_string()]);
}

#[test]
fn same_name_twice_files_two_entries() {
    let mut db = SongDb::new("/music");
    db.add_song(song("a", "rock", b"1"), Ok(())).unwrap();
    db.add_song(song("a", "rock", b"2"), Ok(())).unwrap();
    let rock = db.get_songs_by_tag("rock");
    assert_eq!(rock.len(), 2);
    assert_eq!(rock[0].id, "a.mp3");
    assert_eq!(rock[1].id, "a.mp3");
}

#[test]
fn removing_a_tag_drops_its_bucket_only() {
    let mut db = SongDb::new("/music");
    db.add_song(song("a", "rock", b"1"), Ok(())).unwrap();
    db.add_song(song("b", "jazz", b"2"), Ok(())).unwrap();
    assert!(db.remove_songs_by_tag("rock"));
    assert!(!db.remove_songs_by_tag("rock"));
    assert!(!db.remove_songs_by_tag("folk"));
    assert!(db.get_songs_by_tag("rock").is_empty());
    assert_eq!(db.get_songs_by_tag("jazz").len(), 1);
    assert_eq!(db.get_all_tags(), vec!["jazz".to_string()]);
}

#[test]
fn blob_path_joins_root_and_id() {
    let db = SongDb::new("/music");
    assert_eq!(db.blob_path("demo.mp3"), "/music/demo.mp3");
    assert_eq!(db.root_path(), "/music");
    assert_eq!(SongDb::new("").blob_path("x"), "/x");
}

#[test]
fn song_id_is_name_with_extension() {
    let s = song("demo", "lofi", b"abc");
    assert_eq!(s.id, "demo.mp3");
    assert_eq!(s.name, "demo");
    assert_eq!(s.data, b"abc".to_vec());
    assert_eq!(s.tag.key, "lofi");
    assert_eq!(s.tag.name, Some("lofi".to_string()));
    let m = s.metadata();
    assert_eq!(m.id, "demo.mp3");
    assert!(m.data.is_empty());
    assert_eq!(song("", "t", b"").id, ".mp3");
}

#[test]
fn tags_are_equal_by_key() {
    let a = Tag { key: "rock".to_string(), name: Some("Rock".to_string()) };
    let b = Tag { key: "rock".to_string(), name: None };
    let c = Tag { key: "jazz".to_string(), name: Some("Rock".to_string()) };
    assert!(a == b);
    assert!(a != c);
    let mut set = std::collections::HashSet::new();
    set.insert(a.clone());
    assert!(set.contains(&b));
    assert!(!set.contains(&c));
}

#[test]
fn read_bytes_come_back_as_they_are() {
    let got = SongDb::get_song_data(Ok(vec![1, 2, 3])).unwrap();
    assert_eq!(got, vec![1, 2, 3]);
    let err = SongDb::get_song_data(Err("missing".to_string()));
    assert!(matches!(err, Err(CatalogError::Storage(ref why)) if why == "missing"));
    assert_eq!(err.unwrap_err().message(), "storage failure: missing");
}

#[test]
fn failed_save_is_a_persistence_error() {
    assert!(SongDb::confirm_saved(Ok(())).is_ok());
    let err = SongDb::confirm_saved(Err("quota".to_string())).unwrap_err();
    assert!(matches!(err, CatalogError::Persistence(ref why) if why == "quota"));
    assert_eq!(err.message(), "persistence failure: quota");
}

#[test]
fn snapshot_round_trips_under_the_new_root() {
    let mut db = SongDb::new("/old");
    db.add_song(song("a", "rock", b"1"), Ok(())).unwrap();
    db.add_song(song("b", "jazz", b"2"), Ok(())).unwrap();
    db.add_song(song("c", "rock", b"3"), Ok(())).unwrap();
    let snapshot = db.save();
    assert_eq!(snapshot.vfs_dir_path, "/old");
    assert_eq!(snapshot.songs.len(), 2);
    let back = SongDb::load(Some(snapshot), "/new");
    assert_eq!(back.root_path(), "/new");
    assert_eq!(back.get_all_tags(), vec!["rock".to_string(), "jazz".to_string()]);
    let ids: Vec<String> = back.list_all_songs().into_iter().map(|s| s.id).collect();
    assert_eq!(ids, vec!["a.mp3".to_string(), "c.mp3".to_string(), "b.mp3".to_string()]);
}

#[test]
fn load_without_a_snapshot_is_fresh() {
    let db = SongDb::load(None, "/music");
    assert_eq!(db.root_path(), "/music");
    assert!(db.get_all_tags().is_empty());
}

#[test]
fn load_files_by_each_song_s_own_tag() {
    let snapshot = songdb::catalog::Snapshot {
        vfs_dir_path: "/stale".to_string(),
        songs: vec![
            ("rock".to_string(), vec![song("a", "rock", b"xx"), song("b", "jazz", b"")]),
            ("rock".to_string(), vec![song("c", "rock", b"")]),
        ],
    };
    let db = SongDb::load(Some(snapshot), "/music");
    let rock: Vec<String> = db.get_songs_by_tag("rock").into_iter().map(|s| s.id).collect();
    assert_eq!(rock, vec!["a.mp3".to_string(), "c.mp3".to_string()]);
    assert!(db.get_songs_by_tag("rock")[0].data.is_empty());
    assert_eq!(db.get_songs_by_tag("jazz").len(), 1);
}

#[test]
fn find_song_takes_the_first_in_listing_order() {
    let mut db = SongDb::new("/music");
    db.add_song(song("a", "rock", b"1"), Ok(())).unwrap();
    db.add_song(song("a", "jazz", b"2"), Ok(())).unwrap();
    assert_eq!(db.find_song("a.mp3").unwrap().tag.key, "rock");
    assert!(db.find_song("b.mp3").is_none());
}
