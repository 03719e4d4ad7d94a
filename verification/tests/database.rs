use tano::database::builders::{
    BulkBuilder,
    DeleteSongArtistsBuilder, DeleteSongsBuilder, InsertLocalSongsBuilder, InsertSongArtistsBuilder,
    InsertSongsBuilder, UpdateLocalSongsBuilder, UpdateLocalSongsPathBuilder, UpdateSongsBuilder,
    UpsertAlbumsBuilder, UpsertArtistsBuilder,
};
use tano::database::entities::{ArtistRole, CreateAlbum, CreateArtist, CreateLocalSong, CreateSong};
use tano::database::sync::{
    chunk_count, chunk_range, delete_song_artists_query, delete_songs_query, insert_local_songs_query,
    insert_song_artists_query, insert_songs_query, record_ids, unique_album_titles, unique_artist_names,
    update_local_songs_query, update_paths_query, update_songs_query, upsert_albums_query,
    upsert_artists_query, NameIds, CHUNK_SIZE,
};
use tano::providers::ParsedSong;

fn parsed(title: &str, album: &str, artist: &str, album_artist: &str) -> ParsedSong {
    ParsedSong {
        title: title.to_string(),
        path: format!("/m/{title}.flac"),
        inode: 1,
        mtime: 2,
        size: 3,
        format: "flac".to_string(),
        album_title: album.to_string(),
        year: Some(2000),
        artist_name: artist.to_string(),
        album_artist_name: album_artist.to_string(),
        track_number: Some(1),
        duration: 100,
    }
}

fn local() -> CreateLocalSong {
    CreateLocalSong { path: "/m/a.flac".to_string(), inode: 1, mtime: 2, size: 3, format: "flac".to_string() }
}

fn song() -> CreateSong {
    CreateSong { provider_id: 1, album_id: 2, title: "t".to_string(), track_number: None, duration: 5, year: Some(1999) }
}

#[test]
fn upsert_artists_statement() {
    let mut b = UpsertArtistsBuilder::new();
    b.push(&CreateArtist { provider_id: 1, name: "A".to_string() });
    b.push(&CreateArtist { provider_id: 1, name: "B".to_string() });
    assert_eq!(
        b.build().sql(),
        "INSERT INTO artists (provider_id, name) VALUES (?, ?), (?, ?) ON CONFLICT (provider_id, name) DO UPDATE SET name = excluded.name RETURNING id, name"
    );
}

#[test]
fn upsert_albums_statement() {
    let mut b = UpsertAlbumsBuilder::default();
    b.push(&CreateAlbum { provider_id: 1, title: "X".to_string() });
    assert_eq!(
        b.build().sql(),
        "INSERT INTO albums (provider_id, title) VALUES (?, ?) ON CONFLICT (provider_id, title) DO UPDATE SET title = excluded.title RETURNING id, title"
    );
}

#[test]
fn insert_songs_statement() {
    let mut b = InsertSongsBuilder::new();
    b.push(&song());
    b.push(&song());
    assert_eq!(
        b.build().sql(),
        "INSERT INTO songs (provider_id, album_id, title, track_number, duration, year) VALUES (?, ?, ?, ?, ?, ?), (?, ?, ?, ?, ?, ?) RETURNING id"
    );
}

#[test]
fn insert_local_songs_statement() {
    let mut b = InsertLocalSongsBuilder::new();
    b.push((7, &local()));
    assert_eq!(
        b.build().sql(),
        "INSERT INTO local_songs (song_id, path, inode, mtime, size, format) VALUES (?, ?, ?, ?, ?, ?)"
    );
}

#[test]
fn update_songs_statement() {
    let mut b = UpdateSongsBuilder::new();
    b.push((7, &song()));
    assert_eq!(
        b.build().sql(),
        "WITH tmp(id, album_id, title, track_number, duration, year) AS (VALUES (?, ?, ?, ?, ?, ?)) UPDATE songs SET album_id = tmp.album_id, title = tmp.title, track_number = tmp.track_number, duration = tmp.duration, year = tmp.year FROM tmp WHERE songs.id = tmp.id"
    );
}

#[test]
fn update_local_songs_statement() {
    let mut b = UpdateLocalSongsBuilder::new();
    b.push((7, &local()));
    b.push((8, &local()));
    assert_eq!(
        b.build().sql(),
        "WITH tmp(id, inode, mtime, size, format) AS (VALUES (?, ?, ?, ?, ?), (?, ?, ?, ?, ?)) UPDATE local_songs SET inode = tmp.inode, mtime = tmp.mtime, size = tmp.size, format = tmp.format FROM tmp WHERE local_songs.song_id = tmp.id"
    );
}

#[test]
fn insert_song_artists_statement() {
    let mut b = InsertSongArtistsBuilder::new();
    b.push((1, 2, ArtistRole::AlbumArtist));
    b.push((1, 3, ArtistRole::Artist));
    assert_eq!(
        b.build().sql(),
        "INSERT OR IGNORE INTO song_artists (song_id, artist_id, role) VALUES (?, ?, ?), (?, ?, ?)"
    );
}

#[test]
fn update_paths_statement() {
    let mut b = UpdateLocalSongsPathBuilder::new();
    b.push((1, "/new"));
    assert_eq!(
        b.build().sql(),
        "WITH tmp(id, path) AS (VALUES (?, ?)) UPDATE local_songs SET path = tmp.path FROM tmp WHERE local_songs.song_id = tmp.id"
    );
}

#[test]
fn delete_statements() {
    let mut b = DeleteSongsBuilder::new();
    b.push(1);
    b.push(2);
    b.push(3);
    assert_eq!(b.build().sql(), "DELETE FROM songs WHERE id IN (?, ?, ?)");
    let mut b = DeleteSongArtistsBuilder::new();
    b.push(9);
    assert_eq!(b.build().sql(), "DELETE FROM song_artists WHERE song_id IN (?)");
}

#[test]
fn empty_statements() {
    assert_eq!(DeleteSongsBuilder::new().build().sql(), "DELETE FROM songs WHERE id IN ()");
    assert_eq!(InsertSongArtistsBuilder::new().build().sql(), "INSERT OR IGNORE INTO song_artists (song_id, artist_id, role) VALUES ");
}

#[test]
fn placeholders_match_bound_values() {
    let mut b = UpdateSongsBuilder::new();
    for i in 0..5 {
        b.push((i, &song()));
    }
    let sql = b.build().sql();
    assert_eq!(sql.matches('?').count(), 5 * 6);
}

#[test]
fn artist_roles() {
    assert_eq!(ArtistRole::Artist.id(), 0);
    assert_eq!(ArtistRole::AlbumArtist.id(), 1);
}

#[test]
fn rows_from_parsed_songs() {
    let p = parsed("t", "al", "ar", "aa");
    let s = CreateSong::from_parsed(4, 9, &p);
    assert_eq!(s, CreateSong { provider_id: 4, album_id: 9, title: "t".to_string(), track_number: Some(1), duration: 100, year: Some(2000) });
    let l = CreateLocalSong::from_parsed(&p);
    assert_eq!(l, CreateLocalSong { path: "/m/t.flac".to_string(), inode: 1, mtime: 2, size: 3, format: "flac".to_string() });
    assert_eq!(CreateAlbum::from_parsed(4, &p), CreateAlbum { provider_id: 4, title: "al".to_string() });
    assert_eq!(CreateArtist::album_artist_of(4, &p).name, "aa");
    assert_eq!(CreateArtist::artist_of(4, &p).name, "ar");
}

#[test]
fn chunks() {
    assert_eq!(CHUNK_SIZE, 1000);
    assert_eq!(chunk_count(0), 0);
    assert_eq!(chunk_count(1), 1);
    assert_eq!(chunk_count(1000), 1);
    assert_eq!(chunk_count(1001), 2);
    assert_eq!(chunk_range(2500, 0), (0, 1000));
    assert_eq!(chunk_range(2500, 2), (2000, 2500));
    assert_eq!(chunk_range(2500, 3), (2500, 2500));
    assert_eq!(chunk_range(10, usize::MAX), (10, 10));
}

#[test]
fn chunks_partition_a_list() {
    for n in [0usize, 1, 999, 1000, 1001, 2500, 3000] {
        let mut next = 0;
        for k in 0..chunk_count(n) {
            let (s, e) = chunk_range(n, k);
            assert_eq!(s, next);
            assert!(s < e && e - s <= CHUNK_SIZE);
            next = e;
        }
        assert_eq!(next, n);
        assert_eq!(chunk_range(n, chunk_count(n)), (n, n));
    }
}

#[test]
fn unique_names_in_first_order() {
    let new_songs = vec![parsed("a", "X", "Ann", "Band"), parsed("b", "Y", "Bob", "Band")];
    let updated = vec![(5, parsed("c", "X", "Band", "Cat"))];
    assert_eq!(unique_artist_names(&new_songs, &updated), vec!["Band", "Ann", "Bob", "Cat"]);
    assert_eq!(unique_album_titles(&new_songs, &updated), vec!["X", "Y"]);
    assert!(unique_artist_names(&[], &[]).is_empty());
}

#[test]
fn name_ids() {
    let mut ids = NameIds::new();
    assert_eq!(ids.get("a"), None);
    ids.insert("a".to_string(), 1);
    ids.insert("b".to_string(), 2);
    ids.insert("a".to_string(), 3);
    assert_eq!(ids.get("a"), Some(3));
    assert_eq!(ids.get("b"), Some(2));
    assert_eq!(ids.get("c"), None);
}

#[test]
fn recording_returned_ids() {
    let mut ids = NameIds::new();
    let known = vec!["a".to_string(), "b".to_string()];
    record_ids(&mut ids, &known, vec![(1, "a".to_string()), (2, "z".to_string()), (3, "b".to_string())]);
    assert_eq!(ids.get("a"), Some(1));
    assert_eq!(ids.get("b"), Some(3));
    assert_eq!(ids.get("z"), None);
}

#[test]
fn upsert_queries_by_chunk() {
    let names: Vec<String> = (0..1500).map(|i| format!("n{i}")).collect();
    let q0 = upsert_artists_query(1, &names, 0).sql();
    assert_eq!(q0.matches('?').count(), 2000);
    let q1 = upsert_albums_query(1, &names, 1).sql();
    assert_eq!(q1.matches('?').count(), 1000);
    assert!(q1.starts_with("INSERT INTO albums (provider_id, title) VALUES (?, ?), "));
}

#[test]
fn song_queries_need_ids() {
    let new_songs = vec![parsed("a", "X", "Ann", "Band"), parsed("b", "Y", "Bob", "Band")];
    let mut albums = NameIds::new();
    albums.insert("X".to_string(), 10);
    assert!(insert_songs_query(1, &new_songs, 0, &albums).is_none());
    albums.insert("Y".to_string(), 11);
    let q = insert_songs_query(1, &new_songs, 0, &albums).unwrap();
    assert_eq!(
        q.sql(),
        "INSERT INTO songs (provider_id, album_id, title, track_number, duration, year) VALUES (?, ?, ?, ?, ?, ?), (?, ?, ?, ?, ?, ?) RETURNING id"
    );
    let mut artists = NameIds::new();
    artists.insert("Band".to_string(), 20);
    artists.insert("Ann".to_string(), 21);
    let mut pending = Vec::new();
    assert!(insert_local_songs_query(&new_songs, 0, &[100, 101], &artists, &mut pending).is_none());
    artists.insert("Bob".to_string(), 22);
    let mut pending = Vec::new();
    let q = insert_local_songs_query(&new_songs, 0, &[100, 101], &artists, &mut pending).unwrap();
    assert_eq!(q.sql().matches('?').count(), 12);
    assert_eq!(
        pending,
        vec![
            (100, 20, ArtistRole::AlbumArtist),
            (100, 21, ArtistRole::Artist),
            (101, 20, ArtistRole::AlbumArtist),
            (101, 22, ArtistRole::Artist),
        ]
    );
    // Fewer ids than songs: only the songs with an id are written.
    let mut pending = Vec::new();
    let q = insert_local_songs_query(&new_songs, 0, &[100], &artists, &mut pending).unwrap();
    assert_eq!(q.sql().matches('?').count(), 6);
    assert_eq!(pending.len(), 2);
}

#[test]
fn updated_song_queries() {
    let updated = vec![(5, parsed("c", "X", "Ann", "Band")), (6, parsed("d", "X", "Ann", "Ann"))];
    let mut albums = NameIds::new();
    assert!(update_songs_query(1, &updated, 0, &albums).is_none());
    albums.insert("X".to_string(), 10);
    let q = update_songs_query(1, &updated, 0, &albums).unwrap();
    assert!(q.sql().starts_with("WITH tmp(id, album_id, title, track_number, duration, year) AS (VALUES (?, ?, ?, ?, ?, ?), (?, ?, ?, ?, ?, ?)) UPDATE songs"));
    let mut artists = NameIds::new();
    artists.insert("Ann".to_string(), 1);
    artists.insert("Band".to_string(), 2);
    let mut pending = Vec::new();
    let q = update_local_songs_query(&updated, 0, &artists, &mut pending).unwrap();
    assert_eq!(q.sql().matches('?').count(), 10);
    assert_eq!(
        pending,
        vec![(5, 2, ArtistRole::AlbumArtist), (5, 1, ArtistRole::Artist), (6, 1, ArtistRole::AlbumArtist), (6, 1, ArtistRole::Artist)]
    );
    assert_eq!(delete_song_artists_query(&updated, 0).sql(), "DELETE FROM song_artists WHERE song_id IN (?, ?)");
    let q = insert_song_artists_query(&pending, 0);
    assert_eq!(q.sql().matches('?').count(), 12);
    let empty = NameIds::new();
    let mut pending = Vec::new();
    assert!(update_local_songs_query(&updated, 0, &empty, &mut pending).is_none());
}

#[test]
fn path_and_delete_queries() {
    let moves = vec![(1, "/a".to_string()), (2, "/b".to_string())];
    assert_eq!(
        update_paths_query(&moves, 0).sql(),
        "WITH tmp(id, path) AS (VALUES (?, ?), (?, ?)) UPDATE local_songs SET path = tmp.path FROM tmp WHERE local_songs.song_id = tmp.id"
    );
    let ids: Vec<i64> = (0..1001).collect();
    assert_eq!(delete_songs_query(&ids, 1).sql(), "DELETE FROM songs WHERE id IN (?)");
    assert_eq!(delete_songs_query(&ids, 0).sql().matches('?').count(), 1000);
}
