//! Bringing the library in line with a scan of the local files.
//!
//! A sync writes, in one transaction: every artist and album that the new and
//! changed songs name; the new songs with where they lie on disk; the changed
//! songs; the links of songs to their artists; the moved paths; and it deletes
//! the songs that are gone. Every statement carries at most `CHUNK_SIZE` rows.
//! The functions here make each statement; the ids that the database hands
//! back are fed to the functions that need them.

use vstd::prelude::*;
use crate::database::builders::{
    DeleteSongArtistsBuilder, DeleteSongsBuilder, InsertLocalSongsBuilder, InsertSongArtistsBuilder,
    InsertSongsBuilder, UpdateLocalSongsBuilder, UpdateLocalSongsPathBuilder, UpdateSongsBuilder,
    UpsertAlbumsBuilder, UpsertArtistsBuilder, BulkBuilder, flatten_rows, rows_sql, tuple_sql, artist_row, album_row,
    song_row, local_song_row, song_update_row, local_song_update_row, song_artist_row, path_row, id_row,
    upsert_artists_prefix, upsert_artists_suffix, upsert_albums_prefix, upsert_albums_suffix,
    insert_songs_prefix, insert_songs_suffix, insert_local_songs_prefix, update_songs_prefix,
    update_songs_suffix, update_local_songs_prefix, update_local_songs_suffix,
    insert_song_artists_prefix, update_local_songs_path_prefix, update_local_songs_path_suffix,
    delete_song_artists_prefix, delete_song_artists_suffix, delete_songs_prefix, delete_songs_suffix,
};
use crate::database::entities::{
    ArtistRole, CreateArtist, CreateAlbum, CreateLocalSong, CreateSong, create_local_song_spec, create_song_spec,
};
use crate::providers::ParsedSong;
use crate::query::{BindView, SqlQuery, query_args, query_sql};
use crate::text::str_eq;

verus! {

/// The most rows one statement carries.
pub const CHUNK_SIZE: usize = 1000;

/// Where the `k`-th chunk of a list of `n` items starts.
pub open spec fn chunk_start(n: int, k: int) -> int {
    if k * 1000 < n {
        k * 1000
    } else {
        n
    }
}

/// Where the `k`-th chunk of a list of `n` items ends.
pub open spec fn chunk_end(n: int, k: int) -> int {
    if (k + 1) * 1000 < n {
        (k + 1) * 1000
    } else {
        n
    }
}

/// The `k`-th run of `CHUNK_SIZE` items of `s` (the last run may be shorter; past
/// the end, a run is empty).
pub open spec fn chunk_of<A>(s: Seq<A>, k: int) -> Seq<A> {
    s.subrange(chunk_start(s.len() as int, k), chunk_end(s.len() as int, k))
}

/// How many chunks a list of `n` items has.
pub open spec fn chunk_count_spec(n: int) -> int {
    (n + 999) / 1000
}

/// How many chunks a list of `n` items has.
pub fn chunk_count(n: usize) -> (r: usize)
    ensures
        r == chunk_count_spec(n as int),
{
    n / CHUNK_SIZE + if n % CHUNK_SIZE == 0 {
        0
    } else {
        1
    }
}

/// Where the `k`-th chunk of a list of `n` items starts and ends.
pub fn chunk_range(n: usize, k: usize) -> (r: (usize, usize))
    ensures
        r.0 == chunk_start(n as int, k as int),
        r.1 == chunk_end(n as int, k as int),
        r.0 <= r.1 <= n,
{
    let start = if k <= n / CHUNK_SIZE && k * CHUNK_SIZE < n {
        k * CHUNK_SIZE
    } else {
        n
    };
    let end = if k < n / CHUNK_SIZE {
        (k + 1) * CHUNK_SIZE
    } else {
        n
    };
    (start, end)
}

/// Every song of a sync whose tags are written: the new ones, then the changed ones.
pub open spec fn written_songs(new_songs: Seq<ParsedSong>, updated_songs: Seq<(i64, ParsedSong)>) -> Seq<ParsedSong> {
    new_songs + updated_songs.map_values(|u: (i64, ParsedSong)| u.1)
}

/// The artist names of songs, two per song: the album artist, then the artist.
pub open spec fn artist_names(songs: Seq<ParsedSong>) -> Seq<Seq<char>>
    decreases songs.len(),
{
    if songs.len() == 0 {
        Seq::<Seq<char>>::empty()
    } else {
        artist_names(songs.drop_last()).push(songs.last().album_artist_name@).push(songs.last().artist_name@)
    }
}

/// The album titles of songs, one per song.
pub open spec fn album_titles(songs: Seq<ParsedSong>) -> Seq<Seq<char>> {
    songs.map_values(|p: ParsedSong| p.album_title@)
}

/// `s` with every repeated item left out, first occurrences kept in order.
pub open spec fn dedup(s: Seq<Seq<char>>) -> Seq<Seq<char>>
    decreases s.len(),
{
    if s.len() == 0 {
        Seq::<Seq<char>>::empty()
    } else {
        let d = dedup(s.drop_last());
        if d.contains(s.last()) {
            d
        } else {
            d.push(s.last())
        }
    }
}

pub open spec fn views(v: Seq<String>) -> Seq<Seq<char>> {
    v.map_values(|s: String| s@)
}

/// Appends `name` to `names` unless it is there already.
fn push_unique(names: &mut Vec<String>, name: &String)
    ensures
        views(final(names)@) == if views(old(names)@).contains(name@) {
            views(old(names)@)
        } else {
            views(old(names)@).push(name@)
        },
{
    let n = names.len();
    let mut i: usize = 0;
    while i < n
        invariant
            n == names.len(),
            i <= n,
            names@ == old(names)@,
            forall|j: int| 0 <= j < i ==> names@[j]@ != name@,
        decreases n - i,
    {
        if str_eq(names[i].as_str(), name.as_str()) {
            assert(views(names@)[i as int] == name@);
            return;
        }
        i = i + 1;
    }
    assert(!views(names@).contains(name@)) by {
        if views(names@).contains(name@) {
            let j = choose|j: int| 0 <= j < views(names@).len() && views(names@)[j] == name@;
            assert(names@[j]@ == name@);
        }
    }
    names.push(name.clone());
    assert(views(names@) =~= views(old(names)@).push(name@));
}

/// Every artist that the new and changed songs name, each once, in the order
/// in which they are first named.
pub fn unique_artist_names(new_songs: &[ParsedSong], updated_songs: &[(i64, ParsedSong)]) -> (r: Vec<String>)
    ensures
        views(r@) == dedup(artist_names(written_songs(new_songs@, updated_songs@))),
{
    let mut names: Vec<String> = Vec::new();
    let n = new_songs.len();
    let mut i: usize = 0;
    while i < n
        invariant
            n == new_songs@.len(),
            i <= n,
            views(names@) == dedup(artist_names(new_songs@.subrange(0, i as int))),
        decreases n - i,
    {
        let song = &new_songs[i];
        let ghost pre = artist_names(new_songs@.subrange(0, i as int));
        assert(new_songs@.subrange(0, i as int + 1).drop_last() =~= new_songs@.subrange(0, i as int));
        assert(new_songs@.subrange(0, i as int + 1).last() == *song);
        assert(artist_names(new_songs@.subrange(0, i as int + 1)) == pre.push(song.album_artist_name@).push(song.artist_name@));
        push_unique(&mut names, &song.album_artist_name);
        assert(pre.push(song.album_artist_name@).drop_last() =~= pre);
        push_unique(&mut names, &song.artist_name);
        assert(pre.push(song.album_artist_name@).push(song.artist_name@).drop_last() =~= pre.push(song.album_artist_name@));
        assert(dedup(pre.push(song.album_artist_name@)) == (if dedup(pre).contains(song.album_artist_name@) { dedup(pre) } else { dedup(pre).push(song.album_artist_name@) }));
        i = i + 1;
    }
    assert(new_songs@.subrange(0, n as int) =~= new_songs@);
    let m = updated_songs.len();
    let mut j: usize = 0;
    while j < m
        invariant
            n == new_songs@.len(),
            m == updated_songs@.len(),
            j <= m,
            views(names@) == dedup(artist_names(written_songs(new_songs@, updated_songs@.subrange(0, j as int)))),
        decreases m - j,
    {
        let song = &updated_songs[j].1;
        let ghost before = written_songs(new_songs@, updated_songs@.subrange(0, j as int));
        let ghost after = written_songs(new_songs@, updated_songs@.subrange(0, j as int + 1));
        assert(after.drop_last() =~= before);
        assert(after.last() == *song);
        let ghost pre = artist_names(before);
        assert(artist_names(after) == pre.push(song.album_artist_name@).push(song.artist_name@));
        push_unique(&mut names, &song.album_artist_name);
        assert(pre.push(song.album_artist_name@).drop_last() =~= pre);
        push_unique(&mut names, &song.artist_name);
        assert(pre.push(song.album_artist_name@).push(song.artist_name@).drop_last() =~= pre.push(song.album_artist_name@));
        assert(dedup(pre.push(song.album_artist_name@)) == (if dedup(pre).contains(song.album_artist_name@) { dedup(pre) } else { dedup(pre).push(song.album_artist_name@) }));
        j = j + 1;
    }
    assert(updated_songs@.subrange(0, m as int) =~= updated_songs@);
    names
}

/// Every album that the new and changed songs name, each once, in the order in
/// which they are first named.
pub fn unique_album_titles(new_songs: &[ParsedSong], updated_songs: &[(i64, ParsedSong)]) -> (r: Vec<String>)
    ensures
        views(r@) == dedup(album_titles(written_songs(new_songs@, updated_songs@))),
{
    let mut titles: Vec<String> = Vec::new();
    let n = new_songs.len();
    let mut i: usize = 0;
    while i < n
        invariant
            n == new_songs@.len(),
            i <= n,
            views(titles@) == dedup(album_titles(new_songs@.subrange(0, i as int))),
        decreases n - i,
    {
        assert(album_titles(new_songs@.subrange(0, i as int + 1)).drop_last() =~= album_titles(new_songs@.subrange(0, i as int)));
        push_unique(&mut titles, &new_songs[i].album_title);
        i = i + 1;
    }
    assert(new_songs@.subrange(0, n as int) =~= new_songs@);
    let m = updated_songs.len();
    let mut j: usize = 0;
    while j < m
        invariant
            n == new_songs@.len(),
            m == updated_songs@.len(),
            j <= m,
            views(titles@) == dedup(album_titles(written_songs(new_songs@, updated_songs@.subrange(0, j as int)))),
        decreases m - j,
    {
        let ghost before = written_songs(new_songs@, updated_songs@.subrange(0, j as int));
        let ghost after = written_songs(new_songs@, updated_songs@.subrange(0, j as int + 1));
        assert(after.drop_last() =~= before);
        assert(album_titles(after).drop_last() =~= album_titles(before));
        push_unique(&mut titles, &updated_songs[j].1.album_title);
        j = j + 1;
    }
    assert(updated_songs@.subrange(0, m as int) =~= updated_songs@);
    titles
}


/// Ids by name: artists or albums as the database numbered them.
pub struct NameIds {
    entries: Vec<(String, i64)>,
}

/// The map that a list of entries gives, a later entry winning over an earlier one.
pub open spec fn map_of(e: Seq<(String, i64)>) -> Map<Seq<char>, i64>
    decreases e.len(),
{
    if e.len() == 0 {
        Map::empty()
    } else {
        map_of(e.drop_last()).insert(e.last().0@, e.last().1)
    }
}

impl View for NameIds {
    type V = Map<Seq<char>, i64>;

    closed spec fn view(&self) -> Map<Seq<char>, i64> {
        map_of(self.entries@)
    }
}

impl NameIds {
    pub fn new() -> (r: NameIds)
        ensures
            r@ == Map::<Seq<char>, i64>::empty(),
    {
        NameIds { entries: Vec::new() }
    }

    /// Records `name` under `id`, replacing any id it had.
    pub fn insert(&mut self, name: String, id: i64)
        ensures
            final(self)@ == old(self)@.insert(name@, id),
    {
        self.entries.push((name, id));
        assert(self.entries@.drop_last() =~= old(self).entries@);
    }

    /// The id recorded for `name`.
    pub fn get(&self, name: &str) -> (r: Option<i64>)
        ensures
            r == (if self@.contains_key(name@) {
                Some(self@[name@])
            } else {
                None::<i64>
            }),
    {
        let mut j = self.entries.len();
        assert(self.entries@.subrange(0, j as int) =~= self.entries@);
        while j > 0
            invariant
                j <= self.entries@.len(),
                map_of(self.entries@.subrange(0, j as int)).contains_key(name@) == self@.contains_key(name@),
                self@.contains_key(name@) ==> map_of(self.entries@.subrange(0, j as int))[name@] == self@[name@],
            decreases j,
        {
            let ghost pre = self.entries@.subrange(0, j as int - 1);
            assert(self.entries@.subrange(0, j as int).drop_last() =~= pre);
            if str_eq(self.entries[j - 1].0.as_str(), name) {
                return Some(self.entries[j - 1].1);
            }
            j = j - 1;
        }
        assert(map_of(self.entries@.subrange(0, 0)) == Map::<Seq<char>, i64>::empty());
        None
    }
}

/// Whether `name` is one of `names`.
fn contains_name(names: &[String], name: &str) -> (r: bool)
    ensures
        r == views(names@).contains(name@),
{
    let n = names.len();
    let mut i: usize = 0;
    while i < n
        invariant
            n == names@.len(),
            i <= n,
            forall|j: int| 0 <= j < i ==> names@[j]@ != name@,
        decreases n - i,
    {
        if str_eq(names[i].as_str(), name) {
            assert(views(names@)[i as int] == name@);
            return true;
        }
        i = i + 1;
    }
    assert(!views(names@).contains(name@)) by {
        if views(names@).contains(name@) {
            let j = choose|j: int| 0 <= j < views(names@).len() && views(names@)[j] == name@;
            assert(names@[j]@ == name@);
        }
    }
    false
}

pub open spec fn record_views(recs: Seq<(i64, String)>) -> Seq<(i64, Seq<char>)> {
    recs.map_values(|r: (i64, String)| (r.0, r.1@))
}

/// The ids after the rows `recs` that an upsert returned are recorded: each
/// row's name, when it is one of `known`, gets the row's id.
pub open spec fn apply_records(
    m: Map<Seq<char>, i64>,
    known: Seq<Seq<char>>,
    recs: Seq<(i64, Seq<char>)>,
) -> Map<Seq<char>, i64>
    decreases recs.len(),
{
    if recs.len() == 0 {
        m
    } else {
        let m1 = apply_records(m, known, recs.drop_last());
        if known.contains(recs.last().1) {
            m1.insert(recs.last().1, recs.last().0)
        } else {
            m1
        }
    }
}

/// Records the `(id, name)` rows that an upsert of the names `known` returned.
pub fn record_ids(ids: &mut NameIds, known: &[String], records: Vec<(i64, String)>)
    ensures
        final(ids)@ == apply_records(old(ids)@, views(known@), record_views(records@)),
{
    let n = records.len();
    let mut i: usize = 0;
    for rec in it: records
        invariant
            n == records@.len(),
            i == it.index(),
            it.seq() == records@,
            ids@ == apply_records(old(ids)@, views(known@), record_views(records@.subrange(0, i as int))),
    {
        assert(records@[i as int] == rec);
        assert(record_views(records@.subrange(0, i as int + 1)).drop_last() =~= record_views(records@.subrange(0, i as int)));
        let (id, name) = rec;
        if contains_name(known, name.as_str()) {
            ids.insert(name, id);
        }
        i = i + 1;
    }
    assert(records@.subrange(0, n as int) =~= records@);
}


/// The rows that upserting artists of a provider binds.
pub open spec fn artist_rows(provider_id: i64, names: Seq<String>) -> Seq<Seq<BindView>> {
    names.map_values(|n: String| artist_row(CreateArtist { provider_id, name: n }))
}

/// The statement that upserts the `k`-th chunk of artist names.
pub fn upsert_artists_query(provider_id: u64, names: &[String], k: usize) -> (q: SqlQuery)
    ensures
        query_sql(q) == upsert_artists_prefix() + rows_sql(chunk_of(names@, k as int).len(), tuple_sql(2))
            + upsert_artists_suffix(),
        query_args(q) == flatten_rows(artist_rows(provider_id as i64, chunk_of(names@, k as int))),
{
    let (start, end) = chunk_range(names.len(), k);
    let pid = provider_id as i64;
    let mut builder = UpsertArtistsBuilder::new();
    let mut i = start;
    while i < end
        invariant
            start <= i <= end <= names@.len(),
            start == chunk_start(names@.len() as int, k as int),
            end == chunk_end(names@.len() as int, k as int),
            builder.wf(),
            builder.rows() == artist_rows(pid, names@.subrange(start as int, i as int)),
        decreases end - i,
    {
        let artist = CreateArtist { provider_id: pid, name: names[i].clone() };
        builder.push(&artist);
        assert(artist_rows(pid, names@.subrange(start as int, i as int + 1)) =~= artist_rows(
            pid,
            names@.subrange(start as int, i as int),
        ).push(artist_row(artist)));
        i = i + 1;
    }
    builder.build()
}

/// The rows that upserting albums of a provider binds.
pub open spec fn album_rows(provider_id: i64, titles: Seq<String>) -> Seq<Seq<BindView>> {
    titles.map_values(|t: String| album_row(CreateAlbum { provider_id, title: t }))
}

/// The statement that upserts the `k`-th chunk of album titles.
pub fn upsert_albums_query(provider_id: u64, titles: &[String], k: usize) -> (q: SqlQuery)
    ensures
        query_sql(q) == upsert_albums_prefix() + rows_sql(chunk_of(titles@, k as int).len(), tuple_sql(2))
            + upsert_albums_suffix(),
        query_args(q) == flatten_rows(album_rows(provider_id as i64, chunk_of(titles@, k as int))),
{
    let (start, end) = chunk_range(titles.len(), k);
    let pid = provider_id as i64;
    let mut builder = UpsertAlbumsBuilder::new();
    let mut i = start;
    while i < end
        invariant
            start <= i <= end <= titles@.len(),
            start == chunk_start(titles@.len() as int, k as int),
            end == chunk_end(titles@.len() as int, k as int),
            builder.wf(),
            builder.rows() == album_rows(pid, titles@.subrange(start as int, i as int)),
        decreases end - i,
    {
        let album = CreateAlbum { provider_id: pid, title: titles[i].clone() };
        builder.push(&album);
        assert(album_rows(pid, titles@.subrange(start as int, i as int + 1)) =~= album_rows(
            pid,
            titles@.subrange(start as int, i as int),
        ).push(album_row(album)));
        i = i + 1;
    }
    builder.build()
}

/// Whether every song's album has an id.
pub open spec fn albums_known(songs: Seq<ParsedSong>, albums: Map<Seq<char>, i64>) -> bool {
    forall|i: int| 0 <= i < songs.len() ==> albums.contains_key(#[trigger] songs[i].album_title@)
}

/// Whether every song's album artist and artist have ids.
pub open spec fn artists_known(songs: Seq<ParsedSong>, artists: Map<Seq<char>, i64>) -> bool {
    forall|i: int|
        0 <= i < songs.len() ==> artists.contains_key(#[trigger] songs[i].album_artist_name@)
            && artists.contains_key(songs[i].artist_name@)
}

/// The rows that inserting new songs binds, each in the album its title names.
pub open spec fn new_song_rows(provider_id: i64, songs: Seq<ParsedSong>, albums: Map<Seq<char>, i64>) -> Seq<Seq<BindView>> {
    songs.map_values(|p: ParsedSong| song_row(create_song_spec(provider_id, albums[p.album_title@], p)))
}

/// The statement that inserts the `k`-th chunk of new songs; none when an
/// album of the chunk has no id.
pub fn insert_songs_query(provider_id: u64, new_songs: &[ParsedSong], k: usize, albums: &NameIds) -> (r: Option<SqlQuery>)
    ensures
        r is Some <==> albums_known(chunk_of(new_songs@, k as int), albums@),
        r matches Some(q) ==> query_sql(q) == insert_songs_prefix() + rows_sql(
            chunk_of(new_songs@, k as int).len(),
            tuple_sql(6),
        ) + insert_songs_suffix(),
        r matches Some(q) ==> query_args(q) == flatten_rows(
            new_song_rows(provider_id as i64, chunk_of(new_songs@, k as int), albums@),
        ),
{
    let (start, end) = chunk_range(new_songs.len(), k);
    let ghost chunk = chunk_of(new_songs@, k as int);
    let pid = provider_id as i64;
    let mut builder = InsertSongsBuilder::new();
    let mut i = start;
    while i < end
        invariant
            start <= i <= end <= new_songs@.len(),
            start == chunk_start(new_songs@.len() as int, k as int),
            end == chunk_end(new_songs@.len() as int, k as int),
            chunk == new_songs@.subrange(start as int, end as int),
            albums_known(new_songs@.subrange(start as int, i as int), albums@),
            builder.wf(),
            builder.rows() == new_song_rows(pid, new_songs@.subrange(start as int, i as int), albums@),
        decreases end - i,
    {
        let parsed = &new_songs[i];
        let album_id = match albums.get(parsed.album_title.as_str()) {
            Some(id) => id,
            None => {
                assert(chunk[i - start] == *parsed);
                return None;
            },
        };
        let song = CreateSong::from_parsed(pid, album_id, parsed);
        builder.push(&song);
        let ghost pre = new_songs@.subrange(start as int, i as int);
        let ghost nxt = new_songs@.subrange(start as int, i as int + 1);
        assert(nxt =~= pre.push(*parsed));
        assert(new_song_rows(pid, nxt, albums@) =~= new_song_rows(pid, pre, albums@).push(song_row(song)));
        i = i + 1;
    }
    Some(builder.build())
}

pub open spec fn min_len(a: int, b: int) -> int {
    if a < b {
        a
    } else {
        b
    }
}

/// The rows that inserting local songs binds: each song under the id at the
/// same position, for as many songs as there are ids.
pub open spec fn new_local_song_rows(songs: Seq<ParsedSong>, ids: Seq<i64>) -> Seq<Seq<BindView>> {
    Seq::new(
        min_len(songs.len() as int, ids.len() as int) as nat,
        |i: int| local_song_row(ids[i], create_local_song_spec(songs[i])),
    )
}

/// The links of the first `m` songs to their artists, each song under the id at
/// the same position: the album artist first, then the artist.
pub open spec fn song_links(ids: Seq<i64>, songs: Seq<ParsedSong>, artists: Map<Seq<char>, i64>, m: nat) -> Seq<(i64, i64, ArtistRole)>
    decreases m,
{
    if m == 0 {
        Seq::<(i64, i64, ArtistRole)>::empty()
    } else {
        song_links(ids, songs, artists, (m - 1) as nat).push(
            (ids[m - 1], artists[songs[m - 1].album_artist_name@], ArtistRole::AlbumArtist),
        ).push((ids[m - 1], artists[songs[m - 1].artist_name@], ArtistRole::Artist))
    }
}

/// The statement that records where the `k`-th chunk of new songs lies on disk,
/// given the ids the database gave those songs. The songs' links to their
/// artists are added to `pending`. None when an artist has no id.
pub fn insert_local_songs_query(
    new_songs: &[ParsedSong],
    k: usize,
    song_ids: &[i64],
    artists: &NameIds,
    pending: &mut Vec<(i64, i64, ArtistRole)>,
) -> (r: Option<SqlQuery>)
    ensures
        r is Some <==> artists_known(
            chunk_of(new_songs@, k as int).take(min_len(chunk_of(new_songs@, k as int).len() as int, song_ids@.len() as int)),
            artists@,
        ),
        r matches Some(q) ==> query_sql(q) == insert_local_songs_prefix() + rows_sql(
            min_len(chunk_of(new_songs@, k as int).len() as int, song_ids@.len() as int) as nat,
            tuple_sql(6),
        ),
        r matches Some(q) ==> query_args(q) == flatten_rows(
            new_local_song_rows(chunk_of(new_songs@, k as int), song_ids@),
        ),
        r is Some ==> final(pending)@ == old(pending)@ + song_links(
            song_ids@,
            chunk_of(new_songs@, k as int),
            artists@,
            min_len(chunk_of(new_songs@, k as int).len() as int, song_ids@.len() as int) as nat,
        ),
{
    let (start, end) = chunk_range(new_songs.len(), k);
    let ghost chunk = chunk_of(new_songs@, k as int);
    let m = if end - start < song_ids.len() {
        end - start
    } else {
        song_ids.len()
    };
    let mut builder = InsertLocalSongsBuilder::new();
    let mut i: usize = 0;
    while i < m
        invariant
            start <= end <= new_songs@.len(),
            start == chunk_start(new_songs@.len() as int, k as int),
            end == chunk_end(new_songs@.len() as int, k as int),
            chunk == new_songs@.subrange(start as int, end as int),
            m == min_len(chunk.len() as int, song_ids@.len() as int),
            i <= m,
            artists_known(chunk.take(i as int), artists@),
            builder.wf(),
            builder.rows() =~= new_local_song_rows(chunk.take(i as int), song_ids@.take(i as int)),
            pending@ == old(pending)@ + song_links(song_ids@, chunk, artists@, i as nat),
        decreases m - i,
    {
        let parsed = &new_songs[start + i];
        assert(chunk[i as int] == *parsed);
        let song_id = song_ids[i];
        let local_song = CreateLocalSong::from_parsed(parsed);
        builder.push((song_id, &local_song));
        let album_artist_id = match artists.get(parsed.album_artist_name.as_str()) {
            Some(id) => id,
            None => {
                assert(chunk.take(m as int)[i as int] == *parsed);
                return None;
            },
        };
        let track_artist_id = match artists.get(parsed.artist_name.as_str()) {
            Some(id) => id,
            None => {
                assert(chunk.take(m as int)[i as int] == *parsed);
                return None;
            },
        };
        pending.push((song_id, album_artist_id, ArtistRole::AlbumArtist));
        pending.push((song_id, track_artist_id, ArtistRole::Artist));
        assert(chunk.take(i as int + 1) =~= chunk.take(i as int).push(*parsed));
        assert(new_local_song_rows(chunk.take(i as int + 1), song_ids@.take(i as int + 1)) =~= new_local_song_rows(
            chunk.take(i as int),
            song_ids@.take(i as int),
        ).push(local_song_row(song_id, local_song)));
        i = i + 1;
    }
    assert(new_local_song_rows(chunk.take(m as int), song_ids@.take(m as int)) =~= new_local_song_rows(chunk, song_ids@));
    Some(builder.build())
}

/// The ids of changed songs.
pub open spec fn updated_ids(u: Seq<(i64, ParsedSong)>) -> Seq<i64> {
    u.map_values(|x: (i64, ParsedSong)| x.0)
}

/// The tags of changed songs.
pub open spec fn updated_parsed(u: Seq<(i64, ParsedSong)>) -> Seq<ParsedSong> {
    u.map_values(|x: (i64, ParsedSong)| x.1)
}

/// The rows that rewriting changed songs binds, each in the album its title names.
pub open spec fn update_song_rows(provider_id: i64, u: Seq<(i64, ParsedSong)>, albums: Map<Seq<char>, i64>) -> Seq<Seq<BindView>> {
    u.map_values(
        |x: (i64, ParsedSong)| song_update_row(x.0, create_song_spec(provider_id, albums[x.1.album_title@], x.1)),
    )
}

/// The statement that rewrites the `k`-th chunk of changed songs; none when an
/// album of the chunk has no id.
pub fn update_songs_query(
    provider_id: u64,
    updated_songs: &[(i64, ParsedSong)],
    k: usize,
    albums: &NameIds,
) -> (r: Option<SqlQuery>)
    ensures
        r is Some <==> albums_known(updated_parsed(chunk_of(updated_songs@, k as int)), albums@),
        r matches Some(q) ==> query_sql(q) == update_songs_prefix() + rows_sql(
            chunk_of(updated_songs@, k as int).len(),
            tuple_sql(6),
        ) + update_songs_suffix(),
        r matches Some(q) ==> query_args(q) == flatten_rows(
            update_song_rows(provider_id as i64, chunk_of(updated_songs@, k as int), albums@),
        ),
{
    let (start, end) = chunk_range(updated_songs.len(), k);
    let ghost chunk = chunk_of(updated_songs@, k as int);
    let pid = provider_id as i64;
    let mut builder = UpdateSongsBuilder::new();
    let mut i = start;
    while i < end
        invariant
            start <= i <= end <= updated_songs@.len(),
            start == chunk_start(updated_songs@.len() as int, k as int),
            end == chunk_end(updated_songs@.len() as int, k as int),
            chunk == updated_songs@.subrange(start as int, end as int),
            albums_known(updated_parsed(updated_songs@.subrange(start as int, i as int)), albums@),
            builder.wf(),
            builder.rows() == update_song_rows(pid, updated_songs@.subrange(start as int, i as int), albums@),
        decreases end - i,
    {
        let (id, parsed) = (&updated_songs[i].0, &updated_songs[i].1);
        let album_id = match albums.get(parsed.album_title.as_str()) {
            Some(a) => a,
            None => {
                assert(updated_parsed(chunk)[i - start] == *parsed);
                return None;
            },
        };
        let song = CreateSong::from_parsed(pid, album_id, parsed);
        builder.push((*id, &song));
        let ghost pre = updated_songs@.subrange(start as int, i as int);
        let ghost nxt = updated_songs@.subrange(start as int, i as int + 1);
        assert(nxt =~= pre.push(updated_songs@[i as int]));
        assert(updated_parsed(nxt) =~= updated_parsed(pre).push(*parsed));
        assert(update_song_rows(pid, nxt, albums@) =~= update_song_rows(pid, pre, albums@).push(
            song_update_row(*id, song),
        ));
        i = i + 1;
    }
    Some(builder.build())
}

/// The rows that rewriting where changed songs lie on disk binds.
pub open spec fn update_local_song_rows(u: Seq<(i64, ParsedSong)>) -> Seq<Seq<BindView>> {
    u.map_values(|x: (i64, ParsedSong)| local_song_update_row(x.0, create_local_song_spec(x.1)))
}

/// The statement that rewrites where the `k`-th chunk of changed songs lies on
/// disk. The songs' links to their artists are added to `pending`. None when an
/// artist has no id.
pub fn update_local_songs_query(
    updated_songs: &[(i64, ParsedSong)],
    k: usize,
    artists: &NameIds,
    pending: &mut Vec<(i64, i64, ArtistRole)>,
) -> (r: Option<SqlQuery>)
    ensures
        r is Some <==> artists_known(updated_parsed(chunk_of(updated_songs@, k as int)), artists@),
        r matches Some(q) ==> query_sql(q) == update_local_songs_prefix() + rows_sql(
            chunk_of(updated_songs@, k as int).len(),
            tuple_sql(5),
        ) + update_local_songs_suffix(),
        r matches Some(q) ==> query_args(q) == flatten_rows(update_local_song_rows(chunk_of(updated_songs@, k as int))),
        r is Some ==> final(pending)@ == old(pending)@ + song_links(
            updated_ids(chunk_of(updated_songs@, k as int)),
            updated_parsed(chunk_of(updated_songs@, k as int)),
            artists@,
            chunk_of(updated_songs@, k as int).len(),
        ),
{
    let (start, end) = chunk_range(updated_songs.len(), k);
    let ghost chunk = chunk_of(updated_songs@, k as int);
    let mut builder = UpdateLocalSongsBuilder::new();
    let mut i = start;
    while i < end
        invariant
            start <= i <= end <= updated_songs@.len(),
            start == chunk_start(updated_songs@.len() as int, k as int),
            end == chunk_end(updated_songs@.len() as int, k as int),
            chunk == updated_songs@.subrange(start as int, end as int),
            artists_known(updated_parsed(updated_songs@.subrange(start as int, i as int)), artists@),
            builder.wf(),
            builder.rows() == update_local_song_rows(updated_songs@.subrange(start as int, i as int)),
            pending@ == old(pending)@ + song_links(updated_ids(chunk), updated_parsed(chunk), artists@, (i - start) as nat),
        decreases end - i,
    {
        let (id, parsed) = (&updated_songs[i].0, &updated_songs[i].1);
        assert(updated_parsed(chunk)[i - start] == *parsed);
        assert(updated_ids(chunk)[i - start] == *id);
        let local_song = CreateLocalSong::from_parsed(parsed);
        builder.push((*id, &local_song));
        let album_artist_id = match artists.get(parsed.album_artist_name.as_str()) {
            Some(a) => a,
            None => return None,
        };
        let track_artist_id = match artists.get(parsed.artist_name.as_str()) {
            Some(a) => a,
            None => return None,
        };
        pending.push((*id, album_artist_id, ArtistRole::AlbumArtist));
        pending.push((*id, track_artist_id, ArtistRole::Artist));
        let ghost pre = updated_songs@.subrange(start as int, i as int);
        let ghost nxt = updated_songs@.subrange(start as int, i as int + 1);
        assert(nxt =~= pre.push(updated_songs@[i as int]));
        assert(updated_parsed(nxt) =~= updated_parsed(pre).push(*parsed));
        assert(update_local_song_rows(nxt) =~= update_local_song_rows(pre).push(
            local_song_update_row(*id, local_song),
        ));
        i = i + 1;
    }
    Some(builder.build())
}

/// The rows that deleting by id binds.
pub open spec fn id_rows(ids: Seq<i64>) -> Seq<Seq<BindView>> {
    ids.map_values(|id: i64| id_row(id))
}

/// The statement that unlinks the `k`-th chunk of changed songs from all their artists.
pub fn delete_song_artists_query(updated_songs: &[(i64, ParsedSong)], k: usize) -> (q: SqlQuery)
    ensures
        query_sql(q) == delete_song_artists_prefix() + rows_sql(chunk_of(updated_songs@, k as int).len(), "?"@)
            + delete_song_artists_suffix(),
        query_args(q) == flatten_rows(id_rows(updated_ids(chunk_of(updated_songs@, k as int)))),
{
    let (start, end) = chunk_range(updated_songs.len(), k);
    let mut builder = DeleteSongArtistsBuilder::new();
    let mut i = start;
    while i < end
        invariant
            start <= i <= end <= updated_songs@.len(),
            start == chunk_start(updated_songs@.len() as int, k as int),
            end == chunk_end(updated_songs@.len() as int, k as int),
            builder.wf(),
            builder.rows() == id_rows(updated_ids(updated_songs@.subrange(start as int, i as int))),
        decreases end - i,
    {
        let id = updated_songs[i].0;
        builder.push(id);
        let ghost pre = updated_songs@.subrange(start as int, i as int);
        let ghost nxt = updated_songs@.subrange(start as int, i as int + 1);
        assert(nxt =~= pre.push(updated_songs@[i as int]));
        assert(id_rows(updated_ids(nxt)) =~= id_rows(updated_ids(pre)).push(id_row(id)));
        i = i + 1;
    }
    builder.build()
}

/// The rows that linking songs to artists binds.
pub open spec fn link_rows(links: Seq<(i64, i64, ArtistRole)>) -> Seq<Seq<BindView>> {
    links.map_values(|l: (i64, i64, ArtistRole)| song_artist_row(l.0, l.1, l.2))
}

/// The statement that writes the `k`-th chunk of pending links of songs to artists.
pub fn insert_song_artists_query(pending: &[(i64, i64, ArtistRole)], k: usize) -> (q: SqlQuery)
    ensures
        query_sql(q) == insert_song_artists_prefix() + rows_sql(chunk_of(pending@, k as int).len(), tuple_sql(3)),
        query_args(q) == flatten_rows(link_rows(chunk_of(pending@, k as int))),
{
    let (start, end) = chunk_range(pending.len(), k);
    let mut builder = InsertSongArtistsBuilder::new();
    let mut i = start;
    while i < end
        invariant
            start <= i <= end <= pending@.len(),
            start == chunk_start(pending@.len() as int, k as int),
            end == chunk_end(pending@.len() as int, k as int),
            builder.wf(),
            builder.rows() == link_rows(pending@.subrange(start as int, i as int)),
        decreases end - i,
    {
        let link = pending[i];
        builder.push(link);
        assert(pending@.subrange(start as int, i as int + 1) =~= pending@.subrange(start as int, i as int).push(link));
        assert(link_rows(pending@.subrange(start as int, i as int + 1)) =~= link_rows(
            pending@.subrange(start as int, i as int),
        ).push(song_artist_row(link.0, link.1, link.2)));
        i = i + 1;
    }
    builder.build()
}

/// The rows that moving local songs binds.
pub open spec fn path_rows(moves: Seq<(i64, String)>) -> Seq<Seq<BindView>> {
    moves.map_values(|m: (i64, String)| path_row(m.0, m.1@))
}

/// The statement that moves the `k`-th chunk of local songs to their new paths.
pub fn update_paths_query(to_update_path: &[(i64, String)], k: usize) -> (q: SqlQuery)
    ensures
        query_sql(q) == update_local_songs_path_prefix() + rows_sql(chunk_of(to_update_path@, k as int).len(), tuple_sql(2))
            + update_local_songs_path_suffix(),
        query_args(q) == flatten_rows(path_rows(chunk_of(to_update_path@, k as int))),
{
    let (start, end) = chunk_range(to_update_path.len(), k);
    let mut builder = UpdateLocalSongsPathBuilder::new();
    let mut i = start;
    while i < end
        invariant
            start <= i <= end <= to_update_path@.len(),
            start == chunk_start(to_update_path@.len() as int, k as int),
            end == chunk_end(to_update_path@.len() as int, k as int),
            builder.wf(),
            builder.rows() == path_rows(to_update_path@.subrange(start as int, i as int)),
        decreases end - i,
    {
        let (id, path) = (to_update_path[i].0, to_update_path[i].1.as_str());
        builder.push((id, path));
        assert(to_update_path@.subrange(start as int, i as int + 1) =~= to_update_path@.subrange(start as int, i as int).push(
            to_update_path@[i as int],
        ));
        assert(path_rows(to_update_path@.subrange(start as int, i as int + 1)) =~= path_rows(
            to_update_path@.subrange(start as int, i as int),
        ).push(path_row(id, path@)));
        i = i + 1;
    }
    builder.build()
}

/// The statement that deletes the `k`-th chunk of songs that are gone.
pub fn delete_songs_query(to_delete_ids: &[i64], k: usize) -> (q: SqlQuery)
    ensures
        query_sql(q) == delete_songs_prefix() + rows_sql(chunk_of(to_delete_ids@, k as int).len(), "?"@)
            + delete_songs_suffix(),
        query_args(q) == flatten_rows(id_rows(chunk_of(to_delete_ids@, k as int))),
{
    let (start, end) = chunk_range(to_delete_ids.len(), k);
    let mut builder = DeleteSongsBuilder::new();
    let mut i = start;
    while i < end
        invariant
            start <= i <= end <= to_delete_ids@.len(),
            start == chunk_start(to_delete_ids@.len() as int, k as int),
            end == chunk_end(to_delete_ids@.len() as int, k as int),
            builder.wf(),
            builder.rows() == id_rows(to_delete_ids@.subrange(start as int, i as int)),
        decreases end - i,
    {
        let id = to_delete_ids[i];
        builder.push(id);
        assert(to_delete_ids@.subrange(start as int, i as int + 1) =~= to_delete_ids@.subrange(start as int, i as int).push(id));
        assert(id_rows(to_delete_ids@.subrange(start as int, i as int + 1)) =~= id_rows(
            to_delete_ids@.subrange(start as int, i as int),
        ).push(id_row(id)));
        i = i + 1;
    }
    builder.build()
}

/// Leaving out repeats keeps every item, and no item twice.
pub proof fn lemma_dedup(s: Seq<Seq<char>>)
    ensures
        forall|i: int, j: int| 0 <= i < j < dedup(s).len() ==> dedup(s)[i] != dedup(s)[j],
        forall|x: Seq<char>| dedup(s).contains(x) <==> s.contains(x),
    decreases s.len(),
{
    if s.len() > 0 {
        let p = s.drop_last();
        lemma_dedup(p);
        let d = dedup(p);
        assert forall|x: Seq<char>| dedup(s).contains(x) <==> s.contains(x) by {
            if s.contains(x) {
                let k = choose|k: int| 0 <= k < s.len() && s[k] == x;
                if k < s.len() - 1 {
                    assert(p[k] == x);
                    assert(p.contains(x));
                    assert(d.contains(x));
                    if !d.contains(s.last()) {
                        let m = choose|m: int| 0 <= m < d.len() && d[m] == x;
                        assert(d.push(s.last())[m] == x);
                    }
                } else {
                    if !d.contains(s.last()) {
                        assert(d.push(s.last())[d.len() as int] == x);
                    }
                }
            }
            if dedup(s).contains(x) {
                let m = choose|m: int| 0 <= m < dedup(s).len() && dedup(s)[m] == x;
                if m < d.len() {
                    assert(d[m] == x);
                    assert(d.contains(x));
                    assert(p.contains(x));
                    let k = choose|k: int| 0 <= k < p.len() && p[k] == x;
                    assert(s[k] == x);
                } else {
                    assert(s[s.len() - 1] == x);
                }
            }
        }
    }
}

/// Chunks cut a list of `n` items into runs that follow one another without gap
/// or overlap, starting at the front; each run holds at most `CHUNK_SIZE` items,
/// the first `chunk_count` runs hold at least one, the later ones none, and the
/// last non-empty run ends where the list does.
pub proof fn lemma_chunks_partition(n: int, k: int)
    requires
        0 <= n,
        0 <= k,
    ensures
        chunk_start(n, 0) == 0,
        chunk_end(n, k) == chunk_start(n, k + 1),
        chunk_start(n, k) <= chunk_end(n, k) <= chunk_start(n, k) + 1000,
        chunk_end(n, k) <= n,
        k < chunk_count_spec(n) ==> chunk_start(n, k) < chunk_end(n, k),
        k >= chunk_count_spec(n) ==> chunk_start(n, k) == n,
        n > 0 ==> chunk_end(n, chunk_count_spec(n) - 1) == n,
{
    assert(k < (n + 999) / 1000 <==> k * 1000 < n) by (nonlinear_arith)
        requires
            0 <= n,
            0 <= k,
    ;
    if n > 0 {
        let c = (n + 999) / 1000;
        assert((c - 1) * 1000 < n && n <= c * 1000) by (nonlinear_arith)
            requires
                n > 0,
                c == (n + 999) / 1000,
        ;
    }
}

/// A record of `recs` whose name is known ends up with an id.
proof fn lemma_apply_records_contains(
    m: Map<Seq<char>, i64>,
    known: Seq<Seq<char>>,
    recs: Seq<(i64, Seq<char>)>,
    i: int,
)
    requires
        0 <= i < recs.len(),
        known.contains(recs[i].1),
    ensures
        apply_records(m, known, recs).contains_key(recs[i].1),
    decreases recs.len(),
{
    if i < recs.len() - 1 {
        lemma_apply_records_contains(m, known, recs.drop_last(), i);
    }
}

proof fn lemma_artist_names_contain(songs: Seq<ParsedSong>, j: int)
    requires
        0 <= j < songs.len(),
    ensures
        artist_names(songs).contains(songs[j].album_artist_name@),
        artist_names(songs).contains(songs[j].artist_name@),
    decreases songs.len(),
{
    let a = artist_names(songs);
    let p = artist_names(songs.drop_last());
    if j < songs.len() - 1 {
        lemma_artist_names_contain(songs.drop_last(), j);
        let k1 = choose|k: int| 0 <= k < p.len() && p[k] == songs[j].album_artist_name@;
        let k2 = choose|k: int| 0 <= k < p.len() && p[k] == songs[j].artist_name@;
        assert(a[k1] == p[k1]);
        assert(a[k2] == p[k2]);
    } else {
        assert(a[p.len() as int] == songs[j].album_artist_name@);
        assert(a[p.len() as int + 1] == songs[j].artist_name@);
    }
}

/// When the database answers the upserts of a sync's album titles and artist
/// names with a row for each, every chunk of new and of changed songs finds the
/// ids of its albums and artists: the statements that write songs never lack one.
pub proof fn lemma_upserts_cover_songs(
    new_songs: Seq<ParsedSong>,
    updated_songs: Seq<(i64, ParsedSong)>,
    album_ids: Map<Seq<char>, i64>,
    album_recs: Seq<(i64, Seq<char>)>,
    artist_ids: Map<Seq<char>, i64>,
    artist_recs: Seq<(i64, Seq<char>)>,
    k: int,
)
    requires
        forall|t: Seq<char>|
            #![trigger dedup(album_titles(written_songs(new_songs, updated_songs))).contains(t)]
            dedup(album_titles(written_songs(new_songs, updated_songs))).contains(t) ==> exists|i: int|
                0 <= i < album_recs.len() && album_recs[i].1 == t,
        forall|t: Seq<char>|
            #![trigger dedup(artist_names(written_songs(new_songs, updated_songs))).contains(t)]
            dedup(artist_names(written_songs(new_songs, updated_songs))).contains(t) ==> exists|i: int|
                0 <= i < artist_recs.len() && artist_recs[i].1 == t,
        0 <= k,
    ensures
        albums_known(
            chunk_of(new_songs, k),
            apply_records(album_ids, dedup(album_titles(written_songs(new_songs, updated_songs))), album_recs),
        ),
        albums_known(
            updated_parsed(chunk_of(updated_songs, k)),
            apply_records(album_ids, dedup(album_titles(written_songs(new_songs, updated_songs))), album_recs),
        ),
        artists_known(
            chunk_of(new_songs, k),
            apply_records(artist_ids, dedup(artist_names(written_songs(new_songs, updated_songs))), artist_recs),
        ),
        artists_known(
            updated_parsed(chunk_of(updated_songs, k)),
            apply_records(artist_ids, dedup(artist_names(written_songs(new_songs, updated_songs))), artist_recs),
        ),
{
    let w = written_songs(new_songs, updated_songs);
    let titles = dedup(album_titles(w));
    let names = dedup(artist_names(w));
    let am = apply_records(album_ids, titles, album_recs);
    let rm = apply_records(artist_ids, names, artist_recs);
    lemma_dedup(album_titles(w));
    lemma_dedup(artist_names(w));
    assert forall|j: int| 0 <= j < w.len() implies am.contains_key(#[trigger] w[j].album_title@) by {
        assert(album_titles(w)[j] == w[j].album_title@);
        assert(album_titles(w).contains(w[j].album_title@));
        assert(titles.contains(w[j].album_title@));
        let i = choose|i: int| 0 <= i < album_recs.len() && album_recs[i].1 == w[j].album_title@;
        lemma_apply_records_contains(album_ids, titles, album_recs, i);
    }
    assert forall|j: int| 0 <= j < w.len() implies rm.contains_key(#[trigger] w[j].album_artist_name@)
        && rm.contains_key(w[j].artist_name@) by {
        lemma_artist_names_contain(w, j);
        assert(names.contains(w[j].album_artist_name@));
        assert(names.contains(w[j].artist_name@));
        let i1 = choose|i: int| 0 <= i < artist_recs.len() && artist_recs[i].1 == w[j].album_artist_name@;
        lemma_apply_records_contains(artist_ids, names, artist_recs, i1);
        let i2 = choose|i: int| 0 <= i < artist_recs.len() && artist_recs[i].1 == w[j].artist_name@;
        lemma_apply_records_contains(artist_ids, names, artist_recs, i2);
    }
    let cn = chunk_of(new_songs, k);
    let cs = chunk_start(new_songs.len() as int, k);
    assert forall|i: int| 0 <= i < cn.len() implies am.contains_key(#[trigger] cn[i].album_title@) by {
        assert(cn[i] == w[cs + i]);
    }
    assert forall|i: int| 0 <= i < cn.len() implies rm.contains_key(#[trigger] cn[i].album_artist_name@)
        && rm.contains_key(cn[i].artist_name@) by {
        assert(cn[i] == w[cs + i]);
    }
    let cu = updated_parsed(chunk_of(updated_songs, k));
    let us = chunk_start(updated_songs.len() as int, k);
    assert forall|i: int| 0 <= i < cu.len() implies am.contains_key(#[trigger] cu[i].album_title@) by {
        assert(cu[i] == w[new_songs.len() + us + i]);
    }
    assert forall|i: int| 0 <= i < cu.len() implies rm.contains_key(#[trigger] cu[i].album_artist_name@)
        && rm.contains_key(cu[i].artist_name@) by {
        assert(cu[i] == w[new_songs.len() + us + i]);
    }
}

} // verus!
