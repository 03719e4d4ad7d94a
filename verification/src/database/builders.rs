//! Bulk statements: each builder starts a statement, takes any number of rows
//! and finishes the statement. A row binds its values to placeholders, and the
//! rows are separated by `, `.

use vstd::prelude::*;
use crate::database::entities::{ArtistRole, CreateAlbum, CreateArtist, CreateLocalSong, CreateSong, role_id};
use crate::query::{BindValue, BindView, SqlQuery, qb_new, qb_push, qb_push_bind, query_args, query_sql};

verus! {

/// The placeholders of `k` values separated by `, `.
pub open spec fn bind_list_sql(k: nat) -> Seq<char>
    decreases k,
{
    if k == 0 {
        Seq::<char>::empty()
    } else if k == 1 {
        "?"@
    } else {
        bind_list_sql((k - 1) as nat) + ", "@ + "?"@
    }
}

/// A row of `k` values in parentheses.
pub open spec fn tuple_sql(k: nat) -> Seq<char> {
    "("@ + bind_list_sql(k) + ")"@
}

/// `n` copies of a row's text separated by `, `.
pub open spec fn rows_sql(n: nat, row: Seq<char>) -> Seq<char>
    decreases n,
{
    if n == 0 {
        Seq::<char>::empty()
    } else if n == 1 {
        row
    } else {
        rows_sql((n - 1) as nat, row) + ", "@ + row
    }
}

/// The values of all rows, row after row.
pub open spec fn flatten_rows(rows: Seq<Seq<BindView>>) -> Seq<BindView>
    decreases rows.len(),
{
    if rows.len() == 0 {
        Seq::<BindView>::empty()
    } else {
        flatten_rows(rows.drop_last()) + rows.last()
    }
}

/// How many `?` placeholders a text holds.
pub open spec fn count_placeholders(s: Seq<char>) -> nat
    decreases s.len(),
{
    if s.len() == 0 {
        0
    } else {
        count_placeholders(s.drop_last()) + if s.last() == '?' {
            1nat
        } else {
            0nat
        }
    }
}

proof fn lemma_count_concat(a: Seq<char>, b: Seq<char>)
    ensures
        count_placeholders(a + b) == count_placeholders(a) + count_placeholders(b),
    decreases b.len(),
{
    if b.len() == 0 {
        assert(a + b =~= a);
    } else {
        lemma_count_concat(a, b.drop_last());
        assert((a + b).drop_last() =~= a + b.drop_last());
    }
}

proof fn lemma_literal_counts()
    ensures
        count_placeholders("?"@) == 1,
        count_placeholders("("@) == 0,
        count_placeholders(")"@) == 0,
        count_placeholders(", "@) == 0,
{
    reveal_strlit("?");
    reveal_strlit("(");
    reveal_strlit(")");
    reveal_strlit(", ");
    assert(count_placeholders("?"@.drop_last()) == 0);
    assert(count_placeholders("("@.drop_last()) == 0);
    assert(count_placeholders(")"@.drop_last()) == 0);
    assert(count_placeholders(", "@.drop_last().drop_last()) == 0);
    assert(", "@.drop_last().last() == ',');
    assert(count_placeholders(", "@.drop_last()) == 0);
}

/// A row of `k` values holds `k` placeholders.
pub proof fn lemma_tuple_placeholders(k: nat)
    ensures
        count_placeholders(tuple_sql(k)) == k,
        count_placeholders(bind_list_sql(k)) == k,
    decreases k,
{
    lemma_literal_counts();
    if k > 1 {
        lemma_tuple_placeholders((k - 1) as nat);
        lemma_count_concat(bind_list_sql((k - 1) as nat), ", "@);
        lemma_count_concat(bind_list_sql((k - 1) as nat) + ", "@, "?"@);
    }
    lemma_count_concat("("@, bind_list_sql(k));
    lemma_count_concat("("@ + bind_list_sql(k), ")"@);
}

/// The rows of a statement hold as many placeholders as they bind values, when
/// each row's text holds one placeholder per value of the row.
pub proof fn lemma_placeholders_match(rows: Seq<Seq<BindView>>, row: Seq<char>)
    requires
        forall|i: int| 0 <= i < rows.len() ==> (#[trigger] rows[i]).len() == count_placeholders(row),
    ensures
        count_placeholders(rows_sql(rows.len(), row)) == flatten_rows(rows).len(),
    decreases rows.len(),
{
    lemma_literal_counts();
    if rows.len() > 0 {
        let p = rows.drop_last();
        assert forall|i: int| 0 <= i < p.len() implies (#[trigger] p[i]).len() == count_placeholders(row) by {
            assert(p[i] == rows[i]);
        }
        lemma_placeholders_match(p, row);
        assert(rows.last() == rows[rows.len() - 1]);
        if rows.len() > 1 {
            lemma_count_concat(rows_sql(p.len(), row), ", "@);
            lemma_count_concat(rows_sql(p.len(), row) + ", "@, row);
        } else {
            assert(flatten_rows(p) =~= Seq::<BindView>::empty());
        }
    }
}

/// Pushes the values of one row in parentheses, separated by `, `.
fn push_tuple(qb: &mut SqlQuery, values: Vec<BindValue>)
    requires
        values.len() >= 1,
    ensures
        query_sql(*final(qb)) == query_sql(*old(qb)) + tuple_sql(values.len() as nat),
        query_args(*final(qb)) == query_args(*old(qb)) + values@.map_values(|v: BindValue| v@),
{
    let ghost sql0 = query_sql(*qb);
    let ghost args0 = query_args(*qb);
    qb_push(qb, "(");
    let n = values.len();
    let mut i: usize = 0;
    for v in it: values
        invariant
            n == values.len(),
            i == it.index(),
            it.seq() == values@,
            query_sql(*qb) == sql0 + "("@ + bind_list_sql(i as nat),
            query_args(*qb) == args0 + values@.subrange(0, i as int).map_values(|v: BindValue| v@),
    {
        if i > 0 {
            qb_push(qb, ", ");
        }
        proof {
            assert(values@[i as int] == v);
        }
        qb_push_bind(qb, v);
        proof {
            assert(values@.subrange(0, i as int + 1).map_values(|v: BindValue| v@) =~= values@.subrange(
                0,
                i as int,
            ).map_values(|v: BindValue| v@).push(v@));
            if i == 0 {
                assert(sql0 + "("@ + bind_list_sql(0) + "?"@ =~= sql0 + "("@ + bind_list_sql(1));
            } else {
                assert(sql0 + "("@ + bind_list_sql(i as nat) + ", "@ + "?"@ =~= sql0 + "("@ + bind_list_sql(i as nat + 1));
            }
        }
        i = i + 1;
    }
    assert(values@.subrange(0, n as int) =~= values@);
    qb_push(qb, ")");
    assert(sql0 + "("@ + bind_list_sql(n as nat) + ")"@ =~= sql0 + tuple_sql(n as nat));
}

/// A statement that takes any number of rows of one kind.
pub trait BulkBuilder: Sized {
    /// What one row is made from.
    type Item<'a>;

    /// The statement so far holds its start, then the pushed rows.
    spec fn wf(&self) -> bool;

    /// The values of the rows pushed so far, row by row.
    spec fn rows(&self) -> Seq<Seq<BindView>>;

    /// The values that one row binds.
    spec fn item_row<'a>(item: Self::Item<'a>) -> Seq<BindView>;

    /// The text of the finished statement with `n` rows.
    spec fn statement(n: nat) -> Seq<char>;

    /// Adds a row.
    fn push(&mut self, item: Self::Item<'_>)
        requires
            old(self).wf(),
        ensures
            final(self).wf(),
            final(self).rows() == old(self).rows().push(Self::item_row(item)),
    ;

    /// Finishes the statement.
    fn build(self) -> (q: SqlQuery)
        requires
            self.wf(),
        ensures
            query_sql(q) == Self::statement(self.rows().len()),
            query_args(q) == flatten_rows(self.rows()),
    ;
}

/// The values that one row of `UpsertArtistsBuilder` binds.
pub open spec fn artist_row(artist: CreateArtist) -> Seq<BindView> {
    seq![BindView::Int(artist.provider_id), BindView::Text(artist.name@)]
}

/// The text with which `UpsertArtistsBuilder` starts its statement.
pub open spec fn upsert_artists_prefix() -> Seq<char> {
    "INSERT INTO artists (provider_id, name) VALUES "@
}

/// The text with which `UpsertArtistsBuilder` finishes its statement.
pub open spec fn upsert_artists_suffix() -> Seq<char> {
    " ON CONFLICT (provider_id, name) DO UPDATE SET name = excluded.name RETURNING id, name"@
}

/// Inserts artists, keeping the existing row of an artist already known to the provider, and returns `id, name` of each.
pub struct UpsertArtistsBuilder {
    qb: SqlQuery,
    has_items: bool,
    rows: Ghost<Seq<Seq<BindView>>>,
}

impl UpsertArtistsBuilder {
    /// A statement with no row yet.
    pub fn new() -> (r: UpsertArtistsBuilder)
        ensures
            r.wf(),
            r.rows() == Seq::<Seq<BindView>>::empty(),
    {
        UpsertArtistsBuilder {
            qb: qb_new("INSERT INTO artists (provider_id, name) VALUES "),
            has_items: false,
            rows: Ghost(Seq::empty()),
        }
    }
}

impl BulkBuilder for UpsertArtistsBuilder {
    type Item<'a> = &'a CreateArtist;

    closed spec fn wf(&self) -> bool {
        &&& query_sql(self.qb) == upsert_artists_prefix() + rows_sql(self.rows@.len(), tuple_sql(2))
        &&& query_args(self.qb) == flatten_rows(self.rows@)
        &&& self.has_items == (self.rows@.len() > 0)
    }

    closed spec fn rows(&self) -> Seq<Seq<BindView>> {
        self.rows@
    }

    open spec fn item_row<'a>(artist: &'a CreateArtist) -> Seq<BindView> {
        artist_row(*artist)
    }

    open spec fn statement(n: nat) -> Seq<char> {
        upsert_artists_prefix() + rows_sql(n, tuple_sql(2)) + upsert_artists_suffix()
    }

    fn push(&mut self, artist: &CreateArtist) {
        let ghost old_rows = self.rows@;
        if self.has_items {
            qb_push(&mut self.qb, ", ");
        } else {
            self.has_items = true;
        }
        let vals = vec![BindValue::Int(artist.provider_id), BindValue::Text(artist.name.clone())];
        let ghost vv = vals@;
        push_tuple(&mut self.qb, vals);
        let ghost row = artist_row(*artist);
        self.rows = Ghost(old_rows.push(row));
        proof {
            let new_rows = old_rows.push(row);
            assert(new_rows.drop_last() =~= old_rows);
            assert(vv.map_values(|v: BindValue| v@) =~= row);
            if old_rows.len() == 0 {
                assert(upsert_artists_prefix() + rows_sql(0, tuple_sql(2)) + tuple_sql(2) =~= upsert_artists_prefix() + rows_sql(1, tuple_sql(2)));
                assert(flatten_rows(new_rows) =~= Seq::<BindView>::empty() + row);
            } else {
                assert(upsert_artists_prefix() + rows_sql(old_rows.len(), tuple_sql(2)) + ", "@ + tuple_sql(2) =~= upsert_artists_prefix() + rows_sql(new_rows.len(), tuple_sql(2)));
            }
        }
    }

    fn build(self) -> (q: SqlQuery) {
        let mut qb = self.qb;
        qb_push(&mut qb, " ON CONFLICT (provider_id, name) DO UPDATE SET name = excluded.name RETURNING id, name");
        qb
    }
}

impl Default for UpsertArtistsBuilder {
    fn default() -> (r: UpsertArtistsBuilder)
        ensures
            r.wf(),
            r.rows() == Seq::<Seq<BindView>>::empty(),
    {
        UpsertArtistsBuilder::new()
    }
}

/// The values that one row of `UpsertAlbumsBuilder` binds.
pub open spec fn album_row(album: CreateAlbum) -> Seq<BindView> {
    seq![BindView::Int(album.provider_id), BindView::Text(album.title@)]
}

/// The text with which `UpsertAlbumsBuilder` starts its statement.
pub open spec fn upsert_albums_prefix() -> Seq<char> {
    "INSERT INTO albums (provider_id, title) VALUES "@
}

/// The text with which `UpsertAlbumsBuilder` finishes its statement.
pub open spec fn upsert_albums_suffix() -> Seq<char> {
    " ON CONFLICT (provider_id, title) DO UPDATE SET title = excluded.title RETURNING id, title"@
}

/// Inserts albums, keeping the existing row of an album already known to the provider, and returns `id, title` of each.
pub struct UpsertAlbumsBuilder {
    qb: SqlQuery,
    has_items: bool,
    rows: Ghost<Seq<Seq<BindView>>>,
}

impl UpsertAlbumsBuilder {
    /// A statement with no row yet.
    pub fn new() -> (r: UpsertAlbumsBuilder)
        ensures
            r.wf(),
            r.rows() == Seq::<Seq<BindView>>::empty(),
    {
        UpsertAlbumsBuilder {
            qb: qb_new("INSERT INTO albums (provider_id, title) VALUES "),
            has_items: false,
            rows: Ghost(Seq::empty()),
        }
    }
}

impl BulkBuilder for UpsertAlbumsBuilder {
    type Item<'a> = &'a CreateAlbum;

    closed spec fn wf(&self) -> bool {
        &&& query_sql(self.qb) == upsert_albums_prefix() + rows_sql(self.rows@.len(), tuple_sql(2))
        &&& query_args(self.qb) == flatten_rows(self.rows@)
        &&& self.has_items == (self.rows@.len() > 0)
    }

    closed spec fn rows(&self) -> Seq<Seq<BindView>> {
        self.rows@
    }

    open spec fn item_row<'a>(album: &'a CreateAlbum) -> Seq<BindView> {
        album_row(*album)
    }

    open spec fn statement(n: nat) -> Seq<char> {
        upsert_albums_prefix() + rows_sql(n, tuple_sql(2)) + upsert_albums_suffix()
    }

    fn push(&mut self, album: &CreateAlbum) {
        let ghost old_rows = self.rows@;
        if self.has_items {
            qb_push(&mut self.qb, ", ");
        } else {
            self.has_items = true;
        }
        let vals = vec![BindValue::Int(album.provider_id), BindValue::Text(album.title.clone())];
        let ghost vv = vals@;
        push_tuple(&mut self.qb, vals);
        let ghost row = album_row(*album);
        self.rows = Ghost(old_rows.push(row));
        proof {
            let new_rows = old_rows.push(row);
            assert(new_rows.drop_last() =~= old_rows);
            assert(vv.map_values(|v: BindValue| v@) =~= row);
            if old_rows.len() == 0 {
                assert(upsert_albums_prefix() + rows_sql(0, tuple_sql(2)) + tuple_sql(2) =~= upsert_albums_prefix() + rows_sql(1, tuple_sql(2)));
                assert(flatten_rows(new_rows) =~= Seq::<BindView>::empty() + row);
            } else {
                assert(upsert_albums_prefix() + rows_sql(old_rows.len(), tuple_sql(2)) + ", "@ + tuple_sql(2) =~= upsert_albums_prefix() + rows_sql(new_rows.len(), tuple_sql(2)));
            }
        }
    }

    fn build(self) -> (q: SqlQuery) {
        let mut qb = self.qb;
        qb_push(&mut qb, " ON CONFLICT (provider_id, title) DO UPDATE SET title = excluded.title RETURNING id, title");
        qb
    }
}

impl Default for UpsertAlbumsBuilder {
    fn default() -> (r: UpsertAlbumsBuilder)
        ensures
            r.wf(),
            r.rows() == Seq::<Seq<BindView>>::empty(),
    {
        UpsertAlbumsBuilder::new()
    }
}

/// The values that one row of `InsertSongsBuilder` binds.
pub open spec fn song_row(song: CreateSong) -> Seq<BindView> {
    seq![BindView::Int(song.provider_id), BindView::Int(song.album_id), BindView::Text(song.title@), BindView::OptInt(song.track_number), BindView::Int(song.duration), BindView::OptInt(song.year)]
}

/// The text with which `InsertSongsBuilder` starts its statement.
pub open spec fn insert_songs_prefix() -> Seq<char> {
    "INSERT INTO songs (provider_id, album_id, title, track_number, duration, year) VALUES "@
}

/// The text with which `InsertSongsBuilder` finishes its statement.
pub open spec fn insert_songs_suffix() -> Seq<char> {
    " RETURNING id"@
}

/// Inserts songs and returns the `id` of each, in order.
pub struct InsertSongsBuilder {
    qb: SqlQuery,
    has_items: bool,
    rows: Ghost<Seq<Seq<BindView>>>,
}

impl InsertSongsBuilder {
    /// A statement with no row yet.
    pub fn new() -> (r: InsertSongsBuilder)
        ensures
            r.wf(),
            r.rows() == Seq::<Seq<BindView>>::empty(),
    {
        InsertSongsBuilder {
            qb: qb_new("INSERT INTO songs (provider_id, album_id, title, track_number, duration, year) VALUES "),
            has_items: false,
            rows: Ghost(Seq::empty()),
        }
    }
}

impl BulkBuilder for InsertSongsBuilder {
    type Item<'a> = &'a CreateSong;

    closed spec fn wf(&self) -> bool {
        &&& query_sql(self.qb) == insert_songs_prefix() + rows_sql(self.rows@.len(), tuple_sql(6))
        &&& query_args(self.qb) == flatten_rows(self.rows@)
        &&& self.has_items == (self.rows@.len() > 0)
    }

    closed spec fn rows(&self) -> Seq<Seq<BindView>> {
        self.rows@
    }

    open spec fn item_row<'a>(song: &'a CreateSong) -> Seq<BindView> {
        song_row(*song)
    }

    open spec fn statement(n: nat) -> Seq<char> {
        insert_songs_prefix() + rows_sql(n, tuple_sql(6)) + insert_songs_suffix()
    }

    fn push(&mut self, song: &CreateSong) {
        let ghost old_rows = self.rows@;
        if self.has_items {
            qb_push(&mut self.qb, ", ");
        } else {
            self.has_items = true;
        }
        let vals = vec![BindValue::Int(song.provider_id), BindValue::Int(song.album_id), BindValue::Text(song.title.clone()), BindValue::OptInt(song.track_number), BindValue::Int(song.duration), BindValue::OptInt(song.year)];
        let ghost vv = vals@;
        push_tuple(&mut self.qb, vals);
        let ghost row = song_row(*song);
        self.rows = Ghost(old_rows.push(row));
        proof {
            let new_rows = old_rows.push(row);
            assert(new_rows.drop_last() =~= old_rows);
            assert(vv.map_values(|v: BindValue| v@) =~= row);
            if old_rows.len() == 0 {
                assert(insert_songs_prefix() + rows_sql(0, tuple_sql(6)) + tuple_sql(6) =~= insert_songs_prefix() + rows_sql(1, tuple_sql(6)));
                assert(flatten_rows(new_rows) =~= Seq::<BindView>::empty() + row);
            } else {
                assert(insert_songs_prefix() + rows_sql(old_rows.len(), tuple_sql(6)) + ", "@ + tuple_sql(6) =~= insert_songs_prefix() + rows_sql(new_rows.len(), tuple_sql(6)));
            }
        }
    }

    fn build(self) -> (q: SqlQuery) {
        let mut qb = self.qb;
        qb_push(&mut qb, " RETURNING id");
        qb
    }
}

impl Default for InsertSongsBuilder {
    fn default() -> (r: InsertSongsBuilder)
        ensures
            r.wf(),
            r.rows() == Seq::<Seq<BindView>>::empty(),
    {
        InsertSongsBuilder::new()
    }
}

/// The values that one row of `InsertLocalSongsBuilder` binds.
pub open spec fn local_song_row(song_id: i64, song: CreateLocalSong) -> Seq<BindView> {
    seq![BindView::Int(song_id), BindView::Text(song.path@), BindView::Int(song.inode), BindView::Int(song.mtime), BindView::Int(song.size), BindView::Text(song.format@)]
}

/// The text with which `InsertLocalSongsBuilder` starts its statement.
pub open spec fn insert_local_songs_prefix() -> Seq<char> {
    "INSERT INTO local_songs (song_id, path, inode, mtime, size, format) VALUES "@
}

/// Inserts where songs of the local provider lie on disk.
pub struct InsertLocalSongsBuilder {
    qb: SqlQuery,
    has_items: bool,
    rows: Ghost<Seq<Seq<BindView>>>,
}

impl InsertLocalSongsBuilder {
    /// A statement with no row yet.
    pub fn new() -> (r: InsertLocalSongsBuilder)
        ensures
            r.wf(),
            r.rows() == Seq::<Seq<BindView>>::empty(),
    {
        InsertLocalSongsBuilder {
            qb: qb_new("INSERT INTO local_songs (song_id, path, inode, mtime, size, format) VALUES "),
            has_items: false,
            rows: Ghost(Seq::empty()),
        }
    }
}

impl BulkBuilder for InsertLocalSongsBuilder {
    type Item<'a> = (i64, &'a CreateLocalSong);

    closed spec fn wf(&self) -> bool {
        &&& query_sql(self.qb) == insert_local_songs_prefix() + rows_sql(self.rows@.len(), tuple_sql(6))
        &&& query_args(self.qb) == flatten_rows(self.rows@)
        &&& self.has_items == (self.rows@.len() > 0)
    }

    closed spec fn rows(&self) -> Seq<Seq<BindView>> {
        self.rows@
    }

    open spec fn item_row<'a>(item: (i64, &'a CreateLocalSong)) -> Seq<BindView> {
        local_song_row(item.0, *item.1)
    }

    open spec fn statement(n: nat) -> Seq<char> {
        insert_local_songs_prefix() + rows_sql(n, tuple_sql(6))
    }

    fn push(&mut self, item: (i64, &CreateLocalSong)) {
        let (song_id, song) = item;
        let ghost old_rows = self.rows@;
        if self.has_items {
            qb_push(&mut self.qb, ", ");
        } else {
            self.has_items = true;
        }
        let vals = vec![BindValue::Int(song_id), BindValue::Text(song.path.clone()), BindValue::Int(song.inode), BindValue::Int(song.mtime), BindValue::Int(song.size), BindValue::Text(song.format.clone())];
        let ghost vv = vals@;
        push_tuple(&mut self.qb, vals);
        let ghost row = local_song_row(item.0, *item.1);
        self.rows = Ghost(old_rows.push(row));
        proof {
            let new_rows = old_rows.push(row);
            assert(new_rows.drop_last() =~= old_rows);
            assert(vv.map_values(|v: BindValue| v@) =~= row);
            if old_rows.len() == 0 {
                assert(insert_local_songs_prefix() + rows_sql(0, tuple_sql(6)) + tuple_sql(6) =~= insert_local_songs_prefix() + rows_sql(1, tuple_sql(6)));
                assert(flatten_rows(new_rows) =~= Seq::<BindView>::empty() + row);
            } else {
                assert(insert_local_songs_prefix() + rows_sql(old_rows.len(), tuple_sql(6)) + ", "@ + tuple_sql(6) =~= insert_local_songs_prefix() + rows_sql(new_rows.len(), tuple_sql(6)));
            }
        }
    }

    fn build(self) -> (q: SqlQuery) {
        self.qb
    }
}

impl Default for InsertLocalSongsBuilder {
    fn default() -> (r: InsertLocalSongsBuilder)
        ensures
            r.wf(),
            r.rows() == Seq::<Seq<BindView>>::empty(),
    {
        InsertLocalSongsBuilder::new()
    }
}

/// The values that one row of `UpdateSongsBuilder` binds.
pub open spec fn song_update_row(id: i64, song: CreateSong) -> Seq<BindView> {
    seq![BindView::Int(id), BindView::Int(song.album_id), BindView::Text(song.title@), BindView::OptInt(song.track_number), BindView::Int(song.duration), BindView::OptInt(song.year)]
}

/// The text with which `UpdateSongsBuilder` starts its statement.
pub open spec fn update_songs_prefix() -> Seq<char> {
    "WITH tmp(id, album_id, title, track_number, duration, year) AS (VALUES "@
}

/// The text with which `UpdateSongsBuilder` finishes its statement.
pub open spec fn update_songs_suffix() -> Seq<char> {
    ") UPDATE songs SET album_id = tmp.album_id, title = tmp.title, track_number = tmp.track_number, duration = tmp.duration, year = tmp.year FROM tmp WHERE songs.id = tmp.id"@
}

/// Rewrites the album, title, track number, duration and year of songs given by id.
pub struct UpdateSongsBuilder {
    qb: SqlQuery,
    has_items: bool,
    rows: Ghost<Seq<Seq<BindView>>>,
}

impl UpdateSongsBuilder {
    /// A statement with no row yet.
    pub fn new() -> (r: UpdateSongsBuilder)
        ensures
            r.wf(),
            r.rows() == Seq::<Seq<BindView>>::empty(),
    {
        UpdateSongsBuilder {
            qb: qb_new("WITH tmp(id, album_id, title, track_number, duration, year) AS (VALUES "),
            has_items: false,
            rows: Ghost(Seq::empty()),
        }
    }
}

impl BulkBuilder for UpdateSongsBuilder {
    type Item<'a> = (i64, &'a CreateSong);

    closed spec fn wf(&self) -> bool {
        &&& query_sql(self.qb) == update_songs_prefix() + rows_sql(self.rows@.len(), tuple_sql(6))
        &&& query_args(self.qb) == flatten_rows(self.rows@)
        &&& self.has_items == (self.rows@.len() > 0)
    }

    closed spec fn rows(&self) -> Seq<Seq<BindView>> {
        self.rows@
    }

    open spec fn item_row<'a>(item: (i64, &'a CreateSong)) -> Seq<BindView> {
        song_update_row(item.0, *item.1)
    }

    open spec fn statement(n: nat) -> Seq<char> {
        update_songs_prefix() + rows_sql(n, tuple_sql(6)) + update_songs_suffix()
    }

    fn push(&mut self, item: (i64, &CreateSong)) {
        let (id, song) = item;
        let ghost old_rows = self.rows@;
        if self.has_items {
            qb_push(&mut self.qb, ", ");
        } else {
            self.has_items = true;
        }
        let vals = vec![BindValue::Int(id), BindValue::Int(song.album_id), BindValue::Text(song.title.clone()), BindValue::OptInt(song.track_number), BindValue::Int(song.duration), BindValue::OptInt(song.year)];
        let ghost vv = vals@;
        push_tuple(&mut self.qb, vals);
        let ghost row = song_update_row(item.0, *item.1);
        self.rows = Ghost(old_rows.push(row));
        proof {
            let new_rows = old_rows.push(row);
            assert(new_rows.drop_last() =~= old_rows);
            assert(vv.map_values(|v: BindValue| v@) =~= row);
            if old_rows.len() == 0 {
                assert(update_songs_prefix() + rows_sql(0, tuple_sql(6)) + tuple_sql(6) =~= update_songs_prefix() + rows_sql(1, tuple_sql(6)));
                assert(flatten_rows(new_rows) =~= Seq::<BindView>::empty() + row);
            } else {
                assert(update_songs_prefix() + rows_sql(old_rows.len(), tuple_sql(6)) + ", "@ + tuple_sql(6) =~= update_songs_prefix() + rows_sql(new_rows.len(), tuple_sql(6)));
            }
        }
    }

    fn build(self) -> (q: SqlQuery) {
        let mut qb = self.qb;
        qb_push(&mut qb, ") UPDATE songs SET album_id = tmp.album_id, title = tmp.title, track_number = tmp.track_number, duration = tmp.duration, year = tmp.year FROM tmp WHERE songs.id = tmp.id");
        qb
    }
}

impl Default for UpdateSongsBuilder {
    fn default() -> (r: UpdateSongsBuilder)
        ensures
            r.wf(),
            r.rows() == Seq::<Seq<BindView>>::empty(),
    {
        UpdateSongsBuilder::new()
    }
}

/// The values that one row of `UpdateLocalSongsBuilder` binds.
pub open spec fn local_song_update_row(id: i64, song: CreateLocalSong) -> Seq<BindView> {
    seq![BindView::Int(id), BindView::Int(song.inode), BindView::Int(song.mtime), BindView::Int(song.size), BindView::Text(song.format@)]
}

/// The text with which `UpdateLocalSongsBuilder` starts its statement.
pub open spec fn update_local_songs_prefix() -> Seq<char> {
    "WITH tmp(id, inode, mtime, size, format) AS (VALUES "@
}

/// The text with which `UpdateLocalSongsBuilder` finishes its statement.
pub open spec fn update_local_songs_suffix() -> Seq<char> {
    ") UPDATE local_songs SET inode = tmp.inode, mtime = tmp.mtime, size = tmp.size, format = tmp.format FROM tmp WHERE local_songs.song_id = tmp.id"@
}

/// Rewrites the inode, modification time, size and format of local songs given by song id.
pub struct UpdateLocalSongsBuilder {
    qb: SqlQuery,
    has_items: bool,
    rows: Ghost<Seq<Seq<BindView>>>,
}

impl UpdateLocalSongsBuilder {
    /// A statement with no row yet.
    pub fn new() -> (r: UpdateLocalSongsBuilder)
        ensures
            r.wf(),
            r.rows() == Seq::<Seq<BindView>>::empty(),
    {
        UpdateLocalSongsBuilder {
            qb: qb_new("WITH tmp(id, inode, mtime, size, format) AS (VALUES "),
            has_items: false,
            rows: Ghost(Seq::empty()),
        }
    }
}

impl BulkBuilder for UpdateLocalSongsBuilder {
    type Item<'a> = (i64, &'a CreateLocalSong);

    closed spec fn wf(&self) -> bool {
        &&& query_sql(self.qb) == update_local_songs_prefix() + rows_sql(self.rows@.len(), tuple_sql(5))
        &&& query_args(self.qb) == flatten_rows(self.rows@)
        &&& self.has_items == (self.rows@.len() > 0)
    }

    closed spec fn rows(&self) -> Seq<Seq<BindView>> {
        self.rows@
    }

    open spec fn item_row<'a>(item: (i64, &'a CreateLocalSong)) -> Seq<BindView> {
        local_song_update_row(item.0, *item.1)
    }

    open spec fn statement(n: nat) -> Seq<char> {
        update_local_songs_prefix() + rows_sql(n, tuple_sql(5)) + update_local_songs_suffix()
    }

    fn push(&mut self, item: (i64, &CreateLocalSong)) {
        let (id, song) = item;
        let ghost old_rows = self.rows@;
        if self.has_items {
            qb_push(&mut self.qb, ", ");
        } else {
            self.has_items = true;
        }
        let vals = vec![BindValue::Int(id), BindValue::Int(song.inode), BindValue::Int(song.mtime), BindValue::Int(song.size), BindValue::Text(song.format.clone())];
        let ghost vv = vals@;
        push_tuple(&mut self.qb, vals);
        let ghost row = local_song_update_row(item.0, *item.1);
        self.rows = Ghost(old_rows.push(row));
        proof {
            let new_rows = old_rows.push(row);
            assert(new_rows.drop_last() =~= old_rows);
            assert(vv.map_values(|v: BindValue| v@) =~= row);
            if old_rows.len() == 0 {
                assert(update_local_songs_prefix() + rows_sql(0, tuple_sql(5)) + tuple_sql(5) =~= update_local_songs_prefix() + rows_sql(1, tuple_sql(5)));
                assert(flatten_rows(new_rows) =~= Seq::<BindView>::empty() + row);
            } else {
                assert(update_local_songs_prefix() + rows_sql(old_rows.len(), tuple_sql(5)) + ", "@ + tuple_sql(5) =~= update_local_songs_prefix() + rows_sql(new_rows.len(), tuple_sql(5)));
            }
        }
    }

    fn build(self) -> (q: SqlQuery) {
        let mut qb = self.qb;
        qb_push(&mut qb, ") UPDATE local_songs SET inode = tmp.inode, mtime = tmp.mtime, size = tmp.size, format = tmp.format FROM tmp WHERE local_songs.song_id = tmp.id");
        qb
    }
}

impl Default for UpdateLocalSongsBuilder {
    fn default() -> (r: UpdateLocalSongsBuilder)
        ensures
            r.wf(),
            r.rows() == Seq::<Seq<BindView>>::empty(),
    {
        UpdateLocalSongsBuilder::new()
    }
}

/// The values that one row of `InsertSongArtistsBuilder` binds.
pub open spec fn song_artist_row(song_id: i64, artist_id: i64, role: ArtistRole) -> Seq<BindView> {
    seq![BindView::Int(song_id), BindView::Int(artist_id), BindView::Int(role_id(role))]
}

/// The text with which `InsertSongArtistsBuilder` starts its statement.
pub open spec fn insert_song_artists_prefix() -> Seq<char> {
    "INSERT OR IGNORE INTO song_artists (song_id, artist_id, role) VALUES "@
}

/// Links songs to artists in a role; a link already there is left as it is.
pub struct InsertSongArtistsBuilder {
    qb: SqlQuery,
    has_items: bool,
    rows: Ghost<Seq<Seq<BindView>>>,
}

impl InsertSongArtistsBuilder {
    /// A statement with no row yet.
    pub fn new() -> (r: InsertSongArtistsBuilder)
        ensures
            r.wf(),
            r.rows() == Seq::<Seq<BindView>>::empty(),
    {
        InsertSongArtistsBuilder {
            qb: qb_new("INSERT OR IGNORE INTO song_artists (song_id, artist_id, role) VALUES "),
            has_items: false,
            rows: Ghost(Seq::empty()),
        }
    }
}

impl BulkBuilder for InsertSongArtistsBuilder {
    type Item<'a> = (i64, i64, ArtistRole);

    closed spec fn wf(&self) -> bool {
        &&& query_sql(self.qb) == insert_song_artists_prefix() + rows_sql(self.rows@.len(), tuple_sql(3))
        &&& query_args(self.qb) == flatten_rows(self.rows@)
        &&& self.has_items == (self.rows@.len() > 0)
    }

    closed spec fn rows(&self) -> Seq<Seq<BindView>> {
        self.rows@
    }

    open spec fn item_row<'a>(item: (i64, i64, ArtistRole)) -> Seq<BindView> {
        song_artist_row(item.0, item.1, item.2)
    }

    open spec fn statement(n: nat) -> Seq<char> {
        insert_song_artists_prefix() + rows_sql(n, tuple_sql(3))
    }

    fn push(&mut self, item: (i64, i64, ArtistRole)) {
        let (song_id, artist_id, role) = item;
        let ghost old_rows = self.rows@;
        if self.has_items {
            qb_push(&mut self.qb, ", ");
        } else {
            self.has_items = true;
        }
        let vals = vec![BindValue::Int(song_id), BindValue::Int(artist_id), BindValue::Int(role.id())];
        let ghost vv = vals@;
        push_tuple(&mut self.qb, vals);
        let ghost row = song_artist_row(item.0, item.1, item.2);
        self.rows = Ghost(old_rows.push(row));
        proof {
            let new_rows = old_rows.push(row);
            assert(new_rows.drop_last() =~= old_rows);
            assert(vv.map_values(|v: BindValue| v@) =~= row);
            if old_rows.len() == 0 {
                assert(insert_song_artists_prefix() + rows_sql(0, tuple_sql(3)) + tuple_sql(3) =~= insert_song_artists_prefix() + rows_sql(1, tuple_sql(3)));
                assert(flatten_rows(new_rows) =~= Seq::<BindView>::empty() + row);
            } else {
                assert(insert_song_artists_prefix() + rows_sql(old_rows.len(), tuple_sql(3)) + ", "@ + tuple_sql(3) =~= insert_song_artists_prefix() + rows_sql(new_rows.len(), tuple_sql(3)));
            }
        }
    }

    fn build(self) -> (q: SqlQuery) {
        self.qb
    }
}

impl Default for InsertSongArtistsBuilder {
    fn default() -> (r: InsertSongArtistsBuilder)
        ensures
            r.wf(),
            r.rows() == Seq::<Seq<BindView>>::empty(),
    {
        InsertSongArtistsBuilder::new()
    }
}

/// The values that one row of `UpdateLocalSongsPathBuilder` binds.
pub open spec fn path_row(id: i64, path: Seq<char>) -> Seq<BindView> {
    seq![BindView::Int(id), BindView::Text(path)]
}

/// The text with which `UpdateLocalSongsPathBuilder` starts its statement.
pub open spec fn update_local_songs_path_prefix() -> Seq<char> {
    "WITH tmp(id, path) AS (VALUES "@
}

/// The text with which `UpdateLocalSongsPathBuilder` finishes its statement.
pub open spec fn update_local_songs_path_suffix() -> Seq<char> {
    ") UPDATE local_songs SET path = tmp.path FROM tmp WHERE local_songs.song_id = tmp.id"@
}

/// Moves local songs, given by song id, to new paths.
pub struct UpdateLocalSongsPathBuilder {
    qb: SqlQuery,
    has_items: bool,
    rows: Ghost<Seq<Seq<BindView>>>,
}

impl UpdateLocalSongsPathBuilder {
    /// A statement with no row yet.
    pub fn new() -> (r: UpdateLocalSongsPathBuilder)
        ensures
            r.wf(),
            r.rows() == Seq::<Seq<BindView>>::empty(),
    {
        UpdateLocalSongsPathBuilder {
            qb: qb_new("WITH tmp(id, path) AS (VALUES "),
            has_items: false,
            rows: Ghost(Seq::empty()),
        }
    }
}

impl BulkBuilder for UpdateLocalSongsPathBuilder {
    type Item<'a> = (i64, &'a str);

    closed spec fn wf(&self) -> bool {
        &&& query_sql(self.qb) == update_local_songs_path_prefix() + rows_sql(self.rows@.len(), tuple_sql(2))
        &&& query_args(self.qb) == flatten_rows(self.rows@)
        &&& self.has_items == (self.rows@.len() > 0)
    }

    closed spec fn rows(&self) -> Seq<Seq<BindView>> {
        self.rows@
    }

    open spec fn item_row<'a>(item: (i64, &'a str)) -> Seq<BindView> {
        path_row(item.0, item.1@)
    }

    open spec fn statement(n: nat) -> Seq<char> {
        update_local_songs_path_prefix() + rows_sql(n, tuple_sql(2)) + update_local_songs_path_suffix()
    }

    fn push(&mut self, item: (i64, &str)) {
        let (id, path) = item;
        let ghost old_rows = self.rows@;
        if self.has_items {
            qb_push(&mut self.qb, ", ");
        } else {
            self.has_items = true;
        }
        let vals = vec![BindValue::Int(id), BindValue::Text(String::from_str(path))];
        let ghost vv = vals@;
        push_tuple(&mut self.qb, vals);
        let ghost row = path_row(item.0, item.1@);
        self.rows = Ghost(old_rows.push(row));
        proof {
            let new_rows = old_rows.push(row);
            assert(new_rows.drop_last() =~= old_rows);
            assert(vv.map_values(|v: BindValue| v@) =~= row);
            if old_rows.len() == 0 {
                assert(update_local_songs_path_prefix() + rows_sql(0, tuple_sql(2)) + tuple_sql(2) =~= update_local_songs_path_prefix() + rows_sql(1, tuple_sql(2)));
                assert(flatten_rows(new_rows) =~= Seq::<BindView>::empty() + row);
            } else {
                assert(update_local_songs_path_prefix() + rows_sql(old_rows.len(), tuple_sql(2)) + ", "@ + tuple_sql(2) =~= update_local_songs_path_prefix() + rows_sql(new_rows.len(), tuple_sql(2)));
            }
        }
    }

    fn build(self) -> (q: SqlQuery) {
        let mut qb = self.qb;
        qb_push(&mut qb, ") UPDATE local_songs SET path = tmp.path FROM tmp WHERE local_songs.song_id = tmp.id");
        qb
    }
}

impl Default for UpdateLocalSongsPathBuilder {
    fn default() -> (r: UpdateLocalSongsPathBuilder)
        ensures
            r.wf(),
            r.rows() == Seq::<Seq<BindView>>::empty(),
    {
        UpdateLocalSongsPathBuilder::new()
    }
}

/// The values that one row of `DeleteSongArtistsBuilder` binds.
pub open spec fn id_row(id: i64) -> Seq<BindView> {
    seq![BindView::Int(id)]
}

/// The text with which `DeleteSongArtistsBuilder` starts its statement.
pub open spec fn delete_song_artists_prefix() -> Seq<char> {
    "DELETE FROM song_artists WHERE song_id IN ("@
}

/// The text with which `DeleteSongArtistsBuilder` finishes its statement.
pub open spec fn delete_song_artists_suffix() -> Seq<char> {
    ")"@
}

/// Removes every artist link of the songs given by id.
pub struct DeleteSongArtistsBuilder {
    qb: SqlQuery,
    has_items: bool,
    rows: Ghost<Seq<Seq<BindView>>>,
}

impl DeleteSongArtistsBuilder {
    /// A statement with no row yet.
    pub fn new() -> (r: DeleteSongArtistsBuilder)
        ensures
            r.wf(),
            r.rows() == Seq::<Seq<BindView>>::empty(),
    {
        DeleteSongArtistsBuilder {
            qb: qb_new("DELETE FROM song_artists WHERE song_id IN ("),
            has_items: false,
            rows: Ghost(Seq::empty()),
        }
    }
}

impl BulkBuilder for DeleteSongArtistsBuilder {
    type Item<'a> = i64;

    closed spec fn wf(&self) -> bool {
        &&& query_sql(self.qb) == delete_song_artists_prefix() + rows_sql(self.rows@.len(), "?"@)
        &&& query_args(self.qb) == flatten_rows(self.rows@)
        &&& self.has_items == (self.rows@.len() > 0)
    }

    closed spec fn rows(&self) -> Seq<Seq<BindView>> {
        self.rows@
    }

    open spec fn item_row<'a>(id: i64) -> Seq<BindView> {
        id_row(id)
    }

    open spec fn statement(n: nat) -> Seq<char> {
        delete_song_artists_prefix() + rows_sql(n, "?"@) + delete_song_artists_suffix()
    }

    fn push(&mut self, id: i64) {
        let ghost old_rows = self.rows@;
        if self.has_items {
            qb_push(&mut self.qb, ", ");
        } else {
            self.has_items = true;
        }
        qb_push_bind(&mut self.qb, BindValue::Int(id));
        let ghost row = id_row(id);
        self.rows = Ghost(old_rows.push(row));
        proof {
            let new_rows = old_rows.push(row);
            assert(new_rows.drop_last() =~= old_rows);
            assert(flatten_rows(new_rows) =~= flatten_rows(old_rows).push(BindView::Int(id)));
            if old_rows.len() == 0 {
                assert(delete_song_artists_prefix() + rows_sql(0, "?"@) + "?"@ =~= delete_song_artists_prefix() + rows_sql(1, "?"@));
                assert(flatten_rows(new_rows) =~= Seq::<BindView>::empty() + row);
            } else {
                assert(delete_song_artists_prefix() + rows_sql(old_rows.len(), "?"@) + ", "@ + "?"@ =~= delete_song_artists_prefix() + rows_sql(new_rows.len(), "?"@));
            }
        }
    }

    fn build(self) -> (q: SqlQuery) {
        let mut qb = self.qb;
        qb_push(&mut qb, ")");
        qb
    }
}

impl Default for DeleteSongArtistsBuilder {
    fn default() -> (r: DeleteSongArtistsBuilder)
        ensures
            r.wf(),
            r.rows() == Seq::<Seq<BindView>>::empty(),
    {
        DeleteSongArtistsBuilder::new()
    }
}

/// The text with which `DeleteSongsBuilder` starts its statement.
pub open spec fn delete_songs_prefix() -> Seq<char> {
    "DELETE FROM songs WHERE id IN ("@
}

/// The text with which `DeleteSongsBuilder` finishes its statement.
pub open spec fn delete_songs_suffix() -> Seq<char> {
    ")"@
}

/// Removes the songs given by id.
pub struct DeleteSongsBuilder {
    qb: SqlQuery,
    has_items: bool,
    rows: Ghost<Seq<Seq<BindView>>>,
}

impl DeleteSongsBuilder {
    /// A statement with no row yet.
    pub fn new() -> (r: DeleteSongsBuilder)
        ensures
            r.wf(),
            r.rows() == Seq::<Seq<BindView>>::empty(),
    {
        DeleteSongsBuilder {
            qb: qb_new("DELETE FROM songs WHERE id IN ("),
            has_items: false,
            rows: Ghost(Seq::empty()),
        }
    }
}

impl BulkBuilder for DeleteSongsBuilder {
    type Item<'a> = i64;

    closed spec fn wf(&self) -> bool {
        &&& query_sql(self.qb) == delete_songs_prefix() + rows_sql(self.rows@.len(), "?"@)
        &&& query_args(self.qb) == flatten_rows(self.rows@)
        &&& self.has_items == (self.rows@.len() > 0)
    }

    closed spec fn rows(&self) -> Seq<Seq<BindView>> {
        self.rows@
    }

    open spec fn item_row<'a>(id: i64) -> Seq<BindView> {
        id_row(id)
    }

    open spec fn statement(n: nat) -> Seq<char> {
        delete_songs_prefix() + rows_sql(n, "?"@) + delete_songs_suffix()
    }

    fn push(&mut self, id: i64) {
        let ghost old_rows = self.rows@;
        if self.has_items {
            qb_push(&mut self.qb, ", ");
        } else {
            self.has_items = true;
        }
        qb_push_bind(&mut self.qb, BindValue::Int(id));
        let ghost row = id_row(id);
        self.rows = Ghost(old_rows.push(row));
        proof {
            let new_rows = old_rows.push(row);
            assert(new_rows.drop_last() =~= old_rows);
            assert(flatten_rows(new_rows) =~= flatten_rows(old_rows).push(BindView::Int(id)));
            if old_rows.len() == 0 {
                assert(delete_songs_prefix() + rows_sql(0, "?"@) + "?"@ =~= delete_songs_prefix() + rows_sql(1, "?"@));
                assert(flatten_rows(new_rows) =~= Seq::<BindView>::empty() + row);
            } else {
                assert(delete_songs_prefix() + rows_sql(old_rows.len(), "?"@) + ", "@ + "?"@ =~= delete_songs_prefix() + rows_sql(new_rows.len(), "?"@));
            }
        }
    }

    fn build(self) -> (q: SqlQuery) {
        let mut qb = self.qb;
        qb_push(&mut qb, ")");
        qb
    }
}

impl Default for DeleteSongsBuilder {
    fn default() -> (r: DeleteSongsBuilder)
        ensures
            r.wf(),
            r.rows() == Seq::<Seq<BindView>>::empty(),
    {
        DeleteSongsBuilder::new()
    }
}


/// The columns of the songs a sync inserts, and what each takes: the values of
/// a song go, in order, to `provider_id`, `album_id`, `title`, `track_number`,
/// `duration` and `year`, so its track number lands in `track_number` and its
/// year in `year`.
pub proof fn lemma_insert_songs_columns(s: CreateSong)
    ensures
        insert_songs_prefix() == "INSERT INTO songs (provider_id, album_id, title, track_number, duration, year) VALUES "@,
        <InsertSongsBuilder as BulkBuilder>::item_row(&s).len() == 6,
        <InsertSongsBuilder as BulkBuilder>::item_row(&s)[0] == BindView::Int(s.provider_id),
        <InsertSongsBuilder as BulkBuilder>::item_row(&s)[1] == BindView::Int(s.album_id),
        <InsertSongsBuilder as BulkBuilder>::item_row(&s)[2] == BindView::Text(s.title@),
        <InsertSongsBuilder as BulkBuilder>::item_row(&s)[3] == BindView::OptInt(s.track_number),
        <InsertSongsBuilder as BulkBuilder>::item_row(&s)[4] == BindView::Int(s.duration),
        <InsertSongsBuilder as BulkBuilder>::item_row(&s)[5] == BindView::OptInt(s.year),
{
}

/// The columns of the songs a sync rewrites: `id`, `album_id`, `title`,
/// `track_number`, `duration` and `year`, each set from the column of its name.
pub proof fn lemma_update_songs_columns(id: i64, s: CreateSong)
    ensures
        update_songs_prefix() == "WITH tmp(id, album_id, title, track_number, duration, year) AS (VALUES "@,
        update_songs_suffix() == ") UPDATE songs SET album_id = tmp.album_id, title = tmp.title, track_number = tmp.track_number, duration = tmp.duration, year = tmp.year FROM tmp WHERE songs.id = tmp.id"@,
        <UpdateSongsBuilder as BulkBuilder>::item_row((id, &s)).len() == 6,
        <UpdateSongsBuilder as BulkBuilder>::item_row((id, &s))[0] == BindView::Int(id),
        <UpdateSongsBuilder as BulkBuilder>::item_row((id, &s))[1] == BindView::Int(s.album_id),
        <UpdateSongsBuilder as BulkBuilder>::item_row((id, &s))[2] == BindView::Text(s.title@),
        <UpdateSongsBuilder as BulkBuilder>::item_row((id, &s))[3] == BindView::OptInt(s.track_number),
        <UpdateSongsBuilder as BulkBuilder>::item_row((id, &s))[4] == BindView::Int(s.duration),
        <UpdateSongsBuilder as BulkBuilder>::item_row((id, &s))[5] == BindView::OptInt(s.year),
{
}

/// The columns of the places on disk a sync inserts: `song_id`, `path`,
/// `inode`, `mtime`, `size` and `format`, in that order.
pub proof fn lemma_insert_local_songs_columns(song_id: i64, s: CreateLocalSong)
    ensures
        insert_local_songs_prefix() == "INSERT INTO local_songs (song_id, path, inode, mtime, size, format) VALUES "@,
        <InsertLocalSongsBuilder as BulkBuilder>::item_row((song_id, &s)).len() == 6,
        <InsertLocalSongsBuilder as BulkBuilder>::item_row((song_id, &s))[0] == BindView::Int(song_id),
        <InsertLocalSongsBuilder as BulkBuilder>::item_row((song_id, &s))[1] == BindView::Text(s.path@),
        <InsertLocalSongsBuilder as BulkBuilder>::item_row((song_id, &s))[2] == BindView::Int(s.inode),
        <InsertLocalSongsBuilder as BulkBuilder>::item_row((song_id, &s))[3] == BindView::Int(s.mtime),
        <InsertLocalSongsBuilder as BulkBuilder>::item_row((song_id, &s))[4] == BindView::Int(s.size),
        <InsertLocalSongsBuilder as BulkBuilder>::item_row((song_id, &s))[5] == BindView::Text(s.format@),
{
}

/// The columns of the places on disk a sync rewrites: `id`, `inode`, `mtime`,
/// `size` and `format`, each set from the column of its name.
pub proof fn lemma_update_local_songs_columns(id: i64, s: CreateLocalSong)
    ensures
        update_local_songs_prefix() == "WITH tmp(id, inode, mtime, size, format) AS (VALUES "@,
        update_local_songs_suffix() == ") UPDATE local_songs SET inode = tmp.inode, mtime = tmp.mtime, size = tmp.size, format = tmp.format FROM tmp WHERE local_songs.song_id = tmp.id"@,
        <UpdateLocalSongsBuilder as BulkBuilder>::item_row((id, &s)).len() == 5,
        <UpdateLocalSongsBuilder as BulkBuilder>::item_row((id, &s))[0] == BindView::Int(id),
        <UpdateLocalSongsBuilder as BulkBuilder>::item_row((id, &s))[1] == BindView::Int(s.inode),
        <UpdateLocalSongsBuilder as BulkBuilder>::item_row((id, &s))[2] == BindView::Int(s.mtime),
        <UpdateLocalSongsBuilder as BulkBuilder>::item_row((id, &s))[3] == BindView::Int(s.size),
        <UpdateLocalSongsBuilder as BulkBuilder>::item_row((id, &s))[4] == BindView::Text(s.format@),
{
}

/// The columns of the artists and albums a sync upserts: `provider_id`, then
/// the name or the title.
pub proof fn lemma_upsert_columns(a: CreateArtist, b: CreateAlbum)
    ensures
        upsert_artists_prefix() == "INSERT INTO artists (provider_id, name) VALUES "@,
        <UpsertArtistsBuilder as BulkBuilder>::item_row(&a) == seq![BindView::Int(a.provider_id), BindView::Text(a.name@)],
        upsert_albums_prefix() == "INSERT INTO albums (provider_id, title) VALUES "@,
        <UpsertAlbumsBuilder as BulkBuilder>::item_row(&b) == seq![BindView::Int(b.provider_id), BindView::Text(b.title@)],
{
}

/// The columns of the links of songs to artists: `song_id`, `artist_id` and
/// `role`, where an artist's role is stored as 0 and an album artist's as 1.
pub proof fn lemma_song_artists_columns(song_id: i64, artist_id: i64, role: ArtistRole)
    ensures
        insert_song_artists_prefix() == "INSERT OR IGNORE INTO song_artists (song_id, artist_id, role) VALUES "@,
        <InsertSongArtistsBuilder as BulkBuilder>::item_row((song_id, artist_id, role)) == seq![
            BindView::Int(song_id),
            BindView::Int(artist_id),
            BindView::Int(if role == ArtistRole::Artist { 0i64 } else { 1i64 }),
        ],
{
}

/// The columns of the moved paths: the song's `id`, then its new `path`.
pub proof fn lemma_paths_columns(id: i64, path: &str)
    ensures
        update_local_songs_path_prefix() == "WITH tmp(id, path) AS (VALUES "@,
        <UpdateLocalSongsPathBuilder as BulkBuilder>::item_row((id, path)) == seq![BindView::Int(id), BindView::Text(path@)],
{
}

/// Deleting by id binds just the id.
pub proof fn lemma_delete_by_id_columns(id: i64)
    ensures
        <DeleteSongArtistsBuilder as BulkBuilder>::item_row(id) == seq![BindView::Int(id)],
        <DeleteSongsBuilder as BulkBuilder>::item_row(id) == seq![BindView::Int(id)],
{
}

} // verus!
