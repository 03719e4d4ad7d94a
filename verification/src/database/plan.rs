//! The order in which a sync runs its statements.
//!
//! A sync goes through its phases in a fixed order: upsert the artists, upsert
//! the albums, insert the new songs, update the changed songs, link songs to
//! their artists, move paths, delete the songs that are gone, drop the albums
//! and the artists left without songs, and commit. Each of the first seven
//! phases runs one statement per chunk of its items, and a phase with no items
//! runs none. The caller performs each step and asks for the next one, handing
//! over how many items each phase has at that moment (the links grow while the
//! songs are written).

use vstd::prelude::*;
use crate::database::sync::{chunk_count, chunk_count_spec};

verus! {

/// One step of a sync.
#[derive(Debug, Clone, Copy, PartialEq, Eq, Structural)]
pub enum SyncStep {
    /// Nothing has run yet.
    Start,
    /// Upsert the given chunk of the artist names.
    UpsertArtists(usize),
    /// Upsert the given chunk of the album titles.
    UpsertAlbums(usize),
    /// Insert the given chunk of the new songs, then their places on disk.
    InsertSongs(usize),
    /// Update the given chunk of the changed songs, their places on disk, and
    /// unlink them from their artists.
    UpdateSongs(usize),
    /// Insert the given chunk of the links of songs to artists.
    InsertLinks(usize),
    /// Update the given chunk of the moved paths.
    UpdatePaths(usize),
    /// Delete the given chunk of the songs that are gone.
    DeleteSongs(usize),
    /// Delete the albums that no song refers to.
    DeleteOrphanAlbums,
    /// Delete the artists that no song refers to.
    DeleteOrphanArtists,
    /// Commit the transaction.
    Commit,
    /// The sync is over.
    Done,
}

/// How many items each chunked phase of a sync has.
#[derive(Debug, Clone, Copy, PartialEq, Eq, Structural)]
pub struct SyncCounts {
    pub artists: usize,
    pub albums: usize,
    pub new_songs: usize,
    pub updated_songs: usize,
    pub links: usize,
    pub paths: usize,
    pub deletes: usize,
}

/// The place of a step's phase in the order of the phases.
pub open spec fn step_phase(s: SyncStep) -> int {
    match s {
        SyncStep::Start => 0,
        SyncStep::UpsertArtists(_) => 1,
        SyncStep::UpsertAlbums(_) => 2,
        SyncStep::InsertSongs(_) => 3,
        SyncStep::UpdateSongs(_) => 4,
        SyncStep::InsertLinks(_) => 5,
        SyncStep::UpdatePaths(_) => 6,
        SyncStep::DeleteSongs(_) => 7,
        SyncStep::DeleteOrphanAlbums => 8,
        SyncStep::DeleteOrphanArtists => 9,
        SyncStep::Commit => 10,
        SyncStep::Done => 11,
    }
}

/// The chunk a step works on (0 for a phase that is not chunked).
pub open spec fn step_chunk(s: SyncStep) -> int {
    match s {
        SyncStep::UpsertArtists(k) => k as int,
        SyncStep::UpsertAlbums(k) => k as int,
        SyncStep::InsertSongs(k) => k as int,
        SyncStep::UpdateSongs(k) => k as int,
        SyncStep::InsertLinks(k) => k as int,
        SyncStep::UpdatePaths(k) => k as int,
        SyncStep::DeleteSongs(k) => k as int,
        _ => 0,
    }
}

/// How many items phase `p` has: a phase that is not chunked counts as one.
pub open spec fn phase_items(c: SyncCounts, p: int) -> int {
    if p == 1 {
        c.artists as int
    } else if p == 2 {
        c.albums as int
    } else if p == 3 {
        c.new_songs as int
    } else if p == 4 {
        c.updated_songs as int
    } else if p == 5 {
        c.links as int
    } else if p == 6 {
        c.paths as int
    } else if p == 7 {
        c.deletes as int
    } else {
        1
    }
}

/// How many steps phase `p` runs.
pub open spec fn phase_steps(c: SyncCounts, p: int) -> int {
    chunk_count_spec(phase_items(c, p))
}

/// Whether step `s` is one that the sync runs.
pub open spec fn step_runs(c: SyncCounts, s: SyncStep) -> bool {
    step_chunk(s) < phase_steps(c, step_phase(s))
}

/// Whether step `a` comes before step `b`.
pub open spec fn comes_before(a: SyncStep, b: SyncStep) -> bool {
    step_phase(a) < step_phase(b) || (step_phase(a) == step_phase(b) && step_chunk(a) < step_chunk(b))
}

fn phase_of(s: SyncStep) -> (r: u8)
    ensures
        r == step_phase(s),
{
    match s {
        SyncStep::Start => 0,
        SyncStep::UpsertArtists(_) => 1,
        SyncStep::UpsertAlbums(_) => 2,
        SyncStep::InsertSongs(_) => 3,
        SyncStep::UpdateSongs(_) => 4,
        SyncStep::InsertLinks(_) => 5,
        SyncStep::UpdatePaths(_) => 6,
        SyncStep::DeleteSongs(_) => 7,
        SyncStep::DeleteOrphanAlbums => 8,
        SyncStep::DeleteOrphanArtists => 9,
        SyncStep::Commit => 10,
        SyncStep::Done => 11,
    }
}

fn chunk_index(s: SyncStep) -> (r: usize)
    ensures
        r == step_chunk(s),
{
    match s {
        SyncStep::UpsertArtists(k) => k,
        SyncStep::UpsertAlbums(k) => k,
        SyncStep::InsertSongs(k) => k,
        SyncStep::UpdateSongs(k) => k,
        SyncStep::InsertLinks(k) => k,
        SyncStep::UpdatePaths(k) => k,
        SyncStep::DeleteSongs(k) => k,
        _ => 0,
    }
}

fn phase_len(c: &SyncCounts, p: u8) -> (r: usize)
    ensures
        r == phase_items(*c, p as int),
{
    if p == 1 {
        c.artists
    } else if p == 2 {
        c.albums
    } else if p == 3 {
        c.new_songs
    } else if p == 4 {
        c.updated_songs
    } else if p == 5 {
        c.links
    } else if p == 6 {
        c.paths
    } else if p == 7 {
        c.deletes
    } else {
        1
    }
}

fn step_at(p: u8, k: usize) -> (s: SyncStep)
    requires
        1 <= p <= 11,
        p >= 8 ==> k == 0,
    ensures
        step_phase(s) == p,
        step_chunk(s) == k,
{
    if p == 1 {
        SyncStep::UpsertArtists(k)
    } else if p == 2 {
        SyncStep::UpsertAlbums(k)
    } else if p == 3 {
        SyncStep::InsertSongs(k)
    } else if p == 4 {
        SyncStep::UpdateSongs(k)
    } else if p == 5 {
        SyncStep::InsertLinks(k)
    } else if p == 6 {
        SyncStep::UpdatePaths(k)
    } else if p == 7 {
        SyncStep::DeleteSongs(k)
    } else if p == 8 {
        SyncStep::DeleteOrphanAlbums
    } else if p == 9 {
        SyncStep::DeleteOrphanArtists
    } else if p == 10 {
        SyncStep::Commit
    } else {
        SyncStep::Done
    }
}

/// The step that follows `step`, given how many items each phase has now: the
/// next chunk of the same phase, or else the first chunk of the next phase
/// that has items. It comes after `step`, it is a step that the sync runs,
/// and no step that the sync runs lies between the two.
pub fn next_sync_step(step: SyncStep, counts: &SyncCounts) -> (next: SyncStep)
    requires
        step != SyncStep::Done,
    ensures
        comes_before(step, next),
        step_runs(*counts, next),
        forall|s: SyncStep|
            comes_before(step, s) && comes_before(s, next) ==> !step_runs(*counts, s),
{
    let p = phase_of(step);
    let k = chunk_index(step);
    let steps = chunk_count(phase_len(counts, p));
    if p >= 1 && p <= 7 && steps > 0 && k < steps - 1 {
        let next = step_at(p, k + 1);
        assert forall|s: SyncStep| comes_before(step, s) && comes_before(s, next) implies !step_runs(
            *counts,
            s,
        ) by {
            assert(step_phase(s) == p && k < step_chunk(s) < k + 1);
        }
        return next;
    }
    assert(p >= 8 ==> phase_items(*counts, p as int) == 1);
    let mut q: u8 = p + 1;
    while q <= 11
        invariant
            p < q <= 12,
            p == step_phase(step),
            k == step_chunk(step),
            k + 1 >= phase_steps(*counts, p as int),
            forall|r: int| p < r < q ==> #[trigger] phase_steps(*counts, r) == 0,
        decreases 12 - q,
    {
        if chunk_count(phase_len(counts, q)) > 0 {
            let next = step_at(q, 0);
            assert forall|s: SyncStep| comes_before(step, s) && comes_before(s, next) implies !step_runs(
                *counts,
                s,
            ) by {
                if step_phase(s) == p {
                    assert(step_chunk(s) >= k + 1);
                } else {
                    assert(p < step_phase(s) < q);
                    assert(phase_steps(*counts, step_phase(s)) == 0);
                }
            }
            return next;
        }
        q = q + 1;
    }
    assert(phase_steps(*counts, 11) == 1);
    SyncStep::Done
}

/// Each chunked phase runs one step per chunk of the items handed over for it,
/// and nothing more: the artist upserts run for the chunks of `artists`, the
/// album upserts of `albums`, the song inserts of `new_songs`, the song updates
/// of `updated_songs`, the links of `links`, the moves of `paths` and the
/// deletions of `deletes`; every other step runs once.
pub proof fn lemma_steps_follow_counts(c: SyncCounts, k: usize)
    ensures
        step_runs(c, SyncStep::UpsertArtists(k)) <==> k * 1000 < c.artists,
        step_runs(c, SyncStep::UpsertAlbums(k)) <==> k * 1000 < c.albums,
        step_runs(c, SyncStep::InsertSongs(k)) <==> k * 1000 < c.new_songs,
        step_runs(c, SyncStep::UpdateSongs(k)) <==> k * 1000 < c.updated_songs,
        step_runs(c, SyncStep::InsertLinks(k)) <==> k * 1000 < c.links,
        step_runs(c, SyncStep::UpdatePaths(k)) <==> k * 1000 < c.paths,
        step_runs(c, SyncStep::DeleteSongs(k)) <==> k * 1000 < c.deletes,
        step_runs(c, SyncStep::Start),
        step_runs(c, SyncStep::DeleteOrphanAlbums),
        step_runs(c, SyncStep::DeleteOrphanArtists),
        step_runs(c, SyncStep::Commit),
        step_runs(c, SyncStep::Done),
{
    assert forall|n: int| n >= 0 implies (k < chunk_count_spec(n) <==> k * 1000 < n) by {
        assert((k < (n + 999) / 1000) <==> (k * 1000 < n)) by (nonlinear_arith)
            requires
                n >= 0,
                k >= 0,
        ;
    }
}

/// The phases come in the order a sync needs: artists and albums before the
/// songs that refer to them, new songs and changed songs before the links
/// they produce, then the moves and the deletions, the clean-up of albums and
/// artists left without songs, and the commit last.
pub proof fn lemma_phase_order(a: usize, b: usize)
    ensures
        comes_before(SyncStep::Start, SyncStep::UpsertArtists(a)),
        comes_before(SyncStep::UpsertArtists(a), SyncStep::UpsertAlbums(b)),
        comes_before(SyncStep::UpsertAlbums(a), SyncStep::InsertSongs(b)),
        comes_before(SyncStep::InsertSongs(a), SyncStep::UpdateSongs(b)),
        comes_before(SyncStep::UpdateSongs(a), SyncStep::InsertLinks(b)),
        comes_before(SyncStep::InsertLinks(a), SyncStep::UpdatePaths(b)),
        comes_before(SyncStep::UpdatePaths(a), SyncStep::DeleteSongs(b)),
        comes_before(SyncStep::DeleteSongs(a), SyncStep::DeleteOrphanAlbums),
        comes_before(SyncStep::DeleteOrphanAlbums, SyncStep::DeleteOrphanArtists),
        comes_before(SyncStep::DeleteOrphanArtists, SyncStep::Commit),
        comes_before(SyncStep::Commit, SyncStep::Done),
        a < b ==> comes_before(SyncStep::InsertLinks(a), SyncStep::InsertLinks(b)),
{
}

} // verus!
