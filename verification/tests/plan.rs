use tano::database::plan::{next_sync_step, SyncCounts, SyncStep};

fn walk(counts: SyncCounts) -> Vec<SyncStep> {
    let mut steps = Vec::new();
    let mut step = SyncStep::Start;
    while step != SyncStep::Done {
        step = next_sync_step(step, &counts);
        steps.push(step);
    }
    steps
}

fn counts(artists: usize, albums: usize, new_songs: usize, updated_songs: usize, links: usize, paths: usize, deletes: usize) -> SyncCounts {
    SyncCounts { artists, albums, new_songs, updated_songs, links, paths, deletes }
}

#[test]
fn empty_sync_only_cleans_up_and_commits() {
    assert_eq!(
        walk(counts(0, 0, 0, 0, 0, 0, 0)),
        vec![SyncStep::DeleteOrphanAlbums, SyncStep::DeleteOrphanArtists, SyncStep::Commit, SyncStep::Done]
    );
}

#[test]
fn every_chunk_of_every_phase_runs_in_order() {
    assert_eq!(
        walk(counts(2500, 1, 1000, 1001, 0, 3, 2000)),
        vec![
            SyncStep::UpsertArtists(0),
            SyncStep::UpsertArtists(1),
            SyncStep::UpsertArtists(2),
            SyncStep::UpsertAlbums(0),
            SyncStep::InsertSongs(0),
            SyncStep::UpdateSongs(0),
            SyncStep::UpdateSongs(1),
            SyncStep::UpdatePaths(0),
            SyncStep::DeleteSongs(0),
            SyncStep::DeleteSongs(1),
            SyncStep::DeleteOrphanAlbums,
            SyncStep::DeleteOrphanArtists,
            SyncStep::Commit,
            SyncStep::Done,
        ]
    );
}

#[test]
fn links_counted_after_the_songs_are_written() {
    // The links grow while the songs are written: the count handed over after
    // the last song chunk decides how many link chunks run.
    let before = counts(1, 1, 1, 0, 0, 0, 0);
    assert_eq!(next_sync_step(SyncStep::UpsertAlbums(0), &before), SyncStep::InsertSongs(0));
    let after = counts(1, 1, 1, 0, 2, 0, 0);
    assert_eq!(next_sync_step(SyncStep::InsertSongs(0), &after), SyncStep::InsertLinks(0));
    assert_eq!(next_sync_step(SyncStep::InsertLinks(0), &after), SyncStep::DeleteOrphanAlbums);
}
