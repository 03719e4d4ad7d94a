//! The rows of the library's tables, and the values from which new rows are made.

use vstd::prelude::*;
use crate::providers::ParsedSong;

verus! {

/// A row of `songs`.
#[derive(Debug, Clone, PartialEq)]
pub struct Song {
    pub id: i64,
    pub provider_id: i64,
    pub album_id: i64,
    pub title: String,
    pub track_number: Option<i64>,
    pub duration: i64,
    pub year: Option<i64>,
}

/// A song about to be written to `songs`.
#[derive(Debug, Clone, PartialEq)]
pub struct CreateSong {
    pub provider_id: i64,
    pub album_id: i64,
    pub title: String,
    pub track_number: Option<i64>,
    pub duration: i64,
    pub year: Option<i64>,
}

/// A row of `artists`.
#[derive(Debug, Clone, PartialEq)]
pub struct Artist {
    pub id: i64,
    pub provider_id: i64,
    pub name: String,
}

/// An artist about to be written to `artists`.
#[derive(Debug, Clone, PartialEq)]
pub struct CreateArtist {
    pub provider_id: i64,
    pub name: String,
}

/// A row of `albums`.
#[derive(Debug, Clone, PartialEq)]
pub struct Album {
    pub id: i64,
    pub provider_id: i64,
    pub title: String,
}

/// An album about to be written to `albums`.
#[derive(Debug, Clone, PartialEq)]
pub struct CreateAlbum {
    pub provider_id: i64,
    pub title: String,
}

/// A row of `local_songs`: where a song of the local provider lies on disk.
#[derive(Debug, Clone, PartialEq)]
pub struct LocalSong {
    pub song_id: i64,
    pub path: String,
    pub inode: i64,
    pub mtime: i64,
    pub size: i64,
    pub format: String,
}

/// A local song about to be written to `local_songs`.
#[derive(Debug, Clone, PartialEq)]
pub struct CreateLocalSong {
    pub path: String,
    pub inode: i64,
    pub mtime: i64,
    pub size: i64,
    pub format: String,
}

/// What a scan of the disk compares with a stored local song.
#[derive(Debug)]
pub struct SyncLocalSong {
    pub song_id: i64,
    pub path: String,
    pub inode: i64,
    pub mtime: i64,
    pub size: i64,
}

/// The part an artist plays in a song.
#[derive(Debug, Clone, Copy, PartialEq, Eq, Structural)]
pub enum ArtistRole {
    Artist,
    AlbumArtist,
}

pub open spec fn role_id(role: ArtistRole) -> i64 {
    match role {
        ArtistRole::Artist => 0,
        ArtistRole::AlbumArtist => 1,
    }
}

impl ArtistRole {
    /// The number under which the role is stored in `song_artists.role`.
    pub fn id(self) -> (r: i64)
        ensures
            r == role_id(self),
    {
        match self {
            ArtistRole::Artist => 0,
            ArtistRole::AlbumArtist => 1,
        }
    }
}


/// The song row that a parsed song becomes, in a given album.
pub open spec fn create_song_spec(provider_id: i64, album_id: i64, p: ParsedSong) -> CreateSong {
    CreateSong {
        provider_id,
        album_id,
        title: p.title,
        track_number: p.track_number,
        duration: p.duration,
        year: p.year,
    }
}

/// The local song row that a parsed song becomes.
pub open spec fn create_local_song_spec(p: ParsedSong) -> CreateLocalSong {
    CreateLocalSong { path: p.path, inode: p.inode, mtime: p.mtime, size: p.size, format: p.format }
}

impl CreateSong {
    /// The song row for a parsed song of a provider, in the album `album_id`.
    pub fn from_parsed(provider_id: i64, album_id: i64, parsed: &ParsedSong) -> (r: CreateSong)
        ensures
            r == create_song_spec(provider_id, album_id, *parsed),
    {
        CreateSong {
            provider_id,
            album_id,
            title: parsed.title.clone(),
            track_number: parsed.track_number,
            duration: parsed.duration,
            year: parsed.year,
        }
    }
}

impl CreateLocalSong {
    /// Where a parsed song lies on disk, as a local song row.
    pub fn from_parsed(parsed: &ParsedSong) -> (r: CreateLocalSong)
        ensures
            r == create_local_song_spec(*parsed),
    {
        CreateLocalSong {
            path: parsed.path.clone(),
            inode: parsed.inode,
            mtime: parsed.mtime,
            size: parsed.size,
            format: parsed.format.clone(),
        }
    }
}

impl CreateAlbum {
    /// The album row that a parsed song names, for a provider.
    pub fn from_parsed(provider_id: i64, parsed: &ParsedSong) -> (r: CreateAlbum)
        ensures
            r.provider_id == provider_id,
            r.title == parsed.album_title,
    {
        CreateAlbum { provider_id, title: parsed.album_title.clone() }
    }
}

impl CreateArtist {
    /// The artist row of a parsed song's album artist, for a provider.
    pub fn album_artist_of(provider_id: i64, parsed: &ParsedSong) -> (r: CreateArtist)
        ensures
            r.provider_id == provider_id,
            r.name == parsed.album_artist_name,
    {
        CreateArtist { provider_id, name: parsed.album_artist_name.clone() }
    }

    /// The artist row of a parsed song's artist, for a provider.
    pub fn artist_of(provider_id: i64, parsed: &ParsedSong) -> (r: CreateArtist)
        ensures
            r.provider_id == provider_id,
            r.name == parsed.artist_name,
    {
        CreateArtist { provider_id, name: parsed.artist_name.clone() }
    }
}

} // verus!
