use tano::config::providers::{LocalConfig, ProviderConfig};
use tano::providers::{get_format, parse_year, FileKind, LocalProvider, ParseSongError, ParsedSong, ProviderType, SongFile, SongTag};

fn tag() -> SongTag {
    SongTag {
        title: Some("Song".to_string()),
        album: Some("Album".to_string()),
        artist: Some("Artist".to_string()),
        album_artist: Some("Band".to_string()),
        year: Some("2019-04-01".to_string()),
        recording_date: None,
        original_release_date: None,
        track: Some(3),
    }
}

fn file() -> SongFile {
    SongFile {
        path: "music/song.flac".to_string(),
        canonical_path: Some("/home/u/music/song.flac".to_string()),
        file_stem: Some("song".to_string()),
        inode: 42,
        mtime: 1_700_000_000,
        size: 1234,
        file_type: FileKind::Flac,
        tag: Some(tag()),
        duration_secs: 215,
    }
}

#[test]
fn formats() {
    assert_eq!(get_format(&FileKind::Aac), Ok("aac".to_string()));
    assert_eq!(get_format(&FileKind::Aiff), Ok("aiff".to_string()));
    assert_eq!(get_format(&FileKind::Ape), Ok("ape".to_string()));
    assert_eq!(get_format(&FileKind::Flac), Ok("flac".to_string()));
    assert_eq!(get_format(&FileKind::Mpeg), Ok("mpeg".to_string()));
    assert_eq!(get_format(&FileKind::Mp4), Ok("mp4".to_string()));
    assert_eq!(get_format(&FileKind::Mpc), Ok("mpc".to_string()));
    assert_eq!(get_format(&FileKind::Opus), Ok("opus".to_string()));
    assert_eq!(get_format(&FileKind::Vorbis), Ok("vorbis".to_string()));
    assert_eq!(get_format(&FileKind::Speex), Ok("speex".to_string()));
    assert_eq!(get_format(&FileKind::Wav), Ok("wav".to_string()));
    assert_eq!(get_format(&FileKind::WavPack), Ok("wavpack".to_string()));
    assert_eq!(get_format(&FileKind::Custom("mod".to_string())), Ok("mod".to_string()));
    assert_eq!(get_format(&FileKind::Other), Err(ParseSongError::UnsupportedFileType));
}

#[test]
fn years_from_date_tags() {
    assert_eq!(parse_year("2019"), Some(2019));
    assert_eq!(parse_year("2019-04-01"), Some(2019));
    assert_eq!(parse_year("1.2.3.4.5"), Some(1234));
    assert_eq!(parse_year("0007"), Some(7));
    assert_eq!(parse_year("98"), Some(98));
    assert_eq!(parse_year("-5"), Some(-5));
    assert_eq!(parse_year("'98"), None);
    assert_eq!(parse_year("abcd"), None);
    assert_eq!(parse_year(""), None);
}

#[test]
fn four_digit_years_are_in_range() {
    for date in ["9999", "x9999y", "1999-12-31", "0000"] {
        let y = parse_year(date).unwrap();
        assert!((0..=9999).contains(&y));
    }
}

#[test]
fn song_from_full_tag() {
    let song = ParsedSong::from_file(file()).unwrap();
    assert_eq!(song.title, "Song");
    assert_eq!(song.path, "/home/u/music/song.flac");
    assert_eq!(song.inode, 42);
    assert_eq!(song.mtime, 1_700_000_000);
    assert_eq!(song.size, 1234);
    assert_eq!(song.format, "flac");
    assert_eq!(song.album_title, "Album");
    assert_eq!(song.year, Some(2019));
    assert_eq!(song.artist_name, "Artist");
    assert_eq!(song.album_artist_name, "Band");
    assert_eq!(song.track_number, Some(3));
    assert_eq!(song.duration, 215);
}

#[test]
fn song_defaults() {
    let mut f = file();
    f.canonical_path = None;
    f.tag = Some(SongTag {
        title: None,
        album: None,
        artist: None,
        album_artist: None,
        year: None,
        recording_date: None,
        original_release_date: Some("1987".to_string()),
        track: None,
    });
    let song = ParsedSong::from_file(f).unwrap();
    assert_eq!(song.title, "song");
    assert_eq!(song.path, "music/song.flac");
    assert_eq!(song.album_title, "Unknown Album");
    assert_eq!(song.artist_name, "Unknown Artist");
    assert_eq!(song.album_artist_name, "Unknown Artist");
    assert_eq!(song.year, Some(1987));
    assert_eq!(song.track_number, None);
}

#[test]
fn song_album_artist_defaults_to_artist() {
    let mut f = file();
    let mut t = tag();
    t.album_artist = None;
    t.year = None;
    t.recording_date = Some("2001".to_string());
    t.original_release_date = Some("1999".to_string());
    f.tag = Some(t);
    let song = ParsedSong::from_file(f).unwrap();
    assert_eq!(song.album_artist_name, "Artist");
    assert_eq!(song.year, Some(2001));
}

#[test]
fn song_large_numbers_wrap_like_casts() {
    let mut f = file();
    f.inode = u64::MAX;
    f.size = u64::MAX - 1;
    f.duration_secs = u64::MAX;
    let song = ParsedSong::from_file(f).unwrap();
    assert_eq!(song.inode, -1);
    assert_eq!(song.size, -2);
    assert_eq!(song.duration, -1);
}

#[test]
fn song_errors() {
    let mut f = file();
    f.file_type = FileKind::Other;
    f.tag = None;
    assert_eq!(ParsedSong::from_file(f).unwrap_err(), ParseSongError::UnsupportedFileType);

    let mut f = file();
    f.tag = None;
    assert_eq!(ParsedSong::from_file(f).unwrap_err(), ParseSongError::NoTag);

    let mut f = file();
    let mut t = tag();
    t.title = None;
    f.tag = Some(t);
    f.file_stem = None;
    assert_eq!(ParsedSong::from_file(f).unwrap_err(), ParseSongError::NoTitle);
}

#[test]
fn providers_from_config() {
    let config = LocalConfig { path: "/music".to_string() };
    let provider = LocalProvider::new(config.clone());
    assert_eq!(provider.config.path, "/music");
    match ProviderType::from(ProviderConfig::Local { config }) {
        ProviderType::Local(p) => assert_eq!(p.config.path, "/music"),
    }
}
