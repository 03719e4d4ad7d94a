//! Song providers, and what is kept of an audio file once its tags are read.

use vstd::prelude::*;
use vstd::string::StrSliceExecFns;
use crate::config::providers::{LocalConfig, ProviderConfig};
use crate::text::{all_digits, decimal_literal, digit_value, digits_value, is_digit, parse_i64, parse_int_spec, push_char};

verus! {

/// A provider of songs from a directory of the local file system.
#[derive(Debug, Clone)]
pub struct LocalProvider {
    pub config: LocalConfig,
}

impl LocalProvider {
    pub fn new(config: LocalConfig) -> (r: LocalProvider)
        ensures
            r.config == config,
    {
        LocalProvider { config }
    }
}

/// A configured provider, ready to give songs.
#[derive(Debug)]
pub enum ProviderType {
    Local(LocalProvider),
}

impl ProviderType {
    /// The provider that a `[[provider]]` table configures.
    pub fn from(provider_config: ProviderConfig) -> (r: ProviderType)
        ensures
            match provider_config {
                ProviderConfig::Local { config } => r matches ProviderType::Local(p) && p.config == config,
            },
    {
        match provider_config {
            ProviderConfig::Local { config } => ProviderType::Local(LocalProvider::new(config)),
        }
    }
}

/// The kind of an audio file, as the tag reader recognises it.
#[derive(Debug, Clone, PartialEq, Eq)]
pub enum FileKind {
    Aac,
    Aiff,
    Ape,
    Flac,
    Mpeg,
    Mp4,
    Mpc,
    Opus,
    Vorbis,
    Speex,
    Wav,
    WavPack,
    /// A kind registered by name by the application.
    Custom(String),
    /// A kind this version does not know.
    Other,
}

/// The name under which a kind of file is stored, if it is supported.
pub open spec fn format_name(k: FileKind) -> Option<Seq<char>> {
    match k {
        FileKind::Aac => Some("aac"@),
        FileKind::Aiff => Some("aiff"@),
        FileKind::Ape => Some("ape"@),
        FileKind::Flac => Some("flac"@),
        FileKind::Mpeg => Some("mpeg"@),
        FileKind::Mp4 => Some("mp4"@),
        FileKind::Mpc => Some("mpc"@),
        FileKind::Opus => Some("opus"@),
        FileKind::Vorbis => Some("vorbis"@),
        FileKind::Speex => Some("speex"@),
        FileKind::Wav => Some("wav"@),
        FileKind::WavPack => Some("wavpack"@),
        FileKind::Custom(name) => Some(name@),
        FileKind::Other => None,
    }
}

/// Why a song could not be read.
#[derive(Debug, Clone, PartialEq, Eq)]
pub enum ParseSongError {
    /// The file is of a kind the player does not store.
    UnsupportedFileType,
    /// The file carries no tag.
    NoTag,
    /// Neither the tag nor the file name gives a title.
    NoTitle,
}

/// The name under which a kind of audio file is stored.
pub fn get_format(file_type: &FileKind) -> (r: Result<String, ParseSongError>)
    ensures
        match format_name(*file_type) {
            Some(n) => r matches Ok(s) && s@ == n,
            None => r matches Err(e) && e == ParseSongError::UnsupportedFileType,
        },
{
    match file_type {
        FileKind::Aac => Ok(String::from_str("aac")),
        FileKind::Aiff => Ok(String::from_str("aiff")),
        FileKind::Ape => Ok(String::from_str("ape")),
        FileKind::Flac => Ok(String::from_str("flac")),
        FileKind::Mpeg => Ok(String::from_str("mpeg")),
        FileKind::Mp4 => Ok(String::from_str("mp4")),
        FileKind::Mpc => Ok(String::from_str("mpc")),
        FileKind::Opus => Ok(String::from_str("opus")),
        FileKind::Vorbis => Ok(String::from_str("vorbis")),
        FileKind::Speex => Ok(String::from_str("speex")),
        FileKind::Wav => Ok(String::from_str("wav")),
        FileKind::WavPack => Ok(String::from_str("wavpack")),
        FileKind::Custom(name) => Ok(name.clone()),
        FileKind::Other => Err(ParseSongError::UnsupportedFileType),
    }
}

/// The ASCII digits of a text, in order.
pub open spec fn ascii_digits(s: Seq<char>) -> Seq<char>
    decreases s.len(),
{
    if s.len() == 0 {
        Seq::<char>::empty()
    } else if is_digit(s.last()) {
        ascii_digits(s.drop_last()).push(s.last())
    } else {
        ascii_digits(s.drop_last())
    }
}

/// The year a date tag gives: its first four digits when it has four, else
/// the whole tag read as an integer.
pub open spec fn parse_year_spec(date: Seq<char>) -> Option<int> {
    let digits = ascii_digits(date);
    if digits.len() >= 4 {
        parse_int_spec(digits.subrange(0, 4), true, i64::MIN as int, i64::MAX as int)
    } else {
        parse_int_spec(date, true, i64::MIN as int, i64::MAX as int)
    }
}

proof fn lemma_ascii_digits_are_digits(s: Seq<char>)
    ensures
        all_digits(ascii_digits(s)),
    decreases s.len(),
{
    if s.len() > 0 {
        lemma_ascii_digits_are_digits(s.drop_last());
    }
}

/// A date tag with at least four digits always gives a year, one from 0 to 9999.
pub proof fn lemma_year_of_four_digits(date: Seq<char>)
    requires
        ascii_digits(date).len() >= 4,
    ensures
        parse_year_spec(date) matches Some(y) && 0 <= y <= 9999,
{
    let d = ascii_digits(date);
    lemma_ascii_digits_are_digits(date);
    let s4 = d.subrange(0, 4);
    assert(all_digits(s4)) by {
        assert forall|i: int| 0 <= i < s4.len() implies is_digit(#[trigger] s4[i]) by {
            assert(s4[i] == d[i]);
        }
    }
    assert(is_digit(s4[0]) && is_digit(s4[1]) && is_digit(s4[2]) && is_digit(s4[3]));
    let s3 = s4.drop_last();
    let s2 = s3.drop_last();
    let s1 = s2.drop_last();
    assert(s1.drop_last().len() == 0);
    assert(s1.last() == s4[0] && s2.last() == s4[1] && s3.last() == s4[2] && s4.last() == s4[3]);
    assert(digits_value(s1.drop_last()) == 0);
    assert(0 <= digit_value(s4[0]) <= 9);
    assert(0 <= digit_value(s4[1]) <= 9);
    assert(0 <= digit_value(s4[2]) <= 9);
    assert(0 <= digit_value(s4[3]) <= 9);
    assert(0 <= digits_value(s1) <= 9);
    assert(0 <= digits_value(s2) <= 99);
    assert(0 <= digits_value(s3) <= 999);
    let v = digits_value(s4);
    assert(0 <= v <= 9999);
    assert(decimal_literal(s4, true) == Some(v));
}

/// Reads the year out of a date tag such as `2019`, `2019-04-01` or `'98`.
pub fn parse_year(date: &str) -> (r: Option<i64>)
    ensures
        match parse_year_spec(date@) {
            Some(y) => r == Some(y as i64),
            None => r is None,
        },
{
    let n = date.unicode_len();
    let mut digits = String::new();
    let mut count: usize = 0;
    let mut i: usize = 0;
    while i < n
        invariant
            n == date@.len(),
            i <= n,
            digits@ == ascii_digits(date@.subrange(0, i as int)),
            count == digits@.len(),
            count <= i,
        decreases n - i,
    {
        let c = date.get_char(i);
        assert(date@.subrange(0, i as int + 1).drop_last() =~= date@.subrange(0, i as int));
        if '0' <= c && c <= '9' {
            push_char(&mut digits, c);
            count = count + 1;
        }
        i = i + 1;
    }
    assert(date@.subrange(0, n as int) =~= date@);
    if count >= 4 {
        let first = digits.as_str().substring_char(0, 4);
        parse_i64(first)
    } else {
        parse_i64(date)
    }
}


/// What the player keeps of an audio file once its tags are read.
#[derive(Debug, Clone)]
pub struct ParsedSong {
    pub title: String,
    pub path: String,
    pub inode: i64,
    pub mtime: i64,
    pub size: i64,
    pub format: String,
    pub album_title: String,
    pub year: Option<i64>,
    pub artist_name: String,
    pub album_artist_name: String,
    pub track_number: Option<i64>,
    pub duration: i64,
}

/// The fields of an audio file's primary (or else first) tag.
#[derive(Debug, Clone)]
pub struct SongTag {
    pub title: Option<String>,
    pub album: Option<String>,
    pub artist: Option<String>,
    pub album_artist: Option<String>,
    pub year: Option<String>,
    pub recording_date: Option<String>,
    pub original_release_date: Option<String>,
    pub track: Option<u32>,
}

/// What reading an audio file from disk gave.
#[derive(Debug, Clone)]
pub struct SongFile {
    /// The path as it was given.
    pub path: String,
    /// The canonical form of the path, when it could be found.
    pub canonical_path: Option<String>,
    /// The file name without its extension, when there is one.
    pub file_stem: Option<String>,
    pub inode: u64,
    pub mtime: i64,
    pub size: u64,
    pub file_type: FileKind,
    /// The primary tag, or else the first tag; none when the file has no tag.
    pub tag: Option<SongTag>,
    /// The length of the audio, in whole seconds.
    pub duration_secs: u64,
}

pub open spec fn or_else_view(o: Option<String>, d: Seq<char>) -> Seq<char> {
    match o {
        Some(s) => s@,
        None => d,
    }
}

/// The first of three date tags that is present.
pub open spec fn first_date(tag: SongTag) -> Option<String> {
    if tag.year is Some {
        tag.year
    } else if tag.recording_date is Some {
        tag.recording_date
    } else {
        tag.original_release_date
    }
}

/// The year that the tag gives: the first date tag present, read by `parse_year`.
pub open spec fn tag_year(tag: SongTag) -> Option<i64> {
    match first_date(tag) {
        Some(d) => match parse_year_spec(d@) {
            Some(y) => Some(y as i64),
            None => None,
        },
        None => None,
    }
}

/// The song that `file` describes, as `ParsedSong::from_file` assembles it:
/// the title from the tag or else the file stem; `Unknown Album` and `Unknown
/// Artist` where the tag is silent; the album artist defaulting to the artist;
/// the canonical path where known.
pub open spec fn song_matches_file(song: ParsedSong, file: SongFile, format: Seq<char>) -> bool {
    let tag = file.tag->0;
    let artist = or_else_view(tag.artist, "Unknown Artist"@);
    &&& song.title@ == (if tag.title is Some { tag.title->0@ } else { file.file_stem->0@ })
    &&& song.path@ == or_else_view(file.canonical_path, file.path@)
    &&& song.inode == file.inode as i64
    &&& song.mtime == file.mtime
    &&& song.size == file.size as i64
    &&& song.format@ == format
    &&& song.album_title@ == or_else_view(tag.album, "Unknown Album"@)
    &&& song.year == tag_year(tag)
    &&& song.artist_name@ == artist
    &&& song.album_artist_name@ == or_else_view(tag.album_artist, artist)
    &&& song.track_number == (match tag.track {
        Some(n) => Some(n as i64),
        None => None::<i64>,
    })
    &&& song.duration == file.duration_secs as i64
}

fn unwrap_or_text(o: Option<String>, d: &str) -> (r: String)
    ensures
        r@ == or_else_view(o, d@),
{
    match o {
        Some(s) => s,
        None => String::from_str(d),
    }
}

impl ParsedSong {
    /// Assembles the song from what was read of its file. The kind of file is
    /// checked first, then that there is a tag, then that there is a title.
    pub fn from_file(file: SongFile) -> (r: Result<ParsedSong, ParseSongError>)
        ensures
            format_name(file.file_type) is None ==> (r matches Err(e) && e == ParseSongError::UnsupportedFileType),
            format_name(file.file_type) is Some && file.tag is None ==> (r matches Err(e) && e == ParseSongError::NoTag),
            format_name(file.file_type) is Some && file.tag is Some && file.tag->0.title is None
                && file.file_stem is None ==> (r matches Err(e) && e == ParseSongError::NoTitle),
            r is Ok <==> (format_name(file.file_type) is Some && file.tag is Some && (
            file.tag->0.title is Some || file.file_stem is Some)),
            r matches Ok(song) ==> song_matches_file(song, file, format_name(file.file_type)->0),
    {
        let format = match get_format(&file.file_type) {
            Ok(f) => f,
            Err(e) => return Err(e),
        };
        let ghost file0 = file;
        let SongFile {
            path,
            canonical_path,
            file_stem,
            inode,
            mtime,
            size,
            file_type,
            tag,
            duration_secs,
        } = file;
        let tag = match tag {
            Some(t) => t,
            None => return Err(ParseSongError::NoTag),
        };
        let ghost tag0 = tag;
        let title = match tag.title {
            Some(t) => t,
            None => match file_stem {
                Some(stem) => stem,
                None => return Err(ParseSongError::NoTitle),
            },
        };
        let album_title = unwrap_or_text(tag.album, "Unknown Album");
        let artist_name = unwrap_or_text(tag.artist, "Unknown Artist");
        let album_artist_name = match tag.album_artist {
            Some(a) => a,
            None => artist_name.clone(),
        };
        let date = if tag.year.is_some() {
            tag.year
        } else if tag.recording_date.is_some() {
            tag.recording_date
        } else {
            tag.original_release_date
        };
        let year = match date {
            Some(d) => parse_year(d.as_str()),
            None => None,
        };
        let track_number = match tag.track {
            Some(n) => Some(n as i64),
            None => None,
        };
        let path = match canonical_path {
            Some(p) => p,
            None => path,
        };
        let song = ParsedSong {
            title,
            path,
            inode: inode as i64,
            mtime,
            size: size as i64,
            format,
            album_title,
            year,
            artist_name,
            album_artist_name,
            track_number,
            duration: duration_secs as i64,
        };
        assert(tag_year(tag0) == year);
        Ok(song)
    }
}

/// The year that a date tag's text gives, read as `parse_year` reads it.
pub open spec fn year_from(d: Seq<char>) -> Option<i64> {
    match parse_year_spec(d) {
        Some(y) => Some(y as i64),
        None => None,
    }
}

/// Where each field of a song read from a file comes from. The title is the
/// tag's, else the file's stem. The year is read from the `Year` tag when there
/// is one; only without it from the recording date, and only without both from
/// the original release date. A missing album is `Unknown Album`, a missing
/// artist `Unknown Artist`, and a missing album artist is the song's artist.
pub proof fn lemma_song_fields(song: ParsedSong, file: SongFile, format: Seq<char>)
    requires
        song_matches_file(song, file, format),
    ensures
        file.tag->0.title matches Some(t) ==> song.title@ == t@,
        file.tag->0.title is None ==> song.title@ == file.file_stem->0@,
        file.tag->0.year matches Some(d) ==> song.year == year_from(d@),
        file.tag->0.year is None ==> (file.tag->0.recording_date matches Some(d) ==> song.year == year_from(d@)),
        file.tag->0.year is None && file.tag->0.recording_date is None ==> (
            file.tag->0.original_release_date matches Some(d) ==> song.year == year_from(d@)),
        file.tag->0.year is None && file.tag->0.recording_date is None && file.tag->0.original_release_date
            is None ==> song.year is None,
        file.tag->0.album matches Some(a) ==> song.album_title@ == a@,
        file.tag->0.album is None ==> song.album_title@ == "Unknown Album"@,
        file.tag->0.artist matches Some(a) ==> song.artist_name@ == a@,
        file.tag->0.artist is None ==> song.artist_name@ == "Unknown Artist"@,
        file.tag->0.album_artist matches Some(a) ==> song.album_artist_name@ == a@,
        file.tag->0.album_artist is None ==> song.album_artist_name@ == song.artist_name@,
        file.tag->0.track matches Some(n) ==> song.track_number == Some(n as i64),
        file.tag->0.track is None ==> song.track_number is None,
        song.duration == file.duration_secs as i64,
        song.inode == file.inode as i64 && song.mtime == file.mtime && song.size == file.size as i64,
        file.canonical_path matches Some(p) ==> song.path@ == p@,
        file.canonical_path is None ==> song.path@ == file.path@,
{
}

/// The names under which the kinds of audio files are stored.
pub proof fn lemma_format_names(name: String)
    ensures
        format_name(FileKind::Aac) == Some("aac"@),
        format_name(FileKind::Aiff) == Some("aiff"@),
        format_name(FileKind::Ape) == Some("ape"@),
        format_name(FileKind::Flac) == Some("flac"@),
        format_name(FileKind::Mpeg) == Some("mpeg"@),
        format_name(FileKind::Mp4) == Some("mp4"@),
        format_name(FileKind::Mpc) == Some("mpc"@),
        format_name(FileKind::Opus) == Some("opus"@),
        format_name(FileKind::Vorbis) == Some("vorbis"@),
        format_name(FileKind::Speex) == Some("speex"@),
        format_name(FileKind::Wav) == Some("wav"@),
        format_name(FileKind::WavPack) == Some("wavpack"@),
        format_name(FileKind::Custom(name)) == Some(name@),
        format_name(FileKind::Other) is None,
{
}

proof fn lemma_ascii_digits_concat(a: Seq<char>, b: Seq<char>)
    ensures
        ascii_digits(a + b) == ascii_digits(a) + ascii_digits(b),
    decreases b.len(),
{
    if b.len() == 0 {
        assert(a + b =~= a);
        assert(ascii_digits(a) + ascii_digits(b) =~= ascii_digits(a));
    } else {
        lemma_ascii_digits_concat(a, b.drop_last());
        assert((a + b).drop_last() =~= a + b.drop_last());
        assert((a + b).last() == b.last());
        if is_digit(b.last()) {
            assert(ascii_digits(a) + ascii_digits(b) =~= (ascii_digits(a) + ascii_digits(b.drop_last())).push(
                b.last(),
            ));
        }
    }
}

proof fn lemma_ascii_digits_of_digits(s: Seq<char>)
    requires
        all_digits(s),
    ensures
        ascii_digits(s) == s,
    decreases s.len(),
{
    if s.len() > 0 {
        assert forall|i: int| 0 <= i < s.drop_last().len() implies is_digit(#[trigger] s.drop_last()[i]) by {
            assert(s.drop_last()[i] == s[i]);
        }
        lemma_ascii_digits_of_digits(s.drop_last());
        assert(is_digit(s[s.len() - 1]));
        assert(s.drop_last().push(s.last()) =~= s);
    } else {
        assert(s =~= Seq::<char>::empty());
    }
}

/// A date tag that starts with four digits, such as `2019` or `2019-04-01`,
/// gives the year those four digits write.
pub proof fn lemma_year_is_first_four_digits(date: Seq<char>)
    requires
        date.len() >= 4,
        all_digits(date.subrange(0, 4)),
    ensures
        parse_year_spec(date) == Some(digits_value(date.subrange(0, 4))),
{
    let head = date.subrange(0, 4);
    let tail = date.subrange(4, date.len() as int);
    assert(head + tail =~= date);
    lemma_ascii_digits_concat(head, tail);
    lemma_ascii_digits_of_digits(head);
    let d = ascii_digits(date);
    assert(d.subrange(0, 4) =~= head);
    lemma_year_of_four_digits(date);
    assert(is_digit(head[0]));
    assert(decimal_literal(head, true) == Some(digits_value(head)));
}

} // verus!
