//! Paths shared by the parts of the player: the configuration and data
//! directories and the configuration file.

use vstd::prelude::*;

verus! {

/// `base` joined with `name` as `Path::join` does on Unix: an absolute `name`
/// replaces `base`; otherwise a `/` is put between them unless `base` is empty
/// or already ends in `/`.
pub open spec fn path_join_spec(base: Seq<char>, name: Seq<char>) -> Seq<char> {
    if name.len() > 0 && name[0] == '/' {
        name
    } else if base.len() == 0 || base.last() == '/' {
        base + name
    } else {
        base + seq!['/'] + name
    }
}

/// `Path::join` on paths given as text.
#[verifier::external_body]
pub(crate) fn path_join(base: &str, name: &str) -> (r: String)
    ensures
        r@ == path_join_spec(base@, name@),
{
    std::path::Path::new(base).join(name).to_string_lossy().into_owned()
}

/// The parent directory that `Path::parent` finds for a path.
pub uninterp spec fn path_parent(p: Seq<char>) -> Option<Seq<char>>;

/// Whether `p` holds no `/`.
pub open spec fn no_slash(p: Seq<char>) -> bool {
    forall|i: int| 0 <= i < p.len() ==> p[i] != '/'
}

/// Whether a `.` at `i` makes up a whole component `.` or `..` of `p`.
pub open spec fn dot_component_at(p: Seq<char>, i: int) -> bool {
    &&& p[i] == '.'
    &&& (i == 0 || p[i - 1] == '/')
    &&& (i + 1 == p.len() || p[i + 1] == '/' || (p[i + 1] == '.' && (i + 2 == p.len() || p[i + 2] == '/')))
}

/// A path written plainly: not empty, not ending in `/`, without `//`, and
/// without a component `.` or `..`.
pub open spec fn plain_path(p: Seq<char>) -> bool {
    &&& p.len() > 0
    &&& p.last() != '/'
    &&& forall|i: int| 0 <= i < p.len() - 1 ==> !(p[i] == '/' && #[trigger] p[i + 1] == '/')
    &&& forall|i: int| 0 <= i < p.len() ==> !#[trigger] dot_component_at(p, i)
}

/// Whether the last `/` of `p` stands at `i`.
pub open spec fn last_slash_at(p: Seq<char>, i: int) -> bool {
    0 <= i < p.len() && p[i] == '/' && no_slash(p.subrange(i + 1, p.len() as int))
}

/// A plain path without its final component, whose last `/` stands at `i`: the
/// text before that `/`, or the root `/` where that is all there is.
pub open spec fn plain_parent(p: Seq<char>, i: int) -> Seq<char> {
    if i == 0 {
        seq!['/']
    } else {
        p.subrange(0, i)
    }
}

/// `Path::parent` on a path given as text. Named; there is none for the empty
/// path and for the root `/`. Of the plain cases std's documentation shows, it
/// is stated: a relative path of one component has the empty path as parent,
/// and a plain path loses its final component (`/foo/bar` gives `/foo`, `/foo`
/// gives `/`, `foo/bar` gives `foo`). What it gives for a path with `//`, with
/// a trailing `/` or with a component `.` or `..` (with a slash) is left to the name.
#[verifier::external_body]
pub(crate) fn parent_of(p: &str) -> (r: Option<String>)
    ensures
        r is Some <==> path_parent(p@) is Some,
        r matches Some(x) ==> x@ == path_parent(p@)->0,
        r matches Some(x) ==> p@.len() > 0 && p@ != seq!['/'],
        r matches None ==> !(p@.len() > 0 && no_slash(p@)),
        r matches Some(x) ==> (p@.len() > 0 && no_slash(p@) ==> x@.len() == 0),
        r matches None ==> !(plain_path(p@) && !no_slash(p@)),
        r matches Some(x) ==> (forall|i: int| plain_path(p@) && #[trigger] last_slash_at(p@, i) ==> x@ == plain_parent(p@, i)),
{
    std::path::Path::new(p).parent().map(|q| q.to_string_lossy().into_owned())
}

/// Why a directory could not be found.
#[derive(Debug, Clone, PartialEq, Eq)]
pub enum DirError {
    /// Neither `TANO_CONFIG`, `XDG_CONFIG_HOME` nor a home directory is known.
    ConfigDir,
    /// Neither `TANO_DATA`, `XDG_DATA_HOME` nor a home directory is known.
    DataDir,
    /// Neither `TANO_CONFIG` nor the project's configuration directory is known.
    ProjectConfigDir,
    /// The path has no parent directory.
    Parent(String),
}

pub open spec fn opt_view(o: Option<String>) -> Option<Seq<char>> {
    match o {
        Some(s) => Some(s@),
        None => None,
    }
}

/// The configuration directory: `$TANO_CONFIG`, else `$XDG_CONFIG_HOME/tano`,
/// else `~/.config/tano`.
pub open spec fn config_dir_spec(
    tano_config: Option<Seq<char>>,
    xdg_config_home: Option<Seq<char>>,
    home: Option<Seq<char>>,
) -> Option<Seq<char>> {
    if tano_config is Some {
        tano_config
    } else if xdg_config_home is Some {
        Some(path_join_spec(xdg_config_home->0, "tano"@))
    } else if home is Some {
        Some(path_join_spec(path_join_spec(home->0, ".config"@), "tano"@))
    } else {
        None
    }
}

/// The data directory: `$TANO_DATA`, else `$XDG_DATA_HOME/tano`, else
/// `~/.local/share/tano`.
pub open spec fn data_dir_spec(
    tano_data: Option<Seq<char>>,
    xdg_data_home: Option<Seq<char>>,
    home: Option<Seq<char>>,
) -> Option<Seq<char>> {
    if tano_data is Some {
        tano_data
    } else if xdg_data_home is Some {
        Some(path_join_spec(xdg_data_home->0, "tano"@))
    } else if home is Some {
        Some(
            path_join_spec(
                path_join_spec(path_join_spec(home->0, ".local"@), "share"@),
                "tano"@,
            ),
        )
    } else {
        None
    }
}

/// The configuration directory, given the values of `TANO_CONFIG` and
/// `XDG_CONFIG_HOME` (where set and valid Unicode) and the home directory.
pub fn get_config_dir(
    tano_config: Option<String>,
    xdg_config_home: Option<String>,
    home: Option<String>,
) -> (r: Result<String, DirError>)
    ensures
        match config_dir_spec(opt_view(tano_config), opt_view(xdg_config_home), opt_view(home)) {
            Some(d) => r matches Ok(p) && p@ == d,
            None => r matches Err(e) && e == DirError::ConfigDir,
        },
{
    if let Some(path) = tano_config {
        return Ok(path);
    }
    if let Some(path) = xdg_config_home {
        return Ok(path_join(path.as_str(), "tano"));
    }
    if let Some(home) = home {
        let config = path_join(home.as_str(), ".config");
        return Ok(path_join(config.as_str(), "tano"));
    }
    Err(DirError::ConfigDir)
}

/// The data directory, given the values of `TANO_DATA` and `XDG_DATA_HOME`
/// (where set and valid Unicode) and the home directory.
pub fn get_data_dir(
    tano_data: Option<String>,
    xdg_data_home: Option<String>,
    home: Option<String>,
) -> (r: Result<String, DirError>)
    ensures
        match data_dir_spec(opt_view(tano_data), opt_view(xdg_data_home), opt_view(home)) {
            Some(d) => r matches Ok(p) && p@ == d,
            None => r matches Err(e) && e == DirError::DataDir,
        },
{
    if let Some(path) = tano_data {
        return Ok(path);
    }
    if let Some(path) = xdg_data_home {
        return Ok(path_join(path.as_str(), "tano"));
    }
    if let Some(home) = home {
        let local = path_join(home.as_str(), ".local");
        let share = path_join(local.as_str(), "share");
        return Ok(path_join(share.as_str(), "tano"));
    }
    Err(DirError::DataDir)
}

/// The configuration file inside a configuration directory.
pub fn get_config_file(config_dir: &str) -> (r: String)
    ensures
        r@ == path_join_spec(config_dir@, "config.toml"@),
{
    path_join(config_dir, "config.toml")
}

/// The directory that holds `path`.
pub fn get_parent_dir(path: &str) -> (r: Result<String, DirError>)
    ensures
        match path_parent(path@) {
            Some(d) => r matches Ok(p) && p@ == d,
            None => r matches Err(e) && e matches DirError::Parent(q) && q@ == path@,
        },
        r matches Err(_) ==> !(path@.len() > 0 && no_slash(path@)),
        r matches Ok(d) ==> (path@.len() > 0 && no_slash(path@) ==> d@.len() == 0),
        r matches Err(_) ==> !(plain_path(path@) && !no_slash(path@)),
        r matches Ok(d) ==> (forall|i: int| plain_path(path@) && #[trigger] last_slash_at(path@, i) ==> d@ == plain_parent(path@, i)),
{
    match parent_of(path) {
        Some(p) => Ok(p),
        None => Err(DirError::Parent(String::from_str(path))),
    }
}

} // verus!
