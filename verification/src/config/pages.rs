//! The pages of the interface and their settings.

use vstd::prelude::*;
use crate::text::{concat, i64_to_string, int_decimal};

verus! {

/// A page of the interface.
#[derive(Debug, Copy, Clone, PartialEq, Eq, Hash, Structural)]
pub enum Page {
    Overview,
    Songs,
    Albums,
    Album(i64),
    Song(i64),
    Artists,
}

/// The title under which a page is shown.
pub open spec fn page_title(p: Page) -> Seq<char> {
    match p {
        Page::Overview => "Overview"@,
        Page::Songs => "Songs"@,
        Page::Albums => "Albums"@,
        Page::Artists => "Artists"@,
        Page::Album(id) => "Album "@ + int_decimal(id as int),
        Page::Song(id) => "Song "@ + int_decimal(id as int),
    }
}

impl Page {
    /// The title under which the page is shown, such as `Songs` or `Album 7`.
    pub fn to_string(&self) -> (r: String)
        ensures
            r@ == page_title(*self),
    {
        match self {
            Page::Overview => String::from_str("Overview"),
            Page::Songs => String::from_str("Songs"),
            Page::Albums => String::from_str("Albums"),
            Page::Artists => String::from_str("Artists"),
            Page::Album(id) => {
                let n = i64_to_string(*id);
                concat("Album ", n.as_str())
            },
            Page::Song(id) => {
                let n = i64_to_string(*id);
                concat("Song ", n.as_str())
            },
        }
    }
}

/// Settings of the page of one album.
#[derive(Debug, Clone, PartialEq, Eq, Structural)]
pub struct AlbumPage {
    pub hide_track_numbers: bool,
    pub hide_artists: bool,
}

/// Settings of the overview page: which sections it shows, in order.
#[derive(Debug, Clone)]
pub struct OverviewPage {
    pub sections: Vec<Page>,
}

/// Settings of all pages.
#[derive(Debug, Clone)]
pub struct Pages {
    pub overview: OverviewPage,
}

} // verus!
