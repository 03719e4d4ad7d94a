use tano::config::action::Action;
use tano::config::dirs;
use tano::config::keymap::Keymap;
use tano::config::keys::{KeyBind, KeyCode, KeyModifiers};
use tano::config::one_or_many::OneOrMany;
use tano::config::pages::{AlbumPage, OverviewPage, Page, Pages};
use tano::config::percentage::parse_percentage;
use tano::config::providers::{LocalConfig, ProviderConfig};
use tano::config::Config;
use tano::shared::DirError;
use tano::text::IntErrorKind;

#[test]
fn one_or_many_as_slice() {
    let one = OneOrMany::One(3);
    assert_eq!(one.deref(), &[3]);
    let many = OneOrMany::Many(vec![1, 2, 3]);
    assert_eq!(many.deref(), &[1, 2, 3]);
    let none: OneOrMany<i32> = OneOrMany::Many(vec![]);
    assert!(none.deref().is_empty());
    // Through `Deref`.
    assert_eq!(many.len(), 3);
    assert_eq!(one.iter().sum::<i32>(), 3);
}

#[test]
fn page_titles() {
    assert_eq!(Page::Overview.to_string(), "Overview");
    assert_eq!(Page::Songs.to_string(), "Songs");
    assert_eq!(Page::Albums.to_string(), "Albums");
    assert_eq!(Page::Artists.to_string(), "Artists");
    assert_eq!(Page::Album(7).to_string(), "Album 7");
    assert_eq!(Page::Song(-3).to_string(), "Song -3");
    assert_eq!(Page::Album(i64::MIN).to_string(), "Album -9223372036854775808");
}

#[test]
fn percentage_values() {
    assert_eq!(parse_percentage("50%"), Ok(50));
    assert_eq!(parse_percentage(" 50% "), Ok(50));
    assert_eq!(parse_percentage("-10%%"), Ok(-10));
    assert_eq!(parse_percentage("+7"), Ok(7));
    assert_eq!(parse_percentage("100"), Ok(100));
}

#[test]
fn percentage_errors() {
    assert_eq!(parse_percentage(""), Err(IntErrorKind::Empty));
    assert_eq!(parse_percentage("%"), Err(IntErrorKind::Empty));
    assert_eq!(parse_percentage("  % "), Err(IntErrorKind::Empty));
    assert_eq!(parse_percentage("abc"), Err(IntErrorKind::InvalidDigit));
    assert_eq!(parse_percentage("25 %"), Err(IntErrorKind::InvalidDigit));
    assert_eq!(parse_percentage("-%"), Err(IntErrorKind::InvalidDigit));
    assert_eq!(parse_percentage("+"), Err(IntErrorKind::InvalidDigit));
    assert_eq!(parse_percentage("1-2"), Err(IntErrorKind::InvalidDigit));
    assert_eq!(parse_percentage("99999999999%"), Err(IntErrorKind::PosOverflow));
    assert_eq!(parse_percentage("-99999999999"), Err(IntErrorKind::NegOverflow));
    assert_eq!(IntErrorKind::Empty.message(), "cannot parse integer from empty string");
    assert_eq!(IntErrorKind::InvalidDigit.message(), "invalid digit found in string");
    assert_eq!(IntErrorKind::PosOverflow.message(), "number too large to fit in target type");
    assert_eq!(IntErrorKind::NegOverflow.message(), "number too small to fit in target type");
}

#[test]
fn config_dir_prefers_tano_config() {
    assert_eq!(dirs::get_config_dir(Some("/c".to_string()), Some("/p".to_string())), Ok("/c".to_string()));
    assert_eq!(dirs::get_config_dir(None, Some("/p".to_string())), Ok("/p".to_string()));
    assert_eq!(dirs::get_config_dir(None, None), Err(DirError::ProjectConfigDir));
}

#[test]
fn config_values() {
    let keymap = Keymap {
        on: OneOrMany::Many(vec![KeyBind::from_str("q").unwrap(), KeyBind::from_str("<C-c>").unwrap()]),
        run: Action::Quit,
    };
    let config = Config {
        providers: vec![ProviderConfig::Local { config: LocalConfig { path: "/music".to_string() } }],
        keymaps: Some(vec![keymap]),
    };
    let keymaps = config.keymaps.unwrap();
    assert_eq!(keymaps[0].on.deref()[1], KeyBind { code: KeyCode::Char('c'), modifiers: KeyModifiers::CONTROL() });
    assert_eq!(keymaps[0].run, Action::Quit);
    let pages = Pages { overview: OverviewPage { sections: vec![Page::Songs, Page::Albums] } };
    assert_eq!(pages.overview.sections.len(), 2);
    let album = AlbumPage { hide_track_numbers: true, hide_artists: false };
    assert_eq!(album.clone(), album);
}
