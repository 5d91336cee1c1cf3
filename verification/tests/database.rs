//! The font database: snapshot semantics of build, invalidate and lookup.

use ffh::provider::fontdatabase::{FontDatabase, FontDatabaseErr};
use ffh::provider::fontprovider::{FontDescriptor, FontWeight, FontWidth};
use ffh::provider::platform::PlatformFontProviderErr;

fn descriptor(path: &str) -> FontDescriptor {
    FontDescriptor {
        path: path.to_string(),
        postscript: "Test-Regular".to_string(),
        family: "Test".to_string(),
        style: "Regular".to_string(),
        weight: FontWeight::Normal,
        width: FontWidth::Normal,
        italic: false,
    }
}

#[test]
fn build_keeps_the_enumerated_snapshot() {
    let db = FontDatabase::new(Ok(vec![descriptor("/fonts/a.ttf"), descriptor("/fonts/b.otf")]))
        .unwrap();
    assert_eq!(db.len(), 2);
    assert_eq!(db.fonts()[0].path, "/fonts/a.ttf");
    assert_eq!(db.fonts()[1].path, "/fonts/b.otf");
}

#[test]
fn build_passes_the_enumeration_error_on() {
    let r = FontDatabase::new(Err(PlatformFontProviderErr::InvalidString));
    assert!(matches!(
        r,
        Err(FontDatabaseErr::PlatformFontProvider(PlatformFontProviderErr::InvalidString))
    ));
}

#[test]
fn lookup_is_exact_match_only() {
    let db = FontDatabase::new(Ok(vec![descriptor("/fonts/a.ttf")])).unwrap();
    assert!(db.is_path_valid(&"/fonts/a.ttf".to_string()));
    assert!(!db.is_path_valid(&"/fonts/b.ttf".to_string()));
    assert!(!db.is_path_valid(&"/fonts".to_string()));
    assert!(!db.is_path_valid(&"/fonts/a.ttf/".to_string()));
    assert!(!db.is_path_valid(&"".to_string()));
}

#[test]
fn invalidate_replaces_the_whole_snapshot() {
    let mut db = FontDatabase::new(Ok(vec![descriptor("/fonts/old.ttf")])).unwrap();
    assert!(db.is_path_valid(&"/fonts/old.ttf".to_string()));

    db.invalidate(Ok(vec![descriptor("/fonts/new1.ttf"), descriptor("/fonts/new2.otf")]))
        .unwrap();

    // a read right after the swap sees the new snapshot only, never a mix
    assert_eq!(db.len(), 2);
    assert!(!db.is_path_valid(&"/fonts/old.ttf".to_string()));
    assert!(db.is_path_valid(&"/fonts/new1.ttf".to_string()));
    assert!(db.is_path_valid(&"/fonts/new2.otf".to_string()));
    for f in db.fonts().iter() {
        assert_ne!(f.path, "/fonts/old.ttf");
    }
}

#[test]
fn failed_invalidate_keeps_the_previous_snapshot() {
    let mut db = FontDatabase::new(Ok(vec![descriptor("/fonts/old.ttf")])).unwrap();
    let r = db.invalidate(Err(PlatformFontProviderErr::InvalidString));
    assert!(matches!(
        r,
        Err(FontDatabaseErr::PlatformFontProvider(PlatformFontProviderErr::InvalidString))
    ));
    assert_eq!(db.len(), 1);
    assert!(db.is_path_valid(&"/fonts/old.ttf".to_string()));
}
