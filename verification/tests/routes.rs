//! The handler decisions: version reporting, the grouped font listing, and
//! the font-file containment check.

use ffh::provider::fontprovider::{FontDescriptor, FontWeight, FontWidth};
use ffh::provider::platform::PlatformFontProvider;
use ffh::query::{FontFileQuery, FontFilesQuery, UpdateQuery};
use ffh::route::RouteError;
use ffh::ServerState;

fn face(path: &str, postscript: &str, style: &str, weight: FontWeight) -> FontDescriptor {
    FontDescriptor {
        path: path.to_string(),
        postscript: postscript.to_string(),
        family: "Arial".to_string(),
        style: style.to_string(),
        weight,
        width: FontWidth::Normal,
        italic: false,
    }
}

fn state_with(fonts: Vec<FontDescriptor>) -> ServerState {
    ServerState::new(PlatformFontProvider::new(true, true, true), Ok(fonts)).unwrap()
}

#[test]
fn server_state_reports_versions() {
    let state = state_with(vec![]);
    assert_eq!(state.figma_api_version, 4);
    assert_eq!(state.font_provider_api_version, 35);
}

#[test]
fn version_endpoint_answers_the_protocol_version() {
    let state = state_with(vec![]);
    assert_eq!(ffh::route::version::handler(&state).version, 4);
}

#[test]
fn update_endpoint_answers_the_server_version_only() {
    let state = state_with(vec![]);
    assert_eq!(ffh::route::update::handler(&state, &UpdateQuery { version: 99 }).version, 4);
    assert_eq!(ffh::route::update::handler(&state, &UpdateQuery { version: 0 }).version, 4);
}

#[test]
fn two_faces_of_one_file_share_one_listing_entry() {
    let state = state_with(vec![
        face("/fonts/Arial.ttf", "Arial-Regular", "Regular", FontWeight::Normal),
        face("/fonts/Arial.ttf", "Arial-Bold", "Bold", FontWeight::Bold),
    ]);
    let query = FontFilesQuery { ft_min_ver: 0, isolate: false };
    let dto = ffh::route::fontfiles::handler(&state, &query).unwrap();
    assert_eq!(dto.version, 4);
    assert_eq!(dto.font_files.len(), 1);
    let entry = &dto.font_files[0];
    assert_eq!(entry.path, "/fonts/Arial.ttf");
    assert_eq!(entry.faces.len(), 2);
    assert_eq!(entry.faces[0].postscript, "Arial-Regular");
    assert_eq!(entry.faces[0].weight, 400);
    assert_eq!(entry.faces[1].postscript, "Arial-Bold");
    assert_eq!(entry.faces[1].weight, 700);
    assert_eq!(entry.faces[1].stretch, 100);
    assert!(!entry.faces[1].italic);
}

#[test]
fn listing_groups_keep_first_appearance_order() {
    let state = state_with(vec![
        face("/fonts/a.ttf", "A-1", "Regular", FontWeight::Normal),
        face("/fonts/b.ttf", "B-1", "Regular", FontWeight::Normal),
        face("/fonts/a.ttf", "A-2", "Bold", FontWeight::Bold),
        face("/fonts/c.otf", "C-1", "Regular", FontWeight::Normal),
    ]);
    let query = FontFilesQuery { ft_min_ver: 35, isolate: true };
    let dto = ffh::route::fontfiles::handler(&state, &query).unwrap();
    let paths: Vec<&str> = dto.font_files.iter().map(|g| g.path.as_str()).collect();
    assert_eq!(paths, vec!["/fonts/a.ttf", "/fonts/b.ttf", "/fonts/c.otf"]);
    assert_eq!(dto.font_files[0].faces.len(), 2);
    assert_eq!(dto.font_files[0].faces[1].postscript, "A-2");
    assert_eq!(dto.font_files[1].faces.len(), 1);
    assert_eq!(dto.font_files[2].faces.len(), 1);
}

#[test]
fn listing_rejects_too_new_freetype_requirement() {
    let state = state_with(vec![]);
    let query = FontFilesQuery { ft_min_ver: 36, isolate: false };
    match ffh::route::fontfiles::handler(&state, &query) {
        Err(RouteError::BadRequest(m)) => assert_eq!(m, "Unsupported FreeType version"),
        _ => panic!("a FreeType requirement above the provider's version must be rejected"),
    }
}

#[test]
fn font_file_serves_only_known_paths() {
    let state = state_with(vec![face(
        "/fonts/Arial.ttf",
        "Arial-Regular",
        "Regular",
        FontWeight::Normal,
    )]);
    let query = FontFileQuery { ft_min_ver: 0, file: "/fonts/Arial.ttf".to_string() };
    assert_eq!(ffh::route::fontfile::handler(&state, &query).unwrap(), "/fonts/Arial.ttf");
}

#[test]
fn font_file_for_an_unknown_path_is_a_client_error() {
    let state = state_with(vec![face(
        "/fonts/Arial.ttf",
        "Arial-Regular",
        "Regular",
        FontWeight::Normal,
    )]);
    let query = FontFileQuery { ft_min_ver: 0, file: "/etc/passwd".to_string() };
    match ffh::route::fontfile::handler(&state, &query) {
        Err(RouteError::NotFound(m)) => assert_eq!(m, "File not found"),
        _ => panic!("an unknown path must be refused"),
    }
    // a sibling in the same directory is still refused: exact match only
    let query2 = FontFileQuery { ft_min_ver: 0, file: "/fonts/Other.ttf".to_string() };
    assert!(matches!(
        ffh::route::fontfile::handler(&state, &query2),
        Err(RouteError::NotFound(_))
    ));
}

#[test]
fn font_file_rejects_too_new_freetype_requirement() {
    let state = state_with(vec![face(
        "/fonts/Arial.ttf",
        "Arial-Regular",
        "Regular",
        FontWeight::Normal,
    )]);
    let query = FontFileQuery { ft_min_ver: 100, file: "/fonts/Arial.ttf".to_string() };
    match ffh::route::fontfile::handler(&state, &query) {
        Err(RouteError::BadRequest(m)) => assert_eq!(m, "Unsupported FreeType version"),
        _ => panic!("a FreeType requirement above the provider's version must be rejected"),
    }
}
