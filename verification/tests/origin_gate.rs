//! The origin gate: only the allow-listed origin's scheme+host gets
//! through.

use ffh::middleware::allowonlyfigma::{scheme_host, AllowFigmaOnly, HeaderField};

fn gate_allows(origin: HeaderField, referer: HeaderField) -> bool {
    AllowFigmaOnly.new_transform().call(&origin, &referer)
}

fn value(s: &str) -> HeaderField {
    HeaderField::Value(s.to_string())
}

#[test]
fn allowed_origin_is_published() {
    assert_eq!(AllowFigmaOnly::allowed_origin(), "https://www.figma.com");
}

#[test]
fn scheme_host_stops_at_the_third_slash() {
    assert_eq!(scheme_host("https://www.figma.com"), "https://www.figma.com");
    assert_eq!(scheme_host("https://www.figma.com/"), "https://www.figma.com");
    assert_eq!(scheme_host("https://www.figma.com/file/abc"), "https://www.figma.com");
    assert_eq!(scheme_host("http://host"), "http://host");
    assert_eq!(scheme_host("no-slashes-at-all"), "no-slashes-at-all");
    assert_eq!(scheme_host(""), "");
}

#[test]
fn request_without_origin_and_referer_is_denied() {
    assert!(!gate_allows(HeaderField::Absent, HeaderField::Absent));
}

#[test]
fn allowed_origin_passes_whatever_the_referer() {
    assert!(gate_allows(value("https://www.figma.com"), HeaderField::Absent));
    assert!(gate_allows(value("https://www.figma.com"), value("https://evil.example")));
    assert!(gate_allows(value("https://www.figma.com"), HeaderField::Unreadable));
}

#[test]
fn declared_value_with_a_path_is_reduced_to_its_host() {
    assert!(gate_allows(value("https://www.figma.com/file/abc"), HeaderField::Absent));
    assert!(gate_allows(value("https://www.figma.com/"), HeaderField::Absent));
    assert!(gate_allows(HeaderField::Absent, value("https://www.figma.com/file/abc")));
    assert!(!gate_allows(value("https://www.figma.com.evil.example/x"), HeaderField::Absent));
}

#[test]
fn referer_is_only_a_fallback() {
    // no origin at all: the referer decides
    assert!(gate_allows(HeaderField::Absent, value("https://www.figma.com")));
    assert!(!gate_allows(HeaderField::Absent, value("https://evil.example")));
    // a present origin decides alone, even when the referer would match
    assert!(!gate_allows(value("https://evil.example"), value("https://www.figma.com")));
    assert!(!gate_allows(HeaderField::Unreadable, value("https://www.figma.com")));
}

#[test]
fn near_misses_are_denied() {
    assert!(!gate_allows(value("http://www.figma.com"), HeaderField::Absent));
    assert!(!gate_allows(value("https://figma.com"), HeaderField::Absent));
    assert!(!gate_allows(value("https://figma.com/https://www.figma.com"), HeaderField::Absent));
    assert!(!gate_allows(value(""), HeaderField::Absent));
}
