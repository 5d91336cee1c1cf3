//! The weight/width classification: total over the documented domain and
//! exact at every boundary, since clients read the ordinals numerically.

use ffh::provider::fontprovider::{FontWeight, FontWidth};
use ffh::provider::platform::{FcWeight, FcWidth, PlatformFontProviderErr};

#[test]
fn weight_classification_is_total_on_domain() {
    for v in 0..300 {
        assert!(FcWeight::try_from(v).is_ok(), "weight {} must classify", v);
    }
}

#[test]
fn width_classification_is_total_on_domain() {
    for v in 0..300 {
        assert!(FcWidth::try_from(v).is_ok(), "width {} must classify", v);
    }
}

#[test]
fn weight_boundaries_are_exact() {
    assert!(matches!(FcWeight::try_from(0), Ok(FcWeight::Thin)));
    assert!(matches!(FcWeight::try_from(39), Ok(FcWeight::Thin)));
    assert!(matches!(FcWeight::try_from(40), Ok(FcWeight::ExtraLight)));
    assert!(matches!(FcWeight::try_from(49), Ok(FcWeight::ExtraLight)));
    assert!(matches!(FcWeight::try_from(50), Ok(FcWeight::Light)));
    assert!(matches!(FcWeight::try_from(74), Ok(FcWeight::Light)));
    assert!(matches!(FcWeight::try_from(75), Ok(FcWeight::Book)));
    assert!(matches!(FcWeight::try_from(79), Ok(FcWeight::Book)));
    assert!(matches!(FcWeight::try_from(80), Ok(FcWeight::Regular)));
    assert!(matches!(FcWeight::try_from(99), Ok(FcWeight::Regular)));
    assert!(matches!(FcWeight::try_from(100), Ok(FcWeight::Medium)));
    assert!(matches!(FcWeight::try_from(179), Ok(FcWeight::Medium)));
    assert!(matches!(FcWeight::try_from(180), Ok(FcWeight::DemiBold)));
    assert!(matches!(FcWeight::try_from(199), Ok(FcWeight::DemiBold)));
    assert!(matches!(FcWeight::try_from(200), Ok(FcWeight::Bold)));
    assert!(matches!(FcWeight::try_from(204), Ok(FcWeight::Bold)));
    assert!(matches!(FcWeight::try_from(205), Ok(FcWeight::ExtraBold)));
    assert!(matches!(FcWeight::try_from(209), Ok(FcWeight::ExtraBold)));
    assert!(matches!(FcWeight::try_from(210), Ok(FcWeight::Black)));
    assert!(matches!(FcWeight::try_from(214), Ok(FcWeight::Black)));
    assert!(matches!(FcWeight::try_from(215), Ok(FcWeight::ExtraBlack)));
    assert!(matches!(FcWeight::try_from(299), Ok(FcWeight::ExtraBlack)));
    assert!(matches!(FcWeight::try_from(100000), Ok(FcWeight::ExtraBlack)));
}

#[test]
fn negative_weight_is_a_hard_error() {
    assert!(matches!(
        FcWeight::try_from(-1),
        Err(PlatformFontProviderErr::FontWeightMismatch(-1))
    ));
    assert!(matches!(
        FcWeight::try_from(-300),
        Err(PlatformFontProviderErr::FontWeightMismatch(-300))
    ));
}

#[test]
fn width_boundaries_are_exact() {
    assert!(matches!(FcWidth::try_from(0), Ok(FcWidth::UltraCondensed)));
    assert!(matches!(FcWidth::try_from(62), Ok(FcWidth::UltraCondensed)));
    assert!(matches!(FcWidth::try_from(63), Ok(FcWidth::ExtraCondensed)));
    assert!(matches!(FcWidth::try_from(74), Ok(FcWidth::ExtraCondensed)));
    assert!(matches!(FcWidth::try_from(75), Ok(FcWidth::Condensed)));
    assert!(matches!(FcWidth::try_from(86), Ok(FcWidth::Condensed)));
    assert!(matches!(FcWidth::try_from(87), Ok(FcWidth::SemiCondensed)));
    assert!(matches!(FcWidth::try_from(99), Ok(FcWidth::SemiCondensed)));
    assert!(matches!(FcWidth::try_from(100), Ok(FcWidth::Normal)));
    assert!(matches!(FcWidth::try_from(112), Ok(FcWidth::Normal)));
    assert!(matches!(FcWidth::try_from(113), Ok(FcWidth::SemiExpanded)));
    assert!(matches!(FcWidth::try_from(124), Ok(FcWidth::SemiExpanded)));
    assert!(matches!(FcWidth::try_from(125), Ok(FcWidth::Expanded)));
    assert!(matches!(FcWidth::try_from(149), Ok(FcWidth::Expanded)));
    assert!(matches!(FcWidth::try_from(150), Ok(FcWidth::ExtraExpanded)));
    assert!(matches!(FcWidth::try_from(199), Ok(FcWidth::ExtraExpanded)));
    assert!(matches!(FcWidth::try_from(200), Ok(FcWidth::UltraExpanded)));
    assert!(matches!(FcWidth::try_from(299), Ok(FcWidth::UltraExpanded)));
}

#[test]
fn negative_width_is_a_hard_error() {
    assert!(matches!(
        FcWidth::try_from(-7),
        Err(PlatformFontProviderErr::FontWidthMismatch(-7))
    ));
}

#[test]
fn book_collapses_onto_normal() {
    assert_eq!(FontWeight::from(FcWeight::Book), FontWeight::Normal);
    assert_eq!(FontWeight::from(FcWeight::Regular), FontWeight::Normal);
}

#[test]
fn canonical_weight_wire_values() {
    assert_eq!(FontWeight::Thin.wire_value(), 100);
    assert_eq!(FontWeight::ExtraLight.wire_value(), 200);
    assert_eq!(FontWeight::Light.wire_value(), 300);
    assert_eq!(FontWeight::Normal.wire_value(), 400);
    assert_eq!(FontWeight::Medium.wire_value(), 500);
    assert_eq!(FontWeight::SemiBold.wire_value(), 600);
    assert_eq!(FontWeight::Bold.wire_value(), 700);
    assert_eq!(FontWeight::ExtraBold.wire_value(), 800);
    assert_eq!(FontWeight::Black.wire_value(), 900);
    assert_eq!(FontWeight::ExtraBlack.wire_value(), 950);
}

#[test]
fn canonical_width_wire_values() {
    assert_eq!(FontWidth::UltraCondensed.wire_value(), 50);
    assert_eq!(FontWidth::ExtraCondensed.wire_value(), 63);
    assert_eq!(FontWidth::Condensed.wire_value(), 75);
    assert_eq!(FontWidth::SemiCondensed.wire_value(), 88);
    assert_eq!(FontWidth::Normal.wire_value(), 100);
    assert_eq!(FontWidth::SemiExpanded.wire_value(), 113);
    assert_eq!(FontWidth::Expanded.wire_value(), 125);
    assert_eq!(FontWidth::ExtraExpanded.wire_value(), 150);
    assert_eq!(FontWidth::UltraExpanded.wire_value(), 200);
}

#[test]
fn every_native_weight_bucket_maps() {
    assert_eq!(FontWeight::from(FcWeight::Thin), FontWeight::Thin);
    assert_eq!(FontWeight::from(FcWeight::ExtraLight), FontWeight::ExtraLight);
    assert_eq!(FontWeight::from(FcWeight::Light), FontWeight::Light);
    assert_eq!(FontWeight::from(FcWeight::Medium), FontWeight::Medium);
    assert_eq!(FontWeight::from(FcWeight::DemiBold), FontWeight::SemiBold);
    assert_eq!(FontWeight::from(FcWeight::Bold), FontWeight::Bold);
    assert_eq!(FontWeight::from(FcWeight::ExtraBold), FontWeight::ExtraBold);
    assert_eq!(FontWeight::from(FcWeight::Black), FontWeight::Black);
    assert_eq!(FontWeight::from(FcWeight::ExtraBlack), FontWeight::ExtraBlack);
}

#[test]
fn every_native_width_bucket_maps() {
    assert_eq!(FontWidth::from(FcWidth::UltraCondensed), FontWidth::UltraCondensed);
    assert_eq!(FontWidth::from(FcWidth::ExtraCondensed), FontWidth::ExtraCondensed);
    assert_eq!(FontWidth::from(FcWidth::Condensed), FontWidth::Condensed);
    assert_eq!(FontWidth::from(FcWidth::SemiCondensed), FontWidth::SemiCondensed);
    assert_eq!(FontWidth::from(FcWidth::Normal), FontWidth::Normal);
    assert_eq!(FontWidth::from(FcWidth::SemiExpanded), FontWidth::SemiExpanded);
    assert_eq!(FontWidth::from(FcWidth::Expanded), FontWidth::Expanded);
    assert_eq!(FontWidth::from(FcWidth::ExtraExpanded), FontWidth::ExtraExpanded);
    assert_eq!(FontWidth::from(FcWidth::UltraExpanded), FontWidth::UltraExpanded);
}
