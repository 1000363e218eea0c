use window_vibrancy::windows::{best_supported_effect_for_version, is_effect_supported_for_version};
use window_vibrancy::Effect;

#[test]
fn best_supported_effect_prefers_tabbed_on_new_windows_11() {
    assert_eq!(
        best_supported_effect_for_version(10, 0, 22621),
        Effect::Tabbed
    );
    assert_eq!(
        best_supported_effect_for_version(10, 0, 22523),
        Effect::Tabbed
    );
}

#[test]
fn best_supported_effect_uses_mica_on_early_windows_11() {
    assert_eq!(
        best_supported_effect_for_version(10, 0, 22000),
        Effect::Mica
    );
    assert_eq!(
        best_supported_effect_for_version(10, 0, 22522),
        Effect::Mica
    );
}

#[test]
fn best_supported_effect_uses_acrylic_on_supported_windows_10() {
    assert_eq!(
        best_supported_effect_for_version(10, 0, 17763),
        Effect::Acrylic
    );
    assert_eq!(
        best_supported_effect_for_version(10, 0, 19045),
        Effect::Acrylic
    );
}

#[test]
fn best_supported_effect_uses_blur_only_on_windows_7_legacy_path() {
    assert_eq!(best_supported_effect_for_version(6, 1, 7601), Effect::Blur);
    assert_eq!(best_supported_effect_for_version(6, 2, 9200), Effect::Clear);
}

#[test]
fn effect_support_reports_direct_support_only() {
    assert!(is_effect_supported_for_version(Effect::Blur, 6, 1, 7601));
    assert!(!is_effect_supported_for_version(
        Effect::Acrylic,
        6,
        1,
        7601
    ));
    assert!(is_effect_supported_for_version(
        Effect::Acrylic,
        10,
        0,
        19045
    ));
    assert!(!is_effect_supported_for_version(Effect::Mica, 10, 0, 19045));
    assert!(is_effect_supported_for_version(Effect::Mica, 10, 0, 22000));
    assert!(!is_effect_supported_for_version(
        Effect::Tabbed,
        10,
        0,
        22000
    ));
    assert!(is_effect_supported_for_version(
        Effect::Tabbed,
        10,
        0,
        22621
    ));
    assert!(is_effect_supported_for_version(Effect::Clear, 6, 2, 9200));
}
