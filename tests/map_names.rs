use schnose_gsi_client::is_valid_map_name;
use schnose_gsi_client::map::{has_supported_prefix, strip_map_path};

#[test]
fn supported_with_and_without_path() {
    assert!(is_valid_map_name("de/kz_timer"));
    assert!(is_valid_map_name("kz_timer"));
    assert!(!is_valid_map_name("de_dust2"));
}

#[test]
fn every_prefix_is_supported() {
    for name in ["bkz_a", "kz_a", "kzpro_a", "skz_a", "vnl_a", "xc_a"] {
        assert!(is_valid_map_name(name), "{name}");
    }
}

#[test]
fn near_misses_are_rejected() {
    assert!(!is_valid_map_name(""));
    assert!(!is_valid_map_name("kz"));
    assert!(!is_valid_map_name("KZ_upper"));
    assert!(!is_valid_map_name("surf_kz_x"));
    assert!(!is_valid_map_name("kz_x/de_dust2"));
}

#[test]
fn workshop_paths_are_stripped() {
    assert!(is_valid_map_name("workshop/1234567/kz_beginnerblock_go"));
    assert_eq!(strip_map_path("workshop/1234567/kz_beginnerblock_go"), "kz_beginnerblock_go");
    assert_eq!(strip_map_path("kz_x"), "kz_x");
    assert_eq!(strip_map_path("a/b/"), "");
    assert_eq!(strip_map_path(""), "");
}

#[test]
fn prefix_check_does_not_strip() {
    assert!(has_supported_prefix("xc_a"));
    assert!(!has_supported_prefix("de/kz_timer"));
}
