use schnose_gsi_client::mode::{clan_mode_code, parse_clan_mode};
use schnose_gsi_client::Mode;

#[test]
fn bare_bracketed_code() {
    assert_eq!(parse_clan_mode("[KZT]"), Some(Mode::KZTimer));
    assert_eq!(parse_clan_mode("[SKZ]"), Some(Mode::SimpleKZ));
    assert_eq!(parse_clan_mode("[VNL]"), Some(Mode::Vanilla));
}

#[test]
fn code_with_rank_suffix() {
    assert_eq!(parse_clan_mode("[KZT Legend]"), Some(Mode::KZTimer));
    assert_eq!(parse_clan_mode("[SKZ 5]"), Some(Mode::SimpleKZ));
    assert_eq!(parse_clan_mode("[VNL Pro Player]"), Some(Mode::Vanilla));
}

#[test]
fn garbage_gives_none() {
    assert_eq!(parse_clan_mode("garbage"), None);
    assert_eq!(parse_clan_mode(""), None);
    assert_eq!(parse_clan_mode("[]"), None);
    assert_eq!(parse_clan_mode(" KZT"), None);
}

#[test]
fn names_are_case_insensitive() {
    assert_eq!(parse_clan_mode("[kzt]"), Some(Mode::KZTimer));
    assert_eq!(parse_clan_mode("kz_simple"), Some(Mode::SimpleKZ));
    assert_eq!(parse_clan_mode("[Vanilla Legend]"), Some(Mode::Vanilla));
    assert_eq!(parse_clan_mode("[200]"), Some(Mode::KZTimer));
}

#[test]
fn mode_code_grammar() {
    assert_eq!(clan_mode_code("[KZT Legend]"), "KZT");
    assert_eq!(clan_mode_code("[KZT]"), "KZT");
    assert_eq!(clan_mode_code("[[SKZ]]"), "SKZ");
    assert_eq!(clan_mode_code("VNL x y"), "VNL");
    assert_eq!(clan_mode_code("[[VNL x"), "[VNL");
    assert_eq!(clan_mode_code("no_brackets"), "no_brackets");
}
