use cs2_sdk::driver::Driver;
use cs2_sdk::sdk::cutl::{CUtlString, CUtlVector};
use cs2_sdk::sdk::entity::EntityBase;
use cs2_sdk::sdk::icon::IconResolver;
use cs2_sdk::sdk::nametag::{nametag_text, shorten_label};
use cs2_sdk::sdk::player::PlayerBase;

#[test]
fn driver_new_has_no_descriptor() {
    let d = Driver::new();
    assert_eq!(d.fd(), -1);
}

#[test]
fn driver_records_descriptor() {
    let mut d = Driver::new();
    d.set_descriptor(5);
    assert_eq!(d.fd(), 5);
}

#[test]
fn task_name_copies_bytes_then_zeros() {
    let buf = Driver::str_to_cstr("cs2");
    assert_eq!(buf[0], b'c' as i8);
    assert_eq!(buf[1], b's' as i8);
    assert_eq!(buf[2], b'2' as i8);
    assert!(buf[3..].iter().all(|&c| c == 0));
}

#[test]
fn task_name_of_full_length_fills_buffer() {
    let text = "x".repeat(512);
    let buf = Driver::str_to_cstr(&text);
    assert!(buf.iter().all(|&c| c == b'x' as i8));
}

#[test]
fn task_name_keeps_high_bytes_as_negative_chars() {
    let buf = Driver::str_to_cstr("é");
    assert_eq!(buf[0], 0xC3u8 as i8);
    assert_eq!(buf[1], 0xA9u8 as i8);
    assert_eq!(buf[2], 0);
}

#[test]
fn cutl_string_round_trip() {
    let s = CUtlString::new("weapon_ak47");
    assert_eq!(s.to_string(), "weapon_ak47");
    assert_eq!(s.text[11], 0);
}

#[test]
fn cutl_string_round_trip_non_ascii() {
    let s = CUtlString::new("Zoë ☃");
    assert_eq!(s.to_string(), "Zoë ☃");
}

#[test]
fn cutl_string_with_nul_is_all_zero() {
    let s = CUtlString::new("ab\0cd");
    assert!(s.text.iter().all(|&c| c == 0));
    assert_eq!(s.to_string(), "");
}

#[test]
fn cutl_string_truncates_to_511_bytes() {
    let text = "a".repeat(600);
    let s = CUtlString::new(&text);
    assert_eq!(s.text[510], b'a' as i8);
    assert_eq!(s.text[511], 0);
    assert_eq!(s.to_string(), "a".repeat(511));
}

#[test]
fn cutl_string_default_reads_empty() {
    let s = CUtlString::default();
    assert!(s.text.iter().all(|&c| c == 0));
    assert_eq!(s.to_string(), "");
}

#[test]
fn cutl_string_skips_minus_one_chars() {
    let mut s = CUtlString::default();
    s.text[0] = b'h' as i8;
    s.text[1] = -1;
    s.text[2] = b'i' as i8;
    s.text[3] = -1;
    assert_eq!(s.to_string(), "hi");
}

#[test]
fn cutl_string_stops_at_first_zero() {
    let mut s = CUtlString::default();
    s.text[0] = b'o' as i8;
    s.text[1] = b'k' as i8;
    s.text[3] = b'x' as i8;
    assert_eq!(s.to_string(), "ok");
}

#[test]
fn cutl_string_invalid_utf8_reads_empty() {
    let mut s = CUtlString::default();
    s.text[0] = b'a' as i8;
    s.text[1] = 0xC3u8 as i8;
    assert_eq!(s.to_string(), "");
}

#[test]
fn cutl_vector_default_is_empty() {
    let v = CUtlVector::default();
    assert_eq!(v.count, 0);
    assert_eq!(v.data, 0);
}

#[test]
fn icon_resolver_known_weapons() {
    let r = IconResolver::new();
    assert_eq!(r.resolve_icon("weapon_ak47"), Some("W"));
    assert_eq!(r.resolve_icon("weapon_awp"), Some("Z"));
    assert_eq!(r.resolve_icon("knife_ct"), Some("]"));
    assert_eq!(r.resolve_icon("knife"), Some("["));
    assert_eq!(r.resolve_icon("weapon_mp5sd"), Some("x"));
    assert_eq!(r.resolve_icon("defuse kit"), Some("r"));
    assert_eq!(r.resolve_icon("weapon_c4"), Some("o"));
}

#[test]
fn icon_resolver_aliases_share_a_glyph() {
    let r = IconResolver::new();
    assert_eq!(r.resolve_icon("weapon_m4a1"), r.resolve_icon("weapon_m4a1_silencer"));
    assert_eq!(r.resolve_icon("smokegrenade_projectile"), Some("k"));
    assert_eq!(r.resolve_icon("weapon_smokegrenade"), Some("k"));
}

#[test]
fn icon_resolver_unknown_is_none() {
    let r = IconResolver::new();
    assert_eq!(r.resolve_icon("weapon_unknown"), None);
    assert_eq!(r.resolve_icon(""), None);
    assert_eq!(r.resolve_icon("WEAPON_AK47"), None);
}

#[test]
fn player_base_new_and_default() {
    let p = PlayerBase::new(0x1000, 0x2000, 7);
    assert_eq!((p.pawn, p.controller, p.idx), (0x1000, 0x2000, 7));
    let d = PlayerBase::default();
    assert_eq!((d.pawn, d.controller, d.idx), (0, 0, 0));
}

#[test]
fn entity_base_new_and_default() {
    let e = EntityBase::new(0x40, CUtlString::new("weapon_hegrenade"));
    assert_eq!(e.addr, 0x40);
    assert_eq!(e.ammo, [-1, -1]);
    assert_eq!(e.class_name.to_string(), "weapon_hegrenade");
    let d = EntityBase::default();
    assert_eq!(d.addr, 0);
    assert_eq!(d.ammo, [-1, -1]);
    assert_eq!(d.class_name.to_string(), "");
}

#[test]
fn cutl_string_termination_test() {
    assert!(CUtlString::default().is_terminated_exec());
    assert!(CUtlString::new("abc").is_terminated_exec());
    let s = CUtlString { text: [b'a' as i8; 512] };
    assert!(!s.is_terminated_exec());
    let mut t = CUtlString { text: [1; 512] };
    t.text[511] = 0;
    assert!(t.is_terminated_exec());
}

#[test]
fn nametag_short_names_unchanged() {
    assert_eq!(nametag_text("Bob"), "Bob");
    assert_eq!(nametag_text("abcdefg"), "abcdefg");
    assert_eq!(nametag_text(""), "");
}

#[test]
fn nametag_long_names_shortened() {
    assert_eq!(nametag_text("abcdefgh"), "abcdefg...");
    assert_eq!(nametag_text("PlayerName123"), "PlayerN...");
}

#[test]
fn nametag_trims_white_space() {
    assert_eq!(nametag_text("  Bob \n"), "Bob");
    assert_eq!(nametag_text("\u{3000}Eve\t"), "Eve");
    assert_eq!(nametag_text("   abcdefgh   "), "abcdefg...");
}

#[test]
fn nametag_counts_bytes_but_keeps_chars() {
    // four 2-byte chars: 8 bytes, so shortened, but all four chars fit in the first seven
    assert_eq!(nametag_text("éééé"), "éééé...");
    assert_eq!(nametag_text("ééé"), "ééé");
    assert_eq!(nametag_text("☃☃☃☃☃☃☃☃☃"), "☃☃☃☃☃☃☃...");
}

#[test]
fn shorten_label_does_not_trim() {
    assert_eq!(shorten_label(" ab "), " ab ");
    assert_eq!(shorten_label(" abcdefg"), " abcdef...");
}

#[test]
fn nametag_padded_name_shortened() {
    assert_eq!(nametag_text("  Somebody  "), "Somebod...");
    assert_eq!(nametag_text("\u{00A0}\u{2003}ab\u{205F}"), "ab");
    assert_eq!(nametag_text(" \t\n "), "");
}
