use rejki::csv::{decimal_string, join_strings, opt_decimal_string};
use rejki::moderation::ModerationStatus;
use rejki::pekerja::dto::AdminIklanPekerjaResponse;
use rejki::pekerja::export::export_csv;
use rejki::http::{contains_text, create_error_kind, lamaran_error_kind, update_error_kind, ErrorKind};
use rejki::remote::{geocode_plan, needs_region_check};
use rejki::search::{like_match, pattern_of, text_matches};
use rejki::text::sanitize;

#[test]
fn search_pattern_trims_and_wraps_in_wildcards() {
    let p: String = pattern_of("  sepeda \t").into_iter().collect();
    assert_eq!(p, "%sepeda%");
    let blank: String = pattern_of("   ").into_iter().collect();
    assert_eq!(blank, "%%");
}

#[test]
fn blank_search_matches_every_title() {
    let p = pattern_of("  ");
    assert!(text_matches("", &p));
    assert!(text_matches("Kulkas dua pintu", &p));
}

#[test]
fn search_finds_substring_ignoring_ascii_case() {
    let p = pattern_of("KULKAS");
    assert!(text_matches("Jual kulkas bekas", &p));
    assert!(text_matches("kulkas", &p));
    assert!(!text_matches("Jual kompor", &p));
}

#[test]
fn search_wildcards_in_the_query_are_honoured() {
    let p = pattern_of("k_mpor");
    assert!(text_matches("kompor gas", &p));
    assert!(text_matches("kampor", &p));
    assert!(!text_matches("kmpor", &p));
    let escaped = pattern_of("50\\%");
    assert!(text_matches("diskon 50%", &escaped));
    assert!(!text_matches("diskon 500", &escaped));
}

#[test]
fn like_match_on_raw_patterns() {
    let t: Vec<char> = "abc".chars().collect();
    let exact: Vec<char> = "abc".chars().collect();
    let prefix: Vec<char> = "ab".chars().collect();
    let percent: Vec<char> = "a%".chars().collect();
    assert!(like_match(&t, &exact));
    assert!(!like_match(&t, &prefix));
    assert!(like_match(&t, &percent));
}

#[test]
fn contains_text_finds_fragments() {
    assert!(contains_text("iklan tidak ditemukan", "tidak ditemukan"));
    assert!(contains_text("abc", ""));
    assert!(!contains_text("ab", "abc"));
    assert!(!contains_text("abc", "abd"));
}

#[test]
fn refused_requests_map_to_http_kinds() {
    assert_eq!(lamaran_error_kind("Lamaran tidak ditemukan"), ErrorKind::NotFound);
    assert_eq!(lamaran_error_kind("Tidak dapat melamar iklan milik sendiri"), ErrorKind::Validation);
    assert_eq!(lamaran_error_kind("Anda berada di luar radius 50m"), ErrorKind::Validation);
    assert_eq!(lamaran_error_kind("sudah ada pekerjaan di rentang waktu yang sama"), ErrorKind::Conflict);
    assert_eq!(lamaran_error_kind("lain"), ErrorKind::Internal);
    assert_eq!(update_error_kind("terlalu banyak permintaan"), ErrorKind::RateLimited);
    assert_eq!(update_error_kind("Iklan tidak ditemukan"), ErrorKind::NotFound);
    assert_eq!(update_error_kind("status moderasi suspended"), ErrorKind::Conflict);
    assert_eq!(update_error_kind("x"), ErrorKind::Internal);
    assert_eq!(create_error_kind("terlalu banyak permintaan, coba lagi"), ErrorKind::RateLimited);
    assert_eq!(create_error_kind("Iklan tidak ditemukan"), ErrorKind::Internal);
}

#[test]
fn geocoding_is_planned_only_when_it_can_be_done() {
    let addr = Some("Jl. Merdeka 1".to_string());
    let region = Some("3171".to_string());
    assert!(geocode_plan(&addr, &None, false, true).is_none());
    assert!(geocode_plan(&None, &None, true, true).is_none());
    assert!(geocode_plan(&addr, &region, true, false).is_none());
    let p = geocode_plan(&addr, &None, true, false).unwrap();
    assert_eq!(p.address_line, addr);
    assert_eq!(p.region_id, None);
    let q = geocode_plan(&None, &region, true, true).unwrap();
    assert_eq!(q.address_line, None);
    assert_eq!(q.region_id, region);
}

#[test]
fn region_is_checked_only_when_given() {
    assert!(!needs_region_check(&None));
    assert!(!needs_region_check(&Some(String::new())));
    assert!(needs_region_check(&Some("31".to_string())));
}

#[test]
fn decimals_and_joins_are_exact() {
    assert_eq!(decimal_string(0), "0");
    assert_eq!(decimal_string(-42), "-42");
    assert_eq!(decimal_string(i64::MIN), "-9223372036854775808");
    assert_eq!(opt_decimal_string(None), "");
    assert_eq!(opt_decimal_string(Some(7)), "7");
    let v = vec!["a".to_string(), "b".to_string(), "c".to_string()];
    assert_eq!(join_strings(&v, "; "), "a; b; c");
    assert_eq!(join_strings(&Vec::new(), "; "), "");
}

#[test]
fn sanitize_strips_tags_and_escapes() {
    let s = sanitize("<b>x</b>");
    assert!(!s.contains('<'));
    assert!(!s.contains('>'));
    assert!(s.contains('x'));
}

#[test]
fn export_writes_ids_as_hyphenated_lowercase_uuids() {
    let row = AdminIklanPekerjaResponse {
        id: 0xa1a2a3a4b1b2c1c2d1d2d3d4d5d6d7d8,
        poster_id: 0xFF,
        nama: "Budi".into(),
        keahlian: vec!["las".into(), "cat".into()],
        deskripsi: "d".into(),
        lokasi: None,
        region_id: None,
        tarif_min: Some(10),
        tarif_max: None,
        jam_kerja: None,
        phone_number: None,
        foto_urls: Vec::new(),
        is_active: true,
        moderation_status: ModerationStatus::SuspendedTemp,
        deleted_at: None,
        created_at: 0,
        updated_at: 0,
    };
    let doc = export_csv(&vec![row]);
    let line = doc.lines().nth(1).unwrap();
    assert_eq!(
        line,
        "a1a2a3a4-b1b2-c1c2-d1d2-d3d4d5d6d7d8,Budi,las; cat,d,,10,,suspended_temp,00000000-0000-0000-0000-0000000000ff,1970-01-01 00:00:00 UTC"
    );
}
