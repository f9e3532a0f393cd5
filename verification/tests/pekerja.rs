use rejki::ad_store::AdStore;
use rejki::pekerja::client;
use rejki::pekerja::dto::{AdminListQuery, CreateIklanPekerjaInput, ListQuery, SuspendInput, UpdatePekerjaInput};
use rejki::pekerja::entity::ModerationStatus;
use rejki::pekerja::export::export_csv;
use rejki::pekerja::service::{IklanPekerjaService, RevealRequest, SensitiveDocFlags};
use rejki::remote::RegionCheck;

fn svc() -> IklanPekerjaService {
    IklanPekerjaService::new(AdStore::new())
}

fn worker(nama: &str) -> CreateIklanPekerjaInput {
    CreateIklanPekerjaInput {
        nama: nama.into(),
        keahlian: vec!["X".into()],
        deskripsi: "D".into(),
        lokasi: None,
        region_id: None,
        tarif_min: None,
        tarif_max: None,
        jam_kerja: None,
        phone_number: None,
        foto_urls: None,
    }
}

#[test]
fn test_default_limit_is_20() {
    assert!((10..=100).contains(&20i64));
}

#[test]
#[allow(clippy::assertions_on_constants, clippy::nonminimal_bool)]
fn test_csv_max_is_10000() {
    assert!(10_000i64 >= 1_000 && 10_000i64 <= 100_000);
}

#[test]
fn test_moderation_status_default_active() {
    assert_eq!(ModerationStatus::default().as_str(), "active");
}

#[test]
fn test_admin_get_detail_given_poster_with_sensitive_docs_when_get_then_flags_true() {
    let mut s = svc();
    let created = s.create(7, worker("Detail"), 1, 100, true, RegionCheck::NotRequested).ok().unwrap();
    let flags = SensitiveDocFlags { has_nik: true, has_ktp: true, has_selfie: false };
    let detail = s.admin_get_detail(created.id, flags).unwrap();
    assert_eq!(detail.iklan.poster_id, 7);
    assert!(detail.has_nik);
    assert!(detail.has_ktp);
    assert!(!detail.has_selfie);
}

#[test]
fn test_admin_get_detail_given_unknown_id_when_get_then_returns_none() {
    let s = svc();
    let none = SensitiveDocFlags { has_nik: false, has_ktp: false, has_selfie: false };
    assert!(s.admin_get_detail(99, none).is_none());
}

#[test]
fn test_admin_reveal_sensitive_given_kind_nik_when_reveal_then_proxies_to_user_client_with_poster_id() {
    let mut s = svc();
    let created = s.create(7, worker("Reveal"), 1, 100, true, RegionCheck::NotRequested).ok().unwrap();
    match s.admin_reveal_sensitive(created.id, "nik", true).ok().unwrap() {
        Some(RevealRequest::Nik { poster_id }) => assert_eq!(poster_id, 7),
        _ => panic!("expected a NIK lookup"),
    }
}

#[test]
fn test_admin_reveal_sensitive_given_kind_ktp_when_reveal_then_proxies_with_correct_kind() {
    let mut s = svc();
    let created = s.create(7, worker("RevealKtp"), 1, 100, true, RegionCheck::NotRequested).ok().unwrap();
    match s.admin_reveal_sensitive(created.id, "ktp", true).ok().unwrap() {
        Some(RevealRequest::Document { poster_id, kind }) => {
            assert_eq!(poster_id, 7);
            assert_eq!(kind, "ktp");
        },
        _ => panic!("expected a document lookup"),
    }
}

#[test]
fn test_admin_reveal_sensitive_given_no_user_client_when_reveal_then_errors() {
    let mut s = svc();
    let created = s.create(7, worker("NoClient"), 1, 100, true, RegionCheck::NotRequested).ok().unwrap();
    let e = s.admin_reveal_sensitive(created.id, "nik", false).err().unwrap();
    assert_eq!(e.to_string(), "user-service client tidak tersedia");
}

#[test]
fn test_admin_reveal_sensitive_given_unknown_iklan_when_reveal_then_returns_none() {
    let s = svc();
    assert!(s.admin_reveal_sensitive(99, "selfie", true).ok().unwrap().is_none());
}

#[test]
fn test_admin_reveal_sensitive_given_invalid_kind_when_reveal_then_errors() {
    let s = svc();
    let e = s.admin_reveal_sensitive(99, "paspor", true).err().unwrap();
    assert_eq!(e.to_string(), "jenis data tidak dikenal: paspor (gunakan nik, ktp, atau selfie)");
}

#[test]
fn pekerja_list_returns_active_ads() {
    let mut s = svc();
    s.create(7, worker("Budi"), 1, 100, true, RegionCheck::NotRequested).ok().unwrap();
    let items = s.list(&ListQuery { limit: Some(10), offset: Some(0) }).ok().unwrap();
    assert_eq!(items.len(), 1);
    assert_eq!(items[0].nama, "Budi");
}

#[test]
fn pekerja_get_and_delete() {
    let mut s = svc();
    let created = s.create(7, worker("Budi"), 1, 100, true, RegionCheck::NotRequested).ok().unwrap();
    assert_eq!(s.get(created.id).ok().unwrap().nama, "Budi");
    assert_eq!(s.get(2).err().unwrap().to_string(), "tidak ditemukan");
    assert!(!s.delete(created.id, 8));
    assert!(s.delete(created.id, 7));
    assert!(s.get(created.id).is_err());
}

#[test]
fn pekerja_create_sanitizes_description_hours_and_phone_only() {
    let mut s = svc();
    let mut i = worker("<b>Budi</b>");
    i.deskripsi = "<script>x</script>".into();
    i.phone_number = Some("<0812>".into());
    let r = s.create(7, i, 1, 100, true, RegionCheck::NotRequested).ok().unwrap();
    assert_eq!(r.nama, "<b>Budi</b>");
    assert!(!r.deskripsi.contains("<script>"));
    assert_eq!(r.phone_number.as_deref(), Some("&lt;0812&gt;"));
}

#[test]
fn pekerja_update_checks_owner_then_moderation() {
    let mut s = svc();
    let id = s.create(7, worker("Budi"), 1, 100, true, RegionCheck::NotRequested).ok().unwrap().id;
    let edit = || UpdatePekerjaInput {
        nama: Some("Budi Santoso".into()),
        keahlian: Some(vec!["las".into(), "cat".into()]),
        deskripsi: None,
        lokasi: None,
        region_id: None,
        tarif_min: None,
        tarif_max: Some(50_000),
        jam_kerja: None,
        phone_number: None,
        foto_urls: None,
        is_active: None,
    };
    assert_eq!(s.update(8, id, edit(), 101, true, RegionCheck::NotRequested).err().unwrap().to_string(), "tidak ditemukan");
    let r = s.update(7, id, edit(), 101, true, RegionCheck::NotRequested).ok().unwrap();
    assert_eq!(r.keahlian, vec!["las".to_string(), "cat".to_string()]);
    assert_eq!(r.tarif_max, Some(50_000));
    s.suspend(9, &SuspendInput { iklan_ids: vec![id], is_permanent: false, reason: "Foto tidak pantas".into(), evidence_object_key: "ev".into(), expires_at: None }, 200);
    assert_eq!(
        s.update(7, id, edit(), 201, true, RegionCheck::NotRequested).err().unwrap().to_string(),
        "iklan tidak dapat diubah dalam status moderasi saat ini"
    );
}

#[test]
fn pekerja_admin_search_covers_skills_and_csv_joins_them() {
    let mut s = svc();
    let mut i = worker("Andi");
    i.keahlian = vec!["Tukang Las".into(), "Cat".into()];
    s.create(7, i, 1, 1_431_648_000, true, RegionCheck::NotRequested).ok().unwrap();
    s.create(8, worker("Sari"), 2, 1_431_648_001, true, RegionCheck::NotRequested).ok().unwrap();
    let q = AdminListQuery { q: Some("las,c".into()), status: None, sort_by: None, sort_dir: None, limit: None, offset: None };
    let (items, total) = s.admin_list(&q).ok().unwrap();
    assert_eq!((items.len(), total), (1, 1));
    let rows = s.admin_export_csv(&q);
    let doc = export_csv(&rows);
    assert_eq!(
        doc,
        "ID,Nama,Keahlian,Deskripsi,Lokasi,Tarif_Min,Tarif_Max,Status_Moderasi,Pembuat,Created_At\n00000000-0000-0000-0000-000000000001,Andi,Tukang Las; Cat,D,,,,active,00000000-0000-0000-0000-000000000007,2015-05-15 00:00:00 UTC\n"
    );
}

#[test]
fn pekerja_client_reports_active_ads() {
    let mut s = svc();
    let mut i = worker("Andi");
    i.foto_urls = Some(vec!["ignored".into()]);
    s.create(7, i, 1, 100, true, RegionCheck::NotRequested).ok().unwrap();
    assert!(client::exists_active_for_poster(&s.repo, 7));
    assert!(!client::exists_active_for_poster(&s.repo, 8));
    let sums = client::get_active_summaries_for_posters(&s.repo, &vec![7, 8]);
    assert_eq!(sums.len(), 1);
    assert_eq!(sums[0].foto_url, None);
    assert_eq!(client::get_summary(&s.repo, 1).ok().unwrap().nama, "Andi");
    assert!(client::suspend(&mut s.repo, 1, false, "Spam", Some(1000), 9, 200).is_ok());
    assert!(!client::exists_active_for_poster(&s.repo, 7));
    assert_eq!(client::get_summary(&s.repo, 5).err().unwrap().to_string(), "iklan pekerja not found");
}

#[test]
fn test_admin_get_detail_given_no_user_client_when_get_then_flags_default_false() {
    let mut s = svc();
    let created = s.create(7, worker("NoClient"), 1, 100, true, RegionCheck::NotRequested).ok().unwrap();
    let none = SensitiveDocFlags { has_nik: false, has_ktp: false, has_selfie: false };
    let detail = s.admin_get_detail(created.id, none).unwrap();
    assert!(!detail.has_nik);
    assert!(!detail.has_ktp);
    assert!(!detail.has_selfie);
    assert_eq!(detail.iklan.nama, "NoClient");
}

#[test]
fn test_list_given_iklan_when_list_then_returns_items() {
    let mut s = svc();
    let mut i = worker("Budi");
    i.keahlian = vec!["Rust".into()];
    i.deskripsi = "Dev".into();
    s.create(7, i, 1, 100, true, RegionCheck::NotRequested).ok().unwrap();
    let result = s.list(&ListQuery { limit: Some(10), offset: Some(0) }).ok().unwrap();
    assert!(!result.is_empty());
    assert_eq!(result[0].nama, "Budi");
}

#[test]
fn test_create_given_html_in_deskripsi_when_create_then_strips_html() {
    let mut s = svc();
    let mut i = worker("X");
    i.deskripsi = "<script>evil</script>Clean".into();
    let result = s.create(7, i, 1, 100, true, RegionCheck::NotRequested).ok().unwrap();
    assert!(!result.deskripsi.contains("<script>"));
    assert!(result.deskripsi.contains("Clean"));
}

#[test]
fn test_admin_list_given_iklan_when_admin_list_then_returns_all() {
    let mut s = svc();
    s.create(7, worker("AdminVisible"), 1, 100, true, RegionCheck::NotRequested).ok().unwrap();
    let q = AdminListQuery { q: None, status: None, sort_by: None, sort_dir: None, limit: Some(10), offset: Some(0) };
    let (items, total) = s.admin_list(&q).ok().unwrap();
    assert!(total >= 1);
    assert!(!items.is_empty());
}

#[test]
fn service_test_test_suspend_given_valid_ids_when_suspend_then_succeeds() {
    let mut s = svc();
    let created = s.create(7, worker("Sus"), 1, 100, true, RegionCheck::NotRequested).ok().unwrap();
    let input = SuspendInput {
        iklan_ids: vec![created.id],
        is_permanent: false,
        reason: "Melanggar aturan".into(),
        evidence_object_key: "ev-001".into(),
        expires_at: None,
    };
    let (resp, _notices) = s.suspend(50, &input, 200);
    assert_eq!(resp.results.len(), 1);
    assert!(resp.results[0].success);
}
