use rejki::clients::IklanPekerjaSummary;
use rejki::csv::{decimal_string, escape_csv};
use rejki::pekerjaan::client;
use rejki::pekerjaan::dto::{
    AdminListQuery, BatalkanLamaranInput, CreateIklanPekerjaanInput, LamarInput, ListQuery, ReviewLamaranInput, SuspendInput,
    UpdatePekerjaanInput,
};
use rejki::pekerjaan::dto::{to_admin_response, to_response};
use rejki::pekerjaan::entity::{IklanPekerjaan, LamaranStatus, ModerationStatus, PekerjaanStatus};
use rejki::pekerjaan::export::export_csv;
use rejki::pekerjaan::repository::IklanPekerjaanStore;
use rejki::pekerjaan::service::{GeofenceCheck, IklanPekerjaanService, PekerjaCheck};
use rejki::remote::RegionCheck;

fn svc() -> IklanPekerjaanService {
    IklanPekerjaanService::new(IklanPekerjaanStore::new())
}

fn job(judul: &str) -> CreateIklanPekerjaanInput {
    CreateIklanPekerjaanInput {
        judul: judul.into(),
        perusahaan: "PT A".into(),
        deskripsi: "Desc".into(),
        lokasi: None,
        region_id: None,
        gaji_min: None,
        gaji_max: None,
        tipe: "full_time".into(),
        jam_kerja: None,
        foto_urls: None,
    }
}

fn post(s: &mut IklanPekerjaanService, poster: u128, id: u128, now: i64) -> u128 {
    s.create(poster, job("Tukang"), id, now, true, RegionCheck::NotRequested).ok().unwrap().id
}

/// Day 20000 since the epoch, 08:00-12:00.
fn shift() -> LamarInput {
    LamarInput { tanggal: 20000, jam_mulai: 8 * 3600, jam_akhir: 12 * 3600, kuota_diambil: None }
}

#[test]
fn test_default_limit_is_reasonable() {
    let default_limit: i64 = 20;
    assert!(default_limit >= 10 && default_limit <= 100);
}

#[test]
fn test_csv_max_is_reasonable() {
    let csv_max: i64 = 10_000;
    assert!(csv_max >= 1_000);
    assert!(csv_max <= 100_000);
}

#[test]
fn test_moderation_status_default_is_active() {
    let status = ModerationStatus::default();
    assert_eq!(status.as_str(), "active");
}

#[test]
fn test_moderation_status_parse_roundtrip() {
    assert_eq!(ModerationStatus::parse("active"), Some(ModerationStatus::Active));
    assert_eq!(ModerationStatus::parse("suspended_temp"), Some(ModerationStatus::SuspendedTemp));
    assert_eq!(ModerationStatus::parse("suspended_permanent"), Some(ModerationStatus::SuspendedPermanent));
    assert_eq!(ModerationStatus::parse("invalid"), None);
}

#[test]
fn test_moderation_status_display() {
    assert_eq!(ModerationStatus::Active.to_string(), "active");
    assert_eq!(ModerationStatus::SuspendedTemp.to_string(), "suspended_temp");
}

#[test]
fn library_limits_match_the_service_defaults() {
    assert_eq!(rejki::moderation::DEFAULT_LIMIT, 20);
    assert_eq!(rejki::moderation::CSV_MAX, 10_000);
}

#[test]
fn test_list_given_some_iklan_when_list_then_returns_items() {
    let mut s = svc();
    let mut i = job("Software Engineer");
    i.deskripsi = "Rust dev".into();
    s.create(1, i, 10, 100, true, RegionCheck::NotRequested).ok().unwrap();
    let result = s.list(&ListQuery { limit: Some(10), offset: Some(0) }).ok().unwrap();
    assert!(!result.is_empty());
    assert_eq!(result.len(), 1);
}

#[test]
fn test_list_given_multiple_iklan_when_list_with_limit_then_respects_pagination() {
    let mut s = svc();
    s.create(1, job("Job 1"), 10, 100, true, RegionCheck::NotRequested).ok().unwrap();
    s.create(1, job("Job 1"), 11, 101, true, RegionCheck::NotRequested).ok().unwrap();
    let result = s.list(&ListQuery { limit: Some(1), offset: Some(0) }).ok().unwrap();
    assert_eq!(result.len(), 1);
}

#[test]
fn service_test_test_get_given_valid_id_when_get_then_returns_iklan() {
    let mut s = svc();
    let mut i = job("Rust Dev");
    i.perusahaan = "PT Test".into();
    i.lokasi = Some("Jakarta".into());
    i.gaji_min = Some(10_000_000);
    i.gaji_max = Some(20_000_000);
    let created = s.create(1, i, 10, 100, true, RegionCheck::NotRequested).ok().unwrap();
    let got = s.get(created.id).ok().unwrap();
    assert_eq!(got.id, created.id);
    assert!(got.judul.contains("Rust"));
    assert_eq!(got.lokasi, Some("Jakarta".into()));
}

#[test]
fn service_test_test_get_given_nonexistent_id_when_get_then_returns_error() {
    let s = svc();
    let result = s.get(99);
    assert!(result.is_err());
    assert!(result.err().unwrap().to_string().contains("tidak ditemukan"));
}

#[test]
fn service_test_test_create_given_valid_input_when_create_then_succeeds() {
    let mut s = svc();
    let mut i = job("Tech Lead");
    i.perusahaan = "PT Inovasi".into();
    i.deskripsi = "Memimpin tim engineering".into();
    i.lokasi = Some("Bandung".into());
    let result = s.create(1, i, 10, 100, true, RegionCheck::NotRequested).ok().unwrap();
    assert!(result.judul.contains("Tech"));
    assert_eq!(result.perusahaan, "PT Inovasi");
    assert_eq!(result.poster_id, 1);
    assert_ne!(result.id, 0);
    assert_eq!(result.status, PekerjaanStatus::Tersedia);
}

#[test]
fn service_test_test_delete_given_owner_when_delete_then_returns_true() {
    let mut s = svc();
    let id = post(&mut s, 1, 10, 100);
    assert!(s.delete(id, 1));
}

#[test]
fn service_test_test_delete_given_other_user_when_delete_then_returns_false() {
    let mut s = svc();
    let id = post(&mut s, 1, 10, 100);
    assert!(!s.delete(id, 2));
}

#[test]
fn application_lifecycle_runs_from_submission_to_finish() {
    let mut s = svc();
    let id = post(&mut s, 1, 10, 100);
    let l = s.lamar(2, id, &shift(), PekerjaCheck::Answered(true), 50, 101).ok().unwrap();
    assert_eq!(l.status, LamaranStatus::Diajukan);
    assert_eq!(l.kuota_diambil, 1);
    let l = s.review_lamaran(1, 50, &ReviewLamaranInput { approved: true }, 102).ok().unwrap();
    assert_eq!(l.status, LamaranStatus::Diterima);
    assert_eq!(s.tandai_selesai(2, 50, 103).err().unwrap().to_string(), "lamaran tidak dapat ditandai selesai (status tidak sesuai)");
    let l = s.mulai_bekerja(2, 50, GeofenceCheck::Inside, 104).ok().unwrap();
    assert_eq!(l.status, LamaranStatus::Proses);
    assert_eq!(s.get(id).ok().unwrap().status, PekerjaanStatus::SedangDikerjakan);
    let l = s.tandai_selesai(2, 50, 105).ok().unwrap();
    assert_eq!(l.status, LamaranStatus::Selesai);
    assert!(l.status.is_terminal());
    assert_eq!(s.get(id).ok().unwrap().status, PekerjaanStatus::Selesai);
    assert_eq!(client::is_lamaran_selesai(&s.repo, id, 1, 2).ok(), Some(true));
    assert_eq!(client::is_lamaran_selesai(&s.repo, id, 3, 2).ok(), Some(false));
    assert!(client::is_lamaran_selesai(&s.repo, 77, 1, 2).is_err());
}

#[test]
fn applying_is_refused_in_order() {
    let mut s = svc();
    let id = post(&mut s, 1, 10, 100);
    let msg = |r: Result<_, rejki::pekerjaan::service::PekerjaanError>| r.err().unwrap().to_string();
    assert_eq!(msg(s.lamar(2, 99, &shift(), PekerjaCheck::Answered(true), 50, 101)), "iklan tidak ditemukan");
    assert_eq!(msg(s.lamar(1, id, &shift(), PekerjaCheck::Answered(true), 50, 101)), "tidak dapat melamar pada iklan milik sendiri");
    assert_eq!(msg(s.lamar(2, id, &shift(), PekerjaCheck::Unconfigured, 50, 101)), "layanan verifikasi Iklan Pekerja tidak tersedia");
    assert_eq!(msg(s.lamar(2, id, &shift(), PekerjaCheck::Failed("timeout".into()), 50, 101)), "layanan verifikasi Iklan Pekerja gagal: timeout");
    assert_eq!(msg(s.lamar(2, id, &shift(), PekerjaCheck::Answered(false), 50, 101)), "Anda harus memiliki Iklan Pekerja aktif sebelum melamar pekerjaan");
}

#[test]
fn overlapping_accepted_work_blocks_a_new_application() {
    let mut s = svc();
    let a = post(&mut s, 1, 10, 100);
    let b = post(&mut s, 3, 11, 100);
    s.lamar(2, a, &shift(), PekerjaCheck::Answered(true), 50, 101).ok().unwrap();
    // Only submitted so far: no conflict yet.
    assert!(s.lamar(2, b, &shift(), PekerjaCheck::Answered(true), 51, 102).is_ok());
    s.review_lamaran(1, 50, &ReviewLamaranInput { approved: true }, 103).ok().unwrap();
    let later = LamarInput { tanggal: 20000, jam_mulai: 11 * 3600, jam_akhir: 14 * 3600, kuota_diambil: Some(2) };
    let r = s.lamar(2, b, &later, PekerjaCheck::Answered(true), 52, 104);
    assert_eq!(r.err().unwrap().to_string(), "Anda sudah memiliki pekerjaan lain di rentang waktu yang sama");
    let after = LamarInput { tanggal: 20000, jam_mulai: 12 * 3600, jam_akhir: 14 * 3600, kuota_diambil: Some(2) };
    let l = s.lamar(2, b, &after, PekerjaCheck::Answered(true), 52, 104).ok().unwrap();
    assert_eq!(l.kuota_diambil, 2);
}

#[test]
fn cancellation_needs_a_day_of_notice() {
    let mut s = svc();
    let id = post(&mut s, 1, 10, 100);
    s.lamar(2, id, &shift(), PekerjaCheck::Answered(true), 50, 101).ok().unwrap();
    s.review_lamaran(1, 50, &ReviewLamaranInput { approved: true }, 102).ok().unwrap();
    let start: i64 = 20000 * 86400 + 8 * 3600;
    let alasan = BatalkanLamaranInput { alasan: "Proyek dibatalkan klien".into() };
    let r = s.batalkan_lamaran(1, 50, &alasan, start - 86_399);
    assert_eq!(r.err().unwrap().to_string(), "pembatalan hanya dapat dilakukan maksimal 24 jam sebelum pekerjaan dimulai");
    assert_eq!(s.batalkan_lamaran(3, 50, &alasan, start - 86_400).err().unwrap().to_string(), "lamaran tidak ditemukan");
    let l = s.batalkan_lamaran(1, 50, &alasan, start - 86_400).ok().unwrap();
    assert_eq!(l.status, LamaranStatus::Ditolak);
    assert_eq!(l.alasan_batal.as_deref(), Some("Proyek dibatalkan klien"));
}

#[test]
fn starting_work_checks_the_position() {
    let mut s = svc();
    let id = post(&mut s, 1, 10, 100);
    s.lamar(2, id, &shift(), PekerjaCheck::Answered(true), 50, 101).ok().unwrap();
    assert_eq!(s.mulai_bekerja(3, 50, GeofenceCheck::Inside, 102).err().unwrap().to_string(), "lamaran tidak ditemukan");
    assert_eq!(s.mulai_bekerja(2, 50, GeofenceCheck::NoJobLocation, 102).err().unwrap().to_string(), "lokasi iklan tidak tersedia untuk validasi geofence");
    assert_eq!(s.mulai_bekerja(2, 50, GeofenceCheck::Outside, 102).err().unwrap().to_string(), "Anda berada di luar radius 50m dari lokasi pekerjaan");
    assert_eq!(s.mulai_bekerja(2, 50, GeofenceCheck::Inside, 102).err().unwrap().to_string(), "lamaran tidak dapat dimulai (status tidak sesuai)");
}

#[test]
fn owner_sees_applicants_with_their_worker_ads() {
    let mut s = svc();
    let id = post(&mut s, 1, 10, 100);
    s.lamar(2, id, &shift(), PekerjaCheck::Answered(true), 50, 101).ok().unwrap();
    let summaries = vec![IklanPekerjaSummary { id: 900, poster_id: 2, nama: "Budi".into(), keahlian: vec!["las".into()], foto_url: None }];
    let list = s.list_lamaran_for_iklan(1, id, &summaries).ok().unwrap();
    assert_eq!(list.len(), 1);
    assert_eq!(list[0].pelamar_nama.as_deref(), Some("Budi"));
    assert_eq!(list[0].pelamar_iklan_pekerja_id, Some(900));
    assert!(s.list_lamaran_for_iklan(2, id, &summaries).is_err());
    let mine = s.list_lamaran_for_pelamar(2);
    assert_eq!(mine[0].iklan_judul.as_deref(), Some("Tukang"));
    assert_eq!(mine[0].iklan_poster_id, Some(1));
}

#[test]
fn update_is_refused_while_suspended_and_names_the_status() {
    let mut s = svc();
    let id = post(&mut s, 1, 10, 100);
    let edit = UpdatePekerjaanInput {
        judul: Some("Tukang Las".into()),
        perusahaan: None,
        deskripsi: None,
        lokasi: None,
        region_id: None,
        gaji_min: Some(100),
        gaji_max: None,
        tipe: None,
        jam_kerja: Some("08:00-17:00".into()),
        foto_urls: None,
        is_active: None,
    };
    let r = s.update(2, id, edit, 101, true, RegionCheck::NotRequested);
    assert_eq!(r.err().unwrap().to_string(), "iklan tidak ditemukan");
    let edit = UpdatePekerjaanInput {
        judul: Some("Tukang Las".into()),
        perusahaan: None,
        deskripsi: None,
        lokasi: None,
        region_id: None,
        gaji_min: Some(100),
        gaji_max: None,
        tipe: None,
        jam_kerja: None,
        foto_urls: None,
        is_active: None,
    };
    let r = s.update(1, id, edit, 101, true, RegionCheck::NotRequested).ok().unwrap();
    assert_eq!((r.judul.as_str(), r.gaji_min), ("Tukang&#32;Las", Some(100)));
    let (_, notices) = s.suspend(
        9,
        &rejki::pekerjaan::dto::SuspendInput { iklan_ids: vec![id], is_permanent: true, reason: "Lowongan palsu".into(), evidence_object_key: "ev".into(), expires_at: None },
        200,
    );
    assert_eq!(notices[0].title, "Iklan Anda telah ditangguhkan secara permanen");
    let again = UpdatePekerjaanInput {
        judul: None,
        perusahaan: None,
        deskripsi: None,
        lokasi: None,
        region_id: None,
        gaji_min: None,
        gaji_max: None,
        tipe: None,
        jam_kerja: None,
        foto_urls: None,
        is_active: None,
    };
    let r = s.update(1, id, again, 201, true, RegionCheck::NotRequested);
    assert_eq!(r.err().unwrap().to_string(), "iklan tidak dapat diedit karena status moderasi: suspended_permanent");
}

#[test]
fn csv_export_escapes_fields() {
    let mut s = svc();
    let mut i = job("Kasir, shift \"pagi\"");
    i.gaji_min = Some(-5);
    s.create(1, i, 10, 1_431_648_000, true, RegionCheck::NotRequested).ok().unwrap();
    let rows = s.admin_export_csv(&AdminListQuery { q: None, status: None, sort_by: None, sort_dir: None, limit: None, offset: None });
    let doc = export_csv(&rows);
    let mut lines = doc.lines();
    assert_eq!(lines.next(), Some("ID,Judul,Perusahaan,Deskripsi,Lokasi,Gaji_Min,Gaji_Max,Tipe,Status_Moderasi,Pembuat,Created_At"));
    assert_eq!(
        lines.next(),
        Some("00000000-0000-0000-0000-00000000000a,\"Kasir,&#32;shift&#32;&quot;pagi&quot;\",PT A,Desc,,-5,,full_time,active,00000000-0000-0000-0000-000000000001,2015-05-15 00:00:00 UTC")
    );
}

#[test]
fn escape_csv_quotes_only_when_needed() {
    assert_eq!(escape_csv("plain"), "plain");
    assert_eq!(escape_csv("a,b"), "\"a,b\"");
    assert_eq!(escape_csv("say \"hi\""), "\"say \"\"hi\"\"\"");
    assert_eq!(escape_csv("two\nlines"), "\"two\nlines\"");
    assert_eq!(decimal_string(i64::MIN), "-9223372036854775808");
    assert_eq!(decimal_string(0), "0");
}

fn make_iklan(id: u128, poster_id: u128, judul: &str) -> IklanPekerjaan {
    IklanPekerjaan {
        id,
        poster_id,
        judul: judul.to_string(),
        perusahaan: "PT Test".to_string(),
        deskripsi: "Deskripsi test".to_string(),
        lokasi: None,
        region_id: None,
        gaji_min: None,
        gaji_max: None,
        tipe: "full_time".to_string(),
        jam_kerja: None,
        foto_urls: vec![],
        is_active: true,
        moderation_status: ModerationStatus::Active,
        status: PekerjaanStatus::Tersedia,
        deleted_at: None,
        created_at: 100,
        updated_at: 100,
    }
}

#[test]
fn test_to_response_maps_all_fields() {
    let e = make_iklan(1, 2, "Test Judul");
    assert_eq!(e.judul, "Test Judul");
    assert_eq!(e.perusahaan, "PT Test");
    assert!(e.is_active);
    let r = to_response(make_iklan(1, 2, "Test Judul"));
    assert_eq!((r.id, r.poster_id), (1, 2));
    assert_eq!(r.judul, "Test Judul");
    assert_eq!(r.perusahaan, "PT Test");
    assert_eq!(r.tipe, "full_time");
    assert!(r.is_active);
    assert_eq!(r.created_at, 100);
    let a = to_admin_response(make_iklan(1, 2, "Test Judul"));
    assert_eq!(a.deleted_at, None);
    assert_eq!(a.updated_at, 100);
    assert_eq!(a.perusahaan, "PT Test");
}

#[test]
fn test_create_given_poster_in_cooldown_when_create_then_returns_error() {
    let mut s = svc();
    let first = post(&mut s, 7, 1, 100);
    let input = SuspendInput {
        iklan_ids: vec![first],
        is_permanent: true,
        reason: "Penipuan berulang".into(),
        evidence_object_key: "ev".into(),
        expires_at: None,
    };
    s.suspend(50, &input, 1000);
    let result = s.create(7, job("Lagi"), 2, 2000, true, RegionCheck::NotRequested);
    assert!(result.is_err());
    assert!(result.err().unwrap().to_string().contains("3 hari"));
}

#[test]
fn test_create_given_html_input_when_create_then_strips_html() {
    let mut s = svc();
    let mut i = job("<script>alert('xss')</script>Software Engineer");
    i.deskripsi = "<b>Deskripsi</b> dengan <a href='evil'>link</a>".into();
    let result = s.create(7, i, 1, 100, true, RegionCheck::NotRequested).ok().unwrap();
    assert!(!result.judul.contains('<'));
    assert!(!result.deskripsi.contains('<'));
}

#[test]
fn test_admin_list_given_some_iklan_when_admin_list_then_returns_all() {
    let mut s = svc();
    s.create(7, job("A"), 1, 100, true, RegionCheck::NotRequested).ok().unwrap();
    let q = AdminListQuery { q: None, status: None, sort_by: None, sort_dir: None, limit: Some(10), offset: Some(0) };
    let (items, total) = s.admin_list(&q).ok().unwrap();
    assert!(total >= 1);
    assert!(!items.is_empty());
    assert_eq!(items[0].perusahaan, "PT A");
}

#[test]
fn test_suspend_given_valid_ids_when_suspend_then_returns_results() {
    let mut s = svc();
    let created = s.create(7, job("Suspendable"), 1, 100, true, RegionCheck::NotRequested).ok().unwrap();
    let input = SuspendInput {
        iklan_ids: vec![created.id],
        is_permanent: false,
        reason: "Melanggar aturan konten".into(),
        evidence_object_key: "ev-001".into(),
        expires_at: None,
    };
    let (resp, _notices) = s.suspend(50, &input, 200);
    assert_eq!(resp.results.len(), 1);
    assert!(resp.results[0].success);
    assert_eq!(resp.results[0].iklan_id, created.id);
}

#[test]
fn test_suspend_given_nonexistent_id_when_suspend_then_marks_failed() {
    let mut s = svc();
    let input = SuspendInput {
        iklan_ids: vec![99],
        is_permanent: false,
        reason: "Test reason 12345".into(),
        evidence_object_key: "ev-002".into(),
        expires_at: None,
    };
    let (resp, notices) = s.suspend(50, &input, 200);
    assert_eq!(resp.results.len(), 1);
    assert!(!resp.results[0].success);
    assert!(resp.results[0].error.is_some());
    assert!(notices.is_empty());
}
