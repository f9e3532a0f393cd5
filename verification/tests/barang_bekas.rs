use rejki::barang_bekas::dto::{
    AdminListQuery, CreateIklanBarangBekasInput, ListQuery, SetujuiBiderInput, SuspendInput, UpdateBarangBekasInput,
};
use rejki::barang_bekas::entity::{AvailabilityStatus, BiderStatus, ModerationStatus};
use rejki::barang_bekas::repository::IklanBarangBekasStore;
use rejki::barang_bekas::service::{
    enrich_biders, unique_region_ids, validate_jenis_barang, BarangBekasError, IklanBarangBekasService,
    PeminatLocation, RegionName,
};
use rejki::barang_bekas::client;
use rejki::remote::RegionCheck;

fn svc() -> IklanBarangBekasService {
    IklanBarangBekasService::new(IklanBarangBekasStore::new())
}

fn input(judul: &str, jenis: &str) -> CreateIklanBarangBekasInput {
    CreateIklanBarangBekasInput {
        judul: judul.into(),
        deskripsi: "D".into(),
        jenis_barang: jenis.into(),
        jumlah: 1,
        lokasi_pengambilan: "Rumah".into(),
        lokasi: None,
        region_id: None,
        foto_urls: None,
    }
}

fn buat_iklan(s: &mut IklanBarangBekasService, seller: u128, id: u128, now: i64) -> u128 {
    s.create(seller, input("Kursi", "bekas"), id, now, true, RegionCheck::NotRequested).ok().unwrap().id
}

#[test]
fn test_availability_status_default_tersedia() {
    assert_eq!(AvailabilityStatus::default().as_str(), "tersedia");
}

#[test]
fn test_availability_status_parse_roundtrip() {
    assert_eq!(AvailabilityStatus::parse("tersedia"), Some(AvailabilityStatus::Tersedia));
    assert_eq!(AvailabilityStatus::parse("sudah_diambil"), Some(AvailabilityStatus::SudahDiambil));
    assert_eq!(AvailabilityStatus::parse("invalid"), None);
}

#[test]
fn test_availability_status_display() {
    assert_eq!(AvailabilityStatus::Tersedia.to_string(), "tersedia");
    assert_eq!(AvailabilityStatus::SudahDiambil.to_string(), "sudah_diambil");
}

#[test]
fn test_list_given_barang_when_list_then_returns_items() {
    let mut s = svc();
    let mut i = input("Laptop", "bekas");
    i.deskripsi = "Bekas mulus".into();
    i.lokasi_pengambilan = "Jakarta".into();
    s.create(7, i, 1, 100, true, RegionCheck::NotRequested).ok().unwrap();
    let result = s.list(&ListQuery { limit: Some(10), offset: Some(0) }).ok().unwrap();
    assert!(!result.is_empty());
    assert_eq!(result[0].judul, "Laptop");
}

#[test]
fn test_get_given_valid_id_when_get_then_returns_barang() {
    let mut s = svc();
    let created = s
        .create(
            7,
            CreateIklanBarangBekasInput {
                judul: "Meja".into(),
                deskripsi: "Kayu jati".into(),
                jenis_barang: "baru".into(),
                jumlah: 2,
                lokasi_pengambilan: "Bandung".into(),
                lokasi: Some("Bandung Kota".into()),
                region_id: None,
                foto_urls: None,
            },
            1,
            100,
            true,
            RegionCheck::NotRequested,
        )
        .ok()
        .unwrap();
    let got = s.get(created.id).ok().unwrap();
    assert_eq!(got.judul, "Meja");
    assert_eq!(got.jumlah, 2);
    assert_eq!(got.jenis_barang, "baru");
}

#[test]
fn service_test_barang_test_get_given_nonexistent_id_when_get_then_returns_error() {
    let s = svc();
    assert!(s.get(99).is_err());
}

#[test]
fn test_create_given_valid_bekas_when_create_then_succeeds() {
    let mut s = svc();
    let mut i = input("Buku", "bekas");
    i.deskripsi = "Novel".into();
    i.jumlah = 3;
    let result = s.create(7, i, 1, 100, true, RegionCheck::NotRequested).ok().unwrap();
    assert_eq!(result.jenis_barang, "bekas");
    assert_eq!(result.jumlah, 3);
    assert_eq!(result.availability_status.as_str(), "tersedia");
}

#[test]
fn test_create_given_invalid_jenis_barang_when_create_then_returns_error() {
    let mut s = svc();
    let result = s.create(7, input("X", "ilegal"), 1, 100, true, RegionCheck::NotRequested);
    assert!(result.is_err());
    assert!(result.err().unwrap().to_string().contains("jenis_barang"));
}

#[test]
fn test_create_given_html_when_create_then_strips_html() {
    let mut s = svc();
    let i = CreateIklanBarangBekasInput {
        judul: "<b>Laptop</b>".into(),
        deskripsi: "<script>xss</script>Desc".into(),
        jenis_barang: "bekas".into(),
        jumlah: 1,
        lokasi_pengambilan: "Lobby <img src=x>".into(),
        lokasi: None,
        region_id: None,
        foto_urls: None,
    };
    let result = s.create(7, i, 1, 100, true, RegionCheck::NotRequested).ok().unwrap();
    assert!(!result.judul.contains("<b>"));
    assert!(!result.deskripsi.contains("<script>"));
    assert!(!result.lokasi_pengambilan.contains("<img"));
}

#[test]
fn test_mark_taken_given_owner_when_mark_taken_then_returns_true() {
    let mut s = svc();
    let id = buat_iklan(&mut s, 7, 1, 100);
    assert!(s.mark_taken(id, 7, 101));
}

#[test]
fn test_mark_taken_given_other_user_when_mark_taken_then_returns_false() {
    let mut s = svc();
    let id = buat_iklan(&mut s, 7, 1, 100);
    assert!(!s.mark_taken(id, 8, 101));
}

#[test]
fn test_mark_taken_idempotent() {
    let mut s = svc();
    let id = buat_iklan(&mut s, 7, 1, 100);
    assert!(s.mark_taken(id, 7, 101));
    assert!(!s.mark_taken(id, 7, 102));
}

#[test]
fn service_test_barang_test_delete_given_owner_when_delete_then_returns_true() {
    let mut s = svc();
    let id = buat_iklan(&mut s, 7, 1, 100);
    assert!(s.delete(id, 7));
}

#[test]
fn service_test_barang_test_delete_given_other_user_when_delete_then_returns_false() {
    let mut s = svc();
    let id = buat_iklan(&mut s, 7, 1, 100);
    assert!(!s.delete(id, 8));
}

#[test]
fn service_test_barang_test_suspend_given_valid_ids_when_suspend_then_succeeds() {
    let mut s = svc();
    let id = buat_iklan(&mut s, 7, 1, 100);
    let (resp, notices) = s.suspend(
        50,
        &SuspendInput {
            iklan_ids: vec![id],
            is_permanent: false,
            reason: "Melanggar aturan".into(),
            evidence_object_key: "ev-001".into(),
            expires_at: None,
        },
        200,
    );
    assert!(resp.results[0].success);
    assert_eq!(notices.len(), 1);
    assert_eq!(notices[0].owner_id, 7);
    assert_eq!(notices[0].title, "Iklan Anda telah ditangguhkan sementara");
    assert!(notices[0].body.starts_with("Iklan \"Kursi\" (ID: 00000000-0000-0000-0000-000000000001)"));
}

#[test]
fn test_ambil_given_own_iklan_when_ambil_then_returns_error() {
    let mut s = svc();
    let id = buat_iklan(&mut s, 7, 1, 100);
    let result = s.ambil(7, id, 10, 101);
    assert!(result.is_err());
    assert!(result.err().unwrap().to_string().contains("milik sendiri"));
}

#[test]
fn test_ambil_given_valid_when_ambil_then_creates_bider_menunggu() {
    let mut s = svc();
    let id = buat_iklan(&mut s, 7, 1, 100);
    let bider = s.ambil(8, id, 10, 101).ok().unwrap();
    assert_eq!(bider.status.as_str(), "menunggu");
    assert_eq!(bider.peminat_id, 8);
}

#[test]
fn test_ambil_given_pending_bid_exists_when_ambil_again_then_returns_error() {
    let mut s = svc();
    let id = buat_iklan(&mut s, 7, 1, 100);
    s.ambil(8, id, 10, 101).ok().unwrap();
    let result = s.ambil(8, id, 11, 102);
    assert!(result.is_err());
    assert!(result.err().unwrap().to_string().contains("sudah mengajukan"));
}

#[test]
fn test_ambil_given_already_taken_when_ambil_then_returns_error() {
    let mut s = svc();
    let id = buat_iklan(&mut s, 7, 1, 100);
    let a = s.ambil(8, id, 10, 101).ok().unwrap();
    s.setujui_bider(7, a.id, &SetujuiBiderInput { sudah_menghubungi: true }, 102).ok().unwrap();
    let result = s.ambil(9, id, 11, 103);
    assert!(result.is_err());
    assert!(result.err().unwrap().to_string().contains("tidak tersedia"));
}

#[test]
fn test_list_bider_given_other_user_when_list_then_returns_error() {
    let mut s = svc();
    let id = buat_iklan(&mut s, 7, 1, 100);
    s.ambil(8, id, 10, 101).ok().unwrap();
    assert!(s.list_bider(9, id).is_err());
}

#[test]
fn test_setujui_bider_given_other_user_when_setujui_then_returns_error() {
    let mut s = svc();
    let id = buat_iklan(&mut s, 7, 1, 100);
    let b = s.ambil(8, id, 10, 101).ok().unwrap();
    assert!(s.setujui_bider(9, b.id, &SetujuiBiderInput { sudah_menghubungi: true }, 102).is_err());
}

#[test]
fn test_withdraw_bider_given_other_user_when_withdraw_then_returns_error() {
    let mut s = svc();
    let id = buat_iklan(&mut s, 7, 1, 100);
    let b = s.ambil(8, id, 10, 101).ok().unwrap();
    assert!(s.withdraw_bider(9, b.id, 102).is_err());
}

#[test]
fn test_setujui_bider_given_multiple_pending_when_approved_then_others_withdrawn() {
    let mut s = svc();
    let id = buat_iklan(&mut s, 7, 1, 100);
    let a = s.ambil(8, id, 10, 101).ok().unwrap();
    s.ambil(9, id, 11, 102).ok().unwrap();
    s.setujui_bider(7, a.id, &SetujuiBiderInput { sudah_menghubungi: true }, 103).ok().unwrap();
    let list = s.list_bider(7, id).ok().unwrap();
    let ba = list.iter().find(|b| b.peminat_id == 8).unwrap();
    let bb = list.iter().find(|b| b.peminat_id == 9).unwrap();
    assert_eq!(ba.status.as_str(), "disetujui");
    assert_eq!(bb.status.as_str(), "withdrawn");
}

#[test]
fn test_withdraw_bider_given_previously_approved_when_withdrawn_then_iklan_relists() {
    let mut s = svc();
    let id = buat_iklan(&mut s, 7, 1, 100);
    let b = s.ambil(8, id, 10, 101).ok().unwrap();
    s.setujui_bider(7, b.id, &SetujuiBiderInput { sudah_menghubungi: true }, 102).ok().unwrap();
    assert_eq!(s.get(id).ok().unwrap().availability_status.as_str(), "sudah_diambil");
    s.withdraw_bider(7, b.id, 103).ok().unwrap();
    assert_eq!(s.get(id).ok().unwrap().availability_status.as_str(), "tersedia");
}

#[test]
fn test_bider_full_flow_ambil_withdraw_ambil_lagi_setujui() {
    let mut s = svc();
    let id = buat_iklan(&mut s, 7, 1, 100);
    let a = s.ambil(8, id, 10, 101).ok().unwrap();
    assert_eq!(a.status.as_str(), "menunggu");
    let withdrawn = s.withdraw_bider(7, a.id, 102).ok().unwrap();
    assert_eq!(withdrawn.status.as_str(), "withdrawn");
    assert_eq!(s.get(id).ok().unwrap().availability_status.as_str(), "tersedia");
    let b = s.ambil(9, id, 11, 103).ok().unwrap();
    assert_eq!(b.status.as_str(), "menunggu");
    let approved = s.setujui_bider(7, b.id, &SetujuiBiderInput { sudah_menghubungi: true }, 104).ok().unwrap();
    assert_eq!(approved.status.as_str(), "disetujui");
    assert_eq!(s.get(id).ok().unwrap().availability_status.as_str(), "sudah_diambil");
}

#[test]
fn test_list_my_ads_given_two_sellers_when_listed_then_only_returns_own() {
    let mut s = svc();
    buat_iklan(&mut s, 7, 1, 100);
    buat_iklan(&mut s, 7, 2, 101);
    buat_iklan(&mut s, 8, 3, 102);
    let mine = s.list_my_ads(7, 20, 0).ok().unwrap();
    assert_eq!(mine.len(), 2);
    assert!(mine.iter().all(|i| i.seller_id == 7));
}

#[test]
fn test_list_bider_saya_given_bid_when_listed_then_includes_iklan_context() {
    let mut s = svc();
    let id = buat_iklan(&mut s, 7, 1, 100);
    s.ambil(8, id, 10, 101).ok().unwrap();
    let mine = s.list_bider_saya(8);
    assert_eq!(mine.len(), 1);
    assert_eq!(mine[0].iklan_id, id);
    assert_eq!(mine[0].iklan_judul.as_deref(), Some("Kursi"));
    assert_eq!(mine[0].status.as_str(), "menunggu");
}

#[test]
fn bider_status_names_round_trip() {
    for b in [BiderStatus::Menunggu, BiderStatus::Disetujui, BiderStatus::Withdrawn] {
        assert_eq!(BiderStatus::parse(b.as_str()), Some(b));
    }
    assert_eq!(BiderStatus::parse("ditolak"), None);
}

#[test]
fn create_is_refused_by_rate_limit_cooldown_and_region() {
    let mut s = svc();
    let r = s.create(7, input("A", "bekas"), 1, 100, false, RegionCheck::NotRequested);
    assert_eq!(r.err().unwrap().to_string(), "terlalu banyak permintaan, coba lagi nanti");
    let mut i = input("A", "bekas");
    i.region_id = Some("32.73".into());
    let r = s.create(7, i, 1, 100, true, RegionCheck::NotFound);
    assert_eq!(r.err().unwrap().to_string(), "region_id tidak ditemukan");
    // An unreachable directory does not stop the ad.
    let mut i = input("A", "bekas");
    i.region_id = Some("32.73".into());
    assert!(s.create(7, i, 1, 100, true, RegionCheck::Unavailable).is_ok());
    // A duplicate identifier is refused by the store.
    let r = s.create(7, input("B", "baru"), 1, 101, true, RegionCheck::NotRequested);
    assert!(matches!(r.err().unwrap(), BarangBekasError::Repo(_)));
    // A permanent suspension starts a three-day cooldown.
    s.suspend(
        50,
        &SuspendInput { iklan_ids: vec![1], is_permanent: true, reason: "Penipuan berulang".into(), evidence_object_key: "ev".into(), expires_at: None },
        1000,
    );
    let r = s.create(7, input("C", "bekas"), 2, 1000 + 259_199, true, RegionCheck::NotRequested);
    assert!(r.err().unwrap().to_string().starts_with("Anda tidak dapat membuat iklan baru"));
    assert!(s.create(7, input("C", "bekas"), 2, 1000 + 259_200, true, RegionCheck::NotRequested).is_ok());
}

#[test]
fn invalid_jenis_barang_message_names_the_value() {
    let mut s = svc();
    let r = s.create(7, input("A", "rusak"), 1, 100, true, RegionCheck::NotRequested);
    assert_eq!(r.err().unwrap().to_string(), "jenis_barang harus 'bekas' atau 'baru', bukan: rusak");
    assert!(validate_jenis_barang("baru").is_ok());
    let e = validate_jenis_barang("x").err().unwrap();
    assert_eq!(e.code, "invalid_jenis_barang");
    assert_eq!(e.message, "jenis_barang harus 'bekas' atau 'baru', bukan 'x'");
}

#[test]
fn update_follows_guards_and_keeps_unset_fields() {
    let mut s = svc();
    let id = buat_iklan(&mut s, 7, 1, 100);
    let edit = |judul: Option<&str>| UpdateBarangBekasInput {
        judul: judul.map(|j| j.to_string()),
        deskripsi: None,
        jenis_barang: None,
        jumlah: Some(5),
        lokasi_pengambilan: None,
        lokasi: None,
        region_id: None,
        foto_urls: None,
        is_active: None,
    };
    assert_eq!(s.update(7, id, edit(None), 101, false, RegionCheck::NotRequested).err().unwrap().to_string(), "terlalu banyak permintaan");
    assert_eq!(s.update(8, id, edit(None), 101, true, RegionCheck::NotRequested).err().unwrap().to_string(), "tidak ditemukan");
    let r = s.update(7, id, edit(Some("<i>Meja</i>")), 101, true, RegionCheck::NotRequested).ok().unwrap();
    assert_eq!(r.judul, "&lt;i&gt;Meja&lt;&#47;i&gt;");
    assert_eq!(r.jumlah, 5);
    assert_eq!(r.deskripsi, "D");
    s.mark_taken(id, 7, 102);
    assert_eq!(s.update(7, id, edit(None), 103, true, RegionCheck::NotRequested).err().unwrap().to_string(), "iklan sudah tidak tersedia");
}

#[test]
fn suspended_ad_cannot_be_requested_and_expiry_lifts_it() {
    let mut s = svc();
    let id = buat_iklan(&mut s, 7, 1, 100);
    let (resp, _) = s.suspend(
        50,
        &SuspendInput { iklan_ids: vec![id, 404], is_permanent: false, reason: "Foto menyesatkan".into(), evidence_object_key: "ev".into(), expires_at: Some(500) },
        200,
    );
    assert!(resp.results[0].success);
    assert!(!resp.results[1].success);
    assert_eq!(resp.results[1].error.as_deref(), Some("iklan tidak ditemukan atau sudah tersuspensi"));
    assert_eq!(s.get(id).ok().unwrap().moderation_status, ModerationStatus::SuspendedTemp);
    assert_eq!(s.ambil(8, id, 10, 300).err().unwrap().to_string(), "iklan sedang ditangguhkan");
    assert_eq!(s.expire_temporary_suspensions(499), 0);
    assert_eq!(s.expire_temporary_suspensions(500), 1);
    assert_eq!(s.get(id).ok().unwrap().moderation_status, ModerationStatus::Active);
    assert!(s.ambil(8, id, 10, 501).is_ok());
}

#[test]
fn admin_list_filters_searches_sorts_and_counts() {
    let mut s = svc();
    s.create(7, input("Sepeda Lipat", "bekas"), 1, 100, true, RegionCheck::NotRequested).ok().unwrap();
    s.create(7, input("Kursi Kayu", "bekas"), 2, 200, true, RegionCheck::NotRequested).ok().unwrap();
    s.create(8, input("sepeda anak", "baru"), 3, 300, true, RegionCheck::NotRequested).ok().unwrap();
    let q = |q: Option<&str>, dir: Option<&str>, limit: Option<i64>| AdminListQuery {
        q: q.map(|x| x.to_string()),
        status: None,
        sort_by: None,
        sort_dir: dir.map(|x| x.to_string()),
        limit,
        offset: None,
    };
    let (items, total) = s.admin_list(&q(Some("  SEPEDA "), None, None)).ok().unwrap();
    assert_eq!(total, 2);
    assert_eq!(items[0].id, 3);
    assert_eq!(items[1].id, 1);
    let (items, total) = s.admin_list(&q(None, Some("asc"), Some(2))).ok().unwrap();
    assert_eq!(total, 3);
    assert_eq!(items.len(), 2);
    assert_eq!(items[0].id, 1);
    let (items, total) = s.admin_list(&q(Some("zzz"), None, None)).ok().unwrap();
    assert_eq!((items.len(), total), (0, 0));
    assert!(s.admin_list(&q(None, None, Some(-1))).is_err());
    assert_eq!(s.admin_export_csv(&q(Some("kursi"), None, None)).len(), 1);
}

#[test]
fn region_ids_are_looked_up_once_and_names_filled_in() {
    let locs = vec![
        PeminatLocation { auth_id: 8, username: "ani".into(), village_id: Some("v1".into()), district_id: Some("d1".into()) },
        PeminatLocation { auth_id: 9, username: "budi".into(), village_id: Some("v1".into()), district_id: None },
    ];
    assert_eq!(unique_region_ids(&locs), vec!["v1".to_string(), "d1".to_string()]);
    let mut s = svc();
    let id = buat_iklan(&mut s, 7, 1, 100);
    s.ambil(8, id, 10, 101).ok().unwrap();
    s.ambil(5, id, 11, 102).ok().unwrap();
    let basic = s.list_bider(7, id).ok().unwrap();
    let names = vec![RegionName { id: "v1".into(), name: "Cibubur".into() }];
    let full = enrich_biders(basic, &locs, &names);
    let ani = full.iter().find(|b| b.peminat_id == 8).unwrap();
    assert_eq!(ani.peminat_nama.as_deref(), Some("ani"));
    assert_eq!(ani.kelurahan.as_deref(), Some("Cibubur"));
    assert_eq!(ani.kecamatan, None);
    let other = full.iter().find(|b| b.peminat_id == 5).unwrap();
    assert_eq!(other.peminat_nama, None);
}

#[test]
fn in_process_client_answers_for_giveaway_ads() {
    let mut s = svc();
    let id = buat_iklan(&mut s, 7, 1, 100);
    let summary = client::get_summary(&s.repo, id).ok().unwrap();
    assert_eq!((summary.judul.as_str(), summary.harga), ("Kursi", 0));
    assert!(client::exists_id(&s.repo, id));
    assert!(!client::exists_id(&s.repo, 2));
    assert!(client::suspend(&mut s.repo, id, true, "Penipuan", None, 50, 200).is_ok());
    assert!(client::suspend(&mut s.repo, 2, true, "Penipuan", None, 50, 200).is_err());
    assert_eq!(client::get_summary(&s.repo, 2).err().unwrap().to_string(), "iklan barang bekas not found");
}

fn jenis_edit(jenis: Option<&str>, region: Option<&str>) -> UpdateBarangBekasInput {
    UpdateBarangBekasInput {
        judul: None,
        deskripsi: None,
        jenis_barang: jenis.map(|j| j.to_string()),
        jumlah: None,
        lokasi_pengambilan: None,
        lokasi: None,
        region_id: region.map(|r| r.to_string()),
        foto_urls: None,
        is_active: None,
    }
}

#[test]
fn update_refuses_an_unknown_jenis_barang() {
    let mut s = svc();
    let id = buat_iklan(&mut s, 7, 1, 100);
    let r = s.update(7, id, jenis_edit(Some("rusak"), None), 101, true, RegionCheck::NotRequested);
    assert!(matches!(r.err().unwrap(), BarangBekasError::InvalidJenisBarang(j) if j == "rusak"));
    let r = s.update(7, id, jenis_edit(Some("baru"), None), 101, true, RegionCheck::NotRequested).ok().unwrap();
    assert_eq!(r.jenis_barang, "baru");
}

#[test]
fn region_is_asked_only_when_the_checks_get_that_far() {
    let mut s = svc();
    let mut i = input("A", "bekas");
    i.region_id = Some("32.73".into());
    assert!(s.create_needs_region_check(7, &i, 100, true));
    assert!(!s.create_needs_region_check(7, &i, 100, false));
    let mut bad = input("A", "rusak");
    bad.region_id = Some("32.73".into());
    assert!(!s.create_needs_region_check(7, &bad, 100, true));
    assert!(!s.create_needs_region_check(7, &input("A", "bekas"), 100, true));
    let id = buat_iklan(&mut s, 7, 1, 100);
    assert!(s.update_needs_region_check(7, id, &jenis_edit(None, Some("31")), true));
    assert!(!s.update_needs_region_check(8, id, &jenis_edit(None, Some("31")), true));
    assert!(!s.update_needs_region_check(7, id, &jenis_edit(None, None), true));
    s.mark_taken(id, 7, 101);
    assert!(!s.update_needs_region_check(7, id, &jenis_edit(None, Some("31")), true));
}
