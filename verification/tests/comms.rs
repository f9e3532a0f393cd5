use rejki::clients::ArticleCategory;
use rejki::comms::dto::{ArticleListQuery, CreateArticleInput, UpdateArticleInput};
use rejki::comms::repository::ArticleStore;
use rejki::comms::service::{broadcast_body, page_meta, CorporateCommsService, PageMeta};

fn svc() -> CorporateCommsService {
    CorporateCommsService::new(ArticleStore::new())
}

fn article(title: &str) -> CreateArticleInput {
    CreateArticleInput { title: title.into(), body: "Isi".into(), category: ArticleCategory::Informasi }
}

#[test]
fn test_article_category_default_is_informasi() {
    assert_eq!(ArticleCategory::default(), ArticleCategory::Informasi);
}

#[test]
fn test_article_category_as_str() {
    assert_eq!(ArticleCategory::Informasi.as_str(), "informasi");
}

#[test]
fn test_article_category_parse_valid() {
    assert_eq!(ArticleCategory::parse("informasi"), Some(ArticleCategory::Informasi));
}

#[test]
fn test_article_category_parse_invalid() {
    assert_eq!(ArticleCategory::parse("invalid"), None);
}

#[test]
fn test_admin_create_given_html_when_create_then_strips_html() {
    let mut s = svc();
    let input = CreateArticleInput {
        title: "<b>Breaking News</b>".into(),
        body: "<script>alert('xss')</script>Body content".into(),
        category: ArticleCategory::Informasi,
    };
    let article = s.admin_create(1, &input, 10, 100, true).ok().unwrap();
    assert!(!article.title.contains('<'));
    assert!(!article.body.contains('<'));
}

#[test]
fn created_article_has_sanitized_text_and_no_photo() {
    let mut s = svc();
    let a = s.admin_create(1, &CreateArticleInput { title: "<h1>Judul</h1>".into(), body: "<script>x</script>".into(), category: ArticleCategory::Informasi }, 10, 100, true).ok().unwrap();
    assert_eq!(a.title, "&lt;h1&gt;Judul&lt;&#47;h1&gt;");
    assert!(!a.body.contains('<'));
    assert_eq!(a.photo_object_key, None);
}

#[test]
fn test_admin_get_given_nonexistent_id_when_get_then_returns_error() {
    let s = svc();
    assert_eq!(s.admin_get(5).err().unwrap().to_string(), "artikel tidak ditemukan");
}

#[test]
fn test_admin_update_given_existing_article_when_update_then_succeeds() {
    let mut s = svc();
    let created = s.admin_create(42, &basic_create_input(), 10, 100, true).ok().unwrap();
    let input = UpdateArticleInput {
        title: "Judul Baru".into(),
        body: "Body baru".into(),
        category: ArticleCategory::Informasi,
        photo_object_key: None,
    };
    let updated = s.admin_update(created.id, &input, 101).ok().unwrap();
    assert!(updated.title.contains("Judul"));
    assert!(updated.title.contains("Baru"));
    assert!(updated.body.contains("Body"));
}

#[test]
fn update_keeps_the_photo_when_none_is_given() {
    let mut s = svc();
    s.admin_create(1, &article("Lama"), 10, 100, true).ok().unwrap();
    let with_photo = UpdateArticleInput { title: "Baru".into(), body: "Isi".into(), category: ArticleCategory::Informasi, photo_object_key: Some("foto-1".into()) };
    assert_eq!(s.admin_update(10, &with_photo, 101).ok().unwrap().photo_object_key.as_deref(), Some("foto-1"));
    let keep = UpdateArticleInput { title: "Lagi".into(), body: "Isi".into(), category: ArticleCategory::Informasi, photo_object_key: None };
    let a = s.admin_update(10, &keep, 102).ok().unwrap();
    assert_eq!(a.title, "Lagi");
    assert_eq!(a.photo_object_key.as_deref(), Some("foto-1"));
    assert_eq!(a.created_at, 100);
    assert_eq!(a.updated_at, 102);
}

#[test]
fn test_admin_update_given_nonexistent_id_when_update_then_returns_error() {
    let mut s = svc();
    let keep = UpdateArticleInput { title: "X".into(), body: "Y".into(), category: ArticleCategory::Informasi, photo_object_key: None };
    assert!(s.admin_update(10, &keep, 102).is_err());
}

#[test]
fn test_admin_delete_given_existing_article_when_delete_then_returns_true() {
    let mut s = svc();
    s.admin_create(1, &article("A"), 10, 100, true).ok().unwrap();
    assert!(s.admin_delete(10, 101));
    assert!(!s.admin_delete(10, 102));
    let keep = UpdateArticleInput { title: "X".into(), body: "Y".into(), category: ArticleCategory::Informasi, photo_object_key: None };
    assert!(s.admin_update(10, &keep, 103).is_err());
    assert!(s.admin_get(10).is_err());
    assert!(!s.repo.article_exists(10));
}

#[test]
fn test_admin_delete_given_nonexistent_id_when_delete_then_returns_false() {
    let mut s = svc();
    assert!(!s.admin_delete(10, 101));
}

#[test]
fn test_admin_list_given_articles_when_list_then_returns_all() {
    let mut s = svc();
    s.admin_create(42, &basic_create_input(), 10, 100, true).ok().unwrap();
    let second = CreateArticleInput { title: "Artikel Kedua".into(), body: "Isi kedua".into(), category: ArticleCategory::Informasi };
    s.admin_create(42, &second, 11, 200, true).ok().unwrap();
    let q = ArticleListQuery { q: None, category: None, sort_dir: None, limit: Some(10), offset: Some(0) };
    let (items, total) = s.admin_list(&q).ok().unwrap();
    assert!(total >= 2);
    assert!(items.len() >= 2);
}

#[test]
fn admin_list_filters_by_search_category_and_deletion() {
    let mut s = svc();
    s.admin_create(1, &article("Rapat Umum"), 10, 100, true).ok().unwrap();
    s.admin_create(1, &article("Libur Nasional"), 11, 200, true).ok().unwrap();
    s.admin_create(1, &article("Rapat Direksi"), 12, 300, true).ok().unwrap();
    s.admin_delete(12, 301);
    let q = |q: Option<&str>, limit: Option<i64>, offset: Option<i64>, cat: Option<&str>| ArticleListQuery {
        q: q.map(|x| x.to_string()),
        category: cat.map(|x| x.to_string()),
        sort_dir: None,
        limit,
        offset,
    };
    let (items, total) = s.admin_list(&q(None, None, None, None)).ok().unwrap();
    assert_eq!(total, 2);
    assert_eq!(items[0].id, 11);
    let (items, total) = s.admin_list(&q(Some("rapat"), None, None, None)).ok().unwrap();
    assert_eq!((items.len(), total), (1, 1));
    let (items, total) = s.admin_list(&q(Some("   "), Some(1), Some(5), Some("lainnya"))).ok().unwrap();
    assert_eq!((items.len(), total), (0, 2));
    assert_eq!(s.admin_list(&q(None, None, None, Some("informasi"))).ok().unwrap().1, 2);
}

#[test]
fn rate_limit_refuses_new_articles() {
    let mut s = svc();
    let e = s.admin_create(1, &article("A"), 10, 100, false).err().unwrap();
    assert_eq!(e.to_string(), "terlalu banyak permintaan, coba lagi nanti");
}

#[test]
fn page_meta_follows_offset_and_limit() {
    assert_eq!(page_meta(20, 0), PageMeta { page: 1, per_page: 20 });
    assert_eq!(page_meta(20, 45), PageMeta { page: 3, per_page: 20 });
    assert_eq!(page_meta(0, 45), PageMeta { page: 1, per_page: 1 });
    assert_eq!(page_meta(-3, 45), PageMeta { page: 1, per_page: 1 });
}

#[test]
fn broadcast_text_names_action_and_title() {
    assert_eq!(broadcast_body("baru", "Libur"), "Artikel baru: Libur");
}

fn basic_create_input() -> CreateArticleInput {
    CreateArticleInput {
        title: "Pengumuman Penting".into(),
        body: "Isi pengumuman untuk seluruh pengguna.".into(),
        category: ArticleCategory::Informasi,
    }
}

#[test]
fn test_admin_create_given_valid_input_when_create_then_succeeds() {
    let mut s = svc();
    let article = s.admin_create(42, &basic_create_input(), 10, 100, true).ok().unwrap();
    assert!(article.title.contains("Pengumuman"));
    assert_eq!(article.author_id, 42);
    assert_eq!(article.category, ArticleCategory::Informasi);
}

#[test]
fn test_admin_get_given_valid_id_when_get_then_returns_article() {
    let mut s = svc();
    let created = s.admin_create(42, &basic_create_input(), 10, 100, true).ok().unwrap();
    let got = s.admin_get(created.id).ok().unwrap();
    assert!(got.title.contains("Pengumuman"));
    assert_eq!(got.author_id, 42);
}
