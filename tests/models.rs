use podela::config::{checkbox_ticked, Credentials, DbCredentials, DbQuery};
use podela::content::{page_limit, Comment, CommentParentKind, Karma, LegalForm, Organization, Website};
use podela::docker::{next_ready_delay, Docker};
use podela::session::User;

#[test]
fn karma_starts_at_zero() {
    let k = Karma::new();
    assert_eq!(k, Karma { amount: 0, reviews: 0, age: 0, popularity: 0 });
}

#[test]
fn legal_form_names() {
    assert_eq!(LegalForm::Sro.name(), "Společnost s ručením omezením");
    assert_eq!(LegalForm::As.name(), "Akciová společnost");
    assert_eq!(LegalForm::Vos.name(), "Veřejná obchodní společnost");
    assert_eq!(LegalForm::Spolek.name(), "Zapsaný spolek");
    assert_eq!(LegalForm::Nadace.name(), "Nadace");
    assert_eq!(LegalForm::Druzstvo.name(), "Družstvo");
}

#[test]
fn comment_parents_map_to_fixed_tables() {
    assert_eq!(CommentParentKind::parse("website"), Some(CommentParentKind::Website));
    assert_eq!(CommentParentKind::parse("user"), Some(CommentParentKind::User));
    assert_eq!(CommentParentKind::parse("user; DROP TABLE x"), None);
    assert_eq!(CommentParentKind::parse(""), None);
    assert_eq!(CommentParentKind::Website.table(), "comment.website");
    assert_eq!(CommentParentKind::User.table(), "comment.user");
    assert_eq!(CommentParentKind::User.name(), "user");
}

#[test]
fn page_size_is_capped() {
    assert_eq!(page_limit(5), 5);
    assert_eq!(page_limit(20), 20);
    assert_eq!(page_limit(500), 20);
    let q = DbQuery { limit: None, offset: None };
    assert_eq!(q.limit_or_default(), 10);
    assert_eq!(q.offset_or_default(), 0);
    let q = DbQuery { limit: Some(3), offset: Some(9) };
    assert_eq!(q.limit_or_default(), 3);
    assert_eq!(q.offset_or_default(), 9);
}

#[test]
fn checkbox_presence_counts() {
    assert!(checkbox_ticked(&Some("on".to_string())));
    assert!(checkbox_ticked(&Some("".to_string())));
    assert!(!checkbox_ticked(&None));
    let c = Credentials::from_form(Some("false".to_string()), "u".to_string(), "p".to_string(), None);
    assert!(c.authentication);
    let c = Credentials::from_form(None, "u".to_string(), "p".to_string(), Some("/".to_string()));
    assert!(!c.authentication);
    assert_eq!(c.next.as_deref(), Some("/"));
}

#[test]
fn default_database_is_local() {
    let d = DbCredentials::default();
    assert_eq!(d.host, "localhost");
    assert_eq!(d.port, 5432);
    assert_eq!(d.username, "username");
    assert_eq!(d.password, "password");
    assert_eq!(d.name, "development_db");
}

#[test]
fn websites_and_organizations() {
    let org = Organization::new("ACME".to_string(), LegalForm::As, None);
    assert_eq!(org.id.len(), 26);
    assert_eq!(org.created_at, org.updated_at);
    let w = Website::new("test2".to_string(), "google.com".to_string(), Some("Short".to_string()), None);
    assert_eq!(w.id.len(), 26);
    assert_eq!(w.karma, Karma::new());
    assert!(w.organization.is_none());
    let id = w.id.clone();
    let w = w.with_organization(org);
    assert_eq!(w.id, id);
    assert_eq!(w.organization.unwrap().name, "ACME");
}

#[test]
fn comments_get_fresh_ids() {
    let u = User {
        id: "u1".to_string(),
        name: "eve".to_string(),
        email: None,
        language: "en-US".to_string(),
        is_admin: false,
        created_at: 0,
        password_hash: String::new(),
    };
    let a = Comment::new(CommentParentKind::Website, "w1".to_string(), "nice".to_string(), u.clone());
    let b = Comment::new(CommentParentKind::Website, "w1".to_string(), "nice".to_string(), u);
    assert_ne!(a.id, b.id);
    assert_eq!(a.text, "nice");
    assert_eq!(a.parent_type, CommentParentKind::Website);
}

#[test]
fn readiness_backoff_doubles_then_gives_up() {
    assert_eq!(next_ready_delay(0), Some(100));
    assert_eq!(next_ready_delay(1), Some(200));
    assert_eq!(next_ready_delay(10), Some(102_400));
    assert_eq!(next_ready_delay(57), Some(100 * (1u64 << 57)));
    assert_eq!(next_ready_delay(58), Some(u64::MAX));
    assert_eq!(next_ready_delay(59), Some(u64::MAX));
    assert_eq!(next_ready_delay(60), None);
    assert_eq!(next_ready_delay(u32::MAX), None);
}

#[test]
fn docker_container_defaults_to_postgres() {
    let d = Docker::new("podela_me_dev_postgres");
    assert_eq!(d.get_name(), "podela_me_dev_postgres");
    assert_eq!(d.get_image(), "postgres:15");
}
