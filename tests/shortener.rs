use url_shortener::ident::{generate_short_id, short_id_from_draws, SHORT_ID_LEN};
use url_shortener::reply::{BodyKind, Reply};
use url_shortener::service::{
    finish_shorten, fold_lookup, plan_shorten, plan_shorten_with_id, redirect, redirect_reply,
    shorten, shorten_with_id, StoreError,
};
use url_shortener::table::{LinkTable, ShortLink};

const BASE: &str = "http://localhost:8080";

fn id_from_created(reply: &Reply) -> String {
    match reply {
        Reply::Created { short_url } => {
            let prefix = format!("{}/", BASE);
            assert!(short_url.starts_with(&prefix));
            short_url[prefix.len()..].to_string()
        }
        _ => panic!("expected a created link"),
    }
}

fn is_alnum_id(id: &str) -> bool {
    id.chars().count() == 6 && id.chars().all(|c| c.is_ascii_alphanumeric())
}

#[test]
fn shorten_then_redirect_example() {
    let mut table = LinkTable::new();
    let reply = shorten(&mut table, BASE, "https://example.com/page");
    assert_eq!(reply.status(), 200);
    assert_eq!(reply.body_kind(), BodyKind::Json);
    let id = id_from_created(&reply);
    assert!(is_alnum_id(&id));
    assert_eq!(reply.body(), format!("{{\"shortUrl\":\"{}/{}\"}}", BASE, id));
    let back = redirect(&table, &id);
    assert_eq!(back.status(), 302);
    assert_eq!(back.location(), Some("https://example.com/page".to_string()));
    assert_eq!(back.body(), "");
    assert_eq!(back.body_kind(), BodyKind::Empty);
}

#[test]
fn invalid_url_example() {
    let mut table = LinkTable::new();
    let reply = shorten(&mut table, BASE, "not-a-url");
    assert_eq!(reply.status(), 400);
    assert_eq!(reply.body(), "{\"error\":\"Invalid URL\"}");
    assert_eq!(reply.body_kind(), BodyKind::Json);
    assert_eq!(reply.location(), None);
    assert_eq!(table.len(), 0);
}

#[test]
fn unknown_id_example() {
    let table = LinkTable::new();
    let reply = redirect(&table, "doesnotexist");
    assert_eq!(reply.status(), 404);
    assert_eq!(reply.body(), "URL not found");
    assert_eq!(reply.body_kind(), BodyKind::PlainText);
    assert_eq!(reply.location(), None);
}

#[test]
fn round_trip_keeps_url_exactly() {
    let urls = [
        "https://example.com/page",
        "http://a.b/c?d=e#f",
        "file:///etc/hosts",
        "javascript:alert(1)",
        "https://example.com/%7Euser/ path",
        "HTTPS://EXAMPLE.COM",
    ];
    let mut table = LinkTable::new();
    for u in urls.iter() {
        let reply = shorten(&mut table, BASE, u);
        let id = id_from_created(&reply);
        let back = redirect(&table, &id);
        assert_eq!(back.status(), 302);
        assert_eq!(back.location(), Some(u.to_string()));
    }
    assert_eq!(table.len(), urls.len());
}

#[test]
fn malformed_urls_rejected_without_write() {
    let mut table = LinkTable::new();
    shorten(&mut table, BASE, "https://example.com/page");
    for s in ["not a url", "not-a-url", "", "/relative/path", "example.com", "http://"].iter() {
        let reply = shorten(&mut table, BASE, s);
        assert_eq!(reply.status(), 400);
        assert_eq!(reply.body(), "{\"error\":\"Invalid URL\"}");
        assert_eq!(table.len(), 1);
    }
}

#[test]
fn ids_never_issued_are_not_found() {
    let mut table = LinkTable::new();
    let reply = shorten(&mut table, BASE, "https://example.com/");
    let id = id_from_created(&reply);
    for other in ["", "abc", "ABCDEFG", "abc-12", "doesnotexist"].iter() {
        assert_eq!(redirect(&table, other).status(), 404);
    }
    let mut other = id.clone();
    other.push('x');
    assert_eq!(redirect(&table, &other).status(), 404);
    assert_eq!(redirect(&table, &id[..5]).status(), 404);
}

#[test]
fn repeated_shorten_makes_two_rows() {
    let mut table = LinkTable::new();
    let first = shorten(&mut table, BASE, "https://example.com/same");
    let second = shorten(&mut table, BASE, "https://example.com/same");
    let id1 = id_from_created(&first);
    let id2 = id_from_created(&second);
    assert_ne!(id1, id2);
    assert_eq!(table.len(), 2);
    assert_eq!(table.lookup(&id1), Some("https://example.com/same".to_string()));
    assert_eq!(table.lookup(&id2), Some("https://example.com/same".to_string()));
}

#[test]
fn generated_ids_are_six_alphanumerics() {
    let mut seen = std::collections::HashSet::new();
    let mut chars = std::collections::HashSet::new();
    for _ in 0..20000 {
        let id = generate_short_id();
        assert_eq!(id.len(), SHORT_ID_LEN);
        assert!(is_alnum_id(&id));
        chars.extend(id.chars());
        seen.insert(id);
    }
    assert_eq!(chars.len(), 62);
    assert!(seen.len() > 19990);
}

#[test]
fn taken_id_gives_server_error() {
    let mut table = LinkTable::new();
    let first = shorten_with_id(&mut table, BASE, "https://a.example/", "abc123".to_string());
    assert_eq!(first.status(), 200);
    assert_eq!(first.body(), "{\"shortUrl\":\"http://localhost:8080/abc123\"}");
    let second = shorten_with_id(&mut table, BASE, "https://b.example/", "abc123".to_string());
    assert_eq!(second.status(), 500);
    assert_eq!(second.body(), "{\"error\":\"Failed to shorten URL\"}");
    assert_eq!(second.body_kind(), BodyKind::Json);
    assert_eq!(table.len(), 1);
    assert_eq!(table.lookup("abc123"), Some("https://a.example/".to_string()));
}

#[test]
fn shorten_with_id_rejects_invalid_url() {
    let mut table = LinkTable::new();
    let reply = shorten_with_id(&mut table, BASE, "nope", "abc123".to_string());
    assert_eq!(reply.status(), 400);
    assert_eq!(table.len(), 0);
}

#[test]
fn created_body_is_json_escaped() {
    let link = ShortLink { id: "Zz9aB0".to_string(), url: "https://x.example/".to_string() };
    let reply = finish_shorten("http://h/\"q\"", &link, true);
    assert_eq!(reply.body(), "{\"shortUrl\":\"http://h/\\\"q\\\"/Zz9aB0\"}");
    let failed = finish_shorten(BASE, &link, false);
    assert_eq!(failed.status(), 500);
}

#[test]
fn plan_shorten_checks_then_draws() {
    match plan_shorten("https://example.com/page") {
        Ok(link) => {
            assert!(is_alnum_id(&link.id));
            assert_eq!(link.url, "https://example.com/page");
        }
        Err(_) => panic!("a valid URL was refused"),
    }
    match plan_shorten("not-a-url") {
        Ok(_) => panic!("an invalid URL was accepted"),
        Err(reply) => assert_eq!(reply.status(), 400),
    }
    match plan_shorten_with_id("mailto:a@b.c", "q1w2e3".to_string()) {
        Ok(link) => {
            assert_eq!(link.id, "q1w2e3");
            assert_eq!(link.url, "mailto:a@b.c");
        }
        Err(_) => panic!("a valid URL was refused"),
    }
}

#[test]
fn lookup_errors_fold_into_not_found() {
    assert_eq!(fold_lookup(Err(StoreError)), None);
    assert_eq!(fold_lookup(Ok(None)), None);
    assert_eq!(fold_lookup(Ok(Some("https://e.com".to_string()))), Some("https://e.com".to_string()));
    let reply = redirect_reply(fold_lookup(Err(StoreError)));
    assert_eq!(reply.status(), 404);
    let found = redirect_reply(Some("https://e.com".to_string()));
    assert_eq!(found.status(), 302);
    assert_eq!(found.location(), Some("https://e.com".to_string()));
}

#[test]
fn table_insert_refuses_taken_id() {
    let mut table = LinkTable::new();
    assert!(table.insert("a", "u1"));
    assert!(table.insert("b", "u2"));
    assert!(!table.insert("a", "u3"));
    assert_eq!(table.len(), 2);
    assert_eq!(table.lookup("a"), Some("u1".to_string()));
    assert_eq!(table.lookup("b"), Some("u2".to_string()));
    assert_eq!(table.lookup("c"), None);
}

#[test]
fn draws_spell_the_identifier_in_order() {
    assert_eq!(short_id_from_draws(&b"Ab3xY9".to_vec()), "Ab3xY9");
    assert_eq!(short_id_from_draws(&b"000000".to_vec()), "000000");
    assert_eq!(short_id_from_draws(&Vec::new()), "");
    assert_eq!(short_id_from_draws(&vec![b'-', b'z']), "-z");
}

#[test]
fn created_body_escapes_controls() {
    let link = ShortLink { id: "abc123".to_string(), url: "https://x.example/".to_string() };
    let reply = finish_shorten("h\\\n\t\u{1}\u{8}\u{c}\r\u{1f}\u{7f}\u{e9}", &link, true);
    assert_eq!(
        reply.body(),
        "{\"shortUrl\":\"h\\\\\\n\\t\\u0001\\b\\f\\r\\u001f\u{7f}\u{e9}/abc123\"}"
    );
}
