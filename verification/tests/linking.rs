use rari_doc::api::RariApi;
use rari_doc::error::DocError;
use rari_doc::l10n::{L10nCatalog, L10nEntry};
use rari_doc::locale::Locale;
use rari_doc::pages::{Page, PageStore, StoreEntry, StoreOutcome};
use rari_doc::redirects::{Redirect, RedirectMap};
use rari_doc::settings::Settings;

fn settings(deny_warnings: bool) -> Settings {
    Settings {
        live_samples_base_url: String::from("https://live.example.net"),
        interactive_examples_base_url: String::from("https://interactive.example.net"),
        deny_warnings,
    }
}

fn redirects() -> RedirectMap {
    RedirectMap {
        entries: vec![Redirect {
            from: String::from("/en-US/docs/Old"),
            to: String::from("/en-US/docs/New"),
        }],
    }
}

fn store() -> PageStore {
    PageStore {
        entries: vec![
            StoreEntry {
                url: String::from("/en-US/docs/New"),
                outcome: StoreOutcome::Found(Page {
                    url: String::from("/en-US/docs/New"),
                    title: String::from("The New Page"),
                }),
            },
            StoreEntry {
                url: String::from("/en-US/docs/Broken"),
                outcome: StoreOutcome::IoFail,
            },
        ],
    }
}

fn catalog() -> L10nCatalog {
    L10nCatalog {
        entries: vec![
            L10nEntry {
                locale: Locale::EnUs,
                summary: String::from("Summary"),
            },
            L10nEntry {
                locale: Locale::Fr,
                summary: String::from("Résumé"),
            },
        ],
    }
}

#[test]
fn base_urls_read_from_settings() {
    let s = settings(false);
    assert_eq!(RariApi::live_sample_base_url(&s), "https://live.example.net");
    assert_eq!(
        RariApi::interactive_examples_base_url(&s),
        "https://interactive.example.net"
    );
}

#[test]
fn strict_mode_redirect_is_a_hard_error() {
    let r = RariApi::get_page("/en-US/docs/Old", &settings(true), &redirects(), &store());
    match r {
        Err(DocError::RedirectedLink { from, to }) => {
            assert_eq!(from, "/en-US/docs/Old");
            assert_eq!(to, "/en-US/docs/New");
        }
        other => panic!("expected RedirectedLink, got {:?}", other),
    }
}

#[test]
fn lenient_mode_follows_the_redirect() {
    let page = RariApi::get_page("/en-US/docs/Old", &settings(false), &redirects(), &store())
        .expect("redirect destination exists");
    assert_eq!(page.url, "/en-US/docs/New");
    assert_eq!(page.title, "The New Page");
}

#[test]
fn canonical_url_loads_directly() {
    let page = RariApi::get_page("/en-US/docs/New", &settings(true), &redirects(), &store())
        .expect("page exists and no redirect applies");
    assert_eq!(page.url, "/en-US/docs/New");
}

#[test]
fn missing_page_is_page_not_found() {
    let r = RariApi::get_page("/en-US/docs/Nowhere", &settings(false), &redirects(), &store());
    assert!(matches!(r, Err(DocError::PageNotFound)));
}

#[test]
fn store_failure_is_io_error() {
    let r = RariApi::get_page("/en-US/docs/Broken", &settings(false), &redirects(), &store());
    assert!(matches!(r, Err(DocError::IOError)));
}

#[test]
fn first_redirect_entry_wins() {
    let map = RedirectMap {
        entries: vec![
            Redirect {
                from: String::from("/dup"),
                to: String::from("/first"),
            },
            Redirect {
                from: String::from("/dup"),
                to: String::from("/second"),
            },
        ],
    };
    let r = RariApi::get_page("/dup", &settings(true), &map, &store());
    match r {
        Err(DocError::RedirectedLink { to, .. }) => assert_eq!(to, "/first"),
        other => panic!("expected RedirectedLink, got {:?}", other),
    }
}

#[test]
fn resolved_link_renders_full_anchor() {
    let r = RariApi::link(
        "/en-US/docs/New",
        None,
        None,
        false,
        None,
        false,
        &settings(false),
        &redirects(),
        &store(),
        &catalog(),
    )
    .expect("page exists");
    assert_eq!(
        r,
        "<a href=\"/en-US/docs/New\" title=\"The New Page\">/en-US/docs/New</a>"
    );
}

#[test]
fn resolved_link_honors_overrides_code_and_badge() {
    let r = RariApi::link(
        "/en-US/docs/Old",
        None,
        Some("shown"),
        true,
        Some("custom title"),
        true,
        &settings(false),
        &redirects(),
        &store(),
        &catalog(),
    )
    .expect("redirect destination exists");
    assert_eq!(
        r,
        "<a href=\"/en-US/docs/New\" title=\"custom title\"><code>shown</code><span class=\"badge\"></span></a>"
    );
}

#[test]
fn missing_target_with_code_renders_placeholder() {
    let r = RariApi::link(
        "NoSuchRef",
        None,
        None,
        true,
        None,
        false,
        &settings(false),
        &redirects(),
        &store(),
        &catalog(),
    )
    .expect("a missing page is recovered locally");
    assert!(r.contains("class=\"page-not-created\""));
    assert!(r.contains("<code>NoSuchRef</code>"));
    assert_eq!(
        r,
        "<a class=\"page-not-created\" title=\"Summary\"><code>NoSuchRef</code></a>"
    );
}

#[test]
fn io_failure_is_not_recovered() {
    let r = RariApi::link(
        "/en-US/docs/Broken",
        None,
        None,
        false,
        None,
        false,
        &settings(false),
        &redirects(),
        &store(),
        &catalog(),
    );
    assert!(matches!(r, Err(DocError::IOError)));
}

#[test]
fn strict_redirect_is_not_recovered() {
    let r = RariApi::link(
        "/en-US/docs/Old",
        None,
        None,
        false,
        None,
        false,
        &settings(true),
        &redirects(),
        &store(),
        &catalog(),
    );
    match r {
        Err(DocError::RedirectedLink { from, to }) => {
            assert_eq!(from, "/en-US/docs/Old");
            assert_eq!(to, "/en-US/docs/New");
        }
        other => panic!("expected RedirectedLink, got {:?}", other),
    }
}

#[test]
fn placeholder_title_uses_requested_locale() {
    let r = RariApi::link(
        "NoSuchRef",
        Some(Locale::Fr),
        None,
        false,
        None,
        false,
        &settings(false),
        &redirects(),
        &store(),
        &catalog(),
    )
    .expect("a missing page is recovered locally");
    assert_eq!(
        r,
        "<a class=\"page-not-created\" title=\"Résumé\">NoSuchRef</a>"
    );
}

#[test]
fn placeholder_title_defaults_to_default_locale() {
    let r = RariApi::link(
        "NoSuchRef",
        None,
        Some("shown"),
        false,
        None,
        false,
        &settings(false),
        &redirects(),
        &store(),
        &catalog(),
    )
    .expect("a missing page is recovered locally");
    assert_eq!(r, "<a class=\"page-not-created\" title=\"Summary\">shown</a>");
}

#[test]
fn absent_catalog_entry_gives_empty_title() {
    let r = RariApi::link(
        "NoSuchRef",
        Some(Locale::Ja),
        None,
        false,
        None,
        false,
        &settings(false),
        &redirects(),
        &store(),
        &catalog(),
    )
    .expect("a missing page is recovered locally");
    assert_eq!(r, "<a class=\"page-not-created\" title=\"\">NoSuchRef</a>");
}
