//! The API the page-templating layer calls while converting authored
//! markup into HTML: anchor slugs, redirect-aware page lookup, path-segment
//! encoding, and link rendering with a placeholder fallback.

use vstd::prelude::*;
use vstd::string::StringSliceAdditionalSpecFns;
use crate::anchor;
use crate::error::DocError;
use crate::l10n::L10nCatalog;
use crate::links;
use crate::locale::{resolve_locale, spec_resolve_locale, Locale};
use crate::pages::{Page, PageStore, StoreOutcome};
use crate::percent;
use crate::redirects::{resolve_redirect, RedirectMap};
use crate::settings::Settings;

verus! {

/// Whether locating `url` must fail under strict mode: the build denies
/// warnings and the redirect map has a canonical replacement for `url`.
pub open spec fn spec_strict_redirect(
    settings: Settings,
    redirects: RedirectMap,
    url: Seq<char>,
) -> bool {
    settings.deny_warnings && redirects.spec_resolve(url) is Some
}

/// The URL the page store is asked for: the redirect destination when one
/// exists, else `url` unchanged.
pub open spec fn spec_target_url(redirects: RedirectMap, url: Seq<char>) -> Seq<char> {
    match redirects.spec_resolve(url) {
        Some(to) => to,
        None => url,
    }
}

/// The display content of a link: the caller's override when given, else
/// the raw reference string.
pub open spec fn spec_link_content(reference: Seq<char>, content: Option<&str>) -> Seq<char> {
    match content {
        Some(c) => c@,
        None => reference,
    }
}

/// The title of a rendered link: the caller's override when given, else
/// the resolved page's title.
pub open spec fn spec_link_title(page: Page, title: Option<&str>) -> Seq<char> {
    match title {
        Some(t) => t@,
        None => page.title@,
    }
}

/// The API surface the templating layer calls.
pub struct RariApi {}

impl RariApi {
    /// Converts heading text into an anchor slug: lowercase, spaces to
    /// underscores, rejected characters stripped, with the sentinel
    /// `sect1` replacing an empty result. Never returns an empty string,
    /// and leaves an already-clean slug unchanged.
    pub fn anchorize(content: &str) -> (r: String)
        ensures
            r@ == anchor::slug_of(anchor::lower_of(content@)),
            r@.len() > 0,
            (forall|i: int|
                0 <= i < content@.len() ==> anchor::is_ascii_non_uppercase(
                    #[trigger] content@[i],
                )) ==> r@ == anchor::slug_of(content@),
    {
        anchor::anchorize(content)
    }

    /// The base URL live samples are served from, read from the process
    /// configuration.
    pub fn live_sample_base_url(settings: &Settings) -> (r: &str)
        ensures
            r@ == settings.live_samples_base_url@,
    {
        settings.live_samples_base_url.as_str()
    }

    /// The base URL interactive examples are served from, read from the
    /// process configuration.
    pub fn interactive_examples_base_url(settings: &Settings) -> (r: &str)
        ensures
            r@ == settings.interactive_examples_base_url@,
    {
        settings.interactive_examples_base_url.as_str()
    }

    /// Percent-encodes a URL path segment using the fixed path-segment
    /// reserved-character set. Always succeeds.
    pub fn decode_uri_component(component: &str) -> (r: String)
        ensures
            r@ == percent::path_segment_encoded(component.spec_bytes()),
    {
        percent::encode_path_segment(component)
    }

    /// Resolves a URL path to a page, applying redirect policy: under
    /// strict mode a present redirect fails with `RedirectedLink`
    /// carrying the original path and the map's destination; otherwise
    /// the redirect destination, or the unchanged path, is loaded from
    /// the page store, whose failures are distinguished into I/O and
    /// page-not-found.
    pub fn get_page(
        url: &str,
        settings: &Settings,
        redirects: &RedirectMap,
        store: &PageStore,
    ) -> (r: Result<Page, DocError>)
        ensures
            spec_strict_redirect(*settings, *redirects, url@) ==> match r {
                Err(DocError::RedirectedLink { from, to }) => from@ == url@ && Some(to@)
                    == redirects.spec_resolve(url@),
                _ => false,
            },
            !spec_strict_redirect(*settings, *redirects, url@) ==> match store.spec_load(
                spec_target_url(*redirects, url@),
            ) {
                StoreOutcome::Found(page) => r == Ok::<Page, DocError>(page),
                StoreOutcome::IoFail => r == Err::<Page, DocError>(DocError::IOError),
                StoreOutcome::Missing => r == Err::<Page, DocError>(DocError::PageNotFound),
            },
    {
        let redirect = resolve_redirect(redirects, url);
        let outcome = match redirect {
            Some(to) => {
                if settings.deny_warnings {
                    return Err(DocError::RedirectedLink { from: url.to_owned(), to });
                }
                store.load(to.as_str())
            },
            None => store.load(url),
        };
        match outcome {
            StoreOutcome::Found(page) => Ok(page),
            StoreOutcome::IoFail => Err(DocError::IOError),
            StoreOutcome::Missing => Err(DocError::PageNotFound),
        }
    }

    /// Renders the anchor markup for a cross-document reference.
    ///
    /// A reference whose page resolves is rendered as a full anchor. A
    /// strict-mode redirect violation and an I/O failure of the page store
    /// are propagated unchanged — the former is a build-quality violation,
    /// the latter an infrastructure fault. A missing page is recovered
    /// locally into placeholder markup titled with the localized summary
    /// string for the resolved locale, so a broken reference never aborts
    /// the build.
    pub fn link(
        link: &str,
        locale: Option<Locale>,
        content: Option<&str>,
        code: bool,
        title: Option<&str>,
        with_badge: bool,
        settings: &Settings,
        redirects: &RedirectMap,
        store: &PageStore,
        catalog: &L10nCatalog,
    ) -> (r: Result<String, DocError>)
        ensures
            spec_strict_redirect(*settings, *redirects, link@) ==> match r {
                Err(DocError::RedirectedLink { from, to }) => from@ == link@ && Some(to@)
                    == redirects.spec_resolve(link@),
                _ => false,
            },
            !spec_strict_redirect(*settings, *redirects, link@) ==> match store.spec_load(
                spec_target_url(*redirects, link@),
            ) {
                StoreOutcome::Found(page) => match r {
                    Ok(out) => out@ == links::page_markup(
                        page.url@,
                        spec_link_title(page, title),
                        spec_link_content(link@, content),
                        code,
                        with_badge,
                    ),
                    Err(_) => false,
                },
                StoreOutcome::IoFail => r == Err::<String, DocError>(DocError::IOError),
                StoreOutcome::Missing => match r {
                    Ok(out) => out@ == links::placeholder_markup(
                        catalog.spec_summary_or_empty(spec_resolve_locale(locale)),
                        spec_link_content(link@, content),
                        code,
                    ),
                    Err(_) => false,
                },
            },
    {
        match Self::get_page(link, settings, redirects, store) {
            Ok(page) => {
                let title_attr: &str = match title {
                    Some(t) => t,
                    None => page.title.as_str(),
                };
                let content_text: &str = match content {
                    Some(c) => c,
                    None => link,
                };
                Ok(links::render_page_link(&page, title_attr, content_text, code, with_badge))
            },
            Err(DocError::RedirectedLink { from, to }) => Err(
                DocError::RedirectedLink { from, to },
            ),
            Err(DocError::IOError) => Err(DocError::IOError),
            Err(DocError::PageNotFound) => {
                let resolved = resolve_locale(locale);
                let summary = catalog.summary(resolved);
                let placeholder_title: &str = match summary {
                    Some(s) => s.as_str(),
                    None => "",
                };
                let content_text: &str = match content {
                    Some(c) => c,
                    None => link,
                };
                proof {
                    reveal_strlit("");
                    assert(""@ =~= Seq::<char>::empty());
                }
                Ok(links::render_placeholder(placeholder_title, content_text, code))
            },
        }
    }
}

} // verus!
