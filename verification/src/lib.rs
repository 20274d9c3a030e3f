//! Cross-document link resolution and anchor slug generation for a
//! documentation build pipeline.
//!
//! The library turns heading text into stable, URL-safe anchor identifiers,
//! resolves page references through a redirect map under a strict-mode
//! policy, and renders anchor markup for resolved pages, degrading to a
//! localized placeholder when a reference points at a page that does not
//! exist yet.

pub mod anchor;
pub mod api;
pub mod error;
pub mod links;
pub mod l10n;
pub mod locale;
pub mod pages;
pub mod percent;
pub mod redirects;
pub mod settings;
mod strbuf;
