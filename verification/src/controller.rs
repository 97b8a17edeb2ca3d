//! The feed-fetch controller: one instance per displayed feed. It
//! resolves the locale to a feed URL, owns the lifecycle of exactly one
//! outstanding fetch, reconciles parse results idempotently, and discards
//! stale completions. Cancellation is by generation token: each issued
//! fetch carries the controller's current token, a locale change bumps
//! the token, and a completion whose token no longer matches is ignored.
//! The caller performs the network work: it takes a `FetchRequest` away,
//! fetches the URL, and hands the body (or the transport failure) back to
//! `on_fetch_complete` together with the request's token.

use vstd::prelude::*;
use crate::events::xml_events_of;
use crate::feed::{Blogs, BlogsV, feed_wf};
use crate::lang::{Language, en_labels, supported_locale, zh_labels};
use crate::parser::{parse_sitemap_to_blog, spec_kind_message, spec_parse};
use crate::text::str_eq;

verus! {

/// The display state of one controller instance.
#[derive(Debug)]
pub enum ControllerState {
    /// A request is outstanding; no data yet.
    Fetching,
    /// The last successful parse.
    Ready(Blogs),
    /// The last fetch or parse failed; the message is display text.
    Failed(String),
}

/// The mathematical value of a controller state.
pub enum ControllerStateV {
    Fetching,
    Ready(BlogsV),
    Failed(Seq<char>),
}

impl View for ControllerState {
    type V = ControllerStateV;

    open spec fn view(&self) -> ControllerStateV {
        match self {
            ControllerState::Fetching => ControllerStateV::Fetching,
            ControllerState::Ready(b) => ControllerStateV::Ready(b@),
            ControllerState::Failed(m) => ControllerStateV::Failed(m@),
        }
    }
}

/// One fetch for the caller to perform: the URL to get, and the token to
/// hand back with the outcome.
#[derive(Debug)]
pub struct FetchRequest {
    pub url: String,
    pub token: u64,
}

/// An unknown locale code, reported at creation or locale change instead
/// of panicking.
#[derive(Debug)]
pub struct ConfigError {
    pub locale: String,
}

/// The feed URL of a supported locale.
pub open spec fn spec_feed_url(code: Seq<char>) -> Seq<char> {
    if code == "en"@ {
        "https://another-s347.github.io/blogs-en/custom_sitemap.xml"@
    } else {
        "http://another-s347.github.io/blogs/custom_sitemap.xml"@
    }
}

/// Per-widget-instance fetch controller.
pub struct Controller {
    language: Language,
    locale: String,
    url: String,
    state: ControllerState,
    token: u64,
}

/// The mathematical value of a controller.
pub struct ControllerV {
    pub locale: Seq<char>,
    pub url: Seq<char>,
    pub state: ControllerStateV,
    pub token: int,
}

impl View for Controller {
    type V = ControllerV;

    closed spec fn view(&self) -> ControllerV {
        ControllerV {
            locale: self.locale@,
            url: self.url@,
            state: self.state@,
            token: self.token as int,
        }
    }
}

/// The reconciliation rule: a parsed feed whose `last_update` equals the
/// adopted one's is discarded with "no state change"; otherwise it is
/// adopted with "state changed".
pub open spec fn spec_apply(st: ControllerStateV, feed: BlogsV) -> (ControllerStateV, bool) {
    match st {
        ControllerStateV::Ready(existing) => if existing.last_update == feed.last_update {
            (st, false)
        } else {
            (ControllerStateV::Ready(feed), true)
        },
        _ => (ControllerStateV::Ready(feed), true),
    }
}

/// What a locale change does: nothing on the same or an unsupported
/// locale; otherwise the URL is re-resolved, the state returns to
/// `Fetching`, and the token is bumped — which is the cancellation of the
/// fetch that is outstanding, if any.
pub open spec fn spec_locale_change(c: ControllerV, new_locale: Seq<char>) -> ControllerV {
    if new_locale == c.locale || !supported_locale(new_locale) {
        c
    } else {
        ControllerV {
            locale: new_locale,
            url: spec_feed_url(new_locale),
            state: ControllerStateV::Fetching,
            token: c.token + 1,
        }
    }
}

/// What the completion of a fetch that parsed to `feed` does: nothing
/// when its token is stale; the reconciliation rule otherwise.
pub open spec fn spec_fetch_complete_parsed(c: ControllerV, token: int, feed: BlogsV) -> (
    ControllerV,
    bool,
) {
    if token != c.token {
        (c, false)
    } else {
        let p = spec_apply(c.state, feed);
        (ControllerV { state: p.0, ..c }, p.1)
    }
}

/// The controller's invariant: the locale is supported, the URL is the
/// locale's, the labels are the locale's, and an adopted feed is
/// well-formed.
pub open spec fn controller_wf(c: Controller) -> bool {
    &&& supported_locale(c@.locale)
    &&& c@.url == spec_feed_url(c@.locale)
    &&& c@.locale == "zh"@ ==> zh_labels(c.spec_language())
    &&& c@.locale == "en"@ ==> en_labels(c.spec_language())
    &&& c@.state matches ControllerStateV::Ready(f) ==> feed_wf(f)
}

fn resolve_feed_url(locale: &str) -> (r: Option<String>)
    ensures
        supported_locale(locale@) ==> (r matches Some(u) && u@ == spec_feed_url(locale@)),
        !supported_locale(locale@) ==> r is None,
{
    proof {
        crate::lang::lemma_locale_codes_distinct();
    }
    if str_eq(locale, "en") {
        Some(String::from_str("https://another-s347.github.io/blogs-en/custom_sitemap.xml"))
    } else if str_eq(locale, "zh") {
        Some(String::from_str("http://another-s347.github.io/blogs/custom_sitemap.xml"))
    } else {
        None
    }
}

impl Controller {
    /// The label table in use, for the display layer.
    pub closed spec fn spec_language(&self) -> Language {
        self.language
    }

    /// Creates a controller for a locale: resolves the feed URL, starts
    /// in `Fetching`, and issues the first fetch with token 0. An
    /// unsupported locale is a `ConfigError`, not a panic.
    pub fn create(locale: &str) -> (r: Result<(Controller, FetchRequest), ConfigError>)
        ensures
            supported_locale(locale@) == (r is Ok),
            r matches Ok((c, req)) ==> {
                &&& controller_wf(c)
                &&& c@.locale == locale@
                &&& c@.url == spec_feed_url(locale@)
                &&& c@.state is Fetching
                &&& c@.token == 0
                &&& req.token == 0
                &&& req.url@ == spec_feed_url(locale@)
            },
            r matches Err(e) ==> e.locale@ == locale@,
    {
        proof {
            crate::lang::lemma_locale_codes_distinct();
        }
        match resolve_feed_url(locale) {
            Some(url) => {
                let language = if str_eq(locale, "zh") {
                    Language::zh()
                } else {
                    Language::en()
                };
                let request_url = url.clone();
                let c = Controller {
                    language,
                    locale: String::from_str(locale),
                    url,
                    state: ControllerState::Fetching,
                    token: 0,
                };
                Ok((c, FetchRequest { url: request_url, token: 0 }))
            }
            None => Err(ConfigError { locale: String::from_str(locale) }),
        }
    }

    /// The display state, a pure read.
    pub fn current_state(&self) -> (r: &ControllerState)
        ensures
            r@ == self@.state,
    {
        &self.state
    }

    /// Changes the locale. The same locale is a no-op reported as "no
    /// state change" (`None`); an unsupported one is a `ConfigError` and
    /// changes nothing; a new supported one cancels the outstanding fetch
    /// by bumping the token, re-resolves the URL, returns the state to
    /// `Fetching`, and issues the new fetch.
    pub fn on_locale_changed(&mut self, new_locale: &str) -> (r: Result<
        Option<FetchRequest>,
        ConfigError,
    >)
        requires
            controller_wf(*old(self)),
            old(self)@.token < u64::MAX,
        ensures
            controller_wf(*final(self)),
            final(self)@ == spec_locale_change(old(self)@, new_locale@),
            new_locale@ == old(self)@.locale ==> {
                &&& *final(self) == *old(self)
                &&& r matches Ok(o) && o is None
            },
            new_locale@ != old(self)@.locale && !supported_locale(new_locale@) ==> {
                &&& *final(self) == *old(self)
                &&& r matches Err(e) && e.locale@ == new_locale@
            },
            new_locale@ != old(self)@.locale && supported_locale(new_locale@) ==> {
                &&& r matches Ok(o) && o matches Some(req) && req.token == final(self)@.token
                    && req.url@ == spec_feed_url(new_locale@)
                &&& final(self)@.token == old(self)@.token + 1
            },
    {
        if str_eq(new_locale, self.locale.as_str()) {
            return Ok(None);
        }
        match resolve_feed_url(new_locale) {
            Some(url) => {
                proof {
                    crate::lang::lemma_locale_codes_distinct();
                }
                self.language = if str_eq(new_locale, "zh") {
                    Language::zh()
                } else {
                    Language::en()
                };
                self.locale = String::from_str(new_locale);
                let request_url = url.clone();
                self.url = url;
                self.state = ControllerState::Fetching;
                self.token = self.token + 1;
                Ok(Some(FetchRequest { url: request_url, token: self.token }))
            }
            None => Err(ConfigError { locale: String::from_str(new_locale) }),
        }
    }

    /// Applies the outcome of the fetch that carries `token`. A stale
    /// token — one superseded by a locale change — changes nothing. For
    /// the current token: a transport failure or a parse failure becomes
    /// `Failed` with the failure's message; a parsed feed goes through
    /// the reconciliation rule. The returned flag says whether the state
    /// changed, so the caller can skip a redraw.
    pub fn on_fetch_complete(&mut self, token: u64, body: Result<String, String>) -> (changed:
        bool)
        requires
            controller_wf(*old(self)),
        ensures
            controller_wf(*final(self)),
            final(self)@.locale == old(self)@.locale,
            final(self)@.url == old(self)@.url,
            final(self)@.token == old(self)@.token,
            final(self).spec_language() == old(self).spec_language(),
            token != old(self)@.token ==> *final(self) == *old(self) && !changed,
            token == old(self)@.token ==> match body {
                Err(m) => final(self)@.state == ControllerStateV::Failed(m@) && changed,
                Ok(s) => {
                    &&& xml_events_of(s@) is None ==> final(self)@.state is Failed && changed
                    &&& xml_events_of(s@) matches Some(evs) ==> match spec_parse(evs) {
                        Ok(f) => (final(self)@, changed) == spec_fetch_complete_parsed(
                            old(self)@,
                            token as int,
                            f,
                        ),
                        Err(k) => final(self)@.state == ControllerStateV::Failed(
                            spec_kind_message(k),
                        ) && changed,
                    }
                },
            },
    {
        if token != self.token {
            return false;
        }
        match body {
            Err(m) => {
                self.state = ControllerState::Failed(m);
                true
            }
            Ok(s) => match parse_sitemap_to_blog(s.as_str()) {
                Err(e) => {
                    proof {
                        crate::parser::lemma_run_no_malformed(
                            crate::events::xml_events_of(s@)->Some_0,
                            0,
                            crate::parser::ParserV::Idle,
                            Seq::empty(),
                        );
                    }
                    self.state = ControllerState::Failed(e.message());
                    true
                }
                Ok(feed) => {
                    match &self.state {
                        ControllerState::Ready(existing) => {
                            if existing.last_update == feed.last_update {
                                return false;
                            }
                        }
                        _ => {}
                    }
                    self.state = ControllerState::Ready(feed);
                    true
                }
            },
        }
    }
}

/// Reconciliation is idempotent: once a feed is adopted, a second
/// completion whose feed shares the same `last_update` leaves the adopted
/// feed unchanged and reports "no state change".
pub proof fn lemma_reconcile_idempotent(st: ControllerStateV, f1: BlogsV, f2: BlogsV)
    requires
        f1.last_update == f2.last_update,
    ensures
        spec_apply(spec_apply(st, f1).0, f2) == (spec_apply(st, f1).0, false),
{
}

/// Cancellation: a locale change supersedes the outstanding fetch, so
/// completing that original fetch — which still carries the old token —
/// changes nothing; only a completion with the new token is applied.
pub proof fn lemma_cancellation(c: ControllerV, new_locale: Seq<char>, f: BlogsV)
    requires
        supported_locale(new_locale),
        new_locale != c.locale,
    ensures
        spec_fetch_complete_parsed(spec_locale_change(c, new_locale), c.token, f) == (
            spec_locale_change(c, new_locale),
            false,
        ),
{
}

} // verus!
