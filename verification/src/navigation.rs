//! Where a link goes: into the window, or to the user's browser.
use vstd::prelude::*;
use crate::text::same_text;

verus! {

/// What the shell reads of a URL.
#[derive(Debug, PartialEq, Eq)]
pub struct Url<T> {
    /// The URL itself, in its normal form.
    pub text: T,
    /// The scheme, without the colon.
    pub scheme: T,
    /// The host, if the URL has one.
    pub host: Option<T>,
}

impl View for Url<String> {
    type V = Url<Seq<char>>;

    open spec fn view(&self) -> Url<Seq<char>> {
        Url { text: self.text@, scheme: self.scheme@, host: crate::text::text_of(self.host) }
    }
}

/// Whether `text` begins with `scheme` and a colon.
pub open spec fn has_scheme(text: Seq<char>, scheme: Seq<char>) -> bool {
    &&& text.len() > scheme.len()
    &&& text.take(scheme.len() as int) == scheme
    &&& text[scheme.len() as int] == ':'
}

impl Url<Seq<char>> {
    /// The text begins with the scheme and the first colon.
    pub open spec fn well_formed(self) -> bool {
        &&& has_scheme(self.text, self.scheme)
        &&& !self.scheme.contains(':')
    }

    /// Whether the URL belongs in the user's browser: web pages other than the
    /// application's own, mail and phone links. The application itself is at
    /// `tauri://localhost`, or at `http://tauri.localhost` on Windows; a debug
    /// build is also served from the local machine. Every other scheme is left
    /// to the window.
    pub open spec fn external(self, debug: bool) -> bool {
        if self.scheme == "http"@ || self.scheme == "https"@ {
            &&& self.host != Some("tauri.localhost"@)
            &&& debug ==> self.host != Some("localhost"@) && self.host != Some("127.0.0.1"@)
        } else {
            self.scheme == "mailto"@ || self.scheme == "tel"@
        }
    }
}

/// Whether `scheme` is written as schemes are in the normal form: a letter,
/// then letters, digits, `+`, `-` and `.`, all in lower case.
pub open spec fn plain_scheme(scheme: Seq<char>) -> bool {
    &&& scheme.len() > 0
    &&& 'a' <= scheme[0] <= 'z'
    &&& forall|i: int|
        0 <= i < scheme.len() ==> {
            ||| 'a' <= #[trigger] scheme[i] <= 'z'
            ||| '0' <= scheme[i] <= '9'
            ||| scheme[i] == '+' || scheme[i] == '-' || scheme[i] == '.'
        }
}

impl Url<Seq<char>> {
    /// Whether the URL has the scheme that `input` is written with, where it
    /// is written plainly.
    pub open spec fn keeps_scheme_of(self, input: Seq<char>) -> bool {
        forall|scheme: Seq<char>|
            plain_scheme(scheme) && #[trigger] has_scheme(input, scheme) ==> self.scheme == scheme
    }
}

/// The URL that `input` is read as, if it is one.
pub uninterp spec fn parsed_url(input: Seq<char>) -> Option<Url<Seq<char>>>;

/// The parts of an optional URL.
pub open spec fn url_of(url: Option<Url<String>>) -> Option<Url<Seq<char>>> {
    match url {
        Some(u) => Some(u@),
        None => None,
    }
}

/// Calls `url::Url::parse` and takes the serialization (`as_str`), the scheme
/// (`scheme`) and the host (`host_str`) of the URL. They depend on the input
/// alone. The serialization begins with the scheme and its colon, which occurs
/// in no scheme, and an input that begins with a scheme in lower case keeps it.
/// What else the grammar makes of an input is left to the name.
#[verifier::external_body]
fn parse_url(input: &str) -> (r: Option<Url<String>>)
    ensures
        url_of(r) == parsed_url(input@),
        r is Some ==> r->0@.well_formed(),
        r is Some ==> r->0@.keeps_scheme_of(input@),
{
    match url::Url::parse(input) {
        Ok(u) => Some(
            Url {
                text: u.as_str().to_string(),
                scheme: u.scheme().to_string(),
                host: u.host_str().map(String::from),
            },
        ),
        Err(_) => None,
    }
}

impl Url<String> {
    /// Reads a URL; `None` where `input` is none.
    pub fn parse(input: &str) -> (r: Option<Self>)
        ensures
            url_of(r) == parsed_url(input@),
            r is Some ==> r->0@.well_formed() && r->0@.keeps_scheme_of(input@),
    {
        parse_url(input)
    }

    fn has_host(&self, host: &str) -> (r: bool)
        ensures
            r == (self@.host == Some(host@)),
    {
        match &self.host {
            Some(own) => same_text(own.as_str(), host),
            None => false,
        }
    }
}

/// Whether `url` belongs in the user's browser.
pub fn is_external(url: &Url<String>, debug: bool) -> (r: bool)
    ensures
        r == url@.external(debug),
{
    let scheme: &str = url.scheme.as_str();
    if same_text(scheme, "http") || same_text(scheme, "https") {
        if debug && (url.has_host("localhost") || url.has_host("127.0.0.1")) {
            return false;
        }
        !url.has_host("tauri.localhost")
    } else {
        same_text(scheme, "mailto") || same_text(scheme, "tel")
    }
}

/// What becomes of a navigation, or of a request for a new window.
#[derive(Debug, PartialEq, Eq)]
pub struct Route<T> {
    /// The URL to open in the user's browser, if any.
    pub open: Option<T>,
    /// Whether it goes ahead in the application.
    pub allow: bool,
}

impl View for Route<String> {
    type V = Route<Seq<char>>;

    open spec fn view(&self) -> Route<Seq<char>> {
        Route { open: crate::text::text_of(self.open), allow: self.allow }
    }
}

impl Url<Seq<char>> {
    /// An external URL goes to the browser and nowhere else; any other goes
    /// ahead.
    pub open spec fn routed(self, debug: bool) -> Route<Seq<char>> {
        if self.external(debug) {
            Route { open: Some(self.text), allow: false }
        } else {
            Route { open: None, allow: true }
        }
    }
}

/// Decides about a navigation to `url`, in the window or in a frame of it, or
/// about a new window for it.
pub fn route(url: &Url<String>, debug: bool) -> (r: Route<String>)
    ensures
        r@ == url@.routed(debug),
        r.allow <==> !url@.external(debug),
        url@.external(debug) ==> (r.open matches Some(text) && text@ == url.text@),
        !url@.external(debug) ==> r.open is None,
{
    if is_external(url, debug) {
        Route { open: Some(url.text.clone()), allow: false }
    } else {
        Route { open: None, allow: true }
    }
}

/// In a packaged build the external URLs are exactly the web pages of any host
/// but `tauri.localhost`, and mail and phone links.
pub proof fn law_packaged_build_sends_every_other_host_out(url: Url<Seq<char>>)
    ensures
        url.external(false) <==> {
            ||| (url.scheme == "http"@ || url.scheme == "https"@) && url.host != Some(
                "tauri.localhost"@,
            )
            ||| url.scheme == "mailto"@
            ||| url.scheme == "tel"@
        },
{
    reveal_strlit("http");
    reveal_strlit("https");
    reveal_strlit("mailto");
    reveal_strlit("tel");
    assert("http"@.len() == 4 && "https"@.len() == 5 && "mailto"@.len() == 6 && "tel"@.len() == 3);
}

/// A debug build keeps more to itself than a packaged one, never less, and
/// the difference is the local development server.
pub proof fn law_debug_build_keeps_the_local_server(url: Url<Seq<char>>)
    ensures
        url.external(true) ==> url.external(false),
        url.external(false) && !url.external(true) ==> {
            &&& url.scheme == "http"@ || url.scheme == "https"@
            &&& url.host == Some("localhost"@) || url.host == Some("127.0.0.1"@)
        },
{
}

/// The scheme is what stands before the first colon of the text.
pub proof fn law_text_shows_the_scheme(url: Url<Seq<char>>, scheme: Seq<char>)
    requires
        url.well_formed(),
        has_scheme(url.text, scheme),
        !scheme.contains(':'),
    ensures
        url.scheme == scheme,
{
    let own = url.scheme;
    if own.len() < scheme.len() {
        assert(url.text.take(scheme.len() as int)[own.len() as int] == ':');
        assert(scheme[own.len() as int] == ':');
        assert(false);
    }
    if scheme.len() < own.len() {
        assert(url.text.take(own.len() as int)[scheme.len() as int] == ':');
        assert(own[scheme.len() as int] == ':');
        assert(false);
    }
    assert(own =~= scheme);
}

/// A URL of any scheme but web, mail and phone stays in the window, whatever
/// else it holds: `tauri:`, `about:`, `data:`, `blob:`, `javascript:` and so on.
pub proof fn law_other_schemes_stay(url: Url<Seq<char>>, scheme: Seq<char>, debug: bool)
    requires
        url.well_formed(),
        has_scheme(url.text, scheme),
        !scheme.contains(':'),
        scheme != "http"@,
        scheme != "https"@,
        scheme != "mailto"@,
        scheme != "tel"@,
    ensures
        !url.external(debug),
        url.routed(debug) == (Route::<Seq<char>> { open: None, allow: true }),
{
    law_text_shows_the_scheme(url, scheme);
}

/// A link that is written with any plain scheme but web, mail and phone stays
/// in the window, however it is read.
pub proof fn law_links_of_other_schemes_stay(
    url: Url<Seq<char>>,
    input: Seq<char>,
    scheme: Seq<char>,
    debug: bool,
)
    requires
        url.keeps_scheme_of(input),
        plain_scheme(scheme),
        has_scheme(input, scheme),
        scheme != "http"@,
        scheme != "https"@,
        scheme != "mailto"@,
        scheme != "tel"@,
    ensures
        !url.external(debug),
{
}

/// The application's own pages stay in the window in every build: those of
/// `tauri:`, and those of the host `tauri.localhost`.
pub proof fn law_own_pages_stay(url: Url<Seq<char>>, debug: bool)
    requires
        url.scheme == "tauri"@ || ((url.scheme == "http"@ || url.scheme == "https"@) && url.host
            == Some("tauri.localhost"@)),
    ensures
        !url.external(debug),
{
    reveal_strlit("tauri");
    reveal_strlit("http");
    reveal_strlit("https");
    reveal_strlit("mailto");
    reveal_strlit("tel");
    assert("tauri"@.len() == 5 && "http"@.len() == 4 && "mailto"@.len() == 6 && "tel"@.len() == 3);
    assert("tauri"@[0] == 't' && "https"@[0] == 'h');
}

/// A URL is opened in the browser or goes ahead in the application: one of the
/// two, and never both.
pub proof fn law_one_destination(url: Url<Seq<char>>, debug: bool)
    ensures
        url.routed(debug).allow <==> url.routed(debug).open is None,
        url.routed(debug).open matches Some(text) ==> text == url.text,
{
}

/// In a debug build the external URLs are exactly the web pages of any host
/// but the application's own and the local machine, and mail and phone links.
pub proof fn law_debug_build_sends_every_remote_host_out(url: Url<Seq<char>>)
    ensures
        url.external(true) <==> {
            ||| (url.scheme == "http"@ || url.scheme == "https"@) && url.host != Some(
                "tauri.localhost"@,
            ) && url.host != Some("localhost"@) && url.host != Some("127.0.0.1"@)
            ||| url.scheme == "mailto"@
            ||| url.scheme == "tel"@
        },
{
    reveal_strlit("http");
    reveal_strlit("https");
    reveal_strlit("mailto");
    reveal_strlit("tel");
    assert("http"@.len() == 4 && "https"@.len() == 5 && "mailto"@.len() == 6 && "tel"@.len() == 3);
}

/// A navigation goes ahead exactly where the URL is not external, and the URL
/// is handed to the browser, as it is, exactly where it is external.
pub proof fn law_external_links_go_to_the_browser(url: Url<Seq<char>>, debug: bool)
    ensures
        url.routed(debug).allow <==> !url.external(debug),
        url.external(debug) ==> url.routed(debug).open == Some(url.text),
        !url.external(debug) ==> url.routed(debug).open is None,
{
}

/// Where a link goes is told by its scheme and host: web pages leave the window
/// unless they are the application's own or, in a debug build, on the local
/// machine; mail and phone links always leave; nothing else does.
pub proof fn law_scheme_and_host_decide(url: Url<Seq<char>>, debug: bool)
    ensures
        ({
            let web = url.scheme == "http"@ || url.scheme == "https"@;
            let own = url.host == Some("tauri.localhost"@);
            let local = url.host == Some("localhost"@) || url.host == Some("127.0.0.1"@);
            let call = url.scheme == "mailto"@ || url.scheme == "tel"@;
            let leaves = call || (web && !own && !(debug && local));
            &&& url.routed(debug).allow == !leaves
            &&& leaves ==> url.routed(debug).open == Some(url.text)
            &&& !leaves ==> url.routed(debug).open is None
        }),
{
    law_packaged_build_sends_every_other_host_out(url);
    law_debug_build_sends_every_remote_host_out(url);
    law_external_links_go_to_the_browser(url, debug);
}

/// Two links of one scheme and host go the same way, whatever else they hold.
pub proof fn law_the_rest_of_a_link_does_not_matter(
    a: Url<Seq<char>>,
    b: Url<Seq<char>>,
    debug: bool,
)
    requires
        a.scheme == b.scheme,
        a.host == b.host,
    ensures
        a.routed(debug).allow == b.routed(debug).allow,
        a.routed(debug).open is Some == b.routed(debug).open is Some,
{
}

/// A URL and a route are read as they are, each part for itself.
pub proof fn law_urls_and_routes_are_shown(url: Url<String>, route: Route<String>)
    ensures
        url@.text == url.text@,
        url@.scheme == url.scheme@,
        url@.host is Some <==> url.host is Some,
        url.host matches Some(host) ==> url@.host == Some(host@),
        route@.allow == route.allow,
        route@.open is Some <==> route.open is Some,
        route.open matches Some(text) ==> route@.open == Some(text@),
{
}

/// What `route` decides about a link: a web page that is neither the
/// application's own nor, in a debug build, on the local machine is opened in the
/// browser, and so are mail and phone links; everything else goes ahead.
pub proof fn law_route_follows_scheme_and_host(url: &Url<String>, debug: bool, r: Route<String>)
    requires
        call_ensures(route, (url, debug), r),
    ensures
        ({
            let web = url.scheme@ == "http"@ || url.scheme@ == "https"@;
            let call = url.scheme@ == "mailto"@ || url.scheme@ == "tel"@;
            let own = url.host matches Some(host) && (host@ == "tauri.localhost"@ || (debug && (
            host@ == "localhost"@ || host@ == "127.0.0.1"@)));
            let leaves = call || (web && !own);
            &&& r.allow == !leaves
            &&& leaves ==> (r.open matches Some(text) && text@ == url.text@)
            &&& !leaves ==> r.open is None
        }),
{
    law_scheme_and_host_decide(url@, debug);
    law_urls_and_routes_are_shown(*url, r);
}

/// What `is_external` says of a URL.
pub proof fn law_is_external_follows_scheme_and_host(url: &Url<String>, debug: bool, r: bool)
    requires
        call_ensures(is_external, (url, debug), r),
    ensures
        ({
            let web = url.scheme@ == "http"@ || url.scheme@ == "https"@;
            let call = url.scheme@ == "mailto"@ || url.scheme@ == "tel"@;
            let own = url.host matches Some(host) && (host@ == "tauri.localhost"@ || (debug && (
            host@ == "localhost"@ || host@ == "127.0.0.1"@)));
            r <==> call || (web && !own)
        }),
{
    law_packaged_build_sends_every_other_host_out(url@);
    law_debug_build_sends_every_remote_host_out(url@);
}

/// Reading a URL gives the same for the same input, with the scheme in front.
pub proof fn law_reading_is_by_the_input(
    a: &str,
    b: &str,
    r: Option<Url<String>>,
    again: Option<Url<String>>,
)
    requires
        call_ensures(Url::<String>::parse, (a,), r),
        call_ensures(Url::<String>::parse, (b,), again),
        a@ == b@,
    ensures
        r is Some <==> again is Some,
        (r is Some && again is Some) ==> r->0.text@ == again->0.text@ && r->0.scheme@
            == again->0.scheme@,
        r matches Some(url) ==> url.text@.len() > url.scheme@.len() && url.text@.take(
            url.scheme@.len() as int,
        ) == url.scheme@ && url.text@[url.scheme@.len() as int] == ':',
{
    if r is Some && again is Some {
        assert(r->0@ == again->0@);
    }
}

} // verus!
