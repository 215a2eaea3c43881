//! Talking to the upstream service: the URL of a login, the request for a
//! listing, and what to make of the answer.

use crate::constants::{Config, USER_AGENT};
use crate::field::outcome;
use crate::json::parsed;
use crate::reddit::decode::{decode, decoded, DecodeError, DecodeErrorValue};
use crate::reddit::html::{Card, CardValue};
use crate::reddit::types::{lemma_listing_value, Listing, ListingValue, Thing, ThingValue};
use crate::text::{copied, lemma_pushed};
use vstd::prelude::*;
use vstd::string::*;

pub mod decode;
pub mod html;
pub mod types;

verus! {

/// Where the upstream service asks the user to grant access, with the
/// parameters that no login changes.
pub const AUTHORIZE_URL: &'static str =
    "https://www.reddit.com/api/v1/authorize?response_type=code&duration=permanent";

/// The permissions that a login asks for.
pub const SCOPE: &'static str = "identity history mysubreddits read save subscribe vote";

/// Where a login leads back to when no other place is named.
pub const HOME: &'static str = "/";

/// The most bytes of text, the address and all names and values together,
/// out of which an address with parameters is made.
pub const URL_INPUT_LIMIT: usize = 0x100_0000;

/// The text of the URL that `Url::parse_with_params` makes of an address
/// and of pairs of a name and a value to add to its query; `None` where the
/// address is not an absolute URL.
pub uninterp spec fn url_with_params(
    address: Seq<char>,
    pairs: Seq<(Seq<char>, Seq<char>)>,
) -> Option<Seq<char>>;

/// The bytes that the names and values of the first `n` pairs take.
pub open spec fn pairs_size(pairs: Seq<(Seq<char>, Seq<char>)>, n: int) -> int
    decreases n,
{
    if n <= 0 {
        0
    } else {
        pairs_size(pairs, n - 1) + vstd::utf8::encode_utf8(pairs[n - 1].0).len()
            + vstd::utf8::encode_utf8(pairs[n - 1].1).len()
    }
}

/// Whether an address and pairs are together within [`URL_INPUT_LIMIT`].
pub open spec fn within_limit(address: Seq<char>, pairs: Seq<(Seq<char>, Seq<char>)>) -> bool {
    vstd::utf8::encode_utf8(address).len() + pairs_size(pairs, pairs.len() as int)
        <= URL_INPUT_LIMIT
}

/// `Url::parse_with_params`, with the URL that it gives turned into its
/// text. The contract claims only that the outcome is settled by the
/// address and the pairs. It leaves out inputs over [`URL_INPUT_LIMIT`]: the
/// function keeps positions in 32 bits and panics past them.
#[verifier::external_body]
fn parse_with_params(address: &str, pairs: &Vec<(String, String)>) -> (r: Option<String>)
    requires
        within_limit(address@, pairs.deep_view()),
    ensures
        r.deep_view() == url_with_params(address@, pairs.deep_view()),
{
    match reqwest::Url::parse_with_params(address, pairs) {
        Ok(url) => Some(url.into()),
        Err(_) => None,
    }
}

/// The text of the URL made of an address and of pairs to add to its
/// query, as [`url_with_params`] names it; `None` also where address and
/// pairs are over [`URL_INPUT_LIMIT`].
pub open spec fn address_with(address: Seq<char>, pairs: Seq<(Seq<char>, Seq<char>)>) -> Option<
    Seq<char>,
> {
    if within_limit(address, pairs) {
        url_with_params(address, pairs)
    } else {
        None
    }
}

/// Adds pairs of a name and a value to the query of an address.
pub fn with_params(address: &str, pairs: &Vec<(String, String)>) -> (r: Option<String>)
    ensures
        r.deep_view() == address_with(address@, pairs.deep_view()),
{
    let ghost all = pairs.deep_view();
    let size = address.as_bytes().len();
    if size > URL_INPUT_LIMIT {
        proof {
            lemma_pairs_size(all, all.len() as int);
        }
        return None;
    }
    let mut left: usize = URL_INPUT_LIMIT - size;
    let mut i: usize = 0;
    while i < pairs.len()
        invariant
            i <= pairs.len(),
            all == pairs.deep_view(),
            left + vstd::utf8::encode_utf8(address@).len() + pairs_size(all, i as int)
                == URL_INPUT_LIMIT,
        decreases pairs.len() - i,
    {
        let name = pairs[i].0.as_str().as_bytes().len();
        let value = pairs[i].1.as_str().as_bytes().len();
        if name > left || value > left - name {
            proof {
                lemma_pairs_size_grows(all, i + 1, all.len() as int);
            }
            return None;
        }
        left = left - name - value;
        i += 1;
    }
    parse_with_params(address, pairs)
}

/// The size of pairs is never negative.
pub proof fn lemma_pairs_size(pairs: Seq<(Seq<char>, Seq<char>)>, n: int)
    ensures
        pairs_size(pairs, n) >= 0,
    decreases n,
{
    if n > 0 {
        lemma_pairs_size(pairs, n - 1);
    }
}

/// More pairs never take less.
pub proof fn lemma_pairs_size_grows(pairs: Seq<(Seq<char>, Seq<char>)>, k: int, n: int)
    requires
        k <= n,
    ensures
        pairs_size(pairs, k) <= pairs_size(pairs, n),
    decreases n - k,
{
    if k < n {
        lemma_pairs_size_grows(pairs, k, n - 1);
    }
}

/// The pairs that a login adds to [`AUTHORIZE_URL`]: who asks, where the
/// upstream service is to send the browser back, what is asked for, and
/// `state`, which comes back with the browser.
pub open spec fn login_pairs(
    client_id: Seq<char>,
    redirect_uri: Seq<char>,
    state: Seq<char>,
) -> Seq<(Seq<char>, Seq<char>)> {
    seq![
        ("client_id"@, client_id),
        ("redirect_uri"@, redirect_uri),
        ("scope"@, SCOPE@),
        ("state"@, state),
    ]
}

/// The place that a login leads back to: the one named, or [`HOME`].
pub open spec fn return_path(state: Option<Seq<char>>) -> Seq<char> {
    match state {
        Some(path) => path,
        None => HOME@,
    }
}

/// The URL at which a login starts.
pub open spec fn login_address(
    client_id: Seq<char>,
    redirect_uri: Seq<char>,
    state: Option<Seq<char>>,
) -> Option<Seq<char>> {
    address_with(AUTHORIZE_URL@, login_pairs(client_id, redirect_uri, return_path(state)))
}

/// The URL to send the browser to for a login that leads back to `state`,
/// or to [`HOME`] where there is none.
pub fn login_url(config: &Config, state: Option<String>) -> (r: Option<String>)
    ensures
        r.deep_view() == login_address(
            config.client_id@,
            config.redirect_uri@,
            state.deep_view(),
        ),
{
    let state = match state {
        Some(path) => path,
        None => String::from_str(HOME),
    };
    let mut pairs: Vec<(String, String)> = Vec::new();
    pairs.push((String::from_str("client_id"), config.client_id.clone()));
    pairs.push((String::from_str("redirect_uri"), config.redirect_uri.clone()));
    pairs.push((String::from_str("scope"), String::from_str(SCOPE)));
    pairs.push((String::from_str("state"), state));
    assert(pairs.deep_view() =~= login_pairs(config.client_id@, config.redirect_uri@, state@));
    with_params(AUTHORIZE_URL, &pairs)
}

/// Where listings are fetched from.
pub const LISTING_BASE: &'static str = "https://oauth.reddit.com/";

/// What follows the path of a listing in its URL, up to the caller's query.
pub const LISTING_SUFFIX: &'static str = ".json?raw_json=1&";

/// Where a session is ended.
pub const LOGOUT_PATH: &'static str = "/logout";

/// A text that may be missing, as the empty text where it is.
pub open spec fn or_empty(text: Option<Seq<char>>) -> Seq<char> {
    match text {
        Some(t) => t,
        None => Seq::empty(),
    }
}

/// The URL of the listing at `path`, with the caller's query passed on as
/// it came. No path gives the front page.
pub open spec fn listing_address(path: Option<Seq<char>>, raw_query: Option<Seq<char>>) -> Seq<
    char,
> {
    LISTING_BASE@ + or_empty(path) + LISTING_SUFFIX@ + or_empty(raw_query)
}

/// A request for a listing: a GET of `url` under the user agent
/// `user_agent`, with `bearer` as its bearer token where there is one and
/// with no authorization where there is none.
#[derive(Debug, PartialEq, Eq)]
pub struct ListingRequest {
    pub url: String,
    pub bearer: Option<String>,
    pub user_agent: String,
}

/// The mathematical value of a [`ListingRequest`].
pub struct ListingRequestValue {
    pub url: Seq<char>,
    pub bearer: Option<Seq<char>>,
    pub user_agent: Seq<char>,
}

impl DeepView for ListingRequest {
    type V = ListingRequestValue;

    open spec fn deep_view(&self) -> ListingRequestValue {
        ListingRequestValue {
            url: self.url@,
            bearer: self.bearer.deep_view(),
            user_agent: self.user_agent@,
        }
    }
}

/// The request for the listing at `path`. The access token of the session,
/// where there is one, is its bearer token.
pub fn listing_request(
    path: &Option<String>,
    raw_query: &Option<String>,
    access_token: &Option<String>,
) -> (r: ListingRequest)
    ensures
        r.deep_view() == (ListingRequestValue {
            url: listing_address(path.deep_view(), raw_query.deep_view()),
            bearer: access_token.deep_view(),
            user_agent: USER_AGENT@,
        }),
{
    let mut url = String::from_str(LISTING_BASE);
    match path {
        Some(p) => {
            url.append(p.as_str());
        },
        None => {
            assert(url@ + Seq::<char>::empty() =~= url@);
        },
    }
    url.append(LISTING_SUFFIX);
    match raw_query {
        Some(q) => {
            url.append(q.as_str());
        },
        None => {
            assert(url@ + Seq::<char>::empty() =~= url@);
        },
    }
    ListingRequest { url, bearer: copied(access_token), user_agent: String::from_str(USER_AGENT) }
}

/// Why no listing could be had.
#[derive(Debug, PartialEq, Eq)]
pub enum ContentError {
    /// The upstream service answered with a thing that is no listing.
    UnexpectedShape,
    /// The upstream service was not reached. Holds the transport's message.
    UpstreamUnavailable(String),
    /// The answer of the upstream service could not be decoded.
    Undecodable(DecodeError),
}

/// The mathematical value of a [`ContentError`].
pub enum ContentErrorValue {
    UnexpectedShape,
    UpstreamUnavailable(Seq<char>),
    Undecodable(DecodeErrorValue),
}

impl DeepView for ContentError {
    type V = ContentErrorValue;

    open spec fn deep_view(&self) -> ContentErrorValue {
        match self {
            ContentError::UnexpectedShape => ContentErrorValue::UnexpectedShape,
            ContentError::UpstreamUnavailable(m) => ContentErrorValue::UpstreamUnavailable(m@),
            ContentError::Undecodable(e) => ContentErrorValue::Undecodable(e.deep_view()),
        }
    }
}

/// What the browser is told where the upstream service gave no listing.
pub const NO_LISTING: &'static str = "Did not get a listing from reddit";

impl ContentErrorValue {
    /// The HTTP status under which the failure is reported to the browser.
    pub open spec fn status(self) -> u16 {
        502
    }

    /// What the browser is told.
    pub open spec fn message(self) -> Seq<char> {
        match self {
            ContentErrorValue::UnexpectedShape => NO_LISTING@,
            ContentErrorValue::UpstreamUnavailable(m) => m,
            ContentErrorValue::Undecodable(e) => e.message(),
        }
    }
}

impl ContentError {
    /// The HTTP status under which the failure is reported to the browser.
    pub fn status(&self) -> (r: u16)
        ensures
            r == self.deep_view().status(),
    {
        502
    }

    /// What the browser is told.
    pub fn message(&self) -> (r: String)
        ensures
            r@ == self.deep_view().message(),
    {
        match self {
            ContentError::UnexpectedShape => String::from_str(NO_LISTING),
            ContentError::UpstreamUnavailable(m) => m.clone(),
            ContentError::Undecodable(e) => e.message(),
        }
    }
}

/// How a request for a listing ended.
#[derive(Debug, PartialEq, Eq)]
pub enum Reply {
    /// The upstream service was not reached. Holds the transport's message.
    Unreachable(String),
    /// The upstream service answered with this body.
    Body(Vec<u8>),
}

/// The listing that a thing is, where it is one.
pub open spec fn listing_expected(thing: ThingValue) -> Result<ListingValue, ContentErrorValue> {
    match thing {
        ThingValue::Listing(listing) => Ok(listing),
        _ => Err(ContentErrorValue::UnexpectedShape),
    }
}

/// Takes the listing out of a thing that is one.
pub fn expect_listing(thing: Thing) -> (r: Result<Listing, ContentError>)
    ensures
        outcome(r) == listing_expected(thing.deep_view()),
{
    match thing {
        Thing::Listing(listing) => {
            proof {
                lemma_listing_value(listing);
            }
            Ok(listing)
        },
        _ => Err(ContentError::UnexpectedShape),
    }
}

/// The listing that a decoded answer holds.
pub open spec fn listing_decoded(answer: Result<ThingValue, DecodeErrorValue>) -> Result<
    ListingValue,
    ContentErrorValue,
> {
    match answer {
        Ok(thing) => listing_expected(thing),
        Err(e) => Err(ContentErrorValue::Undecodable(e)),
    }
}

/// Takes the listing out of a decoded answer.
pub fn listing_of(answer: Result<Thing, DecodeError>) -> (r: Result<Listing, ContentError>)
    ensures
        outcome(r) == listing_decoded(outcome(answer)),
{
    match answer {
        Ok(thing) => expect_listing(thing),
        Err(e) => Err(ContentError::Undecodable(e)),
    }
}

/// An answer that decodes to a thing other than a listing gives no
/// listing: the request fails for the shape of the answer, whatever the
/// thing holds.
pub proof fn lemma_only_listings_pass(answer: Result<ThingValue, DecodeErrorValue>)
    requires
        answer is Ok,
        !(answer->Ok_0 is Listing),
    ensures
        listing_decoded(answer) == Err::<ListingValue, ContentErrorValue>(
            ContentErrorValue::UnexpectedShape,
        ),
{
}

/// The listing that the upstream service gave in answer to a request.
pub fn fetch_listing(reply: Reply) -> (r: Result<Listing, ContentError>)
    ensures
        match reply {
            Reply::Unreachable(message) => outcome(r) == Err::<ListingValue, ContentErrorValue>(
                ContentErrorValue::UpstreamUnavailable(message@),
            ),
            Reply::Body(body) => outcome(r) == listing_decoded(decoded(parsed(body@))),
        },
{
    match reply {
        Reply::Unreachable(message) => Err(ContentError::UpstreamUnavailable(message)),
        Reply::Body(body) => listing_of(decode(body.as_slice())),
    }
}

/// The cards of the posts among the first `n` of `children`, in the
/// children's order. A child that is no post gives no card.
pub open spec fn feed(children: Seq<ThingValue>, n: int) -> Seq<CardValue>
    decreases n,
{
    if n <= 0 {
        Seq::empty()
    } else {
        match children[n - 1] {
            ThingValue::Post(post) => feed(children, n - 1).push(post.card()),
            _ => feed(children, n - 1),
        }
    }
}

/// The listing as a feed: one card for each post.
pub fn render_listing(listing: &Listing) -> (r: Vec<Card>)
    ensures
        r.deep_view() == feed(listing.deep_view().children, listing.children.len() as int),
{
    let ghost children = listing.deep_view().children;
    let mut cards: Vec<Card> = Vec::new();
    let mut i: usize = 0;
    assert(cards.deep_view() =~= Seq::empty());
    while i < listing.children.len()
        invariant
            i <= listing.children.len(),
            children == listing.deep_view().children,
            cards.deep_view() == feed(children, i as int),
        decreases listing.children.len() - i,
    {
        let ghost before = cards;
        assert(children[i as int] == listing.children[i as int].deep_view());
        match &listing.children[i] {
            Thing::Post(post) => {
                let card = post.render_feed();
                cards.push(card);
                proof {
                    lemma_pushed(before, cards, card);
                }
            },
            _ => {},
        }
        i += 1;
    }
    cards
}

/// The link in the head of a page.
#[derive(Debug, PartialEq, Eq)]
pub enum NavLink {
    /// A link to the login at this URL.
    Login(String),
    /// A link to [`LOGOUT_PATH`].
    Logout,
}

/// The mathematical value of a [`NavLink`].
pub enum NavLinkValue {
    Login(Seq<char>),
    Logout,
}

impl DeepView for NavLink {
    type V = NavLinkValue;

    open spec fn deep_view(&self) -> NavLinkValue {
        match self {
            NavLink::Login(href) => NavLinkValue::Login(href@),
            NavLink::Logout => NavLinkValue::Logout,
        }
    }
}

/// The link in the head of the page at `path`: to the logout for a session
/// that holds an access token; else to a login that leads back to `path`,
/// where the URL of that login can be made.
pub open spec fn nav(
    client_id: Seq<char>,
    redirect_uri: Seq<char>,
    access_token: Option<Seq<char>>,
    path: Option<Seq<char>>,
) -> Option<NavLinkValue> {
    match access_token {
        Some(_) => Some(NavLinkValue::Logout),
        None => match login_address(client_id, redirect_uri, path) {
            Some(href) => Some(NavLinkValue::Login(href)),
            None => None,
        },
    }
}

/// The link in the head of the page at `path`.
pub fn nav_link(config: &Config, access_token: &Option<String>, path: Option<String>) -> (r:
    Option<NavLink>)
    ensures
        r.deep_view() == nav(
            config.client_id@,
            config.redirect_uri@,
            access_token.deep_view(),
            path.deep_view(),
        ),
{
    match access_token {
        Some(_) => Some(NavLink::Logout),
        None => match login_url(config, path) {
            Some(href) => Some(NavLink::Login(href)),
            None => None,
        },
    }
}

} // verus!
