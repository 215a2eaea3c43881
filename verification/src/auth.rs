//! The OAuth flow: what to do about a callback, how to end an exchange of
//! a code for a token, and how to end a session.

use crate::constants::{Config, ConfigValue};
use crate::field::{
    get_optional_text, get_text, get_u32, members_of, optional_text_at, outcome, read_members,
    text_at, u32_at, Fault, FieldPath,
};
use crate::json::{parse, parsed, Json, JsonValue};
use crate::reddit::decode::{DecodeError, DecodeErrorValue};
use crate::reddit::{return_path, HOME};
use vstd::prelude::*;
use vstd::string::*;

verus! {

/// Where a code is exchanged for a token.
pub const TOKEN_URL: &'static str = "https://www.reddit.com/api/v1/access_token";

/// The cookie that holds the access token.
pub const ACCESS_TOKEN: &'static str = "access_token";

/// The cookie that holds the refresh token.
pub const REFRESH_TOKEN: &'static str = "refresh_token";

/// What the upstream service sends along when it sends the browser back.
#[derive(Debug, PartialEq, Eq)]
pub struct OAuthQuery {
    pub error: Option<String>,
    pub code: Option<String>,
    pub state: Option<String>,
}

/// The mathematical value of an [`OAuthQuery`].
pub struct OAuthQueryValue {
    pub error: Option<Seq<char>>,
    pub code: Option<Seq<char>>,
    pub state: Option<Seq<char>>,
}

impl DeepView for OAuthQuery {
    type V = OAuthQueryValue;

    open spec fn deep_view(&self) -> OAuthQueryValue {
        OAuthQueryValue {
            error: self.error.deep_view(),
            code: self.code.deep_view(),
            state: self.state.deep_view(),
        }
    }
}

/// What the upstream service answers to a successful exchange.
#[derive(Debug, PartialEq, Eq)]
pub struct OAuthResponse {
    pub access_token: String,
    /// The lifetime of the access token, in seconds.
    pub expires_in: u32,
    pub scope: Option<String>,
    pub refresh_token: Option<String>,
}

/// The mathematical value of an [`OAuthResponse`].
pub struct OAuthResponseValue {
    pub access_token: Seq<char>,
    pub expires_in: u32,
    pub scope: Option<Seq<char>>,
    pub refresh_token: Option<Seq<char>>,
}

impl DeepView for OAuthResponse {
    type V = OAuthResponseValue;

    open spec fn deep_view(&self) -> OAuthResponseValue {
        OAuthResponseValue {
            access_token: self.access_token@,
            expires_in: self.expires_in,
            scope: self.scope.deep_view(),
            refresh_token: self.refresh_token.deep_view(),
        }
    }
}

/// Why an exchange of a code for a token failed.
#[derive(Debug, PartialEq, Eq)]
pub enum ExchangeFault {
    /// The upstream service was not reached. Holds the transport's message.
    Transport(String),
    /// The upstream service answered with a status outside 200 to 299.
    Status(u16),
    /// The answer's body describes no token.
    Body(DecodeError),
}

/// The mathematical value of an [`ExchangeFault`].
pub enum ExchangeFaultValue {
    Transport(Seq<char>),
    Status(u16),
    Body(DecodeErrorValue),
}

impl DeepView for ExchangeFault {
    type V = ExchangeFaultValue;

    open spec fn deep_view(&self) -> ExchangeFaultValue {
        match self {
            ExchangeFault::Transport(m) => ExchangeFaultValue::Transport(m@),
            ExchangeFault::Status(s) => ExchangeFaultValue::Status(*s),
            ExchangeFault::Body(e) => ExchangeFaultValue::Body(e.deep_view()),
        }
    }
}

/// Why a login failed.
#[derive(Debug, PartialEq, Eq)]
pub enum AuthError {
    /// The upstream service reported an error. Holds what it reported.
    UpstreamDenied(String),
    /// The code could not be exchanged for a token.
    ExchangeFailed(ExchangeFault),
    /// The upstream service sent neither an error nor a code.
    MissingCode,
}

/// The mathematical value of an [`AuthError`].
pub enum AuthErrorValue {
    UpstreamDenied(Seq<char>),
    ExchangeFailed(ExchangeFaultValue),
    MissingCode,
}

impl DeepView for AuthError {
    type V = AuthErrorValue;

    open spec fn deep_view(&self) -> AuthErrorValue {
        match self {
            AuthError::UpstreamDenied(e) => AuthErrorValue::UpstreamDenied(e@),
            AuthError::ExchangeFailed(f) => AuthErrorValue::ExchangeFailed(f.deep_view()),
            AuthError::MissingCode => AuthErrorValue::MissingCode,
        }
    }
}

/// What the browser is told where a code is missing.
pub const MISSING_CODE: &'static str = "Missing code";

/// What the browser is told where the answer to an exchange is of no use.
pub const EXCHANGE_UNREADABLE: &'static str = "Error parsing oauth response";

impl AuthErrorValue {
    /// The HTTP status under which the failure is reported to the browser.
    pub open spec fn status(self) -> u16 {
        match self {
            AuthErrorValue::UpstreamDenied(_) => 400,
            AuthErrorValue::MissingCode => 400,
            AuthErrorValue::ExchangeFailed(_) => 502,
        }
    }

    /// What the browser is told: what the upstream service reported; that
    /// the code is missing; the transport's message; or, for an answer of no
    /// use, no more than that.
    pub open spec fn message(self) -> Seq<char> {
        match self {
            AuthErrorValue::UpstreamDenied(error) => error,
            AuthErrorValue::MissingCode => MISSING_CODE@,
            AuthErrorValue::ExchangeFailed(ExchangeFaultValue::Transport(m)) => m,
            AuthErrorValue::ExchangeFailed(_) => EXCHANGE_UNREADABLE@,
        }
    }
}

impl AuthError {
    /// The HTTP status under which the failure is reported to the browser.
    pub fn status(&self) -> (r: u16)
        ensures
            r == self.deep_view().status(),
    {
        match self {
            AuthError::UpstreamDenied(_) => 400,
            AuthError::MissingCode => 400,
            AuthError::ExchangeFailed(_) => 502,
        }
    }

    /// What the browser is told.
    pub fn message(&self) -> (r: String)
        ensures
            r@ == self.deep_view().message(),
    {
        match self {
            AuthError::UpstreamDenied(error) => error.clone(),
            AuthError::MissingCode => String::from_str(MISSING_CODE),
            AuthError::ExchangeFailed(ExchangeFault::Transport(m)) => m.clone(),
            AuthError::ExchangeFailed(_) => String::from_str(EXCHANGE_UNREADABLE),
        }
    }
}

/// The request that exchanges a code for a token: a POST to `url`, with
/// `client_id` and `client_secret` as the user and password of HTTP basic
/// authentication and `form` as its form body.
#[derive(Debug, PartialEq, Eq)]
pub struct TokenRequest {
    pub url: String,
    pub client_id: String,
    pub client_secret: String,
    pub form: Vec<(String, String)>,
    /// Where the browser goes once the exchange has succeeded.
    pub return_to: String,
}

/// The mathematical value of a [`TokenRequest`].
pub struct TokenRequestValue {
    pub url: Seq<char>,
    pub client_id: Seq<char>,
    pub client_secret: Seq<char>,
    pub form: Seq<(Seq<char>, Seq<char>)>,
    pub return_to: Seq<char>,
}

impl DeepView for TokenRequest {
    type V = TokenRequestValue;

    open spec fn deep_view(&self) -> TokenRequestValue {
        TokenRequestValue {
            url: self.url@,
            client_id: self.client_id@,
            client_secret: self.client_secret@,
            form: self.form.deep_view(),
            return_to: self.return_to@,
        }
    }
}

/// A cookie to set in the browser.
#[derive(Debug, PartialEq, Eq)]
pub struct SessionCookie {
    pub name: String,
    pub value: String,
    pub http_only: bool,
    pub secure: bool,
    /// The lifetime in seconds; `None` for a cookie that lasts as long as
    /// the browser's session.
    pub max_age: Option<u32>,
}

/// The mathematical value of a [`SessionCookie`].
pub struct SessionCookieValue {
    pub name: Seq<char>,
    pub value: Seq<char>,
    pub http_only: bool,
    pub secure: bool,
    pub max_age: Option<u32>,
}

impl DeepView for SessionCookie {
    type V = SessionCookieValue;

    open spec fn deep_view(&self) -> SessionCookieValue {
        SessionCookieValue {
            name: self.name@,
            value: self.value@,
            http_only: self.http_only,
            secure: self.secure,
            max_age: self.max_age,
        }
    }
}

/// The answer to a login that succeeded: cookies to set, and where to send
/// the browser.
#[derive(Debug, PartialEq, Eq)]
pub struct Login {
    pub cookies: Vec<SessionCookie>,
    pub redirect: String,
}

/// The mathematical value of a [`Login`].
pub struct LoginValue {
    pub cookies: Seq<SessionCookieValue>,
    pub redirect: Seq<char>,
}

impl DeepView for Login {
    type V = LoginValue;

    open spec fn deep_view(&self) -> LoginValue {
        LoginValue { cookies: self.cookies.deep_view(), redirect: self.redirect@ }
    }
}

/// The answer to a logout: the names of the cookies to remove, and where to
/// send the browser.
#[derive(Debug, PartialEq, Eq)]
pub struct Logout {
    pub removed: Vec<String>,
    pub redirect: String,
}

/// The mathematical value of a [`Logout`].
pub struct LogoutValue {
    pub removed: Seq<Seq<char>>,
    pub redirect: Seq<char>,
}

impl DeepView for Logout {
    type V = LogoutValue;

    open spec fn deep_view(&self) -> LogoutValue {
        LogoutValue { removed: self.removed.deep_view(), redirect: self.redirect@ }
    }
}

/// How an exchange of a code for a token ended.
#[derive(Debug, PartialEq, Eq)]
pub enum Exchange {
    /// The upstream service was not reached. Holds the transport's message.
    Unreachable(String),
    /// The upstream service answered.
    Answered { status: u16, body: Vec<u8> },
}

/// The form that exchanges `code` for a token.
pub open spec fn token_form(code: Seq<char>, redirect_uri: Seq<char>) -> Seq<
    (Seq<char>, Seq<char>),
> {
    seq![
        ("grant_type"@, "authorization_code"@),
        ("code"@, code),
        ("redirect_uri"@, redirect_uri),
    ]
}

/// What to do about a callback. An error that the upstream service reports
/// ends the login, whatever else the query holds. A code is to be
/// exchanged for a token. A query with neither ends the login too.
pub open spec fn callback(config: ConfigValue, query: OAuthQueryValue) -> Result<
    TokenRequestValue,
    AuthErrorValue,
> {
    match (query.error, query.code) {
        (Some(error), _) => Err(AuthErrorValue::UpstreamDenied(error)),
        (None, Some(code)) => Ok(
            TokenRequestValue {
                url: TOKEN_URL@,
                client_id: config.client_id,
                client_secret: config.client_secret,
                form: token_form(code, config.redirect_uri),
                return_to: return_path(query.state),
            },
        ),
        (None, None) => Err(AuthErrorValue::MissingCode),
    }
}

/// Decides what to do about a callback: fail, or exchange the code with
/// the request that is returned. No cookie is set before the exchange has
/// succeeded: see [`complete_callback`].
pub fn handle_callback(config: &Config, query: OAuthQuery) -> (r: Result<TokenRequest, AuthError>)
    ensures
        outcome(r) == callback(config.deep_view(), query.deep_view()),
{
    match query.error {
        Some(error) => Err(AuthError::UpstreamDenied(error)),
        None => match query.code {
            Some(code) => {
                let return_to = match query.state {
                    Some(path) => path,
                    None => String::from_str(HOME),
                };
                let mut form: Vec<(String, String)> = Vec::new();
                form.push((String::from_str("grant_type"), String::from_str("authorization_code")));
                form.push((String::from_str("code"), code));
                form.push((String::from_str("redirect_uri"), config.redirect_uri.clone()));
                assert(form.deep_view() =~= token_form(code@, config.redirect_uri@));
                Ok(
                    TokenRequest {
                        url: String::from_str(TOKEN_URL),
                        client_id: config.client_id.clone(),
                        client_secret: config.client_secret.clone(),
                        form,
                        return_to,
                    },
                )
            },
            None => Err(AuthError::MissingCode),
        },
    }
}

/// The token that a JSON value describes.
pub open spec fn token_of(value: JsonValue) -> Result<OAuthResponseValue, Fault> {
    match members_of(value) {
        Err(p) => Err(p),
        Ok(members) => {
            let access_token = text_at(members, "access_token"@);
            let expires_in = u32_at(members, "expires_in"@);
            let scope = optional_text_at(members, "scope"@);
            let refresh_token = optional_text_at(members, "refresh_token"@);
            if access_token is Err {
                Err(access_token->Err_0)
            } else if expires_in is Err {
                Err(expires_in->Err_0)
            } else if scope is Err {
                Err(scope->Err_0)
            } else if refresh_token is Err {
                Err(refresh_token->Err_0)
            } else {
                Ok(
                    OAuthResponseValue {
                        access_token: access_token->Ok_0,
                        expires_in: expires_in->Ok_0,
                        scope: scope->Ok_0,
                        refresh_token: refresh_token->Ok_0,
                    },
                )
            }
        },
    }
}

/// Decodes the answer to an exchange that succeeded.
pub fn decode_token(value: &Json) -> (r: Result<OAuthResponse, FieldPath>)
    ensures
        outcome(r) == token_of(value.deep_view()),
{
    let members = read_members(value)?;
    let access_token = get_text(members, "access_token")?;
    let expires_in = get_u32(members, "expires_in")?;
    let scope = get_optional_text(members, "scope")?;
    let refresh_token = get_optional_text(members, "refresh_token")?;
    Ok(OAuthResponse { access_token, expires_in, scope, refresh_token })
}

/// The cookie that holds an access token for as long as the token lasts.
pub open spec fn access_cookie(token: OAuthResponseValue) -> SessionCookieValue {
    SessionCookieValue {
        name: ACCESS_TOKEN@,
        value: token.access_token,
        http_only: true,
        secure: true,
        max_age: Some(token.expires_in),
    }
}

/// The cookie that holds a refresh token for the browser's session.
pub open spec fn refresh_cookie(refresh_token: Seq<char>) -> SessionCookieValue {
    SessionCookieValue {
        name: REFRESH_TOKEN@,
        value: refresh_token,
        http_only: true,
        secure: true,
        max_age: None,
    }
}

/// The answer to a login that gave `token`: the cookie of the access token,
/// then that of the refresh token where there is one, and the browser sent
/// to `return_to`.
pub open spec fn session(token: OAuthResponseValue, return_to: Seq<char>) -> LoginValue {
    LoginValue {
        cookies: match token.refresh_token {
            Some(refresh_token) => seq![access_cookie(token), refresh_cookie(refresh_token)],
            None => seq![access_cookie(token)],
        },
        redirect: return_to,
    }
}

/// The cookies that a token is kept in, and the way back.
pub fn issue_session(token: OAuthResponse, return_to: String) -> (r: Login)
    ensures
        r.deep_view() == session(token.deep_view(), return_to@),
{
    let mut cookies: Vec<SessionCookie> = Vec::new();
    cookies.push(
        SessionCookie {
            name: String::from_str(ACCESS_TOKEN),
            value: token.access_token,
            http_only: true,
            secure: true,
            max_age: Some(token.expires_in),
        },
    );
    match token.refresh_token {
        Some(refresh_token) => {
            cookies.push(
                SessionCookie {
                    name: String::from_str(REFRESH_TOKEN),
                    value: refresh_token,
                    http_only: true,
                    secure: true,
                    max_age: None,
                },
            );
        },
        None => {},
    }
    let r = Login { cookies, redirect: return_to };
    assert(r.deep_view().cookies =~= session(token.deep_view(), return_to@).cookies);
    r
}

/// Whether an HTTP status reports success.
pub open spec fn is_success(status: u16) -> bool {
    200 <= status <= 299
}

/// How a login ends once the upstream service has answered the exchange
/// with `status` and a body of which the parser made `body`.
pub open spec fn settled(
    return_to: Seq<char>,
    status: u16,
    body: Result<JsonValue, Seq<char>>,
) -> Result<LoginValue, AuthErrorValue> {
    if !is_success(status) {
        Err(AuthErrorValue::ExchangeFailed(ExchangeFaultValue::Status(status)))
    } else {
        match body {
            Err(complaint) => Err(
                AuthErrorValue::ExchangeFailed(
                    ExchangeFaultValue::Body(DecodeErrorValue::Syntax(complaint)),
                ),
            ),
            Ok(document) => match token_of(document) {
                Err(path) => Err(
                    AuthErrorValue::ExchangeFailed(
                        ExchangeFaultValue::Body(DecodeErrorValue::Schema(path)),
                    ),
                ),
                Ok(token) => Ok(session(token, return_to)),
            },
        }
    }
}

/// Ends a login whose exchange the upstream service answered: given the
/// status of the answer and what the parser made of its body.
pub fn settle_exchange(return_to: String, status: u16, body: Result<Json, String>) -> (r: Result<
    Login,
    AuthError,
>)
    ensures
        outcome(r) == settled(return_to@, status, outcome(body)),
{
    if status < 200 || status > 299 {
        return Err(AuthError::ExchangeFailed(ExchangeFault::Status(status)));
    }
    match body {
        Err(complaint) => Err(
            AuthError::ExchangeFailed(ExchangeFault::Body(DecodeError::Syntax(complaint))),
        ),
        Ok(document) => match decode_token(&document) {
            Err(path) => Err(
                AuthError::ExchangeFailed(ExchangeFault::Body(DecodeError::Schema(path))),
            ),
            Ok(token) => Ok(issue_session(token, return_to)),
        },
    }
}

/// Ends a login once the exchange of its code has ended. Cookies are set
/// only where the exchange gave a token.
pub fn complete_callback(return_to: String, exchange: Exchange) -> (r: Result<Login, AuthError>)
    ensures
        match exchange {
            Exchange::Unreachable(message) => outcome(r) == Err::<LoginValue, AuthErrorValue>(
                AuthErrorValue::ExchangeFailed(ExchangeFaultValue::Transport(message@)),
            ),
            Exchange::Answered { status, body } => outcome(r) == settled(
                return_to@,
                status,
                parsed(body@),
            ),
        },
{
    match exchange {
        Exchange::Unreachable(message) => Err(
            AuthError::ExchangeFailed(ExchangeFault::Transport(message)),
        ),
        Exchange::Answered { status, body } => settle_exchange(
            return_to,
            status,
            parse(body.as_slice()),
        ),
    }
}

/// The answer to a logout: the cookie of the access token goes, and the
/// browser is sent to [`HOME`].
pub open spec fn logout() -> LogoutValue {
    LogoutValue { removed: seq![ACCESS_TOKEN@], redirect: HOME@ }
}

/// Ends a session.
pub fn handle_logout() -> (r: Logout)
    ensures
        r.deep_view() == logout(),
{
    let mut removed: Vec<String> = Vec::new();
    removed.push(String::from_str(ACCESS_TOKEN));
    let r = Logout { removed, redirect: String::from_str(HOME) };
    assert(r.deep_view().removed =~= logout().removed);
    r
}

/// The cookies that a browser holds: each name with its value.
pub type Jar = Map<Seq<char>, Seq<char>>;

/// Whether the browser that holds these cookies is logged in: it is while
/// it holds the cookie of the access token, and no longer.
pub open spec fn authenticated(jar: Jar) -> bool {
    jar.contains_key(ACCESS_TOKEN@)
}

/// The jar once the first `n` of `cookies` are set, in order.
pub open spec fn with_cookies(jar: Jar, cookies: Seq<SessionCookieValue>, n: int) -> Jar
    decreases n,
{
    if n <= 0 {
        jar
    } else {
        with_cookies(jar, cookies, n - 1).insert(cookies[n - 1].name, cookies[n - 1].value)
    }
}

/// The jar once the first `n` of the cookies named are removed.
pub open spec fn without_cookies(jar: Jar, names: Seq<Seq<char>>, n: int) -> Jar
    decreases n,
{
    if n <= 0 {
        jar
    } else {
        without_cookies(jar, names, n - 1).remove(names[n - 1])
    }
}

/// The jar of a browser that has taken the answer to a login.
pub open spec fn after_login(jar: Jar, login: LoginValue) -> Jar {
    with_cookies(jar, login.cookies, login.cookies.len() as int)
}

/// The jar of a browser that has taken the answer to a logout.
pub open spec fn after_logout(jar: Jar, logout: LogoutValue) -> Jar {
    without_cookies(jar, logout.removed, logout.removed.len() as int)
}

/// A login that succeeds leaves the browser logged in, with the token that
/// the exchange gave as its access token.
pub proof fn lemma_login_authenticates(jar: Jar, token: OAuthResponseValue, return_to: Seq<char>)
    ensures
        authenticated(after_login(jar, session(token, return_to))),
        after_login(jar, session(token, return_to))[ACCESS_TOKEN@] == token.access_token,
{
    reveal_strlit("access_token");
    reveal_strlit("refresh_token");
    assert(ACCESS_TOKEN@.len() != REFRESH_TOKEN@.len());
    reveal_with_fuel(with_cookies, 3);
}

/// A logout leaves the browser logged out, whatever it held. Of the other
/// cookies it touches none: a refresh token stays where it was.
pub proof fn lemma_logout_ends_session(jar: Jar)
    ensures
        !authenticated(after_logout(jar, logout())),
        forall|name: Seq<char>|
            name != ACCESS_TOKEN@ ==> (#[trigger] after_logout(jar, logout()).contains_key(name)
                <==> jar.contains_key(name)),
        forall|name: Seq<char>|
            name != ACCESS_TOKEN@ && jar.contains_key(name) ==> #[trigger] after_logout(
                jar,
                logout(),
            )[name] == jar[name],
{
    reveal_with_fuel(without_cookies, 2);
}

/// A callback that reports an error is denied with that error, whatever
/// code and state come with it; so no exchange is asked for, and no cookie
/// follows from it.
pub proof fn lemma_error_denies(config: ConfigValue, query: OAuthQueryValue)
    requires
        query.error is Some,
    ensures
        callback(config, query) == Err::<TokenRequestValue, AuthErrorValue>(
            AuthErrorValue::UpstreamDenied(query.error->0),
        ),
{
}

/// A login that succeeds sets the cookie of the access token first, for as
/// long as the token lasts, and sends the browser where the callback's
/// state said.
pub proof fn lemma_session_keeps_token(token: OAuthResponseValue, return_to: Seq<char>)
    ensures
        session(token, return_to).cookies.len() >= 1,
        session(token, return_to).cookies[0] == access_cookie(token),
        session(token, return_to).cookies[0].max_age == Some(token.expires_in),
        session(token, return_to).redirect == return_to,
        session(token, return_to).cookies.len() == 2 <==> token.refresh_token is Some,
{
}

} // verus!
