//! The rules of access: setup tokens and login sessions, the
//! session cookie, and who may see which page.

use rand::Rng;
use vstd::prelude::*;
use vstd::string::{StrSliceExecFns, StringExecFns};
use crate::text::{
    chars_of, copy_range, has_prefix, matches_at, push_char, split, split_at_char, str_eq,
    string_of_range, trim_bounds, trimmed,
};

verus! {

/// The name of the session cookie.
pub const SESSION_COOKIE: &'static str = "noirtty_session";

/// How long a login session is valid, in seconds: 24 hours.
pub const SESSION_DURATION_SECS: i64 = 86400;

/// Length of a token, in characters.
pub const TOKEN_LEN: usize = 32;

/// The characters that tokens are made of: letters and digits without the
/// ones that are easily mistaken for one another.
pub open spec fn token_charset() -> Seq<char> {
    "ABCDEFGHJKLMNPQRSTUVWXYZabcdefghjkmnpqrstuvwxyz23456789"@
}

/// A well-formed token: 32 characters of the token character set.
pub open spec fn is_token(token: Seq<char>) -> bool {
    token.len() == TOKEN_LEN && forall|i: int|
        0 <= i < token.len() ==> token_charset().contains(#[trigger] token[i])
}

/// A random number below `n`.
///
/// Wraps `rand::Rng::gen_range` on the thread's generator with the range
/// `0..n`, which must not be empty. Of the result only the range is
/// claimed; two calls may give any two numbers of it.
#[verifier::external_body]
fn random_below(n: usize) -> (i: usize)
    requires
        n > 0,
    ensures
        i < n,
{
    rand::thread_rng().gen_range(0..n)
}

/// Generates a random token for setup and for login sessions.
pub fn generate_token() -> (token: String)
    ensures
        is_token(token@),
{
    let charset: &str = "ABCDEFGHJKLMNPQRSTUVWXYZabcdefghjkmnpqrstuvwxyz23456789";
    proof {
        reveal_strlit("ABCDEFGHJKLMNPQRSTUVWXYZabcdefghjkmnpqrstuvwxyz23456789");
    }
    let mut token = String::new();
    let mut i: usize = 0;
    while i < TOKEN_LEN
        invariant
            i <= TOKEN_LEN,
            charset@ == token_charset(),
            charset@.len() == 55,
            token@.len() == i,
            forall|j: int| 0 <= j < i ==> token_charset().contains(#[trigger] token@[j]),
        decreases TOKEN_LEN - i,
    {
        let idx: usize = random_below(charset.unicode_len());
        let c: char = charset.get_char(idx);
        push_char(&mut token, c);
        i = i + 1;
    }
    token
}

/// When a login session that begins at `now` ends; both in seconds since
/// the epoch.
pub fn session_expiry(now: i64) -> (expiry: i64)
    ensures
        expiry == (if now + SESSION_DURATION_SECS <= i64::MAX {
            now + SESSION_DURATION_SECS
        } else {
            i64::MAX as int
        }),
{
    if now > i64::MAX - SESSION_DURATION_SECS {
        i64::MAX
    } else {
        now + SESSION_DURATION_SECS
    }
}

/// Whether a login session is valid at `now`: it is known, and its expiry
/// lies in the future.
pub fn session_is_valid(expiry: Option<i64>, now: i64) -> (valid: bool)
    ensures
        valid == (expiry matches Some(e) && e > now),
{
    match expiry {
        Some(e) => e > now,
        None => false,
    }
}

/// Whether a setup token is the one that is in force.
pub fn setup_token_matches(current: Option<&str>, offered: &str) -> (valid: bool)
    ensures
        valid == (current matches Some(t) && t@ == offered@),
{
    match current {
        Some(t) => str_eq(t, offered),
        None => false,
    }
}

/// Whether a host gets open access: passkeys work neither for an IP
/// address nor for a `.local` name.
pub open spec fn open_access(host: Seq<char>, host_is_ip: bool) -> bool {
    host_is_ip || (host.len() >= 6 && host.subrange(host.len() - 6, host.len() as int)
        == ".local"@)
}

/// Decides whether a host gets open access, given whether it parses as an
/// IP address.
pub fn host_has_open_access(host: &str, host_is_ip: bool) -> (open: bool)
    ensures
        open == open_access(host@, host_is_ip),
{
    if host_is_ip {
        return true;
    }
    let chars: Vec<char> = chars_of(host);
    let tail: Vec<char> = chars_of(".local");
    proof {
        reveal_strlit(".local");
    }
    if chars.len() < 6 {
        return false;
    }
    let at: usize = chars.len() - 6;
    let found: bool = matches_at(chars.as_slice(), at, tail.as_slice());
    proof {
        let rest = chars@.subrange(at as int, chars@.len() as int);
        assert(rest.subrange(0, 6) =~= rest);
    }
    found
}

/// Whether a setup token has to be issued: only where passkeys are in use
/// and none is registered.
pub fn setup_token_needed(open_access: bool, has_credential: bool) -> (needed: bool)
    ensures
        needed == (!open_access && !has_credential),
{
    !open_access && !has_credential
}

/// Whether a passkey counts as registered: never under open access.
pub fn is_registered(open_access: bool, has_credential: bool) -> (registered: bool)
    ensures
        registered == (!open_access && has_credential),
{
    !open_access && has_credential
}

/// Whether a request is let in: always under open access and
/// while no passkey is registered, else only with a valid session.
pub fn request_authorized(open_access: bool, registered: bool, session_valid: bool) -> (ok: bool)
    ensures
        ok == (open_access || !registered || session_valid),
{
    open_access || !registered || session_valid
}

/// What a request for a page gets.
#[derive(Clone, Copy, Debug, PartialEq, Eq, Structural)]
pub enum PageOutcome {
    /// The page itself.
    Serve,
    /// A redirect to the terminal.
    ToTerminal,
    /// A redirect to the login page.
    ToLogin,
    /// The notice that setup is required.
    SetupRequired,
    /// Refused: a passkey is already registered.
    AlreadyConfigured,
    /// Refused: the setup token is not valid.
    InvalidToken,
}

/// What a request for the terminal page gets.
pub fn index_outcome(open_access: bool, registered: bool, session_valid: bool) -> (out: PageOutcome)
    ensures
        out == (if !registered && !open_access {
            PageOutcome::SetupRequired
        } else if !(open_access || !registered || session_valid) {
            PageOutcome::ToLogin
        } else {
            PageOutcome::Serve
        }),
{
    if !registered && !open_access {
        PageOutcome::SetupRequired
    } else if !request_authorized(open_access, registered, session_valid) {
        PageOutcome::ToLogin
    } else {
        PageOutcome::Serve
    }
}

/// What a request for the setup page gets.
pub fn setup_outcome(open_access: bool, registered: bool, token_valid: bool) -> (out: PageOutcome)
    ensures
        out == (if open_access {
            PageOutcome::ToTerminal
        } else if registered {
            PageOutcome::AlreadyConfigured
        } else if !token_valid {
            PageOutcome::InvalidToken
        } else {
            PageOutcome::Serve
        }),
{
    if open_access {
        PageOutcome::ToTerminal
    } else if registered {
        PageOutcome::AlreadyConfigured
    } else if !token_valid {
        PageOutcome::InvalidToken
    } else {
        PageOutcome::Serve
    }
}

/// What a request for the login page gets.
pub fn login_outcome(open_access: bool, registered: bool) -> (out: PageOutcome)
    ensures
        out == (if open_access || !registered {
            PageOutcome::ToTerminal
        } else {
            PageOutcome::Serve
        }),
{
    if open_access || !registered {
        PageOutcome::ToTerminal
    } else {
        PageOutcome::Serve
    }
}

/// The session that the first fitting piece of a cookie header names, from
/// piece `from` on: the rest of the first piece that, without surrounding
/// white space, begins with the cookie's name and `=`.
pub open spec fn session_in(pieces: Seq<Seq<char>>, from: int) -> Option<Seq<char>>
    decreases pieces.len() - from,
{
    if from < 0 || from >= pieces.len() {
        None
    } else {
        let piece = trimmed(pieces[from]);
        if has_prefix(piece, "noirtty_session="@) {
            Some(piece.subrange("noirtty_session="@.len() as int, piece.len() as int))
        } else {
            session_in(pieces, from + 1)
        }
    }
}

/// The session that a cookie header names, if it names one.
pub open spec fn cookie_session(cookie: Seq<char>) -> Option<Seq<char>> {
    session_in(split_at_char(cookie, ';'), 0)
}

/// Reads the session identifier off the value of a cookie header.
pub fn session_from_cookie(cookie: &str) -> (session: Option<String>)
    ensures
        session.deep_view() == cookie_session(cookie@),
{
    let pieces: Vec<String> = split(cookie, ';');
    let key: Vec<char> = chars_of("noirtty_session=");
    let ghost all = pieces.deep_view();
    let mut i: usize = 0;
    while i < pieces.len()
        invariant
            i <= pieces@.len(),
            all == pieces.deep_view(),
            all == split_at_char(cookie@, ';'),
            key@ == "noirtty_session="@,
            session_in(all, i as int) == cookie_session(cookie@),
        decreases pieces@.len() - i,
    {
        let chars: Vec<char> = chars_of(pieces[i].as_str());
        let (from, to) = trim_bounds(chars.as_slice());
        let inner: Vec<char> = copy_range(chars.as_slice(), from, to);
        assert(inner@.subrange(0, inner@.len() as int) =~= inner@);
        if matches_at(inner.as_slice(), 0, key.as_slice()) {
            return Some(string_of_range(inner.as_slice(), key.len(), inner.len()));
        }
        i = i + 1;
    }
    None
}

/// The text of the cookie that carries a session.
pub open spec fn session_cookie_text(session: Seq<char>) -> Seq<char> {
    "noirtty_session="@ + session
        + "; Path=/; HttpOnly; Secure; SameSite=Strict; Max-Age=86400"@
}

/// The value of the `Set-Cookie` header that hands a session to a client.
pub fn create_session_cookie(session: &str) -> (cookie: String)
    ensures
        cookie@ == session_cookie_text(session@),
{
    String::from_str("noirtty_session=").concat(session).concat(
        "; Path=/; HttpOnly; Secure; SameSite=Strict; Max-Age=86400",
    )
}

/// The value of the `Set-Cookie` header that clears the session.
pub fn create_logout_cookie() -> (cookie: String)
    ensures
        cookie@ == "noirtty_session=; Path=/; HttpOnly; Secure; SameSite=Strict; Max-Age=0"@,
{
    String::from_str("noirtty_session=; Path=/; HttpOnly; Secure; SameSite=Strict; Max-Age=0")
}

} // verus!
