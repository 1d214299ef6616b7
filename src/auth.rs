//! The login handshake: what is sent, how the session token is read from the
//! answer, and how a failed login is classified.
use vstd::prelude::*;
use vstd::string::*;
use crate::error::{Error, ErrorType, message_of};
use crate::dispatch::{is_success, success_status};

verus! {

/// The credentials of an account. They are fixed once the client is made.
#[derive(Debug, Clone)]
pub struct Credentials {
    pub username: String,
    pub password: String,
}

impl Credentials {
    /// Credentials made of `username` and `password`.
    pub fn new(username: String, password: String) -> (r: Credentials)
        ensures
            r.username@ == username@,
            r.password@ == password@,
    {
        Credentials { username, password }
    }
}

/// The path of the login endpoint, below the API prefix.
pub const LOGIN_PATH: &'static str = "/auth/login";

/// The URL that the login form is posted to.
pub fn login_url(authority: &str) -> (r: String)
    ensures
        r@ == authority@ + "/api/v2"@ + LOGIN_PATH@,
{
    crate::text::concat3(authority, "/api/v2", LOGIN_PATH)
}

/// The fields of the login form, in order: `username` then `password`.
pub fn login_form(credentials: &Credentials) -> (r: Vec<(String, String)>)
    ensures
        r@.len() == 2,
        r@[0].0@ == "username"@,
        r@[0].1@ == credentials.username@,
        r@[1].0@ == "password"@,
        r@[1].1@ == credentials.password@,
{
    let mut r: Vec<(String, String)> = Vec::new();
    r.push((String::from_str("username"), credentials.username.clone()));
    r.push((String::from_str("password"), credentials.password.clone()));
    r
}

/// Whether `c` ends a segment of a `set-cookie` value.
pub open spec fn is_cookie_delimiter(c: char) -> bool {
    c == '=' || c == ';'
}

/// The characters of `s` before its first `=` or `;`.
pub open spec fn leading_segment(s: Seq<char>) -> Seq<char>
    decreases s.len(),
{
    if s.len() == 0 || is_cookie_delimiter(s[0]) {
        Seq::empty()
    } else {
        seq![s[0]] + leading_segment(s.drop_first())
    }
}

/// The characters of `s` after its first `=`, if it has one.
pub open spec fn after_first_equals(s: Seq<char>) -> Option<Seq<char>>
    decreases s.len(),
{
    if s.len() == 0 {
        None
    } else if s[0] == '=' {
        Some(s.drop_first())
    } else {
        after_first_equals(s.drop_first())
    }
}

/// The session token carried by a `set-cookie` header value: the value is
/// split on `=`, the part after the first `=` is split on `;`, and the first
/// piece is the token. A value without `=` carries no token.
pub open spec fn cookie_token(header: Seq<char>) -> Option<Seq<char>> {
    match after_first_equals(header) {
        Some(rest) => Some(leading_segment(rest)),
        None => None,
    }
}

/// Whether `t` can stand as a cookie value: it holds no `=` and no `;`.
pub open spec fn plain_cookie_value(t: Seq<char>) -> bool {
    forall|i: int| 0 <= i < t.len() ==> !is_cookie_delimiter(#[trigger] t[i])
}

/// A run of characters without delimiters is kept whole by `leading_segment`.
proof fn lemma_leading_segment_plain(t: Seq<char>, tail: Seq<char>)
    requires
        plain_cookie_value(t),
    ensures
        leading_segment(t + tail) == t + leading_segment(tail),
    decreases t.len(),
{
    if t.len() > 0 {
        let rest = t.drop_first();
        assert(plain_cookie_value(rest)) by {
            assert forall|i: int| 0 <= i < rest.len() implies !is_cookie_delimiter(
                #[trigger] rest[i],
            ) by {
                assert(rest[i] == t[i + 1]);
            }
        }
        lemma_leading_segment_plain(rest, tail);
        assert((t + tail).drop_first() =~= rest + tail);
        assert((t + tail)[0] == t[0]);
        assert(t =~= seq![t[0]] + rest);
    } else {
        assert(t + tail =~= tail);
    }
}

/// The session token round trip: a `set-cookie` value made of the name
/// `SID`, `=`, a token without `=` or `;`, and then either nothing or `;`
/// followed by any attributes, carries exactly that token.
pub proof fn lemma_token_round_trip(token: Seq<char>, attributes: Seq<char>)
    requires
        plain_cookie_value(token),
    ensures
        cookie_token("SID="@ + token) == Some(token),
        cookie_token("SID="@ + token + ";"@ + attributes) == Some(token),
{
    reveal_strlit("SID=");
    reveal_strlit(";");
    reveal_with_fuel(after_first_equals, 5);
    let prefix = "SID="@;
    assert forall|rest: Seq<char>| #[trigger] after_first_equals(prefix + rest) == Some(rest) by {
        let s0 = prefix + rest;
        let s1 = s0.drop_first();
        let s2 = s1.drop_first();
        let s3 = s2.drop_first();
        assert(s0[0] == 'S');
        assert(s1[0] == 'I');
        assert(s2[0] == 'D');
        assert(s3[0] == '=');
        assert(s3.drop_first() =~= rest);
    }
    lemma_leading_segment_plain(token, Seq::empty());
    assert(token + Seq::<char>::empty() =~= token);
    assert("SID="@ + token + ";"@ + attributes =~= prefix + (token + (";"@ + attributes)));
    lemma_leading_segment_plain(token, ";"@ + attributes);
    assert((";"@ + attributes)[0] == ';');
    assert(token + Seq::<char>::empty() =~= token);
}

/// Reads the session token out of a `set-cookie` header value, as
/// `cookie_token` describes; `None` when the value holds no `=`.
pub fn extract_token(header: &str) -> (r: Option<String>)
    ensures
        match r {
            Some(t) => cookie_token(header@) == Some(t@),
            None => cookie_token(header@) is None,
        },
{
    let n: usize = header.unicode_len();
    let mut i: usize = 0;
    assert(header@.subrange(0, n as int) =~= header@);
    while i < n
        invariant
            n == header@.len(),
            i <= n,
            after_first_equals(header@) == after_first_equals(header@.subrange(i as int, n as int)),
        decreases n - i,
    {
        let c = header.get_char(i);
        assert(header@.subrange(i as int, n as int).drop_first() =~= header@.subrange(
            i + 1,
            n as int,
        ));
        if c == '=' {
            let start: usize = i + 1;
            let mut j: usize = start;
            assert(header@.subrange(start as int, start as int) + leading_segment(header@.subrange(start as int, n as int)) =~= leading_segment(header@.subrange(start as int, n as int)));
            while j < n
                invariant
                    n == header@.len(),
                    start <= j <= n,
                    leading_segment(header@.subrange(start as int, n as int)) == header@.subrange(
                        start as int,
                        j as int,
                    ) + leading_segment(header@.subrange(j as int, n as int)),
                ensures
                    start <= j <= n,
                    j < n ==> is_cookie_delimiter(header@[j as int]),
                    leading_segment(header@.subrange(start as int, n as int)) == header@.subrange(
                        start as int,
                        j as int,
                    ) + leading_segment(header@.subrange(j as int, n as int)),
                decreases n - j,
            {
                let d = header.get_char(j);
                if d == '=' || d == ';' {
                    break;
                }
                assert(header@.subrange(j as int, n as int).drop_first() =~= header@.subrange(
                    j + 1,
                    n as int,
                ));
                assert(header@.subrange(start as int, j + 1) =~= header@.subrange(
                    start as int,
                    j as int,
                ) + seq![d]);
                j = j + 1;
            }
            proof {
                let tail = header@.subrange(j as int, n as int);
                if j < n {
                    assert(tail[0] == header@[j as int]);
                }
                assert(leading_segment(tail) =~= Seq::empty());
                assert(header@.subrange(start as int, j as int) + Seq::<char>::empty() =~= header@.subrange(start as int, j as int));
            }
            let token = header.substring_char(start, j);
            return Some(String::from_str(token));
        }
        i = i + 1;
    }
    assert(header@.subrange(n as int, n as int) =~= Seq::empty());
    None
}

/// What the transport reports of a login answer: its status code and its
/// `set-cookie` header, if it had one that is readable text.
pub struct LoginResponse {
    pub status: u16,
    pub set_cookie: Option<String>,
}

/// The description carried by the error for an unexpected login status.
pub const LOGIN_FAILED: &'static str = "Something went wrong while getting the auth cookie.";

/// Classifies the outcome of the login request.
///
/// A transport failure (`Err`, with its description) is a `ReqwestError`. A
/// 2xx answer whose `set-cookie` header carries a token gives that token; a
/// 2xx answer without one means the credentials were refused (`WrongCreds`).
/// A 403 answer means too many failed attempts; any other status is a
/// `MiscError` with that status code.
pub fn classify_login(outcome: Result<LoginResponse, String>) -> (r: Result<String, Error>)
    ensures
        match outcome {
            Err(msg) => r matches Err(e) && e.err_type == ErrorType::ReqwestError(msg)
                && e.code is None,
            Ok(resp) => if success_status(resp.status) {
                match (resp.set_cookie, r) {
                    (Some(h), Ok(t)) => cookie_token(h@) == Some(t@),
                    (Some(h), Err(e)) => cookie_token(h@) is None && e.err_type
                        == ErrorType::WrongCreds && e.code is None,
                    (None, Err(e)) => e.err_type == ErrorType::WrongCreds && e.code is None,
                    (None, Ok(_)) => false,
                }
            } else if resp.status == 403 {
                r matches Err(e) && e.err_type == ErrorType::TooManyFailedAttempts && e.code
                    == Some(403u16)
            } else {
                r matches Err(e) && e.err_type matches ErrorType::MiscError(m) && m@
                    == LOGIN_FAILED@ && e.code == Some(resp.status)
            },
        },
        r matches Err(e) ==> e.message@ == message_of(e.err_type),
{
    match outcome {
        Err(msg) => Err(Error::build(ErrorType::ReqwestError(msg), None)),
        Ok(resp) => {
            if is_success(resp.status) {
                match resp.set_cookie {
                    Some(h) => match extract_token(h.as_str()) {
                        Some(t) => Ok(t),
                        None => Err(Error::build(ErrorType::WrongCreds, None)),
                    },
                    None => Err(Error::build(ErrorType::WrongCreds, None)),
                }
            } else if resp.status == 403 {
                Err(Error::build(ErrorType::TooManyFailedAttempts, Some(403)))
            } else {
                Err(
                    Error::build(
                        ErrorType::MiscError(String::from_str(LOGIN_FAILED)),
                        Some(resp.status),
                    ),
                )
            }
        },
    }
}

} // verus!
