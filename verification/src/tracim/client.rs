//! What the answers of the server mean: the errors of the client, and the
//! session key in the cookie of a login.

use super::types::SessionKey;
use crate::text::{chars_of, string_of};
use vstd::prelude::*;
use vstd::string::StringExecFns;

verus! {

/// The error of a request.
#[derive(Debug)]
pub enum Error {
    /// The request failed in a way that is not told apart.
    UnexpectedError(String),
    /// The answer is not made as expected.
    StructureError(String),
    /// The server could not be reached, or did not answer in time.
    NetWorkError(String),
}

/// The `Set-Cookie` header of the answer to a login.
pub enum CookieHeader {
    /// The answer has no such header.
    Missing,
    /// The header is no text.
    Unreadable,
    /// The text of the header.
    Text(String),
}

/// The text that introduces the session key in a cookie.
pub open spec fn key_prefix() -> Seq<char> {
    "session_key="@
}

/// Whether `pattern` stands in `text` at position `at`.
pub open spec fn stands_at(text: Seq<char>, pattern: Seq<char>, at: int) -> bool {
    0 <= at && at + pattern.len() <= text.len() && text.subrange(at, at + pattern.len())
        == pattern
}

/// The first position at or after `from` at which `pattern` stands in `text`,
/// or the length of `text` where it stands at none.
pub open spec fn find_from(text: Seq<char>, pattern: Seq<char>, from: int) -> int
    decreases text.len() - from,
{
    if from < 0 || from + pattern.len() > text.len() {
        text.len() as int
    } else if stands_at(text, pattern, from) {
        from
    } else if from >= text.len() {
        text.len() as int
    } else {
        find_from(text, pattern, from + 1)
    }
}

/// The first position at or after `from` that holds `c`, or `to` where none
/// before `to` does.
pub open spec fn find_char(text: Seq<char>, c: char, from: int, to: int) -> int
    decreases to - from,
{
    if from < 0 || from >= to || to > text.len() {
        to
    } else if text[from] == c {
        from
    } else {
        find_char(text, c, from + 1, to)
    }
}

/// The session key in the text of a cookie: what follows the first
/// `session_key=`, up to the next semicolon, the next `session_key=` or the
/// end. `None` where the cookie has no `session_key=`.
pub open spec fn session_key_in(cookie: Seq<char>) -> Option<Seq<char>> {
    let prefix = key_prefix();
    let at = find_from(cookie, prefix, 0);
    if at >= cookie.len() {
        None
    } else {
        let start = at + prefix.len();
        let next = find_from(cookie, prefix, start);
        Some(cookie.subrange(start, find_char(cookie, ';', start, next)))
    }
}

/// The message of the error of each way in which a login answers without a
/// session key.
pub open spec fn missing_key_message(header: CookieHeader) -> Seq<char> {
    match header {
        CookieHeader::Missing => "Auth login response don't contains Set-Cookie header"@,
        CookieHeader::Unreadable => "Can't read Set-Cookie header value as str"@,
        CookieHeader::Text(_) => "Can't read Set-Cookie header value session_key= part"@,
    }
}

impl Error {
    /// The message of the error.
    pub open spec fn message(self) -> Seq<char> {
        match self {
            Error::UnexpectedError(message) => message@,
            Error::StructureError(message) => message@,
            Error::NetWorkError(message) => message@,
        }
    }

    /// The error of a request that failed with the description `message`: a
    /// network error where the connection or the time failed, else an
    /// unexpected one.
    pub fn of_request(is_connect: bool, is_timeout: bool, message: String) -> (error: Error)
        ensures
            error == if is_connect || is_timeout {
                Error::NetWorkError(message)
            } else {
                Error::UnexpectedError(message)
            },
    {
        if is_connect || is_timeout {
            Error::NetWorkError(message)
        } else {
            Error::UnexpectedError(message)
        }
    }

    /// What the error says to the user: its kind, then its message.
    pub fn describe(&self) -> (text: String)
        ensures
            text@ == match *self {
                Error::NetWorkError(message) => "Network error : "@ + message@,
                Error::UnexpectedError(message) => "Unexpected error : "@ + message@,
                Error::StructureError(message) => "Structure error : "@ + message@,
            },
    {
        match self {
            Error::NetWorkError(message) => {
                let mut text = String::from_str("Network error : ");
                text.append(message.as_str());
                text
            },
            Error::UnexpectedError(message) => {
                let mut text = String::from_str("Unexpected error : ");
                text.append(message.as_str());
                text
            },
            Error::StructureError(message) => {
                let mut text = String::from_str("Structure error : ");
                text.append(message.as_str());
                text
            },
        }
    }
}

/// Whether `pattern` stands in `text` at position `at`.
fn is_at(text: &Vec<char>, pattern: &Vec<char>, at: usize) -> (found: bool)
    ensures
        found == stands_at(text@, pattern@, at as int),
{
    if at > text.len() || pattern.len() > text.len() - at {
        return false;
    }
    for i in 0..pattern.len()
        invariant
            at + pattern.len() <= text.len(),
            text@.subrange(at as int, at + i) == pattern@.take(i as int),
    {
        if text[at + i] != pattern[i] {
            assert(text@.subrange(at as int, at + pattern.len())[i as int] != pattern@[i as int]);
            return false;
        }
        assert(text@.subrange(at as int, at + i + 1) == text@.subrange(at as int, at + i).push(
            text@[at + i],
        ));
        assert(pattern@.take(i + 1) == pattern@.take(i as int).push(pattern@[i as int]));
    }
    assert(pattern@.take(pattern@.len() as int) == pattern@);
    true
}

/// The first position at or after `from` at which `pattern` stands in `text`,
/// or the length of `text`.
fn find(text: &Vec<char>, pattern: &Vec<char>, from: usize) -> (at: usize)
    ensures
        at == find_from(text@, pattern@, from as int),
        at <= text.len(),
        from <= text.len() ==> from <= at,
        at < text.len() ==> stands_at(text@, pattern@, at as int),
{
    let mut at: usize = from;
    while at < text.len() && pattern.len() <= text.len() - at
        invariant
            from <= at,
            find_from(text@, pattern@, from as int) == find_from(text@, pattern@, at as int),
        decreases text.len() - at,
    {
        if is_at(text, pattern, at) {
            return at;
        }
        at += 1;
    }
    if at <= text.len() && pattern.len() <= text.len() - at {
        // An empty pattern stands at the end of the text.
        assert(at == text.len());
        assert(pattern@.len() == 0);
        assert(text@.subrange(at as int, at as int) =~= pattern@);
        return at;
    }
    text.len()
}

/// The session key that the answer to a login carries in its `Set-Cookie`
/// header. Fails where there is no such header, where it is no text, and
/// where the text holds no `session_key=`.
pub fn read_session_key(header: &CookieHeader) -> (result: Result<SessionKey, Error>)
    ensures
        match result {
            Ok(key) => *header matches CookieHeader::Text(cookie) && session_key_in(cookie@)
                == Some(key.0@),
            Err(error) => error matches Error::StructureError(message) && message@
                == missing_key_message(*header) && (*header matches CookieHeader::Text(cookie)
                ==> session_key_in(cookie@) is None),
        },
{
    let cookie = match header {
        CookieHeader::Missing => {
            return Err(
                Error::StructureError(
                    String::from_str("Auth login response don't contains Set-Cookie header"),
                ),
            );
        },
        CookieHeader::Unreadable => {
            return Err(
                Error::StructureError(
                    String::from_str("Can't read Set-Cookie header value as str"),
                ),
            );
        },
        CookieHeader::Text(cookie) => chars_of(cookie.as_str()),
    };
    let prefix = chars_of("session_key=");
    let at = find(&cookie, &prefix, 0);
    if at >= cookie.len() {
        return Err(
            Error::StructureError(
                String::from_str("Can't read Set-Cookie header value session_key= part"),
            ),
        );
    }
    proof {
        reveal_strlit("session_key=");
    }
    let start = at + prefix.len();
    let next = find(&cookie, &prefix, start);
    let mut end: usize = start;
    while end < next && cookie[end] != ';'
        invariant
            start <= end <= next <= cookie.len(),
            find_char(cookie@, ';', start as int, next as int) == find_char(
                cookie@,
                ';',
                end as int,
                next as int,
            ),
        decreases next - end,
    {
        end += 1;
    }
    let mut key: Vec<char> = Vec::new();
    for i in start..end
        invariant
            start <= end <= cookie.len(),
            key@ == cookie@.subrange(start as int, i as int),
    {
        key.push(cookie[i]);
        assert(cookie@.subrange(start as int, i + 1) == cookie@.subrange(
            start as int,
            i as int,
        ).push(cookie@[i as int]));
    }
    Ok(SessionKey(string_of(&key)))
}

} // verus!
