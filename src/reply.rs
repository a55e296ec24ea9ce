//! The HTTP replies of the two endpoints: status, body and redirect target.
use vstd::prelude::*;
use vstd::string::StringExecFns;

verus! {

/// What an endpoint answers.
pub enum Reply {
    /// 302 Found, with the stored URL as `Location`.
    Redirect { location: String },
    /// 404, plain text `URL not found`.
    NotFound,
    /// 400, JSON `{"error":"Invalid URL"}`.
    InvalidUrl,
    /// 500, JSON `{"error":"Failed to shorten URL"}`.
    ShortenFailed,
    /// 200, JSON `{"shortUrl":"<base>/<id>"}`.
    Created { short_url: String },
}

/// A reply with its text as character sequences.
pub enum ReplyView {
    Redirect(Seq<char>),
    NotFound,
    InvalidUrl,
    ShortenFailed,
    Created(Seq<char>),
}

impl View for Reply {
    type V = ReplyView;

    open spec fn view(&self) -> ReplyView {
        match self {
            Reply::Redirect { location } => ReplyView::Redirect(location@),
            Reply::NotFound => ReplyView::NotFound,
            Reply::InvalidUrl => ReplyView::InvalidUrl,
            Reply::ShortenFailed => ReplyView::ShortenFailed,
            Reply::Created { short_url } => ReplyView::Created(short_url@),
        }
    }
}

/// How a body is to be labelled.
#[derive(PartialEq, Eq, Structural, Clone, Copy, Debug)]
pub enum BodyKind {
    Empty,
    PlainText,
    Json,
}

/// A lowercase hexadecimal digit, for `n < 16`.
pub open spec fn hex_digit(n: u32) -> char {
    "0123456789abcdef"@[n as int]
}

/// One character inside a JSON string: quote and backslash escaped, the
/// controls with a short escape where JSON has one, the other controls as
/// `\u00xx`, everything else as it is.
pub open spec fn json_escape_char(c: char) -> Seq<char> {
    if c == '"' {
        seq!['\\', '"']
    } else if c == '\\' {
        seq!['\\', '\\']
    } else if c == '\u{8}' {
        seq!['\\', 'b']
    } else if c == '\t' {
        seq!['\\', 't']
    } else if c == '\n' {
        seq!['\\', 'n']
    } else if c == '\u{c}' {
        seq!['\\', 'f']
    } else if c == '\r' {
        seq!['\\', 'r']
    } else if (c as u32) < 32 {
        seq!['\\', 'u', '0', '0', hex_digit(c as u32 / 16), hex_digit(c as u32 % 16)]
    } else {
        seq![c]
    }
}

/// The characters of `s`, each escaped for a JSON string.
pub open spec fn json_escaped(s: Seq<char>) -> Seq<char>
    decreases s.len(),
{
    if s.len() == 0 {
        Seq::empty()
    } else {
        json_escaped(s.drop_last()) + json_escape_char(s.last())
    }
}

/// The JSON string literal for `s`: the escaped text between double quotes.
pub open spec fn json_string_of(s: Seq<char>) -> Seq<char> {
    seq!['"'] + json_escaped(s) + seq!['"']
}

/// Relies on `serde_json::to_string` applied to a `str`: the string as a JSON
/// string literal, escaped as `json_escape_char` says. Writing a `str` into
/// memory has no failing case, so the default is never taken.
#[verifier::external_body]
fn json_string(s: &str) -> (r: String)
    ensures
        r@ == json_string_of(s@),
{
    serde_json::to_string(s).unwrap_or_default()
}

pub open spec fn status_of(r: ReplyView) -> u16 {
    match r {
        ReplyView::Redirect(_) => 302,
        ReplyView::NotFound => 404,
        ReplyView::InvalidUrl => 400,
        ReplyView::ShortenFailed => 500,
        ReplyView::Created(_) => 200,
    }
}

pub open spec fn body_kind_of(r: ReplyView) -> BodyKind {
    match r {
        ReplyView::Redirect(_) => BodyKind::Empty,
        ReplyView::NotFound => BodyKind::PlainText,
        _ => BodyKind::Json,
    }
}

pub open spec fn created_body(short_url: Seq<char>) -> Seq<char> {
    "{\"shortUrl\":"@ + json_string_of(short_url) + "}"@
}

pub open spec fn body_of(r: ReplyView) -> Seq<char> {
    match r {
        ReplyView::Redirect(_) => Seq::empty(),
        ReplyView::NotFound => "URL not found"@,
        ReplyView::InvalidUrl => "{\"error\":\"Invalid URL\"}"@,
        ReplyView::ShortenFailed => "{\"error\":\"Failed to shorten URL\"}"@,
        ReplyView::Created(u) => created_body(u),
    }
}

pub open spec fn location_of(r: ReplyView) -> Option<Seq<char>> {
    match r {
        ReplyView::Redirect(u) => Some(u),
        _ => None,
    }
}

impl Reply {
    /// The HTTP status code.
    pub fn status(&self) -> (r: u16)
        ensures
            r == status_of(self@),
    {
        match self {
            Reply::Redirect { .. } => 302,
            Reply::NotFound => 404,
            Reply::InvalidUrl => 400,
            Reply::ShortenFailed => 500,
            Reply::Created { .. } => 200,
        }
    }

    /// Whether the body is empty, plain text or JSON.
    pub fn body_kind(&self) -> (r: BodyKind)
        ensures
            r == body_kind_of(self@),
    {
        match self {
            Reply::Redirect { .. } => BodyKind::Empty,
            Reply::NotFound => BodyKind::PlainText,
            _ => BodyKind::Json,
        }
    }

    /// The body text.
    pub fn body(&self) -> (r: String)
        ensures
            r@ == body_of(self@),
    {
        match self {
            Reply::Redirect { .. } => String::new(),
            Reply::NotFound => String::from_str("URL not found"),
            Reply::InvalidUrl => String::from_str("{\"error\":\"Invalid URL\"}"),
            Reply::ShortenFailed => String::from_str("{\"error\":\"Failed to shorten URL\"}"),
            Reply::Created { short_url } => {
                let mut body = String::from_str("{\"shortUrl\":");
                let quoted = json_string(short_url.as_str());
                body.append(quoted.as_str());
                body.append("}");
                body
            },
        }
    }

    /// The `Location` header, present on a redirect only.
    pub fn location(&self) -> (r: Option<String>)
        ensures
            match r {
                Some(s) => location_of(self@) == Some(s@),
                None => location_of(self@) is None,
            },
    {
        match self {
            Reply::Redirect { location } => Some(location.clone()),
            _ => None,
        }
    }
}

} // verus!
