//! Parsing and validating the HTTP request line.
//!
//! The accepted grammar is closed by design: exactly three
//! whitespace-separated tokens, the first `GET` and the third `HTTP/1.1`.
//! Anything else is rejected uniformly.

use crate::split::{is_sep, lemma_sep_end_eq, pieces, pieces_from, split_nonempty, SepKind};
use vstd::prelude::*;

verus! {

/// A parsed HTTP request line.
///
/// Stores only the essential components of an HTTP request: the request
/// method, the requested URL path (raw, as received, including any query
/// string or fragment), and the HTTP version. Headers and bodies are never
/// parsed. A `Request` exists only if its request line had exactly three
/// whitespace-separated tokens, the first being `GET` and the third
/// `HTTP/1.1`.
#[derive(Debug)]
pub struct Request {
    url: String,
    method: String,
    version: String,
}

/// The ghost value of a [`Request`]: its three tokens as character
/// sequences.
pub struct RequestGhost {
    pub url: Seq<char>,
    pub method: Seq<char>,
    pub version: Seq<char>,
}

impl View for Request {
    type V = RequestGhost;

    closed spec fn view(&self) -> RequestGhost {
        RequestGhost { url: self.url@, method: self.method@, version: self.version@ }
    }
}

/// Errors that can occur while parsing or validating an incoming HTTP
/// request.
#[derive(Clone, Copy, Debug, PartialEq, Eq, Structural)]
pub enum RequestError {
    /// The connection contained no request line.
    EmptyRequest,
    /// The request line did not contain exactly three parts
    /// (`METHOD`, `PATH`, `VERSION`).
    InvalidLength,
    /// An underlying I/O error occurred while reading from the stream.
    Io,
    /// The request line failed validation (unsupported method or version).
    InvalidHeader,
    /// The URL is not valid.
    InvalidURL,
}

impl RequestError {
    /// A human-readable description of the error.
    pub fn message(&self) -> (s: &'static str)
        ensures
            *self == RequestError::EmptyRequest ==> s@ == "Request was empty."@,
            *self == RequestError::InvalidLength ==> s@ == "Invalid length in header."@,
            *self == RequestError::Io ==> s@ == "I/O error while reading the request."@,
            *self == RequestError::InvalidHeader ==> s@
                == "The request is not a valid request"@,
            *self == RequestError::InvalidURL ==> s@ == "The url is not a valid url"@,
    {
        match self {
            RequestError::EmptyRequest => "Request was empty.",
            RequestError::InvalidLength => "Invalid length in header.",
            RequestError::Io => "I/O error while reading the request.",
            RequestError::InvalidHeader => "The request is not a valid request",
            RequestError::InvalidURL => "The url is not a valid url",
        }
    }
}

/// The whitespace-separated tokens of a request line.
pub open spec fn tokens_of(line: Seq<char>) -> Seq<Seq<char>> {
    pieces(SepKind::Whitespace, line)
}

/// Whether the three tokens of a request line pass validation: the method
/// is `GET` and the version is `HTTP/1.1`.
pub open spec fn header_ok(toks: Seq<Seq<char>>) -> bool {
    toks[0] == "GET"@ && toks[2] == "HTTP/1.1"@
}

impl Request {
    /// Parses the request line read off a connection and constructs a
    /// [`Request`].
    ///
    /// The caller hands over the first line of the stream, or `None` when
    /// the connection closed before any line arrived. Expects a request
    /// line of the form `GET <path> HTTP/1.1`.
    pub fn new(line: Option<&str>) -> (r: Result<Request, RequestError>)
        ensures
            match r {
                Ok(req) => {
                    &&& line is Some
                    &&& tokens_of(line->0@).len() == 3
                    &&& header_ok(tokens_of(line->0@))
                    &&& req@.method == tokens_of(line->0@)[0]
                    &&& req@.url == tokens_of(line->0@)[1]
                    &&& req@.version == tokens_of(line->0@)[2]
                },
                Err(e) => match e {
                    RequestError::EmptyRequest => line is None,
                    RequestError::InvalidLength => line is Some && tokens_of(line->0@).len()
                        != 3,
                    RequestError::InvalidHeader => line is Some && tokens_of(line->0@).len()
                        == 3 && !header_ok(tokens_of(line->0@)),
                    _ => false,
                },
            },
    {
        let line = match line {
            Some(l) => l,
            None => {
                return Err(RequestError::EmptyRequest);
            },
        };
        let mut data = split_nonempty(line, SepKind::Whitespace);
        if data.len() != 3 {
            return Err(RequestError::InvalidLength);
        }
        let version = data.pop().unwrap();
        let url = data.pop().unwrap();
        let method = data.pop().unwrap();
        if !(method == String::from_str("GET") && version == String::from_str("HTTP/1.1")) {
            return Err(RequestError::InvalidHeader);
        }
        Ok(Request { url, method, version })
    }

    /// The raw URL path token of the request line, exactly as received.
    pub fn url(&self) -> (r: &String)
        ensures
            r@ == self@.url,
    {
        &self.url
    }

    /// The method token of the request line.
    pub fn method(&self) -> (r: &String)
        ensures
            r@ == self@.method,
    {
        &self.method
    }

    /// The version token of the request line.
    pub fn version(&self) -> (r: &String)
        ensures
            r@ == self@.version,
    {
        &self.version
    }

    /// The request formatted as an HTTP request line:
    /// `<METHOD> <URL> <VERSION>`.
    pub fn request_line(&self) -> (s: String)
        ensures
            s@ == self@.method + " "@ + self@.url + " "@ + self@.version,
    {
        let mut s = self.method.clone();
        s.append(" ");
        s.append(self.url.as_str());
        s.append(" ");
        s.append(self.version.as_str());
        s
    }
}

/// Every request line of the form `GET <path> HTTP/1.1`, with `<path>` a
/// single non-empty whitespace-free token, tokenizes to exactly the three
/// tokens `GET`, `<path>`, `HTTP/1.1` — so parsing it succeeds and yields
/// the path token unmodified.
pub proof fn lemma_valid_line_tokens(path: Seq<char>)
    requires
        path.len() > 0,
        forall|k: int| 0 <= k < path.len() ==> !is_sep(SepKind::Whitespace, path[k]),
    ensures
        tokens_of("GET "@ + path + " HTTP/1.1"@) == seq!["GET"@, path, "HTTP/1.1"@],
{
    reveal_strlit("GET ");
    reveal_strlit("GET");
    reveal_strlit(" HTTP/1.1");
    reveal_strlit("HTTP/1.1");
    let line = "GET "@ + path + " HTTP/1.1"@;
    let n = path.len() as int;
    assert(line.len() == n + 13);
    assert forall|k: int| 0 <= k < 3 implies !is_sep(SepKind::Whitespace, line[k]) by {
        assert(line[k] == "GET "@[k]);
    }
    assert(is_sep(SepKind::Whitespace, line[3]));
    assert forall|k: int| 4 <= k < 4 + n implies !is_sep(SepKind::Whitespace, line[k]) by {
        assert(line[k] == path[k - 4]);
    }
    assert(is_sep(SepKind::Whitespace, line[4 + n]));
    assert forall|k: int| 5 + n <= k < 13 + n implies !is_sep(SepKind::Whitespace, line[k]) by {
        assert(line[k] == " HTTP/1.1"@[k - 4 - n]);
    }
    lemma_sep_end_eq(SepKind::Whitespace, line, 0, 3);
    lemma_sep_end_eq(SepKind::Whitespace, line, 4, 4 + n);
    lemma_sep_end_eq(SepKind::Whitespace, line, 5 + n, 13 + n);
    assert(line.subrange(0, 3) =~= "GET"@);
    assert(line.subrange(4, 4 + n) =~= path);
    assert(line.subrange(5 + n, 13 + n) =~= "HTTP/1.1"@);
    assert(pieces_from(SepKind::Whitespace, line, 13 + n) =~= Seq::<Seq<char>>::empty());
    assert(pieces_from(SepKind::Whitespace, line, 5 + n) =~= seq!["HTTP/1.1"@]);
    assert(pieces_from(SepKind::Whitespace, line, 4 + n) == pieces_from(
        SepKind::Whitespace,
        line,
        5 + n,
    ));
    assert(pieces_from(SepKind::Whitespace, line, 4) =~= seq![path, "HTTP/1.1"@]);
    assert(pieces_from(SepKind::Whitespace, line, 3) == pieces_from(SepKind::Whitespace, line, 4));
    assert(tokens_of(line) =~= seq!["GET"@, path, "HTTP/1.1"@]);
}

} // verus!
