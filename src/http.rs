//! Parsing of the single HTTP request that opens a connection: request line,
//! query string, headers and optional body.
use crate::strmap::StrMap;
use crate::text::{
    chars_of, find_char, find_whitespace, first_index, lossy_of, lossy_text, lower_of, lowercase,
    same_chars, skip_whitespace, slice_of, string_of, trim, trimmed, word,
};
use vstd::prelude::*;
use vstd::string::*;

verus! {

/// Largest number of bytes read for a request; a read that fills it is
/// refused.
pub const MAX_REQUEST: usize = 1024;

#[derive(PartialEq, Eq, Structural, Debug, Clone, Copy)]
pub enum Method {
    GET,
    POST,
}

#[derive(PartialEq, Eq, Structural, Debug, Clone, Copy)]
pub enum RequestError {
    TooLarge,
    EmptyRequest,
    MissingMethod,
    MethodNotSupported,
    MissingPath,
}

pub open spec fn error_message(e: RequestError) -> Seq<char> {
    match e {
        RequestError::TooLarge => "Request too large"@,
        RequestError::EmptyRequest => "Empty Request"@,
        RequestError::MissingMethod => "Missing Method"@,
        RequestError::MethodNotSupported => "Method not supported"@,
        RequestError::MissingPath => "No Path"@,
    }
}

impl RequestError {
    /// The text sent back with a 400 response.
    pub fn message(&self) -> (r: String)
        ensures
            r@ == error_message(*self),
    {
        match self {
            RequestError::TooLarge => String::from_str("Request too large"),
            RequestError::EmptyRequest => String::from_str("Empty Request"),
            RequestError::MissingMethod => String::from_str("Missing Method"),
            RequestError::MethodNotSupported => String::from_str("Method not supported"),
            RequestError::MissingPath => String::from_str("No Path"),
        }
    }
}

pub open spec fn method_of(s: Seq<char>) -> Option<Method> {
    if s == "GET"@ {
        Some(Method::GET)
    } else if s == "POST"@ {
        Some(Method::POST)
    } else {
        None
    }
}

impl Method {
    pub fn try_from(value: &str) -> (r: Result<Method, RequestError>)
        ensures
            r matches Ok(m) ==> method_of(value@) == Some(m),
            r is Err <==> method_of(value@) is None,
            r is Err ==> r == Err::<Method, RequestError>(RequestError::MethodNotSupported),
    {
        let v = chars_of(value);
        if same_chars(&v, "GET") {
            Ok(Method::GET)
        } else if same_chars(&v, "POST") {
            Ok(Method::POST)
        } else {
            Err(RequestError::MethodNotSupported)
        }
    }
}

/// A parsed request, as plain values.
pub struct RequestModel {
    pub method: Method,
    pub path: Seq<char>,
    pub params: Option<Map<Seq<char>, Seq<char>>>,
    pub headers: Map<Seq<char>, Seq<char>>,
    pub body: Option<Seq<char>>,
}

pub struct Request {
    pub method: Method,
    pub path: String,
    pub params: Option<StrMap>,
    pub headers: StrMap,
    pub body: Option<String>,
}

impl View for Request {
    type V = RequestModel;

    open spec fn view(&self) -> RequestModel {
        RequestModel {
            method: self.method,
            path: self.path@,
            params: match self.params {
                Some(p) => Some(p@),
                None => None,
            },
            headers: self.headers@,
            body: match self.body {
                Some(b) => Some(b@),
                None => None,
            },
        }
    }
}

pub open spec fn with_entry(m: Map<Seq<char>, Seq<char>>, e: Option<(Seq<char>, Seq<char>)>) -> Map<
    Seq<char>,
    Seq<char>,
> {
    match e {
        Some((k, v)) => m.insert(k, v),
        None => m,
    }
}

/// The parameters of the `&`-separated pieces of `s`, where the piece that
/// stands at the scan position `i` started at `seg`, added to `m`; a later
/// entry of a key overrides an earlier one.
pub open spec fn scan_params(s: Seq<char>, i: int, seg: int, m: Map<Seq<char>, Seq<char>>) -> Map<
    Seq<char>,
    Seq<char>,
>
    decreases s.len() - i,
{
    if i >= s.len() {
        with_entry(m, param_entry(s.subrange(seg, s.len() as int)))
    } else if s[i] == '&' {
        scan_params(s, i + 1, i + 1, with_entry(m, param_entry(s.subrange(seg, i))))
    } else {
        scan_params(s, i + 1, seg, m)
    }
}

/// The headers of the lines of `s`, where the line that stands at the scan
/// position `i` started at `seg`, added to `m`; a later line of a name
/// overrides an earlier one.
pub open spec fn scan_headers(s: Seq<char>, i: int, seg: int, m: Map<Seq<char>, Seq<char>>) -> Map<
    Seq<char>,
    Seq<char>,
>
    decreases s.len() - i,
{
    if i >= s.len() {
        with_entry(m, header_entry(s.subrange(seg, s.len() as int)))
    } else if s[i] == '\n' {
        scan_headers(s, i + 1, i + 1, with_entry(m, header_entry(s.subrange(seg, i))))
    } else {
        scan_headers(s, i + 1, seg, m)
    }
}

/// `key=value`: the key is what stands before the first `=`, the value what
/// stands between it and the next `=`. A piece without `=` gives nothing.
pub open spec fn param_entry(piece: Seq<char>) -> Option<(Seq<char>, Seq<char>)> {
    let j = first_index(piece, '=', 0);
    if j < piece.len() {
        Some((piece.subrange(0, j), piece.subrange(j + 1, first_index(piece, '=', j + 1))))
    } else {
        None
    }
}

/// `Name: Value`: the name trimmed and lower-cased, the value trimmed. A
/// line without `:` gives nothing.
pub open spec fn header_entry(line: Seq<char>) -> Option<(Seq<char>, Seq<char>)> {
    let j = first_index(line, ':', 0);
    if j < line.len() {
        Some(
            (
                lower_of(trim(line.subrange(0, j))),
                trim(line.subrange(j + 1, line.len() as int)),
            ),
        )
    } else {
        None
    }
}

/// The parameters of a query string: its `&`-separated pieces in order.
pub open spec fn query_map(q: Seq<char>) -> Map<Seq<char>, Seq<char>> {
    scan_params(q, 0, 0, Map::empty())
}

/// The path of a URL: what stands before the first `?`.
pub open spec fn url_path(url: Seq<char>) -> Seq<char> {
    url.subrange(0, first_index(url, '?', 0))
}

/// The parameters of a URL: those of what follows the first `?`, if any.
pub open spec fn url_params(url: Seq<char>) -> Option<Map<Seq<char>, Seq<char>>> {
    let q = first_index(url, '?', 0);
    if q < url.len() {
        Some(query_map(url.subrange(q + 1, url.len() as int)))
    } else {
        None
    }
}

/// `\r\n\r\n` stands at `i`.
pub open spec fn blank_line_at(t: Seq<char>, i: int) -> bool {
    0 <= i && i + 4 <= t.len() && t[i] == '\r' && t[i + 1] == '\n' && t[i + 2] == '\r' && t[i
        + 3] == '\n'
}

/// Where the first `\r\n\r\n` at or after `from` stands, or `t.len()`.
pub open spec fn first_blank_line(t: Seq<char>, from: int) -> int
    decreases t.len() - from,
{
    if from + 4 > t.len() {
        t.len() as int
    } else if blank_line_at(t, from) {
        from
    } else {
        first_blank_line(t, from + 1)
    }
}

/// The head of a request: all before the first `\r\n\r\n`.
pub open spec fn head_of(t: Seq<char>) -> Seq<char> {
    t.subrange(0, first_blank_line(t, 0))
}

/// The body of a request: all after the first `\r\n\r\n`, if there is one.
pub open spec fn body_of(t: Seq<char>) -> Option<Seq<char>> {
    let p = first_blank_line(t, 0);
    if p < t.len() {
        Some(t.subrange(p + 4, t.len() as int))
    } else {
        None
    }
}

/// The header lines of a head are those after its first line.
pub open spec fn headers_of(head: Seq<char>) -> Map<Seq<char>, Seq<char>> {
    let nl = first_index(head, '\n', 0);
    if nl < head.len() {
        scan_headers(head, nl + 1, nl + 1, Map::empty())
    } else {
        Map::empty()
    }
}

/// What a request text parses to.
pub open spec fn parse_text(t: Seq<char>) -> Result<RequestModel, RequestError> {
    let head = head_of(t);
    let line = head.subrange(0, first_index(head, '\n', 0));
    if head.len() == 0 {
        Err(RequestError::EmptyRequest)
    } else {
        match word(line, 0) {
            None => Err(RequestError::MissingMethod),
            Some(m) => match method_of(m) {
                None => Err(RequestError::MethodNotSupported),
                Some(method) => match word(line, 1) {
                    None => Err(RequestError::MissingPath),
                    Some(url) => Ok(
                        RequestModel {
                            method,
                            path: url_path(url),
                            params: url_params(url),
                            headers: headers_of(head),
                            body: body_of(t),
                        },
                    ),
                },
            },
        }
    }
}

/// What the bytes of one read parse to.
pub open spec fn parse_bytes(raw: Seq<u8>) -> Result<RequestModel, RequestError> {
    if raw.len() >= MAX_REQUEST {
        Err(RequestError::TooLarge)
    } else {
        parse_text(lossy_of(raw))
    }
}

pub open spec fn result_view(r: Result<Request, RequestError>) -> Result<RequestModel, RequestError> {
    match r {
        Ok(req) => Ok(req@),
        Err(e) => Err(e),
    }
}

fn add_param(m: &mut StrMap, s: &Vec<char>, lo: usize, hi: usize)
    requires
        lo <= hi <= s@.len(),
    ensures
        final(m)@ == with_entry(old(m)@, param_entry(s@.subrange(lo as int, hi as int))),
{
    let piece = slice_of(s, lo, hi);
    let j = find_char(&piece, '=', 0);
    if j < piece.len() {
        let k = find_char(&piece, '=', j + 1);
        m.insert(string_of(&piece, 0, j), string_of(&piece, j + 1, k));
    }
}

fn add_header(m: &mut StrMap, s: &Vec<char>, lo: usize, hi: usize)
    requires
        lo <= hi <= s@.len(),
    ensures
        final(m)@ == with_entry(old(m)@, header_entry(s@.subrange(lo as int, hi as int))),
{
    let line = slice_of(s, lo, hi);
    let j = find_char(&line, ':', 0);
    if j < line.len() {
        let name = trimmed(&line, 0, j);
        let key = lowercase(name.as_str());
        let value = trimmed(&line, j + 1, line.len());
        m.insert(key, value);
    }
}

/// The parameters of the `&`-separated pieces of `s[from..]`.
fn params_from(s: &Vec<char>, from: usize) -> (r: StrMap)
    requires
        from <= s@.len(),
    ensures
        r@ == query_map(s@.subrange(from as int, s@.len() as int)),
{
    let ghost q = s@.subrange(from as int, s@.len() as int);
    let mut m = StrMap::new();
    let mut seg = from;
    let mut i = from;
    while i < s.len()
        invariant
            from <= seg <= i <= s@.len(),
            q == s@.subrange(from as int, s@.len() as int),
            query_map(q) == scan_params(q, i - from, seg - from, m@),
        decreases s@.len() - i,
    {
        assert(q[i - from] == s@[i as int]);
        if s[i] == '&' {
            assert(q.subrange(seg - from, i - from) == s@.subrange(seg as int, i as int));
            add_param(&mut m, s, seg, i);
            seg = i + 1;
        }
        i = i + 1;
    }
    assert(q.subrange(seg - from, q.len() as int) == s@.subrange(seg as int, s@.len() as int));
    add_param(&mut m, s, seg, s.len());
    m
}

/// The headers of the lines of `head` after its first line, which ends at
/// `nl`.
fn headers_from(head: &Vec<char>, nl: usize) -> (r: StrMap)
    requires
        nl < head@.len(),
        nl == first_index(head@, '\n', 0),
    ensures
        r@ == headers_of(head@),
{
    let n = head.len();
    let mut m = StrMap::new();
    let mut seg = nl + 1;
    let mut i = nl + 1;
    while i < head.len()
        invariant
            nl + 1 <= seg <= i <= head@.len(),
            nl < head@.len(),
            nl == first_index(head@, '\n', 0),
            headers_of(head@) == scan_headers(head@, i as int, seg as int, m@),
        decreases head@.len() - i,
    {
        if head[i] == '\n' {
            add_header(&mut m, head, seg, i);
            seg = i + 1;
        }
        i = i + 1;
    }
    add_header(&mut m, head, seg, head.len());
    m
}

fn find_blank_line(t: &Vec<char>) -> (r: usize)
    ensures
        r == first_blank_line(t@, 0),
        r <= t@.len(),
        r < t@.len() ==> r + 4 <= t@.len(),
{
    let mut i: usize = 0;
    while i < t.len() && t.len() - i >= 4
        invariant
            i <= t@.len(),
            first_blank_line(t@, 0) == first_blank_line(t@, i as int),
        decreases t@.len() - i,
    {
        if t[i] == '\r' && t[i + 1] == '\n' && t[i + 2] == '\r' && t[i + 3] == '\n' {
            return i;
        }
        i = i + 1;
    }
    t.len()
}

proof fn lemma_first_blank_line_at(t: Seq<char>, from: int, i: int)
    requires
        0 <= from <= i,
        blank_line_at(t, i),
        forall|j: int| from <= j < i ==> !#[trigger] blank_line_at(t, j),
    ensures
        first_blank_line(t, from) == i,
    decreases i - from,
{
    if from < i {
        lemma_first_blank_line_at(t, from + 1, i);
    }
}

/// A request whose first `\r\n\r\n` stands at `i` has as body everything
/// after it.
pub proof fn lemma_body_after_blank_line(t: Seq<char>, i: int)
    requires
        blank_line_at(t, i),
        forall|j: int| 0 <= j < i ==> !#[trigger] blank_line_at(t, j),
    ensures
        body_of(t) == Some(t.subrange(i + 4, t.len() as int)),
        parse_text(t) matches Ok(r) ==> r.body == Some(t.subrange(i + 4, t.len() as int)),
{
    lemma_first_blank_line_at(t, 0, i);
}

proof fn lemma_first_index_absent(s: Seq<char>, c: char, from: int)
    requires
        0 <= from,
        forall|j: int| from <= j < s.len() ==> s[j] != c,
    ensures
        first_index(s, c, from) == s.len(),
    decreases s.len() - from,
{
    if from < s.len() {
        lemma_first_index_absent(s, c, from + 1);
    }
}

proof fn lemma_scan_params_without_pairs(q: Seq<char>, i: int, seg: int, m: Map<Seq<char>, Seq<char>>)
    requires
        0 <= seg <= i <= q.len(),
        forall|j: int| 0 <= j < q.len() ==> q[j] != '=',
    ensures
        scan_params(q, i, seg, m) == m,
    decreases q.len() - i,
{
    let end = if i >= q.len() {
        q.len() as int
    } else {
        i
    };
    let piece = q.subrange(seg, end);
    lemma_first_index_absent(piece, '=', 0);
    assert(param_entry(piece) is None);
    if i < q.len() {
        if q[i] == '&' {
            lemma_scan_params_without_pairs(q, i + 1, i + 1, m);
        } else {
            lemma_scan_params_without_pairs(q, i + 1, seg, m);
        }
    }
}

/// A query string in which no piece is a `key=value` pair gives no
/// parameters: pieces without `=` are dropped, and parsing them cannot fail.
pub proof fn lemma_query_without_pairs(q: Seq<char>)
    requires
        forall|j: int| 0 <= j < q.len() ==> q[j] != '=',
    ensures
        query_map(q) == Map::<Seq<char>, Seq<char>>::empty(),
{
    lemma_scan_params_without_pairs(q, 0, 0, Map::empty());
}

impl Request {
    /// Parses the bytes of the single read that opens a connection. A read
    /// that fills the whole buffer is refused as too large.
    pub fn new(raw: &[u8]) -> (r: Result<Request, RequestError>)
        ensures
            result_view(r) == parse_bytes(raw@),
    {
        if raw.len() >= MAX_REQUEST {
            return Err(RequestError::TooLarge);
        }
        let text = lossy_text(raw);
        Request::from_text(text.as_str())
    }

    /// Parses a request text: request line, headers, and the body after the
    /// first blank line.
    pub fn from_text(text: &str) -> (r: Result<Request, RequestError>)
        ensures
            result_view(r) == parse_text(text@),
    {
        let t = chars_of(text);
        let p = find_blank_line(&t);
        let body = if p < t.len() {
            Some(string_of(&t, p + 4, t.len()))
        } else {
            None
        };
        let head = slice_of(&t, 0, p);
        if head.len() == 0 {
            return Err(RequestError::EmptyRequest);
        }
        let nl = find_char(&head, '\n', 0);
        let line = slice_of(&head, 0, nl);
        proof {
            crate::text::lemma_word_start_bounds(line@, 0);
            crate::text::lemma_word_start_bounds(line@, 1);
        }
        let a1 = skip_whitespace(&line, 0);
        if a1 == line.len() {
            return Err(RequestError::MissingMethod);
        }
        let e1 = find_whitespace(&line, a1);
        let method_name = string_of(&line, a1, e1);
        let method = match Method::try_from(method_name.as_str()) {
            Ok(m) => m,
            Err(e) => {
                return Err(e);
            },
        };
        let a2 = skip_whitespace(&line, e1);
        if a2 == line.len() {
            return Err(RequestError::MissingPath);
        }
        let e2 = find_whitespace(&line, a2);
        let url = string_of(&line, a2, e2);
        let (path, params) = Request::extract_query_param(url.as_str());
        let headers = if nl < head.len() {
            headers_from(&head, nl)
        } else {
            StrMap::new()
        };
        Ok(Request { method, path, params, headers, body })
    }

    /// Splits a URL into its path and the parameters of its query string.
    pub fn extract_query_param(url: &str) -> (r: (String, Option<StrMap>))
        ensures
            r.0@ == url_path(url@),
            match r.1 {
                Some(p) => url_params(url@) == Some(p@),
                None => url_params(url@) is None,
            },
    {
        let u = chars_of(url);
        let q = find_char(&u, '?', 0);
        let path = string_of(&u, 0, q);
        if q < u.len() {
            (path, Some(params_from(&u, q + 1)))
        } else {
            (path, None)
        }
    }
}

/// The parameters of the query string of `url`, if it has one.
pub fn extract_query_param(url: &str) -> (r: Option<StrMap>)
    ensures
        match r {
            Some(p) => url_params(url@) == Some(p@),
            None => url_params(url@) is None,
        },
{
    Request::extract_query_param(url).1
}

} // verus!
