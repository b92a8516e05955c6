//! The request parser: one HTTP/1.1 request from a byte buffer — a
//! three-token request line, colon-separated headers up to a blank
//! line, then a body of exactly `Content-Length` bytes. The exec
//! parser is proved equal to the spec-level parser `parse_spec`.

use vstd::prelude::*;

use crate::bytes::{
    all_digits, bytes_eq, copy_bytes, copy_range, dec_value, find_byte, find_from, is_digit, is_ws,
    lemma_dec_value_nonneg, lemma_dec_value_prefix_le, lemma_find_from, lemma_skip_ws,
    lemma_token_end, skip_ws, skip_ws_from, token_end, token_end_from, trim, trim_of,
};
use crate::words::{v_content_length, w_content_length};

verus! {

/// Why a byte buffer failed to parse as a request.
#[derive(Clone, Copy, PartialEq, Eq, Structural, Debug)]
pub enum ParseError {
    /// The buffer held no bytes at all.
    EmptyRequest,
    /// The request line did not split into exactly three tokens.
    MalformedRequest,
    /// `Content-Length` declared more bytes than the buffer holds.
    TruncatedBody,
}

/// One header line, as stored: name and value, both trimmed.
#[derive(Debug)]
pub struct Header {
    pub name: Vec<u8>,
    pub value: Vec<u8>,
}

#[verifier::ext_equal]
pub ghost struct HeaderModel {
    pub name: Seq<u8>,
    pub value: Seq<u8>,
}

impl View for Header {
    type V = HeaderModel;

    open spec fn view(&self) -> HeaderModel {
        HeaderModel { name: self.name@, value: self.value@ }
    }
}

pub open spec fn headers_view(headers: Seq<Header>) -> Seq<HeaderModel> {
    headers.map_values(|h: Header| h@)
}

/// One parsed request.
#[derive(Debug)]
pub struct HttpRequest {
    pub method: Vec<u8>,
    pub path: Vec<u8>,
    pub version: Vec<u8>,
    pub headers: Vec<Header>,
    pub body: Vec<u8>,
}

#[verifier::ext_equal]
pub ghost struct ReqModel {
    pub method: Seq<u8>,
    pub path: Seq<u8>,
    pub version: Seq<u8>,
    pub headers: Seq<HeaderModel>,
    pub body: Seq<u8>,
}

impl View for HttpRequest {
    type V = ReqModel;

    open spec fn view(&self) -> ReqModel {
        ReqModel {
            method: self.method@,
            path: self.path@,
            version: self.version@,
            headers: headers_view(self.headers@),
            body: self.body@,
        }
    }
}

/// End of the line that starts at `pos`: the first LF, or the end of
/// the buffer.
pub open spec fn line_end_at(s: Seq<u8>, pos: int) -> int {
    find_from(s, pos, 10)
}

/// Start of the line after the one at `pos`.
pub open spec fn next_line_pos(s: Seq<u8>, pos: int) -> int {
    if line_end_at(s, pos) < s.len() {
        line_end_at(s, pos) + 1
    } else {
        line_end_at(s, pos)
    }
}

/// The bytes of the line at `pos`, without its LF.
pub open spec fn line_at(s: Seq<u8>, pos: int) -> Seq<u8> {
    s.subrange(pos, line_end_at(s, pos))
}

/// A line that is a pure CRLF or LF: it ends the header section.
pub open spec fn is_blank_line(line: Seq<u8>) -> bool {
    line.len() == 0 || line == seq![13u8]
}

/// The request line split into (method, path, version), or `None`
/// unless it holds exactly three whitespace-separated tokens.
pub open spec fn request_line_spec(line: Seq<u8>) -> Option<(Seq<u8>, Seq<u8>, Seq<u8>)> {
    let a0 = skip_ws(line, 0);
    if a0 == line.len() {
        None
    } else {
        let e0 = token_end(line, a0);
        let a1 = skip_ws(line, e0);
        if a1 == line.len() {
            None
        } else {
            let e1 = token_end(line, a1);
            let a2 = skip_ws(line, e1);
            if a2 == line.len() {
                None
            } else {
                let e2 = token_end(line, a2);
                if skip_ws(line, e2) == line.len() {
                    Some(
                        (
                            line.subrange(a0, e0),
                            line.subrange(a1, e1),
                            line.subrange(a2, e2),
                        ),
                    )
                } else {
                    None
                }
            }
        }
    }
}

/// A header line split at its first colon, name and value trimmed;
/// `None` for a line without a colon, which the parser skips.
pub open spec fn header_of_line(line: Seq<u8>) -> Option<HeaderModel> {
    let c = find_from(line, 0, 58);
    if c == line.len() {
        None
    } else {
        Some(
            HeaderModel {
                name: trim_of(line.subrange(0, c)),
                value: trim_of(line.subrange(c + 1, line.len() as int)),
            },
        )
    }
}

/// The headers from `pos` up to the first blank line (or the end of
/// the buffer), and the position just after them.
pub open spec fn headers_spec(s: Seq<u8>, pos: int) -> (Seq<HeaderModel>, int)
    decreases s.len() - pos when 0 <= pos <= s.len()
    via headers_spec_decreases
{
    if pos >= s.len() {
        (Seq::empty(), pos)
    } else {
        let line = line_at(s, pos);
        let nxt = next_line_pos(s, pos);
        if is_blank_line(line) {
            (Seq::empty(), nxt)
        } else {
            let rest = headers_spec(s, nxt);
            match header_of_line(line) {
                Some(h) => (seq![h] + rest.0, rest.1),
                None => rest,
            }
        }
    }
}

#[via_fn]
proof fn headers_spec_decreases(s: Seq<u8>, pos: int) {
    if 0 <= pos < s.len() {
        lemma_find_from(s, pos, 10);
    }
}

pub proof fn lemma_headers_spec_pos(s: Seq<u8>, pos: int)
    requires
        0 <= pos <= s.len(),
    ensures
        pos <= headers_spec(s, pos).1 <= s.len(),
    decreases s.len() - pos,
{
    if pos < s.len() {
        lemma_find_from(s, pos, 10);
        let line = line_at(s, pos);
        let nxt = next_line_pos(s, pos);
        if !is_blank_line(line) {
            lemma_headers_spec_pos(s, nxt);
        }
    }
}

/// The value of the last header with exactly this name.
pub open spec fn lookup_spec(headers: Seq<HeaderModel>, name: Seq<u8>) -> Option<Seq<u8>>
    decreases headers.len(),
{
    if headers.len() == 0 {
        None
    } else if headers.last().name == name {
        Some(headers.last().value)
    } else {
        lookup_spec(headers.drop_last(), name)
    }
}

/// A `Content-Length` value: optional leading `+`, then decimal
/// digits, rejected when empty, non-numeric or larger than `usize`.
pub open spec fn content_length_of(v: Seq<u8>) -> Option<int> {
    let d = if v.len() > 0 && v[0] == 43 {
        v.subrange(1, v.len() as int)
    } else {
        v
    };
    if d.len() > 0 && all_digits(d) && dec_value(d) <= usize::MAX as int {
        Some(dec_value(d))
    } else {
        None
    }
}

/// How many body bytes the headers call for: the parsed
/// `Content-Length`, or 0 when absent or unparsable.
pub open spec fn declared_body_len(headers: Seq<HeaderModel>) -> int {
    match lookup_spec(headers, w_content_length()) {
        Some(v) => match content_length_of(v) {
            Some(n) => n,
            None => 0,
        },
        None => 0,
    }
}

pub proof fn lemma_declared_body_len_nonneg(headers: Seq<HeaderModel>)
    ensures
        declared_body_len(headers) >= 0,
{
    match lookup_spec(headers, w_content_length()) {
        Some(v) => {
            let d = if v.len() > 0 && v[0] == 43 {
                v.subrange(1, v.len() as int)
            } else {
                v
            };
            if d.len() > 0 && all_digits(d) && dec_value(d) <= usize::MAX as int {
                lemma_dec_value_nonneg(d);
            }
        },
        None => {},
    }
}

/// The whole parse, as a mathematical function of the buffer.
pub open spec fn parse_spec(input: Seq<u8>) -> Result<ReqModel, ParseError> {
    if input.len() == 0 {
        Err(ParseError::EmptyRequest)
    } else {
        match request_line_spec(line_at(input, 0)) {
            None => Err(ParseError::MalformedRequest),
            Some(t) => {
                let hp = headers_spec(input, next_line_pos(input, 0));
                let n = declared_body_len(hp.0);
                if hp.1 + n <= input.len() {
                    Ok(
                        ReqModel {
                            method: t.0,
                            path: t.1,
                            version: t.2,
                            headers: hp.0,
                            body: input.subrange(hp.1, hp.1 + n),
                        },
                    )
                } else {
                    Err(ParseError::TruncatedBody)
                }
            },
        }
    }
}

fn request_line(line: &Vec<u8>) -> (r: Option<(Vec<u8>, Vec<u8>, Vec<u8>)>)
    ensures
        match r {
            Some(t) => request_line_spec(line@) == Some((t.0@, t.1@, t.2@)),
            None => request_line_spec(line@) is None,
        },
{
    proof {
        lemma_skip_ws(line@, 0);
    }
    let a0 = skip_ws_from(line, 0);
    if a0 == line.len() {
        return None;
    }
    proof {
        lemma_token_end(line@, a0 as int);
    }
    let e0 = token_end_from(line, a0);
    proof {
        lemma_skip_ws(line@, e0 as int);
    }
    let a1 = skip_ws_from(line, e0);
    if a1 == line.len() {
        return None;
    }
    proof {
        lemma_token_end(line@, a1 as int);
    }
    let e1 = token_end_from(line, a1);
    proof {
        lemma_skip_ws(line@, e1 as int);
    }
    let a2 = skip_ws_from(line, e1);
    if a2 == line.len() {
        return None;
    }
    proof {
        lemma_token_end(line@, a2 as int);
    }
    let e2 = token_end_from(line, a2);
    proof {
        lemma_skip_ws(line@, e2 as int);
    }
    let a3 = skip_ws_from(line, e2);
    if a3 != line.len() {
        return None;
    }
    let method = copy_range(line, a0, e0);
    let path = copy_range(line, a1, e1);
    let version = copy_range(line, a2, e2);
    Some((method, path, version))
}

/// The value of the last header named `name`, copied out.
pub fn header_value(headers: &Vec<Header>, name: &Vec<u8>) -> (r: Option<Vec<u8>>)
    ensures
        match r {
            Some(v) => lookup_spec(headers_view(headers@), name@) == Some(v@),
            None => lookup_spec(headers_view(headers@), name@) is None,
        },
{
    let ghost models = headers_view(headers@);
    let mut j: usize = headers.len();
    proof {
        assert(models.subrange(0, j as int) =~= models);
    }
    while j > 0
        invariant
            j <= headers@.len(),
            models == headers_view(headers@),
            lookup_spec(models, name@) == lookup_spec(models.subrange(0, j as int), name@),
        decreases j,
    {
        j = j - 1;
        proof {
            assert(models.subrange(0, j as int + 1).last() == models[j as int]);
            assert(models[j as int] == headers@[j as int]@);
            assert(models.subrange(0, j as int + 1).drop_last() =~= models.subrange(0, j as int));
        }
        if bytes_eq(&headers[j].name, name) {
            return Some(copy_bytes(&headers[j].value));
        }
    }
    proof {
        assert(models.subrange(0, 0) =~= Seq::<HeaderModel>::empty());
    }
    None
}

#[verifier::loop_isolation(false)]
fn content_length_value(v: &Vec<u8>) -> (r: Option<usize>)
    ensures
        match r {
            Some(n) => content_length_of(v@) == Some(n as int),
            None => content_length_of(v@) is None,
        },
{
    let start: usize = if v.len() > 0 && v[0] == 43 {
        1
    } else {
        0
    };
    let ghost d = if v@.len() > 0 && v@[0] == 43 {
        v@.subrange(1, v@.len() as int)
    } else {
        v@
    };
    proof {
        assert(d =~= v@.subrange(start as int, v@.len() as int));
    }
    if v.len() == start {
        return None;
    }
    let mut i: usize = start;
    while i < v.len()
        invariant
            start <= i <= v@.len(),
            d == v@.subrange(start as int, v@.len() as int),
            forall|k: int| start <= k < i ==> is_digit(v@[k]),
        decreases v@.len() - i,
    {
        if !(48 <= v[i] && v[i] <= 57) {
            proof {
                assert(d[i - start as int] == v@[i as int]);
                assert(!all_digits(d));
            }
            return None;
        }
        i = i + 1;
    }
    proof {
        assert(forall|k: int| 0 <= k < d.len() ==> d[k] == v@[start + k]);
        assert(all_digits(d));
    }
    let mut acc: u128 = 0;
    let mut i: usize = start;
    while i < v.len()
        invariant
            start <= i <= v@.len(),
            start < v@.len(),
            d == v@.subrange(start as int, v@.len() as int),
            all_digits(d),
            acc == dec_value(d.subrange(0, i - start as int)),
            acc <= usize::MAX as u128,
        decreases v@.len() - i,
    {
        proof {
            assert(d[i - start as int] == v@[i as int]);
            assert(is_digit(v@[i as int]));
        }
        let digit = (v[i] - 48) as u128;
        proof {
            let p = d.subrange(0, i + 1 - start as int);
            assert(p.drop_last() =~= d.subrange(0, i - start as int));
            assert(p.last() == v@[i as int]);
            assert(dec_value(p) == acc * 10 + digit);
        }
        acc = acc * 10 + digit;
        i = i + 1;
        if acc > usize::MAX as u128 {
            proof {
                lemma_dec_value_prefix_le(d, i - start as int, d.len() as int);
                assert(d.subrange(0, d.len() as int) =~= d);
                assert(dec_value(d) > usize::MAX as int);
            }
            return None;
        }
    }
    proof {
        assert(d.subrange(0, d.len() as int) =~= d);
        assert(acc == dec_value(d));
    }
    Some(acc as usize)
}

impl HttpRequest {
    /// Parse one request from a byte buffer: the request line, the
    /// headers up to a blank line, then `Content-Length` body bytes.
    pub fn parse(input: &Vec<u8>) -> (r: Result<HttpRequest, ParseError>)
        ensures
            match r {
                Ok(req) => parse_spec(input@) == Ok::<ReqModel, ParseError>(req@),
                Err(e) => parse_spec(input@) == Err::<ReqModel, ParseError>(e),
            },
    {
        if input.len() == 0 {
            return Err(ParseError::EmptyRequest);
        }
        proof {
            lemma_find_from(input@, 0, 10);
        }
        let e0 = find_byte(input, 0, 10);
        let line = copy_range(input, 0, e0);
        let pos0: usize = if e0 < input.len() {
            e0 + 1
        } else {
            e0
        };
        let rl = request_line(&line);
        if rl.is_none() {
            return Err(ParseError::MalformedRequest);
        }
        let (method, path, version) = rl.unwrap();
        let ghost total = headers_spec(input@, pos0 as int);
        let mut headers: Vec<Header> = Vec::new();
        let mut pos: usize = pos0;
        proof {
            assert(headers_view(headers@) =~= Seq::<HeaderModel>::empty());
        }
        loop
            invariant_except_break
                total.0 =~= headers_view(headers@) + headers_spec(input@, pos as int).0,
                total.1 == headers_spec(input@, pos as int).1,
            invariant
                pos0 <= pos <= input@.len(),
                total == headers_spec(input@, pos0 as int),
            ensures
                total.0 == headers_view(headers@),
                total.1 == pos as int,
            decreases input@.len() - pos,
        {
            if pos >= input.len() {
                proof {
                    assert(headers_view(headers@) + headers_spec(input@, pos as int).0
                        =~= headers_view(headers@));
                }
                break;
            }
            proof {
                lemma_find_from(input@, pos as int, 10);
            }
            let le = find_byte(input, pos, 10);
            let lline = copy_range(input, pos, le);
            let nxt: usize = if le < input.len() {
                le + 1
            } else {
                le
            };
            let blank = lline.len() == 0 || (lline.len() == 1 && lline[0] == 13);
            proof {
                if lline@.len() == 1 {
                    assert((lline@ == seq![13u8]) == (lline@[0] == 13)) by {
                        if lline@[0] == 13 {
                            assert(lline@ =~= seq![13u8]);
                        }
                    };
                }
                assert(blank == is_blank_line(lline@));
            }
            if blank {
                proof {
                    assert(headers_view(headers@) + headers_spec(input@, pos as int).0
                        =~= headers_view(headers@));
                }
                pos = nxt;
                break;
            }
            let c = find_byte(&lline, 0, 58);
            proof {
                lemma_find_from(lline@, 0, 58);
            }
            if c < lline.len() {
                let rawname = copy_range(&lline, 0, c);
                let rawvalue = copy_range(&lline, c + 1, lline.len());
                let name = trim(&rawname);
                let value = trim(&rawvalue);
                let h = Header { name, value };
                proof {
                    assert(h@ == header_of_line(lline@)->Some_0);
                    assert(headers_view(headers@.push(h)) =~= headers_view(headers@)
                        + seq![h@]);
                    assert(headers_view(headers@) + (seq![h@] + headers_spec(
                        input@,
                        nxt as int,
                    ).0) =~= (headers_view(headers@) + seq![h@]) + headers_spec(
                        input@,
                        nxt as int,
                    ).0);
                }
                headers.push(h);
            }
            pos = nxt;
        }
        // after the loop: `pos` is where the body starts and the
        // collected headers are exactly the header section
        proof {
            assert(total.0 == headers_view(headers@));
            assert(total.1 == pos as int);
        }
        let cl = header_value(&headers, &v_content_length());
        let n: usize = match cl {
            Some(val) => match content_length_value(&val) {
                Some(n) => n,
                None => 0,
            },
            None => 0,
        };
        proof {
            assert(n as int == declared_body_len(total.0));
        }
        if n <= input.len() - pos {
            let body = copy_range(input, pos, pos + n);
            let req = HttpRequest { method, path, version, headers, body };
            proof {
                let m = parse_spec(input@)->Ok_0;
                assert(line_at(input@, 0) == line@);
                assert(next_line_pos(input@, 0) == pos0 as int);
                assert(req@ =~~= m);
            }
            Ok(req)
        } else {
            Err(ParseError::TruncatedBody)
        }
    }
}

/// Whether a raw buffer holds one well-formed request.
#[derive(Clone, Copy, PartialEq, Eq, Structural, Debug)]
pub enum ExpressStatus {
    Success,
    Failure,
}

/// `Success` exactly when the buffer parses as a request.
pub fn validate_request(input: &Vec<u8>) -> (s: ExpressStatus)
    ensures
        (s == ExpressStatus::Success) == (parse_spec(input@) is Ok),
{
    match HttpRequest::parse(input) {
        Ok(_) => ExpressStatus::Success,
        Err(_) => ExpressStatus::Failure,
    }
}

} // verus!
