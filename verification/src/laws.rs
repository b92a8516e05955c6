//! Laws of the parser, router and response builder that relate
//! several functions, each stated over the spec-level models and
//! proved once for all inputs.

use vstd::prelude::*;

use crate::bytes::{all_digits, dec_digits, dec_value, has_prefix, lemma_skip_ws, lemma_token_end, skip_ws, token_end};
use crate::parser::{
    declared_body_len, headers_spec, line_at, lookup_spec, next_line_pos, parse_spec,
    request_line_spec, content_length_of, HeaderModel, ParseError, ReqModel, lemma_declared_body_len_nonneg,
    lemma_headers_spec_pos,
};
use crate::response::{plain, response_model, FsEventModel, RespModel};
use crate::router::{route_spec, user_agent_of, ActionModel};
use crate::words::{
    w_ct_octet, w_delete, w_echo_prefix, w_files_page, w_files_prefix, w_get, w_index_page,
    w_manual_page, w_mkdir_prefix, w_msg_file_not_found, w_msg_method_not_allowed, w_post,
    w_root, w_script_page, w_st_created, w_st_method_not_allowed, w_st_not_found, w_st_ok,
    w_styles_page, w_unknown, w_user_agent, w_user_agent_page,
};

verus! {

/// All whitespace-separated tokens of `line` from `pos` on, in order.
pub open spec fn tokens_of(line: Seq<u8>, pos: int) -> Seq<Seq<u8>>
    decreases line.len() - pos when 0 <= pos <= line.len()
    via tokens_of_decreases
{
    let a = skip_ws(line, pos);
    if a == line.len() {
        Seq::empty()
    } else {
        seq![line.subrange(a, token_end(line, a))] + tokens_of(line, token_end(line, a))
    }
}

#[via_fn]
proof fn tokens_of_decreases(line: Seq<u8>, pos: int) {
    if 0 <= pos <= line.len() {
        lemma_skip_ws(line, pos);
        let a = skip_ws(line, pos);
        if a < line.len() {
            lemma_token_end(line, a + 1);
            assert(token_end(line, a) == token_end(line, a + 1));
        }
    }
}

/// The request line is accepted exactly when it splits into three
/// whitespace-separated tokens, and then method, path and version are
/// those tokens, verbatim.
pub proof fn lemma_request_line_is_token_split(line: Seq<u8>)
    ensures
        (request_line_spec(line) is Some) <==> tokens_of(line, 0).len() == 3,
        request_line_spec(line) matches Some(t) ==> tokens_of(line, 0) =~= seq![t.0, t.1, t.2],
{
    lemma_skip_ws(line, 0);
    let a0 = skip_ws(line, 0);
    if a0 < line.len() {
        lemma_token_end(line, a0);
        let e0 = token_end(line, a0);
        lemma_skip_ws(line, e0);
        let a1 = skip_ws(line, e0);
        assert(tokens_of(line, 0) == seq![line.subrange(a0, e0)] + tokens_of(line, e0));
        if a1 < line.len() {
            lemma_token_end(line, a1);
            let e1 = token_end(line, a1);
            lemma_skip_ws(line, e1);
            let a2 = skip_ws(line, e1);
            assert(tokens_of(line, e0) == seq![line.subrange(a1, e1)] + tokens_of(line, e1));
            if a2 < line.len() {
                lemma_token_end(line, a2);
                let e2 = token_end(line, a2);
                lemma_skip_ws(line, e2);
                let a3 = skip_ws(line, e2);
                assert(tokens_of(line, e1) == seq![line.subrange(a2, e2)] + tokens_of(
                    line,
                    e2,
                ));
                if a3 == line.len() {
                    assert(tokens_of(line, e2) =~= Seq::<Seq<u8>>::empty());
                    assert(tokens_of(line, 0) =~= seq![
                        line.subrange(a0, e0),
                        line.subrange(a1, e1),
                        line.subrange(a2, e2),
                    ]);
                } else {
                    lemma_token_end(line, a3);
                    assert(tokens_of(line, e2) == seq![line.subrange(a3, token_end(line, a3))]
                        + tokens_of(line, token_end(line, a3)));
                    assert(tokens_of(line, 0).len() >= 4);
                }
            }
        }
    }
}

/// When the request line is well-formed and the headers declare `n`
/// body bytes: with at least `n` bytes left after the headers the
/// parse succeeds and the body is exactly those `n` bytes; with fewer
/// it fails with `TruncatedBody`.
pub proof fn lemma_content_length_governs_body(input: Seq<u8>)
    requires
        input.len() > 0,
        request_line_spec(line_at(input, 0)) is Some,
    ensures
        ({
            let hp = headers_spec(input, next_line_pos(input, 0));
            let n = declared_body_len(hp.0);
            if hp.1 + n <= input.len() {
                &&& parse_spec(input) is Ok
                &&& parse_spec(input)->Ok_0.headers == hp.0
                &&& parse_spec(input)->Ok_0.body == input.subrange(hp.1, hp.1 + n)
                &&& parse_spec(input)->Ok_0.body.len() == n
            } else {
                parse_spec(input) == Err::<ReqModel, ParseError>(ParseError::TruncatedBody)
            }
        }),
{
    crate::bytes::lemma_find_from(input, 0, 10);
    lemma_headers_spec_pos(input, next_line_pos(input, 0));
    let hp = headers_spec(input, next_line_pos(input, 0));
    lemma_declared_body_len_nonneg(hp.0);
}

/// Duplicate headers resolve to the last occurrence: a lookup finds
/// the value of the last header whose name matches byte for byte.
pub proof fn lemma_lookup_finds_last(headers: Seq<HeaderModel>, name: Seq<u8>, i: int)
    requires
        0 <= i < headers.len(),
        headers[i].name == name,
        forall|j: int| i < j < headers.len() ==> headers[j].name != name,
    ensures
        lookup_spec(headers, name) == Some(headers[i].value),
    decreases headers.len(),
{
    if i < headers.len() - 1 {
        assert(headers.drop_last()[i] == headers[i]);
        lemma_lookup_finds_last(headers.drop_last(), name, i);
    }
}

/// Name matching is exact and case-sensitive: a name that never
/// occurs byte for byte — even one differing only in letter case —
/// finds nothing.
pub proof fn lemma_lookup_absent(headers: Seq<HeaderModel>, name: Seq<u8>)
    requires
        forall|j: int| 0 <= j < headers.len() ==> headers[j].name != name,
    ensures
        lookup_spec(headers, name) is None,
    decreases headers.len(),
{
    if headers.len() > 0 {
        assert(forall|j: int|
            0 <= j < headers.drop_last().len() ==> headers.drop_last()[j] == headers[j]);
        lemma_lookup_absent(headers.drop_last(), name);
    }
}

/// A `GET /user-agent` answers 200 with the `User-Agent` value passed
/// through unmodified, or with `Unknown` when the header is absent.
pub proof fn lemma_user_agent_reflected(r: ReqModel)
    requires
        r.method == w_get(),
        r.path == w_user_agent_page(),
    ensures
        (route_spec(r) == ActionModel::UserAgentReply { agent: user_agent_of(r.headers) }),
        response_model(route_spec(r), FsEventModel::Pure).status == w_st_ok(),
        (lookup_spec(r.headers, w_user_agent()) matches Some(v) ==> response_model(
            route_spec(r),
            FsEventModel::Pure,
        ).body == v),
        ((lookup_spec(r.headers, w_user_agent()) is None) ==> response_model(
            route_spec(r),
            FsEventModel::Pure,
        ).body == w_unknown()),
{
    let p = r.path;
    assert(p[1] == 117);
    assert(!has_prefix(p, w_echo_prefix())) by {
        if has_prefix(p, w_echo_prefix()) {
            assert(p.subrange(0, 6)[1] == p[1]);
        }
    };
}

/// A `GET /echo/<rest>` answers 200 with `<rest>` verbatim.
pub proof fn lemma_echo_reflects(r: ReqModel, rest: Seq<u8>)
    requires
        r.method == w_get(),
        r.path == w_echo_prefix() + rest,
    ensures
        (route_spec(r) == ActionModel::Echo { content: rest }),
        response_model(route_spec(r), FsEventModel::Pure) == plain(w_st_ok(), rest),
{
    let p = r.path;
    assert(p[1] == 101);
    assert(has_prefix(p, w_echo_prefix())) by {
        assert(p.subrange(0, 6) =~= w_echo_prefix());
    };
    assert(p.subrange(6, p.len() as int) =~= rest);
}

/// The shape facts about a `/files/<name>` path that the router's
/// earlier GET branches test, each refuted or established.
proof fn lemma_files_path_shape(name: Seq<u8>)
    requires
        name.len() > 0,
    ensures
        ({
            let p = w_files_prefix() + name;
            &&& p != w_root()
            &&& p != w_index_page()
            &&& p != w_styles_page()
            &&& p != w_script_page()
            &&& p != w_manual_page()
            &&& !has_prefix(p, w_echo_prefix())
            &&& p != w_user_agent_page()
            &&& p != w_files_page()
            &&& p != w_files_prefix()
            &&& has_prefix(p, w_files_prefix())
            &&& !has_prefix(p, w_mkdir_prefix())
            &&& p.subrange(w_files_prefix().len() as int, p.len() as int) == name
        }),
{
    let p = w_files_prefix() + name;
    assert(p[1] == 102);
    assert(p[2] == 105);
    assert(!has_prefix(p, w_echo_prefix())) by {
        if has_prefix(p, w_echo_prefix()) {
            assert(p.subrange(0, 6)[1] == p[1]);
        }
    };
    assert(!has_prefix(p, w_mkdir_prefix())) by {
        if has_prefix(p, w_mkdir_prefix()) {
            assert(p.subrange(0, 7)[1] == p[1]);
        }
    };
    assert(has_prefix(p, w_files_prefix())) by {
        assert(p.subrange(0, 7) =~= w_files_prefix());
    };
    assert(p.subrange(w_files_prefix().len() as int, p.len() as int) =~= name);
}

/// Round trip through the file store: a `POST /files/<name>` with
/// body `B` writes exactly `B` to `<name>` and, once the write
/// succeeded, answers 201; a `GET /files/<name>` reads the same
/// `<name>`, and a read that returns the stored bytes answers 200
/// with body exactly `B`.
pub proof fn lemma_files_round_trip(post: ReqModel, get: ReqModel, name: Seq<u8>)
    requires
        name.len() > 0,
        post.method == w_post(),
        post.path == w_files_prefix() + name,
        get.method == w_get(),
        get.path == w_files_prefix() + name,
    ensures
        (route_spec(post) == ActionModel::WriteFile { name, contents: post.body }),
        response_model(route_spec(post), FsEventModel::WriteOk).status == w_st_created(),
        (route_spec(get) == ActionModel::ReadFile { name }),
        (response_model(route_spec(get), FsEventModel::FileData { data: post.body })
            == RespModel { status: w_st_ok(), content_type: w_ct_octet(), body: post.body }),
{
    lemma_files_path_shape(name);
}

/// After a delete: a `DELETE /files/<name>` removes exactly `<name>`
/// and, once the removal succeeded, answers 200; a later
/// `GET /files/<name>` that finds no such file answers 404.
pub proof fn lemma_delete_then_get(del: ReqModel, get: ReqModel, name: Seq<u8>)
    requires
        name.len() > 0,
        del.method == w_delete(),
        del.path == w_files_prefix() + name,
        get.method == w_get(),
        get.path == w_files_prefix() + name,
    ensures
        (route_spec(del) == ActionModel::DeleteEntry { name }),
        response_model(route_spec(del), FsEventModel::DeletedFile).status == w_st_ok(),
        (route_spec(get) == ActionModel::ReadFile { name }),
        response_model(route_spec(get), FsEventModel::FileMissing) == plain(
            w_st_not_found(),
            w_msg_file_not_found(),
        ),
{
    lemma_files_path_shape(name);
}

/// The decimal text of `n` is all digits and denotes exactly `n`.
pub proof fn lemma_dec_digits_value(n: int)
    requires
        n >= 0,
    ensures
        all_digits(dec_digits(n)),
        dec_digits(n).len() > 0,
        dec_value(dec_digits(n)) == n,
    decreases n,
{
    if n < 10 {
        let s = dec_digits(n);
        assert(s.len() == 1);
        assert(s.drop_last() =~= Seq::<u8>::empty());
        assert(dec_value(Seq::<u8>::empty()) == 0);
        assert(dec_value(s) == dec_value(s.drop_last()) * 10 + (s.last() - 48));
    } else {
        lemma_dec_digits_value(n / 10);
        let s = dec_digits(n);
        assert(s.drop_last() =~= dec_digits(n / 10));
        assert(s.last() == (48 + n % 10) as u8);
        assert(dec_value(s) == dec_value(s.drop_last()) * 10 + (s.last() - 48));
        assert(dec_value(s) == (n / 10) * 10 + n % 10);
        assert((n / 10) * 10 + n % 10 == n);
        assert(forall|k: int| 0 <= k < s.len() - 1 ==> s[k] == dec_digits(n / 10)[k]);
    }
}

/// The `Content-Length` the writer emits for a body parses back to
/// exactly that body's length.
pub proof fn lemma_content_length_round_trip(n: int)
    requires
        0 <= n <= usize::MAX as int,
    ensures
        content_length_of(dec_digits(n)) == Some(n),
{
    lemma_dec_digits_value(n);
    assert(dec_digits(n)[0] != 43);
}

/// Any method other than GET, POST or DELETE is refused with 405,
/// whatever the path, the headers or the body.
pub proof fn lemma_unsupported_method(r: ReqModel)
    requires
        r.method != w_get(),
        r.method != w_post(),
        r.method != w_delete(),
    ensures
        route_spec(r) == ActionModel::MethodNotAllowed,
        response_model(route_spec(r), FsEventModel::Pure) == plain(
            w_st_method_not_allowed(),
            w_msg_method_not_allowed(),
        ),
{
}

} // verus!

