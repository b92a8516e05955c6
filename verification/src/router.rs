//! The router: a pure function from a parsed request to the action
//! the server must take, dispatching on the method and then on the
//! path in a fixed priority order. Filesystem work itself happens
//! outside the library; the router only names it.

use vstd::prelude::*;

use crate::bytes::{bytes_eq, copy_bytes, copy_range, has_prefix, starts_with};
use crate::parser::{lookup_spec, HeaderModel, HttpRequest, ReqModel};
use crate::words::{
    v_asset_index, v_asset_manual, v_asset_script, v_asset_styles, v_ct_css, v_ct_html, v_ct_js, v_delete, v_echo_prefix, v_files_page, v_files_prefix, v_get,
    v_index_page, v_manual_page, v_script_page, v_mkdir_prefix, v_post, v_root, v_styles_page, v_unknown,
    v_user_agent, v_user_agent_page, w_asset_index, w_asset_manual, w_asset_script,
    w_asset_styles, w_ct_css, w_ct_html, w_ct_js, w_delete, w_echo_prefix, w_files_page,
    w_files_prefix, w_get, w_index_page, w_manual_page, w_mkdir_prefix, w_post, w_root,
    w_script_page, w_styles_page, w_unknown, w_user_agent, w_user_agent_page,
};

verus! {

/// What the server must do for a request: either answer from a value
/// already at hand, or perform one named filesystem operation and
/// answer from its outcome.
#[derive(Debug)]
pub enum Action {
    /// Serve the named bundled asset with the given content type.
    ServeAsset { name: Vec<u8>, content_type: Vec<u8> },
    /// Answer 200 with this text.
    Echo { content: Vec<u8> },
    /// Answer 200 with the request's `User-Agent` value.
    UserAgentReply { agent: Vec<u8> },
    /// List the base directory.
    ListDir,
    /// Read `base/name`.
    ReadFile { name: Vec<u8> },
    /// Create or overwrite `base/name` with these bytes.
    WriteFile { name: Vec<u8>, contents: Vec<u8> },
    /// Recursively create the directory `base/name`.
    MakeDir { name: Vec<u8> },
    /// Delete the file or directory `base/name`.
    DeleteEntry { name: Vec<u8> },
    /// Answer 404.
    NotFound,
    /// Answer 405.
    MethodNotAllowed,
}

#[verifier::ext_equal]
pub ghost enum ActionModel {
    ServeAsset { name: Seq<u8>, content_type: Seq<u8> },
    Echo { content: Seq<u8> },
    UserAgentReply { agent: Seq<u8> },
    ListDir,
    ReadFile { name: Seq<u8> },
    WriteFile { name: Seq<u8>, contents: Seq<u8> },
    MakeDir { name: Seq<u8> },
    DeleteEntry { name: Seq<u8> },
    NotFound,
    MethodNotAllowed,
}

impl View for Action {
    type V = ActionModel;

    open spec fn view(&self) -> ActionModel {
        match self {
            Action::ServeAsset { name, content_type } => ActionModel::ServeAsset {
                name: name@,
                content_type: content_type@,
            },
            Action::Echo { content } => ActionModel::Echo { content: content@ },
            Action::UserAgentReply { agent } => ActionModel::UserAgentReply { agent: agent@ },
            Action::ListDir => ActionModel::ListDir,
            Action::ReadFile { name } => ActionModel::ReadFile { name: name@ },
            Action::WriteFile { name, contents } => ActionModel::WriteFile {
                name: name@,
                contents: contents@,
            },
            Action::MakeDir { name } => ActionModel::MakeDir { name: name@ },
            Action::DeleteEntry { name } => ActionModel::DeleteEntry { name: name@ },
            Action::NotFound => ActionModel::NotFound,
            Action::MethodNotAllowed => ActionModel::MethodNotAllowed,
        }
    }
}

/// The `User-Agent` value to reflect: the header's value verbatim, or
/// `Unknown` when the header is absent.
pub open spec fn user_agent_of(headers: Seq<HeaderModel>) -> Seq<u8> {
    match lookup_spec(headers, w_user_agent()) {
        Some(v) => v,
        None => w_unknown(),
    }
}

/// The GET routes, first match wins: the bundled pages, `/echo/`,
/// `/user-agent`, the base-directory listing, stored files, else 404.
pub open spec fn route_get_spec(r: ReqModel) -> ActionModel {
    if r.path == w_root() || r.path == w_index_page() {
        ActionModel::ServeAsset { name: w_asset_index(), content_type: w_ct_html() }
    } else if r.path == w_styles_page() {
        ActionModel::ServeAsset { name: w_asset_styles(), content_type: w_ct_css() }
    } else if r.path == w_script_page() {
        ActionModel::ServeAsset { name: w_asset_script(), content_type: w_ct_js() }
    } else if r.path == w_manual_page() {
        ActionModel::ServeAsset { name: w_asset_manual(), content_type: w_ct_html() }
    } else if has_prefix(r.path, w_echo_prefix()) {
        ActionModel::Echo { content: r.path.subrange(w_echo_prefix().len() as int, r.path.len() as int) }
    } else if r.path == w_user_agent_page() {
        ActionModel::UserAgentReply { agent: user_agent_of(r.headers) }
    } else if r.path == w_files_page() || r.path == w_files_prefix() {
        ActionModel::ListDir
    } else if has_prefix(r.path, w_files_prefix()) {
        ActionModel::ReadFile {
            name: r.path.subrange(w_files_prefix().len() as int, r.path.len() as int),
        }
    } else {
        ActionModel::NotFound
    }
}

/// The POST routes: file creation under `/files/`, directory creation
/// under `/mkdir/`, else 404.
pub open spec fn route_post_spec(r: ReqModel) -> ActionModel {
    if has_prefix(r.path, w_files_prefix()) {
        ActionModel::WriteFile {
            name: r.path.subrange(w_files_prefix().len() as int, r.path.len() as int),
            contents: r.body,
        }
    } else if has_prefix(r.path, w_mkdir_prefix()) {
        ActionModel::MakeDir {
            name: r.path.subrange(w_mkdir_prefix().len() as int, r.path.len() as int),
        }
    } else {
        ActionModel::NotFound
    }
}

/// The DELETE routes: removal under `/files/`, else 404.
pub open spec fn route_delete_spec(r: ReqModel) -> ActionModel {
    if has_prefix(r.path, w_files_prefix()) {
        ActionModel::DeleteEntry {
            name: r.path.subrange(w_files_prefix().len() as int, r.path.len() as int),
        }
    } else {
        ActionModel::NotFound
    }
}

/// The whole routing decision: dispatch on the method, then on the
/// path; any method other than GET, POST or DELETE is refused with
/// 405, whatever the path.
pub open spec fn route_spec(r: ReqModel) -> ActionModel {
    if r.method == w_get() {
        route_get_spec(r)
    } else if r.method == w_post() {
        route_post_spec(r)
    } else if r.method == w_delete() {
        route_delete_spec(r)
    } else {
        ActionModel::MethodNotAllowed
    }
}

/// Decide what to do for a parsed request.
pub fn route(req: &HttpRequest) -> (a: Action)
    ensures
        a@ == route_spec(req@),
{
    if bytes_eq(&req.method, &v_get()) {
        route_get(req)
    } else if bytes_eq(&req.method, &v_post()) {
        route_post(req)
    } else if bytes_eq(&req.method, &v_delete()) {
        route_delete(req)
    } else {
        Action::MethodNotAllowed
    }
}

/// The whole decision for one connection's bytes: parse the request
/// and route it. The caller performs the filesystem work the action
/// names and builds the response from its outcome; a parse error
/// means the connection is closed without a response.
pub fn plan_request(input: &Vec<u8>) -> (r: Result<(HttpRequest, Action), crate::parser::ParseError>)
    ensures
        match r {
            Ok(p) => crate::parser::parse_spec(input@) == Ok::<ReqModel,
                crate::parser::ParseError,
            >(p.0@) && p.1@ == route_spec(p.0@),
            Err(e) => crate::parser::parse_spec(input@) == Err::<ReqModel,
                crate::parser::ParseError,
            >(e),
        },
{
    match HttpRequest::parse(input) {
        Ok(req) => {
            let a = route(&req);
            Ok((req, a))
        },
        Err(e) => Err(e),
    }
}

fn route_get(req: &HttpRequest) -> (a: Action)
    requires
        req.method@ == w_get(),
    ensures
        a@ == route_spec(req@),
{
    let echo_prefix = v_echo_prefix();
    let files_prefix = v_files_prefix();
    if bytes_eq(&req.path, &v_root()) || bytes_eq(&req.path, &v_index_page()) {
        Action::ServeAsset { name: v_asset_index(), content_type: v_ct_html() }
    } else if bytes_eq(&req.path, &v_styles_page()) {
        Action::ServeAsset { name: v_asset_styles(), content_type: v_ct_css() }
    } else if bytes_eq(&req.path, &v_script_page()) {
        Action::ServeAsset { name: v_asset_script(), content_type: v_ct_js() }
    } else if bytes_eq(&req.path, &v_manual_page()) {
        Action::ServeAsset { name: v_asset_manual(), content_type: v_ct_html() }
    } else if starts_with(&req.path, &echo_prefix) {
        Action::Echo { content: copy_range(&req.path, echo_prefix.len(), req.path.len()) }
    } else if bytes_eq(&req.path, &v_user_agent_page()) {
        let agent = match crate::parser::header_value(&req.headers, &v_user_agent()) {
            Some(v) => v,
            None => v_unknown(),
        };
        Action::UserAgentReply { agent }
    } else if bytes_eq(&req.path, &v_files_page()) || bytes_eq(&req.path, &files_prefix) {
        Action::ListDir
    } else if starts_with(&req.path, &files_prefix) {
        Action::ReadFile { name: copy_range(&req.path, files_prefix.len(), req.path.len()) }
    } else {
        Action::NotFound
    }
}

fn route_post(req: &HttpRequest) -> (a: Action)
    requires
        req.method@ == w_post(),
    ensures
        a@ == route_spec(req@),
{
    let files_prefix = v_files_prefix();
    let mkdir_prefix = v_mkdir_prefix();
    if starts_with(&req.path, &files_prefix) {
        Action::WriteFile {
            name: copy_range(&req.path, files_prefix.len(), req.path.len()),
            contents: copy_bytes(&req.body),
        }
    } else if starts_with(&req.path, &mkdir_prefix) {
        Action::MakeDir { name: copy_range(&req.path, mkdir_prefix.len(), req.path.len()) }
    } else {
        Action::NotFound
    }
}

fn route_delete(req: &HttpRequest) -> (a: Action)
    requires
        req.method@ == w_delete(),
    ensures
        a@ == route_spec(req@),
{
    let files_prefix = v_files_prefix();
    if starts_with(&req.path, &files_prefix) {
        Action::DeleteEntry { name: copy_range(&req.path, files_prefix.len(), req.path.len()) }
    } else {
        Action::NotFound
    }
}

} // verus!
