//! The byte constants of the wire protocol and of the router: each as
//! a spec sequence `w_*` and as an exec vector `v_*` proved equal to it.

use vstd::prelude::*;

verus! {

/// The bytes of `"GET"`.
pub open spec fn w_get() -> Seq<u8> {
    seq![71u8, 69u8, 84u8]
}

pub fn v_get() -> (v: Vec<u8>)
    ensures
        v@ == w_get(),
{
    let v: Vec<u8> = vec![71u8, 69u8, 84u8];
    proof {
        assert(v@ =~= w_get());
    }
    v
}

/// The bytes of `"POST"`.
pub open spec fn w_post() -> Seq<u8> {
    seq![80u8, 79u8, 83u8, 84u8]
}

pub fn v_post() -> (v: Vec<u8>)
    ensures
        v@ == w_post(),
{
    let v: Vec<u8> = vec![80u8, 79u8, 83u8, 84u8];
    proof {
        assert(v@ =~= w_post());
    }
    v
}

/// The bytes of `"DELETE"`.
pub open spec fn w_delete() -> Seq<u8> {
    seq![68u8, 69u8, 76u8, 69u8, 84u8, 69u8]
}

pub fn v_delete() -> (v: Vec<u8>)
    ensures
        v@ == w_delete(),
{
    let v: Vec<u8> = vec![68u8, 69u8, 76u8, 69u8, 84u8, 69u8];
    proof {
        assert(v@ =~= w_delete());
    }
    v
}

/// The bytes of `"/"`.
pub open spec fn w_root() -> Seq<u8> {
    seq![47u8]
}

pub fn v_root() -> (v: Vec<u8>)
    ensures
        v@ == w_root(),
{
    let v: Vec<u8> = vec![47u8];
    proof {
        assert(v@ =~= w_root());
    }
    v
}

/// The bytes of `"/index.html"`.
pub open spec fn w_index_page() -> Seq<u8> {
    seq![47u8, 105u8, 110u8, 100u8, 101u8, 120u8, 46u8, 104u8, 116u8, 109u8, 108u8]
}

pub fn v_index_page() -> (v: Vec<u8>)
    ensures
        v@ == w_index_page(),
{
    let v: Vec<u8> = vec![47u8, 105u8, 110u8, 100u8, 101u8, 120u8, 46u8, 104u8, 116u8, 109u8, 108u8];
    proof {
        assert(v@ =~= w_index_page());
    }
    v
}

/// The bytes of `"/styles.css"`.
pub open spec fn w_styles_page() -> Seq<u8> {
    seq![47u8, 115u8, 116u8, 121u8, 108u8, 101u8, 115u8, 46u8, 99u8, 115u8, 115u8]
}

pub fn v_styles_page() -> (v: Vec<u8>)
    ensures
        v@ == w_styles_page(),
{
    let v: Vec<u8> = vec![47u8, 115u8, 116u8, 121u8, 108u8, 101u8, 115u8, 46u8, 99u8, 115u8, 115u8];
    proof {
        assert(v@ =~= w_styles_page());
    }
    v
}

/// The bytes of `"/app.js"`.
pub open spec fn w_script_page() -> Seq<u8> {
    seq![47u8, 97u8, 112u8, 112u8, 46u8, 106u8, 115u8]
}

pub fn v_script_page() -> (v: Vec<u8>)
    ensures
        v@ == w_script_page(),
{
    let v: Vec<u8> = vec![47u8, 97u8, 112u8, 112u8, 46u8, 106u8, 115u8];
    proof {
        assert(v@ =~= w_script_page());
    }
    v
}

/// The bytes of `"/manual.html"`.
pub open spec fn w_manual_page() -> Seq<u8> {
    seq![47u8, 109u8, 97u8, 110u8, 117u8, 97u8, 108u8, 46u8, 104u8, 116u8, 109u8, 108u8]
}

pub fn v_manual_page() -> (v: Vec<u8>)
    ensures
        v@ == w_manual_page(),
{
    let v: Vec<u8> = vec![47u8, 109u8, 97u8, 110u8, 117u8, 97u8, 108u8, 46u8, 104u8, 116u8, 109u8, 108u8];
    proof {
        assert(v@ =~= w_manual_page());
    }
    v
}

/// The bytes of `"/echo/"`.
pub open spec fn w_echo_prefix() -> Seq<u8> {
    seq![47u8, 101u8, 99u8, 104u8, 111u8, 47u8]
}

pub fn v_echo_prefix() -> (v: Vec<u8>)
    ensures
        v@ == w_echo_prefix(),
{
    let v: Vec<u8> = vec![47u8, 101u8, 99u8, 104u8, 111u8, 47u8];
    proof {
        assert(v@ =~= w_echo_prefix());
    }
    v
}

/// The bytes of `"/user-agent"`.
pub open spec fn w_user_agent_page() -> Seq<u8> {
    seq![47u8, 117u8, 115u8, 101u8, 114u8, 45u8, 97u8, 103u8, 101u8, 110u8, 116u8]
}

pub fn v_user_agent_page() -> (v: Vec<u8>)
    ensures
        v@ == w_user_agent_page(),
{
    let v: Vec<u8> = vec![47u8, 117u8, 115u8, 101u8, 114u8, 45u8, 97u8, 103u8, 101u8, 110u8, 116u8];
    proof {
        assert(v@ =~= w_user_agent_page());
    }
    v
}

/// The bytes of `"/files"`.
pub open spec fn w_files_page() -> Seq<u8> {
    seq![47u8, 102u8, 105u8, 108u8, 101u8, 115u8]
}

pub fn v_files_page() -> (v: Vec<u8>)
    ensures
        v@ == w_files_page(),
{
    let v: Vec<u8> = vec![47u8, 102u8, 105u8, 108u8, 101u8, 115u8];
    proof {
        assert(v@ =~= w_files_page());
    }
    v
}

/// The bytes of `"/files/"`.
pub open spec fn w_files_prefix() -> Seq<u8> {
    seq![47u8, 102u8, 105u8, 108u8, 101u8, 115u8, 47u8]
}

pub fn v_files_prefix() -> (v: Vec<u8>)
    ensures
        v@ == w_files_prefix(),
{
    let v: Vec<u8> = vec![47u8, 102u8, 105u8, 108u8, 101u8, 115u8, 47u8];
    proof {
        assert(v@ =~= w_files_prefix());
    }
    v
}

/// The bytes of `"/mkdir/"`.
pub open spec fn w_mkdir_prefix() -> Seq<u8> {
    seq![47u8, 109u8, 107u8, 100u8, 105u8, 114u8, 47u8]
}

pub fn v_mkdir_prefix() -> (v: Vec<u8>)
    ensures
        v@ == w_mkdir_prefix(),
{
    let v: Vec<u8> = vec![47u8, 109u8, 107u8, 100u8, 105u8, 114u8, 47u8];
    proof {
        assert(v@ =~= w_mkdir_prefix());
    }
    v
}

/// The bytes of `"User-Agent"`.
pub open spec fn w_user_agent() -> Seq<u8> {
    seq![85u8, 115u8, 101u8, 114u8, 45u8, 65u8, 103u8, 101u8, 110u8, 116u8]
}

pub fn v_user_agent() -> (v: Vec<u8>)
    ensures
        v@ == w_user_agent(),
{
    let v: Vec<u8> = vec![85u8, 115u8, 101u8, 114u8, 45u8, 65u8, 103u8, 101u8, 110u8, 116u8];
    proof {
        assert(v@ =~= w_user_agent());
    }
    v
}

/// The bytes of `"Content-Length"`.
pub open spec fn w_content_length() -> Seq<u8> {
    seq![67u8, 111u8, 110u8, 116u8, 101u8, 110u8, 116u8, 45u8, 76u8, 101u8, 110u8, 103u8, 116u8, 104u8]
}

pub fn v_content_length() -> (v: Vec<u8>)
    ensures
        v@ == w_content_length(),
{
    let v: Vec<u8> = vec![67u8, 111u8, 110u8, 116u8, 101u8, 110u8, 116u8, 45u8, 76u8, 101u8, 110u8, 103u8, 116u8, 104u8];
    proof {
        assert(v@ =~= w_content_length());
    }
    v
}

/// The bytes of `"Unknown"`.
pub open spec fn w_unknown() -> Seq<u8> {
    seq![85u8, 110u8, 107u8, 110u8, 111u8, 119u8, 110u8]
}

pub fn v_unknown() -> (v: Vec<u8>)
    ensures
        v@ == w_unknown(),
{
    let v: Vec<u8> = vec![85u8, 110u8, 107u8, 110u8, 111u8, 119u8, 110u8];
    proof {
        assert(v@ =~= w_unknown());
    }
    v
}

/// The bytes of `"index.html"`.
pub open spec fn w_asset_index() -> Seq<u8> {
    seq![105u8, 110u8, 100u8, 101u8, 120u8, 46u8, 104u8, 116u8, 109u8, 108u8]
}

pub fn v_asset_index() -> (v: Vec<u8>)
    ensures
        v@ == w_asset_index(),
{
    let v: Vec<u8> = vec![105u8, 110u8, 100u8, 101u8, 120u8, 46u8, 104u8, 116u8, 109u8, 108u8];
    proof {
        assert(v@ =~= w_asset_index());
    }
    v
}

/// The bytes of `"styles.css"`.
pub open spec fn w_asset_styles() -> Seq<u8> {
    seq![115u8, 116u8, 121u8, 108u8, 101u8, 115u8, 46u8, 99u8, 115u8, 115u8]
}

pub fn v_asset_styles() -> (v: Vec<u8>)
    ensures
        v@ == w_asset_styles(),
{
    let v: Vec<u8> = vec![115u8, 116u8, 121u8, 108u8, 101u8, 115u8, 46u8, 99u8, 115u8, 115u8];
    proof {
        assert(v@ =~= w_asset_styles());
    }
    v
}

/// The bytes of `"app.js"`.
pub open spec fn w_asset_script() -> Seq<u8> {
    seq![97u8, 112u8, 112u8, 46u8, 106u8, 115u8]
}

pub fn v_asset_script() -> (v: Vec<u8>)
    ensures
        v@ == w_asset_script(),
{
    let v: Vec<u8> = vec![97u8, 112u8, 112u8, 46u8, 106u8, 115u8];
    proof {
        assert(v@ =~= w_asset_script());
    }
    v
}

/// The bytes of `"manual.html"`.
pub open spec fn w_asset_manual() -> Seq<u8> {
    seq![109u8, 97u8, 110u8, 117u8, 97u8, 108u8, 46u8, 104u8, 116u8, 109u8, 108u8]
}

pub fn v_asset_manual() -> (v: Vec<u8>)
    ensures
        v@ == w_asset_manual(),
{
    let v: Vec<u8> = vec![109u8, 97u8, 110u8, 117u8, 97u8, 108u8, 46u8, 104u8, 116u8, 109u8, 108u8];
    proof {
        assert(v@ =~= w_asset_manual());
    }
    v
}

/// The bytes of `"text/html"`.
pub open spec fn w_ct_html() -> Seq<u8> {
    seq![116u8, 101u8, 120u8, 116u8, 47u8, 104u8, 116u8, 109u8, 108u8]
}

pub fn v_ct_html() -> (v: Vec<u8>)
    ensures
        v@ == w_ct_html(),
{
    let v: Vec<u8> = vec![116u8, 101u8, 120u8, 116u8, 47u8, 104u8, 116u8, 109u8, 108u8];
    proof {
        assert(v@ =~= w_ct_html());
    }
    v
}

/// The bytes of `"text/css"`.
pub open spec fn w_ct_css() -> Seq<u8> {
    seq![116u8, 101u8, 120u8, 116u8, 47u8, 99u8, 115u8, 115u8]
}

pub fn v_ct_css() -> (v: Vec<u8>)
    ensures
        v@ == w_ct_css(),
{
    let v: Vec<u8> = vec![116u8, 101u8, 120u8, 116u8, 47u8, 99u8, 115u8, 115u8];
    proof {
        assert(v@ =~= w_ct_css());
    }
    v
}

/// The bytes of `"application/javascript"`.
pub open spec fn w_ct_js() -> Seq<u8> {
    seq![97u8, 112u8, 112u8, 108u8, 105u8, 99u8, 97u8, 116u8, 105u8, 111u8, 110u8, 47u8, 106u8, 97u8, 118u8, 97u8, 115u8, 99u8, 114u8, 105u8, 112u8, 116u8]
}

pub fn v_ct_js() -> (v: Vec<u8>)
    ensures
        v@ == w_ct_js(),
{
    let v: Vec<u8> = vec![97u8, 112u8, 112u8, 108u8, 105u8, 99u8, 97u8, 116u8, 105u8, 111u8, 110u8, 47u8, 106u8, 97u8, 118u8, 97u8, 115u8, 99u8, 114u8, 105u8, 112u8, 116u8];
    proof {
        assert(v@ =~= w_ct_js());
    }
    v
}

/// The bytes of `"text/plain"`.
pub open spec fn w_ct_plain() -> Seq<u8> {
    seq![116u8, 101u8, 120u8, 116u8, 47u8, 112u8, 108u8, 97u8, 105u8, 110u8]
}

pub fn v_ct_plain() -> (v: Vec<u8>)
    ensures
        v@ == w_ct_plain(),
{
    let v: Vec<u8> = vec![116u8, 101u8, 120u8, 116u8, 47u8, 112u8, 108u8, 97u8, 105u8, 110u8];
    proof {
        assert(v@ =~= w_ct_plain());
    }
    v
}

/// The bytes of `"application/octet-stream"`.
pub open spec fn w_ct_octet() -> Seq<u8> {
    seq![97u8, 112u8, 112u8, 108u8, 105u8, 99u8, 97u8, 116u8, 105u8, 111u8, 110u8, 47u8, 111u8, 99u8, 116u8, 101u8, 116u8, 45u8, 115u8, 116u8, 114u8, 101u8, 97u8, 109u8]
}

pub fn v_ct_octet() -> (v: Vec<u8>)
    ensures
        v@ == w_ct_octet(),
{
    let v: Vec<u8> = vec![97u8, 112u8, 112u8, 108u8, 105u8, 99u8, 97u8, 116u8, 105u8, 111u8, 110u8, 47u8, 111u8, 99u8, 116u8, 101u8, 116u8, 45u8, 115u8, 116u8, 114u8, 101u8, 97u8, 109u8];
    proof {
        assert(v@ =~= w_ct_octet());
    }
    v
}

/// The bytes of `"200 OK"`.
pub open spec fn w_st_ok() -> Seq<u8> {
    seq![50u8, 48u8, 48u8, 32u8, 79u8, 75u8]
}

pub fn v_st_ok() -> (v: Vec<u8>)
    ensures
        v@ == w_st_ok(),
{
    let v: Vec<u8> = vec![50u8, 48u8, 48u8, 32u8, 79u8, 75u8];
    proof {
        assert(v@ =~= w_st_ok());
    }
    v
}

/// The bytes of `"201 Created"`.
pub open spec fn w_st_created() -> Seq<u8> {
    seq![50u8, 48u8, 49u8, 32u8, 67u8, 114u8, 101u8, 97u8, 116u8, 101u8, 100u8]
}

pub fn v_st_created() -> (v: Vec<u8>)
    ensures
        v@ == w_st_created(),
{
    let v: Vec<u8> = vec![50u8, 48u8, 49u8, 32u8, 67u8, 114u8, 101u8, 97u8, 116u8, 101u8, 100u8];
    proof {
        assert(v@ =~= w_st_created());
    }
    v
}

/// The bytes of `"404 Not Found"`.
pub open spec fn w_st_not_found() -> Seq<u8> {
    seq![52u8, 48u8, 52u8, 32u8, 78u8, 111u8, 116u8, 32u8, 70u8, 111u8, 117u8, 110u8, 100u8]
}

pub fn v_st_not_found() -> (v: Vec<u8>)
    ensures
        v@ == w_st_not_found(),
{
    let v: Vec<u8> = vec![52u8, 48u8, 52u8, 32u8, 78u8, 111u8, 116u8, 32u8, 70u8, 111u8, 117u8, 110u8, 100u8];
    proof {
        assert(v@ =~= w_st_not_found());
    }
    v
}

/// The bytes of `"405 Method Not Allowed"`.
pub open spec fn w_st_method_not_allowed() -> Seq<u8> {
    seq![52u8, 48u8, 53u8, 32u8, 77u8, 101u8, 116u8, 104u8, 111u8, 100u8, 32u8, 78u8, 111u8, 116u8, 32u8, 65u8, 108u8, 108u8, 111u8, 119u8, 101u8, 100u8]
}

pub fn v_st_method_not_allowed() -> (v: Vec<u8>)
    ensures
        v@ == w_st_method_not_allowed(),
{
    let v: Vec<u8> = vec![52u8, 48u8, 53u8, 32u8, 77u8, 101u8, 116u8, 104u8, 111u8, 100u8, 32u8, 78u8, 111u8, 116u8, 32u8, 65u8, 108u8, 108u8, 111u8, 119u8, 101u8, 100u8];
    proof {
        assert(v@ =~= w_st_method_not_allowed());
    }
    v
}

/// The bytes of `"500 Internal Server Error"`.
pub open spec fn w_st_server_error() -> Seq<u8> {
    seq![53u8, 48u8, 48u8, 32u8, 73u8, 110u8, 116u8, 101u8, 114u8, 110u8, 97u8, 108u8, 32u8, 83u8, 101u8, 114u8, 118u8, 101u8, 114u8, 32u8, 69u8, 114u8, 114u8, 111u8, 114u8]
}

pub fn v_st_server_error() -> (v: Vec<u8>)
    ensures
        v@ == w_st_server_error(),
{
    let v: Vec<u8> = vec![53u8, 48u8, 48u8, 32u8, 73u8, 110u8, 116u8, 101u8, 114u8, 110u8, 97u8, 108u8, 32u8, 83u8, 101u8, 114u8, 118u8, 101u8, 114u8, 32u8, 69u8, 114u8, 114u8, 111u8, 114u8];
    proof {
        assert(v@ =~= w_st_server_error());
    }
    v
}

/// The bytes of `"Method not allowed"`.
pub open spec fn w_msg_method_not_allowed() -> Seq<u8> {
    seq![77u8, 101u8, 116u8, 104u8, 111u8, 100u8, 32u8, 110u8, 111u8, 116u8, 32u8, 97u8, 108u8, 108u8, 111u8, 119u8, 101u8, 100u8]
}

pub fn v_msg_method_not_allowed() -> (v: Vec<u8>)
    ensures
        v@ == w_msg_method_not_allowed(),
{
    let v: Vec<u8> = vec![77u8, 101u8, 116u8, 104u8, 111u8, 100u8, 32u8, 110u8, 111u8, 116u8, 32u8, 97u8, 108u8, 108u8, 111u8, 119u8, 101u8, 100u8];
    proof {
        assert(v@ =~= w_msg_method_not_allowed());
    }
    v
}

/// The bytes of `"Not Found"`.
pub open spec fn w_msg_not_found() -> Seq<u8> {
    seq![78u8, 111u8, 116u8, 32u8, 70u8, 111u8, 117u8, 110u8, 100u8]
}

pub fn v_msg_not_found() -> (v: Vec<u8>)
    ensures
        v@ == w_msg_not_found(),
{
    let v: Vec<u8> = vec![78u8, 111u8, 116u8, 32u8, 70u8, 111u8, 117u8, 110u8, 100u8];
    proof {
        assert(v@ =~= w_msg_not_found());
    }
    v
}

/// The bytes of `"File not found"`.
pub open spec fn w_msg_file_not_found() -> Seq<u8> {
    seq![70u8, 105u8, 108u8, 101u8, 32u8, 110u8, 111u8, 116u8, 32u8, 102u8, 111u8, 117u8, 110u8, 100u8]
}

pub fn v_msg_file_not_found() -> (v: Vec<u8>)
    ensures
        v@ == w_msg_file_not_found(),
{
    let v: Vec<u8> = vec![70u8, 105u8, 108u8, 101u8, 32u8, 110u8, 111u8, 116u8, 32u8, 102u8, 111u8, 117u8, 110u8, 100u8];
    proof {
        assert(v@ =~= w_msg_file_not_found());
    }
    v
}

/// The bytes of `"404 - File Not Found"`.
pub open spec fn w_msg_asset_not_found() -> Seq<u8> {
    seq![52u8, 48u8, 52u8, 32u8, 45u8, 32u8, 70u8, 105u8, 108u8, 101u8, 32u8, 78u8, 111u8, 116u8, 32u8, 70u8, 111u8, 117u8, 110u8, 100u8]
}

pub fn v_msg_asset_not_found() -> (v: Vec<u8>)
    ensures
        v@ == w_msg_asset_not_found(),
{
    let v: Vec<u8> = vec![52u8, 48u8, 52u8, 32u8, 45u8, 32u8, 70u8, 105u8, 108u8, 101u8, 32u8, 78u8, 111u8, 116u8, 32u8, 70u8, 111u8, 117u8, 110u8, 100u8];
    proof {
        assert(v@ =~= w_msg_asset_not_found());
    }
    v
}

/// The bytes of `"File created"`.
pub open spec fn w_msg_file_created() -> Seq<u8> {
    seq![70u8, 105u8, 108u8, 101u8, 32u8, 99u8, 114u8, 101u8, 97u8, 116u8, 101u8, 100u8]
}

pub fn v_msg_file_created() -> (v: Vec<u8>)
    ensures
        v@ == w_msg_file_created(),
{
    let v: Vec<u8> = vec![70u8, 105u8, 108u8, 101u8, 32u8, 99u8, 114u8, 101u8, 97u8, 116u8, 101u8, 100u8];
    proof {
        assert(v@ =~= w_msg_file_created());
    }
    v
}

/// The bytes of `"Failed to write file"`.
pub open spec fn w_msg_write_failed() -> Seq<u8> {
    seq![70u8, 97u8, 105u8, 108u8, 101u8, 100u8, 32u8, 116u8, 111u8, 32u8, 119u8, 114u8, 105u8, 116u8, 101u8, 32u8, 102u8, 105u8, 108u8, 101u8]
}

pub fn v_msg_write_failed() -> (v: Vec<u8>)
    ensures
        v@ == w_msg_write_failed(),
{
    let v: Vec<u8> = vec![70u8, 97u8, 105u8, 108u8, 101u8, 100u8, 32u8, 116u8, 111u8, 32u8, 119u8, 114u8, 105u8, 116u8, 101u8, 32u8, 102u8, 105u8, 108u8, 101u8];
    proof {
        assert(v@ =~= w_msg_write_failed());
    }
    v
}

/// The bytes of `"Failed to create file"`.
pub open spec fn w_msg_create_failed() -> Seq<u8> {
    seq![70u8, 97u8, 105u8, 108u8, 101u8, 100u8, 32u8, 116u8, 111u8, 32u8, 99u8, 114u8, 101u8, 97u8, 116u8, 101u8, 32u8, 102u8, 105u8, 108u8, 101u8]
}

pub fn v_msg_create_failed() -> (v: Vec<u8>)
    ensures
        v@ == w_msg_create_failed(),
{
    let v: Vec<u8> = vec![70u8, 97u8, 105u8, 108u8, 101u8, 100u8, 32u8, 116u8, 111u8, 32u8, 99u8, 114u8, 101u8, 97u8, 116u8, 101u8, 32u8, 102u8, 105u8, 108u8, 101u8];
    proof {
        assert(v@ =~= w_msg_create_failed());
    }
    v
}

/// The bytes of `"Directory created"`.
pub open spec fn w_msg_dir_created() -> Seq<u8> {
    seq![68u8, 105u8, 114u8, 101u8, 99u8, 116u8, 111u8, 114u8, 121u8, 32u8, 99u8, 114u8, 101u8, 97u8, 116u8, 101u8, 100u8]
}

pub fn v_msg_dir_created() -> (v: Vec<u8>)
    ensures
        v@ == w_msg_dir_created(),
{
    let v: Vec<u8> = vec![68u8, 105u8, 114u8, 101u8, 99u8, 116u8, 111u8, 114u8, 121u8, 32u8, 99u8, 114u8, 101u8, 97u8, 116u8, 101u8, 100u8];
    proof {
        assert(v@ =~= w_msg_dir_created());
    }
    v
}

/// The bytes of `"Failed to create directory"`.
pub open spec fn w_msg_mkdir_failed() -> Seq<u8> {
    seq![70u8, 97u8, 105u8, 108u8, 101u8, 100u8, 32u8, 116u8, 111u8, 32u8, 99u8, 114u8, 101u8, 97u8, 116u8, 101u8, 32u8, 100u8, 105u8, 114u8, 101u8, 99u8, 116u8, 111u8, 114u8, 121u8]
}

pub fn v_msg_mkdir_failed() -> (v: Vec<u8>)
    ensures
        v@ == w_msg_mkdir_failed(),
{
    let v: Vec<u8> = vec![70u8, 97u8, 105u8, 108u8, 101u8, 100u8, 32u8, 116u8, 111u8, 32u8, 99u8, 114u8, 101u8, 97u8, 116u8, 101u8, 32u8, 100u8, 105u8, 114u8, 101u8, 99u8, 116u8, 111u8, 114u8, 121u8];
    proof {
        assert(v@ =~= w_msg_mkdir_failed());
    }
    v
}

/// The bytes of `"File deleted"`.
pub open spec fn w_msg_file_deleted() -> Seq<u8> {
    seq![70u8, 105u8, 108u8, 101u8, 32u8, 100u8, 101u8, 108u8, 101u8, 116u8, 101u8, 100u8]
}

pub fn v_msg_file_deleted() -> (v: Vec<u8>)
    ensures
        v@ == w_msg_file_deleted(),
{
    let v: Vec<u8> = vec![70u8, 105u8, 108u8, 101u8, 32u8, 100u8, 101u8, 108u8, 101u8, 116u8, 101u8, 100u8];
    proof {
        assert(v@ =~= w_msg_file_deleted());
    }
    v
}

/// The bytes of `"Directory deleted"`.
pub open spec fn w_msg_dir_deleted() -> Seq<u8> {
    seq![68u8, 105u8, 114u8, 101u8, 99u8, 116u8, 111u8, 114u8, 121u8, 32u8, 100u8, 101u8, 108u8, 101u8, 116u8, 101u8, 100u8]
}

pub fn v_msg_dir_deleted() -> (v: Vec<u8>)
    ensures
        v@ == w_msg_dir_deleted(),
{
    let v: Vec<u8> = vec![68u8, 105u8, 114u8, 101u8, 99u8, 116u8, 111u8, 114u8, 121u8, 32u8, 100u8, 101u8, 108u8, 101u8, 116u8, 101u8, 100u8];
    proof {
        assert(v@ =~= w_msg_dir_deleted());
    }
    v
}

/// The bytes of `"Failed to delete file"`.
pub open spec fn w_msg_delete_file_failed() -> Seq<u8> {
    seq![70u8, 97u8, 105u8, 108u8, 101u8, 100u8, 32u8, 116u8, 111u8, 32u8, 100u8, 101u8, 108u8, 101u8, 116u8, 101u8, 32u8, 102u8, 105u8, 108u8, 101u8]
}

pub fn v_msg_delete_file_failed() -> (v: Vec<u8>)
    ensures
        v@ == w_msg_delete_file_failed(),
{
    let v: Vec<u8> = vec![70u8, 97u8, 105u8, 108u8, 101u8, 100u8, 32u8, 116u8, 111u8, 32u8, 100u8, 101u8, 108u8, 101u8, 116u8, 101u8, 32u8, 102u8, 105u8, 108u8, 101u8];
    proof {
        assert(v@ =~= w_msg_delete_file_failed());
    }
    v
}

/// The bytes of `"Failed to delete directory"`.
pub open spec fn w_msg_delete_dir_failed() -> Seq<u8> {
    seq![70u8, 97u8, 105u8, 108u8, 101u8, 100u8, 32u8, 116u8, 111u8, 32u8, 100u8, 101u8, 108u8, 101u8, 116u8, 101u8, 32u8, 100u8, 105u8, 114u8, 101u8, 99u8, 116u8, 111u8, 114u8, 121u8]
}

pub fn v_msg_delete_dir_failed() -> (v: Vec<u8>)
    ensures
        v@ == w_msg_delete_dir_failed(),
{
    let v: Vec<u8> = vec![70u8, 97u8, 105u8, 108u8, 101u8, 100u8, 32u8, 116u8, 111u8, 32u8, 100u8, 101u8, 108u8, 101u8, 116u8, 101u8, 32u8, 100u8, 105u8, 114u8, 101u8, 99u8, 116u8, 111u8, 114u8, 121u8];
    proof {
        assert(v@ =~= w_msg_delete_dir_failed());
    }
    v
}

/// The bytes of `"Failed to list directory"`.
pub open spec fn w_msg_list_failed() -> Seq<u8> {
    seq![70u8, 97u8, 105u8, 108u8, 101u8, 100u8, 32u8, 116u8, 111u8, 32u8, 108u8, 105u8, 115u8, 116u8, 32u8, 100u8, 105u8, 114u8, 101u8, 99u8, 116u8, 111u8, 114u8, 121u8]
}

pub fn v_msg_list_failed() -> (v: Vec<u8>)
    ensures
        v@ == w_msg_list_failed(),
{
    let v: Vec<u8> = vec![70u8, 97u8, 105u8, 108u8, 101u8, 100u8, 32u8, 116u8, 111u8, 32u8, 108u8, 105u8, 115u8, 116u8, 32u8, 100u8, 105u8, 114u8, 101u8, 99u8, 116u8, 111u8, 114u8, 121u8];
    proof {
        assert(v@ =~= w_msg_list_failed());
    }
    v
}

/// The bytes of `"Failed to read file"`.
pub open spec fn w_msg_read_failed() -> Seq<u8> {
    seq![70u8, 97u8, 105u8, 108u8, 101u8, 100u8, 32u8, 116u8, 111u8, 32u8, 114u8, 101u8, 97u8, 100u8, 32u8, 102u8, 105u8, 108u8, 101u8]
}

pub fn v_msg_read_failed() -> (v: Vec<u8>)
    ensures
        v@ == w_msg_read_failed(),
{
    let v: Vec<u8> = vec![70u8, 97u8, 105u8, 108u8, 101u8, 100u8, 32u8, 116u8, 111u8, 32u8, 114u8, 101u8, 97u8, 100u8, 32u8, 102u8, 105u8, 108u8, 101u8];
    proof {
        assert(v@ =~= w_msg_read_failed());
    }
    v
}

/// The bytes of `"HTTP/1.1 "`.
pub open spec fn w_version_prefix() -> Seq<u8> {
    seq![72u8, 84u8, 84u8, 80u8, 47u8, 49u8, 46u8, 49u8, 32u8]
}

pub fn v_version_prefix() -> (v: Vec<u8>)
    ensures
        v@ == w_version_prefix(),
{
    let v: Vec<u8> = vec![72u8, 84u8, 84u8, 80u8, 47u8, 49u8, 46u8, 49u8, 32u8];
    proof {
        assert(v@ =~= w_version_prefix());
    }
    v
}

/// The bytes of `"\r\n"`.
pub open spec fn w_crlf() -> Seq<u8> {
    seq![13u8, 10u8]
}

pub fn v_crlf() -> (v: Vec<u8>)
    ensures
        v@ == w_crlf(),
{
    let v: Vec<u8> = vec![13u8, 10u8];
    proof {
        assert(v@ =~= w_crlf());
    }
    v
}

/// The bytes of `"Content-Type: "`.
pub open spec fn w_ct_field() -> Seq<u8> {
    seq![67u8, 111u8, 110u8, 116u8, 101u8, 110u8, 116u8, 45u8, 84u8, 121u8, 112u8, 101u8, 58u8, 32u8]
}

pub fn v_ct_field() -> (v: Vec<u8>)
    ensures
        v@ == w_ct_field(),
{
    let v: Vec<u8> = vec![67u8, 111u8, 110u8, 116u8, 101u8, 110u8, 116u8, 45u8, 84u8, 121u8, 112u8, 101u8, 58u8, 32u8];
    proof {
        assert(v@ =~= w_ct_field());
    }
    v
}

/// The bytes of `"Content-Length: "`.
pub open spec fn w_cl_field() -> Seq<u8> {
    seq![67u8, 111u8, 110u8, 116u8, 101u8, 110u8, 116u8, 45u8, 76u8, 101u8, 110u8, 103u8, 116u8, 104u8, 58u8, 32u8]
}

pub fn v_cl_field() -> (v: Vec<u8>)
    ensures
        v@ == w_cl_field(),
{
    let v: Vec<u8> = vec![67u8, 111u8, 110u8, 116u8, 101u8, 110u8, 116u8, 45u8, 76u8, 101u8, 110u8, 103u8, 116u8, 104u8, 58u8, 32u8];
    proof {
        assert(v@ =~= w_cl_field());
    }
    v
}

/// The bytes of `"\n"`.
pub open spec fn w_newline() -> Seq<u8> {
    seq![10u8]
}

pub fn v_newline() -> (v: Vec<u8>)
    ensures
        v@ == w_newline(),
{
    let v: Vec<u8> = vec![10u8];
    proof {
        assert(v@ =~= w_newline());
    }
    v
}

} // verus!
