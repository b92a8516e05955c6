//! Responses: which status, content type and body each (action,
//! filesystem outcome) pair earns, and the exact bytes the server
//! writes back — status line, `Content-Type`, a `Content-Length`
//! computed from the actual body, a blank line, then the body.

use vstd::prelude::*;

use crate::bytes::{append_bytes, dec_digits, format_dec};
use crate::router::{Action, ActionModel};
use crate::words::{
    v_ct_plain, v_msg_asset_not_found, v_msg_create_failed, v_msg_delete_dir_failed,
    v_msg_delete_file_failed, v_msg_dir_created, v_msg_dir_deleted, v_msg_file_created,
    v_msg_file_deleted, v_msg_file_not_found, v_msg_list_failed, v_msg_method_not_allowed,
    v_msg_mkdir_failed, v_msg_not_found, v_msg_read_failed, v_msg_write_failed, v_ct_octet,
    v_st_created, v_st_method_not_allowed, v_st_not_found, v_st_ok, v_st_server_error,
    w_cl_field, w_crlf, w_ct_field, w_ct_octet, w_ct_plain, w_msg_asset_not_found,
    w_msg_create_failed, w_msg_delete_dir_failed, w_msg_delete_file_failed, w_msg_dir_created,
    w_msg_dir_deleted, w_msg_file_created, w_msg_file_deleted, w_msg_file_not_found,
    w_msg_list_failed, w_msg_method_not_allowed, w_msg_mkdir_failed, w_msg_not_found,
    w_msg_read_failed, w_msg_write_failed, w_newline, w_st_created, w_st_method_not_allowed,
    w_st_not_found, w_st_ok, w_st_server_error, w_version_prefix,
};

verus! {

/// One response: status line text, content type, body.
pub struct Response {
    pub status: Vec<u8>,
    pub content_type: Vec<u8>,
    pub body: Vec<u8>,
}

#[verifier::ext_equal]
pub ghost struct RespModel {
    pub status: Seq<u8>,
    pub content_type: Seq<u8>,
    pub body: Seq<u8>,
}

impl View for Response {
    type V = RespModel;

    open spec fn view(&self) -> RespModel {
        RespModel {
            status: self.status@,
            content_type: self.content_type@,
            body: self.body@,
        }
    }
}

/// The outcome of the filesystem work an `Action` named, reported by
/// the caller that performed it.
pub enum FsEvent {
    /// The action needed no filesystem work.
    Pure,
    /// The directory listing, one entry name per element.
    Listing { names: Vec<Vec<u8>> },
    /// The directory could not be read.
    ListFailed,
    /// The file's raw bytes.
    FileData { data: Vec<u8> },
    /// The file does not exist.
    FileMissing,
    /// The file exists but could not be read.
    FileUnreadable,
    /// The file was created and written.
    WriteOk,
    /// The file was created but writing it failed.
    WriteFailed,
    /// The file could not be created.
    CreateFailed,
    /// The directory now exists.
    MkdirOk,
    /// The directory could not be created.
    MkdirFailed,
    /// The entry was a file and was removed.
    DeletedFile,
    /// The entry was a directory and was removed.
    DeletedDir,
    /// There was no such entry to delete.
    DeleteMissing,
    /// The entry was a file and removing it failed.
    DeleteFileFailed,
    /// The entry was a directory and removing it failed.
    DeleteDirFailed,
}

#[verifier::ext_equal]
pub ghost enum FsEventModel {
    Pure,
    Listing { names: Seq<Seq<u8>> },
    ListFailed,
    FileData { data: Seq<u8> },
    FileMissing,
    FileUnreadable,
    WriteOk,
    WriteFailed,
    CreateFailed,
    MkdirOk,
    MkdirFailed,
    DeletedFile,
    DeletedDir,
    DeleteMissing,
    DeleteFileFailed,
    DeleteDirFailed,
}

impl View for FsEvent {
    type V = FsEventModel;

    open spec fn view(&self) -> FsEventModel {
        match self {
            FsEvent::Pure => FsEventModel::Pure,
            FsEvent::Listing { names } => FsEventModel::Listing {
                names: names@.map_values(|v: Vec<u8>| v@),
            },
            FsEvent::ListFailed => FsEventModel::ListFailed,
            FsEvent::FileData { data } => FsEventModel::FileData { data: data@ },
            FsEvent::FileMissing => FsEventModel::FileMissing,
            FsEvent::FileUnreadable => FsEventModel::FileUnreadable,
            FsEvent::WriteOk => FsEventModel::WriteOk,
            FsEvent::WriteFailed => FsEventModel::WriteFailed,
            FsEvent::CreateFailed => FsEventModel::CreateFailed,
            FsEvent::MkdirOk => FsEventModel::MkdirOk,
            FsEvent::MkdirFailed => FsEventModel::MkdirFailed,
            FsEvent::DeletedFile => FsEventModel::DeletedFile,
            FsEvent::DeletedDir => FsEventModel::DeletedDir,
            FsEvent::DeleteMissing => FsEventModel::DeleteMissing,
            FsEvent::DeleteFileFailed => FsEventModel::DeleteFileFailed,
            FsEvent::DeleteDirFailed => FsEventModel::DeleteDirFailed,
        }
    }
}

/// The listing body: every entry name, each followed by one LF.
pub open spec fn listing_join(names: Seq<Seq<u8>>) -> Seq<u8>
    decreases names.len(),
{
    if names.len() == 0 {
        Seq::empty()
    } else {
        listing_join(names.drop_last()) + names.last() + w_newline()
    }
}

pub open spec fn plain(status: Seq<u8>, body: Seq<u8>) -> RespModel {
    RespModel { status, content_type: w_ct_plain(), body }
}

/// The response each (action, outcome) pair earns. Outcomes that the
/// action's filesystem work cannot produce fall to that action's
/// failure answer.
pub open spec fn response_model(a: ActionModel, e: FsEventModel) -> RespModel {
    match a {
        ActionModel::ServeAsset { content_type, .. } => match e {
            FsEventModel::FileData { data } => RespModel {
                status: w_st_ok(),
                content_type,
                body: data,
            },
            _ => plain(w_st_not_found(), w_msg_asset_not_found()),
        },
        ActionModel::Echo { content } => plain(w_st_ok(), content),
        ActionModel::UserAgentReply { agent } => plain(w_st_ok(), agent),
        ActionModel::ListDir => match e {
            FsEventModel::Listing { names } => plain(w_st_ok(), listing_join(names)),
            _ => plain(w_st_server_error(), w_msg_list_failed()),
        },
        ActionModel::ReadFile { .. } => match e {
            FsEventModel::FileData { data } => RespModel {
                status: w_st_ok(),
                content_type: w_ct_octet(),
                body: data,
            },
            FsEventModel::FileMissing => plain(w_st_not_found(), w_msg_file_not_found()),
            _ => plain(w_st_server_error(), w_msg_read_failed()),
        },
        ActionModel::WriteFile { .. } => match e {
            FsEventModel::WriteOk => plain(w_st_created(), w_msg_file_created()),
            FsEventModel::WriteFailed => plain(w_st_server_error(), w_msg_write_failed()),
            _ => plain(w_st_server_error(), w_msg_create_failed()),
        },
        ActionModel::MakeDir { .. } => match e {
            FsEventModel::MkdirOk => plain(w_st_created(), w_msg_dir_created()),
            _ => plain(w_st_server_error(), w_msg_mkdir_failed()),
        },
        ActionModel::DeleteEntry { .. } => match e {
            FsEventModel::DeletedFile => plain(w_st_ok(), w_msg_file_deleted()),
            FsEventModel::DeletedDir => plain(w_st_ok(), w_msg_dir_deleted()),
            FsEventModel::DeleteMissing => plain(w_st_not_found(), w_msg_file_not_found()),
            FsEventModel::DeleteDirFailed => plain(
                w_st_server_error(),
                w_msg_delete_dir_failed(),
            ),
            _ => plain(w_st_server_error(), w_msg_delete_file_failed()),
        },
        ActionModel::NotFound => plain(w_st_not_found(), w_msg_not_found()),
        ActionModel::MethodNotAllowed => plain(
            w_st_method_not_allowed(),
            w_msg_method_not_allowed(),
        ),
    }
}

fn plain_response(status: Vec<u8>, body: Vec<u8>) -> (r: Response)
    ensures
        r@ == plain(status@, body@),
{
    Response { status, content_type: v_ct_plain(), body }
}

/// The listing body as bytes.
pub fn listing_body(names: &Vec<Vec<u8>>) -> (out: Vec<u8>)
    ensures
        out@ == listing_join(names@.map_values(|v: Vec<u8>| v@)),
{
    let ghost models = names@.map_values(|v: Vec<u8>| v@);
    let mut out: Vec<u8> = Vec::new();
    let nl = crate::words::v_newline();
    let mut i: usize = 0;
    proof {
        assert(models.subrange(0, 0) =~= Seq::<Seq<u8>>::empty());
    }
    while i < names.len()
        invariant
            i <= names@.len(),
            models == names@.map_values(|v: Vec<u8>| v@),
            nl@ == w_newline(),
            out@ == listing_join(models.subrange(0, i as int)),
        decreases names@.len() - i,
    {
        append_bytes(&mut out, &names[i]);
        append_bytes(&mut out, &nl);
        proof {
            let p = models.subrange(0, i as int + 1);
            assert(p.drop_last() =~= models.subrange(0, i as int));
            assert(p.last() == names@[i as int]@);
        }
        i = i + 1;
    }
    proof {
        assert(models.subrange(0, models.len() as int) =~= models);
    }
    out
}

/// Build the response for an action and the reported outcome of its
/// filesystem work.
pub fn response_for(action: Action, event: FsEvent) -> (r: Response)
    ensures
        r@ == response_model(action@, event@),
{
    match action {
        Action::ServeAsset { content_type, .. } => match event {
            FsEvent::FileData { data } => Response {
                status: v_st_ok(),
                content_type,
                body: data,
            },
            _ => plain_response(v_st_not_found(), v_msg_asset_not_found()),
        },
        Action::Echo { content } => plain_response(v_st_ok(), content),
        Action::UserAgentReply { agent } => plain_response(v_st_ok(), agent),
        Action::ListDir => match event {
            FsEvent::Listing { names } => {
                let body = listing_body(&names);
                plain_response(v_st_ok(), body)
            },
            _ => plain_response(v_st_server_error(), v_msg_list_failed()),
        },
        Action::ReadFile { .. } => match event {
            FsEvent::FileData { data } => Response {
                status: v_st_ok(),
                content_type: v_ct_octet(),
                body: data,
            },
            FsEvent::FileMissing => plain_response(v_st_not_found(), v_msg_file_not_found()),
            _ => plain_response(v_st_server_error(), v_msg_read_failed()),
        },
        Action::WriteFile { .. } => match event {
            FsEvent::WriteOk => plain_response(v_st_created(), v_msg_file_created()),
            FsEvent::WriteFailed => plain_response(v_st_server_error(), v_msg_write_failed()),
            _ => plain_response(v_st_server_error(), v_msg_create_failed()),
        },
        Action::MakeDir { .. } => match event {
            FsEvent::MkdirOk => plain_response(v_st_created(), v_msg_dir_created()),
            _ => plain_response(v_st_server_error(), v_msg_mkdir_failed()),
        },
        Action::DeleteEntry { .. } => match event {
            FsEvent::DeletedFile => plain_response(v_st_ok(), v_msg_file_deleted()),
            FsEvent::DeletedDir => plain_response(v_st_ok(), v_msg_dir_deleted()),
            FsEvent::DeleteMissing => plain_response(v_st_not_found(), v_msg_file_not_found()),
            FsEvent::DeleteDirFailed => plain_response(
                v_st_server_error(),
                v_msg_delete_dir_failed(),
            ),
            _ => plain_response(v_st_server_error(), v_msg_delete_file_failed()),
        },
        Action::NotFound => plain_response(v_st_not_found(), v_msg_not_found()),
        Action::MethodNotAllowed => plain_response(
            v_st_method_not_allowed(),
            v_msg_method_not_allowed(),
        ),
    }
}

/// The exact bytes written for a response: `HTTP/1.1 <status>`, the
/// two header lines — with `Content-Length` taken from the body's
/// real length — a blank line, then the body.
pub open spec fn serialized(r: RespModel) -> Seq<u8> {
    w_version_prefix() + r.status + w_crlf() + w_ct_field() + r.content_type + w_crlf()
        + w_cl_field() + dec_digits(r.body.len() as int) + w_crlf() + w_crlf() + r.body
}

/// Serialize a response to the bytes the socket must carry.
pub fn serialize_response(r: &Response) -> (out: Vec<u8>)
    ensures
        out@ == serialized(r@),
{
    let mut out = crate::words::v_version_prefix();
    let crlf = crate::words::v_crlf();
    append_bytes(&mut out, &r.status);
    append_bytes(&mut out, &crlf);
    let ct_field = crate::words::v_ct_field();
    append_bytes(&mut out, &ct_field);
    append_bytes(&mut out, &r.content_type);
    append_bytes(&mut out, &crlf);
    let cl_field = crate::words::v_cl_field();
    append_bytes(&mut out, &cl_field);
    let len_digits = format_dec(r.body.len());
    append_bytes(&mut out, &len_digits);
    append_bytes(&mut out, &crlf);
    append_bytes(&mut out, &crlf);
    append_bytes(&mut out, &r.body);
    out
}

} // verus!
