//! The request context that every backend request carries, and the rule that
//! admits only requests made on behalf of a user.

use vstd::prelude::*;
use vstd::string::StringExecFns;
use crate::error::{ErrorReply, STATUS_BAD_REQUEST, STATUS_UNAUTHORIZED};
use vstd::utf8::{decode_utf8, valid_utf8};
use crate::error::{BackendError, BackendErrorView};
use crate::ids::{is_v4, new_uuid_v4, parse_uuid_str, uuid_parse_str, parse_uuid_ascii, uuid_parse_ascii};
use crate::text::utf8_text;

verus! {

/// The header that carries the request's id.
pub const HEADER_REQUEST_ID: &'static str = "x-itx-request-id";

/// The header that carries the calling user's id.
pub const HEADER_USER_ID: &'static str = "x-itx-user-id";

/// The header that carries the calling user's email.
pub const HEADER_USER_EMAIL: &'static str = "x-itx-user-email";

/// Who a request is made by, and which request it is.
pub struct ItxContext {
    pub request_id: u128,
    pub user_id: Option<u128>,
    pub user_email: Option<String>,
}

/// The text of an optional email.
pub open spec fn email_view(email: Option<String>) -> Option<Seq<char>> {
    match email {
        None => None,
        Some(s) => Some(s@),
    }
}

/// A byte that may stand in a header value read as text: a visible ASCII
/// character, a space or a tab.
pub open spec fn is_visible_ascii(b: u8) -> bool {
    (32 <= b && b < 127) || b == 9
}

/// Whether a header value can be read as text.
pub open spec fn is_header_text(bytes: Seq<u8>) -> bool {
    forall|i: int| 0 <= i < bytes.len() ==> is_visible_ascii(#[trigger] bytes[i])
}

/// What a UUID header means: absent is no id; a value that is not text or
/// not a UUID is invalid (`Err`).
pub open spec fn header_uuid(value: Option<Seq<u8>>) -> Result<Option<u128>, ()> {
    match value {
        None => Ok(None),
        Some(bytes) => if !is_header_text(bytes) {
            Err(())
        } else {
            match uuid_parse_ascii(bytes) {
                Some(id) => Ok(Some(id)),
                None => Err(()),
            }
        },
    }
}

/// What a text header means: the value's text when it is readable text,
/// otherwise (absent, or not text) none.
pub open spec fn header_text(value: Option<Seq<u8>>) -> Option<Seq<char>> {
    match value {
        Some(bytes) => if is_header_text(bytes) && valid_utf8(bytes) {
            Some(decode_utf8(bytes))
        } else {
            None
        },
        None => None,
    }
}

/// The bytes of an optional header value.
pub open spec fn header_bytes(value: Option<&[u8]>) -> Option<Seq<u8>> {
    match value {
        None => None,
        Some(b) => Some(b@),
    }
}

/// Whether a header value can be read as text: every byte is visible ASCII,
/// a space or a tab.
pub fn header_is_text(bytes: &[u8]) -> (b: bool)
    ensures
        b == is_header_text(bytes@),
{
    let mut i: usize = 0;
    while i < bytes.len()
        invariant
            i <= bytes@.len(),
            forall|k: int| 0 <= k < i ==> is_visible_ascii(#[trigger] bytes@[k]),
        decreases bytes@.len() - i,
    {
        let b = bytes[i];
        if !((b >= 32 && b < 127) || b == 9) {
            return false;
        }
        i = i + 1;
    }
    true
}

/// The reply to a request whose header `name` is invalid: 400, "invalid
/// <name>".
pub fn invalid_header(name: &str) -> (reply: ErrorReply)
    ensures
        reply.status == STATUS_BAD_REQUEST,
        reply.message@ == "invalid "@ + name@,
{
    ErrorReply { status: STATUS_BAD_REQUEST, message: String::from_str("invalid ").concat(name) }
}

/// The UUID in header `name`: none when absent; the 400 reply of
/// `invalid_header(name)` when the value is not text or not a UUID.
pub fn parse_uuid_header(value: Option<&[u8]>, name: &str) -> (res: Result<Option<u128>, ErrorReply>)
    ensures
        match header_uuid(header_bytes(value)) {
            Ok(id) => res == Ok::<Option<u128>, ErrorReply>(id),
            Err(()) => res matches Err(reply) && reply.status == STATUS_BAD_REQUEST
                && reply.message@ == "invalid "@ + name@,
        },
{
    match value {
        None => Ok(None),
        Some(bytes) => {
            if !header_is_text(bytes) {
                return Err(invalid_header(name));
            }
            match parse_uuid_ascii(bytes) {
                Some(id) => Ok(Some(id)),
                None => Err(invalid_header(name)),
            }
        },
    }
}

/// The text of a header value: none when it is absent or is not readable
/// text.
pub fn text_header(value: Option<&[u8]>) -> (res: Option<String>)
    ensures
        email_view(res) == header_text(header_bytes(value)),
{
    match value {
        None => None,
        Some(bytes) => {
            if !header_is_text(bytes) {
                return None;
            }
            utf8_text(bytes)
        },
    }
}

/// The context of a request, from its request-id, user-id and user-email
/// header values. An invalid request id is answered first, then an invalid
/// user id; a request without a request id gets a fresh random (version 4)
/// one; the user id is the header's, or none; the email is the header's text,
/// or none when the header is absent or unreadable.
pub fn extract_context(
    request_id_header: Option<&[u8]>,
    user_id_header: Option<&[u8]>,
    user_email_header: Option<&[u8]>,
) -> (res: Result<ItxContext, ErrorReply>)
    ensures
        match header_uuid(header_bytes(request_id_header)) {
            Err(()) => res matches Err(reply) && reply.status == STATUS_BAD_REQUEST
                && reply.message@ == "invalid "@ + HEADER_REQUEST_ID@,
            Ok(request_id) => match header_uuid(header_bytes(user_id_header)) {
                Err(()) => res matches Err(reply) && reply.status == STATUS_BAD_REQUEST
                    && reply.message@ == "invalid "@ + HEADER_USER_ID@,
                Ok(user_id) => res matches Ok(ctx) && ctx.user_id == user_id
                    && email_view(ctx.user_email) == header_text(header_bytes(user_email_header))
                    && (request_id matches Some(id) ==> ctx.request_id == id)
                    && (request_id is None ==> is_v4(ctx.request_id)),
            },
        },
{
    let request_id = match parse_uuid_header(request_id_header, HEADER_REQUEST_ID) {
        Ok(Some(id)) => id,
        Ok(None) => new_uuid_v4(),
        Err(reply) => return Err(reply),
    };
    let user_id = match parse_uuid_header(user_id_header, HEADER_USER_ID) {
        Ok(v) => v,
        Err(reply) => return Err(reply),
    };
    let user_email = text_header(user_email_header);
    Ok(ItxContext { request_id, user_id, user_email })
}

/// The id in a request path: the UUID it spells, or a bad request carrying
/// the parser's message.
pub fn parse_path_id(text: &str) -> (res: Result<u128, BackendError>)
    ensures
        match uuid_parse_str(text@) {
            Ok(id) => res matches Ok(v) && v == id,
            Err(msg) => res matches Err(e) && e@ == BackendErrorView::BadRequest(msg),
        },
{
    match parse_uuid_str(text) {
        Ok(id) => Ok(id),
        Err(msg) => Err(BackendError::BadRequest(msg)),
    }
}

/// The caller's email, which creating the caller's user row needs: a
/// request without one is an unknown error, "missing X-Itx-User-Email".
pub fn required_email(context: &ItxContext) -> (res: Result<String, BackendError>)
    ensures
        match context.user_email {
            Some(e) => res matches Ok(s) && s@ == e@,
            None => res matches Err(err) && err@ == BackendErrorView::Unknown("missing X-Itx-User-Email"@),
        },
{
    match &context.user_email {
        Some(e) => Ok(e.clone()),
        None => Err(BackendError::Unknown(String::from_str("missing X-Itx-User-Email"))),
    }
}

/// What guards the user routes: a request whose context names a user passes
/// (`None`); any other is answered 401, "missing user".
pub fn require_user(context: Option<&ItxContext>) -> (refusal: Option<ErrorReply>)
    ensures
        match context {
            Some(ctx) if ctx.user_id is Some => refusal is None,
            _ => refusal matches Some(reply) && reply.status == STATUS_UNAUTHORIZED
                && reply.message@ == "missing user"@,
        },
{
    let has_user = match context {
        Some(ctx) => ctx.user_id.is_some(),
        None => false,
    };
    if !has_user {
        return Some(ErrorReply { status: STATUS_UNAUTHORIZED, message: String::from_str("missing user") });
    }
    None
}

} // verus!
