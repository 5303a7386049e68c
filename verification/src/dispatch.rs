//! Selecting the handling strategy for a decoded response header.

use vstd::prelude::*;
use vstd::string::StrSliceExecFns;
use vstd::utf8::{decode_utf8, valid_utf8};
use crate::error::GeminiError;
use crate::header::{bytes_to_string, ResponseHeader};
use crate::status::lemma_bands_cover;
use crate::status::StatusCode;
use crate::stream::ByteStream;

verus! {

/// The protocol-level result of one exchange.
///
/// Redirects, input prompts and failure statuses are well-defined protocol
/// results, so they are outcomes here rather than errors.
#[derive(Clone, Debug, PartialEq, Eq)]
pub enum DispatchOutcome {
    /// A success status with a text media type: the whole body, decoded.
    Body(String),
    /// A success status whose media type is not text: carries the meta
    /// field; the body is never consumed.
    UnsupportedMediaType(String),
    /// A redirect status: the target URI from the meta field. Following
    /// it is the caller's policy, not this library's.
    Redirect(String),
    /// An input status: the prompt from the meta field.
    InputRequested(String),
    /// A temporary-failure, permanent-failure or certificate status,
    /// with its free-text explanation.
    Failure(StatusCode, String),
    /// Defensive only: a status outside every band, unreachable for the
    /// closed status set.
    UnhandledStatus(StatusCode),
}

/// The characters of the media-type prefix that marks a text body.
pub open spec fn text_prefix_chars() -> Seq<char> {
    seq!['t', 'e', 'x', 't', '/']
}

/// Whether a meta field names a text media type.
pub open spec fn spec_is_text_media(meta: Seq<char>) -> bool {
    meta.len() >= 5 && meta.subrange(0, 5) == text_prefix_chars()
}

proof fn text_prefix_chars_facts()
    ensures
        text_prefix_chars().len() == 5,
        text_prefix_chars()[0] == 't',
        text_prefix_chars()[1] == 'e',
        text_prefix_chars()[2] == 'x',
        text_prefix_chars()[3] == 't',
        text_prefix_chars()[4] == '/',
{
}

/// Whether the meta field names a text media type, the one kind of body
/// this client renders.
pub fn is_text_media(meta: &str) -> (r: bool)
    ensures
        r == spec_is_text_media(meta@),
{
    let len: usize = meta.unicode_len();
    if len < 5 {
        return false;
    }
    let ok = meta.get_char(0) == 't' && meta.get_char(1) == 'e' && meta.get_char(2) == 'x'
        && meta.get_char(3) == 't' && meta.get_char(4) == '/';
    proof {
        text_prefix_chars_facts();
        if ok {
            assert(meta@.subrange(0, 5) =~= text_prefix_chars());
        } else {
            if meta@.subrange(0, 5) == text_prefix_chars() {
                assert(forall|k: int| 0 <= k < 5 ==> meta@[k] == #[trigger] text_prefix_chars()[k])
                    by {
                    assert(forall|k: int|
                        0 <= k < 5 ==> meta@[k] == #[trigger] meta@.subrange(0, 5)[k]);
                }
                assert(false);
            }
        }
    }
    ok
}

/// Branches on the status band of a decoded header, reading the body only
/// for a success status with a text media type. A single-pass, terminal
/// operation: in every branch where the body is not consumed the stream is
/// left exactly as it was, and closing it is the caller's responsibility.
pub fn dispatch(header: ResponseHeader, stream: &mut ByteStream) -> (r: Result<
    DispatchOutcome,
    GeminiError,
>)
    requires
        old(stream).wf(),
    ensures
        final(stream).wf(),
        final(stream).all_bytes() == old(stream).all_bytes(),
        ({
            let body = old(stream).remaining();
            if header.status.spec_is_success() {
                if !spec_is_text_media(header.meta@) {
                    &&& r == Ok::<DispatchOutcome, GeminiError>(
                        DispatchOutcome::UnsupportedMediaType(header.meta),
                    )
                    &&& *final(stream) == *old(stream)
                } else if valid_utf8(body) {
                    &&& r matches Ok(o) && o matches DispatchOutcome::Body(text) && text@
                        == decode_utf8(body)
                    &&& final(stream).remaining() == Seq::<u8>::empty()
                } else {
                    &&& r == Err::<DispatchOutcome, GeminiError>(GeminiError::InvalidEncoding)
                    &&& final(stream).remaining() == Seq::<u8>::empty()
                }
            } else if header.status.spec_is_redirect() {
                &&& r == Ok::<DispatchOutcome, GeminiError>(
                    DispatchOutcome::Redirect(header.meta),
                )
                &&& *final(stream) == *old(stream)
            } else if header.status.spec_is_input_required() {
                &&& r == Ok::<DispatchOutcome, GeminiError>(
                    DispatchOutcome::InputRequested(header.meta),
                )
                &&& *final(stream) == *old(stream)
            } else if header.status.spec_is_temporary_failure()
                || header.status.spec_is_permanent_failure()
                || header.status.spec_is_cert_error() {
                &&& r == Ok::<DispatchOutcome, GeminiError>(
                    DispatchOutcome::Failure(header.status, header.meta),
                )
                &&& *final(stream) == *old(stream)
            } else {
                &&& r == Ok::<DispatchOutcome, GeminiError>(
                    DispatchOutcome::UnhandledStatus(header.status),
                )
                &&& *final(stream) == *old(stream)
            }
        }),
{
    if header.status.is_success() {
        if !is_text_media(header.meta.as_str()) {
            return Ok(DispatchOutcome::UnsupportedMediaType(header.meta));
        }
        let body_bytes = stream.read_to_end();
        match bytes_to_string(body_bytes) {
            Some(text) => Ok(DispatchOutcome::Body(text)),
            None => Err(GeminiError::InvalidEncoding),
        }
    } else if header.status.is_redirect() {
        Ok(DispatchOutcome::Redirect(header.meta))
    } else if header.status.is_input_required() {
        Ok(DispatchOutcome::InputRequested(header.meta))
    } else if header.status.is_temporary_failure() || header.status.is_permanent_failure()
        || header.status.is_cert_error() {
        Ok(DispatchOutcome::Failure(header.status, header.meta))
    } else {
        proof {
            lemma_bands_cover(header.status);
        }
        Ok(DispatchOutcome::UnhandledStatus(header.status))
    }
}

} // verus!
