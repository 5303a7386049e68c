//! Decoding the response header line from the stream.

use vstd::prelude::*;
use vstd::utf8::{decode_utf8, valid_utf8};
use crate::error::GeminiError;
use crate::status::StatusCode;
use crate::stream::ByteStream;

verus! {

/// The cap this reader places on the meta field, in bytes. A header whose
/// meta would exceed it is refused as `HeaderTooLong` rather than read
/// without bound from an untrusted peer.
pub const MAX_META_LEN: usize = 1024;

/// The decoded response header: a status and the meta text whose meaning
/// the status band determines.
#[derive(Clone, Debug, PartialEq, Eq)]
pub struct ResponseHeader {
    pub status: StatusCode,
    pub meta: String,
}

/// An ASCII decimal digit.
pub open spec fn is_digit_byte(b: u8) -> bool {
    48 <= b <= 57
}

/// What decoding a header from the start of `input` gives: on success the
/// status, the meta text, and how many bytes the header occupies; on
/// failure the error the wire data earns. The header is two digit bytes,
/// one space, then a line ended by a line feed, with one trailing carriage
/// return stripped from the meta.
pub open spec fn spec_parse_header(input: Seq<u8>) -> Result<
    (StatusCode, Seq<char>, int),
    GeminiError,
> {
    if input.len() < 2 {
        Err(GeminiError::TruncatedHeader)
    } else if !(is_digit_byte(input[0]) && is_digit_byte(input[1])) {
        Err(GeminiError::MalformedStatus)
    } else {
        match StatusCode::spec_decode((input[0] - 48) * 10 + (input[1] - 48)) {
            None => Err(GeminiError::UnknownStatus),
            Some(status) => {
                if input.len() < 3 {
                    Err(GeminiError::TruncatedHeader)
                } else if input[2] != 32 {
                    Err(GeminiError::MalformedHeader)
                } else {
                    let rest = input.skip(3);
                    match rest.index_of_first(10u8) {
                        None => {
                            if rest.len() > MAX_META_LEN as int + 1 {
                                Err(GeminiError::HeaderTooLong)
                            } else {
                                Err(GeminiError::TruncatedHeader)
                            }
                        },
                        Some(nl) => {
                            let line = rest.subrange(0, nl);
                            let meta = if line.len() > 0 && line[line.len() - 1] == 13 {
                                line.drop_last()
                            } else {
                                line
                            };
                            if meta.len() > MAX_META_LEN as int {
                                Err(GeminiError::HeaderTooLong)
                            } else if !valid_utf8(meta) {
                                Err(GeminiError::InvalidEncoding)
                            } else {
                                Ok((status, decode_utf8(meta), 3 + nl + 1))
                            }
                        },
                    }
                }
            },
        }
    }
}

/// Relies on `String::from_utf8`: it returns the string decoding of the
/// bytes exactly when they are valid UTF-8, and nothing otherwise.
#[verifier::external_body]
pub(crate) fn bytes_to_string(bytes: Vec<u8>) -> (r: Option<String>)
    ensures
        r matches Some(s) ==> valid_utf8(bytes@) && s@ == decode_utf8(bytes@),
        r is None ==> !valid_utf8(bytes@),
{
    String::from_utf8(bytes).ok()
}

/// Finds the first unread occurrence of `needle` at or after offset
/// `from`, without consuming anything.
fn find_byte(stream: &ByteStream, from: usize, needle: u8) -> (r: Option<usize>)
    requires
        stream.wf(),
        from <= stream.remaining().len(),
    ensures
        match r {
            Some(i) => {
                &&& from <= i < stream.remaining().len()
                &&& stream.remaining()[i as int] == needle
                &&& forall|k: int| from <= k < i ==> stream.remaining()[k] != needle
            },
            None => forall|k: int|
                from <= k < stream.remaining().len() ==> stream.remaining()[k] != needle,
        },
{
    let n = stream.remaining_len();
    let mut j: usize = from;
    while j < n
        invariant
            stream.wf(),
            from <= j <= n,
            n == stream.remaining().len(),
            forall|k: int| from <= k < j ==> stream.remaining()[k] != needle,
        decreases n - j,
    {
        if stream.peek(j) == needle {
            return Some(j);
        }
        j = j + 1;
    }
    None
}

/// Consumes exactly the header portion of the stream and decodes it,
/// leaving the cursor at the first byte of the body. On any failure the
/// stream is left exactly as it was, so no partly consumed header and no
/// partly populated result ever escapes.
pub fn read_response_header(stream: &mut ByteStream) -> (r: Result<ResponseHeader, GeminiError>)
    requires
        old(stream).wf(),
    ensures
        final(stream).wf(),
        final(stream).all_bytes() == old(stream).all_bytes(),
        match r {
            Ok(h) => {
                &&& spec_parse_header(old(stream).remaining()) matches Ok(p)
                    && h.status == p.0
                    && h.meta@ == p.1
                    && final(stream).remaining() == old(stream).remaining().skip(p.2)
            },
            Err(e) => {
                &&& spec_parse_header(old(stream).remaining()) == Err::<
                    (StatusCode, Seq<char>, int),
                    GeminiError,
                >(e)
                &&& *final(stream) == *old(stream)
            },
        },
{
    let ghost input = old(stream).remaining();
    let n = stream.remaining_len();
    if n < 2 {
        return Err(GeminiError::TruncatedHeader);
    }
    let b0 = stream.peek(0);
    let b1 = stream.peek(1);
    if !(48 <= b0 && b0 <= 57 && 48 <= b1 && b1 <= 57) {
        return Err(GeminiError::MalformedStatus);
    }
    let raw = (b0 - 48) * 10 + (b1 - 48);
    let status = match StatusCode::decode(raw) {
        Ok(s) => s,
        Err(e) => {
            return Err(e);
        },
    };
    if n < 3 {
        return Err(GeminiError::TruncatedHeader);
    }
    let b2 = stream.peek(2);
    if b2 != 32 {
        return Err(GeminiError::MalformedHeader);
    }
    let ghost rest = input.skip(3);
    let newline = find_byte(stream, 3, 10);
    proof {
        rest.index_of_first_ensures(10u8);
        assert(forall|k: int| 0 <= k < rest.len() ==> rest[k] == input[k + 3]);
    }
    let j = match newline {
        Some(j) => j,
        None => {
            proof {
                if rest.contains(10u8) {
                    let k = choose|k: int| 0 <= k < rest.len() && rest[k] == 10u8;
                    assert(input[k + 3] == 10u8);
                }
            }
            if n - 3 > MAX_META_LEN + 1 {
                return Err(GeminiError::HeaderTooLong);
            } else {
                return Err(GeminiError::TruncatedHeader);
            }
        },
    };
    proof {
        assert(rest[j - 3] == input[j as int]);
        assert(rest[j - 3] == 10u8);
        assert(rest.contains(10u8));
        let nl = rest.index_of_first(10u8)->Some_0;
        assert(rest[nl] == 10u8);
        if nl < j - 3 {
            assert(input[nl + 3] == 10u8);
            assert(false);
        }
        if nl > j - 3 {
            assert(rest[j - 3] != 10u8);
            assert(false);
        }
        assert(nl == j - 3);
    }
    let mut meta_bytes: Vec<u8> = Vec::new();
    let mut k: usize = 3;
    while k < j
        invariant
            stream.wf(),
            *stream == *old(stream),
            3 <= k <= j,
            j < stream.remaining().len(),
            meta_bytes@ == stream.remaining().subrange(3, k as int),
        decreases j - k,
    {
        let b = stream.peek(k);
        meta_bytes.push(b);
        k = k + 1;
        proof {
            assert(meta_bytes@ =~= stream.remaining().subrange(3, k as int));
        }
    }
    proof {
        assert(meta_bytes@ =~= rest.subrange(0, j - 3));
    }
    let ghost line = rest.subrange(0, j - 3);
    if meta_bytes.len() > 0 {
        let last = meta_bytes[meta_bytes.len() - 1];
        if last == 13 {
            meta_bytes.pop();
            proof {
                assert(meta_bytes@ =~= line.drop_last());
            }
        }
    }
    if meta_bytes.len() > MAX_META_LEN {
        return Err(GeminiError::HeaderTooLong);
    }
    let ghost meta_seq = meta_bytes@;
    let meta = match bytes_to_string(meta_bytes) {
        Some(m) => m,
        None => {
            return Err(GeminiError::InvalidEncoding);
        },
    };
    stream.advance(j + 1);
    proof {
        assert(spec_parse_header(input) == Ok::<_, GeminiError>(
            (status, decode_utf8(meta_seq), 3 + (j - 3) + 1),
        ));
    }
    Ok(ResponseHeader { status, meta })
}

} // verus!
