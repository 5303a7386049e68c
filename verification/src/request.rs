//! Formatting a host and resource into the protocol's request line.

use vstd::prelude::*;
use vstd::string::{StrSliceExecFns, StringExecFns};
use crate::error::GeminiError;

verus! {

/// The characters of the URI scheme prefix `gemini://`.
pub open spec fn scheme_chars() -> Seq<char> {
    seq!['g', 'e', 'm', 'i', 'n', 'i', ':', '/', '/']
}

/// The characters of the request line terminator.
pub open spec fn crlf_chars() -> Seq<char> {
    seq!['\r', '\n']
}

/// Whether the string contains a carriage return or a line feed.
pub open spec fn has_line_break(s: Seq<char>) -> bool {
    exists|i: int| 0 <= i < s.len() && (s[i] == '\r' || s[i] == '\n')
}

/// Whether the string begins with the URI scheme prefix.
pub open spec fn starts_with_scheme(s: Seq<char>) -> bool {
    s.len() >= 9 && s.subrange(0, 9) == scheme_chars()
}

/// The wire form of a request for `resource` on `host`: the scheme prefix
/// is added only when the host does not already carry it, and the line
/// ends with the two-byte terminator.
pub open spec fn spec_request_line(host: Seq<char>, resource: Seq<char>) -> Seq<char> {
    if starts_with_scheme(host) {
        host + resource + crlf_chars()
    } else {
        scheme_chars() + host + resource + crlf_chars()
    }
}

proof fn scheme_chars_facts()
    ensures
        scheme_chars().len() == 9,
        scheme_chars()[0] == 'g',
        scheme_chars()[1] == 'e',
        scheme_chars()[2] == 'm',
        scheme_chars()[3] == 'i',
        scheme_chars()[4] == 'n',
        scheme_chars()[5] == 'i',
        scheme_chars()[6] == ':',
        scheme_chars()[7] == '/',
        scheme_chars()[8] == '/',
{
}

proof fn crlf_chars_facts()
    ensures
        crlf_chars().len() == 2,
        crlf_chars()[0] == '\r',
        crlf_chars()[1] == '\n',
{
}

fn contains_line_break(s: &str) -> (r: bool)
    ensures
        r == has_line_break(s@),
{
    let len: usize = s.unicode_len();
    let mut i: usize = 0;
    while i < len
        invariant
            len == s@.len(),
            i <= len,
            forall|j: int| 0 <= j < i ==> s@[j] != '\r' && s@[j] != '\n',
        decreases len - i,
    {
        let c = s.get_char(i);
        if c == '\r' || c == '\n' {
            proof {
                assert(0 <= i < s@.len() && (s@[i as int] == '\r' || s@[i as int] == '\n'));
            }
            return true;
        }
        i = i + 1;
    }
    false
}

fn starts_with_gemini_scheme(s: &str) -> (r: bool)
    ensures
        r == starts_with_scheme(s@),
{
    let len: usize = s.unicode_len();
    if len < 9 {
        return false;
    }
    let ok = s.get_char(0) == 'g' && s.get_char(1) == 'e' && s.get_char(2) == 'm'
        && s.get_char(3) == 'i' && s.get_char(4) == 'n' && s.get_char(5) == 'i'
        && s.get_char(6) == ':' && s.get_char(7) == '/' && s.get_char(8) == '/';
    proof {
        scheme_chars_facts();
        if ok {
            assert(s@.subrange(0, 9) =~= scheme_chars());
        } else {
            if s@.subrange(0, 9) == scheme_chars() {
                assert(forall|k: int| 0 <= k < 9 ==> s@[k] == #[trigger] scheme_chars()[k]) by {
                    assert(forall|k: int|
                        0 <= k < 9 ==> s@[k] == #[trigger] s@.subrange(0, 9)[k]);
                }
                assert(false);
            }
        }
    }
    ok
}

/// Formats the request line for `resource` on `host`.
///
/// Refuses a host or resource carrying a line terminator: emitting them
/// would corrupt the request, so the result is `MalformedRequest` instead.
pub fn build_uri(host: &str, resource: &str) -> (r: Result<String, GeminiError>)
    requires
        host@.len() > 0,
    ensures
        match r {
            Ok(line) => {
                &&& !has_line_break(host@)
                &&& !has_line_break(resource@)
                &&& line@ == spec_request_line(host@, resource@)
            },
            Err(e) => {
                &&& has_line_break(host@) || has_line_break(resource@)
                &&& e == GeminiError::MalformedRequest
            },
        },
{
    if contains_line_break(host) || contains_line_break(resource) {
        return Err(GeminiError::MalformedRequest);
    }
    let mut line = String::new();
    if !starts_with_gemini_scheme(host) {
        line.append("gemini://");
    }
    line.append(host);
    line.append(resource);
    line.append("\r\n");
    proof {
        reveal_strlit("gemini://");
        reveal_strlit("\r\n");
        scheme_chars_facts();
        crlf_chars_facts();
        assert("gemini://"@ =~= scheme_chars());
        assert("\r\n"@ =~= crlf_chars());
        assert(line@ =~= spec_request_line(host@, resource@));
    }
    Ok(line)
}

/// Law: a built request line always ends with the CRLF terminator, and no
/// other carriage return or line feed occurs anywhere before it.
pub proof fn lemma_request_line_terminated(host: Seq<char>, resource: Seq<char>)
    requires
        !has_line_break(host),
        !has_line_break(resource),
    ensures
        spec_request_line(host, resource).len() >= 2,
        spec_request_line(host, resource).subrange(
            spec_request_line(host, resource).len() - 2,
            spec_request_line(host, resource).len() as int,
        ) == crlf_chars(),
        forall|i: int|
            0 <= i < spec_request_line(host, resource).len() - 2
                ==> #[trigger] spec_request_line(host, resource)[i] != '\r'
                && spec_request_line(host, resource)[i] != '\n',
{
    scheme_chars_facts();
    crlf_chars_facts();
    let line = spec_request_line(host, resource);
    assert(line.subrange(line.len() - 2, line.len() as int) =~= crlf_chars());
    if starts_with_scheme(host) {
        assert forall|i: int| 0 <= i < line.len() - 2 implies #[trigger] line[i] != '\r'
            && line[i] != '\n' by {
            if i < host.len() {
                assert(line[i] == host[i]);
            } else {
                assert(line[i] == resource[i - host.len()]);
            }
        }
    } else {
        assert forall|i: int| 0 <= i < line.len() - 2 implies #[trigger] line[i] != '\r'
            && line[i] != '\n' by {
            if i < 9 {
                assert(line[i] == scheme_chars()[i]);
            } else if i < 9 + host.len() {
                assert(line[i] == host[i - 9]);
            } else {
                assert(line[i] == resource[i - 9 - host.len()]);
            }
        }
    }
}

/// The host and resource that a well-formed request line carries: the
/// terminator and the scheme prefix are stripped, the host runs up to the
/// first `/` of what remains, and the resource is the rest of the line.
pub open spec fn spec_split_request_line(line: Seq<char>) -> Option<(Seq<char>, Seq<char>)> {
    if line.len() < 2 {
        None
    } else if line.subrange(line.len() - 2, line.len() as int) != crlf_chars() {
        None
    } else {
        let body = line.subrange(0, line.len() - 2);
        if !starts_with_scheme(body) {
            None
        } else {
            let rest = body.subrange(9, body.len() as int);
            match rest.index_of_first('/') {
                Some(i) => Some((rest.subrange(0, i), rest.subrange(i, rest.len() as int))),
                None => Some((rest, Seq::<char>::empty())),
            }
        }
    }
}

/// Splits a request line back into host and resource, the decoding
/// direction of `build_uri`.
#[verifier::loop_isolation(false)]
pub fn split_request_line(line: &str) -> (r: Option<(String, String)>)
    ensures
        match r {
            Some(p) => spec_split_request_line(line@) == Some((p.0@, p.1@)),
            None => spec_split_request_line(line@) is None,
        },
{
    let len: usize = line.unicode_len();
    if len < 2 {
        return None;
    }
    if !(line.get_char(len - 2) == '\r' && line.get_char(len - 1) == '\n') {
        proof {
            crlf_chars_facts();
            assert(line@.subrange(len - 2, len as int)[0] == line@[len - 2]);
            assert(line@.subrange(len - 2, len as int)[1] == line@[len - 1]);
        }
        return None;
    }
    proof {
        crlf_chars_facts();
        assert(line@.subrange(len - 2, len as int) =~= crlf_chars());
    }
    let body = line.substring_char(0, len - 2);
    if !starts_with_gemini_scheme(body) {
        return None;
    }
    let blen = len - 2;
    let rest = body.substring_char(9, blen);
    let rlen = blen - 9;
    let ghost spec_rest = line@.subrange(0, len - 2).subrange(9, len - 2);
    proof {
        assert(rest@ == spec_rest);
    }
    let mut i: usize = 0;
    while i < rlen
        invariant
            rlen == rest@.len(),
            i <= rlen,
            rest@ == spec_rest,
            forall|j: int| 0 <= j < i ==> rest@[j] != '/',
        decreases rlen - i,
    {
        if rest.get_char(i) == '/' {
            let host = rest.substring_char(0, i);
            let resource = rest.substring_char(i, rlen);
            proof {
                rest@.index_of_first_ensures('/');
                assert(rest@.contains('/')) by {
                    assert(0 <= i < rest@.len() && rest@[i as int] == '/');
                }
                let idx = rest@.index_of_first('/')->Some_0;
                assert(idx == i as int);
            }
            return Some((String::from_str(host), String::from_str(resource)));
        }
        i = i + 1;
    }
    proof {
        rest@.index_of_first_ensures('/');
        if rest@.contains('/') {
            let k = choose|k: int| 0 <= k < rest@.len() && rest@[k] == '/';
            assert(rest@[k] != '/');
        }
    }
    Some((String::from_str(rest), String::new()))
}

/// Law: a request line built for a host and resource splits back into
/// exactly that host and resource, provided neither contains a line
/// break, the host is non-empty and free of `/`, and the resource is
/// empty or begins with `/`. (A host containing `/` cannot be recovered:
/// the splitter would cut at its first slash.)
pub proof fn lemma_request_round_trip(host: Seq<char>, resource: Seq<char>)
    requires
        host.len() > 0,
        !has_line_break(host),
        !has_line_break(resource),
        !host.contains('/'),
        resource.len() > 0 ==> resource[0] == '/',
    ensures
        spec_split_request_line(spec_request_line(host, resource)) == Some((host, resource)),
{
    scheme_chars_facts();
    crlf_chars_facts();
    if starts_with_scheme(host) {
        assert(host.subrange(0, 9)[7] == host[7]);
        assert(host.contains('/')) by {
            assert(0 <= 7 < host.len() && host[7] == '/');
        }
    }
    let line = spec_request_line(host, resource);
    assert(line =~= scheme_chars() + host + resource + crlf_chars());
    assert(line.len() == 9 + host.len() + resource.len() + 2);
    assert(line.subrange(line.len() - 2, line.len() as int) =~= crlf_chars());
    let body = line.subrange(0, line.len() - 2);
    assert(body =~= scheme_chars() + host + resource);
    assert(body.subrange(0, 9) =~= scheme_chars());
    let rest = body.subrange(9, body.len() as int);
    assert(rest =~= host + resource);
    rest.index_of_first_ensures('/');
    assert forall|j: int| 0 <= j < host.len() implies #[trigger] rest[j] != '/' by {
        assert(rest[j] == host[j]);
    }
    if resource.len() == 0 {
        if rest.contains('/') {
            let k = choose|k: int| 0 <= k < rest.len() && rest[k] == '/';
            assert(rest[k] != '/');
        }
        assert(rest.index_of_first('/') is None);
        assert(rest =~= host);
        assert(resource =~= Seq::<char>::empty());
    } else {
        assert(rest[host.len() as int] == resource[0]);
        assert(rest.contains('/')) by {
            assert(0 <= host.len() < rest.len() && rest[host.len() as int] == '/');
        }
        let idx = rest.index_of_first('/')->Some_0;
        assert(rest[idx] == '/');
        assert(idx >= host.len());
        assert(idx == host.len() as int);
        assert(rest.subrange(0, idx) =~= host);
        assert(rest.subrange(idx, rest.len() as int) =~= resource);
    }
}

} // verus!
