//! The closed set of response status codes and their bands.

use vstd::prelude::*;
use crate::error::GeminiError;

verus! {

/// One of the protocol's defined response statuses.
///
/// The set is closed: a two-digit integer outside it never decodes, so a
/// value of this type always names a status the protocol defines.
#[derive(Clone, Copy, Debug, PartialEq, Eq, Structural)]
pub enum StatusCode {
    Input,
    SensitiveInput,
    Success,
    RedirectTemporary,
    RedirectPermanent,
    TemporaryFailure,
    ServerUnavailable,
    CgiError,
    ProxyError,
    SlowDown,
    PermanentFailure,
    NotFound,
    Gone,
    ProxyRequestRefused,
    BadRequest,
    ClientCertificateRequired,
    CertificateNotAuthorised,
    CertificateNotValid,
}

impl StatusCode {
    /// The numeric value this status carries on the wire.
    pub open spec fn spec_code(self) -> int {
        match self {
            StatusCode::Input => 10,
            StatusCode::SensitiveInput => 11,
            StatusCode::Success => 20,
            StatusCode::RedirectTemporary => 30,
            StatusCode::RedirectPermanent => 31,
            StatusCode::TemporaryFailure => 40,
            StatusCode::ServerUnavailable => 41,
            StatusCode::CgiError => 42,
            StatusCode::ProxyError => 43,
            StatusCode::SlowDown => 44,
            StatusCode::PermanentFailure => 50,
            StatusCode::NotFound => 51,
            StatusCode::Gone => 52,
            StatusCode::ProxyRequestRefused => 53,
            StatusCode::BadRequest => 59,
            StatusCode::ClientCertificateRequired => 60,
            StatusCode::CertificateNotAuthorised => 61,
            StatusCode::CertificateNotValid => 62,
        }
    }

    /// The status, if any, that a raw integer decodes to.
    pub open spec fn spec_decode(raw: int) -> Option<StatusCode> {
        if raw == 10 {
            Some(StatusCode::Input)
        } else if raw == 11 {
            Some(StatusCode::SensitiveInput)
        } else if raw == 20 {
            Some(StatusCode::Success)
        } else if raw == 30 {
            Some(StatusCode::RedirectTemporary)
        } else if raw == 31 {
            Some(StatusCode::RedirectPermanent)
        } else if raw == 40 {
            Some(StatusCode::TemporaryFailure)
        } else if raw == 41 {
            Some(StatusCode::ServerUnavailable)
        } else if raw == 42 {
            Some(StatusCode::CgiError)
        } else if raw == 43 {
            Some(StatusCode::ProxyError)
        } else if raw == 44 {
            Some(StatusCode::SlowDown)
        } else if raw == 50 {
            Some(StatusCode::PermanentFailure)
        } else if raw == 51 {
            Some(StatusCode::NotFound)
        } else if raw == 52 {
            Some(StatusCode::Gone)
        } else if raw == 53 {
            Some(StatusCode::ProxyRequestRefused)
        } else if raw == 59 {
            Some(StatusCode::BadRequest)
        } else if raw == 60 {
            Some(StatusCode::ClientCertificateRequired)
        } else if raw == 61 {
            Some(StatusCode::CertificateNotAuthorised)
        } else if raw == 62 {
            Some(StatusCode::CertificateNotValid)
        } else {
            None
        }
    }

    /// Maps a raw integer to its status; the single fallible boundary
    /// between wire integers and the closed set.
    pub fn decode(raw: u8) -> (r: Result<StatusCode, GeminiError>)
        ensures
            match r {
                Ok(s) => Self::spec_decode(raw as int) == Some(s),
                Err(e) => {
                    &&& Self::spec_decode(raw as int) is None
                    &&& e == GeminiError::UnknownStatus
                },
            },
    {
        match raw {
            10 => Ok(StatusCode::Input),
            11 => Ok(StatusCode::SensitiveInput),
            20 => Ok(StatusCode::Success),
            30 => Ok(StatusCode::RedirectTemporary),
            31 => Ok(StatusCode::RedirectPermanent),
            40 => Ok(StatusCode::TemporaryFailure),
            41 => Ok(StatusCode::ServerUnavailable),
            42 => Ok(StatusCode::CgiError),
            43 => Ok(StatusCode::ProxyError),
            44 => Ok(StatusCode::SlowDown),
            50 => Ok(StatusCode::PermanentFailure),
            51 => Ok(StatusCode::NotFound),
            52 => Ok(StatusCode::Gone),
            53 => Ok(StatusCode::ProxyRequestRefused),
            59 => Ok(StatusCode::BadRequest),
            60 => Ok(StatusCode::ClientCertificateRequired),
            61 => Ok(StatusCode::CertificateNotAuthorised),
            62 => Ok(StatusCode::CertificateNotValid),
            _ => Err(GeminiError::UnknownStatus),
        }
    }

    /// The numeric value of this status.
    pub fn code(&self) -> (r: u8)
        ensures
            r as int == self.spec_code(),
    {
        match *self {
            StatusCode::Input => 10,
            StatusCode::SensitiveInput => 11,
            StatusCode::Success => 20,
            StatusCode::RedirectTemporary => 30,
            StatusCode::RedirectPermanent => 31,
            StatusCode::TemporaryFailure => 40,
            StatusCode::ServerUnavailable => 41,
            StatusCode::CgiError => 42,
            StatusCode::ProxyError => 43,
            StatusCode::SlowDown => 44,
            StatusCode::PermanentFailure => 50,
            StatusCode::NotFound => 51,
            StatusCode::Gone => 52,
            StatusCode::ProxyRequestRefused => 53,
            StatusCode::BadRequest => 59,
            StatusCode::ClientCertificateRequired => 60,
            StatusCode::CertificateNotAuthorised => 61,
            StatusCode::CertificateNotValid => 62,
        }
    }

    /// Band 1x: the server wants user-supplied input before a retry.
    pub open spec fn spec_is_input_required(self) -> bool {
        10 <= self.spec_code() < 20
    }

    /// Band 2x: a body follows the header.
    pub open spec fn spec_is_success(self) -> bool {
        20 <= self.spec_code() < 30
    }

    /// Band 3x: the client should re-request at the URI in the meta field.
    pub open spec fn spec_is_redirect(self) -> bool {
        30 <= self.spec_code() < 40
    }

    /// Band 4x: a transient server-side failure.
    pub open spec fn spec_is_temporary_failure(self) -> bool {
        40 <= self.spec_code() < 50
    }

    /// Band 5x: a permanent failure, including malformed-request signaling.
    pub open spec fn spec_is_permanent_failure(self) -> bool {
        50 <= self.spec_code() < 60
    }

    /// Band 6x: a client-certificate problem.
    pub open spec fn spec_is_cert_error(self) -> bool {
        60 <= self.spec_code() < 70
    }

    pub fn is_input_required(&self) -> (r: bool)
        ensures
            r == self.spec_is_input_required(),
    {
        matches!(*self, StatusCode::Input | StatusCode::SensitiveInput)
    }

    pub fn is_success(&self) -> (r: bool)
        ensures
            r == self.spec_is_success(),
    {
        matches!(*self, StatusCode::Success)
    }

    pub fn is_redirect(&self) -> (r: bool)
        ensures
            r == self.spec_is_redirect(),
    {
        matches!(*self, StatusCode::RedirectTemporary | StatusCode::RedirectPermanent)
    }

    pub fn is_temporary_failure(&self) -> (r: bool)
        ensures
            r == self.spec_is_temporary_failure(),
    {
        matches!(
            *self,
            StatusCode::TemporaryFailure
                | StatusCode::ServerUnavailable
                | StatusCode::CgiError
                | StatusCode::ProxyError
                | StatusCode::SlowDown
        )
    }

    pub fn is_permanent_failure(&self) -> (r: bool)
        ensures
            r == self.spec_is_permanent_failure(),
    {
        matches!(
            *self,
            StatusCode::PermanentFailure
                | StatusCode::NotFound
                | StatusCode::Gone
                | StatusCode::ProxyRequestRefused
                | StatusCode::BadRequest
        )
    }

    pub fn is_cert_error(&self) -> (r: bool)
        ensures
            r == self.spec_is_cert_error(),
    {
        matches!(
            *self,
            StatusCode::ClientCertificateRequired
                | StatusCode::CertificateNotAuthorised
                | StatusCode::CertificateNotValid
        )
    }
}

/// Law: decoding is a bijection between the defined raw codes and the
/// status variants. Every variant is reached from its own code, a raw
/// integer decodes only to the variant carrying that code, and distinct
/// variants carry distinct codes; every other integer decodes to nothing,
/// which `StatusCode::decode` surfaces as `UnknownStatus`.
pub proof fn lemma_decode_bijection()
    ensures
        forall|s: StatusCode| #[trigger] StatusCode::spec_decode(s.spec_code()) == Some(s),
        forall|raw: int|
            (#[trigger] StatusCode::spec_decode(raw)) matches Some(s) ==> s.spec_code() == raw,
        forall|a: StatusCode, b: StatusCode|
            #[trigger] a.spec_code() == #[trigger] b.spec_code() ==> a == b,
{
}

/// Law: every status falls in one of the six bands (the bands are
/// disjoint numeric ranges), so dispatching by band covers the whole
/// closed set.
pub proof fn lemma_bands_cover(s: StatusCode)
    ensures
        s.spec_is_input_required() || s.spec_is_success() || s.spec_is_redirect()
            || s.spec_is_temporary_failure() || s.spec_is_permanent_failure()
            || s.spec_is_cert_error(),
        10 <= s.spec_code() < 70,
{
}

} // verus!

