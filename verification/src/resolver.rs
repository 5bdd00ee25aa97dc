//! Classifying the update service's answer into a firmware descriptor or a
//! resolve error.

use vstd::prelude::*;
use crate::descriptor::FirmwareDescriptor;

verus! {

/// Why no descriptor could be obtained from the update service.
#[derive(Debug, PartialEq, Eq)]
pub enum ResolveError {
    /// The service answered with a status outside the success class.
    ServiceError(u16),
    /// The service answered successfully but the body did not decode into
    /// the three descriptor fields, or a field was empty.
    MalformedResponse,
    /// The request never produced a response.
    NetworkFailure,
}

/// The three fields of a decoded service response body, before they are
/// checked and turned into a descriptor.
#[derive(Debug)]
pub struct ServiceResponse {
    pub version: String,
    pub sha256: String,
    pub url: String,
}

/// What one query to the update service came back with: either the transport
/// failed outright, or a response arrived with a status code and, when the
/// body decoded, its three fields.
#[derive(Debug)]
pub enum ResolveEvent {
    TransportFailure,
    Response(u16, Option<ServiceResponse>),
}

/// Success-class response statuses.
pub open spec fn is_success_status(status: u16) -> bool {
    200 <= status < 300
}

/// The decoded body carries values for all three descriptor fields.
pub open spec fn body_forms_descriptor(f: ServiceResponse) -> bool {
    &&& f.version@.len() > 0
    &&& f.sha256@.len() > 0
    &&& f.url@.len() > 0
}

/// What `resolve` returns for each possible outcome of the query.
pub open spec fn resolve_spec(event: ResolveEvent) -> Result<FirmwareDescriptor, ResolveError> {
    match event {
        ResolveEvent::TransportFailure => Err(ResolveError::NetworkFailure),
        ResolveEvent::Response(status, body) => if !is_success_status(status) {
            Err(ResolveError::ServiceError(status))
        } else {
            match body {
                None => Err(ResolveError::MalformedResponse),
                Some(f) => if body_forms_descriptor(f) {
                    Ok(FirmwareDescriptor {
                        version: f.version,
                        content_hash: f.sha256,
                        artifact_url: f.url,
                    })
                } else {
                    Err(ResolveError::MalformedResponse)
                },
            }
        },
    }
}

/// Turns the outcome of one query to the update service into a firmware
/// descriptor or the exact resolve error owed for it: `NetworkFailure` iff
/// the transport failed, `ServiceError(status)` iff a response arrived with a
/// status outside the success class, `MalformedResponse` iff a success-class
/// response had no decodable body or an empty field, and otherwise the
/// descriptor built from the body, which is then well formed.
pub fn resolve(event: ResolveEvent) -> (r: Result<FirmwareDescriptor, ResolveError>)
    ensures
        r == resolve_spec(event),
        r matches Ok(d) ==> d.wf(),
{
    match event {
        ResolveEvent::TransportFailure => Err(ResolveError::NetworkFailure),
        ResolveEvent::Response(status, body) => {
            if !(200 <= status && status < 300) {
                return Err(ResolveError::ServiceError(status));
            }
            match body {
                None => Err(ResolveError::MalformedResponse),
                Some(f) => {
                    if f.version.as_str().is_empty() || f.sha256.as_str().is_empty()
                        || f.url.as_str().is_empty() {
                        Err(ResolveError::MalformedResponse)
                    } else {
                        Ok(FirmwareDescriptor {
                            version: f.version,
                            content_hash: f.sha256,
                            artifact_url: f.url,
                        })
                    }
                },
            }
        },
    }
}

} // verus!
