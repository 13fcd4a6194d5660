//! Remote task clients: the immutable configuration records for the
//! geoprocessing and geocoding services, and the synchronous decision logic
//! of one request/response exchange. The HTTP transport itself is an external
//! collaborator: a surrounding shell performs the request and hands the
//! status and body back to this module.

use vstd::prelude::*;

use crate::geometry::Point;

verus! {

/// A geoprocessing task: a one-shot remote computation invoked over HTTP
/// with opaque parameters. Holds one endpoint URL and no connection state;
/// each invocation is independent.
pub struct GeoprocessingTask {
    /// URL of the geoprocessing service.
    pub url: String,
}

/// A locator task for geocoding lookups. Holds one endpoint URL and no
/// connection state; each invocation is independent.
pub struct LocatorTask {
    /// URL of the geocoding service.
    pub url: String,
}

/// A failed remote task invocation. Transport failures are kept distinct from
/// failures the endpoint itself reported.
#[derive(Clone, Debug, PartialEq, Eq)]
pub enum TaskError {
    /// The endpoint could not be reached: connection, name resolution, or
    /// timeout trouble, described by the transport's own message.
    Transport(String),
    /// The endpoint was reached and reported failure: a non-success HTTP
    /// status, carried along with the response text.
    Remote(u16, String),
}

/// Whether an HTTP status code counts as success for a remote task.
pub open spec fn is_success_status(status: u16) -> bool {
    200 <= status < 300
}

/// Decides the outcome of one remote exchange from the response the
/// transport handed back: a success status yields the response body
/// verbatim, and any other status is a remote failure carrying the status
/// and the response text.
pub fn classify_response(status: u16, body: String) -> (r: Result<String, TaskError>)
    ensures
        is_success_status(status) ==> r == Ok::<String, TaskError>(body),
        !is_success_status(status) ==> r == Err::<String, TaskError>(
            TaskError::Remote(status, body),
        ),
{
    if 200 <= status && status < 300 {
        Ok(body)
    } else {
        Err(TaskError::Remote(status, body))
    }
}

/// Reads a geocoded location out of the service's response body. The
/// service's response schema is an open question, and no parsing is done
/// until one is specified — a known incomplete contract kept explicit rather
/// than silently completed — so every response yields the origin point.
pub fn parse_location(response_body: &str) -> (p: Point)
    ensures
        p == (Point { x: 0, y: 0 }),
{
    let _ = response_body;
    Point { x: 0, y: 0 }
}

} // verus!
