//! The request handler: from a query string to a reply.

use crate::entropy::{next_draw, thread_generator};
use crate::point::Point;
use crate::query::{decoded_pairs, requested_count, PointsRequest, QueryError};
use vstd::prelude::*;

verus! {

/// Status of a reply that carries points.
pub const STATUS_OK: u16 = 200;

/// Status of a reply to a rejected query.
pub const STATUS_BAD_REQUEST: u16 = 400;

/// What the service answers to one request.
#[derive(Debug)]
pub enum Reply {
    /// The generated points, in the order drawn.
    Points(Vec<Point>),
    /// The query was rejected before anything was drawn.
    Rejected(QueryError),
}

impl Reply {
    /// The HTTP status that goes with the reply.
    pub open spec fn status_spec(&self) -> u16 {
        match self {
            Reply::Points(_) => STATUS_OK,
            Reply::Rejected(_) => STATUS_BAD_REQUEST,
        }
    }

    /// The HTTP status that goes with the reply: 200 with points, 400 for a
    /// rejected query.
    pub fn status(&self) -> (s: u16)
        ensures
            s == self.status_spec(),
    {
        match self {
            Reply::Points(_) => STATUS_OK,
            Reply::Rejected(_) => STATUS_BAD_REQUEST,
        }
    }

    /// Whether the reply carries exactly `n` points, each in the unit square.
    pub open spec fn holds_points(&self, n: usize) -> bool {
        match self {
            Reply::Points(points) => points@.len() == n && all_in_unit_square(points@),
            Reply::Rejected(_) => false,
        }
    }

    /// A rejected query is answered with a client error status.
    pub proof fn lemma_rejection_is_client_error(&self)
        requires
            self is Rejected,
        ensures
            400 <= self.status_spec() < 500,
    {
    }
}

/// Whether every point of `points` lies in the unit square.
pub open spec fn all_in_unit_square(points: Seq<Point>) -> bool {
    forall|i: int| 0 <= i < points.len() ==> (#[trigger] points[i]).in_unit_square()
}

/// Draws `n` points from the generator of the current thread, two draws for
/// each point: first `x`, then `y`. No upper limit is put on `n`.
pub fn sample_points(n: usize) -> (points: Vec<Point>)
    ensures
        points@.len() == n,
        all_in_unit_square(points@),
{
    let mut rng = thread_generator();
    let mut points: Vec<Point> = Vec::new();
    let mut i: usize = 0;
    while i < n
        invariant
            i <= n,
            points@.len() == i,
            all_in_unit_square(points@),
        decreases n - i,
    {
        let a: u64 = next_draw(&mut rng);
        let b: u64 = next_draw(&mut rng);
        points.push(Point::from_draws(a, b));
        i += 1;
    }
    points
}

/// Answers a request that has been read: the points asked for, or the
/// rejection, with nothing drawn.
pub fn reply_to(parsed: Result<PointsRequest, QueryError>) -> (reply: Reply)
    ensures
        match parsed {
            Ok(request) => reply.holds_points(request.n),
            Err(e) => reply == Reply::Rejected(e),
        },
{
    match parsed {
        Ok(request) => Reply::Points(sample_points(request.n)),
        Err(e) => Reply::Rejected(e),
    }
}

/// Handles one request from its raw query string: exactly as many fresh
/// points as the query asks for, each in the unit square, or the reason why
/// the query was rejected. A request without a query string is rejected.
pub fn generate_points(query: &str) -> (reply: Reply)
    ensures
        match requested_count(decoded_pairs(query@)) {
            Ok(n) => reply.holds_points(n) && reply.status_spec() == STATUS_OK,
            Err(e) => reply == Reply::Rejected(e) && reply.status_spec() == STATUS_BAD_REQUEST,
        },
        query@.len() == 0 ==> reply == Reply::Rejected(QueryError::MissingCount),
{
    reply_to(PointsRequest::parse(query))
}

} // verus!
