//! The query string of a request and the count it asks for.

use crate::decimal::{parse_usize, usize_value};
use vstd::prelude::*;

verus! {

/// One `name=value` pair of a query string after decoding, each side as the
/// bytes of its UTF-8 text.
#[derive(Debug)]
pub struct QueryPair {
    pub name: Vec<u8>,
    pub value: Vec<u8>,
}

impl View for QueryPair {
    type V = (Seq<u8>, Seq<u8>);

    open spec fn view(&self) -> (Seq<u8>, Seq<u8>) {
        (self.name@, self.value@)
    }
}

/// The pairs of a list, each by its view.
pub open spec fn pairs_view(pairs: Seq<QueryPair>) -> Seq<(Seq<u8>, Seq<u8>)> {
    pairs.map_values(|p: QueryPair| p@)
}

/// The decoded pairs that `form_urlencoded::parse` yields for the bytes of
/// `query`, in order.
pub uninterp spec fn decoded_pairs(query: Seq<char>) -> Seq<(Seq<u8>, Seq<u8>)>;

/// Calls `form_urlencoded::parse` on the bytes of `query` and collects what
/// it yields. The parser splits at `&` and at the first `=`, turns `+` into
/// a space, undoes percent-encoding and replaces invalid UTF-8; the contract
/// names that result, and adds that the parser yields nothing for empty
/// input.
#[verifier::external_body]
pub(crate) fn decode_pairs(query: &str) -> (pairs: Vec<QueryPair>)
    ensures
        pairs_view(pairs@) == decoded_pairs(query@),
        query@.len() == 0 ==> pairs@.len() == 0,
{
    form_urlencoded::parse(query.as_bytes())
        .map(|(name, value)| QueryPair {
            name: name.into_owned().into_bytes(),
            value: value.into_owned().into_bytes(),
        })
        .collect()
}

/// Why a query was rejected.
#[derive(Clone, Copy, Debug, PartialEq, Eq)]
pub enum QueryError {
    /// No pair is named `n`.
    MissingCount,
    /// The first pair named `n` does not hold an unsigned number that fits.
    InvalidCount,
    /// A second pair is named `n`.
    DuplicateCount,
}

/// What a request asks for.
#[derive(Clone, Copy, Debug, PartialEq, Eq)]
pub struct PointsRequest {
    /// How many points to generate.
    pub n: usize,
}

/// Whether `name` is the one-letter name `n`.
pub open spec fn is_count_name(name: Seq<u8>) -> bool {
    name =~= seq![110u8]
}

/// Whether the pair at index `i` exists and is named `n`.
pub open spec fn names_count(pairs: Seq<(Seq<u8>, Seq<u8>)>, i: int) -> bool {
    0 <= i < pairs.len() && is_count_name(pairs[i].0)
}

/// Whether the pair at index `i` is the first one named `n`.
pub open spec fn is_first_count(pairs: Seq<(Seq<u8>, Seq<u8>)>, i: int) -> bool {
    names_count(pairs, i) && forall|j: int| 0 <= j < i ==> !names_count(pairs, j)
}

/// The count that a list of decoded pairs asks for. The first pair named `n`
/// must hold an unsigned decimal number that fits a `usize`, and no other
/// pair may be named `n`; pairs under other names are ignored.
pub open spec fn requested_count(pairs: Seq<(Seq<u8>, Seq<u8>)>) -> Result<usize, QueryError> {
    if !exists|i: int| names_count(pairs, i) {
        Err(QueryError::MissingCount)
    } else {
        let first = choose|i: int| is_first_count(pairs, i);
        match usize_value(pairs[first].1) {
            None => Err(QueryError::InvalidCount),
            Some(n) => if exists|j: int| first < j && names_count(pairs, j) {
                Err(QueryError::DuplicateCount)
            } else {
                Ok(n)
            },
        }
    }
}

/// The first pair named `n` is the one that `requested_count` reads.
pub proof fn lemma_first_count_unique(pairs: Seq<(Seq<u8>, Seq<u8>)>, first: int)
    requires
        is_first_count(pairs, first),
    ensures
        exists|i: int| names_count(pairs, i),
        (choose|i: int| is_first_count(pairs, i)) == first,
{
    assert(names_count(pairs, first));
    let chosen = choose|i: int| is_first_count(pairs, i);
    assert(is_first_count(pairs, chosen));
    if chosen < first {
        assert(names_count(pairs, chosen));
    } else if first < chosen {
        assert(names_count(pairs, first));
    }
}

/// A query without any pair named `n` is rejected as missing its count.
pub proof fn lemma_missing_count_rejected(pairs: Seq<(Seq<u8>, Seq<u8>)>)
    requires
        forall|i: int| !names_count(pairs, i),
    ensures
        requested_count(pairs) == Err::<usize, QueryError>(QueryError::MissingCount),
{
}

/// A query whose first pair named `n` holds no unsigned number that fits is
/// rejected as invalid, whatever else it holds.
pub proof fn lemma_invalid_count_rejected(pairs: Seq<(Seq<u8>, Seq<u8>)>, first: int)
    requires
        is_first_count(pairs, first),
        usize_value(pairs[first].1) is None,
    ensures
        requested_count(pairs) == Err::<usize, QueryError>(QueryError::InvalidCount),
{
    lemma_first_count_unique(pairs, first);
}

/// Whether `name` is the one-letter name `n`.
pub fn is_count(name: &[u8]) -> (r: bool)
    ensures
        r == is_count_name(name@),
{
    name.len() == 1 && name[0] == 110
}

impl PointsRequest {
    /// Reads the request out of decoded pairs, or says why it cannot.
    pub fn from_pairs(pairs: &Vec<QueryPair>) -> (r: Result<PointsRequest, QueryError>)
        ensures
            match r {
                Ok(request) => requested_count(pairs_view(pairs@)) == Ok::<usize, QueryError>(
                    request.n,
                ),
                Err(e) => requested_count(pairs_view(pairs@)) == Err::<usize, QueryError>(e),
            },
    {
        let ghost model = pairs_view(pairs@);
        let ghost mut first: int = 0;
        let mut found: Option<usize> = None;
        let mut i: usize = 0;
        while i < pairs.len()
            invariant
                0 <= i <= pairs@.len(),
                model == pairs_view(pairs@),
                match found {
                    None => forall|j: int| 0 <= j < i ==> !names_count(model, j),
                    Some(n) => {
                        &&& first < i
                        &&& is_first_count(model, first)
                        &&& usize_value(model[first].1) == Some(n)
                        &&& forall|j: int| first < j < i ==> !names_count(model, j)
                    },
                },
            decreases pairs@.len() - i,
        {
            let pair = &pairs[i];
            assert(model[i as int] == pair@);
            if is_count(pair.name.as_slice()) {
                assert(names_count(model, i as int));
                if found.is_some() {
                    proof {
                        lemma_first_count_unique(model, first);
                    }
                    return Err(QueryError::DuplicateCount);
                }
                assert(is_first_count(model, i as int));
                proof {
                    first = i as int;
                    lemma_first_count_unique(model, first);
                }
                match parse_usize(pair.value.as_slice()) {
                    None => {
                        return Err(QueryError::InvalidCount);
                    },
                    Some(n) => {
                        found = Some(n);
                    },
                }
            }
            i += 1;
        }
        match found {
            None => {
                assert(forall|j: int| !names_count(model, j));
                Err(QueryError::MissingCount)
            },
            Some(n) => {
                proof {
                    lemma_first_count_unique(model, first);
                }
                Ok(PointsRequest { n })
            },
        }
    }

    /// Decodes a raw query string and reads the request out of it. An empty
    /// query string misses its count.
    pub fn parse(query: &str) -> (r: Result<PointsRequest, QueryError>)
        ensures
            match r {
                Ok(request) => requested_count(decoded_pairs(query@)) == Ok::<usize, QueryError>(
                    request.n,
                ),
                Err(e) => requested_count(decoded_pairs(query@)) == Err::<usize, QueryError>(e),
            },
            query@.len() == 0 ==> r == Err::<PointsRequest, QueryError>(QueryError::MissingCount),
    {
        let pairs = decode_pairs(query);
        PointsRequest::from_pairs(&pairs)
    }
}

} // verus!
