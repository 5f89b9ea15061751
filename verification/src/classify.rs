//! Bucketing of HTTP status codes into the five printable classes.
use vstd::prelude::*;

verus! {

/// The five printable status-code classes, by numeric range.
#[derive(Clone, Copy, PartialEq, Eq, Structural, Debug)]
pub enum StatusBucket {
    Informational,
    Success,
    Redirect,
    ClientError,
    ServerError,
}

pub open spec fn spec_classify(sc: u16) -> Option<StatusBucket> {
    if 100 <= sc < 200 {
        Some(StatusBucket::Informational)
    } else if 200 <= sc < 300 {
        Some(StatusBucket::Success)
    } else if 300 <= sc < 400 {
        Some(StatusBucket::Redirect)
    } else if 400 <= sc < 500 {
        Some(StatusBucket::ClientError)
    } else if 500 <= sc < 600 {
        Some(StatusBucket::ServerError)
    } else {
        None
    }
}

/// Bucket an HTTP status code into one of the five printable classes; codes
/// outside [100,600) fall in no class.
pub fn classify_status(sc: u16) -> (r: Option<StatusBucket>)
    ensures
        r == spec_classify(sc),
{
    if 100 <= sc && sc < 200 {
        Some(StatusBucket::Informational)
    } else if 200 <= sc && sc < 300 {
        Some(StatusBucket::Success)
    } else if 300 <= sc && sc < 400 {
        Some(StatusBucket::Redirect)
    } else if 400 <= sc && sc < 500 {
        Some(StatusBucket::ClientError)
    } else if 500 <= sc && sc < 600 {
        Some(StatusBucket::ServerError)
    } else {
        None
    }
}

/// Each of the five documented ranges maps to its own class and to no other,
/// and a code is classified exactly when it lies in [100,600): the ranges are
/// mutually exclusive and together cover every classified code.
pub proof fn lemma_buckets_partition(sc: u16)
    ensures
        spec_classify(sc) is Some <==> 100 <= sc < 600,
        (spec_classify(sc) == Some(StatusBucket::Informational)) <==> (100 <= sc < 200),
        (spec_classify(sc) == Some(StatusBucket::Success)) <==> (200 <= sc < 300),
        (spec_classify(sc) == Some(StatusBucket::Redirect)) <==> (300 <= sc < 400),
        (spec_classify(sc) == Some(StatusBucket::ClientError)) <==> (400 <= sc < 500),
        (spec_classify(sc) == Some(StatusBucket::ServerError)) <==> (500 <= sc < 600),
{
}

} // verus!
