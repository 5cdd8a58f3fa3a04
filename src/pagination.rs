use vstd::prelude::*;
use crate::decimal::{parse_i32, signed_decimal};
use crate::error::Error;

verus! {

/// Which page of a listing is asked for: at most `limit` items (all when
/// absent), after skipping `offset` items.
#[derive(Debug, Clone, Copy, PartialEq, Eq)]
pub struct Pagination {
    pub limit: Option<i32>,
    pub offset: i32,
}

impl Default for Pagination {
    /// Every item, from the first on.
    fn default() -> (r: Self)
        ensures
            r.limit is None,
            r.offset == 0,
    {
        Pagination { limit: None, offset: 0 }
    }
}

/// Reads the `limit` and `offset` query parameters: both must be present,
/// and each must be a decimal `i32`.
pub fn extract_pagination(limit: Option<&str>, offset: Option<&str>) -> (r: Result<
    Pagination,
    Error,
>)
    ensures
        (limit is None || offset is None) ==> r matches Err(Error::MissingParameters),
        limit matches Some(l) ==> offset matches Some(o) ==> (
        (signed_decimal(l@) is Some && signed_decimal(o@) is Some) <==> r is Ok),
        limit matches Some(l) ==> offset matches Some(o) ==> (!(signed_decimal(l@) is Some
            && signed_decimal(o@) is Some) ==> r matches Err(Error::ParseError(_))),
        r matches Ok(p) ==> (limit matches Some(l) && offset matches Some(o) && p.limit == Some(
            signed_decimal(l@).unwrap(),
        ) && p.offset == signed_decimal(o@).unwrap()),
{
    match (limit, offset) {
        (Some(l), Some(o)) => {
            let limit = match parse_i32(l) {
                Ok(v) => v,
                Err(detail) => return Err(Error::ParseError(detail)),
            };
            let offset = match parse_i32(o) {
                Ok(v) => v,
                Err(detail) => return Err(Error::ParseError(detail)),
            };
            Ok(Pagination { limit: Some(limit), offset })
        },
        _ => Err(Error::MissingParameters),
    }
}

} // verus!
