//! The answer of the web API's oracle data route.
use vstd::prelude::*;
use crate::client::mem_db::{MemDbError, OracleDataFetched};
use crate::client::response::{ApiErr, ApiOK};

verus! {

/// Whether `r` is the route's answer to the lookup `found`: the reading
/// when one was found, a failure of the service without a message when not.
pub open spec fn oracle_data_answer(
    found: Result<OracleDataFetched, MemDbError>,
    r: Result<ApiOK<OracleDataFetched>, ApiErr>,
) -> bool {
    match found {
        Ok(v) => r matches Ok(ok) && ok.0 == Some(v),
        Err(_) => r matches Err(ApiErr::ErrSystem(msg)) && msg is None,
    }
}

/// The route's answer to a lookup of the latest reading before a time.
pub fn get_oracle_data(found: Result<OracleDataFetched, MemDbError>) -> (r: Result<
    ApiOK<OracleDataFetched>,
    ApiErr,
>)
    ensures
        oracle_data_answer(found, r),
{
    match found {
        Err(_) => Err(ApiErr::ErrSystem(None)),
        Ok(v) => Ok(ApiOK(Some(v))),
    }
}

} // verus!
