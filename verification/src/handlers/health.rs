//! The health check.
use vstd::prelude::*;

use crate::clock::now_rfc3339;
use crate::entitys::maintenance::HealthResponse;
use crate::handlers::reply::Reply;

verus! {

/// The service is up (`服务正常`): status `ok`, with the current time as
/// RFC 3339 text in UTC.
pub fn health_check_handler() -> (r: Reply<HealthResponse>)
    ensures
        r.message@ == "服务正常"@,
        r.data.status@ == "ok"@,
        r.data.timestamp@.len() >= 25,
        r.data.timestamp@.subrange(r.data.timestamp@.len() - 6, r.data.timestamp@.len() as int)
            == "+00:00"@,
{
    Reply {
        message: "服务正常",
        data: HealthResponse { status: String::from_str("ok"), timestamp: now_rfc3339() },
    }
}

} // verus!
