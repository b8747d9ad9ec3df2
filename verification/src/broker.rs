//! The meta-manipulation client's verified half: the request URLs and the
//! status-code discipline of the two broker operations. The HTTP transport
//! itself lives outside and hands status codes and decoded bodies back in.

use vstd::prelude::*;
use vstd::string::StringExecFns;

verus! {

/// How the meta-broker's answers can be unusable.
#[derive(PartialEq, Eq, Structural, Clone, Copy, Debug)]
pub enum MetaManipulationBrokerError {
    InvalidReply,
}

/// The host record the broker answers a failover request with.
pub struct Host {
    pub address: String,
    pub epoch: u64,
}

/// The verified half of the HTTP meta-manipulation client: it renders the
/// request URLs and judges the responses; the transport performs them.
pub struct HttpMetaManipulationBroker {
    pub broker_address: String,
}

/// The status code counts as success.
pub open spec fn status_is_success(status: u16) -> bool {
    200 <= status < 300
}

impl HttpMetaManipulationBroker {
    /// A client of the broker at the given address.
    pub fn new(broker_address: String) -> (r: Self)
        ensures
            r.broker_address == broker_address,
    {
        Self { broker_address }
    }

    /// The URL `replace_proxy` posts to.
    pub fn failover_url(&self, failed_proxy_address: &String) -> (r: String)
        ensures
            r@ == "http://"@ + self.broker_address@ + "/api/proxies/failover/"@
                + failed_proxy_address@,
    {
        let mut url = String::from_str("http://");
        url.append(self.broker_address.as_str());
        url.append("/api/proxies/failover/");
        url.append(failed_proxy_address.as_str());
        url
    }

    /// The URL `commit_migration` puts to.
    pub fn migrations_url(&self) -> (r: String)
        ensures
            r@ == "http://"@ + self.broker_address@ + "/api/clusters/migrations"@,
    {
        let mut url = String::from_str("http://");
        url.append(self.broker_address.as_str());
        url.append("/api/clusters/migrations");
        url
    }
}

/// Judge a `replace_proxy` response: a success status with a decodable
/// `Host` body yields that host; every other status, and every undecodable
/// body, is `InvalidReply`.
pub fn replace_proxy_outcome(status: u16, decoded: Option<Host>) -> (r: Result<
    Host,
    MetaManipulationBrokerError,
>)
    ensures
        r is Ok <==> status_is_success(status) && decoded is Some,
        r matches Ok(h) ==> decoded == Some(h),
        r is Err ==> r matches Err(MetaManipulationBrokerError::InvalidReply),
{
    if 200 <= status && status < 300 {
        match decoded {
            Some(h) => Ok(h),
            None => Err(MetaManipulationBrokerError::InvalidReply),
        }
    } else {
        Err(MetaManipulationBrokerError::InvalidReply)
    }
}

/// Judge a `commit_migration` response: success statuses succeed, and so
/// does 404 — the broker may have reconciled the task under an earlier
/// attempt, and a retried commit must stay idempotent. Everything else is
/// `InvalidReply`.
pub fn commit_migration_outcome(status: u16) -> (r: Result<(), MetaManipulationBrokerError>)
    ensures
        r is Ok <==> status_is_success(status) || status == 404,
        r is Err ==> r matches Err(MetaManipulationBrokerError::InvalidReply),
{
    if (200 <= status && status < 300) || status == 404 {
        Ok(())
    } else {
        Err(MetaManipulationBrokerError::InvalidReply)
    }
}

} // verus!
