//! The coordinator's failure detector pipeline: retrieve the proxies from
//! the meta-broker, probe each with fresh clients, and report the addresses
//! whose probes all failed, under a stable reporter identity.
//!
//! The client factory and the meta-broker are capability boundaries the
//! caller implements; the decision logic around them is verified here.

use vstd::prelude::*;
use std::sync::Arc;
use crate::resp::Resp;
use crate::resp::bytes_of_str;
use crate::retry::ClientError;

verus! {

/// How the meta-broker can fail.
#[derive(PartialEq, Eq, Structural, Clone, Copy, Debug)]
pub enum MetaDataBrokerError {
    InvalidReply,
}

/// A coordinator-side failure: either the meta-broker misbehaved, or a
/// backend client call failed.
#[derive(PartialEq, Eq, Structural, Clone, Copy, Debug)]
pub enum CoordinateError {
    MetaData(MetaDataBrokerError),
    Redis(ClientError),
}

/// A wire client the caller implements: one request, one reply.
pub trait RedisClient {
    fn execute_single(&mut self, command: Vec<Vec<u8>>) -> Result<Resp, ClientError>;
}

/// The capability to open a fresh client to an address.
pub trait RedisClientFactory {
    type Client: RedisClient;

    fn create_client(&self, address: &String) -> Result<Self::Client, ClientError>;
}

/// The meta-broker surface the coordinator consumes: the proxy addresses,
/// and the failure-vote sink.
pub trait MetaDataBroker {
    fn get_host_addresses(&self) -> Result<Vec<String>, MetaDataBrokerError>;

    fn add_failure(&self, address: String, reporter_id: String) -> Result<
        (),
        MetaDataBrokerError,
    >;
}

/// Lift a meta-broker result to a coordinator result, keeping the value and
/// wrapping the error.
pub fn lift_meta<T>(res: Result<T, MetaDataBrokerError>) -> (r: Result<T, CoordinateError>)
    ensures
        match res {
            Ok(v) => r matches Ok(v2) && v2 == v,
            Err(e) => r matches Err(CoordinateError::MetaData(e2)) && e2 == e,
        },
{
    match res {
        Ok(v) => Ok(v),
        Err(e) => Err(CoordinateError::MetaData(e)),
    }
}

/// Produces the proxy addresses from the meta-broker, lifting broker errors
/// to coordinator errors.
pub struct BrokerProxiesRetriever<B: MetaDataBroker> {
    pub meta_data_broker: Arc<B>,
}

impl<B: MetaDataBroker> BrokerProxiesRetriever<B> {
    /// Wrap a broker handle.
    pub fn new(meta_data_broker: Arc<B>) -> (r: Self)
        ensures
            r.meta_data_broker == meta_data_broker,
    {
        Self { meta_data_broker }
    }

    /// The proxies the broker currently knows; a broker failure becomes a
    /// `MetaData` coordinator error.
    pub fn retrieve_proxies(&self) -> (r: Result<Vec<String>, CoordinateError>)
        ensures
            r matches Err(e) ==> e is MetaData,
    {
        lift_meta(self.meta_data_broker.get_host_addresses())
    }
}

/// How many probes the checker makes before it declares an address failed.
pub const PROBE_RETRY: u32 = 3;

/// What one probe outcome means at the given attempt (1-based): a successful
/// probe settles health at once; the last failed attempt settles failure;
/// anything else probes again.
pub open spec fn ping_step_spec(attempt: u32, probe_ok: bool) -> ProbeStep {
    if probe_ok {
        ProbeStep::Healthy
    } else if attempt >= PROBE_RETRY {
        ProbeStep::ConfirmFailed
    } else {
        ProbeStep::Retry
    }
}

/// The checker's verdict after one probe.
#[derive(PartialEq, Eq, Structural, Clone, Copy, Debug)]
pub enum ProbeStep {
    Healthy,
    Retry,
    ConfirmFailed,
}

/// Decide what one probe outcome means.
pub fn ping_check_step(attempt: u32, probe_ok: bool) -> (r: ProbeStep)
    ensures
        r == ping_step_spec(attempt, probe_ok),
{
    if probe_ok {
        ProbeStep::Healthy
    } else if attempt >= PROBE_RETRY {
        ProbeStep::ConfirmFailed
    } else {
        ProbeStep::Retry
    }
}

/// The verdict of a full three-probe run, probes stopping at the first
/// success: `true` means confirmed failed.
pub open spec fn probes_confirm_failure(p1: bool, p2: bool, p3: bool) -> bool {
    ping_step_spec(1, p1) is ConfirmFailed || (ping_step_spec(1, p1) is Retry && (ping_step_spec(
        2,
        p2,
    ) is ConfirmFailed || (ping_step_spec(2, p2) is Retry && ping_step_spec(3, p3) is ConfirmFailed)))
}

/// Probe sufficiency: a run of up to three probes confirms failure exactly
/// when all three fail; one success, wherever it falls, settles health.
pub proof fn lemma_probe_sufficiency(p1: bool, p2: bool, p3: bool)
    ensures
        probes_confirm_failure(p1, p2, p3) <==> (!p1 && !p2 && !p3),
{
}

/// Probes an address for liveness: up to three probes, each on a fresh
/// client, failure only when unanimous.
pub struct PingFailureDetector<F: RedisClientFactory> {
    pub client_factory: Arc<F>,
}

impl<F: RedisClientFactory> PingFailureDetector<F> {
    /// Wrap a client factory.
    pub fn new(client_factory: Arc<F>) -> (r: Self)
        ensures
            r.client_factory == client_factory,
    {
        Self { client_factory }
    }

    /// One probe: open a fresh client, send `PING`. Whether it succeeded
    /// depends on the wire; connect failures and send failures are votes,
    /// not errors.
    fn ping(&self, address: &String) -> bool {
        let mut client = match self.client_factory.create_client(address) {
            Ok(client) => client,
            Err(_) => {
                return false;
            },
        };
        let mut ping_command: Vec<Vec<u8>> = Vec::new();
        ping_command.push(bytes_of_str("PING"));
        match client.execute_single(ping_command) {
            Ok(_) => true,
            Err(_) => false,
        }
    }

    /// Check an address: `Ok(None)` means healthy, `Ok(Some(address))` means
    /// every probe failed. Probe outcomes are votes; the check itself cannot
    /// fail.
    pub fn check(&self, address: String) -> (r: Result<Option<String>, CoordinateError>)
        ensures
            r is Ok,
            r matches Ok(Some(a)) ==> a == address,
    {
        let mut attempt: u32 = 1;
        while attempt <= PROBE_RETRY
            invariant
                1 <= attempt <= PROBE_RETRY + 1,
            decreases PROBE_RETRY + 1 - attempt,
        {
            let ok = self.ping(&address);
            match ping_check_step(attempt, ok) {
                ProbeStep::Healthy => {
                    return Ok(None);
                },
                ProbeStep::ConfirmFailed => {
                    return Ok(Some(address));
                },
                ProbeStep::Retry => {},
            }
            attempt += 1;
        }
        Ok(Some(address))
    }
}

/// Publishes a failed address to the meta-broker under a stable reporter
/// identity.
pub struct BrokerFailureReporter<B: MetaDataBroker> {
    pub reporter_id: String,
    pub meta_data_broker: Arc<B>,
}

impl<B: MetaDataBroker> BrokerFailureReporter<B> {
    /// Wrap a broker handle under the given identity.
    pub fn new(reporter_id: String, meta_data_broker: Arc<B>) -> (r: Self)
        ensures
            r.reporter_id == reporter_id,
            r.meta_data_broker == meta_data_broker,
    {
        Self { reporter_id, meta_data_broker }
    }

    /// Report one failed address; a broker failure becomes a `MetaData`
    /// coordinator error.
    pub fn report(&self, address: String) -> (r: Result<(), CoordinateError>)
        ensures
            r matches Err(e) ==> e is MetaData,
    {
        lift_meta(self.meta_data_broker.add_failure(address, self.reporter_id.clone()))
    }
}

/// The sequential failure detector: for each retrieved address, check, and
/// report exactly those the checker confirmed failed, in retrieval order.
pub struct SeqFailureDetector<F: RedisClientFactory, B: MetaDataBroker> {
    pub retriever: BrokerProxiesRetriever<B>,
    pub checker: PingFailureDetector<F>,
    pub reporter: BrokerFailureReporter<B>,
}

impl<F: RedisClientFactory, B: MetaDataBroker> SeqFailureDetector<F, B> {
    /// Compose the three stages.
    pub fn new(
        retriever: BrokerProxiesRetriever<B>,
        checker: PingFailureDetector<F>,
        reporter: BrokerFailureReporter<B>,
    ) -> (r: Self)
        ensures
            r.retriever == retriever,
            r.checker == checker,
            r.reporter == reporter,
    {
        Self { retriever, checker, reporter }
    }

    /// One pass over the fleet: every address in retrieval order, checked;
    /// each confirmed failure reported. Element-level errors do not end the
    /// pass; the addresses reported are returned. Only a retrieval failure
    /// ends the pass, with the broker's error.
    pub fn run(&self) -> (r: Result<Vec<String>, CoordinateError>)
        ensures
            r matches Err(e) ==> e is MetaData,
    {
        let addresses = match self.retriever.retrieve_proxies() {
            Ok(a) => a,
            Err(e) => {
                return Err(e);
            },
        };
        let mut reported: Vec<String> = Vec::new();
        let n = addresses.len();
        let mut i: usize = 0;
        while i < n
            invariant
                n == addresses@.len(),
                i <= n,
            decreases n - i,
        {
            let address = &addresses[i];
            match self.checker.check(address.clone()) {
                Ok(Some(failed)) => {
                    match self.reporter.report(failed) {
                        Ok(()) => {
                            reported.push(address.clone());
                        },
                        Err(_) => {},
                    }
                },
                Ok(None) => {},
                Err(_) => {},
            }
            i += 1;
        }
        Ok(reported)
    }

}

} // verus!
