use std::cell::{Cell, RefCell};
use std::sync::Arc;
use undermoon::broker::{
    commit_migration_outcome, replace_proxy_outcome, Host, HttpMetaManipulationBroker,
    MetaManipulationBrokerError,
};
use undermoon::detector::{
    BrokerFailureReporter, BrokerProxiesRetriever, MetaDataBroker, MetaDataBrokerError,
    PingFailureDetector, RedisClient, RedisClientFactory, SeqFailureDetector,
};
use undermoon::resp::{Array, Resp};
use undermoon::retry::ClientError;

const NODE1: &str = "127.0.0.1:7000";
const NODE2: &str = "127.0.0.1:7001";

struct DummyClient {
    works: bool,
}

impl RedisClient for DummyClient {
    fn execute_single(&mut self, _command: Vec<Vec<u8>>) -> Result<Resp, ClientError> {
        if self.works {
            Ok(Resp::Arr(Array::Nil))
        } else {
            Err(ClientError::InvalidReply)
        }
    }
}

struct DummyClientFactory {
    attempts: Cell<u32>,
}

impl RedisClientFactory for DummyClientFactory {
    type Client = DummyClient;

    fn create_client(&self, address: &String) -> Result<DummyClient, ClientError> {
        self.attempts.set(self.attempts.get() + 1);
        Ok(DummyClient { works: address.as_str() == NODE1 })
    }
}

struct DummyMetaBroker {
    reported_failures: RefCell<Vec<String>>,
}

impl MetaDataBroker for DummyMetaBroker {
    fn get_host_addresses(&self) -> Result<Vec<String>, MetaDataBrokerError> {
        Ok(vec![NODE1.to_string(), NODE2.to_string()])
    }

    fn add_failure(&self, address: String, _reporter_id: String) -> Result<(), MetaDataBrokerError> {
        self.reported_failures.borrow_mut().push(address);
        Ok(())
    }
}

#[test]
fn test_detector() {
    let broker = Arc::new(DummyMetaBroker { reported_failures: RefCell::new(vec![]) });
    let retriever = BrokerProxiesRetriever::new(broker.clone());
    let checker = PingFailureDetector::new(Arc::new(DummyClientFactory { attempts: Cell::new(0) }));
    let reporter = BrokerFailureReporter::new("test_id".to_string(), broker.clone());
    let detector = SeqFailureDetector::new(retriever, checker, reporter);

    let res = detector.run();
    assert!(res.is_ok());
    let failed_nodes = broker.reported_failures.borrow().clone();
    assert_eq!(1, failed_nodes.len());
    assert_eq!(NODE2, failed_nodes[0]);
}

#[test]
fn test_check_healthy_needs_one_probe() {
    let factory = Arc::new(DummyClientFactory { attempts: Cell::new(0) });
    let checker = PingFailureDetector::new(factory.clone());
    let res = checker.check(NODE1.to_string());
    assert_eq!(res, Ok(None));
    assert_eq!(factory.attempts.get(), 1);
}

#[test]
fn test_check_failure_needs_all_probes() {
    let factory = Arc::new(DummyClientFactory { attempts: Cell::new(0) });
    let checker = PingFailureDetector::new(factory.clone());
    let res = checker.check(NODE2.to_string());
    assert_eq!(res, Ok(Some(NODE2.to_string())));
    assert_eq!(factory.attempts.get(), 3);
}

// A factory whose first two connect attempts fail; the third probe reaches a
// working client.
struct FlakyFactory {
    attempts: Cell<u32>,
}

impl RedisClientFactory for FlakyFactory {
    type Client = DummyClient;

    fn create_client(&self, _address: &String) -> Result<DummyClient, ClientError> {
        self.attempts.set(self.attempts.get() + 1);
        if self.attempts.get() <= 2 {
            Err(ClientError::ConnectionFailed)
        } else {
            Ok(DummyClient { works: true })
        }
    }
}

#[test]
fn test_check_one_late_success_is_enough() {
    let factory = Arc::new(FlakyFactory { attempts: Cell::new(0) });
    let checker = PingFailureDetector::new(factory.clone());
    let res = checker.check(NODE1.to_string());
    assert_eq!(res, Ok(None));
    assert_eq!(factory.attempts.get(), 3);
}

#[test]
fn test_commit_migration_statuses() {
    assert!(commit_migration_outcome(200).is_ok());
    assert!(commit_migration_outcome(204).is_ok());
    assert!(commit_migration_outcome(404).is_ok());
    assert_eq!(
        commit_migration_outcome(500),
        Err(MetaManipulationBrokerError::InvalidReply)
    );
    assert_eq!(
        commit_migration_outcome(400),
        Err(MetaManipulationBrokerError::InvalidReply)
    );
    assert_eq!(
        commit_migration_outcome(199),
        Err(MetaManipulationBrokerError::InvalidReply)
    );
    assert_eq!(
        commit_migration_outcome(300),
        Err(MetaManipulationBrokerError::InvalidReply)
    );
}

#[test]
fn test_replace_proxy_outcome_statuses() {
    let host = Host { address: "127.0.0.1:7000".to_string(), epoch: 3 };
    match replace_proxy_outcome(200, Some(host)) {
        Ok(h) => {
            assert_eq!(h.address, "127.0.0.1:7000");
            assert_eq!(h.epoch, 3);
        }
        Err(_) => panic!("a decoded body under a success status is returned"),
    }
    assert!(replace_proxy_outcome(200, None).is_err());
    let host2 = Host { address: "127.0.0.1:7000".to_string(), epoch: 3 };
    assert!(replace_proxy_outcome(404, Some(host2)).is_err());
}

#[test]
fn test_broker_urls() {
    let broker = HttpMetaManipulationBroker::new("broker:7799".to_string());
    assert_eq!(
        broker.failover_url(&"127.0.0.1:7000".to_string()),
        "http://broker:7799/api/proxies/failover/127.0.0.1:7000"
    );
    assert_eq!(broker.migrations_url(), "http://broker:7799/api/clusters/migrations");
}
