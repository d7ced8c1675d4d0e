use std::sync::Arc;
use std::time::Duration;

use chain_watch::config::Chains::{BNB, ETH};
use chain_watch::config::{ChainWatchConfig, ConfigError};
use chain_watch::contracts::{Address, ContractsConfig, EcosystemContracts};
use chain_watch::layer::ChainWatchLayer;
use chain_watch::service::{ResourceKind, ServiceContext, WiringError};
use chain_watch::task::{attribute, ChainWatchTask, TaskId};

type Context = ServiceContext<String, String>;

fn address(byte: u8) -> Address {
    Address([byte; 20])
}

fn contracts(byte: u8) -> ContractsConfig {
    ContractsConfig {
        diamond_proxy_addr: address(byte),
        governance_addr: address(byte + 1),
        ecosystem_contracts: Some(EcosystemContracts {
            transparent_proxy_admin_addr: address(byte + 2),
        }),
    }
}

fn config() -> ChainWatchConfig {
    ChainWatchConfig {
        confirmations_for_eth_event: Some(0),
        eth_node_poll_interval: 300,
        confirmations_for_bnb_event: Some(0),
        bnb_node_poll_interval: 300,
    }
}

fn layer() -> ChainWatchLayer {
    ChainWatchLayer::new(config(), contracts(0xE0), contracts(0xB0))
}

fn resources() -> (Arc<String>, Arc<String>) {
    (Arc::new(String::from("pool")), Arc::new(String::from("transport")))
}

fn ids(names: &[&str]) -> Vec<TaskId> {
    names.iter().map(|name| TaskId(name.to_string())).collect()
}

#[test]
fn layer_new_keeps_its_arguments() {
    let layer = ChainWatchLayer::new(config(), contracts(1), contracts(5));
    assert_eq!(layer.chain_watch_config, config());
    assert_eq!(layer.contracts_config, contracts(1));
    assert_eq!(layer.bnb_contracts_config, contracts(5));
    assert_eq!(*layer.contracts(ETH), contracts(1));
    assert_eq!(*layer.contracts(BNB), contracts(5));
    assert_eq!(layer.layer_name(), "chain_watch_layer");
}

#[test]
fn wiring_registers_one_task_per_chain() {
    let (pool, transport) = resources();
    let mut context = Context::new(Some(Arc::clone(&pool)), Some(Arc::clone(&transport)));
    assert_eq!(layer().wire(&mut context), Ok(()));
    assert_eq!(context.task_ids(), ids(&["chain_watch_ethereum", "chain_watch_binance"]));
    let tasks = context.into_tasks();
    assert_eq!(tasks.len(), 2);
    assert_eq!(tasks[0].chain, ETH);
    assert_eq!(tasks[1].chain, BNB);
}

#[test]
fn wired_tasks_point_at_their_own_chain() {
    let (pool, transport) = resources();
    let mut context = Context::new(Some(Arc::clone(&pool)), Some(Arc::clone(&transport)));
    let layer = ChainWatchLayer::new(
        ChainWatchConfig {
            confirmations_for_eth_event: Some(0),
            eth_node_poll_interval: 300,
            confirmations_for_bnb_event: Some(0),
            bnb_node_poll_interval: 300,
        },
        contracts(0xE0),
        contracts(0xB0),
    );
    assert_eq!(layer.wire(&mut context), Ok(()));
    assert_eq!(context.task_ids(), ids(&["chain_watch_ethereum", "chain_watch_binance"]));
    let tasks = context.into_tasks();
    assert_eq!(tasks[0].client.name, "eth_client");
    assert_eq!(tasks[0].client.diamond_proxy_addr, address(0xE0));
    assert_eq!(tasks[0].diamond_proxy_address, address(0xE0));
    assert_eq!(tasks[0].client.confirmations_for_event, Some(0));
    assert_eq!(tasks[0].poll_interval, Duration::from_millis(300));
    assert_eq!(tasks[1].client.name, "bnb_client");
    assert_eq!(tasks[1].client.diamond_proxy_addr, address(0xB0));
    assert_eq!(tasks[1].diamond_proxy_address, address(0xB0));
    assert_eq!(tasks[1].client.confirmations_for_event, Some(0));
    assert_eq!(tasks[1].poll_interval, Duration::from_millis(300));
    assert_ne!(tasks[0].client.diamond_proxy_addr, tasks[1].client.diamond_proxy_addr);
}

#[test]
fn wired_tasks_read_their_own_settings() {
    let (pool, transport) = resources();
    let mut context = Context::new(Some(pool), Some(transport));
    let layer = ChainWatchLayer::new(
        ChainWatchConfig {
            confirmations_for_eth_event: Some(12),
            eth_node_poll_interval: 1_000,
            confirmations_for_bnb_event: None,
            bnb_node_poll_interval: 50,
        },
        contracts(0x10),
        ContractsConfig { ecosystem_contracts: None, ..contracts(0x20) },
    );
    assert_eq!(layer.wire(&mut context), Ok(()));
    let tasks = context.into_tasks();
    assert_eq!(tasks[0].poll_interval, Duration::from_secs(1));
    assert_eq!(tasks[0].client.confirmations_for_event, Some(12));
    assert_eq!(tasks[0].client.governance_addr, address(0x11));
    assert_eq!(tasks[0].client.transparent_proxy_admin_addr, Some(address(0x12)));
    assert_eq!(tasks[1].poll_interval, Duration::from_millis(50));
    assert_eq!(tasks[1].client.confirmations_for_event, None);
    assert_eq!(tasks[1].client.governance_addr, address(0x21));
    assert_eq!(tasks[1].client.transparent_proxy_admin_addr, None);
}

#[test]
fn wired_tasks_share_the_resources() {
    let (pool, transport) = resources();
    let mut context = Context::new(Some(Arc::clone(&pool)), Some(Arc::clone(&transport)));
    assert_eq!(layer().wire(&mut context), Ok(()));
    let tasks = context.into_tasks();
    for task in &tasks {
        assert!(Arc::ptr_eq(&task.main_pool, &pool));
        assert!(Arc::ptr_eq(&task.client.client, &transport));
    }
    assert_eq!(Arc::strong_count(&pool), 3);
    assert_eq!(Arc::strong_count(&transport), 3);
}

#[test]
fn wiring_without_the_pool_registers_nothing() {
    let (_, transport) = resources();
    let mut context = Context::new(None, Some(transport));
    assert_eq!(
        layer().wire(&mut context),
        Err(WiringError::MissingResource(ResourceKind::MasterPool))
    );
    assert_eq!(context.task_ids(), Vec::<TaskId>::new());
    assert!(context.into_tasks().is_empty());
}

#[test]
fn wiring_without_the_transport_registers_nothing() {
    let (pool, _) = resources();
    let mut context = Context::new(Some(Arc::clone(&pool)), None);
    assert_eq!(
        layer().wire(&mut context),
        Err(WiringError::MissingResource(ResourceKind::EthInterface))
    );
    assert!(context.into_tasks().is_empty());
    assert_eq!(Arc::strong_count(&pool), 1);
}

#[test]
fn wiring_without_any_resource_asks_for_the_pool_first() {
    let mut context = Context::new(None, None);
    assert_eq!(
        layer().wire(&mut context),
        Err(WiringError::MissingResource(ResourceKind::MasterPool))
    );
    assert!(context.into_tasks().is_empty());
}

#[test]
fn wiring_turns_down_a_zero_poll_interval() {
    let (pool, transport) = resources();
    let mut context = Context::new(Some(pool), Some(transport));
    let broken = ChainWatchConfig { bnb_node_poll_interval: 0, ..config() };
    let layer = ChainWatchLayer::new(broken, contracts(1), contracts(5));
    assert_eq!(layer.wire(&mut context), Err(WiringError::Config(ConfigError::Invalid(BNB))));
    assert!(context.task_ids().is_empty());
    let broken = ChainWatchConfig { eth_node_poll_interval: 0, ..config() };
    let layer = ChainWatchLayer::new(broken, contracts(1), contracts(5));
    assert_eq!(layer.wire(&mut context), Err(WiringError::Config(ConfigError::Invalid(ETH))));
    assert!(context.into_tasks().is_empty());
}

#[test]
fn missing_resource_is_reported_before_the_configuration() {
    let (pool, _) = resources();
    let mut context = Context::new(Some(pool), None);
    let broken = ChainWatchConfig { eth_node_poll_interval: 0, ..config() };
    let layer = ChainWatchLayer::new(broken, contracts(1), contracts(5));
    assert_eq!(
        layer.wire(&mut context),
        Err(WiringError::MissingResource(ResourceKind::EthInterface))
    );
}

#[test]
fn wiring_again_gives_the_same_ids() {
    let (pool, transport) = resources();
    let mut first = Context::new(Some(Arc::clone(&pool)), Some(Arc::clone(&transport)));
    let mut second = Context::new(Some(pool), Some(transport));
    assert_eq!(layer().wire(&mut first), Ok(()));
    assert_eq!(layer().wire(&mut second), Ok(()));
    let ids = first.task_ids();
    assert_eq!(ids, second.task_ids());
    assert_eq!(ids.len(), 2);
    assert_ne!(ids[0], ids[1]);
}

#[test]
fn wiring_appends_behind_registered_tasks() {
    let (pool, transport) = resources();
    let mut context = Context::new(Some(Arc::clone(&pool)), Some(Arc::clone(&transport)));
    let earlier = layer().build_task(BNB, &pool, &transport);
    context.add_task(earlier);
    assert_eq!(context.task_ids(), ids(&["chain_watch_binance"]));
    assert_eq!(layer().wire(&mut context), Ok(()));
    assert_eq!(
        context.task_ids(),
        ids(&["chain_watch_binance", "chain_watch_ethereum", "chain_watch_binance"])
    );
}

#[test]
fn swapping_the_contracts_swaps_the_clients() {
    let (pool, transport) = resources();
    let straight = ChainWatchLayer::new(config(), contracts(0xE0), contracts(0xB0));
    let swapped = ChainWatchLayer::new(config(), contracts(0xB0), contracts(0xE0));
    let mut first = Context::new(Some(Arc::clone(&pool)), Some(Arc::clone(&transport)));
    let mut second = Context::new(Some(pool), Some(transport));
    assert_eq!(straight.wire(&mut first), Ok(()));
    assert_eq!(swapped.wire(&mut second), Ok(()));
    let first = first.into_tasks();
    let second = second.into_tasks();
    for (a, b) in [(0, 1), (1, 0)] {
        assert_eq!(first[a].client.diamond_proxy_addr, second[b].client.diamond_proxy_addr);
        assert_eq!(first[a].client.governance_addr, second[b].client.governance_addr);
        assert_eq!(
            first[a].client.transparent_proxy_admin_addr,
            second[b].client.transparent_proxy_admin_addr
        );
        assert_eq!(first[a].diamond_proxy_address, second[b].diamond_proxy_address);
    }
    assert_eq!(second[0].client.diamond_proxy_addr, address(0xB0));
    assert_eq!(second[1].client.diamond_proxy_addr, address(0xE0));
    assert_eq!(second[0].client.name, "eth_client");
}

#[test]
fn build_task_is_the_task_that_wiring_registers() {
    let (pool, transport) = resources();
    let task: ChainWatchTask<String, String> = layer().build_task(ETH, &pool, &transport);
    assert_eq!(task.chain, ETH);
    assert_eq!(task.id(), TaskId(String::from("chain_watch_ethereum")));
    assert_eq!(task.poll_interval, Duration::from_millis(300));
    assert_eq!(task.diamond_proxy_address, address(0xE0));
    assert_eq!(task.client.diamond_proxy_addr, address(0xE0));
    assert!(Arc::ptr_eq(&task.main_pool, &pool));
}

#[test]
fn context_hands_out_the_provided_resources() {
    let (pool, transport) = resources();
    let context = Context::new(Some(Arc::clone(&pool)), Some(Arc::clone(&transport)));
    let got = context.get_pool().unwrap();
    assert!(Arc::ptr_eq(&got, &pool));
    assert_eq!(Arc::strong_count(&pool), 3);
    let got = context.get_eth_interface().unwrap();
    assert!(Arc::ptr_eq(&got, &transport));
    let empty = Context::new(None, None);
    assert_eq!(
        empty.get_pool().unwrap_err(),
        WiringError::MissingResource(ResourceKind::MasterPool)
    );
    assert_eq!(
        empty.get_eth_interface().unwrap_err(),
        WiringError::MissingResource(ResourceKind::EthInterface)
    );
}

#[test]
fn stopped_engines_end_every_task_without_error() {
    let (pool, transport) = resources();
    let mut context = Context::new(Some(pool), Some(transport));
    assert_eq!(layer().wire(&mut context), Ok(()));
    let stop = Arc::new(true);
    for task in context.into_tasks() {
        let id = task.id();
        let start = task.run(Arc::clone(&stop));
        let built: Result<(), String> = Ok(());
        assert!(attribute(&id, built).is_ok());
        let exited: Result<(), String> =
            if *start.stop_receiver { Ok(()) } else { Err(String::from("still running")) };
        assert!(attribute(&id, exited).is_ok());
    }
}

#[test]
fn failed_engine_is_reported_under_its_task() {
    let (pool, transport) = resources();
    let mut context = Context::new(Some(pool), Some(transport));
    assert_eq!(layer().wire(&mut context), Ok(()));
    let mut failures = Vec::new();
    for task in context.into_tasks() {
        let id = task.id();
        let name = task.run(()).name;
        let built: Result<(), String> = Err(format!("cannot reach {name}"));
        failures.push(attribute(&id, built).unwrap_err());
    }
    assert_eq!(failures[0].task_id, TaskId(String::from("chain_watch_ethereum")));
    assert_eq!(failures[0].source, "cannot reach ethereum");
    assert_eq!(failures[1].task_id, TaskId(String::from("chain_watch_binance")));
    assert_eq!(failures[1].source, "cannot reach binance");
}
