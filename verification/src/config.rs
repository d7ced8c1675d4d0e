//! Per-chain settings of the watcher: poll cadence and confirmation depth.

use crate::time::{duration_nanos, nanos_per_milli};
use std::time::Duration;
use vstd::prelude::*;

verus! {

/// The base chains that the node watches.
#[derive(Clone, Copy, Debug, PartialEq, Eq, Structural)]
pub enum Chains {
    ETH,
    BNB,
}

impl Chains {
    /// The chains that are watched, in the order in which they are wired.
    pub open spec fn declared_spec() -> Seq<Chains> {
        seq![Chains::ETH, Chains::BNB]
    }

    /// The chain's name.
    pub open spec fn name_text(self) -> Seq<char> {
        match self {
            Chains::ETH => "ethereum"@,
            Chains::BNB => "binance"@,
        }
    }

    /// The name of the chain's query client.
    pub open spec fn client_name_text(self) -> Seq<char> {
        match self {
            Chains::ETH => "eth_client"@,
            Chains::BNB => "bnb_client"@,
        }
    }

    /// The chains that are watched, in the order in which they are wired.
    pub fn declared() -> (chains: Vec<Chains>)
        ensures
            chains@ == Chains::declared_spec(),
    {
        let mut chains: Vec<Chains> = Vec::new();
        chains.push(Chains::ETH);
        chains.push(Chains::BNB);
        chains
    }

    /// The chain's name.
    pub fn name(self) -> (name: &'static str)
        ensures
            name@ == self.name_text(),
    {
        match self {
            Chains::ETH => "ethereum",
            Chains::BNB => "binance",
        }
    }

    /// The name of the chain's query client.
    pub fn client_name(self) -> (name: &'static str)
        ensures
            name@ == self.client_name_text(),
    {
        match self {
            Chains::ETH => "eth_client",
            Chains::BNB => "bnb_client",
        }
    }
}

/// Settings of the chain watcher.
#[derive(Clone, Copy, Debug, PartialEq, Eq)]
pub struct ChainWatchConfig {
    /// Confirmations that an event on the ETH chain waits for; without a
    /// value the event is processed once its block is finalized.
    pub confirmations_for_eth_event: Option<u64>,
    /// How often the ETH node is polled, in milliseconds.
    pub eth_node_poll_interval: u64,
    /// Confirmations that an event on the BNB chain waits for; without a
    /// value the event is processed once its block is finalized.
    pub confirmations_for_bnb_event: Option<u64>,
    /// How often the BNB node is polled, in milliseconds.
    pub bnb_node_poll_interval: u64,
}

/// Settings as they arrive from the configuration surface: every value may
/// be absent, and a poll interval may be any signed number.
#[derive(Clone, Copy, Debug, PartialEq, Eq)]
pub struct RawChainWatchConfig {
    pub confirmations_for_eth_event: Option<u64>,
    pub eth_node_poll_interval: Option<i64>,
    pub confirmations_for_bnb_event: Option<u64>,
    pub bnb_node_poll_interval: Option<i64>,
}

/// Why settings were turned down.
#[derive(Clone, Copy, Debug, PartialEq, Eq)]
pub enum ConfigError {
    /// The poll interval of the chain is not set.
    Missing(Chains),
    /// The poll interval of the chain is zero or negative.
    Invalid(Chains),
}

/// The poll interval of `chain` out of its raw setting: it must be there,
/// and it must be positive.
pub open spec fn resolve_interval_spec(chain: Chains, raw: Option<i64>) -> Result<u64, ConfigError> {
    match raw {
        None => Err(ConfigError::Missing(chain)),
        Some(millis) => if millis <= 0 {
            Err(ConfigError::Invalid(chain))
        } else {
            Ok(millis as u64)
        },
    }
}

/// The poll interval of `chain` out of its raw setting.
pub fn resolve_interval(chain: Chains, raw: Option<i64>) -> (res: Result<u64, ConfigError>)
    ensures
        res == resolve_interval_spec(chain, raw),
{
    match raw {
        None => Err(ConfigError::Missing(chain)),
        Some(millis) => if millis <= 0 {
            Err(ConfigError::Invalid(chain))
        } else {
            Ok(millis as u64)
        },
    }
}

impl RawChainWatchConfig {
    /// The raw poll interval of `chain`.
    pub open spec fn poll_interval_of(&self, chain: Chains) -> Option<i64> {
        match chain {
            Chains::ETH => self.eth_node_poll_interval,
            Chains::BNB => self.bnb_node_poll_interval,
        }
    }
}

impl ChainWatchConfig {
    /// Every poll interval is positive.
    pub open spec fn wf(&self) -> bool {
        forall|chain: Chains| self.poll_interval_millis(chain) > 0
    }

    /// What loading `raw` gives: the first chain, in wiring order, whose poll
    /// interval is absent or not positive decides the error; confirmation
    /// depths are taken as they are, absent ones staying absent.
    pub open spec fn load_spec(raw: RawChainWatchConfig) -> Result<ChainWatchConfig, ConfigError> {
        match resolve_interval_spec(Chains::ETH, raw.eth_node_poll_interval) {
            Err(e) => Err(e),
            Ok(eth) => match resolve_interval_spec(Chains::BNB, raw.bnb_node_poll_interval) {
                Err(e) => Err(e),
                Ok(bnb) => Ok(
                    ChainWatchConfig {
                        confirmations_for_eth_event: raw.confirmations_for_eth_event,
                        eth_node_poll_interval: eth,
                        confirmations_for_bnb_event: raw.confirmations_for_bnb_event,
                        bnb_node_poll_interval: bnb,
                    },
                ),
            },
        }
    }

    /// Validates raw settings into a configuration. A chain without a poll
    /// interval is reported as missing, one whose poll interval is zero or
    /// negative as invalid; the first such chain, in wiring order, decides.
    pub fn load(raw: &RawChainWatchConfig) -> (res: Result<ChainWatchConfig, ConfigError>)
        ensures
            res == Self::load_spec(*raw),
            res is Ok <==> forall|chain: Chains|
                (#[trigger] raw.poll_interval_of(chain)) matches Some(millis) && millis > 0,
            res matches Ok(config) ==> config.wf(),
    {
        let eth = match resolve_interval(Chains::ETH, raw.eth_node_poll_interval) {
            Ok(millis) => millis,
            Err(e) => {
                assert(!(raw.poll_interval_of(Chains::ETH) matches Some(millis) && millis > 0));
                return Err(e);
            },
        };
        let bnb = match resolve_interval(Chains::BNB, raw.bnb_node_poll_interval) {
            Ok(millis) => millis,
            Err(e) => {
                assert(!(raw.poll_interval_of(Chains::BNB) matches Some(millis) && millis > 0));
                return Err(e);
            },
        };
        Ok(
            ChainWatchConfig {
                confirmations_for_eth_event: raw.confirmations_for_eth_event,
                eth_node_poll_interval: eth,
                confirmations_for_bnb_event: raw.confirmations_for_bnb_event,
                bnb_node_poll_interval: bnb,
            },
        )
    }

    /// What `validate` answers: the first chain, in wiring order, whose poll
    /// interval is zero is reported.
    pub open spec fn validate_spec(&self) -> Result<(), ConfigError> {
        if self.eth_node_poll_interval == 0 {
            Err(ConfigError::Invalid(Chains::ETH))
        } else if self.bnb_node_poll_interval == 0 {
            Err(ConfigError::Invalid(Chains::BNB))
        } else {
            Ok(())
        }
    }

    /// Checks that every chain has a positive poll interval.
    pub fn validate(&self) -> (res: Result<(), ConfigError>)
        ensures
            res == self.validate_spec(),
            res is Ok <==> self.wf(),
    {
        if self.eth_node_poll_interval == 0 {
            assert(self.poll_interval_millis(Chains::ETH) == 0);
            Err(ConfigError::Invalid(Chains::ETH))
        } else if self.bnb_node_poll_interval == 0 {
            assert(self.poll_interval_millis(Chains::BNB) == 0);
            Err(ConfigError::Invalid(Chains::BNB))
        } else {
            Ok(())
        }
    }

    /// The confirmation depth of `chain`; `None` waits for finality.
    pub open spec fn confirmations_spec(&self, chain: Chains) -> Option<u64> {
        match chain {
            Chains::ETH => self.confirmations_for_eth_event,
            Chains::BNB => self.confirmations_for_bnb_event,
        }
    }

    /// The confirmation depth of `chain`; `None` waits for finality.
    pub fn confirmations(&self, chain: Chains) -> (depth: Option<u64>)
        ensures
            depth == self.confirmations_spec(chain),
    {
        match chain {
            Chains::ETH => self.confirmations_for_eth_event,
            Chains::BNB => self.confirmations_for_bnb_event,
        }
    }

    /// The configured poll interval of `chain`, in milliseconds.
    pub open spec fn poll_interval_millis(&self, chain: Chains) -> u64 {
        match chain {
            Chains::ETH => self.eth_node_poll_interval,
            Chains::BNB => self.bnb_node_poll_interval,
        }
    }

    /// The poll interval of `chain` as a `Duration`.
    pub fn poll_interval(&self, chain: Chains) -> (interval: Duration)
        ensures
            duration_nanos(interval) == self.poll_interval_millis(chain) as nat * nanos_per_milli(),
    {
        match chain {
            Chains::ETH => Duration::from_millis(self.eth_node_poll_interval),
            Chains::BNB => Duration::from_millis(self.bnb_node_poll_interval),
        }
    }
}

/// Loading is a function of the settings alone: equal settings load to equal
/// configurations, or are turned down with the same error.
pub proof fn lemma_load_is_repeatable(first: RawChainWatchConfig, second: RawChainWatchConfig)
    requires
        first == second,
    ensures
        ChainWatchConfig::load_spec(first) == ChainWatchConfig::load_spec(second),
{
}

/// A loaded configuration holds what the settings held: each chain's poll
/// interval and confirmation depth are that chain's own.
pub proof fn lemma_load_keeps_settings(raw: RawChainWatchConfig, chain: Chains)
    requires
        ChainWatchConfig::load_spec(raw) is Ok,
    ensures
        raw.poll_interval_of(chain) == Some(
            ChainWatchConfig::load_spec(raw)->Ok_0.poll_interval_millis(chain) as i64,
        ),
        ChainWatchConfig::load_spec(raw)->Ok_0.confirmations_spec(chain) == match chain {
            Chains::ETH => raw.confirmations_for_eth_event,
            Chains::BNB => raw.confirmations_for_bnb_event,
        },
{
}

} // verus!
