//! Command line and configuration.

use vstd::prelude::*;

use crate::model::Strategy;

verus! {

/// Ten shares.
pub const DEFAULT_SHARES: i64 = 10_000_000_000;

/// A pair price of 95 cents.
pub const DEFAULT_SUM_TARGET: i64 = 950_000_000;

/// A fall of 15 percent.
pub const DEFAULT_MOVE_THRESHOLD: i64 = 150_000_000;

/// Two minutes.
pub const DEFAULT_WINDOW_MINUTES: u64 = 2;

/// Five minutes.
pub const DEFAULT_STOP_LOSS_MAX_WAIT_MINUTES: u64 = 5;

/// Twenty percent.
pub const DEFAULT_STOP_LOSS_PERCENTAGE: i64 = 200_000_000;

/// What the command line says.
#[derive(Debug)]
pub struct Args {
    /// Trade on paper, whatever the configuration says.
    pub simulation: bool,
    /// Trade for real, whatever the configuration says.
    pub production: bool,
    /// The path of the configuration file.
    pub config: String,
}

/// The mode to run in: a flag wins over the configuration.
pub open spec fn resolved_mode(simulation: bool, production: bool, configured: bool) -> bool {
    !production && (simulation || configured)
}

impl Args {
    /// Whether to trade on paper.
    pub fn is_simulation(&self, config_simulation: bool) -> (r: bool)
        ensures
            r == resolved_mode(self.simulation, self.production, config_simulation),
            self.production ==> !r,
            self.simulation && !self.production ==> r,
            !self.simulation && !self.production ==> r == config_simulation,
    {
        if self.production {
            false
        } else if self.simulation {
            true
        } else {
            config_simulation
        }
    }
}

/// With a flag given, the mode does not depend on the configuration.
pub proof fn law_flags_override_the_configuration(
    simulation: bool,
    production: bool,
    configured: bool,
    otherwise: bool,
)
    requires
        simulation || production,
    ensures
        resolved_mode(simulation, production, configured) == resolved_mode(
            simulation,
            production,
            otherwise,
        ),
{
}

/// The whole configuration.
#[derive(Clone, Debug)]
pub struct Config {
    pub polymarket: PolymarketConfig,
    pub trading: TradingConfig,
}

/// How to reach the exchange.
#[derive(Clone, Debug)]
pub struct PolymarketConfig {
    pub gamma_api_url: String,
    pub clob_api_url: String,
    pub api_key: Option<String>,
    pub api_secret: Option<String>,
    pub api_passphrase: Option<String>,
    pub private_key: Option<String>,
    pub proxy_wallet_address: Option<String>,
    pub signature_type: Option<u8>,
}

/// What to trade, and how. Amounts and ratios are in billionths.
#[derive(Clone, Debug)]
pub struct TradingConfig {
    /// When true (default), no orders and no redemptions are sent.
    pub simulation: bool,
    pub check_interval_ms: u64,
    pub market_closure_check_interval_seconds: u64,
    pub data_source: String,
    pub markets: Vec<String>,
    pub dump_hedge_shares: Option<i64>,
    pub dump_hedge_sum_target: Option<i64>,
    pub dump_hedge_move_threshold: Option<i64>,
    pub dump_hedge_window_minutes: Option<u64>,
    pub dump_hedge_stop_loss_max_wait_minutes: Option<u64>,
    pub dump_hedge_stop_loss_percentage: Option<i64>,
}

/// Why trading cannot begin.
#[derive(Clone, Copy, Debug, PartialEq, Eq, Structural)]
pub enum StartupError {
    /// The configuration names no market.
    NoMarketsConfigured,
    /// None of the configured markets was found.
    NoValidMarkets,
}

/// The mode where the configuration leaves it out.
pub fn default_simulation() -> (r: bool)
    ensures
        r,
{
    true
}

/// The seconds between closure checks where the configuration leaves them out.
pub fn default_market_closure_check_interval() -> (r: u64)
    ensures
        r == 20,
{
    20
}

/// The data source where the configuration leaves it out.
pub fn default_data_source() -> (r: String)
    ensures
        r@ == "api"@,
{
    "api".to_string()
}

/// The markets where the configuration leaves them out.
pub fn default_markets() -> (r: Vec<String>)
    ensures
        r@.len() == 1,
        r@[0]@ == "btc"@,
{
    vec!["btc".to_string()]
}

impl Config {
    /// Whether this is the configuration that a new installation starts with.
    pub open spec fn is_default(self) -> bool {
        let p = self.polymarket;
        let t = self.trading;
        &&& p.gamma_api_url@ == "https://gamma-api.polymarket.com"@
        &&& p.clob_api_url@ == "https://clob.polymarket.com"@
        &&& p.api_key is None
        &&& p.api_secret is None
        &&& p.api_passphrase is None
        &&& p.private_key is None
        &&& p.proxy_wallet_address is None
        &&& p.signature_type is None
        &&& t.simulation
        &&& t.check_interval_ms == 1000
        &&& t.market_closure_check_interval_seconds == 20
        &&& t.data_source@ == "api"@
        &&& t.markets@.len() == 1
        &&& t.markets@[0]@ == "btc"@
        &&& t.dump_hedge_shares == Some(DEFAULT_SHARES)
        &&& t.dump_hedge_sum_target == Some(DEFAULT_SUM_TARGET)
        &&& t.dump_hedge_move_threshold == Some(DEFAULT_MOVE_THRESHOLD)
        &&& t.dump_hedge_window_minutes == Some(DEFAULT_WINDOW_MINUTES)
        &&& t.dump_hedge_stop_loss_max_wait_minutes == Some(DEFAULT_STOP_LOSS_MAX_WAIT_MINUTES)
        &&& t.dump_hedge_stop_loss_percentage == Some(DEFAULT_STOP_LOSS_PERCENTAGE)
    }

    /// The configuration to run with: the stored one, or else the default, which is
    /// then to be stored.
    pub fn load(stored: Option<Config>) -> (r: (Config, bool))
        ensures
            match stored {
                Some(config) => r == (config, false),
                None => r.0.is_default() && r.1,
            },
    {
        match stored {
            Some(config) => (config, false),
            None => (Config::default(), true),
        }
    }
}

impl Default for Config {
    fn default() -> (r: Config)
        ensures
            r.is_default(),
    {
        Config {
            polymarket: PolymarketConfig {
                gamma_api_url: "https://gamma-api.polymarket.com".to_string(),
                clob_api_url: "https://clob.polymarket.com".to_string(),
                api_key: None,
                api_secret: None,
                api_passphrase: None,
                private_key: None,
                proxy_wallet_address: None,
                signature_type: None,
            },
            trading: TradingConfig {
                simulation: default_simulation(),
                check_interval_ms: 1000,
                market_closure_check_interval_seconds: default_market_closure_check_interval(),
                data_source: default_data_source(),
                markets: default_markets(),
                dump_hedge_shares: Some(DEFAULT_SHARES),
                dump_hedge_sum_target: Some(DEFAULT_SUM_TARGET),
                dump_hedge_move_threshold: Some(DEFAULT_MOVE_THRESHOLD),
                dump_hedge_window_minutes: Some(DEFAULT_WINDOW_MINUTES),
                dump_hedge_stop_loss_max_wait_minutes: Some(DEFAULT_STOP_LOSS_MAX_WAIT_MINUTES),
                dump_hedge_stop_loss_percentage: Some(DEFAULT_STOP_LOSS_PERCENTAGE),
            },
        }
    }
}

impl TradingConfig {
    /// The settings of the strategy, each with its default where it is left out.
    pub open spec fn settings(self) -> Strategy {
        Strategy {
            shares: self.dump_hedge_shares.unwrap_or(DEFAULT_SHARES),
            sum_target: self.dump_hedge_sum_target.unwrap_or(DEFAULT_SUM_TARGET),
            move_threshold: self.dump_hedge_move_threshold.unwrap_or(DEFAULT_MOVE_THRESHOLD),
            window_minutes: self.dump_hedge_window_minutes.unwrap_or(DEFAULT_WINDOW_MINUTES),
            stop_loss_max_wait_minutes: self.dump_hedge_stop_loss_max_wait_minutes.unwrap_or(
                DEFAULT_STOP_LOSS_MAX_WAIT_MINUTES,
            ),
            stop_loss_percentage: self.dump_hedge_stop_loss_percentage.unwrap_or(
                DEFAULT_STOP_LOSS_PERCENTAGE,
            ),
        }
    }

    /// The settings of the strategy. Without a market there is nothing to trade.
    pub fn strategy(&self) -> (r: Result<Strategy, StartupError>)
        ensures
            match r {
                Ok(strategy) => self.markets@.len() > 0 && strategy == self.settings(),
                Err(e) => self.markets@.len() == 0 && e == StartupError::NoMarketsConfigured,
            },
    {
        if self.markets.is_empty() {
            return Err(StartupError::NoMarketsConfigured);
        }
        Ok(
            Strategy {
                shares: self.dump_hedge_shares.unwrap_or(DEFAULT_SHARES),
                sum_target: self.dump_hedge_sum_target.unwrap_or(DEFAULT_SUM_TARGET),
                move_threshold: self.dump_hedge_move_threshold.unwrap_or(DEFAULT_MOVE_THRESHOLD),
                window_minutes: self.dump_hedge_window_minutes.unwrap_or(DEFAULT_WINDOW_MINUTES),
                stop_loss_max_wait_minutes: self.dump_hedge_stop_loss_max_wait_minutes.unwrap_or(
                    DEFAULT_STOP_LOSS_MAX_WAIT_MINUTES,
                ),
                stop_loss_percentage: self.dump_hedge_stop_loss_percentage.unwrap_or(
                    DEFAULT_STOP_LOSS_PERCENTAGE,
                ),
            },
        )
    }
}

/// Whether the bot can run with the number of markets that were found.
pub fn check_monitored(count: usize) -> (r: Result<(), StartupError>)
    ensures
        r == if count == 0 {
            Err::<(), StartupError>(StartupError::NoValidMarkets)
        } else {
            Ok(())
        },
{
    if count == 0 {
        Err(StartupError::NoValidMarkets)
    } else {
        Ok(())
    }
}

/// A flag decides the mode, `--production` before `--simulation`; without one the
/// configuration does.
pub proof fn law_what_decides_the_mode(simulation: bool, production: bool, configured: bool)
    ensures
        production ==> !resolved_mode(simulation, production, configured),
        simulation && !production ==> resolved_mode(simulation, production, configured),
        !simulation && !production ==> resolved_mode(simulation, production, configured)
            == configured,
{
}

/// Each setting is the configured one, or else: ten shares, a target of 0.95, a threshold
/// of 0.15, a window of two minutes, a wait of five and a percentage of 0.20.
pub proof fn law_settings_are_configured_or_default(config: TradingConfig)
    ensures
        ({
            let s = config.settings();
            &&& config.dump_hedge_shares is Some ==> s.shares == config.dump_hedge_shares->0
            &&& config.dump_hedge_shares is None ==> s.shares == 10_000_000_000
            &&& config.dump_hedge_sum_target is Some ==> s.sum_target
                == config.dump_hedge_sum_target->0
            &&& config.dump_hedge_sum_target is None ==> s.sum_target == 950_000_000
            &&& config.dump_hedge_move_threshold is Some ==> s.move_threshold
                == config.dump_hedge_move_threshold->0
            &&& config.dump_hedge_move_threshold is None ==> s.move_threshold == 150_000_000
            &&& config.dump_hedge_window_minutes is Some ==> s.window_minutes
                == config.dump_hedge_window_minutes->0
            &&& config.dump_hedge_window_minutes is None ==> s.window_minutes == 2
            &&& config.dump_hedge_stop_loss_max_wait_minutes is Some
                ==> s.stop_loss_max_wait_minutes
                == config.dump_hedge_stop_loss_max_wait_minutes->0
            &&& config.dump_hedge_stop_loss_max_wait_minutes is None
                ==> s.stop_loss_max_wait_minutes == 5
            &&& config.dump_hedge_stop_loss_percentage is Some ==> s.stop_loss_percentage
                == config.dump_hedge_stop_loss_percentage->0
            &&& config.dump_hedge_stop_loss_percentage is None ==> s.stop_loss_percentage
                == 200_000_000
        }),
{
}

/// A new installation trades Bitcoin on paper, without credentials, with the settings that
/// hold where none are configured.
pub proof fn law_a_new_installation_trades_on_paper(config: Config)
    requires
        config.is_default(),
    ensures
        config.trading.simulation,
        config.polymarket.gamma_api_url@ == "https://gamma-api.polymarket.com"@,
        config.polymarket.clob_api_url@ == "https://clob.polymarket.com"@,
        config.polymarket.api_key is None,
        config.polymarket.api_secret is None,
        config.polymarket.api_passphrase is None,
        config.polymarket.private_key is None,
        config.polymarket.proxy_wallet_address is None,
        config.polymarket.signature_type is None,
        config.trading.check_interval_ms == 1000,
        config.trading.market_closure_check_interval_seconds == 20,
        config.trading.data_source@ == seq!['a', 'p', 'i'],
        config.trading.markets@.len() == 1,
        config.trading.markets@[0]@ == seq!['b', 't', 'c'],
        config.trading.dump_hedge_shares == Some(10_000_000_000i64),
        config.trading.dump_hedge_sum_target == Some(950_000_000i64),
        config.trading.dump_hedge_move_threshold == Some(150_000_000i64),
        config.trading.dump_hedge_window_minutes == Some(2u64),
        config.trading.dump_hedge_stop_loss_max_wait_minutes == Some(5u64),
        config.trading.dump_hedge_stop_loss_percentage == Some(200_000_000i64),
        !resolved_mode(false, true, config.trading.simulation),
        resolved_mode(false, false, config.trading.simulation),
{
    reveal_strlit("api");
    reveal_strlit("btc");
    assert("api"@ =~= seq!['a', 'p', 'i']);
    assert("btc"@ =~= seq!['b', 't', 'c']);
}

} // verus!
