use polymarket_arbitrage_bot::config::{
    check_monitored, default_data_source, default_market_closure_check_interval, default_markets,
    default_simulation, Args, Config, StartupError,
};
use polymarket_arbitrage_bot::discovery::{
    discover_btc_15m_market, discover_market, discover_market_for_asset, is_tradable, market_slug,
    slug_prefix, DiscoveryError, MarketListing, SearchStep,
};
use polymarket_arbitrage_bot::model::Strategy;
use polymarket_arbitrage_bot::schedule::{
    after_discovery, current_period, seconds_to_next_period, FollowUp, PeriodWatcher, WakeAction,
};
use polymarket_arbitrage_bot::text::{decimal_text, equals_ignoring_case};
use polymarket_arbitrage_bot::units::ONE;

fn args(simulation: bool, production: bool) -> Args {
    Args { simulation, production, config: "config.json".to_string() }
}

fn listing(id: &str, active: bool, closed: bool) -> Option<MarketListing> {
    Some(MarketListing { condition_id: id.to_string(), active, closed })
}

#[test]
fn mode_flags_win_over_the_configuration() {
    for configured in [true, false] {
        assert!(!args(false, true).is_simulation(configured));
        assert!(args(true, false).is_simulation(configured));
        assert!(!args(true, true).is_simulation(configured));
        assert_eq!(args(false, false).is_simulation(configured), configured);
    }
}

#[test]
fn defaults() {
    assert!(default_simulation());
    assert_eq!(default_market_closure_check_interval(), 20);
    assert_eq!(default_data_source(), "api");
    assert_eq!(default_markets(), vec!["btc".to_string()]);
}

#[test]
fn default_configuration() {
    let c = Config::default();
    assert_eq!(c.polymarket.gamma_api_url, "https://gamma-api.polymarket.com");
    assert_eq!(c.polymarket.clob_api_url, "https://clob.polymarket.com");
    assert_eq!(c.polymarket.api_key, None);
    assert_eq!(c.polymarket.private_key, None);
    assert_eq!(c.polymarket.signature_type, None);
    assert!(c.trading.simulation);
    assert_eq!(c.trading.check_interval_ms, 1000);
    assert_eq!(c.trading.market_closure_check_interval_seconds, 20);
    assert_eq!(c.trading.data_source, "api");
    assert_eq!(c.trading.markets, vec!["btc".to_string()]);
    assert_eq!(c.trading.dump_hedge_shares, Some(10 * ONE));
    assert_eq!(c.trading.dump_hedge_sum_target, Some(950_000_000));
    assert_eq!(c.trading.dump_hedge_move_threshold, Some(150_000_000));
    assert_eq!(c.trading.dump_hedge_window_minutes, Some(2));
    assert_eq!(c.trading.dump_hedge_stop_loss_max_wait_minutes, Some(5));
    assert_eq!(c.trading.dump_hedge_stop_loss_percentage, Some(200_000_000));
}

#[test]
fn missing_configuration_is_created() {
    let (config, store) = Config::load(None);
    assert!(store);
    assert!(config.trading.simulation);
    let mut stored = Config::default();
    stored.trading.simulation = false;
    stored.trading.check_interval_ms = 7;
    let (config, store) = Config::load(Some(stored));
    assert!(!store);
    assert!(!config.trading.simulation);
    assert_eq!(config.trading.check_interval_ms, 7);
}

#[test]
fn strategy_settings() {
    let mut trading = Config::default().trading;
    trading.dump_hedge_shares = None;
    trading.dump_hedge_sum_target = None;
    trading.dump_hedge_move_threshold = None;
    trading.dump_hedge_window_minutes = None;
    trading.dump_hedge_stop_loss_max_wait_minutes = None;
    trading.dump_hedge_stop_loss_percentage = None;
    let defaults = Strategy {
        shares: 10 * ONE,
        sum_target: 950_000_000,
        move_threshold: 150_000_000,
        window_minutes: 2,
        stop_loss_max_wait_minutes: 5,
        stop_loss_percentage: 200_000_000,
    };
    assert_eq!(trading.strategy(), Ok(defaults));
    trading.dump_hedge_shares = Some(1);
    trading.dump_hedge_sum_target = Some(2);
    trading.dump_hedge_move_threshold = Some(3);
    trading.dump_hedge_window_minutes = Some(4);
    trading.dump_hedge_stop_loss_max_wait_minutes = Some(6);
    trading.dump_hedge_stop_loss_percentage = Some(7);
    assert_eq!(
        trading.strategy(),
        Ok(Strategy {
            shares: 1,
            sum_target: 2,
            move_threshold: 3,
            window_minutes: 4,
            stop_loss_max_wait_minutes: 6,
            stop_loss_percentage: 7,
        })
    );
}

#[test]
fn markets_are_needed() {
    let mut trading = Config::default().trading;
    trading.markets = vec![];
    assert_eq!(trading.strategy(), Err(StartupError::NoMarketsConfigured));
    assert_eq!(check_monitored(0), Err(StartupError::NoValidMarkets));
    assert_eq!(check_monitored(1), Ok(()));
}

#[test]
fn supported_assets() {
    assert_eq!(slug_prefix("btc"), Some("btc"));
    assert_eq!(slug_prefix("BTC"), Some("btc"));
    assert_eq!(slug_prefix("Eth"), Some("eth"));
    assert_eq!(slug_prefix("sOL"), Some("sol"));
    assert_eq!(slug_prefix("XRP"), Some("xrp"));
    assert_eq!(slug_prefix("doge"), None);
    assert_eq!(slug_prefix("btc "), None);
    assert_eq!(slug_prefix(""), None);
    assert_eq!(slug_prefix("bt\u{0421}"), None);
}

#[test]
fn case_is_ignored_as_in_lower_case() {
    for text in ["BTC", "btc", "B\u{212A}", "\u{0130}", "[TC", "@tc", "xrp", "xr", "{rp"] {
        for name in ["btc", "eth", "sol", "xrp"] {
            assert_eq!(equals_ignoring_case(text, name), text.to_lowercase() == name);
        }
    }
}

#[test]
fn numbers_in_decimal() {
    for n in [0, 7, 10, 99, 100, 1_700_000_100, u64::MAX] {
        assert_eq!(decimal_text(n), n.to_string());
    }
}

#[test]
fn slugs() {
    assert_eq!(market_slug("btc", 1_700_000_100), "btc-updown-15m-1700000100");
    assert_ne!(market_slug("btc", 1_700_000_100), market_slug("btc", 1_700_001_000));
}

#[test]
fn rounds() {
    assert_eq!(current_period(0), 0);
    assert_eq!(current_period(899), 0);
    assert_eq!(current_period(900), 900);
    assert_eq!(current_period(1_700_000_123), 1_700_000_100);
}

#[test]
fn searches_for_unsupported_markets() {
    assert_eq!(
        discover_market_for_asset("doge", 5000).unwrap_err(),
        DiscoveryError::UnsupportedAsset
    );
    assert_eq!(discover_market("btc", 5, 5000).unwrap_err(), DiscoveryError::UnsupportedDuration);
}

#[test]
fn search_goes_back_three_rounds() {
    let mut search = discover_market_for_asset("ETH", 1_700_000_123).unwrap();
    let seen: Vec<String> = vec![];
    assert_eq!(search.slug(), "eth-updown-15m-1700000100");
    assert_eq!(search.answer(&None, &seen), SearchStep::TryPrevious);
    assert_eq!(search.slug(), "eth-updown-15m-1699999200");
    assert_eq!(search.answer(&listing("a", false, false), &seen), SearchStep::TryPrevious);
    assert_eq!(search.slug(), "eth-updown-15m-1699998300");
    assert_eq!(search.answer(&listing("a", true, true), &seen), SearchStep::TryPrevious);
    assert_eq!(search.slug(), "eth-updown-15m-1699997400");
    assert_eq!(search.answer(&None, &seen), SearchStep::NotFound);
}

#[test]
fn search_ends_at_the_first_tradable_market() {
    let mut search = discover_btc_15m_market(1_700_000_123).unwrap();
    let seen: Vec<String> = vec!["known".to_string()];
    assert_eq!(search.slug(), "btc-updown-15m-1700000100");
    assert_eq!(search.answer(&listing("known", true, false), &seen), SearchStep::TryPrevious);
    assert_eq!(search.answer(&listing("new", true, false), &seen), SearchStep::Found);
    assert_eq!(search.slug(), "btc-updown-15m-1699999200");
}

#[test]
fn searches_near_the_beginning_of_time() {
    let search = discover_btc_15m_market(899).unwrap();
    assert!(!search.has_previous());
    let search = discover_btc_15m_market(900).unwrap();
    assert!(search.has_previous());
}

#[test]
fn tradable_markets() {
    let seen: Vec<String> = vec!["known".to_string()];
    assert!(is_tradable(&listing("new", true, false), &seen));
    assert!(!is_tradable(&listing("known", true, false), &seen));
    assert!(!is_tradable(&listing("new", false, false), &seen));
    assert!(!is_tradable(&listing("new", true, true), &seen));
    assert!(!is_tradable(&None, &seen));
}

#[test]
fn sleep_to_the_next_round() {
    assert_eq!(seconds_to_next_period(900, 1000), 800);
    assert_eq!(seconds_to_next_period(900, 1800), 0);
    assert_eq!(seconds_to_next_period(900, 5000), 0);
}

#[test]
fn each_round_is_handled_once() {
    let mut w = PeriodWatcher::new();
    assert_eq!(w.wake(1805), WakeAction::Discover { period: 1800 });
    assert_eq!(w.wake(2699), WakeAction::Wait { seconds: 5 });
    assert_eq!(w.wake(2700), WakeAction::Discover { period: 2700 });
}

#[test]
fn after_a_search() {
    assert_eq!(after_discovery(true, true), FollowUp::ResetTrader);
    assert_eq!(after_discovery(true, false), FollowUp::Continue);
    assert_eq!(after_discovery(false, false), FollowUp::Wait { seconds: 10 });
}
