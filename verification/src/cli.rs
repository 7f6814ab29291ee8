//! The options that the client is started with.

use vstd::prelude::*;

verus! {

/// The options of the command line, as plain values.
#[derive(Debug, Clone, PartialEq, Eq)]
pub struct Args {
    /// The symbol to subscribe to, such as `SOL`, `BTC` or `ETH`.
    pub coin: String,
    /// The endpoint to connect to.
    pub url: String,
    /// The log level: `trace`, `debug`, `info`, `warn` or `error`.
    pub log_level: String,
    /// Write the logs as JSON.
    pub json_logs: bool,
    /// Serve metrics.
    pub metrics: bool,
    /// The port of the metrics server.
    pub metrics_port: u16,
    /// The connect timeout, in seconds.
    pub timeout: u64,
    /// The wait before a reconnect, in seconds.
    pub reconnect_delay: u64,
    /// The most reconnect attempts in a row; 0 for no limit.
    pub max_reconnects: u32,
    /// The interval of the health check, in seconds.
    pub health_check_interval: u64,
    /// Log each trade with its buyer and seller.
    pub verbose_trades: bool,
    /// The output format: `table`, `csv`, `json` or `minimal`.
    pub format: String,
    /// Write without colours.
    pub no_color: bool,
    /// Write each trade as CSV to the error stream as well.
    pub csv_export: bool,
    /// Write as little as possible.
    pub quiet: bool,
    /// Write prices only.
    pub price_only: bool,
    /// The most trades to show; 0 for no limit.
    pub max_trades: u64,
}

impl Args {
    /// These are the options of a client started with none given.
    pub open spec fn is_default(self) -> bool {
        &&& self.coin@ == "BTC"@
        &&& self.url@ == "wss://api.hyperliquid.xyz/ws"@
        &&& self.log_level@ == "info"@
        &&& !self.json_logs
        &&& !self.metrics
        &&& self.metrics_port == 9090
        &&& self.timeout == 30
        &&& self.reconnect_delay == 5
        &&& self.max_reconnects == 0
        &&& self.health_check_interval == 30
        &&& !self.verbose_trades
        &&& self.format@ == "table"@
        &&& !self.no_color
        &&& !self.csv_export
        &&& !self.quiet
        &&& !self.price_only
        &&& self.max_trades == 0
    }
}

impl Default for Args {
    fn default() -> (args: Self)
        ensures
            args.is_default(),
    {
        Args {
            coin: "BTC".to_owned(),
            url: "wss://api.hyperliquid.xyz/ws".to_owned(),
            log_level: "info".to_owned(),
            json_logs: false,
            metrics: false,
            metrics_port: 9090,
            timeout: 30,
            reconnect_delay: 5,
            max_reconnects: 0,
            health_check_interval: 30,
            verbose_trades: false,
            format: "table".to_owned(),
            no_color: false,
            csv_export: false,
            quiet: false,
            price_only: false,
            max_trades: 0,
        }
    }
}

} // verus!
