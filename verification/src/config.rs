//! The configuration of the client, made from its options.

use crate::cli::Args;
use crate::error::HyperliquidError;
use crate::policy::ReconnectPolicy;
use crate::session::SessionConfig;
use vstd::prelude::*;

verus! {

#[derive(Debug, Clone, PartialEq, Eq)]
pub struct WebSocketConfig {
    /// The endpoint, as the URL parser writes it back.
    pub url: String,
    /// The connect timeout, in seconds.
    pub timeout_secs: u64,
    /// The wait before a reconnect, in seconds.
    pub reconnect_delay_secs: u64,
    /// The most reconnect attempts in a row; 0 for no limit.
    pub max_reconnects: u32,
}

#[derive(Debug, Clone, PartialEq, Eq)]
pub struct SubscriptionConfig {
    pub coin: String,
    pub subscription_type: String,
}

#[derive(Debug, Clone, Copy, PartialEq, Eq, Structural)]
pub struct MetricsConfig {
    pub enabled: bool,
    pub port: u16,
}

#[derive(Debug, Clone, Copy, PartialEq, Eq, Structural)]
pub struct HealthConfig {
    /// The interval of the health check, in seconds.
    pub check_interval_secs: u64,
}

#[derive(Debug, Clone, Copy, PartialEq, Eq, Structural)]
pub struct LoggingConfig {
    pub verbose_trades: bool,
}

#[derive(Debug, Clone, PartialEq, Eq)]
pub struct Config {
    pub websocket: WebSocketConfig,
    pub subscription: SubscriptionConfig,
    pub metrics: MetricsConfig,
    pub health: HealthConfig,
    pub logging: LoggingConfig,
}

/// `url::ParseError`, the error of the URL parser.
#[verifier::external_type_specification]
#[verifier::external_body]
pub struct ExParseError(url::ParseError);

/// What `url::Url::parse` makes of a text: the URL it reads, written back as
/// text, or `None` where it reports an error.
pub uninterp spec fn parsed_url(text: Seq<char>) -> Option<Seq<char>>;

/// Calls `url::Url::parse` and takes the text of the URL out of the result.
/// The contract names the outcome and says nothing of which texts are URLs.
#[verifier::external_body]
fn parse_url(text: &str) -> (outcome: Result<String, url::ParseError>)
    ensures
        match outcome {
            Ok(url) => parsed_url(text@) == Some(url@),
            Err(_) => parsed_url(text@) is None,
        },
{
    url::Url::parse(text).map(String::from)
}

/// Writes a `url::ParseError` out through its `Display`. Nothing is promised
/// of the words.
#[verifier::external_body]
fn url_error_text(error: &url::ParseError) -> (text: String) {
    error.to_string()
}

impl Config {
    /// The configuration holds what `args` and the URL `url` say: the
    /// channel is `trades`, everything else is taken over as it is.
    pub open spec fn is_made_from(self, args: Args, url: Seq<char>) -> bool {
        &&& self.websocket.url@ == url
        &&& self.websocket.timeout_secs == args.timeout
        &&& self.websocket.reconnect_delay_secs == args.reconnect_delay
        &&& self.websocket.max_reconnects == args.max_reconnects
        &&& self.subscription.coin@ == args.coin@
        &&& self.subscription.subscription_type@ == "trades"@
        &&& self.metrics == (MetricsConfig { enabled: args.metrics, port: args.metrics_port })
        &&& self.health == (HealthConfig { check_interval_secs: args.health_check_interval })
        &&& self.logging == (LoggingConfig { verbose_trades: args.verbose_trades })
    }

    /// The configuration for `args`, once its URL has been read.
    pub fn from_parts(args: &Args, url: String) -> (config: Config)
        ensures
            config.is_made_from(*args, url@),
    {
        Config {
            websocket: WebSocketConfig {
                url,
                timeout_secs: args.timeout,
                reconnect_delay_secs: args.reconnect_delay,
                max_reconnects: args.max_reconnects,
            },
            subscription: SubscriptionConfig {
                coin: args.coin.clone(),
                subscription_type: "trades".to_owned(),
            },
            metrics: MetricsConfig { enabled: args.metrics, port: args.metrics_port },
            health: HealthConfig { check_interval_secs: args.health_check_interval },
            logging: LoggingConfig { verbose_trades: args.verbose_trades },
        }
    }

    /// The configuration for `args`. It fails, with a URL error, exactly
    /// where the URL parser does not read the endpoint.
    pub fn from_args(args: &Args) -> (outcome: Result<Config, HyperliquidError>)
        ensures
            match outcome {
                Ok(config) => parsed_url(args.url@) is Some && config.is_made_from(
                    *args,
                    parsed_url(args.url@)->0,
                ),
                Err(error) => parsed_url(args.url@) is None && error is UrlError,
            },
    {
        match parse_url(args.url.as_str()) {
            Ok(url) => Ok(Self::from_parts(args, url)),
            Err(error) => Err(HyperliquidError::UrlError(url_error_text(&error))),
        }
    }

    /// The configuration of the session that this client runs.
    pub fn session_config(&self) -> (session: SessionConfig)
        ensures
            session.url@ == self.websocket.url@,
            session.coin@ == self.subscription.coin@,
            session.timeout_secs == self.websocket.timeout_secs,
            session.policy == (ReconnectPolicy {
                max_attempts: self.websocket.max_reconnects,
                base_delay_secs: self.websocket.reconnect_delay_secs,
            }),
            session.check_interval_secs == self.health.check_interval_secs,
    {
        SessionConfig {
            url: self.websocket.url.clone(),
            coin: self.subscription.coin.clone(),
            timeout_secs: self.websocket.timeout_secs,
            policy: ReconnectPolicy::new(
                self.websocket.max_reconnects,
                self.websocket.reconnect_delay_secs,
            ),
            check_interval_secs: self.health.check_interval_secs,
        }
    }
}

} // verus!
