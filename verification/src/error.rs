//! The failures that the client reports.

use vstd::prelude::*;
use vstd::string::*;

verus! {

/// Why a session, or the client, failed. Failures of the transport and of
/// other collaborators are carried as their text.
#[derive(Debug, Clone, PartialEq, Eq)]
pub enum HyperliquidError {
    WebSocketError(String),
    SerdeError(String),
    UrlError(String),
    IoError(String),
    Timeout,
    ConnectionClosed,
    SubscriptionFailed { message: String },
    HealthCheckFailed { reason: String },
    MaxReconnectsExceeded,
    InvalidMessage(String),
    MetricsError(String),
}

/// The mathematical model of a [`HyperliquidError`].
pub enum HyperliquidErrorModel {
    WebSocketError(Seq<char>),
    SerdeError(Seq<char>),
    UrlError(Seq<char>),
    IoError(Seq<char>),
    Timeout,
    ConnectionClosed,
    SubscriptionFailed { message: Seq<char> },
    HealthCheckFailed { reason: Seq<char> },
    MaxReconnectsExceeded,
    InvalidMessage(Seq<char>),
    MetricsError(Seq<char>),
}

impl DeepView for HyperliquidError {
    type V = HyperliquidErrorModel;

    open spec fn deep_view(&self) -> HyperliquidErrorModel {
        match self {
            HyperliquidError::WebSocketError(s) => HyperliquidErrorModel::WebSocketError(s@),
            HyperliquidError::SerdeError(s) => HyperliquidErrorModel::SerdeError(s@),
            HyperliquidError::UrlError(s) => HyperliquidErrorModel::UrlError(s@),
            HyperliquidError::IoError(s) => HyperliquidErrorModel::IoError(s@),
            HyperliquidError::Timeout => HyperliquidErrorModel::Timeout,
            HyperliquidError::ConnectionClosed => HyperliquidErrorModel::ConnectionClosed,
            HyperliquidError::SubscriptionFailed { message } => {
                HyperliquidErrorModel::SubscriptionFailed { message: message@ }
            },
            HyperliquidError::HealthCheckFailed { reason } => {
                HyperliquidErrorModel::HealthCheckFailed { reason: reason@ }
            },
            HyperliquidError::MaxReconnectsExceeded => HyperliquidErrorModel::MaxReconnectsExceeded,
            HyperliquidError::InvalidMessage(s) => HyperliquidErrorModel::InvalidMessage(s@),
            HyperliquidError::MetricsError(s) => HyperliquidErrorModel::MetricsError(s@),
        }
    }
}

impl HyperliquidErrorModel {
    /// The failure ends the client for good: no reconnect follows it.
    pub open spec fn is_terminal(self) -> bool {
        self is MaxReconnectsExceeded
    }

    /// The failure in words.
    pub open spec fn message(self) -> Seq<char> {
        match self {
            HyperliquidErrorModel::WebSocketError(s) => "WebSocket connection error: "@ + s,
            HyperliquidErrorModel::SerdeError(s) => "JSON serialization/deserialization error: "@
                + s,
            HyperliquidErrorModel::UrlError(s) => "URL parsing error: "@ + s,
            HyperliquidErrorModel::IoError(s) => "IO error: "@ + s,
            HyperliquidErrorModel::Timeout => "Connection timeout"@,
            HyperliquidErrorModel::ConnectionClosed => "Connection closed unexpectedly"@,
            HyperliquidErrorModel::SubscriptionFailed { message } => "Subscription failed: "@
                + message,
            HyperliquidErrorModel::HealthCheckFailed { reason } => "Health check failed: "@
                + reason,
            HyperliquidErrorModel::MaxReconnectsExceeded => {
                "Maximum reconnection attempts exceeded"@
            },
            HyperliquidErrorModel::InvalidMessage(s) => "Invalid message format: "@ + s,
            HyperliquidErrorModel::MetricsError(s) => "Metrics server error: "@ + s,
        }
    }
}

fn prefixed(prefix: &str, detail: &String) -> (text: String)
    ensures
        text@ == prefix@ + detail@,
{
    let mut text = prefix.to_owned();
    text.append(detail.as_str());
    text
}

impl HyperliquidError {
    /// Whether the failure ends the client for good.
    pub fn is_terminal(&self) -> (terminal: bool)
        ensures
            terminal == self.deep_view().is_terminal(),
    {
        match self {
            HyperliquidError::MaxReconnectsExceeded => true,
            _ => false,
        }
    }

    /// The failure in words.
    pub fn message(&self) -> (text: String)
        ensures
            text@ == self.deep_view().message(),
    {
        match self {
            HyperliquidError::WebSocketError(s) => prefixed("WebSocket connection error: ", s),
            HyperliquidError::SerdeError(s) => prefixed(
                "JSON serialization/deserialization error: ",
                s,
            ),
            HyperliquidError::UrlError(s) => prefixed("URL parsing error: ", s),
            HyperliquidError::IoError(s) => prefixed("IO error: ", s),
            HyperliquidError::Timeout => "Connection timeout".to_owned(),
            HyperliquidError::ConnectionClosed => "Connection closed unexpectedly".to_owned(),
            HyperliquidError::SubscriptionFailed { message } => prefixed(
                "Subscription failed: ",
                message,
            ),
            HyperliquidError::HealthCheckFailed { reason } => prefixed(
                "Health check failed: ",
                reason,
            ),
            HyperliquidError::MaxReconnectsExceeded => {
                "Maximum reconnection attempts exceeded".to_owned()
            },
            HyperliquidError::InvalidMessage(s) => prefixed("Invalid message format: ", s),
            HyperliquidError::MetricsError(s) => prefixed("Metrics server error: ", s),
        }
    }
}

} // verus!
