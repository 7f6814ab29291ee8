//! The health report of the client.

use crate::json::{JsonModel, JsonNumber, JsonValue, NumberModel};
use crate::timestamp::{format_utc_millis, utc_timestamp_text};
use vstd::prelude::*;

verus! {

/// The health status of the client as it is reported.
#[derive(Debug, Clone, PartialEq, Eq)]
pub struct HealthStatus {
    pub is_healthy: bool,
    /// When the last message came in, in milliseconds since the Unix epoch.
    pub last_message_time: Option<i64>,
    pub total_messages: u64,
    pub total_trades: u64,
    pub reconnect_count: u64,
    pub uptime_seconds: i64,
}

/// An unsigned integer as a JSON number.
pub open spec fn unsigned_number(value: u64) -> JsonModel {
    JsonModel::Number(NumberModel::Unsigned(value))
}

/// A signed integer as a JSON number.
pub open spec fn signed_number(value: i64) -> JsonModel {
    JsonModel::Number(
        if value < 0 {
            NumberModel::Negative(value)
        } else {
            NumberModel::Unsigned(value as u64)
        },
    )
}

/// A time as a JSON string, or null where there is no text for it.
pub open spec fn time_or_null(text: Option<Seq<char>>) -> JsonModel {
    match text {
        Some(text) => JsonModel::Text(text),
        None => JsonModel::Null,
    }
}

impl HealthStatus {
    /// The word under `status` in the report.
    pub open spec fn status_word(self) -> Seq<char> {
        if self.is_healthy {
            "healthy"@
        } else {
            "unhealthy"@
        }
    }

    /// The health report, given the text of the last message time and of the
    /// time of the report: a JSON object, its members in the order of their
    /// names.
    pub open spec fn report(
        self,
        last_message: Option<Seq<char>>,
        now: Option<Seq<char>>,
    ) -> JsonModel {
        JsonModel::Object(
            seq![
                ("last_message_time"@, time_or_null(last_message)),
                ("reconnect_count"@, unsigned_number(self.reconnect_count)),
                ("status"@, JsonModel::Text(self.status_word())),
                ("timestamp"@, time_or_null(now)),
                ("total_messages"@, unsigned_number(self.total_messages)),
                ("total_trades"@, unsigned_number(self.total_trades)),
                ("uptime_seconds"@, signed_number(self.uptime_seconds)),
            ],
        )
    }

    /// The text of the last message time: none where no message has come in
    /// or the time has no date.
    pub open spec fn last_message_text(self) -> Option<Seq<char>> {
        match self.last_message_time {
            Some(millis) => utc_timestamp_text(millis as int),
            None => None,
        }
    }

    /// The status of a client that has not run yet.
    pub fn new() -> (status: Self)
        ensures
            status == (HealthStatus {
                is_healthy: false,
                last_message_time: None,
                total_messages: 0,
                total_trades: 0,
                reconnect_count: 0,
                uptime_seconds: 0,
            }),
    {
        HealthStatus {
            is_healthy: false,
            last_message_time: None,
            total_messages: 0,
            total_trades: 0,
            reconnect_count: 0,
            uptime_seconds: 0,
        }
    }

    /// The health report as a JSON document, with the times already written
    /// out as text.
    pub fn to_json_with(&self, last_message: Option<String>, now: Option<String>) -> (report:
        JsonValue)
        ensures
            report.deep_view() == self.report(last_message.deep_view(), now.deep_view()),
    {
        let mut members: Vec<(String, JsonValue)> = Vec::new();
        members.push(("last_message_time".to_owned(), time_value(last_message)));
        members.push(("reconnect_count".to_owned(), count_value(self.reconnect_count)));
        members.push(
            (
                "status".to_owned(),
                JsonValue::Text(
                    if self.is_healthy {
                        "healthy".to_owned()
                    } else {
                        "unhealthy".to_owned()
                    },
                ),
            ),
        );
        members.push(("timestamp".to_owned(), time_value(now)));
        members.push(("total_messages".to_owned(), count_value(self.total_messages)));
        members.push(("total_trades".to_owned(), count_value(self.total_trades)));
        members.push(
            (
                "uptime_seconds".to_owned(),
                JsonValue::Number(
                    if self.uptime_seconds < 0 {
                        JsonNumber::Negative(self.uptime_seconds)
                    } else {
                        JsonNumber::Unsigned(self.uptime_seconds as u64)
                    },
                ),
            ),
        );
        let report = JsonValue::Object(members);
        proof {
            reveal_with_fuel(<JsonValue as DeepView>::deep_view, 2);
            assert(report.deep_view()->Object_0 =~= self.report(
                last_message.deep_view(),
                now.deep_view(),
            )->Object_0);
        }
        report
    }

    /// The health report at the time `now`, in milliseconds since the Unix
    /// epoch.
    pub fn to_json(&self, now: i64) -> (report: JsonValue)
        ensures
            report.deep_view() == self.report(
                self.last_message_text(),
                utc_timestamp_text(now as int),
            ),
    {
        let last_message = match self.last_message_time {
            Some(millis) => format_utc_millis(millis),
            None => None,
        };
        self.to_json_with(last_message, format_utc_millis(now))
    }
}

fn count_value(count: u64) -> (value: JsonValue)
    ensures
        value.deep_view() == unsigned_number(count),
{
    JsonValue::Number(JsonNumber::Unsigned(count))
}

fn time_value(text: Option<String>) -> (value: JsonValue)
    ensures
        value.deep_view() == time_or_null(text.deep_view()),
{
    match text {
        Some(text) => JsonValue::Text(text),
        None => JsonValue::Null,
    }
}

} // verus!
