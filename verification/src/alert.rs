//! Alert records, inbound alarm envelopes, and the fixed type/description
//! mapping applied to alarm events.

use vstd::prelude::*;
use crate::strutil::{chars_eq_ignore_ascii_case, str_eq, eq_ignore_ascii_case};

verus! {

/// Kind of condition an alert reports.
#[derive(Clone, Copy, Debug, PartialEq, Eq, Structural)]
pub enum AlertType {
    Disconnect,
    TempUp,
    TempDown,
}

/// One active alert. Identity is `id`, unique within the store.
#[derive(Debug, PartialEq)]
pub struct Alert {
    pub id: String,
    pub date_time: String,
    pub alert_type: AlertType,
    pub device: String,
    pub description: String,
}

impl Clone for Alert {
    fn clone(&self) -> (r: Self)
        ensures
            r == *self,
    {
        Alert {
            id: self.id.clone(),
            date_time: self.date_time.clone(),
            alert_type: self.alert_type,
            device: self.device.clone(),
            description: self.description.clone(),
        }
    }
}

/// Status field of an alarm envelope; anything but the two known values is
/// carried as `Unknown` and ignored.
#[derive(Clone, Copy, Debug, PartialEq, Eq, Structural)]
pub enum AlarmStatus {
    ActiveUnack,
    ClearedUnack,
    Unknown,
}

/// Optional free-form detail attached to an alarm.
#[derive(Debug)]
pub struct AlarmDetails {
    pub data: Option<String>,
}

/// Entity identifier of an alarm.
#[derive(Debug)]
pub struct AlarmEntityId {
    pub value: String,
}

/// Parameters of an alarm RPC message.
#[derive(Debug)]
pub struct AlarmParams {
    pub id: AlarmEntityId,
    pub created_time: i64,
    pub alarm_type: String,
    pub originator_name: String,
    pub status: AlarmStatus,
    pub details: Option<AlarmDetails>,
}

/// An alarm RPC envelope: a method name and its parameters.
#[derive(Debug)]
pub struct AlarmRpcEnvelope {
    pub method: String,
    pub params: AlarmParams,
}

/// The envelope's method selects alarm handling: a case-insensitive match
/// against "ALARM".
pub open spec fn spec_is_alarm_method(m: Seq<char>) -> bool {
    chars_eq_ignore_ascii_case(m, "ALARM"@)
}

pub fn is_alarm_method(m: &str) -> (r: bool)
    ensures
        r == spec_is_alarm_method(m@),
{
    eq_ignore_ascii_case(m, "ALARM")
}

/// Alert type assigned to an alarm type string: "Inactivity TimeOut" reports
/// a disconnected device; everything else, including the unrecognized
/// default, is a temperature excursion.
pub open spec fn spec_map_alert_type(source: Seq<char>) -> AlertType {
    if source == "Inactivity TimeOut"@ {
        AlertType::Disconnect
    } else {
        AlertType::TempUp
    }
}

pub fn map_alert_type(source: &str) -> (r: AlertType)
    ensures
        r == spec_map_alert_type(source@),
{
    if str_eq(source, "Inactivity TimeOut") {
        AlertType::Disconnect
    } else {
        AlertType::TempUp
    }
}

/// Description assigned to an alarm: the alarm's own detail text for a
/// temperature excursion when present, otherwise a fixed text per alarm type.
pub open spec fn spec_map_description(source: Seq<char>, details: &Option<AlarmDetails>) -> Seq<
    char,
> {
    if source == "Temperature out of range"@ {
        match details {
            Some(d) => match d.data {
                Some(text) => text@,
                None => "Temperatura fuera de rango"@,
            },
            None => "Temperatura fuera de rango"@,
        }
    } else if source == "Inactivity TimeOut"@ {
        "Dispositivo desconectado"@
    } else {
        "Detalle no disponible"@
    }
}

pub fn map_description(source: &str, details: &Option<AlarmDetails>) -> (r: String)
    ensures
        r@ == spec_map_description(source@, details),
{
    if str_eq(source, "Temperature out of range") {
        match details {
            Some(d) => match &d.data {
                Some(text) => text.clone(),
                None => "Temperatura fuera de rango".to_owned(),
            },
            None => "Temperatura fuera de rango".to_owned(),
        }
    } else if str_eq(source, "Inactivity TimeOut") {
        "Dispositivo desconectado".to_owned()
    } else {
        "Detalle no disponible".to_owned()
    }
}

/// The alert built for an activated alarm: identity and device are taken
/// from the parameters, type and description from the fixed mapping, and the
/// timestamp is the formatted creation time handed in by the caller.
pub fn alert_from_params(params: &AlarmParams, date_time: String) -> (r: Alert)
    ensures
        r.id == params.id.value,
        r.date_time == date_time,
        r.alert_type == spec_map_alert_type(params.alarm_type@),
        r.device == params.originator_name,
        r.description@ == spec_map_description(params.alarm_type@, &params.details),
{
    Alert {
        id: params.id.value.clone(),
        date_time,
        alert_type: map_alert_type(params.alarm_type.as_str()),
        device: params.originator_name.clone(),
        description: map_description(params.alarm_type.as_str(), &params.details),
    }
}

} // verus!
