//! Battery state over UPower.

use crate::providers::dbus::{fetch_bool, Bus, PropertyQuery};
use vstd::prelude::*;

verus! {

/// The read of UPower's `OnBattery`: on the system bus, object
/// `/org/freedesktop/UPower`, interface `org.freedesktop.UPower`.
pub fn on_battery_query() -> (query: PropertyQuery)
    ensures
        query.bus == Bus::System,
        query.destination@ == "org.freedesktop.UPower"@,
        query.path@ == "/org/freedesktop/UPower"@,
        query.interface@ == "org.freedesktop.UPower"@,
        query.property@ == "OnBattery"@,
{
    PropertyQuery {
        bus: Bus::System,
        destination: "org.freedesktop.UPower".to_string(),
        path: "/org/freedesktop/UPower".to_string(),
        interface: "org.freedesktop.UPower".to_string(),
        property: "OnBattery".to_string(),
    }
}

/// `query` reads UPower's `OnBattery`.
pub open spec fn is_on_battery_query(query: PropertyQuery) -> bool {
    &&& query.bus == Bus::System
    &&& query.destination@ == "org.freedesktop.UPower"@
    &&& query.path@ == "/org/freedesktop/UPower"@
    &&& query.interface@ == "org.freedesktop.UPower"@
    &&& query.property@ == "OnBattery"@
}

/// Reads an `OnBattery` reply: only an explicit `true` means on battery;
/// no reply (UPower not running, common on desktops) means on AC.
pub fn battery_from_reply(reply: Option<bool>) -> (on_battery: bool)
    ensures
        on_battery == (reply == Some(true)),
{
    match reply {
        Some(b) => b,
        None => false,
    }
}

/// True iff UPower reports `OnBattery` ([`on_battery_query`] read, then
/// [`battery_from_reply`]); `false` ("assume AC") when UPower cannot be
/// asked.
pub fn on_battery() -> (on_battery: bool)
    ensures
        exists|query: PropertyQuery, reply: Option<bool>|
            is_on_battery_query(query) && call_ensures(fetch_bool, (&query,), reply) && on_battery
                == (reply == Some(true)),
{
    let query = on_battery_query();
    let reply = fetch_bool(&query);
    let on_battery = battery_from_reply(reply);
    assert(is_on_battery_query(query));
    on_battery
}

/// The negation of a fresh [`on_battery`] query.
pub fn on_ac() -> (on_ac: bool)
    ensures
        exists|battery: bool| call_ensures(on_battery, (), battery) && on_ac == !battery,
{
    let battery = on_battery();
    assert(call_ensures(on_battery, (), battery));
    !battery
}

} // verus!
