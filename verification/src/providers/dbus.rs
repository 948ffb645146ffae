//! Small shared helpers for the D-Bus-backed providers: one connection per
//! query, one proxy per object, and every failure (bus unavailable, service
//! not running, no such property) turned into `None`.

use vstd::prelude::*;
use zbus::blocking::{Connection, Proxy};
use zbus::zvariant::OwnedFd;

verus! {

#[verifier::external_type_specification]
#[verifier::external_body]
pub struct ExConnection(zbus::blocking::Connection);

#[verifier::external_type_specification]
#[verifier::external_body]
pub struct ExProxy<'a>(zbus::blocking::Proxy<'a>);

#[verifier::external_type_specification]
#[verifier::external_body]
pub struct ExOwnedFd(zbus::zvariant::OwnedFd);

/// Which message bus a query goes to.
#[derive(Clone, Copy)]
pub enum Bus {
    Session,
    System,
}

/// `zbus::blocking::Connection::session()`, `None` on failure. Nothing is
/// claimed: whether a session bus is reachable depends on the machine.
#[verifier::external_body]
fn session_bus() -> Option<Connection> {
    Connection::session().ok()
}

/// `zbus::blocking::Connection::system()`, `None` on failure. Nothing is
/// claimed: whether the system bus is reachable depends on the machine.
#[verifier::external_body]
fn system_bus() -> Option<Connection> {
    Connection::system().ok()
}

/// `zbus::blocking::Proxy::new` for the given destination, object path and
/// interface, `None` on failure. Nothing is claimed of the outcome.
#[verifier::external_body]
pub(crate) fn proxy_for(
    conn: &Connection,
    destination: &str,
    path: &str,
    interface: &str,
) -> Option<Proxy<'static>> {
    Proxy::new(conn, destination.to_string(), path.to_string(), interface.to_string()).ok()
}

/// `zbus::blocking::Proxy::get_property::<String>`, `None` on failure.
/// Nothing is claimed: the value is whatever the remote service reports.
#[verifier::external_body]
pub(crate) fn string_property(proxy: &Proxy<'static>, property: &str) -> Option<String> {
    proxy.get_property::<String>(property).ok()
}

/// `zbus::blocking::Proxy::get_property::<bool>`, `None` on failure.
/// Nothing is claimed: the value is whatever the remote service reports.
#[verifier::external_body]
pub(crate) fn bool_property(proxy: &Proxy<'static>, property: &str) -> Option<bool> {
    proxy.get_property::<bool>(property).ok()
}

/// Calls logind's `Manager.ListSessions` through `Proxy::call` and keeps
/// each session's object path (the last field of every `a(susso)` row),
/// in the reply's order; `None` on failure. Nothing is claimed: the
/// sessions are whatever logind reports.
#[verifier::external_body]
pub(crate) fn list_session_paths(manager: &Proxy<'static>) -> Option<Vec<String>> {
    let rows: Vec<(String, u32, String, String, zbus::zvariant::OwnedObjectPath)> = manager.call(
        "ListSessions",
        &(),
    ).ok()?;
    Some(rows.into_iter().map(|row| row.4.as_str().to_string()).collect())
}

/// Calls logind's `Manager.Inhibit(what, who, why, mode)` through
/// `Proxy::call`; the returned file descriptor holds the inhibitor until
/// it is dropped. `None` on failure. Nothing is claimed: logind decides.
#[verifier::external_body]
pub(crate) fn call_inhibit(
    manager: &Proxy<'static>,
    what: &str,
    who: &str,
    why: &str,
    mode: &str,
) -> Option<OwnedFd> {
    manager.call("Inhibit", &(what, who, why, mode)).ok()
}

/// One property read: which bus, which object, which interface, which
/// property.
pub struct PropertyQuery {
    pub bus: Bus,
    pub destination: String,
    pub path: String,
    pub interface: String,
    pub property: String,
}

/// An object's interface on a bus, for method calls.
pub struct ObjectRef {
    pub bus: Bus,
    pub destination: String,
    pub path: String,
    pub interface: String,
}

/// systemd-logind's manager object: `org.freedesktop.login1.Manager` at
/// `/org/freedesktop/login1` on the system bus.
pub fn logind_manager() -> (object: ObjectRef)
    ensures
        object.bus == Bus::System,
        object.destination@ == "org.freedesktop.login1"@,
        object.path@ == "/org/freedesktop/login1"@,
        object.interface@ == "org.freedesktop.login1.Manager"@,
{
    ObjectRef {
        bus: Bus::System,
        destination: "org.freedesktop.login1".to_string(),
        path: "/org/freedesktop/login1".to_string(),
        interface: "org.freedesktop.login1.Manager".to_string(),
    }
}

/// A proxy for `object` on an open connection, `None` on failure.
pub fn object_proxy(conn: &Connection, object: &ObjectRef) -> Option<Proxy<'static>> {
    proxy_for(conn, object.destination.as_str(), object.path.as_str(), object.interface.as_str())
}

/// Performs a string property read on an open connection (the query's
/// bus is the connection's), `None` on any failure.
pub fn fetch_string_on(conn: &Connection, query: &PropertyQuery) -> Option<String> {
    let proxy = proxy_for(
        conn,
        query.destination.as_str(),
        query.path.as_str(),
        query.interface.as_str(),
    )?;
    string_property(&proxy, query.property.as_str())
}

/// The connection to `bus`, `None` if it cannot be opened.
pub fn connect(bus: Bus) -> Option<Connection> {
    match bus {
        Bus::Session => session_bus(),
        Bus::System => system_bus(),
    }
}

/// Performs a string property read, `None` on any failure.
pub fn fetch_string(query: &PropertyQuery) -> Option<String> {
    get_string_property(
        query.bus,
        query.destination.as_str(),
        query.path.as_str(),
        query.interface.as_str(),
        query.property.as_str(),
    )
}

/// Performs a boolean property read, `None` on any failure.
pub fn fetch_bool(query: &PropertyQuery) -> Option<bool> {
    get_bool_property(
        query.bus,
        query.destination.as_str(),
        query.path.as_str(),
        query.interface.as_str(),
        query.property.as_str(),
    )
}

/// Fetches a string property from an arbitrary D-Bus object, `None` on
/// any failure.
pub fn get_string_property(
    bus: Bus,
    destination: &str,
    path: &str,
    interface: &str,
    property: &str,
) -> Option<String> {
    let conn = connect(bus)?;
    let proxy = proxy_for(&conn, destination, path, interface)?;
    string_property(&proxy, property)
}

/// Fetches a boolean property from an arbitrary D-Bus object, `None` on
/// any failure.
pub fn get_bool_property(
    bus: Bus,
    destination: &str,
    path: &str,
    interface: &str,
    property: &str,
) -> Option<bool> {
    let conn = connect(bus)?;
    let proxy = proxy_for(&conn, destination, path, interface)?;
    bool_property(&proxy, property)
}

} // verus!
