//! Open SSH sessions, as systemd-logind reports them.

use crate::providers::dbus::{
    connect, fetch_string_on, list_session_paths, logind_manager, object_proxy, Bus, PropertyQuery,
};
use vstd::prelude::*;
use zbus::blocking::Connection;

verus! {


/// The model of an optional string.
pub open spec fn opt_view(o: Option<String>) -> Option<Seq<char>> {
    match o {
        Some(s) => Some(s@),
        None => None,
    }
}

/// The model of one session's `(Service, RemoteHost)` pair, either of
/// which may have been unreadable.
pub open spec fn entry_view(e: (Option<String>, Option<String>)) -> (
    Option<Seq<char>>,
    Option<Seq<char>>,
) {
    (opt_view(e.0), opt_view(e.1))
}

/// The service name logind gives SSH logins.
pub open spec fn sshd() -> Seq<char> {
    seq!['s', 's', 'h', 'd']
}

/// The remote host of every session whose service is `sshd`, in order; an
/// unreadable host counts as the empty string.
pub open spec fn ssh_hosts_of(entries: Seq<(Option<Seq<char>>, Option<Seq<char>>)>) -> Seq<
    Seq<char>,
>
    decreases entries.len(),
{
    if entries.len() == 0 {
        Seq::empty()
    } else {
        let rest = ssh_hosts_of(entries.drop_last());
        let last = entries.last();
        if last.0 == Some(sshd()) {
            rest.push(
                match last.1 {
                    Some(h) => h,
                    None => Seq::empty(),
                },
            )
        } else {
            rest
        }
    }
}

/// The remote hosts of the `sshd` sessions among `entries`: one per such
/// session, in order, not deduplicated, `""` where the host was unreadable.
/// A session whose service was unreadable never counts.
pub fn ssh_hosts(entries: &[(Option<String>, Option<String>)]) -> (hosts: Vec<String>)
    ensures
        hosts@.map_values(|h: String| h@) == ssh_hosts_of(
            entries@.map_values(|e: (Option<String>, Option<String>)| entry_view(e)),
        ),
{
    let ghost ev = entries@.map_values(|e: (Option<String>, Option<String>)| entry_view(e));
    let service_name = "sshd".to_string();
    proof {
        reveal_strlit("sshd");
    }
    assert(service_name@ == sshd());
    let mut hosts: Vec<String> = Vec::new();
    let n = entries.len();
    for i in 0..n
        invariant
            n == entries@.len(),
            ev == entries@.map_values(|e: (Option<String>, Option<String>)| entry_view(e)),
            service_name@ == sshd(),
            hosts@.map_values(|h: String| h@) == ssh_hosts_of(ev.take(i as int)),
    {
        assert(ev.take(i + 1).drop_last() =~= ev.take(i as int));
        assert(ev.take(i + 1).last() == ev[i as int]);
        let entry = &entries[i];
        let is_ssh = match &entry.0 {
            Some(s) => *s == service_name,
            None => false,
        };
        if is_ssh {
            let host = match &entry.1 {
                Some(h) => h.clone(),
                None => String::new(),
            };
            hosts.push(host);
        }
        assert(hosts@.map_values(|h: String| h@) =~= ssh_hosts_of(ev.take(i + 1)));
    }
    assert(ev.take(n as int) =~= ev);
    hosts
}

/// The read of one property of the logind session object at `path`:
/// interface `org.freedesktop.login1.Session` of `org.freedesktop.login1`
/// on the system bus.
pub fn session_property_query(path: &str, property: &str) -> (query: PropertyQuery)
    ensures
        query.bus == Bus::System,
        query.destination@ == "org.freedesktop.login1"@,
        query.path@ == path@,
        query.interface@ == "org.freedesktop.login1.Session"@,
        query.property@ == property@,
{
    PropertyQuery {
        bus: Bus::System,
        destination: "org.freedesktop.login1".to_string(),
        path: path.to_string(),
        interface: "org.freedesktop.login1.Session".to_string(),
        property: property.to_string(),
    }
}

/// One string property of the logind session object at `path`.
fn session_property(conn: &Connection, path: &str, property: &str) -> Option<String> {
    fetch_string_on(conn, &session_property_query(path, property))
}

/// Asks logind for every session's `(Service, RemoteHost)`: calls
/// `ListSessions` on [`logind_manager`], then reads both properties of
/// each listed session ([`session_property_query`]), in the listed order.
/// `None` when the bus, the manager or the call fails; a property that
/// cannot be read is `None` in its pair.
pub fn session_replies() -> Option<Vec<(Option<String>, Option<String>)>> {
    let manager = logind_manager();
    let conn = connect(manager.bus)?;
    let proxy = object_proxy(&conn, &manager)?;
    let paths = list_session_paths(&proxy)?;
    let mut entries: Vec<(Option<String>, Option<String>)> = Vec::new();
    let n = paths.len();
    for i in 0..n
        invariant
            n == paths@.len(),
    {
        let path = paths[i].as_str();
        let service = session_property(&conn, path, "Service");
        let remote_host = session_property(&conn, path, "RemoteHost");
        entries.push((service, remote_host));
    }
    Some(entries)
}

/// The SSH hosts of a logind reply: none when logind could not be asked.
pub open spec fn hosts_of_reply(reply: Option<Vec<(Option<String>, Option<String>)>>) -> Seq<
    Seq<char>,
> {
    match reply {
        None => Seq::empty(),
        Some(v) => ssh_hosts_of(v@.map_values(|e: (Option<String>, Option<String>)| entry_view(e))),
    }
}

/// The SSH hosts of a logind reply: none when logind could not be asked,
/// otherwise the [`ssh_hosts`] of the sessions' `(Service, RemoteHost)`.
pub fn hosts_from_replies(reply: Option<Vec<(Option<String>, Option<String>)>>) -> (hosts: Vec<
    String,
>)
    ensures
        match reply {
            None => hosts@.len() == 0,
            Some(v) => hosts@.map_values(|h: String| h@) == ssh_hosts_of(
                v@.map_values(|e: (Option<String>, Option<String>)| entry_view(e)),
            ),
        },
{
    match reply {
        None => Vec::new(),
        Some(entries) => ssh_hosts(entries.as_slice()),
    }
}

/// The number of SSH sessions in a host list (one entry per session).
pub fn host_count(hosts: &Vec<String>) -> (n: usize)
    ensures
        n == hosts@.len(),
{
    hosts.len()
}

/// Whether a session count means some SSH session is open.
pub fn any_session(count: usize) -> (open: bool)
    ensures
        open == (count > 0),
{
    count > 0
}

/// `RemoteHost` for every currently open SSH session, one entry per
/// session in `ListSessions`' order: [`hosts_from_replies`] of a fresh
/// [`session_replies`]. Empty when logind is unreachable.
pub fn active_remote_hosts() -> (hosts: Vec<String>)
    ensures
        exists|reply: Option<Vec<(Option<String>, Option<String>)>>|
            call_ensures(session_replies, (), reply) && hosts@.map_values(|h: String| h@)
                == hosts_of_reply(reply),
{
    let reply = session_replies();
    let ghost answer = reply;
    let hosts = hosts_from_replies(reply);
    assert(call_ensures(session_replies, (), answer));
    assert(hosts@.map_values(|h: String| h@) =~= hosts_of_reply(answer));
    hosts
}

/// The number of open SSH sessions: [`host_count`] of a fresh
/// [`active_remote_hosts`].
pub fn count() -> (n: usize)
    ensures
        exists|hosts: Vec<String>| call_ensures(active_remote_hosts, (), hosts) && n == hosts@.len(),
{
    let hosts = active_remote_hosts();
    let n = host_count(&hosts);
    assert(call_ensures(active_remote_hosts, (), hosts));
    n
}

/// Whether any SSH session is open: [`any_session`] of a fresh [`count`].
pub fn active() -> (open: bool)
    ensures
        exists|n: usize| call_ensures(count, (), n) && open == (n > 0),
{
    let n = count();
    assert(call_ensures(count, (), n));
    any_session(n)
}

} // verus!
