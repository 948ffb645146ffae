//! Media playback state over MPRIS.

use crate::providers::dbus::{fetch_string, Bus, PropertyQuery};
use vstd::prelude::*;

verus! {

/// The well-known bus name prefix of every MPRIS player.
pub open spec fn mpris_prefix() -> Seq<char> {
    "org.mpris.MediaPlayer2."@
}

/// The playback status MPRIS reports while a player plays.
pub open spec fn playing_status() -> Seq<char> {
    "Playing"@
}

/// `query` reads player `name`'s `PlaybackStatus`.
pub open spec fn is_playback_status_query(query: PropertyQuery, name: Seq<char>) -> bool {
    &&& query.bus == Bus::Session
    &&& query.destination@ == mpris_prefix() + name
    &&& query.path@ == "/org/mpris/MediaPlayer2"@
    &&& query.interface@ == "org.mpris.MediaPlayer2.Player"@
    &&& query.property@ == "PlaybackStatus"@
}

/// `org.mpris.MediaPlayer2.<name>`: the bus name of the player `name`.
pub fn player_bus_name(name: &str) -> (bus_name: String)
    ensures
        bus_name@ == mpris_prefix() + name@,
{
    let mut bus_name = "org.mpris.MediaPlayer2.".to_string();
    bus_name.append(name);
    bus_name
}

/// The read of player `name`'s `PlaybackStatus`: on the session bus, at
/// `/org/mpris/MediaPlayer2`, interface `org.mpris.MediaPlayer2.Player`.
pub fn playback_status_query(name: &str) -> (query: PropertyQuery)
    ensures
        query.bus == Bus::Session,
        query.destination@ == mpris_prefix() + name@,
        query.path@ == "/org/mpris/MediaPlayer2"@,
        query.interface@ == "org.mpris.MediaPlayer2.Player"@,
        query.property@ == "PlaybackStatus"@,
{
    PropertyQuery {
        bus: Bus::Session,
        destination: player_bus_name(name),
        path: "/org/mpris/MediaPlayer2".to_string(),
        interface: "org.mpris.MediaPlayer2.Player".to_string(),
        property: "PlaybackStatus".to_string(),
    }
}

/// Whether a `PlaybackStatus` reply says the player is playing; no reply
/// (no such player, or it did not answer) means not playing.
pub fn status_is_playing(status: &Option<String>) -> (playing: bool)
    ensures
        playing == (status matches Some(s) && s@ == playing_status()),
{
    match status {
        Some(s) => *s == "Playing".to_string(),
        None => false,
    }
}

/// True iff `org.mpris.MediaPlayer2.<name>` exists and reports
/// `PlaybackStatus == "Playing"` ([`playback_status_query`] read, then
/// [`status_is_playing`]). A player that is not running or does not answer
/// counts as not playing.
pub fn playing(name: &str) -> (playing: bool)
    ensures
        exists|query: PropertyQuery, reply: Option<String>|
            is_playback_status_query(query, name@) && call_ensures(fetch_string, (&query,), reply)
                && playing == (reply matches Some(s) && s@ == playing_status()),
{
    let query = playback_status_query(name);
    let status = fetch_string(&query);
    let playing = status_is_playing(&status);
    assert(is_playback_status_query(query, name@));
    playing
}

} // verus!
