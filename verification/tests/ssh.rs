use plasma_keepawaked::providers::ssh::ssh_hosts;

fn session(service: &str, host: &str) -> (Option<String>, Option<String>) {
    (Some(service.to_string()), Some(host.to_string()))
}

#[test]
fn counts_and_lists_only_sshd_sessions_across_transitions() {
    // No sessions at all.
    assert_eq!(ssh_hosts(&[]), Vec::<String>::new());

    // 0 -> 1: an unrelated session doesn't count; adding an sshd one does.
    assert_eq!(ssh_hosts(&[session("plasmalogin", "")]), Vec::<String>::new());
    assert_eq!(
        ssh_hosts(&[session("plasmalogin", ""), session("sshd", "10.0.0.5")]),
        vec!["10.0.0.5"]
    );

    // 1 -> 2: a second concurrent SSH session (from a different host).
    assert_eq!(
        ssh_hosts(&[session("sshd", "10.0.0.5"), session("sshd", "10.0.0.9")]),
        vec!["10.0.0.5", "10.0.0.9"]
    );

    // 2 -> 1: one of the two disconnects.
    assert_eq!(ssh_hosts(&[session("sshd", "10.0.0.9")]), vec!["10.0.0.9"]);

    // 1 -> 0: the last one disconnects.
    assert_eq!(ssh_hosts(&[]), Vec::<String>::new());

    // A session whose Service couldn't be read is never counted as
    // SSH; one whose RemoteHost couldn't be read still counts, as "".
    assert_eq!(ssh_hosts(&[(None, Some("10.0.0.5".into()))]), Vec::<String>::new());
    assert_eq!(ssh_hosts(&[(Some("sshd".into()), None)]), vec![""]);
}

#[test]
fn ssh_hosts_keeps_duplicates_and_order() {
    let hosts = ssh_hosts(&[
        session("sshd", "10.0.0.9"),
        session("login", "10.0.0.1"),
        session("sshd", "10.0.0.9"),
        session("sshd-session", "10.0.0.2"),
    ]);
    assert_eq!(hosts, vec!["10.0.0.9", "10.0.0.9"]);
}
