use dock_core::directory::{ContainerRecord, LookupError, PortBinding, Snapshot};

fn record(id: &str, name: &str, public_port: Option<u16>, status: &str) -> ContainerRecord {
    ContainerRecord {
        id: String::from(id),
        names: vec![String::from(name)],
        ports: vec![PortBinding {
            private_port: 80,
            public_port,
            protocol: String::from("tcp"),
        }],
        status: String::from(status),
    }
}

#[test]
fn find_present_identifier() {
    let snap = Snapshot {
        records: vec![
            record("abc123", "/web1", Some(8080), "running"),
            record("def456", "/db1", None, "exited"),
        ],
    };
    let found = snap.find(&String::from("def456"));
    assert!(found.is_some());
    assert_eq!(found.unwrap().names[0], "/db1");
}

#[test]
fn find_absent_identifier_is_none() {
    let snap = Snapshot { records: vec![record("abc123", "/web1", Some(8080), "running")] };
    assert!(snap.find(&String::from("nope")).is_none());
}

#[test]
fn get_container_absent_is_not_found() {
    let snap = Snapshot { records: vec![record("abc123", "/web1", Some(8080), "running")] };
    let r = snap.get_container(&String::from("missing"));
    assert!(matches!(r, Err(LookupError::NotFound)));
}

#[test]
fn get_container_copies_the_record() {
    let snap = Snapshot { records: vec![record("abc123", "/web1", Some(8080), "running")] };
    let c = snap.get_container(&String::from("abc123")).unwrap();
    assert_eq!(c.id, "abc123");
    assert_eq!(c.names, vec![String::from("/web1")]);
    assert_eq!(c.ports[0].public_port, Some(8080));
    assert_eq!(c.status, "running");
}

#[test]
fn duplicate_identifiers_first_seen_wins() {
    let snap = Snapshot {
        records: vec![
            record("abc123", "/first", None, "running"),
            record("abc123", "/second", None, "exited"),
        ],
    };
    let c = snap.get_container(&String::from("abc123")).unwrap();
    assert_eq!(c.names[0], "/first");
    assert_eq!(c.status, "running");
}

#[test]
fn empty_snapshot_finds_nothing() {
    let snap = Snapshot::new();
    assert!(snap.find(&String::from("abc123")).is_none());
    assert_eq!(snap.list().len(), 0);
}

#[test]
fn list_keeps_reported_order() {
    let snap = Snapshot {
        records: vec![
            record("a", "/one", None, "running"),
            record("b", "/two", None, "running"),
            record("c", "/three", None, "running"),
        ],
    };
    let ids: Vec<&str> = snap.list().iter().map(|c| c.id.as_str()).collect();
    assert_eq!(ids, vec!["a", "b", "c"]);
}
