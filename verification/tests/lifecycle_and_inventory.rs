use container_broker::connection::{connection_outcome, status_event};
use container_broker::inventory::{
    collect_image_ids, display_name, normalize_container, public_ports, DockerContainer,
    ImageReport, PortReport, RawContainer,
};
use container_broker::lifecycle::{
    create_request, create_step, make_port_mapping, port_key, start_step, stop_outcome,
    stop_request, LifecycleError,
};
use container_broker::text::{i64_to_string, u64_to_string};

#[test]
fn decimal_rendering() {
    assert_eq!(u64_to_string(0), "0");
    assert_eq!(u64_to_string(9000), "9000");
    assert_eq!(u64_to_string(u64::MAX), "18446744073709551615");
    assert_eq!(i64_to_string(-42), "-42");
    assert_eq!(i64_to_string(i64::MIN), "-9223372036854775808");
    assert_eq!(i64_to_string(7), "7");
}

#[test]
fn port_mapping_binds_same_port_everywhere() {
    let m = make_port_mapping(9000);
    assert_eq!(m.container_port, 9000);
    assert_eq!(m.host_port, 9000);
    assert_eq!(m.host_ip, "0.0.0.0");
    assert_eq!(port_key(9000), "9000/tcp");
}

#[test]
fn create_request_names_container_after_image() {
    let r = create_request("abc", 9000);
    assert_eq!(r.name, "abc");
    assert_eq!(r.image, "abc");
    assert!(r.attach_stdout);
    assert!(r.attach_stderr);
    assert_eq!(r.port_key, "9000/tcp");
    assert_eq!(r.binding.host_port, 9000);
    assert_eq!(r.binding.container_port, 9000);
    assert_eq!(r.binding.host_ip, "0.0.0.0");
}

#[test]
fn created_but_unstartable_container_yields_error_and_no_id() {
    // The runtime stub: creation succeeds, start fails.
    let created = create_step(Ok(String::from("runtime-assigned-id")));
    let container_id = created.expect("creation succeeded");
    let outcome = start_step(container_id, Err(String::from("start refused")));
    match outcome {
        Ok(_) => panic!("no container id may be returned when start fails"),
        Err(LifecycleError::StartFailed(cause)) => assert_eq!(cause, "start refused"),
        Err(_) => panic!("the failure must be reported as a failed start"),
    }
}

#[test]
fn failed_creation_yields_create_error() {
    let outcome = create_step(Err(String::from("image missing")));
    match outcome {
        Err(LifecycleError::CreateFailed(cause)) => assert_eq!(cause, "image missing"),
        _ => panic!("a failed creation must surface as a create error"),
    }
}

#[test]
fn successful_start_returns_runtime_id() {
    let outcome = start_step(String::from("cid-7"), Ok(()));
    assert_eq!(outcome.expect("start succeeded"), "cid-7");
}

#[test]
fn stop_request_defaults_to_ten_seconds() {
    let r = stop_request(String::from("cid-7"), None);
    assert_eq!(r.container_id, "cid-7");
    assert_eq!(r.grace_seconds, 10);
    let r = stop_request(String::from("cid-7"), Some(30));
    assert_eq!(r.grace_seconds, 30);
}

#[test]
fn stop_failure_is_surfaced() {
    assert!(stop_outcome(Ok(())).is_ok());
    match stop_outcome(Err(String::from("no such container"))) {
        Err(LifecycleError::StopFailed(cause)) => assert_eq!(cause, "no such container"),
        _ => panic!("a failed stop must surface as a stop error"),
    }
}

#[test]
fn leading_separator_is_stripped_from_name() {
    let raw = RawContainer {
        id: Some(String::from("cid-1")),
        names: Some(vec![String::from("/web-1"), String::from("/alias")]),
        image: Some(String::from("web:latest")),
        image_id: Some(String::from("sha-1")),
        created: Some(1_700_000_000),
        ports: Some(vec![
            PortReport { public_port: Some(8080) },
            PortReport { public_port: None },
            PortReport { public_port: Some(9000) },
        ]),
        state: Some(String::from("running")),
        status: Some(String::from("Up 2 minutes")),
    };
    let c = normalize_container(&raw);
    assert_eq!(c.id, "cid-1");
    assert_eq!(c.name, "web-1");
    assert_eq!(c.image.as_deref(), Some("web:latest"));
    assert_eq!(c.image_id.as_deref(), Some("sha-1"));
    assert_eq!(c.created, Some(1_700_000_000));
    assert_eq!(c.ports, Some(vec![8080, 9000]));
    assert_eq!(c.state.as_deref(), Some("running"));
    assert_eq!(c.status.as_deref(), Some("Up 2 minutes"));
}

#[test]
fn missing_names_yield_empty_display_name() {
    assert_eq!(display_name(&None), "");
    assert_eq!(display_name(&Some(vec![])), "");
    assert_eq!(display_name(&Some(vec![String::from("")])), "");
    assert_eq!(display_name(&Some(vec![String::from("/db")])), "db");
}

#[test]
fn ports_without_public_mapping_are_omitted() {
    let ps = vec![
        PortReport { public_port: None },
        PortReport { public_port: Some(443) },
    ];
    assert_eq!(public_ports(&ps), vec![443]);
    assert_eq!(public_ports(&vec![]), Vec::<i64>::new());
}

#[test]
fn container_record_constructor_keeps_fields() {
    let c = DockerContainer::new(
        String::from("id-9"),
        String::from("svc"),
        None,
        None,
        None,
        Some(vec![80]),
        None,
        None,
    );
    assert_eq!(c.id, "id-9");
    assert_eq!(c.name, "svc");
    assert_eq!(c.image, None);
    assert_eq!(c.ports, Some(vec![80]));
}

#[test]
fn image_ids_are_collected_in_order() {
    let imgs = vec![
        ImageReport { id: String::from("sha-a") },
        ImageReport { id: String::from("sha-b") },
    ];
    assert_eq!(collect_image_ids(imgs), vec!["sha-a", "sha-b"]);
}

#[test]
fn unreachable_runtime_yields_no_connection() {
    let r = connection_outcome(Err(String::from("socket absent")));
    assert!(r.is_none());
}

#[test]
fn completed_handshake_yields_session_with_version() {
    let s = connection_outcome(Ok(String::from("24.0.7"))).expect("handshake completed");
    assert_eq!(s.version, "24.0.7");
}

#[test]
fn status_events_carry_identifier_and_outcome() {
    assert_eq!(status_event("build-1", true), "build-1: success");
    assert_eq!(status_event("cid-2", false), "cid-2: failure");
}
