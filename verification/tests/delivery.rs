use razer::connections::{Endpoint, Registry};
use razer::event::event_type::Event;
use razer::send::{broadcast, fan_out, send, send_to, Outbound};

fn endpoint(token: usize, connection_id: u32) -> Endpoint {
    Endpoint { token, connection_id }
}

fn sorted(mut plan: Vec<Outbound>) -> Vec<Outbound> {
    plan.sort_by_key(|out| out.target.token);
    plan
}

#[test]
fn send_goes_to_the_origin() {
    let mut registry = Registry::new();
    let origin = endpoint(1, 5);
    registry.register(origin);
    let out = send(&registry, &origin, Event::JS, "alert(\"Hello\")").unwrap();
    assert_eq!(out.target, origin);
    assert_eq!(out.frame, "{\"name\":\"js\",\"data\":\"alert(\\\"Hello\\\")\"}");
}

#[test]
fn send_fails_once_the_origin_is_gone() {
    let mut registry = Registry::new();
    let origin = endpoint(1, 5);
    assert_eq!(send(&registry, &origin, Event::JS, "alert(1)"), Err(()));
    registry.register(origin);
    assert!(send(&registry, &origin, Event::JS, "alert(1)").is_ok());
    registry.deregister(1);
    assert_eq!(send(&registry, &origin, Event::JS, "alert(1)"), Err(()));
}

#[test]
fn send_to_succeeds_while_open_and_fails_after_close() {
    let mut registry = Registry::new();
    registry.register(endpoint(1, 1));
    let out = send_to(&registry, 1, Event::JS, "alert(1)");
    assert_eq!(
        out,
        Ok(Outbound {
            target: endpoint(1, 1),
            frame: String::from("{\"name\":\"js\",\"data\":\"alert(1)\"}"),
        })
    );
    registry.deregister(1);
    assert_eq!(send_to(&registry, 1, Event::JS, "alert(1)"), Err(()));
}

#[test]
fn send_to_a_stranger_writes_nothing() {
    let mut registry = Registry::new();
    registry.register(endpoint(1, 1));
    assert_eq!(send_to(&registry, 2, Event::HTML, "<p>hi</p>"), Err(()));
    assert_eq!(send_to(&Registry::new(), 1, Event::HTML, "<p>hi</p>"), Err(()));
}

#[test]
fn send_to_uses_the_registered_address() {
    let mut registry = Registry::new();
    registry.register(endpoint(3, 41));
    registry.register(endpoint(3, 42));
    let out = send_to(&registry, 3, Event::HTML, "x").unwrap();
    assert_eq!(out.target, endpoint(3, 42));
}

#[test]
fn broadcast_reaches_both_connections() {
    let mut registry = Registry::new();
    registry.register(endpoint(1, 1));
    registry.register(endpoint(2, 2));
    let plan = sorted(broadcast(&registry, Event::HTML, "<p>hi</p>"));
    assert_eq!(plan.len(), 2);
    assert_eq!(plan[0].target, endpoint(1, 1));
    assert_eq!(plan[1].target, endpoint(2, 2));
    for out in &plan {
        assert_eq!(out.frame, "{\"name\":\"html\",\"data\":\"<p>hi</p>\"}");
    }
}

#[test]
fn broadcast_to_nobody_is_empty() {
    assert!(broadcast(&Registry::new(), Event::JS, "alert(1)").is_empty());
}

#[test]
fn broadcast_skips_later_arrivals() {
    let mut registry = Registry::new();
    registry.register(endpoint(1, 1));
    let plan = broadcast(&registry, Event::JS, "alert(1)");
    registry.register(endpoint(2, 2));
    assert_eq!(plan.len(), 1);
    assert_eq!(plan[0].target, endpoint(1, 1));
}

#[test]
fn departure_during_broadcast_fails_alone() {
    let mut registry = Registry::new();
    registry.register(endpoint(1, 1));
    registry.register(endpoint(2, 2));
    registry.register(endpoint(3, 3));
    let plan = sorted(broadcast(&registry, Event::JS, "alert(1)"));
    registry.deregister(2);
    let outcomes: Vec<Result<Outbound, ()>> = plan
        .iter()
        .map(|out| send_to(&registry, out.target.token, Event::JS, "alert(1)"))
        .collect();
    assert_eq!(outcomes[0], Ok(plan[0].clone()));
    assert_eq!(outcomes[1], Err(()));
    assert_eq!(outcomes[2], Ok(plan[2].clone()));
}

#[test]
fn fan_out_over_a_fresh_snapshot_reaches_everyone() {
    let mut registry = Registry::new();
    registry.register(endpoint(1, 1));
    registry.register(endpoint(2, 2));
    let targets = registry.snapshot();
    let attempts = fan_out(&registry, &targets, Event::HTML, "<p>hi</p>");
    assert_eq!(attempts.len(), 2);
    for (target, attempt) in targets.iter().zip(attempts.iter()) {
        assert_eq!(
            *attempt,
            Ok(Outbound {
                target: *target,
                frame: String::from("{\"name\":\"html\",\"data\":\"<p>hi</p>\"}"),
            })
        );
    }
}

#[test]
fn fan_out_goes_by_the_list_and_the_registry_of_the_moment() {
    let mut registry = Registry::new();
    registry.register(endpoint(1, 1));
    registry.register(endpoint(2, 2));
    registry.register(endpoint(3, 3));
    let mut targets = registry.snapshot();
    targets.sort_by_key(|target| target.token);
    registry.deregister(2);
    registry.register(endpoint(4, 4));
    let attempts = fan_out(&registry, &targets, Event::JS, "alert(1)");
    assert_eq!(attempts.len(), 3);
    assert_eq!(attempts[0].as_ref().map(|out| out.target), Ok(endpoint(1, 1)));
    assert_eq!(attempts[1], Err(()));
    assert_eq!(attempts[2].as_ref().map(|out| out.target), Ok(endpoint(3, 3)));
    for out in attempts.iter().flatten() {
        assert_eq!(out.frame, "{\"name\":\"js\",\"data\":\"alert(1)\"}");
        assert_ne!(out.target.token, 4);
    }
}

#[test]
fn fan_out_over_no_targets_attempts_nothing() {
    let mut registry = Registry::new();
    registry.register(endpoint(1, 1));
    assert!(fan_out(&registry, &Vec::new(), Event::JS, "alert(1)").is_empty());
}

#[test]
fn broadcast_writes_to_each_connection_once() {
    let mut registry = Registry::new();
    for token in 0..20 {
        registry.register(endpoint(token, 100 + token as u32));
    }
    let plan = sorted(broadcast(&registry, Event::JS, "x"));
    assert_eq!(plan.len(), 20);
    for (token, out) in plan.iter().enumerate() {
        assert_eq!(out.target, endpoint(token, 100 + token as u32));
        assert_eq!(out.frame, "{\"name\":\"js\",\"data\":\"x\"}");
    }
}
