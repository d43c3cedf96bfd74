use unica_coder::inflight::{InFlightRegistry, MCP_MAX_TOOL_WORKERS};

#[test]
fn admission_is_bounded_and_reusable() {
    let mut registry: InFlightRegistry<u32> = InFlightRegistry::new();
    let mut admitted = Vec::new();
    for token in 0..MCP_MAX_TOOL_WORKERS {
        admitted.push(registry.admit_call(token as u32).unwrap());
    }
    let overloaded = registry.admit_call(999).unwrap_err();
    assert!(overloaded.contains("overloaded"));
    let last = admitted.pop().unwrap();
    registry.release(last);
    admitted.push(registry.admit_call(1000).unwrap());
    for id in admitted.drain(..) {
        registry.release(id);
    }
    assert_eq!(registry.wait_idle(false), Some(true));
}

#[test]
fn the_refusal_names_the_limit() {
    let mut registry: InFlightRegistry<()> = InFlightRegistry::new();
    for _ in 0..MCP_MAX_TOOL_WORKERS {
        registry.admit_call(()).unwrap();
    }
    assert_eq!(
        registry.admit_call(()).unwrap_err(),
        "dispatcher overloaded: at most 32 concurrent tools/call requests are allowed"
    );
    assert_eq!(registry.running(), MCP_MAX_TOOL_WORKERS);
}

#[test]
fn ids_increase_and_are_never_reused() {
    let mut registry: InFlightRegistry<&str> = InFlightRegistry::new();
    let first = registry.admit_call("a").unwrap();
    let second = registry.admit_call("b").unwrap();
    assert_eq!(first, 1);
    assert_eq!(second, 2);
    registry.release(first);
    let third = registry.admit_call("c").unwrap();
    assert_eq!(third, 3);
    assert_eq!(registry.running(), 2);
}

#[test]
fn release_forgets_only_the_released_call() {
    let mut registry: InFlightRegistry<&str> = InFlightRegistry::new();
    let a = registry.admit_call("a").unwrap();
    let _b = registry.admit_call("b").unwrap();
    let _c = registry.admit_call("c").unwrap();
    registry.release(a);
    assert_eq!(registry.cancel_all(), vec![&"b", &"c"]);
    registry.release(77);
    assert_eq!(registry.running(), 2);
}

#[test]
fn cancel_all_hands_out_every_running_token_in_order() {
    let mut registry: InFlightRegistry<String> = InFlightRegistry::new();
    registry.admit_call("first".to_string()).unwrap();
    registry.admit_call("second".to_string()).unwrap();
    let tokens = registry.cancel_all();
    assert_eq!(tokens.len(), 2);
    assert_eq!(tokens[0], "first");
    assert_eq!(tokens[1], "second");
}

#[test]
fn waiting_for_idle_stops_when_time_is_up() {
    let mut registry: InFlightRegistry<()> = InFlightRegistry::new();
    assert_eq!(registry.wait_idle(true), Some(true));
    let id = registry.admit_call(()).unwrap();
    assert_eq!(registry.wait_idle(false), None);
    assert_eq!(registry.wait_idle(true), Some(false));
    registry.release(id);
    assert_eq!(registry.wait_idle(false), Some(true));
}
