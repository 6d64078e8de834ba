use logs_router::selector::select_ingester;
use logs_router::selector::Node;
use logs_router::status::Code;

fn node(addr: &str, eligible: bool) -> Node {
    Node { addr: addr.to_string(), eligible }
}

fn cluster() -> Vec<Node> {
    vec![
        node("http://10.0.0.1:5081", true),
        node("http://10.0.0.2:5081", false),
        node("http://10.0.0.3:5081", true),
        node("http://10.0.0.4:5081", true),
    ]
}

#[test]
fn selector_fails_without_members() {
    let picked = select_ingester(&Vec::new(), 7);
    let status = picked.unwrap_err();
    assert_eq!(status.code, Code::Unavailable);
    assert_eq!(status.message, "no eligible node");
}

#[test]
fn selector_fails_when_no_member_is_eligible() {
    let nodes = vec![node("http://a:1", false), node("http://b:1", false)];
    for draw in 0..5u64 {
        let status = select_ingester(&nodes, draw).unwrap_err();
        assert_eq!(status.code, Code::Unavailable);
        assert_eq!(status.message, "no eligible node");
    }
}

#[test]
fn selector_picks_the_eligible_node_at_draw_modulo_count() {
    let nodes = cluster();
    assert_eq!(select_ingester(&nodes, 0).unwrap(), "http://10.0.0.1:5081");
    assert_eq!(select_ingester(&nodes, 1).unwrap(), "http://10.0.0.3:5081");
    assert_eq!(select_ingester(&nodes, 2).unwrap(), "http://10.0.0.4:5081");
    assert_eq!(select_ingester(&nodes, 3).unwrap(), "http://10.0.0.1:5081");
    assert_eq!(select_ingester(&nodes, 7).unwrap(), "http://10.0.0.3:5081");
    assert_eq!(select_ingester(&nodes, u64::MAX).unwrap(), "http://10.0.0.1:5081");
}

#[test]
fn selector_never_picks_an_ineligible_node() {
    let nodes = cluster();
    for draw in 0..100u64 {
        let picked = select_ingester(&nodes, draw).unwrap();
        assert_ne!(picked, "http://10.0.0.2:5081");
        assert!(nodes.iter().any(|n| n.eligible && n.addr == picked));
    }
}

#[test]
fn selector_reaches_every_eligible_node() {
    let nodes = cluster();
    let eligible: Vec<String> =
        nodes.iter().filter(|n| n.eligible).map(|n| n.addr.clone()).collect();
    for (slot, addr) in eligible.iter().enumerate() {
        assert_eq!(&select_ingester(&nodes, slot as u64).unwrap(), addr);
    }
}

#[test]
fn selector_with_one_eligible_node_ignores_the_draw() {
    let nodes = vec![node("http://a:1", false), node("http://b:1", true)];
    for draw in [0u64, 1, 2, 99, u64::MAX] {
        assert_eq!(select_ingester(&nodes, draw).unwrap(), "http://b:1");
    }
}
