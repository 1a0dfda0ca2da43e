use fs_desktop::containers::{ContainerInfo, HealthStatus};
use fs_desktop::dep_graph::{
    build_graph, build_svg, dependency_svg, graph_size, health_color, name_le_exec, GraphNode,
};

fn c(name: &str, health: HealthStatus, requires: Option<&str>) -> ContainerInfo {
    ContainerInfo {
        name: name.to_string(),
        labels: requires.map(|r| vec![("fsn.requires".to_string(), r.to_string())]).unwrap_or_default(),
        running: true,
        health,
    }
}

#[test]
fn graph_nodes_are_sorted_and_placed_on_a_grid() {
    let cs = vec![
        c("web", HealthStatus::Healthy, Some("db, cache ,,zzz")),
        c("db", HealthStatus::Unchecked, None),
        c("cache", HealthStatus::Starting, Some("db")),
        c("api", HealthStatus::Unhealthy, None),
        c("auth", HealthStatus::Healthy, None),
    ];
    let (nodes, edges) = build_graph(&cs);
    let names: Vec<&str> = nodes.iter().map(|n| n.name.as_str()).collect();
    assert_eq!(names, vec!["api", "auth", "cache", "db", "web"]);
    assert_eq!(nodes[0].health, "err");
    assert_eq!(nodes[2].health, "warn");
    assert_eq!((nodes[0].x, nodes[0].y), (60, 80));
    assert_eq!((nodes[3].x, nodes[3].y), (660, 80));
    assert_eq!((nodes[4].x, nodes[4].y), (60, 200));
    let e: Vec<(&str, &str)> = edges.iter().map(|(a, b)| (a.as_str(), b.as_str())).collect();
    assert_eq!(e, vec![("web", "db"), ("web", "cache"), ("cache", "db")]);
}

#[test]
fn stable_order_for_equal_names() {
    let cs = vec![
        c("x", HealthStatus::Healthy, None),
        c("a", HealthStatus::Healthy, None),
        c("x", HealthStatus::Unhealthy, None),
    ];
    let (nodes, _) = build_graph(&cs);
    assert_eq!(nodes[1].health, "ok");
    assert_eq!(nodes[2].health, "err");
}

#[test]
fn name_order_matches_string_order() {
    let words = ["", "a", "ab", "b", "B", "äb", "z", "aa"];
    for x in words {
        for y in words {
            assert_eq!(name_le_exec(x, y), x <= y, "{x} vs {y}");
        }
    }
}

#[test]
fn rounding_of_text_baseline_matches_float_formatting() {
    // The text baseline is the node centre plus 4.5, printed with no decimals.
    assert_eq!(format!("{:.0}", 104.5_f64), "104");
    assert_eq!(format!("{:.0}", 105.5_f64), "106");
    assert_eq!(format!("{}", 860.0_f64), "860");
}

#[test]
fn small_diagram() {
    let cs = vec![c("web", HealthStatus::Healthy, Some("db, cache")), c("db", HealthStatus::Unchecked, None)];
    let svg = dependency_svg(&cs).unwrap();
    let expected = [
        r##"<svg xmlns="http://www.w3.org/2000/svg" width="860" height="200" style="display:block;">"##,
        r#"<defs><marker id="arr" markerWidth="8" markerHeight="8" refX="7" refY="3" orient="auto">"#,
        r##"<path d="M0,0 L0,6 L8,3 z" fill="#6b7280"/></marker></defs>"##,
        r##"<line x1="330" y1="100" x2="130" y2="100" stroke="#6b7280" stroke-width="1.5" marker-end="url(#arr)"/>"##,
        r##"<rect x="60" y="80" width="140" height="40" rx="6" fill="#1e293b" stroke="#6b7280" stroke-width="2"/>"##,
        r##"<circle cx="74" cy="100" r="5" fill="#6b7280"/>"##,
        r##"<text x="130" y="104" text-anchor="middle" fill="#e2e8f0" font-size="12" font-family="monospace">db</text>"##,
        r##"<rect x="260" y="80" width="140" height="40" rx="6" fill="#1e293b" stroke="#22c55e" stroke-width="2"/>"##,
        r##"<circle cx="274" cy="100" r="5" fill="#22c55e"/>"##,
        r##"<text x="330" y="104" text-anchor="middle" fill="#e2e8f0" font-size="12" font-family="monospace">web</text>"##,
        "</svg>",
    ]
    .concat();
    assert_eq!(svg, expected);
    assert!(dependency_svg(&vec![]).is_none());
}

#[test]
fn long_names_are_cut() {
    let nodes = vec![GraphNode { name: "a-very-long-container-name".into(), health: "ok", x: 60, y: 80 }];
    let svg = build_svg(&nodes, &vec![], 860, 200);
    assert!(svg.contains(">a-very-long-conta…</text>"));
    assert_eq!(graph_size(0), (860, 120));
    assert_eq!(graph_size(5), (860, 320));
    assert_eq!(health_color("warn"), "#f59e0b");
    assert_eq!(health_color("other"), "#6b7280");
}
