use gamesense::agent::uiautomator::{attr_value, find_by_hint, is_useful, parse_bounds, parse_ui_nodes};

const SAMPLE_XML: &str = r#"<?xml version="1.0" encoding="UTF-8"?>
<hierarchy rotation="0">
  <node index="0" text="" resource-id="" class="android.widget.FrameLayout" package="com.example" content-desc="" checkable="false" checked="false" clickable="false" enabled="true" focusable="false" focused="false" scrollable="false" long-clickable="false" password="false" selected="false" bounds="[0,0][1080,2340]">
<node index="0" text="Start Game" resource-id="com.example:id/btn_start" class="android.widget.Button" package="com.example" content-desc="" checkable="false" checked="false" clickable="true" enabled="true" focusable="true" focused="false" scrollable="false" long-clickable="false" password="false" selected="false" bounds="[216,900][864,1080]" />
<node index="1" text="" resource-id="" class="android.widget.ImageView" package="com.example" content-desc="Coin Stack" checkable="false" checked="false" clickable="true" enabled="true" focusable="true" focused="false" scrollable="false" long-clickable="false" password="false" selected="false" bounds="[0,500][540,800]" />
<node index="2" text="Score: 100" resource-id="com.example:id/score" class="android.widget.TextView" package="com.example" content-desc="" checkable="false" checked="false" clickable="false" enabled="true" focusable="false" focused="false" scrollable="false" long-clickable="false" password="false" selected="false" bounds="[0,0][540,100]" />
  </node>
</hierarchy>"#;

#[test]
fn parse_bounds_valid() {
    assert_eq!(parse_bounds("[216,900][864,1080]"), Some([216, 900, 864, 1080]));
}

#[test]
fn parse_bounds_zero() {
    assert_eq!(parse_bounds("[0,0][1080,2340]"), Some([0, 0, 1080, 2340]));
}

#[test]
fn parse_bounds_empty_returns_none() {
    assert!(parse_bounds("").is_none());
    assert!(parse_bounds("[][]").is_none());
}

#[test]
fn attr_value_extracts_text() {
    let node = r#"<node text="Hello" clickable="true" bounds="[0,0][100,100]" />"#;
    assert_eq!(attr_value(node, "text"), "Hello");
    assert_eq!(attr_value(node, "clickable"), "true");
}

#[test]
fn attr_value_missing_returns_empty() {
    let node = r#"<node text="Hi" />"#;
    assert_eq!(attr_value(node, "missing"), "");
}

#[test]
fn parses_clickable_button() {
    let nodes = parse_ui_nodes(SAMPLE_XML);
    let i = find_by_hint(&nodes, "Start Game").unwrap();
    let btn = &nodes[i];
    assert_eq!(btn.label, "Start Game");
    assert!(btn.clickable);
    assert_eq!(btn.bounds, [216, 900, 864, 1080]);
}

#[test]
fn center_coords_computed_correctly() {
    let nodes = parse_ui_nodes(SAMPLE_XML);
    let i = find_by_hint(&nodes, "Start Game").unwrap();
    let (cx, cy) = nodes[i].tap_coords();
    assert_eq!(cx, (216 + 864) / 2); // 540
    assert_eq!(cy, (900 + 1080) / 2); // 990
}

#[test]
fn finds_by_content_desc() {
    let nodes = parse_ui_nodes(SAMPLE_XML);
    let i = find_by_hint(&nodes, "Coin Stack").unwrap();
    assert_eq!(nodes[i].label, "Coin Stack");
    assert!(nodes[i].clickable);
}

#[test]
fn non_clickable_element_excluded_from_find() {
    let nodes = parse_ui_nodes(SAMPLE_XML);
    // "Score: 100" is not clickable
    assert!(find_by_hint(&nodes, "Score").is_none());
}

#[test]
fn is_useful_true_when_clickable_elements_exist() {
    let nodes = parse_ui_nodes(SAMPLE_XML);
    assert!(is_useful(&nodes));
}

#[test]
fn is_useful_false_for_empty_tree() {
    let nodes = parse_ui_nodes("<hierarchy></hierarchy>");
    assert!(!is_useful(&nodes));
}

#[test]
fn hint_matching_ignores_case_and_reads_resource_ids() {
    let nodes = parse_ui_nodes(SAMPLE_XML);
    assert_eq!(find_by_hint(&nodes, "START"), Some(1));
    assert_eq!(find_by_hint(&nodes, "btn_start"), Some(1));
}

#[test]
fn parsed_tree_keeps_every_node_line_in_order() {
    let nodes = parse_ui_nodes(SAMPLE_XML);
    assert_eq!(nodes.len(), 4);
    assert_eq!(nodes[0].class, "android.widget.FrameLayout");
    assert!(!nodes[0].clickable);
    assert_eq!(nodes[3].label, "Score: 100");
    assert_eq!(nodes[3].resource_id, "com.example:id/score");
}
