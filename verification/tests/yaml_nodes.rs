use capoomobi::yaml::{YamlEntry, YamlNode};

fn text(s: &str) -> YamlNode {
    YamlNode::Text(String::from(s))
}

fn entry(key: YamlNode, value: YamlNode) -> YamlEntry {
    YamlEntry { key, value }
}

#[test]
fn string_scalar_is_read_as_text() {
    assert_eq!(text("nginx").as_str(), Some("nginx"));
    assert_eq!(text("").as_str(), Some(""));
    assert_eq!(YamlNode::Other.as_str(), None);
    assert_eq!(YamlNode::List(vec![text("a")]).as_str(), None);
    assert_eq!(YamlNode::Mapping(Vec::new()).as_str(), None);
}

#[test]
fn list_is_read_as_items() {
    let items = vec![text("a"), YamlNode::Other];
    let node = YamlNode::List(vec![text("a"), YamlNode::Other]);
    assert_eq!(node.as_vec(), Some(&items));
    assert_eq!(text("a").as_vec(), None);
    assert_eq!(YamlNode::Other.as_vec(), None);
    assert_eq!(YamlNode::Mapping(Vec::new()).as_vec(), None);
}

#[test]
fn mapping_is_read_as_entries() {
    let node = YamlNode::Mapping(vec![entry(text("a"), text("b"))]);
    assert_eq!(node.as_hash().map(|entries| entries.len()), Some(1));
    assert_eq!(text("a").as_hash(), None);
    assert_eq!(YamlNode::List(Vec::new()).as_hash(), None);
    assert_eq!(YamlNode::Other.as_hash(), None);
}

#[test]
fn key_is_looked_up_among_string_keys() {
    let node = YamlNode::Mapping(vec![
        entry(YamlNode::Other, text("no key")),
        entry(text("image"), text("nginx")),
        entry(YamlNode::List(vec![text("image")]), text("a list")),
    ]);
    assert_eq!(node.get("image"), Some(&text("nginx")));
    assert_eq!(node.get("Image"), None);
    assert_eq!(node.get("imag"), None);
    assert_eq!(node.get(""), None);
}

#[test]
fn last_entry_of_a_key_counts() {
    let node = YamlNode::Mapping(vec![
        entry(text("image"), text("nginx")),
        entry(text("name"), text("web")),
        entry(text("image"), text("httpd")),
    ]);
    assert_eq!(node.get("image"), Some(&text("httpd")));
    assert_eq!(node.get("name"), Some(&text("web")));
}

#[test]
fn only_a_mapping_has_keys() {
    assert_eq!(text("image").get("image"), None);
    assert_eq!(YamlNode::List(vec![text("image")]).get("image"), None);
    assert_eq!(YamlNode::Other.get("image"), None);
    assert_eq!(YamlNode::Mapping(Vec::new()).get("image"), None);
}
