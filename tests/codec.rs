use rest_hopper::{
    decode_tree, decode_trees, encode_tree, encode_trees, ClientError, DataTree, RestHopperObject,
    WireObject, WireTree,
};

fn item(t: &str, d: &str) -> RestHopperObject {
    RestHopperObject { object_type: t.to_string(), data: d.to_string() }
}

fn wire_item(t: Option<&str>, d: Option<&str>) -> WireObject {
    WireObject { object_type: t.map(|s| s.to_string()), data: d.map(|s| s.to_string()) }
}

fn sample_tree() -> DataTree {
    DataTree {
        param_name: "A".to_string(),
        inner_tree: vec![
            ("{0}".to_string(), vec![item("System.Double", "1.0"), item("System.Double", "4.5")]),
            ("0".to_string(), vec![item("System.String", "text")]),
            ("{0;1}".to_string(), vec![item("System.Int32", "7")]),
        ],
    }
}

#[test]
fn encode_sets_both_fields_of_every_item() {
    let w = encode_tree(&sample_tree());
    assert_eq!(w.param_name, "A");
    assert_eq!(w.inner_tree.len(), 3);
    assert_eq!(w.inner_tree[0].0, "{0}");
    assert_eq!(w.inner_tree[1].0, "0");
    assert_eq!(w.inner_tree[2].0, "{0;1}");
    assert_eq!(w.inner_tree[0].1[1], wire_item(Some("System.Double"), Some("4.5")));
    assert_eq!(w.inner_tree[1].1, vec![wire_item(Some("System.String"), Some("text"))]);
}

#[test]
fn round_trip_keeps_path_keys_verbatim() {
    let t = sample_tree();
    let back = decode_tree(&encode_tree(&t)).unwrap();
    assert_eq!(back, t);
    assert_eq!(back.inner_tree[0].0, "{0}");
    assert_ne!(back.inner_tree[0].0, back.inner_tree[1].0);
}

#[test]
fn round_trip_of_tree_without_branches() {
    let t = DataTree { param_name: "Empty".to_string(), inner_tree: Vec::new() };
    let back = decode_tree(&encode_tree(&t)).unwrap();
    assert_eq!(back.param_name, "Empty");
    assert!(back.inner_tree.is_empty());
}

#[test]
fn missing_type_tag_is_malformed() {
    let w = WireTree {
        param_name: "A".to_string(),
        inner_tree: vec![("{0}".to_string(), vec![wire_item(None, Some("1.0"))])],
    };
    assert_eq!(decode_tree(&w), Err(ClientError::MalformedTree));
}

#[test]
fn empty_type_tag_is_malformed() {
    let w = WireTree {
        param_name: "A".to_string(),
        inner_tree: vec![("{0}".to_string(), vec![wire_item(Some(""), Some("1.0"))])],
    };
    assert_eq!(decode_tree(&w), Err(ClientError::MalformedTree));
}

#[test]
fn missing_data_is_malformed() {
    let w = WireTree {
        param_name: "A".to_string(),
        inner_tree: vec![(
            "{0}".to_string(),
            vec![wire_item(Some("System.Double"), Some("1.0")), wire_item(Some("System.Double"), None)],
        )],
    };
    assert_eq!(decode_tree(&w), Err(ClientError::MalformedTree));
}

#[test]
fn empty_data_is_malformed() {
    let w = WireTree {
        param_name: "A".to_string(),
        inner_tree: vec![("{0}".to_string(), vec![wire_item(Some("System.Double"), Some(""))])],
    };
    assert_eq!(decode_tree(&w), Err(ClientError::MalformedTree));
}

#[test]
fn empty_branch_is_malformed() {
    let w = WireTree {
        param_name: "A".to_string(),
        inner_tree: vec![("{0}".to_string(), Vec::new())],
    };
    assert_eq!(decode_tree(&w), Err(ClientError::MalformedTree));
}

#[test]
fn repeated_path_key_is_malformed() {
    let w = WireTree {
        param_name: "A".to_string(),
        inner_tree: vec![
            ("{0}".to_string(), vec![wire_item(Some("System.Double"), Some("1.0"))]),
            ("{1}".to_string(), vec![wire_item(Some("System.Double"), Some("2.0"))]),
            ("{0}".to_string(), vec![wire_item(Some("System.Double"), Some("3.0"))]),
        ],
    };
    assert_eq!(decode_tree(&w), Err(ClientError::MalformedTree));
}

#[test]
fn keys_that_differ_only_in_brackets_are_distinct() {
    let w = WireTree {
        param_name: "A".to_string(),
        inner_tree: vec![
            ("{0}".to_string(), vec![wire_item(Some("System.Double"), Some("1.0"))]),
            ("0".to_string(), vec![wire_item(Some("System.Double"), Some("2.0"))]),
        ],
    };
    let t = decode_tree(&w).unwrap();
    assert_eq!(t.inner_tree[0].0, "{0}");
    assert_eq!(t.inner_tree[1].0, "0");
    assert_eq!(t.inner_tree[1].1, vec![item("System.Double", "2.0")]);
}

#[test]
fn sequence_round_trip_and_failure() {
    let ts = vec![sample_tree(), DataTree { param_name: "B".to_string(), inner_tree: Vec::new() }];
    let ws = encode_trees(&ts);
    assert_eq!(ws.len(), 2);
    assert_eq!(decode_trees(&ws).unwrap(), ts);

    let mut bad = encode_trees(&ts);
    bad[1].inner_tree.push(("{0}".to_string(), vec![wire_item(None, None)]));
    assert_eq!(decode_trees(&bad), Err(ClientError::MalformedTree));
    assert_eq!(decode_trees(&Vec::new()), Ok(Vec::new()));
}
