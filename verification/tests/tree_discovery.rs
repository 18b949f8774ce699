use silod::Error;
use silod::discovery::{discover, CompatEntry, DtNode};

fn leaf(compatible: &[u8], status: &[u8]) -> DtNode {
    DtNode { compatible: compatible.to_vec(), status: status.to_vec(), children: Vec::new() }
}

fn table() -> Vec<CompatEntry> {
    vec![
        CompatEntry { compatible: b"acme,silo-supply".to_vec(), device: b"silo".to_vec() },
        CompatEntry { compatible: b"acme,old-silo".to_vec(), device: b"silo-legacy".to_vec() },
    ]
}

#[test]
fn disabled_or_incompatible_nodes_yield_not_found() {
    // One node matches the table but is disabled; the other is enabled
    // but matches nothing.
    let roots = vec![
        leaf(b"acme,silo-supply\0", b"disabled"),
        leaf(b"vendor,other-device\0", b"okay"),
    ];
    assert_eq!(discover(&roots, &table()), Err(Error::NotFound));
}

#[test]
fn enabled_compatible_node_is_found() {
    let roots = vec![leaf(b"acme,silo-supply\0", b"okay")];
    assert_eq!(discover(&roots, &table()), Ok(b"silo".to_vec()));
}

#[test]
fn compatible_list_is_nul_separated() {
    // The matching string may stand anywhere in the list.
    let roots = vec![leaf(b"vendor,board-x\0acme,silo-supply\0", b"okay")];
    assert_eq!(discover(&roots, &table()), Ok(b"silo".to_vec()));
    // A table string must match a whole list entry, not a fragment.
    let roots = vec![leaf(b"acme,silo-supply-mk2\0", b"okay")];
    assert_eq!(discover(&roots, &table()), Err(Error::NotFound));
}

#[test]
fn walk_is_depth_first_and_first_match_wins() {
    let deep = DtNode {
        compatible: b"simple-bus\0".to_vec(),
        status: b"okay".to_vec(),
        children: vec![leaf(b"acme,old-silo\0", b"okay")],
    };
    // The subtree of the first root is visited before the second root.
    let roots = vec![deep, leaf(b"acme,silo-supply\0", b"okay")];
    assert_eq!(discover(&roots, &table()), Ok(b"silo-legacy".to_vec()));
}

#[test]
fn node_status_must_be_exactly_okay() {
    let roots = vec![leaf(b"acme,silo-supply\0", b"okay-ish")];
    assert_eq!(discover(&roots, &table()), Err(Error::NotFound));
    let roots = vec![leaf(b"acme,silo-supply\0", b"")];
    assert_eq!(discover(&roots, &table()), Err(Error::NotFound));
}

#[test]
fn empty_tree_is_not_found() {
    assert_eq!(discover(&Vec::new(), &table()), Err(Error::NotFound));
}
