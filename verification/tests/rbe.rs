use bloons::bloon::{BloonGraph, BloonName, BloonProperty};

#[test]
fn test_rbe() {
    let graph = BloonGraph::new();
    assert_eq!(graph.rbe(BloonName::Red), 1);
    assert_eq!(graph.rbe(BloonName::Blue), 2);
    assert_eq!(graph.rbe(BloonName::Yellow), 4);
    assert_eq!(graph.rbe(BloonName::Black), 11);
    assert_eq!(graph.rbe(BloonName::Rainbow), 47);
    assert_eq!(graph.rbe(BloonName::Ceramic), 104);
    assert_eq!(graph.rbe(BloonName::DDT), 816);
    assert_eq!(graph.rbe(BloonName::BAD), 55_760);
}

#[test]
fn rbe_of_every_kind() {
    let graph = BloonGraph::new();
    let expected = vec![
        (BloonName::Red, 1),
        (BloonName::Blue, 2),
        (BloonName::Green, 3),
        (BloonName::Yellow, 4),
        (BloonName::Pink, 5),
        (BloonName::Purple, 11),
        (BloonName::Black, 11),
        (BloonName::White, 11),
        (BloonName::Lead, 23),
        (BloonName::Zebra, 23),
        (BloonName::Rainbow, 47),
        (BloonName::Ceramic, 104),
        (BloonName::MOAB, 616),
        (BloonName::BFB, 3_164),
        (BloonName::ZOMG, 16_656),
        (BloonName::DDT, 816),
        (BloonName::BAD, 55_760),
    ];
    for (kind, rbe) in expected {
        assert_eq!(graph.rbe(kind), rbe);
    }
}

#[test]
fn rbe_follows_graph() {
    let graph = BloonGraph::new();
    let kinds = vec![
        BloonName::Red,
        BloonName::Blue,
        BloonName::Green,
        BloonName::Yellow,
        BloonName::Pink,
        BloonName::Purple,
        BloonName::Black,
        BloonName::White,
        BloonName::Lead,
        BloonName::Zebra,
        BloonName::Rainbow,
        BloonName::Ceramic,
        BloonName::MOAB,
        BloonName::BFB,
        BloonName::ZOMG,
        BloonName::DDT,
        BloonName::BAD,
    ];
    assert!(graph.children_of(BloonName::Red).is_empty());
    for kind in kinds {
        let own_hp = graph.node(kind).hp;
        let child_sum: u32 = graph.children_of(kind).iter().map(|c| graph.rbe(c.0)).sum();
        assert_eq!(graph.rbe(kind), own_hp + child_sum);
    }
}

#[test]
fn children_resolution() {
    let graph = BloonGraph::new();
    assert!(graph.children_of(BloonName::Red).is_empty());

    let bad = graph.children_of(BloonName::BAD);
    let names: Vec<BloonName> = bad.iter().map(|c| c.0).collect();
    assert_eq!(
        names,
        vec![
            BloonName::ZOMG,
            BloonName::ZOMG,
            BloonName::DDT,
            BloonName::DDT,
            BloonName::DDT,
        ]
    );
    // the DDT referenced as a child keeps its intrinsic camouflage
    assert!(bad[2].1.properties.camo);
    assert!(!bad[2].1.properties.regen);

    // a DDT edge grants camouflage, and only camouflage, to its ceramics
    for (name, node) in graph.children_of(BloonName::DDT) {
        assert_eq!(name, BloonName::Ceramic);
        assert_eq!(node.hp, 10);
        assert!(node.properties.camo);
        assert!(!node.properties.regen);
    }

    // an edge with no override adds nothing
    for (name, node) in graph.children_of(BloonName::Lead) {
        assert_eq!(name, BloonName::Black);
        assert_eq!(node.properties, BloonProperty::empty());
    }
}

#[test]
fn node_table() {
    let graph = BloonGraph::new();
    assert_eq!(graph.node(BloonName::Red).hp, 1);
    assert_eq!(graph.node(BloonName::Ceramic).hp, 10);
    assert_eq!(graph.node(BloonName::MOAB).hp, 200);
    assert_eq!(graph.node(BloonName::BFB).hp, 700);
    assert_eq!(graph.node(BloonName::ZOMG).hp, 4_000);
    assert_eq!(graph.node(BloonName::BAD).hp, 20_000);
    assert_eq!(graph.node(BloonName::DDT).hp, 400);
    assert!(graph.node(BloonName::DDT).properties.camo);
    assert!(!graph.node(BloonName::DDT).properties.regen);
    assert_eq!(graph.node(BloonName::BAD).properties, BloonProperty::empty());
}
