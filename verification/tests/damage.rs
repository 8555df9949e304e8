use bloons::bloon::{BloonGraph, BloonName, BloonProperty};
use bloons::unit::{BloonInstance, DamageOutcome};

#[test]
fn popping() {
    let graph = BloonGraph::new();
    let mut bloon = BloonInstance::new(&graph, BloonName::Green, BloonProperty::empty());

    let (outcome, spawned) = bloon.take_damage(&graph, 2);
    assert_eq!(outcome, DamageOutcome::Unchanged);
    assert!(spawned.is_empty());
    assert_eq!(bloon.current, BloonName::Red);

    let mut bloon = BloonInstance::new(&graph, BloonName::Ceramic, BloonProperty::empty());

    let (outcome, spawned) = bloon.take_damage(&graph, 8);
    assert_eq!(outcome, DamageOutcome::Unchanged);
    assert!(spawned.is_empty());
    assert_eq!(bloon.current, BloonName::Ceramic);

    let (outcome, spawned) = bloon.take_damage(&graph, 4);
    assert_eq!(outcome, DamageOutcome::Changed);
    assert_eq!(
        spawned,
        vec![
            BloonInstance {
                initial: BloonName::Rainbow,
                current: BloonName::Rainbow,
                hp: 1,
                properties: BloonProperty::empty(),
            },
            BloonInstance {
                initial: BloonName::Zebra,
                current: BloonName::Zebra,
                hp: 1,
                properties: BloonProperty::empty(),
            },
            BloonInstance {
                initial: BloonName::White,
                current: BloonName::White,
                hp: 1,
                properties: BloonProperty::empty(),
            },
        ]
    );
    assert_eq!(bloon.current, BloonName::Black);
}

#[test]
fn tier_chain_cascade() {
    let graph = BloonGraph::new();
    let mut bloon = BloonInstance::new(&graph, BloonName::Green, BloonProperty::empty());
    let (outcome, spawned) = bloon.take_damage(&graph, 2);
    assert_eq!(outcome, DamageOutcome::Unchanged);
    assert!(spawned.is_empty());
    assert_eq!(bloon.current, BloonName::Red);
    assert_eq!(bloon.hp, 1);
    assert_eq!(bloon.initial, BloonName::Green);
}

#[test]
fn partial_damage_is_absorbed() {
    let graph = BloonGraph::new();
    let mut bloon = BloonInstance::new(&graph, BloonName::Ceramic, BloonProperty::empty());
    let (outcome, spawned) = bloon.take_damage(&graph, 3);
    assert_eq!(outcome, DamageOutcome::Unchanged);
    assert!(spawned.is_empty());
    assert_eq!(bloon.current, BloonName::Ceramic);
    assert_eq!(bloon.hp, 7);
}

#[test]
fn zero_damage_changes_nothing() {
    let graph = BloonGraph::new();
    let mut bloon = BloonInstance::new(&graph, BloonName::MOAB, BloonProperty::empty());
    let (outcome, spawned) = bloon.take_damage(&graph, 0);
    assert_eq!(outcome, DamageOutcome::Unchanged);
    assert!(spawned.is_empty());
    assert_eq!(bloon.current, BloonName::MOAB);
    assert_eq!(bloon.hp, 200);
}

#[test]
fn composite_two_hits() {
    let graph = BloonGraph::new();
    let mut bloon = BloonInstance::new(&graph, BloonName::Ceramic, BloonProperty::empty());

    let (outcome, spawned) = bloon.take_damage(&graph, 8);
    assert_eq!(outcome, DamageOutcome::Unchanged);
    assert!(spawned.is_empty());
    assert_eq!(bloon.current, BloonName::Ceramic);
    assert_eq!(bloon.hp, 2);

    let (outcome, spawned) = bloon.take_damage(&graph, 4);
    assert_eq!(outcome, DamageOutcome::Changed);
    assert_eq!(spawned.len(), 3);
    assert_eq!(bloon.current, BloonName::Black);
    assert_eq!(bloon.hp, 1);
}

#[test]
fn terminal_destruction() {
    let graph = BloonGraph::new();

    let mut bloon = BloonInstance::new(&graph, BloonName::Red, BloonProperty::empty());
    let (outcome, spawned) = bloon.take_damage(&graph, 1);
    assert_eq!(outcome, DamageOutcome::Destroyed);
    assert!(spawned.is_empty());
    assert_eq!(bloon.hp, 0);

    let mut bloon = BloonInstance::new(&graph, BloonName::Red, BloonProperty::empty());
    let (outcome, spawned) = bloon.take_damage(&graph, 50);
    assert_eq!(outcome, DamageOutcome::Destroyed);
    assert!(spawned.is_empty());
}

#[test]
fn destruction_keeps_earlier_spawns() {
    let graph = BloonGraph::new();
    let mut bloon = BloonInstance::new(&graph, BloonName::Purple, BloonProperty::empty());
    // 7 damage pays for the whole Purple-Pink-Yellow-Green-Blue-Red chain,
    // and the sibling Pink spawned at the first tier is still handed back
    let (outcome, spawned) = bloon.take_damage(&graph, 7);
    assert_eq!(outcome, DamageOutcome::Destroyed);
    assert_eq!(spawned.len(), 1);
    assert_eq!(spawned[0].current, BloonName::Pink);
    assert_eq!(spawned[0].hp, 1);
    assert_eq!(spawned[0].properties, BloonProperty::empty());
}

#[test]
fn deep_cascade_collects_all_tiers() {
    let graph = BloonGraph::new();
    let mut bloon = BloonInstance::new(&graph, BloonName::Ceramic, BloonProperty::empty());
    // 10 + 8 single hit points pay for the full chain down from Ceramic
    let (outcome, spawned) = bloon.take_damage(&graph, 18);
    assert_eq!(outcome, DamageOutcome::Destroyed);
    let names: Vec<BloonName> = spawned.iter().map(|b| b.current).collect();
    assert_eq!(
        names,
        vec![BloonName::Rainbow, BloonName::Zebra, BloonName::White, BloonName::Pink]
    );
}

#[test]
fn camo_propagates_from_ddt_edges() {
    let graph = BloonGraph::new();
    let mut bloon = BloonInstance::new(&graph, BloonName::DDT, BloonProperty::empty());
    assert!(bloon.properties.camo);

    let (outcome, spawned) = bloon.take_damage(&graph, 400);
    assert_eq!(outcome, DamageOutcome::Changed);
    assert_eq!(bloon.current, BloonName::Ceramic);
    assert_eq!(bloon.hp, 10);
    assert_eq!(spawned.len(), 3);
    for unit in &spawned {
        assert_eq!(unit.current, BloonName::Ceramic);
        assert_eq!(unit.hp, 10);
        // the edge grants camouflage to a kind that does not declare it...
        assert!(unit.properties.camo);
        // ...but its regeneration override never takes effect
        assert!(!unit.properties.regen);
    }
}

#[test]
fn plain_edges_grant_nothing() {
    let graph = BloonGraph::new();
    let mut bloon = BloonInstance::new(&graph, BloonName::Lead, BloonProperty::empty());
    let (outcome, spawned) = bloon.take_damage(&graph, 1);
    assert_eq!(outcome, DamageOutcome::Changed);
    assert_eq!(bloon.current, BloonName::Black);
    assert_eq!(spawned.len(), 1);
    assert_eq!(spawned[0].current, BloonName::Black);
    assert_eq!(spawned[0].properties, BloonProperty::empty());
}

#[test]
fn construction_unions_extra_flags() {
    let graph = BloonGraph::new();
    let plain = BloonInstance::new(&graph, BloonName::Red, BloonProperty::empty());
    assert_eq!(plain.properties, BloonProperty::empty());
    assert_eq!(plain.hp, 1);
    assert_eq!(plain.initial, BloonName::Red);
    assert_eq!(plain.current, BloonName::Red);

    let extra = BloonProperty { camo: true, regen: false };
    let hidden = BloonInstance::new(&graph, BloonName::Blue, extra);
    assert!(hidden.properties.camo);
    assert!(!hidden.properties.regen);

    let ddt = BloonInstance::new(&graph, BloonName::DDT, BloonProperty::empty());
    assert!(ddt.properties.camo);
    assert_eq!(ddt.hp, 400);
}
