//! Live simulation units and the damage cascade: applying one damage amount
//! can push a unit through several taxonomy tiers in a single call,
//! spawning sibling units at every tier it passes through.

use vstd::prelude::*;

use crate::bloon::kind_rank;
use crate::bloon::lemma_child_rank;
use crate::bloon::spec_base_props;
use crate::bloon::spec_children;
use crate::bloon::spec_effective;
use crate::bloon::spec_hp;
use crate::bloon::BloonGraph;
use crate::bloon::BloonName;
use crate::bloon::BloonProperty;

verus! {

/// What a damage application did to the unit: `Destroyed` when it ran out
/// of kinds to degrade into, `Changed` when it survived and spawned
/// siblings, `Unchanged` otherwise (even if hit points were lost).
#[derive(Debug, Clone, Copy, PartialEq, Eq, Structural)]
pub enum DamageOutcome {
    Destroyed,
    Changed,
    Unchanged,
}

/// One live unit: the kind it was created as, the kind it currently behaves
/// as, its remaining hit points, and its effective capability flags.
#[derive(Debug, Clone, PartialEq, Eq, Structural)]
pub struct BloonInstance {
    pub initial: BloonName,
    pub current: BloonName,
    pub hp: u32,
    pub properties: BloonProperty,
}

/// What one damage application amounts to: whether the unit was destroyed,
/// the kind and hit points it ends at, and the siblings spawned on the way,
/// each as a kind with its effective flags, in spawn order.
pub struct CascadeResult {
    pub destroyed: bool,
    pub kind: BloonName,
    pub hp: nat,
    pub spawned: Seq<(BloonName, BloonProperty)>,
}

/// The siblings a degrading unit of kind `k` leaves behind: every child
/// edge past the continuation edge, resolved to effective flags.
pub open spec fn spec_spawn_edges(k: BloonName) -> Seq<(BloonName, BloonProperty)> {
    spec_children(k).skip(1).map_values(
        |c: (BloonName, BloonProperty)| (c.0, spec_effective(c.0, c.1)),
    )
}

/// The damage cascade, one tier at a time. Damage below the unit's hit
/// points is absorbed; otherwise the unit pays its hit points, is destroyed
/// if its kind is terminal, and else degrades into its continuation kind at
/// full hit points, leaves its sibling spawns behind, and the remainder of
/// the damage carries on against the new tier.
pub open spec fn spec_cascade(current: BloonName, hp: nat, damage: nat) -> CascadeResult
    decreases kind_rank(current),
    via spec_cascade_decreases
{
    if damage < hp {
        CascadeResult {
            destroyed: false,
            kind: current,
            hp: (hp - damage) as nat,
            spawned: Seq::empty(),
        }
    } else if spec_children(current).len() == 0 {
        CascadeResult { destroyed: true, kind: current, hp: 0, spawned: Seq::empty() }
    } else {
        let cont = spec_children(current)[0].0;
        let rest = spec_cascade(cont, spec_hp(cont), (damage - hp) as nat);
        CascadeResult {
            destroyed: rest.destroyed,
            kind: rest.kind,
            hp: rest.hp,
            spawned: spec_spawn_edges(current) + rest.spawned,
        }
    }
}

#[via_fn]
proof fn spec_cascade_decreases(current: BloonName, hp: nat, damage: nat) {
    if damage >= hp && spec_children(current).len() > 0 {
        lemma_child_rank(current);
        assert(kind_rank(spec_children(current)[0].0) < kind_rank(current));
    }
}

/// The outcome tag a cascade reports.
pub open spec fn spec_outcome(c: CascadeResult) -> DamageOutcome {
    if c.destroyed {
        DamageOutcome::Destroyed
    } else if c.spawned.len() > 0 {
        DamageOutcome::Changed
    } else {
        DamageOutcome::Unchanged
    }
}

/// A spawned unit is fully determined by its spawn edge: it starts as the
/// edge's kind, at that kind's full hit points, with the edge's effective
/// flags.
pub open spec fn spawn_matches(b: BloonInstance, s: (BloonName, BloonProperty)) -> bool {
    &&& b.initial == s.0
    &&& b.current == s.0
    &&& b.hp == spec_hp(s.0)
    &&& b.properties == s.1
}

/// Damage of at least the unit's hit points destroys a unit of a terminal
/// kind outright: no continuation, no spawns, no hit points left.
pub proof fn lemma_terminal_destroyed(k: BloonName, hp: nat, damage: nat)
    requires
        spec_children(k).len() == 0,
        damage >= hp,
    ensures
        spec_cascade(k, hp, damage).destroyed,
        spec_cascade(k, hp, damage).kind == k,
        spec_cascade(k, hp, damage).hp == 0,
        spec_cascade(k, hp, damage).spawned.len() == 0,
{
}

impl BloonInstance {
    /// A live unit's hit points stay within its current kind's declared
    /// range; they reach 0 only transiently inside a damage application.
    pub open spec fn wf(self) -> bool {
        1 <= self.hp <= spec_hp(self.current)
    }

    /// A fresh unit of kind `name`: full hit points, and the kind's base
    /// flags unioned with whatever extra flags the spawn context carries.
    pub fn new(graph: &BloonGraph, name: BloonName, properties: BloonProperty) -> (r:
        BloonInstance)
        requires
            graph.wf(),
        ensures
            r.initial == name,
            r.current == name,
            r.hp == spec_hp(name),
            r.properties == spec_base_props(name).spec_union(properties),
            r.wf(),
    {
        let node = graph.node(name);
        BloonInstance {
            initial: name,
            current: name,
            hp: node.hp,
            properties: node.properties.union(properties),
        }
    }

    /// Applies `damage` to the unit, cascading through as many tiers as the
    /// amount pays for, exactly as `spec_cascade` lays it out: the unit is
    /// mutated in place to the cascade's final kind and hit points, the
    /// spawned siblings are returned as fresh units, and the outcome tag
    /// reports destruction, sibling spawns, or neither.
    #[verifier::loop_isolation(false)]
    pub fn take_damage(&mut self, graph: &BloonGraph, damage: u32) -> (r: (
        DamageOutcome,
        Vec<BloonInstance>,
    ))
        requires
            graph.wf(),
            old(self).wf(),
        ensures
            ({
                let c = spec_cascade(old(self).current, old(self).hp as nat, damage as nat);
                &&& final(self).initial == old(self).initial
                &&& final(self).properties == old(self).properties
                &&& final(self).current == c.kind
                &&& final(self).hp == c.hp
                &&& !c.destroyed ==> final(self).wf()
                &&& r.0 == spec_outcome(c)
                &&& r.1@.len() == c.spawned.len()
                &&& forall|i: int|
                    0 <= i < r.1@.len() ==> spawn_matches(#[trigger] r.1@[i], c.spawned[i])
            }),
    {
        let ghost c = spec_cascade(old(self).current, old(self).hp as nat, damage as nat);
        let mut remaining = damage;
        let mut extras: Vec<BloonInstance> = Vec::new();
        while remaining >= self.hp
            invariant
                self.wf(),
                self.initial == old(self).initial,
                self.properties == old(self).properties,
                ({
                    let rest = spec_cascade(self.current, self.hp as nat, remaining as nat);
                    &&& c.destroyed == rest.destroyed
                    &&& c.kind == rest.kind
                    &&& c.hp == rest.hp
                    &&& c.spawned.len() == extras@.len() + rest.spawned.len()
                    &&& forall|i: int|
                        0 <= i < rest.spawned.len() ==> rest.spawned[i] == c.spawned[extras@.len()
                            + i]
                }),
                forall|i: int|
                    0 <= i < extras@.len() ==> spawn_matches(#[trigger] extras@[i], c.spawned[i]),
            decreases kind_rank(self.current),
        {
            let ghost cur0 = self.current;
            let ghost hp0 = self.hp;
            let ghost rem0 = remaining;
            let ghost done = extras@.len();
            remaining = remaining - self.hp;
            self.hp = 0;
            let children = graph.children_of(self.current);
            if children.len() == 0 {
                proof {
                    assert(spec_cascade(cur0, hp0 as nat, rem0 as nat).destroyed);
                }
                return (DamageOutcome::Destroyed, extras);
            }
            proof {
                lemma_child_rank(cur0);
            }
            let cont = children[0].0;
            let cont_hp = children[0].1.hp;
            self.current = cont;
            self.hp = cont_hp;
            let ghost rest2 = spec_cascade(cont, spec_hp(cont), (rem0 - hp0) as nat);
            proof {
                let pre = spec_cascade(cur0, hp0 as nat, rem0 as nat);
                assert(pre.spawned == spec_spawn_edges(cur0) + rest2.spawned);
                assert(spec_spawn_edges(cur0).len() == children@.len() - 1);
                assert forall|t: int| 0 <= t < children@.len() - 1 implies #[trigger] c.spawned[
                    done + t] == spec_spawn_edges(cur0)[t] by {
                    assert(pre.spawned[t] == spec_spawn_edges(cur0)[t]);
                }
            }
            let mut j: usize = 1;
            while j < children.len()
                invariant
                    1 <= j <= children@.len(),
                    extras@.len() == done + j - 1,
                    forall|t: int|
                        0 <= t < children@.len() - 1 ==> #[trigger] c.spawned[done + t]
                            == spec_spawn_edges(cur0)[t],
                    forall|i: int|
                        0 <= i < extras@.len() ==> spawn_matches(
                            #[trigger] extras@[i],
                            c.spawned[i],
                        ),
                decreases children@.len() - j,
            {
                let child_name = children[j].0;
                let child_props = children[j].1.properties;
                let spawned_unit = BloonInstance::new(graph, child_name, child_props);
                proof {
                    let edge = spec_children(cur0)[j as int];
                    assert(spec_spawn_edges(cur0)[j - 1] == (
                        edge.0,
                        spec_effective(edge.0, edge.1),
                    ));
                    assert(spec_base_props(edge.0).spec_union(spec_effective(edge.0, edge.1))
                        == spec_effective(edge.0, edge.1));
                    assert(c.spawned[done + (j - 1)] == spec_spawn_edges(cur0)[j - 1]);
                }
                extras.push(spawned_unit);
                j = j + 1;
            }
            proof {
                let pre = spec_cascade(cur0, hp0 as nat, rem0 as nat);
                assert(pre.spawned.len() == spec_spawn_edges(cur0).len() + rest2.spawned.len());
                assert forall|i: int| 0 <= i < rest2.spawned.len() implies rest2.spawned[i]
                    == c.spawned[extras@.len() + i] by {
                    assert(pre.spawned[(children@.len() - 1) + i] == rest2.spawned[i]);
                    assert(c.spawned[done + ((children@.len() - 1) + i)] == pre.spawned[(
                    children@.len() - 1) + i]);
                }
            }
        }
        self.hp = self.hp - remaining;
        let outcome = if extras.len() == 0 {
            DamageOutcome::Unchanged
        } else {
            DamageOutcome::Changed
        };
        (outcome, extras)
    }
}

} // verus!
