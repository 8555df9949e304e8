//! The static bloon taxonomy: kinds, their base stats, their ordered
//! degrade-into edges, and the derived RBE ("remaining bloon equivalent")
//! query, the total hit-point cost of fully eliminating a kind and every
//! unit it would ever spawn.

use vstd::prelude::*;

verus! {

/// Capability flags carried by bloon kinds and by spawn edges.
///
/// Membership is what matters, never a bit position. `regen` is declared on
/// some edges of the taxonomy but is never consulted by the damage logic;
/// only `camo` propagates along an edge (see `spec_effective`).
#[derive(Debug, Clone, Copy, PartialEq, Eq, Structural)]
pub struct BloonProperty {
    /// Can't be seen.
    pub camo: bool,
    /// Regenerates back over time.
    pub regen: bool,
}

impl BloonProperty {
    /// The flag set with no capability.
    pub open spec fn spec_empty() -> BloonProperty {
        BloonProperty { camo: false, regen: false }
    }

    /// No capability at all.
    pub fn empty() -> (r: BloonProperty)
        ensures
            r == BloonProperty::spec_empty(),
    {
        BloonProperty { camo: false, regen: false }
    }

    /// Set union of two flag sets.
    pub open spec fn spec_union(self, other: BloonProperty) -> BloonProperty {
        BloonProperty { camo: self.camo || other.camo, regen: self.regen || other.regen }
    }

    /// Union of two flag sets.
    pub fn union(self, other: BloonProperty) -> (r: BloonProperty)
        ensures
            r == self.spec_union(other),
    {
        BloonProperty { camo: self.camo || other.camo, regen: self.regen || other.regen }
    }

    /// The flag set restricted to its `camo` member.
    pub open spec fn spec_camo_only(self) -> BloonProperty {
        BloonProperty { camo: self.camo, regen: false }
    }

    /// Keep only the `camo` member.
    pub fn camo_only(self) -> (r: BloonProperty)
        ensures
            r == self.spec_camo_only(),
    {
        BloonProperty { camo: self.camo, regen: false }
    }
}

/// The closed enumeration of taxonomy kinds, from the weakest unit (`Red`)
/// up through the strongest composite (`BAD`).
#[derive(Debug, PartialEq, Eq, Hash, Clone, Copy, Structural)]
pub enum BloonName {
    Red,
    Blue,
    Green,
    Yellow,
    Pink,
    Black,
    White,
    Purple,
    Zebra,
    Rainbow,
    Ceramic,
    MOAB,
    BFB,
    ZOMG,
    BAD,
    DDT,
    Lead,
}

/// The slot of a kind in the graph's node table.
pub open spec fn kind_index(k: BloonName) -> int {
    match k {
        BloonName::Red => 0,
        BloonName::Blue => 1,
        BloonName::Green => 2,
        BloonName::Yellow => 3,
        BloonName::Pink => 4,
        BloonName::Black => 5,
        BloonName::White => 6,
        BloonName::Purple => 7,
        BloonName::Zebra => 8,
        BloonName::Rainbow => 9,
        BloonName::Ceramic => 10,
        BloonName::MOAB => 11,
        BloonName::BFB => 12,
        BloonName::ZOMG => 13,
        BloonName::BAD => 14,
        BloonName::DDT => 15,
        BloonName::Lead => 16,
    }
}

/// The slot of a kind in the graph's node table.
pub(crate) fn kind_slot(k: BloonName) -> (i: usize)
    ensures
        i == kind_index(k),
        i < 17,
{
    match k {
        BloonName::Red => 0,
        BloonName::Blue => 1,
        BloonName::Green => 2,
        BloonName::Yellow => 3,
        BloonName::Pink => 4,
        BloonName::Black => 5,
        BloonName::White => 6,
        BloonName::Purple => 7,
        BloonName::Zebra => 8,
        BloonName::Rainbow => 9,
        BloonName::Ceramic => 10,
        BloonName::MOAB => 11,
        BloonName::BFB => 12,
        BloonName::ZOMG => 13,
        BloonName::BAD => 14,
        BloonName::DDT => 15,
        BloonName::Lead => 16,
    }
}

/// Height of a kind in the taxonomy: every child of a kind has a strictly
/// smaller rank, which makes the acyclic graph walks terminate.
pub open spec fn kind_rank(k: BloonName) -> nat {
    match k {
        BloonName::Red => 0,
        BloonName::Blue => 1,
        BloonName::Green => 2,
        BloonName::Yellow => 3,
        BloonName::Pink => 4,
        BloonName::Black => 5,
        BloonName::White => 5,
        BloonName::Purple => 5,
        BloonName::Zebra => 6,
        BloonName::Lead => 6,
        BloonName::Rainbow => 7,
        BloonName::Ceramic => 8,
        BloonName::DDT => 9,
        BloonName::MOAB => 9,
        BloonName::BFB => 10,
        BloonName::ZOMG => 11,
        BloonName::BAD => 12,
    }
}

/// Base hit points of a kind, exactly as the taxonomy table declares them.
pub open spec fn spec_hp(k: BloonName) -> nat {
    match k {
        BloonName::Ceramic => 10,
        BloonName::MOAB => 200,
        BloonName::BFB => 700,
        BloonName::ZOMG => 4000,
        BloonName::BAD => 20000,
        BloonName::DDT => 400,
        _ => 1,
    }
}

/// Capability flags inherent to a kind: only the DDT carries `camo`
/// intrinsically.
pub open spec fn spec_base_props(k: BloonName) -> BloonProperty {
    if k == BloonName::DDT {
        BloonProperty { camo: true, regen: false }
    } else {
        BloonProperty::spec_empty()
    }
}

/// The ordered child edges of a kind: position 0 is the continuation kind a
/// unit degrades into, later positions are siblings spawned alongside. Each
/// edge carries a property override; only the DDT's edges declare one.
pub open spec fn spec_children(k: BloonName) -> Seq<(BloonName, BloonProperty)> {
    let e = BloonProperty::spec_empty();
    let cr = BloonProperty { camo: true, regen: true };
    match k {
        BloonName::Red => seq![],
        BloonName::Blue => seq![(BloonName::Red, e)],
        BloonName::Green => seq![(BloonName::Blue, e)],
        BloonName::Yellow => seq![(BloonName::Green, e)],
        BloonName::Pink => seq![(BloonName::Yellow, e)],
        BloonName::Purple => seq![(BloonName::Pink, e), (BloonName::Pink, e)],
        BloonName::Black => seq![(BloonName::Pink, e), (BloonName::Pink, e)],
        BloonName::White => seq![(BloonName::Pink, e), (BloonName::Pink, e)],
        BloonName::Lead => seq![(BloonName::Black, e), (BloonName::Black, e)],
        BloonName::Zebra => seq![(BloonName::Black, e), (BloonName::White, e)],
        BloonName::Rainbow => seq![(BloonName::Zebra, e), (BloonName::Zebra, e)],
        BloonName::Ceramic => seq![(BloonName::Rainbow, e), (BloonName::Rainbow, e)],
        BloonName::MOAB => seq![
            (BloonName::Ceramic, e),
            (BloonName::Ceramic, e),
            (BloonName::Ceramic, e),
            (BloonName::Ceramic, e),
        ],
        BloonName::BFB => seq![
            (BloonName::MOAB, e),
            (BloonName::MOAB, e),
            (BloonName::MOAB, e),
            (BloonName::MOAB, e),
        ],
        BloonName::ZOMG => seq![
            (BloonName::BFB, e),
            (BloonName::BFB, e),
            (BloonName::BFB, e),
            (BloonName::BFB, e),
        ],
        BloonName::BAD => seq![
            (BloonName::ZOMG, e),
            (BloonName::ZOMG, e),
            (BloonName::DDT, e),
            (BloonName::DDT, e),
            (BloonName::DDT, e),
        ],
        BloonName::DDT => seq![
            (BloonName::Ceramic, cr),
            (BloonName::Ceramic, cr),
            (BloonName::Ceramic, cr),
            (BloonName::Ceramic, cr),
        ],
    }
}

/// The effective flags of a child reached over an edge: the child's base
/// flags, plus the `camo` member of the edge override. The DDT already
/// carries its camouflage intrinsically and an incoming edge never alters it.
pub open spec fn spec_effective(child: BloonName, edge: BloonProperty) -> BloonProperty {
    if child == BloonName::DDT {
        spec_base_props(child)
    } else {
        spec_base_props(child).spec_union(edge.spec_camo_only())
    }
}

/// The kinds of a kind's children, in edge order.
pub open spec fn spec_child_kinds(k: BloonName) -> Seq<BloonName> {
    spec_children(k).map_values(|c: (BloonName, BloonProperty)| c.0)
}

/// RBE ("remaining bloon equivalent") of a kind: the total hit-point cost of
/// fully eliminating one unit of it and everything it would ever spawn. By
/// convention the weakest kind counts as the indivisible cost unit, so its
/// RBE is fixed at 1 whatever its declared hit points; every other kind adds
/// its own hit points to the RBE of each of its child references, each
/// reference counted independently.
pub open spec fn spec_rbe(k: BloonName) -> nat
    decreases kind_rank(k),
{
    match k {
        BloonName::Red => 1,
        BloonName::Blue => spec_hp(k) + spec_rbe(BloonName::Red),
        BloonName::Green => spec_hp(k) + spec_rbe(BloonName::Blue),
        BloonName::Yellow => spec_hp(k) + spec_rbe(BloonName::Green),
        BloonName::Pink => spec_hp(k) + spec_rbe(BloonName::Yellow),
        BloonName::Purple => spec_hp(k) + spec_rbe(BloonName::Pink) + spec_rbe(BloonName::Pink),
        BloonName::Black => spec_hp(k) + spec_rbe(BloonName::Pink) + spec_rbe(BloonName::Pink),
        BloonName::White => spec_hp(k) + spec_rbe(BloonName::Pink) + spec_rbe(BloonName::Pink),
        BloonName::Lead => spec_hp(k) + spec_rbe(BloonName::Black) + spec_rbe(BloonName::Black),
        BloonName::Zebra => spec_hp(k) + spec_rbe(BloonName::Black) + spec_rbe(BloonName::White),
        BloonName::Rainbow => spec_hp(k) + spec_rbe(BloonName::Zebra) + spec_rbe(BloonName::Zebra),
        BloonName::Ceramic => spec_hp(k) + spec_rbe(BloonName::Rainbow) + spec_rbe(
            BloonName::Rainbow,
        ),
        BloonName::MOAB => spec_hp(k) + spec_rbe(BloonName::Ceramic) + spec_rbe(BloonName::Ceramic)
            + spec_rbe(BloonName::Ceramic) + spec_rbe(BloonName::Ceramic),
        BloonName::BFB => spec_hp(k) + spec_rbe(BloonName::MOAB) + spec_rbe(BloonName::MOAB)
            + spec_rbe(BloonName::MOAB) + spec_rbe(BloonName::MOAB),
        BloonName::ZOMG => spec_hp(k) + spec_rbe(BloonName::BFB) + spec_rbe(BloonName::BFB)
            + spec_rbe(BloonName::BFB) + spec_rbe(BloonName::BFB),
        BloonName::BAD => spec_hp(k) + spec_rbe(BloonName::ZOMG) + spec_rbe(BloonName::ZOMG)
            + spec_rbe(BloonName::DDT) + spec_rbe(BloonName::DDT) + spec_rbe(BloonName::DDT),
        BloonName::DDT => spec_hp(k) + spec_rbe(BloonName::Ceramic) + spec_rbe(BloonName::Ceramic)
            + spec_rbe(BloonName::Ceramic) + spec_rbe(BloonName::Ceramic),
    }
}

/// Sum of the RBE of each kind in a sequence.
pub open spec fn rbe_sum(s: Seq<BloonName>) -> nat
    decreases s.len(),
{
    if s.len() == 0 {
        0
    } else {
        spec_rbe(s[0]) + rbe_sum(s.skip(1))
    }
}

proof fn lemma_rbe_sum1(a: BloonName)
    ensures
        rbe_sum(seq![a]) == spec_rbe(a),
{
    assert(seq![a].skip(1) =~= Seq::<BloonName>::empty());
    assert(rbe_sum(Seq::<BloonName>::empty()) == 0);
    assert(rbe_sum(seq![a]) == spec_rbe(a) + rbe_sum(seq![a].skip(1)));
}

proof fn lemma_rbe_sum2(a: BloonName, b: BloonName)
    ensures
        rbe_sum(seq![a, b]) == spec_rbe(a) + spec_rbe(b),
{
    assert(seq![a, b].skip(1) =~= seq![b]);
    lemma_rbe_sum1(b);
    assert(rbe_sum(seq![a, b]) == spec_rbe(a) + rbe_sum(seq![a, b].skip(1)));
}

proof fn lemma_rbe_sum3(a: BloonName, b: BloonName, c: BloonName)
    ensures
        rbe_sum(seq![a, b, c]) == spec_rbe(a) + spec_rbe(b) + spec_rbe(c),
{
    assert(seq![a, b, c].skip(1) =~= seq![b, c]);
    lemma_rbe_sum2(b, c);
    assert(rbe_sum(seq![a, b, c]) == spec_rbe(a) + rbe_sum(seq![a, b, c].skip(1)));
}

proof fn lemma_rbe_sum4(a: BloonName, b: BloonName, c: BloonName, d: BloonName)
    ensures
        rbe_sum(seq![a, b, c, d]) == spec_rbe(a) + spec_rbe(b) + spec_rbe(c) + spec_rbe(d),
{
    assert(seq![a, b, c, d].skip(1) =~= seq![b, c, d]);
    lemma_rbe_sum3(b, c, d);
    assert(rbe_sum(seq![a, b, c, d]) == spec_rbe(a) + rbe_sum(seq![a, b, c, d].skip(1)));
}

proof fn lemma_rbe_sum5(a: BloonName, b: BloonName, c: BloonName, d: BloonName, e: BloonName)
    ensures
        rbe_sum(seq![a, b, c, d, e]) == spec_rbe(a) + spec_rbe(b) + spec_rbe(c) + spec_rbe(d)
            + spec_rbe(e),
{
    assert(seq![a, b, c, d, e].skip(1) =~= seq![b, c, d, e]);
    lemma_rbe_sum4(b, c, d, e);
    assert(rbe_sum(seq![a, b, c, d, e]) == spec_rbe(a) + rbe_sum(seq![a, b, c, d, e].skip(1)));
}

/// RBE follows the graph: for every kind, its RBE is its own hit points plus
/// the sum of the RBE of its children, and the weakest kind has no children.
pub proof fn lemma_rbe_decomposition(k: BloonName)
    ensures
        spec_rbe(k) == spec_hp(k) + rbe_sum(spec_child_kinds(k)),
        spec_child_kinds(BloonName::Red).len() == 0,
{
    match k {
        BloonName::Red => {
            assert(spec_child_kinds(BloonName::Red) =~= Seq::<BloonName>::empty());
        },
        BloonName::Blue => {
            assert(spec_child_kinds(k) =~= seq![BloonName::Red]);
            lemma_rbe_sum1(BloonName::Red);
        },
        BloonName::Green => {
            assert(spec_child_kinds(k) =~= seq![BloonName::Blue]);
            lemma_rbe_sum1(BloonName::Blue);
        },
        BloonName::Yellow => {
            assert(spec_child_kinds(k) =~= seq![BloonName::Green]);
            lemma_rbe_sum1(BloonName::Green);
        },
        BloonName::Pink => {
            assert(spec_child_kinds(k) =~= seq![BloonName::Yellow]);
            lemma_rbe_sum1(BloonName::Yellow);
        },
        BloonName::Purple => {
            assert(spec_child_kinds(k) =~= seq![BloonName::Pink, BloonName::Pink]);
            lemma_rbe_sum2(BloonName::Pink, BloonName::Pink);
        },
        BloonName::Black => {
            assert(spec_child_kinds(k) =~= seq![BloonName::Pink, BloonName::Pink]);
            lemma_rbe_sum2(BloonName::Pink, BloonName::Pink);
        },
        BloonName::White => {
            assert(spec_child_kinds(k) =~= seq![BloonName::Pink, BloonName::Pink]);
            lemma_rbe_sum2(BloonName::Pink, BloonName::Pink);
        },
        BloonName::Lead => {
            assert(spec_child_kinds(k) =~= seq![BloonName::Black, BloonName::Black]);
            lemma_rbe_sum2(BloonName::Black, BloonName::Black);
        },
        BloonName::Zebra => {
            assert(spec_child_kinds(k) =~= seq![BloonName::Black, BloonName::White]);
            lemma_rbe_sum2(BloonName::Black, BloonName::White);
        },
        BloonName::Rainbow => {
            assert(spec_child_kinds(k) =~= seq![BloonName::Zebra, BloonName::Zebra]);
            lemma_rbe_sum2(BloonName::Zebra, BloonName::Zebra);
        },
        BloonName::Ceramic => {
            assert(spec_child_kinds(k) =~= seq![BloonName::Rainbow, BloonName::Rainbow]);
            lemma_rbe_sum2(BloonName::Rainbow, BloonName::Rainbow);
        },
        BloonName::MOAB => {
            assert(spec_child_kinds(k) =~= seq![
                BloonName::Ceramic,
                BloonName::Ceramic,
                BloonName::Ceramic,
                BloonName::Ceramic,
            ]);
            lemma_rbe_sum4(BloonName::Ceramic, BloonName::Ceramic, BloonName::Ceramic,
                BloonName::Ceramic);
        },
        BloonName::BFB => {
            assert(spec_child_kinds(k) =~= seq![
                BloonName::MOAB,
                BloonName::MOAB,
                BloonName::MOAB,
                BloonName::MOAB,
            ]);
            lemma_rbe_sum4(BloonName::MOAB, BloonName::MOAB, BloonName::MOAB, BloonName::MOAB);
        },
        BloonName::ZOMG => {
            assert(spec_child_kinds(k) =~= seq![
                BloonName::BFB,
                BloonName::BFB,
                BloonName::BFB,
                BloonName::BFB,
            ]);
            lemma_rbe_sum4(BloonName::BFB, BloonName::BFB, BloonName::BFB, BloonName::BFB);
        },
        BloonName::BAD => {
            assert(spec_child_kinds(k) =~= seq![
                BloonName::ZOMG,
                BloonName::ZOMG,
                BloonName::DDT,
                BloonName::DDT,
                BloonName::DDT,
            ]);
            lemma_rbe_sum5(BloonName::ZOMG, BloonName::ZOMG, BloonName::DDT, BloonName::DDT,
                BloonName::DDT);
        },
        BloonName::DDT => {
            assert(spec_child_kinds(k) =~= seq![
                BloonName::Ceramic,
                BloonName::Ceramic,
                BloonName::Ceramic,
                BloonName::Ceramic,
            ]);
            lemma_rbe_sum4(BloonName::Ceramic, BloonName::Ceramic, BloonName::Ceramic,
                BloonName::Ceramic);
        },
    }
    assert(spec_child_kinds(BloonName::Red) =~= Seq::<BloonName>::empty());
}

/// The RBE of the weakest kind is 1 by convention; the definition never
/// consults its declared hit points.
pub proof fn lemma_rbe_root()
    ensures
        spec_rbe(BloonName::Red) == 1,
{
}

/// The exact RBE of every kind in the taxonomy table.
pub proof fn lemma_rbe_values()
    ensures
        spec_rbe(BloonName::Red) == 1,
        spec_rbe(BloonName::Blue) == 2,
        spec_rbe(BloonName::Green) == 3,
        spec_rbe(BloonName::Yellow) == 4,
        spec_rbe(BloonName::Pink) == 5,
        spec_rbe(BloonName::Purple) == 11,
        spec_rbe(BloonName::Black) == 11,
        spec_rbe(BloonName::White) == 11,
        spec_rbe(BloonName::Lead) == 23,
        spec_rbe(BloonName::Zebra) == 23,
        spec_rbe(BloonName::Rainbow) == 47,
        spec_rbe(BloonName::Ceramic) == 104,
        spec_rbe(BloonName::MOAB) == 616,
        spec_rbe(BloonName::BFB) == 3164,
        spec_rbe(BloonName::ZOMG) == 16656,
        spec_rbe(BloonName::DDT) == 816,
        spec_rbe(BloonName::BAD) == 55760,
{
    assert(spec_rbe(BloonName::Red) == 1);
    assert(spec_rbe(BloonName::Blue) == 2);
    assert(spec_rbe(BloonName::Green) == 3);
    assert(spec_rbe(BloonName::Yellow) == 4);
    assert(spec_rbe(BloonName::Pink) == 5);
    assert(spec_rbe(BloonName::Purple) == 11);
    assert(spec_rbe(BloonName::Black) == 11);
    assert(spec_rbe(BloonName::White) == 11);
    assert(spec_rbe(BloonName::Lead) == 23);
    assert(spec_rbe(BloonName::Zebra) == 23);
    assert(spec_rbe(BloonName::Rainbow) == 47);
    assert(spec_rbe(BloonName::Ceramic) == 104);
    assert(spec_rbe(BloonName::MOAB) == 616);
    assert(spec_rbe(BloonName::BFB) == 3164);
    assert(spec_rbe(BloonName::ZOMG) == 16656);
    assert(spec_rbe(BloonName::DDT) == 816);
    assert(spec_rbe(BloonName::BAD) == 55760);
}

/// No kind's RBE exceeds that of the strongest composite.
pub proof fn lemma_rbe_bound(k: BloonName)
    ensures
        spec_rbe(k) <= 55760,
{
    lemma_rbe_values();
    match k {
        BloonName::Red => {},
        BloonName::Blue => {},
        BloonName::Green => {},
        BloonName::Yellow => {},
        BloonName::Pink => {},
        BloonName::Black => {},
        BloonName::White => {},
        BloonName::Purple => {},
        BloonName::Zebra => {},
        BloonName::Rainbow => {},
        BloonName::Ceramic => {},
        BloonName::MOAB => {},
        BloonName::BFB => {},
        BloonName::ZOMG => {},
        BloonName::BAD => {},
        BloonName::DDT => {},
        BloonName::Lead => {},
    }
}

/// Every child of a kind sits strictly lower in the taxonomy.
pub proof fn lemma_child_rank(k: BloonName)
    ensures
        forall|i: int|
            0 <= i < spec_children(k).len() ==> kind_rank(
                #[trigger] spec_children(k)[i].0,
            ) < kind_rank(k),
{
    match k {
        BloonName::Red => {},
        BloonName::Blue => {},
        BloonName::Green => {},
        BloonName::Yellow => {},
        BloonName::Pink => {},
        BloonName::Black => {},
        BloonName::White => {},
        BloonName::Purple => {},
        BloonName::Zebra => {},
        BloonName::Rainbow => {},
        BloonName::Ceramic => {},
        BloonName::MOAB => {},
        BloonName::BFB => {},
        BloonName::ZOMG => {},
        BloonName::BAD => {},
        BloonName::DDT => {},
        BloonName::Lead => {},
    }
}

/// How capability flags travel along edges. A child reached over a DDT edge
/// carries `camo` even though its own node does not declare it; an edge with
/// no override adds nothing; and an edge's `regen` override never reaches
/// the child, whatever the edge declares.
pub proof fn lemma_property_propagation()
    ensures
        forall|i: int|
            0 <= i < spec_children(BloonName::DDT).len() ==> (spec_effective(
                #[trigger] spec_children(BloonName::DDT)[i].0,
                spec_children(BloonName::DDT)[i].1,
            ).camo && !spec_base_props(spec_children(BloonName::DDT)[i].0).camo),
        forall|k: BloonName, i: int|
            0 <= i < spec_children(k).len() && !(#[trigger] spec_children(k)[i]).1.camo
                ==> spec_effective(spec_children(k)[i].0, spec_children(k)[i].1) == spec_base_props(
                spec_children(k)[i].0,
            ),
        forall|k: BloonName, i: int|
            0 <= i < spec_children(k).len() ==> spec_effective(
                (#[trigger] spec_children(k)[i]).0,
                spec_children(k)[i].1,
            ).regen == spec_base_props(spec_children(k)[i].0).regen,
{
}

/// One taxonomy entry: base hit points, inherent capability flags, and the
/// ordered child edges with their property overrides.
#[derive(Debug, Clone)]
pub struct BloonNode {
    pub hp: u32,
    pub properties: BloonProperty,
    pub children: Vec<(BloonName, BloonProperty)>,
}

/// The immutable taxonomy graph: one node per kind, stored at the kind's
/// slot. Built once by `new` and read-only afterwards.
pub struct BloonGraph {
    pub nodes: Vec<BloonNode>,
}

impl BloonGraph {
    /// The node stored for `k` reproduces the taxonomy table exactly.
    pub open spec fn node_ok(self, k: BloonName) -> bool {
        &&& self.nodes@[kind_index(k)].hp == spec_hp(k)
        &&& self.nodes@[kind_index(k)].properties == spec_base_props(k)
        &&& self.nodes@[kind_index(k)].children@ == spec_children(k)
    }

    /// Well-formedness: the table is total over the enumeration and every
    /// entry matches the declared taxonomy.
    pub open spec fn wf(self) -> bool {
        &&& self.nodes@.len() == 17
        &&& forall|k: BloonName| #[trigger] self.node_ok(k)
    }
}

fn no_edges() -> (r: Vec<(BloonName, BloonProperty)>)
    ensures
        r@ == Seq::<(BloonName, BloonProperty)>::empty(),
{
    Vec::new()
}

fn edge_chain(a: BloonName) -> (r: Vec<(BloonName, BloonProperty)>)
    ensures
        r@ == seq![(a, BloonProperty::spec_empty())],
{
    let mut r: Vec<(BloonName, BloonProperty)> = Vec::new();
    r.push((a, BloonProperty::empty()));
    proof {
        assert(r@ =~= seq![(a, BloonProperty::spec_empty())]);
    }
    r
}

fn edge_pair(a: BloonName, b: BloonName) -> (r: Vec<(BloonName, BloonProperty)>)
    ensures
        r@ == seq![(a, BloonProperty::spec_empty()), (b, BloonProperty::spec_empty())],
{
    let mut r: Vec<(BloonName, BloonProperty)> = Vec::new();
    r.push((a, BloonProperty::empty()));
    r.push((b, BloonProperty::empty()));
    proof {
        assert(r@ =~= seq![(a, BloonProperty::spec_empty()), (b, BloonProperty::spec_empty())]);
    }
    r
}

fn edge_quad(a: BloonName, over: BloonProperty) -> (r: Vec<(BloonName, BloonProperty)>)
    ensures
        r@ == seq![(a, over), (a, over), (a, over), (a, over)],
{
    let mut r: Vec<(BloonName, BloonProperty)> = Vec::new();
    r.push((a, over));
    r.push((a, over));
    r.push((a, over));
    r.push((a, over));
    proof {
        assert(r@ =~= seq![(a, over), (a, over), (a, over), (a, over)]);
    }
    r
}

impl BloonGraph {
    /// Builds the fixed taxonomy table, node by node in slot order.
    pub fn new() -> (g: BloonGraph)
        ensures
            g.wf(),
    {
        let mut nodes: Vec<BloonNode> = Vec::new();
        let none = BloonProperty::empty();
        let camo_regen = BloonProperty { camo: true, regen: true };
        nodes.push(BloonNode { hp: 1, properties: none, children: no_edges() });
        nodes.push(BloonNode { hp: 1, properties: none, children: edge_chain(BloonName::Red) });
        nodes.push(BloonNode { hp: 1, properties: none, children: edge_chain(BloonName::Blue) });
        nodes.push(BloonNode { hp: 1, properties: none, children: edge_chain(BloonName::Green) });
        nodes.push(BloonNode { hp: 1, properties: none, children: edge_chain(BloonName::Yellow) });
        nodes.push(
            BloonNode {
                hp: 1,
                properties: none,
                children: edge_pair(BloonName::Pink, BloonName::Pink),
            },
        );
        nodes.push(
            BloonNode {
                hp: 1,
                properties: none,
                children: edge_pair(BloonName::Pink, BloonName::Pink),
            },
        );
        nodes.push(
            BloonNode {
                hp: 1,
                properties: none,
                children: edge_pair(BloonName::Pink, BloonName::Pink),
            },
        );
        nodes.push(
            BloonNode {
                hp: 1,
                properties: none,
                children: edge_pair(BloonName::Black, BloonName::White),
            },
        );
        nodes.push(
            BloonNode {
                hp: 1,
                properties: none,
                children: edge_pair(BloonName::Zebra, BloonName::Zebra),
            },
        );
        nodes.push(
            BloonNode {
                hp: 10,
                properties: none,
                children: edge_pair(BloonName::Rainbow, BloonName::Rainbow),
            },
        );
        nodes.push(
            BloonNode {
                hp: 200,
                properties: none,
                children: edge_quad(BloonName::Ceramic, none),
            },
        );
        nodes.push(
            BloonNode { hp: 700, properties: none, children: edge_quad(BloonName::MOAB, none) },
        );
        nodes.push(
            BloonNode { hp: 4000, properties: none, children: edge_quad(BloonName::BFB, none) },
        );
        let mut bad_edges: Vec<(BloonName, BloonProperty)> = Vec::new();
        bad_edges.push((BloonName::ZOMG, none));
        bad_edges.push((BloonName::ZOMG, none));
        bad_edges.push((BloonName::DDT, none));
        bad_edges.push((BloonName::DDT, none));
        bad_edges.push((BloonName::DDT, none));
        proof {
            assert(bad_edges@ =~= spec_children(BloonName::BAD));
        }
        nodes.push(BloonNode { hp: 20000, properties: none, children: bad_edges });
        nodes.push(
            BloonNode {
                hp: 400,
                properties: BloonProperty { camo: true, regen: false },
                children: edge_quad(BloonName::Ceramic, camo_regen),
            },
        );
        nodes.push(
            BloonNode {
                hp: 1,
                properties: none,
                children: edge_pair(BloonName::Black, BloonName::Black),
            },
        );
        let g = BloonGraph { nodes };
        proof {
            assert(g.node_ok(BloonName::Red));
            assert(g.node_ok(BloonName::Blue));
            assert(g.node_ok(BloonName::Green));
            assert(g.node_ok(BloonName::Yellow));
            assert(g.node_ok(BloonName::Pink));
            assert(g.node_ok(BloonName::Black));
            assert(g.node_ok(BloonName::White));
            assert(g.node_ok(BloonName::Purple));
            assert(g.node_ok(BloonName::Zebra));
            assert(g.node_ok(BloonName::Rainbow));
            assert(g.node_ok(BloonName::Ceramic));
            assert(g.node_ok(BloonName::MOAB));
            assert(g.node_ok(BloonName::BFB));
            assert(g.node_ok(BloonName::ZOMG));
            assert(g.node_ok(BloonName::BAD));
            assert(g.node_ok(BloonName::DDT));
            assert(g.node_ok(BloonName::Lead));
            assert forall|k: BloonName| #[trigger] g.node_ok(k) by {
                match k {
                    BloonName::Red => {},
                    BloonName::Blue => {},
                    BloonName::Green => {},
                    BloonName::Yellow => {},
                    BloonName::Pink => {},
                    BloonName::Black => {},
                    BloonName::White => {},
                    BloonName::Purple => {},
                    BloonName::Zebra => {},
                    BloonName::Rainbow => {},
                    BloonName::Ceramic => {},
                    BloonName::MOAB => {},
                    BloonName::BFB => {},
                    BloonName::ZOMG => {},
                    BloonName::BAD => {},
                    BloonName::DDT => {},
                    BloonName::Lead => {},
                }
            }
        }
        g
    }

    /// Read-only view of the node declared for a kind.
    pub fn node(&self, kind: BloonName) -> (n: &BloonNode)
        requires
            self.wf(),
        ensures
            n.hp == spec_hp(kind),
            n.properties == spec_base_props(kind),
            n.children@ == spec_children(kind),
    {
        proof {
            assert(self.node_ok(kind));
        }
        let i = kind_slot(kind);
        &self.nodes[i]
    }

    /// The resolved children of `parent`, in edge order: each child's kind
    /// together with a copy of its node whose `properties` field holds the
    /// effective flags of that edge (see `spec_effective`).
    #[verifier::loop_isolation(false)]
    pub fn children_of(&self, parent: BloonName) -> (r: Vec<(BloonName, BloonNode)>)
        requires
            self.wf(),
        ensures
            r@.len() == spec_children(parent).len(),
            forall|i: int|
                0 <= i < r@.len() ==> {
                    &&& (#[trigger] r@[i]).0 == spec_children(parent)[i].0
                    &&& r@[i].1.hp == spec_hp(spec_children(parent)[i].0)
                    &&& r@[i].1.properties == spec_effective(
                        spec_children(parent)[i].0,
                        spec_children(parent)[i].1,
                    )
                    &&& r@[i].1.children@ == spec_children(spec_children(parent)[i].0)
                },
    {
        proof {
            assert(self.node_ok(parent));
        }
        let pi = kind_slot(parent);
        let n = self.nodes[pi].children.len();
        let mut r: Vec<(BloonName, BloonNode)> = Vec::new();
        let mut i: usize = 0;
        while i < n
            invariant
                i <= n,
                r@.len() == i,
                forall|j: int|
                    0 <= j < r@.len() ==> {
                        &&& (#[trigger] r@[j]).0 == spec_children(parent)[j].0
                        &&& r@[j].1.hp == spec_hp(spec_children(parent)[j].0)
                        &&& r@[j].1.properties == spec_effective(
                            spec_children(parent)[j].0,
                            spec_children(parent)[j].1,
                        )
                        &&& r@[j].1.children@ == spec_children(spec_children(parent)[j].0)
                    },
            decreases n - i,
        {
            let (cname, eprops) = self.nodes[pi].children[i];
            proof {
                assert(self.node_ok(cname));
            }
            let ci = kind_slot(cname);
            let cnode = &self.nodes[ci];
            let props = if cname == BloonName::DDT {
                cnode.properties
            } else {
                cnode.properties.union(eprops.camo_only())
            };
            let kids = copy_edges(&cnode.children);
            r.push((cname, BloonNode { hp: cnode.hp, properties: props, children: kids }));
            i = i + 1;
        }
        r
    }

    /// RBE of a kind, computed by walking the graph: the kind's own hit
    /// points plus the RBE of every child reference, with the weakest kind
    /// fixed at 1 by convention.
    #[verifier::loop_isolation(false)]
    pub fn rbe(&self, name: BloonName) -> (r: u32)
        requires
            self.wf(),
        ensures
            r == spec_rbe(name),
        decreases kind_rank(name),
    {
        if name == BloonName::Red {
            1
        } else {
            proof {
                assert(self.node_ok(name));
                lemma_rbe_decomposition(name);
                lemma_rbe_bound(name);
                lemma_child_rank(name);
            }
            let ghost ck = spec_child_kinds(name);
            let children = self.children_of(name);
            let pi = kind_slot(name);
            let mut total: u32 = self.nodes[pi].hp;
            let mut i: usize = 0;
            proof {
                assert(ck.skip(0) =~= ck);
            }
            while i < children.len()
                invariant
                    i <= children.len(),
                    total + rbe_sum(ck.skip(i as int)) == spec_rbe(name),
                decreases children.len() - i,
            {
                proof {
                    assert(ck.skip(i as int).skip(1) =~= ck.skip(i as int + 1));
                    assert(ck[i as int] == spec_children(name)[i as int].0);
                    assert(rbe_sum(ck.skip(i as int)) == spec_rbe(ck[i as int]) + rbe_sum(
                        ck.skip(i as int + 1),
                    ));
                }
                let sub = self.rbe(children[i].0);
                total = total + sub;
                i = i + 1;
            }
            proof {
                assert(ck.skip(children@.len() as int) =~= Seq::<BloonName>::empty());
            }
            total
        }
    }
}

/// A fresh element-by-element copy of an edge list.
#[verifier::loop_isolation(false)]
fn copy_edges(v: &Vec<(BloonName, BloonProperty)>) -> (r: Vec<(BloonName, BloonProperty)>)
    ensures
        r@ == v@,
{
    let mut r: Vec<(BloonName, BloonProperty)> = Vec::new();
    let mut i: usize = 0;
    while i < v.len()
        invariant
            i <= v@.len(),
            r@ == v@.take(i as int),
        decreases v@.len() - i,
    {
        r.push(v[i]);
        proof {
            assert(r@ =~= v@.take(i as int + 1));
        }
        i = i + 1;
    }
    proof {
        assert(v@.take(v@.len() as int) =~= v@);
    }
    r
}

} // verus!
