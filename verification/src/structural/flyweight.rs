//! Flyweight: many placements share immutable per-type records.
//!
//! A `TreeFactory` interns `TreeType` records: asking for an attribute tuple
//! returns the handle of the one stored record with exactly those attributes,
//! creating it only if no structurally equal record exists yet. A `Forest`
//! holds lightweight placements, each a position plus a handle into the
//! factory, and draws them in insertion order on a caller-supplied canvas.

use vstd::prelude::*;

verus! {

/// Attributes shared by many placements: a name, an RGBA color, a texture.
/// Equality of records is structural: all fields equal.
pub struct TreeType {
    pub name: String,
    pub color: (u8, u8, u8, u8),
    pub texture: String,
}

/// The mathematical image of a `TreeType`: its text fields as sequences.
pub struct TreeTypeView {
    pub name: Seq<char>,
    pub color: (u8, u8, u8, u8),
    pub texture: Seq<char>,
}

impl View for TreeType {
    type V = TreeTypeView;

    open spec fn view(&self) -> TreeTypeView {
        TreeTypeView { name: self.name@, color: self.color, texture: self.texture@ }
    }
}

impl Clone for TreeType {
    fn clone(&self) -> (r: Self)
        ensures
            r@ == self@,
    {
        TreeType { name: self.name.clone(), color: self.color, texture: self.texture.clone() }
    }
}

/// A drawing capability supplied by the host: the forest only reports
/// positions to it, and the specification records the order of those calls.
pub trait Canvas {
    /// The positions this canvas has been asked to draw, oldest first.
    spec fn calls(&self) -> Seq<(u64, u64)>;

    fn draw(&mut self, x: u64, y: u64)
        ensures
            final(self).calls() == old(self).calls().push((x, y)),
    ;
}

/// A canvas that just remembers every requested position, in order.
pub struct CanvasLog {
    pub points: Vec<(u64, u64)>,
}

impl Canvas for CanvasLog {
    open spec fn calls(&self) -> Seq<(u64, u64)> {
        self.points@
    }

    fn draw(&mut self, x: u64, y: u64) {
        self.points.push((x, y));
    }
}

impl TreeType {
    /// Drawing a record asks the canvas for exactly one mark at `(x, y)`.
    pub fn draw<C: Canvas>(&self, canvas: &mut C, x: u64, y: u64)
        ensures
            final(canvas).calls() == old(canvas).calls().push((x, y)),
    {
        canvas.draw(x, y);
    }
}

/// Index of the first record in `s` equal to `a`; `s.len()` if there is none.
pub open spec fn first_index(s: Seq<TreeTypeView>, a: TreeTypeView) -> int
    decreases s.len(),
{
    if s.len() == 0 {
        0
    } else if s[0] == a {
        0
    } else {
        1 + first_index(s.drop_first(), a)
    }
}

/// What resolving attribute tuple `a` against record store `s` yields:
/// the store afterwards and the handle returned.
pub open spec fn resolve_model(s: Seq<TreeTypeView>, a: TreeTypeView) -> (Seq<TreeTypeView>, int) {
    if exists|i: int| 0 <= i < s.len() && s[i] == a {
        (s, first_index(s, a))
    } else {
        (s.push(a), s.len() as int)
    }
}

/// `first_index` finds the leftmost occurrence when one exists.
pub proof fn lemma_first_index(s: Seq<TreeTypeView>, a: TreeTypeView)
    requires
        exists|i: int| 0 <= i < s.len() && s[i] == a,
    ensures
        0 <= first_index(s, a) < s.len(),
        s[first_index(s, a)] == a,
        forall|j: int| 0 <= j < first_index(s, a) ==> s[j] != a,
    decreases s.len(),
{
    if s.len() == 0 {
    } else if s[0] == a {
    } else {
        let t = s.drop_first();
        let w = choose|i: int| 0 <= i < s.len() && s[i] == a;
        assert(t[w - 1] == a);
        lemma_first_index(t, a);
        assert(forall|j: int| 1 <= j < s.len() ==> s[j] == t[j - 1]);
    }
}

/// If `a` first appears at position `k`, then `first_index` returns `k`.
pub proof fn lemma_first_index_at(s: Seq<TreeTypeView>, a: TreeTypeView, k: int)
    requires
        0 <= k < s.len(),
        s[k] == a,
        forall|j: int| 0 <= j < k ==> s[j] != a,
    ensures
        first_index(s, a) == k,
    decreases s.len(),
{
    if k == 0 {
    } else {
        let t = s.drop_first();
        assert(forall|j: int| 0 <= j < s.len() - 1 ==> t[j] == s[j + 1]);
        lemma_first_index_at(t, a, k - 1);
    }
}

/// Dedup law: resolving the same attribute tuple twice returns the same
/// handle both times; the store grows by one record on the first resolve
/// exactly when the tuple is new, and never on the second.
pub proof fn lemma_resolve_dedup(s: Seq<TreeTypeView>, a: TreeTypeView)
    ensures
        ({
            let (s1, h1) = resolve_model(s, a);
            let (s2, h2) = resolve_model(s1, a);
            &&& s2 == s1
            &&& h2 == h1
            &&& (exists|i: int| 0 <= i < s.len() && s[i] == a) ==> s1.len() == s.len()
            &&& !(exists|i: int| 0 <= i < s.len() && s[i] == a) ==> s1.len() == s.len() + 1
        }),
{
    let (s1, h1) = resolve_model(s, a);
    if exists|i: int| 0 <= i < s.len() && s[i] == a {
        lemma_first_index(s, a);
    } else {
        assert(s1[s.len() as int] == a);
        lemma_first_index_at(s1, a, s.len() as int);
    }
}

/// Distinctness law: resolving two different attribute tuples, one after the
/// other, returns handles of two distinct records, each holding its tuple.
pub proof fn lemma_resolve_distinct(s: Seq<TreeTypeView>, a: TreeTypeView, b: TreeTypeView)
    requires
        a != b,
    ensures
        ({
            let (s1, ha) = resolve_model(s, a);
            let (s2, hb) = resolve_model(s1, b);
            &&& ha != hb
            &&& 0 <= ha < s2.len()
            &&& 0 <= hb < s2.len()
            &&& s2[ha] == a
            &&& s2[hb] == b
        }),
{
    let (s1, ha) = resolve_model(s, a);
    let (s2, hb) = resolve_model(s1, b);
    if exists|i: int| 0 <= i < s.len() && s[i] == a {
        lemma_first_index(s, a);
    } else {
        assert(s1[s.len() as int] == a);
    }
    assert(0 <= ha < s1.len() && s1[ha] == a);
    if exists|i: int| 0 <= i < s1.len() && s1[i] == b {
        lemma_first_index(s1, b);
    } else {
        assert(s2[s1.len() as int] == b);
    }
    assert(0 <= hb < s2.len() && s2[hb] == b);
    assert(forall|i: int| 0 <= i < s1.len() ==> s2[i] == s1[i]);
}

/// Non-interference law: resolving never changes a record already stored,
/// so every handle handed out earlier still refers to the same attributes.
pub proof fn lemma_resolve_preserves(s: Seq<TreeTypeView>, a: TreeTypeView)
    ensures
        s.len() <= resolve_model(s, a).0.len(),
        forall|i: int| 0 <= i < s.len() ==> resolve_model(s, a).0[i] == s[i],
{
}

/// No two stored records hold the same attribute tuple.
pub open spec fn no_duplicates(s: Seq<TreeTypeView>) -> bool {
    forall|i: int, j: int| 0 <= i < j < s.len() ==> s[i] != s[j]
}

/// The store never comes to hold equal content twice: a resolve against a
/// duplicate-free store leaves it duplicate-free.
pub proof fn lemma_resolve_keeps_distinct(s: Seq<TreeTypeView>, a: TreeTypeView)
    requires
        no_duplicates(s),
    ensures
        no_duplicates(resolve_model(s, a).0),
{
    if !(exists|i: int| 0 <= i < s.len() && s[i] == a) {
        let t = s.push(a);
        assert forall|i: int, j: int| 0 <= i < j < t.len() implies t[i] != t[j] by {
            if j == s.len() {
                assert(t[i] == s[i]);
            }
        }
    }
}

/// Owns the distinct shared records created so far; handles are indices
/// into this store, and a record is never changed or removed once stored.
pub struct TreeFactory {
    tree_type: Vec<TreeType>,
}

impl View for TreeFactory {
    type V = Seq<TreeTypeView>;

    closed spec fn view(&self) -> Seq<TreeTypeView> {
        self.tree_type@.map_values(|t: TreeType| t@)
    }
}

impl TreeFactory {
    pub fn new() -> (r: TreeFactory)
        ensures
            r@ == Seq::<TreeTypeView>::empty(),
    {
        TreeFactory { tree_type: Vec::new() }
    }

    /// How many distinct records have been created so far.
    pub fn len(&self) -> (r: usize)
        ensures
            r == self@.len(),
    {
        self.tree_type.len()
    }

    /// The record a handle refers to.
    pub fn record(&self, h: usize) -> (r: &TreeType)
        requires
            h < self@.len(),
        ensures
            r@ == self@[h as int],
    {
        &self.tree_type[h]
    }

    /// Returns the handle of the stored record whose attributes equal the
    /// given tuple, storing a new record first if none did.
    pub fn get_tree_type(&mut self, name: String, color: (u8, u8, u8, u8), texture: String) -> (h: usize)
        ensures
            (final(self)@, h as int) == resolve_model(
                old(self)@,
                (TreeTypeView { name: name@, color, texture: texture@ }),
            ),
            h < final(self)@.len(),
            final(self)@[h as int] == (TreeTypeView { name: name@, color, texture: texture@ }),
    {
        let ghost a = TreeTypeView { name: name@, color, texture: texture@ };
        let n = self.tree_type.len();
        let mut i: usize = 0;
        while i < n
            invariant
                a == (TreeTypeView { name: name@, color, texture: texture@ }),
                n == self@.len(),
                i <= n,
                forall|j: int| 0 <= j < i ==> self@[j] != a,
            decreases n - i,
        {
            let t = &self.tree_type[i];
            proof {
                assert(self@[i as int] == self.tree_type@[i as int]@);
            }
            if t.name == name && t.color.0 == color.0 && t.color.1 == color.1 && t.color.2
                == color.2 && t.color.3 == color.3 && t.texture == texture {
                proof {
                    assert(self@[i as int] == a);
                    lemma_first_index_at(self@, a, i as int);
                }
                return i;
            }
            i = i + 1;
        }
        let new_tree_type = TreeType { name, color, texture };
        self.tree_type.push(new_tree_type);
        proof {
            assert(self@ =~= old(self)@.push(a));
        }
        n
    }
}

/// A placement: a position plus the handle of the shared record it uses.
struct Tree {
    x: u64,
    y: u64,
    tree_type: usize,
}

impl Tree {
    /// A placement draws as one mark at its own position.
    fn draw<C: Canvas>(&self, types: &TreeFactory, canvas: &mut C)
        requires
            self.tree_type < types@.len(),
        ensures
            final(canvas).calls() == old(canvas).calls().push((self.x, self.y)),
    {
        types.record(self.tree_type).draw(canvas, self.x, self.y);
    }
}

/// The image of one placement: its position and the handle it references.
pub struct PlacementView {
    pub x: u64,
    pub y: u64,
    pub record: int,
}

/// The image of a forest: its placements in insertion order, and the
/// record store backing them.
pub struct ForestView {
    pub placements: Seq<PlacementView>,
    pub records: Seq<TreeTypeView>,
}

/// An ordered collection of placements together with the factory that
/// owns their shared records.
pub struct Forest {
    trees: Vec<Tree>,
    tree_factory: TreeFactory,
}

impl View for Forest {
    type V = ForestView;

    closed spec fn view(&self) -> ForestView {
        ForestView {
            placements: self.trees@.map_values(
                |t: Tree| PlacementView { x: t.x, y: t.y, record: t.tree_type as int },
            ),
            records: self.tree_factory@,
        }
    }
}

impl Forest {
    /// Every placement's handle refers to a stored record.
    pub open spec fn well_formed(&self) -> bool {
        forall|i: int| 0 <= i < self@.placements.len() ==> 0 <= #[trigger] self@.placements[i].record
            < self@.records.len()
    }

    /// The positions of the placements, in insertion order.
    pub open spec fn positions(&self) -> Seq<(u64, u64)> {
        self@.placements.map_values(|p: PlacementView| (p.x, p.y))
    }

    pub fn new(factory: TreeFactory) -> (r: Forest)
        ensures
            r@.placements == Seq::<PlacementView>::empty(),
            r@.records == factory@,
            r.well_formed(),
    {
        Forest { trees: Vec::new(), tree_factory: factory }
    }

    /// How many placements the forest holds.
    pub fn tree_count(&self) -> (r: usize)
        ensures
            r == self@.placements.len(),
    {
        self.trees.len()
    }

    /// How many distinct shared records back the forest.
    pub fn type_count(&self) -> (r: usize)
        ensures
            r == self@.records.len(),
    {
        self.tree_factory.len()
    }

    /// Resolves the attribute tuple to a shared record and appends a new
    /// placement at `(x, y)` referencing it. Earlier placements, their order,
    /// and all records already stored are untouched.
    pub fn plant_trees(&mut self, x: u64, y: u64, name: String, color: (u8, u8, u8, u8), texture: String)
        requires
            old(self).well_formed(),
        ensures
            final(self).well_formed(),
            final(self)@.records == resolve_model(
                old(self)@.records,
                (TreeTypeView { name: name@, color, texture: texture@ }),
            ).0,
            final(self)@.placements == old(self)@.placements.push(
                (PlacementView {
                    x,
                    y,
                    record: resolve_model(
                        old(self)@.records,
                        (TreeTypeView { name: name@, color, texture: texture@ }),
                    ).1,
                }),
            ),
    {
        let tree_type = self.tree_factory.get_tree_type(name, color, texture);
        let new_tree = Tree { tree_type, x, y };
        self.trees.push(new_tree);
        proof {
            let a = TreeTypeView { name: name@, color, texture: texture@ };
            lemma_resolve_preserves(old(self)@.records, a);
            assert(self@.placements =~= old(self)@.placements.push(
                PlacementView { x, y, record: resolve_model(old(self)@.records, a).1 },
            ));
        }
    }

    /// Order-preservation law, as the contract of rendering: the canvas is
    /// asked to draw every placement exactly once, at its position, in
    /// insertion order, and the forest itself is left untouched.
    pub fn draw<C: Canvas>(&self, canvas: &mut C)
        requires
            self.well_formed(),
        ensures
            final(canvas).calls() == old(canvas).calls() + self.positions(),
    {
        let n = self.trees.len();
        let mut i: usize = 0;
        while i < n
            invariant
                self.well_formed(),
                n == self@.placements.len(),
                i <= n,
                canvas.calls() == old(canvas).calls() + self.positions().take(i as int),
            decreases n - i,
        {
            proof {
                assert(self@.placements[i as int].record == self.trees@[i as int].tree_type as int);
                assert(self.positions()[i as int] == (self.trees@[i as int].x, self.trees@[
                    i as int].y));
            }
            self.trees[i].draw(&self.tree_factory, canvas);
            proof {
                assert(self.positions().take(i as int + 1) =~= self.positions().take(i as int).push(
                    self.positions()[i as int],
                ));
            }
            i = i + 1;
        }
        proof {
            assert(self.positions().take(n as int) =~= self.positions());
        }
    }
}

} // verus!
