//! Assembly of two-level trees from flat store rows.
//!
//! The store delivers one row per parent entity (district or category); each
//! row carries the children as two parallel sequences of equal width, ids and
//! names, padded with `None` where a parent has fewer children than the row is
//! wide.  A `None` id means "no child at this slot", never "a child with an
//! unknown id", so those slots are dropped entirely.  One assembler serves
//! both the district/city tree and the category/subcategory tree.
use vstd::prelude::*;

verus! {

/// One surviving child slot: a present id paired with the name that stood at
/// the same position (the name itself may still be absent).
pub struct ChildEntry {
    pub id: u128,
    pub name: Option<String>,
}

/// A flat store row: one parent with its children in parallel sequences.
pub struct TreeRow {
    pub parent_id: u128,
    pub parent_name: String,
    pub child_ids: Vec<Option<u128>>,
    pub child_names: Vec<Option<String>>,
}

/// An assembled parent with its ordered children.
pub struct TreeNode {
    pub id: u128,
    pub name: String,
    pub children: Vec<ChildEntry>,
}

/// The children that survive assembly: walk the two sequences in step, keep
/// one entry per position whose id is present, in the order given.  Positions
/// beyond the shorter sequence are ignored.
pub open spec fn assembled_children(
    ids: Seq<Option<u128>>,
    names: Seq<Option<String>>,
) -> Seq<ChildEntry>
    decreases ids.len(),
{
    if ids.len() == 0 || names.len() == 0 {
        Seq::empty()
    } else {
        let rest = assembled_children(ids.drop_first(), names.drop_first());
        match ids[0] {
            Some(id) => seq![ChildEntry { id, name: names[0] }] + rest,
            None => rest,
        }
    }
}

/// What it means for a node to be the assembly of a row: the parent's id and
/// name are carried over and the children are exactly the surviving slots.
pub open spec fn is_assembled_node(row: TreeRow, node: TreeNode) -> bool {
    &&& node.id == row.parent_id
    &&& node.name == row.parent_name
    &&& node.children@ == assembled_children(row.child_ids@, row.child_names@)
}

proof fn lemma_assembled_children_snoc(
    ids: Seq<Option<u128>>,
    names: Seq<Option<String>>,
    id: Option<u128>,
    name: Option<String>,
)
    requires
        ids.len() == names.len(),
    ensures
        assembled_children(ids.push(id), names.push(name)) == match id {
            Some(i) => assembled_children(ids, names).push(ChildEntry { id: i, name }),
            None => assembled_children(ids, names),
        },
    decreases ids.len(),
{
    if ids.len() == 0 {
        reveal_with_fuel(assembled_children, 2);
        assert(ids.push(id) =~= seq![id]);
        assert(names.push(name) =~= seq![name]);
        assert(ids.push(id).drop_first() =~= Seq::<Option<u128>>::empty());
        assert(names.push(name).drop_first() =~= Seq::<Option<String>>::empty());
        match id {
            Some(i) => {
                assert(assembled_children(ids.push(id), names.push(name)) =~= seq![
                    ChildEntry { id: i, name },
                ]);
                assert(assembled_children(ids, names).push(ChildEntry { id: i, name }) =~= seq![
                    ChildEntry { id: i, name },
                ]);
            },
            None => {
                assert(assembled_children(ids.push(id), names.push(name)) =~= Seq::<
                    ChildEntry,
                >::empty());
            },
        }
    } else {
        assert(ids.push(id).drop_first() =~= ids.drop_first().push(id));
        assert(names.push(name).drop_first() =~= names.drop_first().push(name));
        lemma_assembled_children_snoc(ids.drop_first(), names.drop_first(), id, name);
        match ids[0] {
            Some(i0) => {
                assert(assembled_children(ids.push(id), names.push(name)) =~= seq![
                    ChildEntry { id: i0, name: names[0] },
                ] + assembled_children(ids.drop_first().push(id), names.drop_first().push(name)));
                match id {
                    Some(i) => {
                        assert(assembled_children(ids.push(id), names.push(name))
                            =~= assembled_children(ids, names).push(ChildEntry { id: i, name }));
                    },
                    None => {
                        assert(assembled_children(ids.push(id), names.push(name))
                            =~= assembled_children(ids, names));
                    },
                }
            },
            None => {
            },
        }
    }
}

/// Assemble the surviving children of one row from the two parallel
/// sequences.  Every position whose id is present yields exactly one child,
/// in the original order; every position whose id is absent is dropped.
pub fn assemble_children(ids: &Vec<Option<u128>>, names: &Vec<Option<String>>) -> (r: Vec<
    ChildEntry,
>)
    ensures
        r@ == assembled_children(ids@, names@),
{
    let n: usize = if ids.len() < names.len() {
        ids.len()
    } else {
        names.len()
    };
    proof {
        lemma_assembled_children_ignores_padding(ids@, names@, n as int);
    }
    let mut out: Vec<ChildEntry> = Vec::new();
    let mut i: usize = 0;
    while i < n
        invariant
            n <= ids@.len(),
            n <= names@.len(),
            i <= n,
            out@ == assembled_children(ids@.take(i as int), names@.take(i as int)),
        decreases n - i,
    {
        proof {
            assert(ids@.take(i + 1) =~= ids@.take(i as int).push(ids@[i as int]));
            assert(names@.take(i + 1) =~= names@.take(i as int).push(names@[i as int]));
            lemma_assembled_children_snoc(
                ids@.take(i as int),
                names@.take(i as int),
                ids@[i as int],
                names@[i as int],
            );
        }
        match ids[i] {
            Some(id) => {
                let name = names[i].clone();
                out.push(ChildEntry { id, name });
            },
            None => {},
        }
        i = i + 1;
    }
    proof {
        assert(ids@.take(n as int).take(n as int) =~= ids@.take(n as int));
        assert(names@.take(n as int).take(n as int) =~= names@.take(n as int));
    }
    out
}

/// Assembly reads only the first `n` positions of either sequence, where `n`
/// is the width of the narrower one: the padding beyond it never matters.
proof fn lemma_assembled_children_ignores_padding(
    ids: Seq<Option<u128>>,
    names: Seq<Option<String>>,
    n: int,
)
    requires
        n == if ids.len() < names.len() {
            ids.len() as int
        } else {
            names.len() as int
        },
    ensures
        assembled_children(ids, names) == assembled_children(ids.take(n), names.take(n)),
    decreases ids.len(),
{
    if ids.len() == 0 || names.len() == 0 {
        assert(assembled_children(ids.take(n), names.take(n)) =~= Seq::<ChildEntry>::empty());
    } else {
        lemma_assembled_children_ignores_padding(ids.drop_first(), names.drop_first(), n - 1);
        assert(ids.take(n).drop_first() =~= ids.drop_first().take(n - 1));
        assert(names.take(n).drop_first() =~= names.drop_first().take(n - 1));
        assert(ids.take(n)[0] == ids[0]);
        assert(names.take(n)[0] == names[0]);
    }
}

/// Assemble one row into its nested parent node.
pub fn assemble_node(row: TreeRow) -> (r: TreeNode)
    ensures
        is_assembled_node(row, r),
{
    let children = assemble_children(&row.child_ids, &row.child_names);
    TreeNode { id: row.parent_id, name: row.parent_name, children }
}

/// What it means for a sequence of nodes to be the assembly of a sequence of
/// rows, row by row, order kept.
pub open spec fn is_assembled_forest(rows: Seq<TreeRow>, nodes: Seq<TreeNode>) -> bool {
    &&& nodes.len() == rows.len()
    &&& forall|k: int| 0 <= k < rows.len() ==> is_assembled_node(rows[k], #[trigger] nodes[k])
}

/// Assemble every row of a tree read, keeping the store's row order.
pub fn assemble_forest(rows: Vec<TreeRow>) -> (r: Vec<TreeNode>)
    ensures
        is_assembled_forest(rows@, r@),
{
    let mut out: Vec<TreeNode> = Vec::new();
    let n: usize = rows.len();
    let mut remaining = rows;
    let ghost rows0: Seq<TreeRow> = remaining@;
    let mut i: usize = 0;
    // Consume the rows front to back so each one is moved, not cloned.
    while remaining.len() > 0
        invariant
            i + remaining@.len() == n,
            n == rows0.len(),
            out@.len() == i,
            forall|k: int| 0 <= k < remaining@.len() ==> remaining@[k] == #[trigger] rows0[i + k],
            is_assembled_forest(rows0.take(i as int), out@),
        decreases remaining@.len(),
    {
        let ghost pre: Seq<TreeRow> = remaining@;
        let row = remaining.remove(0);
        proof {
            assert(pre[0] == rows0[i + 0]);
            pre.remove_ensures(0);
            assert forall|k: int|
                0 <= k < remaining@.len() implies remaining@[k] == #[trigger] rows0[(i + 1) + k] by {
                assert(remaining@[k] == pre[k + 1]);
                assert(pre[k + 1] == rows0[i + (k + 1)]);
            }
        }
        let node = assemble_node(row);
        out.push(node);
        i = i + 1;
    }
    proof {
        assert(rows0.take(n as int) =~= rows0);
    }
    out
}

/// A failed tree read degrades to an empty forest rather than failing the
/// whole response: `None` stands for a store error, `Some` for the rows read.
pub fn assemble_forest_or_empty(rows: Option<Vec<TreeRow>>) -> (r: Vec<TreeNode>)
    ensures
        match rows {
            Some(v) => is_assembled_forest(v@, r@),
            None => r@ == Seq::<TreeNode>::empty(),
        },
{
    match rows {
        Some(v) => assemble_forest(v),
        None => Vec::new(),
    }
}

/// Law: a row whose child slots are `[a, absent, b]` with names
/// `[x, absent, y]` assembles to exactly the two children `(a, x)` then
/// `(b, y)`: absent slots never appear as children and never shift the order
/// of the survivors.
pub proof fn lemma_padding_dropped_order_kept(a: u128, b: u128, x: String, y: String)
    ensures
        assembled_children(
            seq![Some(a), None, Some(b)],
            seq![Some(x), None, Some(y)],
        ) == seq![ChildEntry { id: a, name: Some(x) }, ChildEntry { id: b, name: Some(y) }],
{
    reveal_with_fuel(assembled_children, 5);
    let ids = seq![Some(a), None, Some(b)];
    let names = seq![Some(x), None, Some(y)];
    assert(ids.drop_first() =~= seq![None, Some(b)]);
    assert(names.drop_first() =~= seq![None, Some(y)]);
    assert(ids.drop_first().drop_first() =~= seq![Some(b)]);
    assert(names.drop_first().drop_first() =~= seq![Some(y)]);
    assert(ids.drop_first().drop_first().drop_first() =~= Seq::<Option<u128>>::empty());
    assert(names.drop_first().drop_first().drop_first() =~= Seq::<Option<String>>::empty());
    assert(assembled_children(ids.drop_first().drop_first(), names.drop_first().drop_first())
        =~= seq![ChildEntry { id: b, name: Some(y) }]);
    assert(assembled_children(ids, names) =~= seq![
        ChildEntry { id: a, name: Some(x) },
        ChildEntry { id: b, name: Some(y) },
    ]);
}

} // verus!
