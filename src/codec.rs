use crate::error::ClientError;
use crate::schema::{
    branch_view, item_wf, items_view, keys_unique, tree_wf, DataTree, ItemView, RestHopperObject,
    TreeView,
};
use vstd::prelude::*;

verus! {

/// A leaf value as it travels on the wire: both fields are mandatory, but a
/// received payload may lack either of them.
#[derive(Debug, PartialEq)]
pub struct WireObject {
    pub object_type: Option<String>,
    pub data: Option<String>,
}

/// A data tree as it travels on the wire: path keys are literal strings,
/// kept exactly as given.
#[derive(Debug, PartialEq)]
pub struct WireTree {
    pub param_name: String,
    pub inner_tree: Vec<(String, Vec<WireObject>)>,
}

/// What a received leaf value stands for: each field, if present.
pub struct WireItemView {
    pub object_type: Option<Seq<char>>,
    pub data: Option<Seq<char>>,
}

/// What a received tree stands for: its name and its branches in order.
pub struct WireTreeView {
    pub param_name: Seq<char>,
    pub branches: Seq<(Seq<char>, Seq<WireItemView>)>,
}

pub open spec fn opt_view(o: Option<String>) -> Option<Seq<char>> {
    match o {
        Some(s) => Some(s@),
        None => None,
    }
}

impl View for WireObject {
    type V = WireItemView;

    open spec fn view(&self) -> WireItemView {
        WireItemView { object_type: opt_view(self.object_type), data: opt_view(self.data) }
    }
}

pub open spec fn wire_items_view(items: Seq<WireObject>) -> Seq<WireItemView> {
    items.map_values(|o: WireObject| o@)
}

pub open spec fn wire_branch_view(b: (String, Vec<WireObject>)) -> (Seq<char>, Seq<WireItemView>) {
    (b.0@, wire_items_view(b.1@))
}

impl View for WireTree {
    type V = WireTreeView;

    open spec fn view(&self) -> WireTreeView {
        WireTreeView {
            param_name: self.param_name@,
            branches: self.inner_tree@.map_values(|b: (String, Vec<WireObject>)| wire_branch_view(b)),
        }
    }
}

pub open spec fn trees_view(ts: Seq<DataTree>) -> Seq<TreeView> {
    ts.map_values(|t: DataTree| t@)
}

pub open spec fn wire_trees_view(ws: Seq<WireTree>) -> Seq<WireTreeView> {
    ws.map_values(|w: WireTree| w@)
}

// ---- encoding ----
pub open spec fn encode_item_spec(i: ItemView) -> WireItemView {
    WireItemView { object_type: Some(i.object_type), data: Some(i.data) }
}

pub open spec fn encode_items_spec(s: Seq<ItemView>) -> Seq<WireItemView> {
    s.map_values(|i: ItemView| encode_item_spec(i))
}

pub open spec fn encode_branch_spec(b: (Seq<char>, Seq<ItemView>)) -> (Seq<char>, Seq<WireItemView>) {
    (b.0, encode_items_spec(b.1))
}

/// The wire form of a tree: the same name, the same path keys in the same
/// order, and every item with both of its fields present.
pub open spec fn encode_spec(t: TreeView) -> WireTreeView {
    WireTreeView {
        param_name: t.param_name,
        branches: t.branches.map_values(|b: (Seq<char>, Seq<ItemView>)| encode_branch_spec(b)),
    }
}

pub open spec fn encode_trees_spec(ts: Seq<TreeView>) -> Seq<WireTreeView> {
    ts.map_values(|t: TreeView| encode_spec(t))
}

// ---- decoding ----
/// A received item is complete when both fields are present and non-empty.
pub open spec fn wire_item_wf(w: WireItemView) -> bool {
    &&& w.object_type is Some
    &&& w.object_type->0.len() > 0
    &&& w.data is Some
    &&& w.data->0.len() > 0
}

/// A received tree decodes when its path keys are unique, no branch is
/// empty and every item is complete.
pub open spec fn wire_tree_wf(w: WireTreeView) -> bool {
    &&& keys_unique(w.branches)
    &&& forall|a: int| 0 <= a < w.branches.len() ==> w.branches[a].1.len() > 0
    &&& forall|a: int, k: int|
        0 <= a < w.branches.len() && 0 <= k < w.branches[a].1.len() ==> wire_item_wf(
            #[trigger] w.branches[a].1[k],
        )
}

pub open spec fn wire_trees_wf(ws: Seq<WireTreeView>) -> bool {
    forall|i: int| 0 <= i < ws.len() ==> wire_tree_wf(#[trigger] ws[i])
}

pub open spec fn decode_item_spec(w: WireItemView) -> ItemView {
    ItemView { object_type: w.object_type->0, data: w.data->0 }
}

pub open spec fn decode_items_spec(s: Seq<WireItemView>) -> Seq<ItemView> {
    s.map_values(|w: WireItemView| decode_item_spec(w))
}

pub open spec fn decode_branch_spec(b: (Seq<char>, Seq<WireItemView>)) -> (Seq<char>, Seq<ItemView>) {
    (b.0, decode_items_spec(b.1))
}

/// The tree that a well-formed wire tree stands for.
pub open spec fn decode_spec(w: WireTreeView) -> TreeView {
    TreeView {
        param_name: w.param_name,
        branches: w.branches.map_values(|b: (Seq<char>, Seq<WireItemView>)| decode_branch_spec(b)),
    }
}

pub open spec fn decode_trees_spec(ws: Seq<WireTreeView>) -> Seq<TreeView> {
    ws.map_values(|w: WireTreeView| decode_spec(w))
}

fn copy_opt(o: &Option<String>) -> (r: Option<String>)
    ensures
        opt_view(r) == opt_view(*o),
{
    match o {
        Some(s) => Some(s.clone()),
        None => None,
    }
}

fn encode_items(items: &Vec<RestHopperObject>) -> (r: Vec<WireObject>)
    ensures
        wire_items_view(r@) == encode_items_spec(items_view(items@)),
{
    let mut r: Vec<WireObject> = Vec::new();
    let mut k: usize = 0;
    while k < items.len()
        invariant
            k <= items@.len(),
            r@.len() == k,
            forall|m: int| 0 <= m < k ==> (#[trigger] r@[m])@ == encode_item_spec(items@[m]@),
        decreases items@.len() - k,
    {
        let o = &items[k];
        r.push(
            WireObject { object_type: Some(o.object_type.clone()), data: Some(o.data.clone()) },
        );
        k += 1;
    }
    assert(wire_items_view(r@) =~= encode_items_spec(items_view(items@)));
    r
}

/// Puts a tree into its wire form, keeping every path key and its items
/// verbatim and in order.
pub fn encode_tree(t: &DataTree) -> (r: WireTree)
    ensures
        r@ == encode_spec(t@),
{
    let mut branches: Vec<(String, Vec<WireObject>)> = Vec::new();
    let mut a: usize = 0;
    while a < t.inner_tree.len()
        invariant
            a <= t.inner_tree@.len(),
            branches@.len() == a,
            forall|m: int|
                0 <= m < a ==> wire_branch_view(#[trigger] branches@[m]) == encode_branch_spec(
                    branch_view(t.inner_tree@[m]),
                ),
        decreases t.inner_tree@.len() - a,
    {
        let b = &t.inner_tree[a];
        let items = encode_items(&b.1);
        branches.push((b.0.clone(), items));
        a += 1;
    }
    let r = WireTree { param_name: t.param_name.clone(), inner_tree: branches };
    assert(r@.branches =~= encode_spec(t@).branches);
    r
}

/// Puts each tree of a sequence into its wire form, in order.
pub fn encode_trees(ts: &Vec<DataTree>) -> (r: Vec<WireTree>)
    ensures
        wire_trees_view(r@) == encode_trees_spec(trees_view(ts@)),
{
    let mut r: Vec<WireTree> = Vec::new();
    let mut i: usize = 0;
    while i < ts.len()
        invariant
            i <= ts@.len(),
            r@.len() == i,
            forall|m: int| 0 <= m < i ==> (#[trigger] r@[m])@ == encode_spec(ts@[m]@),
        decreases ts@.len() - i,
    {
        r.push(encode_tree(&ts[i]));
        i += 1;
    }
    assert(wire_trees_view(r@) =~= encode_trees_spec(trees_view(ts@)));
    r
}

fn decode_item(w: &WireObject) -> (r: Result<RestHopperObject, ClientError>)
    ensures
        r is Ok <==> wire_item_wf(w@),
        r is Ok ==> r->Ok_0@ == decode_item_spec(w@),
        r is Err ==> r->Err_0 == ClientError::MalformedTree,
{
    match (&w.object_type, &w.data) {
        (Some(t), Some(d)) => {
            if t.as_str().is_empty() || d.as_str().is_empty() {
                Err(ClientError::MalformedTree)
            } else {
                Ok(RestHopperObject { object_type: t.clone(), data: d.clone() })
            }
        },
        _ => Err(ClientError::MalformedTree),
    }
}

fn decode_items(items: &Vec<WireObject>) -> (r: Result<Vec<RestHopperObject>, ClientError>)
    ensures
        r is Ok <==> forall|k: int| 0 <= k < items@.len() ==> wire_item_wf(#[trigger] items@[k]@),
        r is Ok ==> items_view(r->Ok_0@) == decode_items_spec(wire_items_view(items@)),
        r is Err ==> r->Err_0 == ClientError::MalformedTree,
{
    let mut r: Vec<RestHopperObject> = Vec::new();
    let mut k: usize = 0;
    while k < items.len()
        invariant
            k <= items@.len(),
            r@.len() == k,
            forall|m: int| 0 <= m < k ==> wire_item_wf(#[trigger] items@[m]@),
            forall|m: int| 0 <= m < k ==> (#[trigger] r@[m])@ == decode_item_spec(items@[m]@),
        decreases items@.len() - k,
    {
        match decode_item(&items[k]) {
            Ok(o) => r.push(o),
            Err(e) => {
                return Err(e);
            },
        }
        k += 1;
    }
    assert(items_view(r@) =~= decode_items_spec(wire_items_view(items@)));
    Ok(r)
}

/// Reads a tree from its wire form. Fails with `MalformedTree` exactly when
/// a path key repeats, a branch is empty, or an item lacks its type tag or
/// its data (absent or empty); otherwise every path key and its items come
/// back verbatim and in order.
pub fn decode_tree(w: &WireTree) -> (r: Result<DataTree, ClientError>)
    ensures
        r is Ok <==> wire_tree_wf(w@),
        r is Ok ==> r->Ok_0@ == decode_spec(w@) && r->Ok_0.wf(),
        r is Err ==> r->Err_0 == ClientError::MalformedTree,
{
    let ghost wv = w@;
    let mut out: Vec<(String, Vec<RestHopperObject>)> = Vec::new();
    let mut a: usize = 0;
    while a < w.inner_tree.len()
        invariant
            wv == w@,
            a <= w.inner_tree@.len(),
            out@.len() == a,
            forall|m: int|
                0 <= m < a ==> branch_view(#[trigger] out@[m]) == decode_branch_spec(
                    wv.branches[m],
                ),
            forall|m: int| 0 <= m < a ==> (#[trigger] wv.branches[m]).1.len() > 0,
            forall|m: int, k: int|
                0 <= m < a && 0 <= k < wv.branches[m].1.len() ==> wire_item_wf(
                    #[trigger] wv.branches[m].1[k],
                ),
            forall|m: int, n: int|
                0 <= m < a && 0 <= n < a && m != n ==> wv.branches[m].0 != wv.branches[n].0,
        decreases w.inner_tree@.len() - a,
    {
        let b = &w.inner_tree[a];
        assert(wv.branches[a as int] == wire_branch_view(*b));
        if b.1.len() == 0 {
            return Err(ClientError::MalformedTree);
        }
        let items = match decode_items(&b.1) {
            Ok(items) => items,
            Err(e) => {
                proof {
                    let k = choose|k: int|
                        0 <= k < b.1@.len() && !wire_item_wf(#[trigger] b.1@[k]@);
                    assert(wv.branches[a as int].1[k] == b.1@[k]@);
                }
                return Err(e);
            },
        };
        let mut c: usize = 0;
        while c < a
            invariant
                wv == w@,
                a < w.inner_tree@.len(),
                c <= a,
                *b == w.inner_tree@[a as int],
                forall|n: int| 0 <= n < c ==> wv.branches[n].0 != wv.branches[a as int].0,
            decreases a - c,
        {
            if w.inner_tree[c].0 == b.0 {
                assert(wv.branches[c as int].0 == wv.branches[a as int].0);
                return Err(ClientError::MalformedTree);
            }
            c += 1;
        }
        out.push((b.0.clone(), items));
        a += 1;
    }
    let r = DataTree { param_name: w.param_name.clone(), inner_tree: out };
    assert(r@.branches =~= decode_spec(wv).branches);
    proof {
        lemma_decoded_wf(wv);
    }
    Ok(r)
}

/// Reads each tree of a sequence from its wire form, in order; fails with
/// `MalformedTree` exactly when one of them is malformed.
pub fn decode_trees(ws: &Vec<WireTree>) -> (r: Result<Vec<DataTree>, ClientError>)
    ensures
        r is Ok <==> wire_trees_wf(wire_trees_view(ws@)),
        r is Ok ==> trees_view(r->Ok_0@) == decode_trees_spec(wire_trees_view(ws@)),
        r is Err ==> r->Err_0 == ClientError::MalformedTree,
{
    let mut r: Vec<DataTree> = Vec::new();
    let mut i: usize = 0;
    while i < ws.len()
        invariant
            i <= ws@.len(),
            r@.len() == i,
            forall|m: int| 0 <= m < i ==> wire_tree_wf(#[trigger] ws@[m]@),
            forall|m: int| 0 <= m < i ==> (#[trigger] r@[m])@ == decode_spec(ws@[m]@),
        decreases ws@.len() - i,
    {
        match decode_tree(&ws[i]) {
            Ok(t) => r.push(t),
            Err(e) => {
                assert(wire_trees_view(ws@)[i as int] == ws@[i as int]@);
                return Err(e);
            },
        }
        i += 1;
    }
    assert(wire_trees_view(ws@).len() == ws@.len());
    assert forall|m: int| 0 <= m < ws@.len() implies wire_tree_wf(
        #[trigger] wire_trees_view(ws@)[m],
    ) by {
        assert(wire_trees_view(ws@)[m] == ws@[m]@);
    }
    assert(trees_view(r@) =~= decode_trees_spec(wire_trees_view(ws@)));
    Ok(r)
}

// ---- laws ----
/// Decoding the wire form of a well-formed tree gives the tree back: the
/// same name, the same path keys, character for character and in the same
/// order, and the same items.
pub proof fn lemma_round_trip(t: TreeView)
    requires
        tree_wf(t),
    ensures
        wire_tree_wf(encode_spec(t)),
        decode_spec(encode_spec(t)) == t,
{
    let w = encode_spec(t);
    assert forall|a: int, k: int|
        0 <= a < w.branches.len() && 0 <= k < w.branches[a].1.len() implies wire_item_wf(
        #[trigger] w.branches[a].1[k],
    ) by {
        assert(w.branches[a].1[k] == encode_item_spec(t.branches[a].1[k]));
        assert(item_wf(t.branches[a].1[k]));
    }
    assert forall|a: int| 0 <= a < t.branches.len() implies #[trigger] decode_spec(w).branches[a]
        == t.branches[a] by {
        assert(decode_spec(w).branches[a].1 =~= t.branches[a].1);
    }
    assert(decode_spec(w).branches =~= t.branches);
}

/// A tree with no branches survives the round trip as a tree with no
/// branches under the same name: it is neither refused nor dropped.
pub proof fn lemma_round_trip_no_branches(t: TreeView)
    requires
        t.branches.len() == 0,
    ensures
        wire_tree_wf(encode_spec(t)),
        decode_spec(encode_spec(t)).branches.len() == 0,
        decode_spec(encode_spec(t)).param_name == t.param_name,
{
}

/// An item whose type tag or data is absent or empty makes the whole tree
/// malformed, so that decoding it fails with `MalformedTree`.
pub proof fn lemma_incomplete_item_is_malformed(w: WireTreeView, a: int, k: int)
    requires
        0 <= a < w.branches.len(),
        0 <= k < w.branches[a].1.len(),
        w.branches[a].1[k].object_type is None || w.branches[a].1[k].object_type->0.len() == 0
            || w.branches[a].1[k].data is None || w.branches[a].1[k].data->0.len() == 0,
    ensures
        !wire_tree_wf(w),
{
    assert(!wire_item_wf(w.branches[a].1[k]));
}

/// What decodes is a well-formed tree.
pub proof fn lemma_decoded_wf(w: WireTreeView)
    requires
        wire_tree_wf(w),
    ensures
        tree_wf(decode_spec(w)),
{
    let t = decode_spec(w);
    assert forall|a: int, k: int|
        0 <= a < t.branches.len() && 0 <= k < t.branches[a].1.len() implies item_wf(
        #[trigger] t.branches[a].1[k],
    ) by {
        assert(wire_item_wf(w.branches[a].1[k]));
    }
}

/// The round trip, tree by tree, over a sequence of well-formed trees.
pub proof fn lemma_round_trip_all(ts: Seq<TreeView>)
    requires
        forall|i: int| 0 <= i < ts.len() ==> tree_wf(#[trigger] ts[i]),
    ensures
        wire_trees_wf(encode_trees_spec(ts)),
        decode_trees_spec(encode_trees_spec(ts)) == ts,
{
    assert forall|i: int| 0 <= i < ts.len() implies wire_tree_wf(
        #[trigger] encode_trees_spec(ts)[i],
    ) && decode_spec(encode_trees_spec(ts)[i]) == ts[i] by {
        lemma_round_trip(ts[i]);
    }
    assert(decode_trees_spec(encode_trees_spec(ts)) =~= ts);
}

} // verus!
