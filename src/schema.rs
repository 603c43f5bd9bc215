use crate::codec::WireTree;
use vstd::prelude::*;

verus! {

/// One leaf value: the name of its remote type and its text form.
#[derive(Debug, PartialEq)]
pub struct RestHopperObject {
    pub object_type: String,
    pub data: String,
}

/// What a leaf value stands for.
pub struct ItemView {
    pub object_type: Seq<char>,
    pub data: Seq<char>,
}

impl View for RestHopperObject {
    type V = ItemView;

    open spec fn view(&self) -> ItemView {
        ItemView { object_type: self.object_type@, data: self.data@ }
    }
}

/// The values of one named parameter, organised by branch path. Each entry
/// of `inner_tree` is a path key with the items found at that path; the
/// entries keep the order in which they were given.
#[derive(Debug, PartialEq)]
pub struct DataTree {
    pub param_name: String,
    pub inner_tree: Vec<(String, Vec<RestHopperObject>)>,
}

/// What a data tree stands for: its name and its branches in order.
pub struct TreeView {
    pub param_name: Seq<char>,
    pub branches: Seq<(Seq<char>, Seq<ItemView>)>,
}

pub open spec fn items_view(items: Seq<RestHopperObject>) -> Seq<ItemView> {
    items.map_values(|o: RestHopperObject| o@)
}

pub open spec fn branch_view(b: (String, Vec<RestHopperObject>)) -> (Seq<char>, Seq<ItemView>) {
    (b.0@, items_view(b.1@))
}

impl View for DataTree {
    type V = TreeView;

    open spec fn view(&self) -> TreeView {
        TreeView {
            param_name: self.param_name@,
            branches: self.inner_tree@.map_values(|b: (String, Vec<RestHopperObject>)| branch_view(b)),
        }
    }
}

/// A leaf value is complete when both its type tag and its data are non-empty.
pub open spec fn item_wf(i: ItemView) -> bool {
    i.object_type.len() > 0 && i.data.len() > 0
}

/// No path key occurs twice among the branches.
pub open spec fn keys_unique<T>(branches: Seq<(Seq<char>, T)>) -> bool {
    forall|a: int, b: int|
        0 <= a < branches.len() && 0 <= b < branches.len() && a != b ==> branches[a].0
            != branches[b].0
}

/// A well-formed tree: unique path keys, every branch present holds at least
/// one item, and every item is complete.
pub open spec fn tree_wf(t: TreeView) -> bool {
    &&& keys_unique(t.branches)
    &&& forall|a: int| 0 <= a < t.branches.len() ==> t.branches[a].1.len() > 0
    &&& forall|a: int, k: int|
        0 <= a < t.branches.len() && 0 <= k < t.branches[a].1.len() ==> item_wf(
            #[trigger] t.branches[a].1[k],
        )
}

impl DataTree {
    pub open spec fn wf(&self) -> bool {
        tree_wf(self@)
    }
}

/// Metadata of one declared output parameter.
#[derive(Debug, PartialEq)]
pub struct IoParamSchema {
    pub name: Option<String>,
    pub nickname: Option<String>,
    pub param_type: Option<String>,
}

/// Metadata of one declared input parameter. Numbers are held as the text
/// of the JSON number; `minimum` and `maximum` hold the raw JSON text of a
/// value of no fixed shape, or nothing when the service sent none.
#[derive(Debug, PartialEq)]
pub struct InputParamSchema {
    pub description: String,
    pub at_least: String,
    pub at_most: String,
    pub default: String,
    pub minimum: Option<String>,
    pub maximum: Option<String>,
    pub name: String,
    pub nickname: Option<String>,
    pub param_type: String,
}

/// The answer to an upload: what the definition declares, and the cache
/// handle under which the service keeps it.
#[derive(Debug, PartialEq)]
pub struct IoResponseSchema {
    pub description: Option<String>,
    pub cache_key: Option<String>,
    pub input_names: Vec<String>,
    pub output_names: Vec<String>,
    pub icon: Option<String>,
    pub inputs: Vec<InputParamSchema>,
    pub outputs: Vec<IoParamSchema>,
}

/// The envelope of the upload request and of the solve request and
/// response. The tolerances are held as the text of the JSON number. `algo`
/// carries an encoded definition (upload), `pointer` a cache handle (solve).
#[derive(Debug, PartialEq)]
pub struct Schema {
    pub absolutetolerance: String,
    pub angletolerance: String,
    pub algo: Option<String>,
    pub pointer: Option<String>,
    pub cachesolve: bool,
    pub recursionlevel: i64,
    pub values: Vec<WireTree>,
    pub warnings: Vec<String>,
    pub errors: Vec<String>,
}

} // verus!
