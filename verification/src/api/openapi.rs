//! `/openapi.json`: the tool surface, and what it promises is served.
//!
//! The document is the product: an agent reads it as its tooling, so an operation described
//! here and not served, or served and not described, is a tool surface promising what the
//! node does not do or hiding what it does. [`lemma_every_route_is_documented_and_every_documented_path_is_served`]
//! holds the document's paths to the router's table.
use vstd::prelude::*;

verus! {

/// One path the document describes, and the operations it describes on it.
#[derive(Debug, Clone, PartialEq, Eq)]
pub struct PathItem {
    /// The path, with its parameters in braces.
    pub path: &'static str,
    /// The methods the document describes an operation for, upper case.
    pub methods: Vec<&'static str>,
    /// The tag its operations are grouped under.
    pub tag: &'static str,
}

/// The OpenAPI document of one node's management API.
#[derive(Debug, Clone, Copy, PartialEq, Eq)]
pub struct Document;

/// What the document describes, path by path in path order: the methods, then the path.
pub open spec fn described() -> Seq<(Seq<Seq<char>>, Seq<char>)> {
    seq![
        (seq!["GET"@], "/blocks"@),
        (seq!["GET"@], "/blocks/available"@),
        (seq!["GET"@], "/blocks/available/{*reference}"@),
        (seq!["POST"@], "/blocks/pull"@),
        (seq!["GET"@], "/logs/stream"@),
        (seq!["GET"@], "/node"@),
        (seq!["GET"@], "/services"@),
        (seq!["GET"@, "PUT"@, "DELETE"@], "/services/{service}"@),
        (seq!["GET"@], "/services/{service}/errors"@),
        (seq!["POST"@], "/services/{service}/reload"@),
        (seq!["POST"@], "/services/{service}/start"@),
        (seq!["GET"@], "/services/{service}/state/{instance}"@),
        (seq!["POST"@], "/services/{service}/stop"@),
        (seq!["GET"@], "/state/orphans"@),
        (seq!["DELETE"@], "/state/orphans/{namespace}"@),
        (seq!["GET"@, "POST"@], "/taps"@),
        (seq!["DELETE"@], "/taps/{tap}"@),
        (seq!["GET"@], "/taps/{tap}/stream"@),
    ]
}

/// The document's tags, each with what its operations are about.
pub open spec fn tag_table() -> Seq<(Seq<char>, Seq<char>)> {
    seq![
        ("node"@, "What this node is"@),
        ("blocks"@, "The block cache, and pulling into it"@),
        ("services"@, "Service definitions and their lifecycle"@),
        ("state"@, "What a block instance has in eio:state, and orphaned namespaces no instance declares any more"@),
        ("taps"@, "Watching one connection while it runs"@),
        ("logs"@, "This node's log, live and filtered"@),
    ]
}

/// The tag each described path's operations are grouped under, path by path.
pub open spec fn described_tags() -> Seq<Seq<char>> {
    seq!["blocks"@, "blocks"@, "blocks"@, "blocks"@, "logs"@, "node"@, "services"@, "services"@, "services"@, "services"@, "services"@, "state"@, "services"@, "state"@, "state"@, "taps"@, "taps"@, "taps"@]
}

/// A path item's methods and path, as plain values.
pub open spec fn item_view(item: PathItem) -> (Seq<Seq<char>>, Seq<char>) {
    (item.methods@.map_values(|m: &'static str| m@), item.path@)
}

/// One path item, built from its parts.
fn item(path: &'static str, methods: Vec<&'static str>, tag: &'static str) -> (item: PathItem)
    ensures
        item.path == path,
        item.methods == methods,
        item.tag == tag,
{
    PathItem { path, methods, tag }
}

impl Document {
    /// The document's title.
    pub const TITLE: &'static str = "eieio daemon";

    /// The document's description of the API as a whole.
    pub const DESCRIPTION: &'static str = "The management API of one eieio node. A node owns its configuration as files on disk; this API reads and writes those files and drives the services they describe. It holds no state the files do not, so editing a service file directly and calling reload is a first-class path.";

    /// The tags operations are grouped under, and what each is about.
    pub fn tags() -> (tags: Vec<(&'static str, &'static str)>)
        ensures
            tags@.map_values(|t: (&'static str, &'static str)| (t.0@, t.1@)) == tag_table(),
    {
        let tags = vec![
            ("node", "What this node is"),
            ("blocks", "The block cache, and pulling into it"),
            ("services", "Service definitions and their lifecycle"),
            ("state", "What a block instance has in eio:state, and orphaned namespaces no instance declares any more"),
            ("taps", "Watching one connection while it runs"),
            ("logs", "This node's log, live and filtered"),
        ];
        assert(tags@.map_values(|t: (&'static str, &'static str)| (t.0@, t.1@)) =~= tag_table());
        tags
    }

    /// Every path the document describes, in path order, with its operations.
    pub fn paths() -> (items: Vec<PathItem>)
        ensures
            items@.map_values(|i: PathItem| item_view(i)) == described(),
            items@.map_values(|i: PathItem| i.tag@) == described_tags(),
    {
        let items = vec![
            item("/blocks", vec!["GET"], "blocks"),
            item("/blocks/available", vec!["GET"], "blocks"),
            item("/blocks/available/{*reference}", vec!["GET"], "blocks"),
            item("/blocks/pull", vec!["POST"], "blocks"),
            item("/logs/stream", vec!["GET"], "logs"),
            item("/node", vec!["GET"], "node"),
            item("/services", vec!["GET"], "services"),
            item("/services/{service}", vec!["GET", "PUT", "DELETE"], "services"),
            item("/services/{service}/errors", vec!["GET"], "services"),
            item("/services/{service}/reload", vec!["POST"], "services"),
            item("/services/{service}/start", vec!["POST"], "services"),
            item("/services/{service}/state/{instance}", vec!["GET"], "state"),
            item("/services/{service}/stop", vec!["POST"], "services"),
            item("/state/orphans", vec!["GET"], "state"),
            item("/state/orphans/{namespace}", vec!["DELETE"], "state"),
            item("/taps", vec!["GET", "POST"], "taps"),
            item("/taps/{tap}", vec!["DELETE"], "taps"),
            item("/taps/{tap}/stream", vec!["GET"], "taps"),
        ];
        proof {
            assert(item_view(items@[0]).0 =~= described()[0].0);
            assert(item_view(items@[1]).0 =~= described()[1].0);
            assert(item_view(items@[2]).0 =~= described()[2].0);
            assert(item_view(items@[3]).0 =~= described()[3].0);
            assert(item_view(items@[4]).0 =~= described()[4].0);
            assert(item_view(items@[5]).0 =~= described()[5].0);
            assert(item_view(items@[6]).0 =~= described()[6].0);
            assert(item_view(items@[7]).0 =~= described()[7].0);
            assert(item_view(items@[8]).0 =~= described()[8].0);
            assert(item_view(items@[9]).0 =~= described()[9].0);
            assert(item_view(items@[10]).0 =~= described()[10].0);
            assert(item_view(items@[11]).0 =~= described()[11].0);
            assert(item_view(items@[12]).0 =~= described()[12].0);
            assert(item_view(items@[13]).0 =~= described()[13].0);
            assert(item_view(items@[14]).0 =~= described()[14].0);
            assert(item_view(items@[15]).0 =~= described()[15].0);
            assert(item_view(items@[16]).0 =~= described()[16].0);
            assert(item_view(items@[17]).0 =~= described()[17].0);
        }
        assert(items@.map_values(|i: PathItem| item_view(i)) =~= described());
        assert(items@.map_values(|i: PathItem| i.tag@) =~= described_tags());
        items
    }
}

/// Every path the document describes, in path order.
pub fn documented_paths() -> (paths: Vec<String>)
    ensures
        paths@.len() == described().len(),
        forall|i: int| 0 <= i < paths@.len() ==> (#[trigger] paths@[i])@ == described()[i].1,
{
    let items = Document::paths();
    let mut paths: Vec<String> = Vec::new();
    let mut i: usize = 0;
    while i < items.len()
        invariant
            i <= items@.len(),
            items@.map_values(|i: PathItem| item_view(i)) == described(),
            paths@.len() == i,
            forall|k: int| 0 <= k < i ==> (#[trigger] paths@[k])@ == described()[k].1,
        decreases items@.len() - i,
    {
        assert(items@.map_values(|i: PathItem| item_view(i))[i as int] == item_view(items@[i as int]));
        paths.push(String::from_str(items[i].path));
        i = i + 1;
    }
    paths
}

} // verus!
