//! The nodes of the virtual filesystem kept in the content store.

use vstd::prelude::*;

verus! {

/// Types of filesystem nodes.
#[derive(Debug, Clone, Copy, PartialEq, Eq, Structural)]
pub enum NodeType {
    File,
    Directory,
}

/// Abstract value of an [`FSNode`].
pub struct FSNodeView {
    pub entries: Option<Seq<(Seq<char>, Seq<char>)>>,
    pub content: Option<Seq<u8>>,
    pub node_type: NodeType,
}

/// A filesystem node: a directory maps child names to the hashes of the
/// child nodes, a file holds its content.
#[derive(Debug)]
pub struct FSNode {
    /// For directories: child names and the hashes of the child nodes.
    pub entries: Option<Vec<(String, String)>>,
    /// For files: the content.
    pub content: Option<Vec<u8>>,
    /// Type of node.
    pub node_type: NodeType,
}

/// The abstract value of a list of directory entries.
pub open spec fn entries_view(v: Seq<(String, String)>) -> Seq<(Seq<char>, Seq<char>)> {
    v.map_values(|e: (String, String)| (e.0@, e.1@))
}

impl View for FSNode {
    type V = FSNodeView;

    open spec fn view(&self) -> FSNodeView {
        FSNodeView {
            entries: match self.entries {
                Some(v) => Some(entries_view(v@)),
                None => None,
            },
            content: match self.content {
                Some(c) => Some(c@),
                None => None,
            },
            node_type: self.node_type,
        }
    }
}

/// A node that can be listed: a directory that has its entries.
pub open spec fn is_listable(n: FSNodeView) -> bool {
    n.node_type == NodeType::Directory && n.entries is Some
}

/// A node that can be read: a file that has its content.
pub open spec fn is_readable(n: FSNodeView) -> bool {
    n.node_type == NodeType::File && n.content is Some
}

/// The hash recorded under `name` among `entries` (the first such entry).
pub open spec fn lookup_spec(entries: Seq<(Seq<char>, Seq<char>)>, name: Seq<char>) -> Option<
    Seq<char>,
>
    decreases entries.len(),
{
    if entries.len() == 0 {
        None
    } else if entries[0].0 == name {
        Some(entries[0].1)
    } else {
        lookup_spec(entries.drop_first(), name)
    }
}

/// Each child name occurs once among `entries`, as in a map from names to
/// hashes.
pub open spec fn names_distinct(entries: Seq<(Seq<char>, Seq<char>)>) -> bool {
    forall|i: int, j: int| 0 <= i < j < entries.len() ==> entries[i].0 != entries[j].0
}

/// The well-formedness of a node: a directory names each child once, as
/// the map from names to hashes that it stands for does.
pub open spec fn node_wf(n: FSNodeView) -> bool {
    n.entries matches Some(e) ==> names_distinct(e)
}

impl FSNode {
    /// The well-formedness of this node (see [`node_wf`]).
    pub open spec fn wf(&self) -> bool {
        node_wf(self@)
    }
}

/// Where each child name occurs once, looking up the name of an entry gives
/// that entry's hash, wherever the entry stands.
pub proof fn lemma_lookup_finds_entry(entries: Seq<(Seq<char>, Seq<char>)>, i: int)
    requires
        names_distinct(entries),
        0 <= i < entries.len(),
    ensures
        lookup_spec(entries, entries[i].0) == Some(entries[i].1),
    decreases entries.len(),
{
    if i > 0 {
        let rest = entries.drop_first();
        assert(names_distinct(rest)) by {
            assert forall|a: int, b: int| 0 <= a < b < rest.len() implies rest[a].0 != rest[b].0 by {
                assert(rest[a] == entries[a + 1] && rest[b] == entries[b + 1]);
            }
        }
        assert(entries[0].0 != entries[i].0);
        assert(rest[i - 1] == entries[i]);
        lemma_lookup_finds_entry(rest, i - 1);
    }
}

/// The word a directory listing uses for a node type.
pub open spec fn type_word_spec(t: NodeType) -> Seq<char> {
    match t {
        NodeType::File => "file"@,
        NodeType::Directory => "directory"@,
    }
}

/// The path of the entry `name` inside the directory at `parent`.
pub open spec fn entry_path_spec(parent: Seq<char>, name: Seq<char>) -> Seq<char> {
    if parent == "/"@ {
        "/"@ + name
    } else {
        parent + "/"@ + name
    }
}

impl FSNode {
    /// Whether this node is a directory that has its entries.
    pub fn is_listable(&self) -> (b: bool)
        ensures
            b == is_listable(self@),
    {
        self.node_type == NodeType::Directory && self.entries.is_some()
    }

    /// Whether this node is a file that has its content.
    pub fn is_readable(&self) -> (b: bool)
        ensures
            b == is_readable(self@),
    {
        self.node_type == NodeType::File && self.content.is_some()
    }

    /// The hash of the child `name` of a listable node.
    pub fn child_hash(&self, name: &String) -> (r: Option<String>)
        requires
            is_listable(self@),
        ensures
            match r {
                Some(h) => lookup_spec(self@.entries.unwrap(), name@) == Some(h@),
                None => lookup_spec(self@.entries.unwrap(), name@).is_none(),
            },
    {
        let entries = self.entries.as_ref().unwrap();
        let ghost ev = entries_view(entries@);
        let mut i: usize = 0;
        proof {
            assert(ev.skip(0) =~= ev);
        }
        while i < entries.len()
            invariant
                ev == entries_view(entries@),
                ev == self@.entries.unwrap(),
                i <= entries.len(),
                lookup_spec(ev, name@) == lookup_spec(ev.skip(i as int), name@),
            decreases entries.len() - i,
        {
            proof {
                assert(ev.skip(i as int).drop_first() =~= ev.skip(i + 1));
                assert(ev.skip(i as int)[0] == ev[i as int]);
            }
            if entries[i].0.eq(name) {
                return Some(entries[i].1.clone());
            }
            i = i + 1;
        }
        None
    }
}

/// The word for a node type.
pub fn type_word(t: NodeType) -> (s: String)
    ensures
        s@ == type_word_spec(t),
{
    match t {
        NodeType::File => String::from_str("file"),
        NodeType::Directory => String::from_str("directory"),
    }
}

/// The path of the entry `name` inside the directory at `parent`.
pub fn entry_path(parent: &str, name: &str) -> (p: String)
    ensures
        p@ == entry_path_spec(parent@, name@),
{
    let root = String::from_str("/");
    if String::from_str(parent).eq(&root) {
        root.concat(name)
    } else {
        String::from_str(parent).concat("/").concat(name)
    }
}

/// Abstract value of a [`DirectoryEntry`].
pub struct DirectoryEntryView {
    pub name: Seq<char>,
    pub entry_type: Seq<char>,
    pub path: Seq<char>,
}

/// An entry of a directory listing.
#[derive(Debug)]
pub struct DirectoryEntry {
    pub name: String,
    /// `"file"` or `"directory"`.
    pub entry_type: String,
    pub path: String,
}

impl View for DirectoryEntry {
    type V = DirectoryEntryView;

    open spec fn view(&self) -> DirectoryEntryView {
        DirectoryEntryView { name: self.name@, entry_type: self.entry_type@, path: self.path@ }
    }
}

/// The abstract value of a list of directory entries.
pub open spec fn listing_view(v: Seq<DirectoryEntry>) -> Seq<DirectoryEntryView> {
    v.map_values(|e: DirectoryEntry| e@)
}

/// Why the content store could not hand out a node.
#[derive(Debug)]
pub enum FetchError {
    /// The store could not retrieve the content.
    Retrieve(String),
    /// The content is not a filesystem node.
    Parse(String),
}

/// Abstract value of a [`FetchError`].
pub enum FetchErrorView {
    Retrieve(Seq<char>),
    Parse(Seq<char>),
}

impl View for FetchError {
    type V = FetchErrorView;

    open spec fn view(&self) -> FetchErrorView {
        match self {
            FetchError::Retrieve(m) => FetchErrorView::Retrieve(m@),
            FetchError::Parse(m) => FetchErrorView::Parse(m@),
        }
    }
}

/// The abstract value of the answer to a node fetch.
pub open spec fn fetched_view(r: Result<FSNode, FetchError>) -> Result<FSNodeView, FetchErrorView> {
    match r {
        Ok(n) => Ok(n@),
        Err(e) => Err(e@),
    }
}

/// The message for a failed fetch of the root node of a filesystem.
pub open spec fn root_error_text(e: FetchErrorView) -> Seq<char> {
    match e {
        FetchErrorView::Retrieve(m) => "Failed to retrieve filesystem root: "@ + m,
        FetchErrorView::Parse(m) => "Failed to parse filesystem node: "@ + m,
    }
}

/// The message for a failed fetch of any other node.
pub open spec fn node_error_text(e: FetchErrorView) -> Seq<char> {
    match e {
        FetchErrorView::Retrieve(m) => "Failed to retrieve node content: "@ + m,
        FetchErrorView::Parse(m) => "Failed to parse node: "@ + m,
    }
}

/// Wrapper around the content store that holds a build's sources.
#[derive(Debug)]
pub struct ContentStore {
    pub store_id: String,
}

impl ContentStore {
    /// A handle on the store `store_id`.
    pub fn new(store_id: String) -> (s: Self)
        ensures
            s.store_id@ == store_id@,
    {
        ContentStore { store_id }
    }

    /// The store's identifier.
    pub fn store_id(&self) -> (s: &str)
        ensures
            s@ == self.store_id@,
    {
        self.store_id.as_str()
    }

    /// The node that a fetch by hash gave, or the message for its failure.
    pub fn get_node(&self, fetched: Result<FSNode, FetchError>) -> (r: Result<FSNode, String>)
        ensures
            match fetched_view(fetched) {
                Ok(n) => r matches Ok(m) && m@ == n,
                Err(e) => r matches Err(m) && m@ == node_error_text(e),
            },
    {
        match fetched {
            Ok(n) => Ok(n),
            Err(e) => Err(node_error_message(&e)),
        }
    }
}

/// The message for a failed fetch of the root node.
pub fn root_error_message(e: &FetchError) -> (m: String)
    ensures
        m@ == root_error_text(e@),
{
    match e {
        FetchError::Retrieve(m) => String::from_str("Failed to retrieve filesystem root: ").concat(
            m.as_str(),
        ),
        FetchError::Parse(m) => String::from_str("Failed to parse filesystem node: ").concat(
            m.as_str(),
        ),
    }
}

/// The message for a failed fetch of a node other than the root.
pub fn node_error_message(e: &FetchError) -> (m: String)
    ensures
        m@ == node_error_text(e@),
{
    match e {
        FetchError::Retrieve(m) => String::from_str("Failed to retrieve node content: ").concat(
            m.as_str(),
        ),
        FetchError::Parse(m) => String::from_str("Failed to parse node: ").concat(m.as_str()),
    }
}

} // verus!
