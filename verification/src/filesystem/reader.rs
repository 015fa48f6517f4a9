//! Reading the virtual filesystem: listing a directory and reading a file.
//!
//! Nodes live in a content store and are fetched one hash at a time, so each
//! reader is a small machine: it asks for the node under a hash, is handed
//! the answer, and either asks for the next node or is done.

use vstd::prelude::*;
use crate::filesystem::models::{
    entries_view, entry_path, entry_path_spec, fetched_view, is_listable, is_readable,
    listing_view, lookup_spec, node_error_message, node_error_text, root_error_message,
    root_error_text, type_word, type_word_spec, ContentStore, DirectoryEntry, DirectoryEntryView,
    FSNode, FSNodeView, FetchError, FetchErrorView,
};
use crate::text::{path_components, nonempty_pieces};
use vstd::utf8::{decode_utf8, valid_utf8};

verus! {

/// Where a descent along path components stands after looking at a node.
pub enum Descent {
    /// The path cannot be followed; the message says why.
    Failed(String),
    /// The next node on the path has this hash.
    Fetch(String),
    /// All components have been followed: the node is the one the path names.
    Arrived,
}

/// Abstract value of a [`Descent`].
pub enum DescentView {
    Failed(Seq<char>),
    Fetch(Seq<char>),
    Arrived,
}

impl View for Descent {
    type V = DescentView;

    open spec fn view(&self) -> DescentView {
        match self {
            Descent::Failed(m) => DescentView::Failed(m@),
            Descent::Fetch(h) => DescentView::Fetch(h@),
            Descent::Arrived => DescentView::Arrived,
        }
    }
}

/// One step of a descent: at `node`, having followed `i` of the `components`.
pub open spec fn descend_spec(node: FSNodeView, components: Seq<Seq<char>>, i: int) -> DescentView {
    if i < components.len() {
        if !is_listable(node) {
            DescentView::Failed("Path component is not a directory: "@ + components[i])
        } else {
            match lookup_spec(node.entries.unwrap(), components[i]) {
                Some(h) => DescentView::Fetch(h),
                None => DescentView::Failed("Path component not found: "@ + components[i]),
            }
        }
    } else {
        DescentView::Arrived
    }
}

/// Takes one step of a descent along `components` from `node`.
pub fn descend(node: &FSNode, components: &Vec<String>, i: usize) -> (d: Descent)
    requires
        i <= components.len(),
    ensures
        d@ == descend_spec(node@, components_view(components@), i as int),
{
    let ghost cv = components_view(components@);
    if i < components.len() {
        proof {
            assert(cv[i as int] == components@[i as int]@);
        }
        if !node.is_listable() {
            Descent::Failed(
                String::from_str("Path component is not a directory: ").concat(
                    components[i].as_str(),
                ),
            )
        } else {
            match node.child_hash(&components[i]) {
                Some(h) => Descent::Fetch(h),
                None => Descent::Failed(
                    String::from_str("Path component not found: ").concat(components[i].as_str()),
                ),
            }
        }
    } else {
        Descent::Arrived
    }
}

/// The components of a path, as abstract values.
pub open spec fn components_view(v: Seq<String>) -> Seq<Seq<char>> {
    v.map_values(|c: String| c@)
}

/// What a directory listing waits for.
pub enum ListPhase {
    /// The root node of the filesystem.
    FetchRoot,
    /// The node of the component before the given index.
    Descend(usize),
    /// The child node of the next entry to be listed; the entries listed so
    /// far come second.
    Children(Vec<(String, String)>, Vec<DirectoryEntry>),
    /// Nothing: the listing is done.
    Finished,
}

/// Abstract value of a [`ListPhase`].
pub enum ListPhaseView {
    FetchRoot,
    Descend(nat),
    Children(Seq<(Seq<char>, Seq<char>)>, Seq<DirectoryEntryView>),
    Finished,
}

/// A directory listing in progress.
pub struct DirectoryListing {
    path: String,
    components: Vec<String>,
    phase: ListPhase,
}

/// Abstract value of a [`DirectoryListing`].
pub struct DirectoryListingView {
    pub path: Seq<char>,
    pub components: Seq<Seq<char>>,
    pub phase: ListPhaseView,
}

impl View for DirectoryListing {
    type V = DirectoryListingView;

    closed spec fn view(&self) -> DirectoryListingView {
        DirectoryListingView {
            path: self.path@,
            components: components_view(self.components@),
            phase: match self.phase {
                ListPhase::FetchRoot => ListPhaseView::FetchRoot,
                ListPhase::Descend(i) => ListPhaseView::Descend(i as nat),
                ListPhase::Children(e, l) => ListPhaseView::Children(
                    entries_view(e@),
                    listing_view(l@),
                ),
                ListPhase::Finished => ListPhaseView::Finished,
            },
        }
    }
}

/// What a directory listing asks for next.
pub enum ListRequest {
    /// The node with this hash.
    Fetch(String),
    /// Nothing more: here is the listing, or why there is none.
    Done(Result<Vec<DirectoryEntry>, String>),
}

/// Abstract value of a [`ListRequest`].
pub enum ListRequestView {
    Fetch(Seq<char>),
    Done(Result<Seq<DirectoryEntryView>, Seq<char>>),
}

/// The abstract value of the outcome of a listing.
pub open spec fn list_result_view(r: Result<Vec<DirectoryEntry>, String>) -> Result<
    Seq<DirectoryEntryView>,
    Seq<char>,
> {
    match r {
        Ok(l) => Ok(listing_view(l@)),
        Err(m) => Err(m@),
    }
}

impl View for ListRequest {
    type V = ListRequestView;

    open spec fn view(&self) -> ListRequestView {
        match self {
            ListRequest::Fetch(h) => ListRequestView::Fetch(h@),
            ListRequest::Done(r) => ListRequestView::Done(list_result_view(*r)),
        }
    }
}

/// The listing stops with `r`.
pub open spec fn list_finish(
    s: DirectoryListingView,
    r: Result<Seq<DirectoryEntryView>, Seq<char>>,
) -> (DirectoryListingView, ListRequestView) {
    (DirectoryListingView { phase: ListPhaseView::Finished, ..s }, ListRequestView::Done(r))
}

/// The entry listed for the child `(name, hash)` whose node is `child`.
pub open spec fn listed_entry(dir: Seq<char>, e: (Seq<char>, Seq<char>), child: FSNodeView) -> DirectoryEntryView {
    DirectoryEntryView {
        name: e.0,
        entry_type: type_word_spec(child.node_type),
        path: entry_path_spec(dir, e.0),
    }
}

/// The listing goes on with the next unlisted entry, or is done when every
/// entry is listed.
pub open spec fn list_children(
    s: DirectoryListingView,
    entries: Seq<(Seq<char>, Seq<char>)>,
    listed: Seq<DirectoryEntryView>,
) -> (DirectoryListingView, ListRequestView) {
    if listed.len() < entries.len() {
        (
            DirectoryListingView { phase: ListPhaseView::Children(entries, listed), ..s },
            ListRequestView::Fetch(entries[listed.len() as int].1),
        )
    } else {
        list_finish(s, Ok(listed))
    }
}

/// The listing has the node reached after following `i` components.
pub open spec fn list_at_node(s: DirectoryListingView, node: FSNodeView, i: nat) -> (
    DirectoryListingView,
    ListRequestView,
) {
    match descend_spec(node, s.components, i as int) {
        DescentView::Failed(m) => list_finish(s, Err(m)),
        DescentView::Fetch(h) => (
            DirectoryListingView { phase: ListPhaseView::Descend(i + 1), ..s },
            ListRequestView::Fetch(h),
        ),
        DescentView::Arrived => if !is_listable(node) {
            list_finish(s, Err("Path is not a directory: "@ + s.path))
        } else {
            list_children(s, node.entries.unwrap(), Seq::empty())
        },
    }
}

/// The listing right after it is started for `path`: it asks for the root.
pub open spec fn list_start_spec(fs_hash: Seq<char>, path: Seq<char>) -> (
    DirectoryListingView,
    ListRequestView,
) {
    (
        DirectoryListingView {
            path,
            components: nonempty_pieces(path, '/'),
            phase: ListPhaseView::FetchRoot,
        },
        ListRequestView::Fetch(fs_hash),
    )
}

/// One transition of a directory listing, on the answer to its last request.
pub open spec fn list_resume_spec(
    s: DirectoryListingView,
    reply: Result<FSNodeView, FetchErrorView>,
) -> (DirectoryListingView, ListRequestView) {
    match s.phase {
        ListPhaseView::FetchRoot => match reply {
            Err(e) => list_finish(s, Err(root_error_text(e))),
            Ok(root) => if s.path == "/"@ {
                if !is_listable(root) {
                    list_finish(s, Err("Root is not a valid directory"@))
                } else {
                    list_children(s, root.entries.unwrap(), Seq::empty())
                }
            } else {
                list_at_node(s, root, 0)
            },
        },
        ListPhaseView::Descend(i) => match reply {
            Err(e) => list_finish(s, Err(node_error_text(e))),
            Ok(node) => list_at_node(s, node, i),
        },
        ListPhaseView::Children(entries, listed) => match reply {
            Err(e) => list_finish(s, Err(node_error_text(e))),
            Ok(child) => list_children(
                s,
                entries,
                listed.push(listed_entry(s.path, entries[listed.len() as int], child)),
            ),
        },
        ListPhaseView::Finished => (s, ListRequestView::Done(Err(Seq::empty()))),
    }
}

/// The states a listing can be in between its requests.
pub open spec fn listing_wf(s: DirectoryListingView) -> bool {
    match s.phase {
        ListPhaseView::Descend(i) => 1 <= i <= s.components.len(),
        ListPhaseView::Children(entries, listed) => listed.len() < entries.len(),
        _ => true,
    }
}

impl DirectoryListing {
    /// Whether the listing waits for a node.
    pub open spec fn pending(&self) -> bool {
        !(self@.phase is Finished)
    }

    /// The state invariant of a listing.
    pub open spec fn wf(&self) -> bool {
        listing_wf(self@)
    }

    fn finish(&mut self, r: Result<Vec<DirectoryEntry>, String>) -> (q: ListRequest)
        ensures
            final(self)@ == list_finish(old(self)@, list_result_view(r)).0,
            q@ == list_finish(old(self)@, list_result_view(r)).1,
    {
        self.phase = ListPhase::Finished;
        ListRequest::Done(r)
    }

    fn children(&mut self, entries: Vec<(String, String)>, listed: Vec<DirectoryEntry>) -> (q:
        ListRequest)
        requires
            listed.len() <= entries.len(),
        ensures
            final(self)@ == list_children(old(self)@, entries_view(entries@), listing_view(listed@)).0,
            q@ == list_children(old(self)@, entries_view(entries@), listing_view(listed@)).1,
            final(self).wf(),
    {
        if listed.len() < entries.len() {
            let h = entries[listed.len()].1.clone();
            self.phase = ListPhase::Children(entries, listed);
            ListRequest::Fetch(h)
        } else {
            self.finish(Ok(listed))
        }
    }

    fn at_node(&mut self, node: FSNode, i: usize) -> (q: ListRequest)
        requires
            i <= old(self).components.len(),
        ensures
            final(self)@ == list_at_node(old(self)@, node@, i as nat).0,
            q@ == list_at_node(old(self)@, node@, i as nat).1,
            final(self).wf(),
    {
        let d = descend(&node, &self.components, i);
        match d {
            Descent::Failed(m) => self.finish(Err(m)),
            Descent::Fetch(h) => {
                self.phase = ListPhase::Descend(i + 1);
                ListRequest::Fetch(h)
            },
            Descent::Arrived => {
                if !node.is_listable() {
                    let m = String::from_str("Path is not a directory: ").concat(
                        self.path.as_str(),
                    );
                    self.finish(Err(m))
                } else {
                    let entries = node.entries.unwrap();
                    let none: Vec<DirectoryEntry> = Vec::new();
                    proof {
                        assert(listing_view(none@) =~= Seq::empty());
                    }
                    self.children(entries, none)
                }
            },
        }
    }

    /// Goes on with the answer to the listing's last request.
    pub fn resume(&mut self, reply: Result<FSNode, FetchError>) -> (q: ListRequest)
        requires
            old(self).pending(),
            old(self).wf(),
        ensures
            final(self)@ == list_resume_spec(old(self)@, fetched_view(reply)).0,
            q@ == list_resume_spec(old(self)@, fetched_view(reply)).1,
            final(self).wf(),
            final(self).pending() <==> q is Fetch,
    {
        let mut phase = ListPhase::Finished;
        std::mem::swap(&mut phase, &mut self.phase);
        match phase {
            ListPhase::FetchRoot => match reply {
                Err(e) => self.finish(Err(root_error_message(&e))),
                Ok(root) => {
                    if self.path.eq(&String::from_str("/")) {
                        if !root.is_listable() {
                            self.finish(Err(String::from_str("Root is not a valid directory")))
                        } else {
                            let entries = root.entries.unwrap();
                            let none: Vec<DirectoryEntry> = Vec::new();
                            proof {
                                assert(listing_view(none@) =~= Seq::empty());
                            }
                            self.children(entries, none)
                        }
                    } else {
                        self.at_node(root, 0)
                    }
                },
            },
            ListPhase::Descend(i) => match reply {
                Err(e) => self.finish(Err(node_error_message(&e))),
                Ok(node) => self.at_node(node, i),
            },
            ListPhase::Children(entries, listed) => match reply {
                Err(e) => self.finish(Err(node_error_message(&e))),
                Ok(child) => {
                    let k = listed.len();
                    let entry = DirectoryEntry {
                        name: entries[k].0.clone(),
                        entry_type: type_word(child.node_type),
                        path: entry_path(self.path.as_str(), entries[k].0.as_str()),
                    };
                    let ghost before = listed@;
                    let mut listed = listed;
                    listed.push(entry);
                    proof {
                        assert(listing_view(listed@) =~= listing_view(before).push(
                            listed_entry(self@.path, entries_view(entries@)[k as int], child@),
                        ));
                    }
                    self.children(entries, listed)
                },
            },
            ListPhase::Finished => ListRequest::Done(Err(String::new())),
        }
    }
}

impl ContentStore {
    /// Starts listing the directory at `path` in the filesystem whose root
    /// node has hash `fs_hash`; the first request is for the root node.
    pub fn list_directory(&self, fs_hash: &str, path: &str) -> (r: (DirectoryListing, ListRequest))
        ensures
            (r.0@, r.1@) == list_start_spec(fs_hash@, path@),
            r.0.wf(),
            r.0.pending(),
    {
        let listing = DirectoryListing {
            path: String::from_str(path),
            components: path_components(path),
            phase: ListPhase::FetchRoot,
        };
        (listing, ListRequest::Fetch(String::from_str(fs_hash)))
    }
}

/// What a file read waits for.
pub enum ReadPhase {
    /// The root node of the filesystem.
    FetchRoot,
    /// The node of the directory component before the given index.
    Descend(usize),
    /// The node of the file itself.
    FetchFile,
    /// Nothing: the read is done.
    Finished,
}

/// Abstract value of a [`ReadPhase`].
pub enum ReadPhaseView {
    FetchRoot,
    Descend(nat),
    FetchFile,
    Finished,
}

/// A file read in progress.
pub struct FileRead {
    path: String,
    dirs: Vec<String>,
    file_name: Option<String>,
    phase: ReadPhase,
}

/// Abstract value of a [`FileRead`]: the path, its directory components,
/// the file's name (none when the path has no component) and the phase.
pub struct FileReadView {
    pub path: Seq<char>,
    pub dirs: Seq<Seq<char>>,
    pub file_name: Option<Seq<char>>,
    pub phase: ReadPhaseView,
}

impl View for FileRead {
    type V = FileReadView;

    closed spec fn view(&self) -> FileReadView {
        FileReadView {
            path: self.path@,
            dirs: components_view(self.dirs@),
            file_name: match self.file_name {
                Some(n) => Some(n@),
                None => None,
            },
            phase: match self.phase {
                ReadPhase::FetchRoot => ReadPhaseView::FetchRoot,
                ReadPhase::Descend(i) => ReadPhaseView::Descend(i as nat),
                ReadPhase::FetchFile => ReadPhaseView::FetchFile,
                ReadPhase::Finished => ReadPhaseView::Finished,
            },
        }
    }
}

/// What a file read asks for next.
pub enum ReadRequest {
    /// The node with this hash.
    Fetch(String),
    /// Nothing more: here is the content, or why there is none.
    Done(Result<Vec<u8>, String>),
}

/// Abstract value of a [`ReadRequest`].
pub enum ReadRequestView {
    Fetch(Seq<char>),
    Done(Result<Seq<u8>, Seq<char>>),
}

/// The abstract value of the outcome of a read.
pub open spec fn read_result_view(r: Result<Vec<u8>, String>) -> Result<Seq<u8>, Seq<char>> {
    match r {
        Ok(c) => Ok(c@),
        Err(m) => Err(m@),
    }
}

impl View for ReadRequest {
    type V = ReadRequestView;

    open spec fn view(&self) -> ReadRequestView {
        match self {
            ReadRequest::Fetch(h) => ReadRequestView::Fetch(h@),
            ReadRequest::Done(r) => ReadRequestView::Done(read_result_view(*r)),
        }
    }
}

/// The read stops with `r`.
pub open spec fn read_finish(s: FileReadView, r: Result<Seq<u8>, Seq<char>>) -> (
    FileReadView,
    ReadRequestView,
) {
    (FileReadView { phase: ReadPhaseView::Finished, ..s }, ReadRequestView::Done(r))
}

/// The read has the node reached after following `i` directory components.
pub open spec fn read_at_node(s: FileReadView, node: FSNodeView, i: nat) -> (
    FileReadView,
    ReadRequestView,
) {
    match descend_spec(node, s.dirs, i as int) {
        DescentView::Failed(m) => read_finish(s, Err(m)),
        DescentView::Fetch(h) => (
            FileReadView { phase: ReadPhaseView::Descend(i + 1), ..s },
            ReadRequestView::Fetch(h),
        ),
        DescentView::Arrived => if !is_listable(node) {
            read_finish(s, Err("Parent path is not a directory"@))
        } else {
            match lookup_spec(node.entries.unwrap(), s.file_name.unwrap()) {
                Some(h) => (FileReadView { phase: ReadPhaseView::FetchFile, ..s }, ReadRequestView::Fetch(h)),
                None => read_finish(s, Err("File not found: "@ + s.file_name.unwrap())),
            }
        },
    }
}

/// The read right after it is started for `path`: a read of the root
/// directory fails at once, any other asks for the root node.
pub open spec fn read_start_spec(fs_hash: Seq<char>, path: Seq<char>) -> (FileReadView, ReadRequestView) {
    let c = nonempty_pieces(path, '/');
    let s = FileReadView {
        path,
        dirs: if c.len() > 0 { c.drop_last() } else { c },
        file_name: if c.len() > 0 { Some(c.last()) } else { None },
        phase: ReadPhaseView::FetchRoot,
    };
    if path == "/"@ {
        read_finish(s, Err("Cannot read root directory as a file"@))
    } else {
        (s, ReadRequestView::Fetch(fs_hash))
    }
}

/// One transition of a file read, on the answer to its last request.
pub open spec fn read_resume_spec(s: FileReadView, reply: Result<FSNodeView, FetchErrorView>) -> (
    FileReadView,
    ReadRequestView,
) {
    match s.phase {
        ReadPhaseView::FetchRoot => match reply {
            Err(e) => read_finish(s, Err(root_error_text(e))),
            Ok(root) => if s.file_name is None {
                read_finish(s, Err("Invalid file path"@))
            } else {
                read_at_node(s, root, 0)
            },
        },
        ReadPhaseView::Descend(i) => match reply {
            Err(e) => read_finish(s, Err(node_error_text(e))),
            Ok(node) => read_at_node(s, node, i),
        },
        ReadPhaseView::FetchFile => match reply {
            Err(e) => read_finish(s, Err(node_error_text(e))),
            Ok(file) => if !is_readable(file) {
                read_finish(s, Err("Path does not point to a file: "@ + s.path))
            } else {
                read_finish(s, Ok(file.content.unwrap()))
            },
        },
        ReadPhaseView::Finished => (s, ReadRequestView::Done(Err(Seq::empty()))),
    }
}

/// The states a read can be in between its requests.
pub open spec fn read_wf(s: FileReadView) -> bool {
    &&& (s.phase is Descend || s.phase is FetchFile) ==> s.file_name is Some
    &&& s.phase matches ReadPhaseView::Descend(i) ==> 1 <= i <= s.dirs.len()
}

impl FileRead {
    /// Whether the read waits for a node.
    pub open spec fn pending(&self) -> bool {
        !(self@.phase is Finished)
    }

    /// The state invariant of a read.
    pub open spec fn wf(&self) -> bool {
        read_wf(self@)
    }

    fn finish(&mut self, r: Result<Vec<u8>, String>) -> (q: ReadRequest)
        ensures
            final(self)@ == read_finish(old(self)@, read_result_view(r)).0,
            q@ == read_finish(old(self)@, read_result_view(r)).1,
    {
        self.phase = ReadPhase::Finished;
        ReadRequest::Done(r)
    }

    fn at_node(&mut self, node: FSNode, i: usize) -> (q: ReadRequest)
        requires
            i <= old(self).dirs.len(),
            old(self).file_name is Some,
        ensures
            final(self)@ == read_at_node(old(self)@, node@, i as nat).0,
            q@ == read_at_node(old(self)@, node@, i as nat).1,
            final(self).wf(),
    {
        let d = descend(&node, &self.dirs, i);
        match d {
            Descent::Failed(m) => self.finish(Err(m)),
            Descent::Fetch(h) => {
                self.phase = ReadPhase::Descend(i + 1);
                ReadRequest::Fetch(h)
            },
            Descent::Arrived => {
                if !node.is_listable() {
                    self.finish(Err(String::from_str("Parent path is not a directory")))
                } else {
                    let name = self.file_name.as_ref().unwrap();
                    match node.child_hash(name) {
                        Some(h) => {
                            self.phase = ReadPhase::FetchFile;
                            ReadRequest::Fetch(h)
                        },
                        None => {
                            let m = String::from_str("File not found: ").concat(name.as_str());
                            self.finish(Err(m))
                        },
                    }
                }
            },
        }
    }

    /// Goes on with the answer to the read's last request.
    pub fn resume(&mut self, reply: Result<FSNode, FetchError>) -> (q: ReadRequest)
        requires
            old(self).pending(),
            old(self).wf(),
        ensures
            final(self)@ == read_resume_spec(old(self)@, fetched_view(reply)).0,
            q@ == read_resume_spec(old(self)@, fetched_view(reply)).1,
            final(self).wf(),
            final(self).pending() <==> q is Fetch,
    {
        let mut phase = ReadPhase::Finished;
        std::mem::swap(&mut phase, &mut self.phase);
        match phase {
            ReadPhase::FetchRoot => match reply {
                Err(e) => self.finish(Err(root_error_message(&e))),
                Ok(root) => {
                    if self.file_name.is_none() {
                        self.finish(Err(String::from_str("Invalid file path")))
                    } else {
                        self.at_node(root, 0)
                    }
                },
            },
            ReadPhase::Descend(i) => match reply {
                Err(e) => self.finish(Err(node_error_message(&e))),
                Ok(node) => self.at_node(node, i),
            },
            ReadPhase::FetchFile => match reply {
                Err(e) => self.finish(Err(node_error_message(&e))),
                Ok(file) => {
                    if !file.is_readable() {
                        let m = String::from_str("Path does not point to a file: ").concat(
                            self.path.as_str(),
                        );
                        self.finish(Err(m))
                    } else {
                        self.finish(Ok(file.content.unwrap()))
                    }
                },
            },
            ReadPhase::Finished => ReadRequest::Done(Err(String::new())),
        }
    }
}

/// The text (the `Display`) of the error that `String::from_utf8` gives for
/// `bytes`; it names where the bytes stop being UTF-8, so it depends on the
/// bytes alone.
pub uninterp spec fn utf8_error_text(bytes: Seq<u8>) -> Seq<char>;

/// `String::from_utf8`: the text the bytes encode when they are valid UTF-8,
/// and otherwise the text of the error it gives.
#[verifier::external_body]
fn string_from_utf8(bytes: Vec<u8>) -> (r: Result<String, String>)
    ensures
        r is Ok <==> valid_utf8(bytes@),
        r matches Ok(s) ==> s@ == decode_utf8(bytes@),
        r matches Err(m) ==> m@ == utf8_error_text(bytes@),
{
    match String::from_utf8(bytes) {
        Ok(s) => Ok(s),
        Err(e) => Err(e.to_string()),
    }
}

/// The message for file content that is not UTF-8, whose decoding error
/// reads `detail`.
pub fn utf8_failure_message(detail: &str) -> (m: String)
    ensures
        m@ == "Failed to convert file content to string: "@ + detail@,
{
    String::from_str("Failed to convert file content to string: ").concat(detail)
}

impl ContentStore {
    /// Starts reading the raw content of the file at `path` in the
    /// filesystem whose root node has hash `fs_hash`.
    pub fn read_file_content(&self, fs_hash: &str, path: &str) -> (r: (FileRead, ReadRequest))
        ensures
            r.0@ == read_start_spec(fs_hash@, path@).0,
            r.1@ == read_start_spec(fs_hash@, path@).1,
            r.0.wf(),
            r.0.pending() <==> r.1 is Fetch,
    {
        let mut dirs = path_components(path);
        let ghost c = components_view(dirs@);
        let file_name = dirs.pop();
        proof {
            if c.len() > 0 {
                assert(components_view(dirs@) =~= c.drop_last());
            }
        }
        let mut read = FileRead {
            path: String::from_str(path),
            dirs,
            file_name,
            phase: ReadPhase::FetchRoot,
        };
        if read.path.eq(&String::from_str("/")) {
            let q = read.finish(Err(String::from_str("Cannot read root directory as a file")));
            (read, q)
        } else {
            (read, ReadRequest::Fetch(String::from_str(fs_hash)))
        }
    }

    /// The text of a file from its raw content: the content decoded as
    /// UTF-8, or the message for content that is not UTF-8, which carries the
    /// decoding error's text; a failure to read the content passes through.
    pub fn read_file(&self, content: Result<Vec<u8>, String>) -> (r: Result<String, String>)
        ensures
            match content {
                Err(m) => r matches Err(x) && x@ == m@,
                Ok(bytes) => if valid_utf8(bytes@) {
                    r matches Ok(t) && t@ == decode_utf8(bytes@)
                } else {
                    r matches Err(x) && x@ == "Failed to convert file content to string: "@
                        + utf8_error_text(bytes@)
                },
            },
    {
        match content {
            Err(m) => Err(m),
            Ok(bytes) => match string_from_utf8(bytes) {
                Ok(t) => Ok(t),
                Err(d) => Err(utf8_failure_message(d.as_str())),
            },
        }
    }
}

} // verus!
