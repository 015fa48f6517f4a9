//! What the readers compute, stated over a model of the content store, and
//! the proof that driving a reader with the store's answers computes it.

use vstd::prelude::*;
use crate::filesystem::models::{
    entry_path_spec, is_listable, lemma_lookup_finds_entry, names_distinct, node_wf, type_word_spec, is_readable, lookup_spec, node_error_text, root_error_text, DirectoryEntryView,
    FSNodeView, FetchErrorView,
};
use crate::filesystem::reader::{
    list_at_node, list_children, list_resume_spec, list_start_spec, listed_entry,
    listing_wf, read_at_node, read_resume_spec, read_start_spec, read_wf,
    DirectoryListingView, FileReadView, ListPhaseView, ListRequestView, ReadPhaseView,
    ReadRequestView,
};
use crate::text::{is_nonempty, lemma_split_nonempty, nonempty_pieces, split_spec};

verus! {

/// A content store, as the readers see it: what fetching each hash gives.
pub type StoreModel = spec_fn(Seq<char>) -> Result<FSNodeView, FetchErrorView>;

/// The node reached from `n` by following `components`, fetching each step
/// from `store`, or the message for the first step that cannot be taken.
pub open spec fn walk(store: StoreModel, n: FSNodeView, components: Seq<Seq<char>>) -> Result<
    FSNodeView,
    Seq<char>,
>
    decreases components.len(),
{
    if components.len() == 0 {
        Ok(n)
    } else if !is_listable(n) {
        Err("Path component is not a directory: "@ + components[0])
    } else {
        match lookup_spec(n.entries.unwrap(), components[0]) {
            None => Err("Path component not found: "@ + components[0]),
            Some(h) => match store(h) {
                Err(e) => Err(node_error_text(e)),
                Ok(c) => walk(store, c, components.drop_first()),
            },
        }
    }
}

/// The listing of `entries` of the directory at `dir`, the first `listed`
/// entries being done: each further entry is listed with the type of its
/// node, fetched from `store`; the first fetch that fails ends the listing.
pub open spec fn list_from(
    store: StoreModel,
    dir: Seq<char>,
    entries: Seq<(Seq<char>, Seq<char>)>,
    listed: Seq<DirectoryEntryView>,
) -> Result<Seq<DirectoryEntryView>, Seq<char>>
    decreases entries.len() - listed.len(),
{
    if listed.len() >= entries.len() {
        Ok(listed)
    } else {
        let e = entries[listed.len() as int];
        match store(e.1) {
            Err(x) => Err(node_error_text(x)),
            Ok(c) => list_from(store, dir, entries, listed.push(listed_entry(dir, e, c))),
        }
    }
}

/// The listing of the directory `d` at `path`.
pub open spec fn list_node(store: StoreModel, d: FSNodeView, path: Seq<char>) -> Result<
    Seq<DirectoryEntryView>,
    Seq<char>,
> {
    if !is_listable(d) {
        Err("Path is not a directory: "@ + path)
    } else {
        list_from(store, path, d.entries.unwrap(), Seq::empty())
    }
}

/// The listing of the directory reached from `n` along `rest`.
pub open spec fn listing_below(
    store: StoreModel,
    n: FSNodeView,
    rest: Seq<Seq<char>>,
    path: Seq<char>,
) -> Result<Seq<DirectoryEntryView>, Seq<char>> {
    match walk(store, n, rest) {
        Err(m) => Err(m),
        Ok(d) => list_node(store, d, path),
    }
}

/// The listing of the directory at `path` in the filesystem whose root has
/// hash `fs_hash`, in `store`.
pub open spec fn listing_of(store: StoreModel, fs_hash: Seq<char>, path: Seq<char>) -> Result<
    Seq<DirectoryEntryView>,
    Seq<char>,
> {
    match store(fs_hash) {
        Err(e) => Err(root_error_text(e)),
        Ok(root) => if path == "/"@ {
            if !is_listable(root) {
                Err("Root is not a valid directory"@)
            } else {
                list_from(store, path, root.entries.unwrap(), Seq::empty())
            }
        } else {
            listing_below(store, root, nonempty_pieces(path, '/'), path)
        },
    }
}

/// The outcome of a listing that runs from `(s, q)` for at most `fuel`
/// steps, each request answered by `store`; nothing if it needs more.
pub open spec fn list_run(
    s: DirectoryListingView,
    q: ListRequestView,
    store: StoreModel,
    fuel: nat,
) -> Option<Result<Seq<DirectoryEntryView>, Seq<char>>>
    decreases fuel,
{
    match q {
        ListRequestView::Done(r) => Some(r),
        ListRequestView::Fetch(h) => if fuel == 0 {
            None
        } else {
            let next = list_resume_spec(s, store(h));
            list_run(next.0, next.1, store, (fuel - 1) as nat)
        },
    }
}

/// The outcome that a listing at `(s, q)` is bound to reach, given `store`.
pub open spec fn list_expect(s: DirectoryListingView, q: ListRequestView, store: StoreModel) -> Result<
    Seq<DirectoryEntryView>,
    Seq<char>,
> {
    match q {
        ListRequestView::Done(r) => r,
        ListRequestView::Fetch(h) => match s.phase {
            ListPhaseView::FetchRoot => listing_of(store, h, s.path),
            ListPhaseView::Descend(i) => match store(h) {
                Err(e) => Err(node_error_text(e)),
                Ok(n) => listing_below(store, n, s.components.skip(i as int), s.path),
            },
            ListPhaseView::Children(entries, listed) => list_from(store, s.path, entries, listed),
            ListPhaseView::Finished => Err(Seq::empty()),
        },
    }
}

/// The configurations a listing passes through between its requests.
pub open spec fn list_config(s: DirectoryListingView, q: ListRequestView) -> bool {
    &&& listing_wf(s)
    &&& (q is Done <==> s.phase is Finished)
    &&& (s.phase is FetchRoot ==> s.components == nonempty_pieces(s.path, '/'))
    &&& (q matches ListRequestView::Fetch(h) ==> (s.phase matches ListPhaseView::Children(e, l)
        ==> h == e[l.len() as int].1))
}

proof fn lemma_list_children(
    s: DirectoryListingView,
    entries: Seq<(Seq<char>, Seq<char>)>,
    listed: Seq<DirectoryEntryView>,
    store: StoreModel,
)
    requires
        listed.len() <= entries.len(),
    ensures
        list_config(list_children(s, entries, listed).0, list_children(s, entries, listed).1),
        list_expect(list_children(s, entries, listed).0, list_children(s, entries, listed).1, store)
            == list_from(store, s.path, entries, listed),
{
}

proof fn lemma_list_at_node(s: DirectoryListingView, n: FSNodeView, i: nat, store: StoreModel)
    requires
        i <= s.components.len(),
    ensures
        list_config(list_at_node(s, n, i).0, list_at_node(s, n, i).1),
        list_expect(list_at_node(s, n, i).0, list_at_node(s, n, i).1, store) == listing_below(
            store,
            n,
            s.components.skip(i as int),
            s.path,
        ),
{
    let rest = s.components.skip(i as int);
    if i < s.components.len() {
        assert(rest[0] == s.components[i as int]);
        assert(rest.drop_first() =~= s.components.skip(i + 1int));
    } else {
        assert(rest.len() == 0);
        if is_listable(n) {
            lemma_list_children(s, n.entries.unwrap(), Seq::empty(), store);
        }
    }
}

/// One step of a listing keeps the outcome it is bound to reach.
proof fn lemma_list_step(s: DirectoryListingView, h: Seq<char>, store: StoreModel)
    requires
        list_config(s, ListRequestView::Fetch(h)),
    ensures
        list_config(list_resume_spec(s, store(h)).0, list_resume_spec(s, store(h)).1),
        list_expect(list_resume_spec(s, store(h)).0, list_resume_spec(s, store(h)).1, store)
            == list_expect(s, ListRequestView::Fetch(h), store),
{
    match s.phase {
        ListPhaseView::FetchRoot => {
            match store(h) {
                Ok(root) => {
                    if s.path == "/"@ {
                        if is_listable(root) {
                            lemma_list_children(s, root.entries.unwrap(), Seq::empty(), store);
                        }
                    } else {
                        lemma_list_at_node(s, root, 0, store);
                        assert(s.components.skip(0) =~= s.components);
                    }
                },
                Err(_) => {},
            }
        },
        ListPhaseView::Descend(i) => {
            match store(h) {
                Ok(n) => {
                    lemma_list_at_node(s, n, i, store);
                },
                Err(_) => {},
            }
        },
        ListPhaseView::Children(entries, listed) => {
            match store(h) {
                Ok(c) => {
                    lemma_list_children(
                        s,
                        entries,
                        listed.push(listed_entry(s.path, entries[listed.len() as int], c)),
                        store,
                    );
                },
                Err(_) => {},
            }
        },
        ListPhaseView::Finished => {},
    }
}

proof fn lemma_list_run(s: DirectoryListingView, q: ListRequestView, store: StoreModel, fuel: nat)
    requires
        list_config(s, q),
    ensures
        list_run(s, q, store, fuel) matches Some(r) ==> r == list_expect(s, q, store),
    decreases fuel,
{
    match q {
        ListRequestView::Fetch(h) => {
            if fuel > 0 {
                lemma_list_step(s, h, store);
                let next = list_resume_spec(s, store(h));
                lemma_list_run(next.0, next.1, store, (fuel - 1) as nat);
            }
        },
        ListRequestView::Done(_) => {},
    }
}

/// A directory listing that is started for `path` in the filesystem whose
/// root has hash `fs_hash`, and whose every request is answered by
/// `store`, ends (in however many steps it takes) with the listing that
/// `listing_of` describes: the entries of the directory that the path
/// names, in order, each with its name, the type of its node and its path;
/// or the message for the first step that fails.
pub proof fn law_listing_follows_store(
    store: StoreModel,
    fs_hash: Seq<char>,
    path: Seq<char>,
    fuel: nat,
)
    ensures
        list_run(list_start_spec(fs_hash, path).0, list_start_spec(fs_hash, path).1, store, fuel) matches Some(r)
            ==> r == listing_of(store, fs_hash, path),
{
    lemma_list_run(list_start_spec(fs_hash, path).0, list_start_spec(fs_hash, path).1, store, fuel);
}

/// The content of the file at `path` in the filesystem whose root has hash
/// `fs_hash`, in `store`: the path's last component names the file in the
/// directory that the other components lead to.
pub open spec fn content_of(store: StoreModel, fs_hash: Seq<char>, path: Seq<char>) -> Result<
    Seq<u8>,
    Seq<char>,
> {
    if path == "/"@ {
        Err("Cannot read root directory as a file"@)
    } else {
        match store(fs_hash) {
            Err(e) => Err(root_error_text(e)),
            Ok(root) => {
                let c = nonempty_pieces(path, '/');
                if c.len() == 0 {
                    Err("Invalid file path"@)
                } else {
                    content_below(store, root, c.drop_last(), c.last(), path)
                }
            },
        }
    }
}

/// The content of the file `name` in the directory reached from `n` along
/// `rest`.
pub open spec fn content_below(
    store: StoreModel,
    n: FSNodeView,
    rest: Seq<Seq<char>>,
    name: Seq<char>,
    path: Seq<char>,
) -> Result<Seq<u8>, Seq<char>> {
    match walk(store, n, rest) {
        Err(m) => Err(m),
        Ok(d) => content_in(store, d, name, path),
    }
}

/// The content of the file `name` in the directory `d`.
pub open spec fn content_in(store: StoreModel, d: FSNodeView, name: Seq<char>, path: Seq<char>) -> Result<
    Seq<u8>,
    Seq<char>,
> {
    if !is_listable(d) {
        Err("Parent path is not a directory"@)
    } else {
        match lookup_spec(d.entries.unwrap(), name) {
            None => Err("File not found: "@ + name),
            Some(h) => file_content(store(h), path),
        }
    }
}

/// The content of a fetched file node.
pub open spec fn file_content(fetched: Result<FSNodeView, FetchErrorView>, path: Seq<char>) -> Result<
    Seq<u8>,
    Seq<char>,
> {
    match fetched {
        Err(e) => Err(node_error_text(e)),
        Ok(f) => if !is_readable(f) {
            Err("Path does not point to a file: "@ + path)
        } else {
            Ok(f.content.unwrap())
        },
    }
}

/// The outcome of a read that runs from `(s, q)` for at most `fuel` steps,
/// each request answered by `store`; nothing if it needs more.
pub open spec fn read_run(s: FileReadView, q: ReadRequestView, store: StoreModel, fuel: nat) -> Option<
    Result<Seq<u8>, Seq<char>>,
>
    decreases fuel,
{
    match q {
        ReadRequestView::Done(r) => Some(r),
        ReadRequestView::Fetch(h) => if fuel == 0 {
            None
        } else {
            let next = read_resume_spec(s, store(h));
            read_run(next.0, next.1, store, (fuel - 1) as nat)
        },
    }
}

/// The outcome that a read at `(s, q)` is bound to reach, given `store`.
pub open spec fn read_expect(s: FileReadView, q: ReadRequestView, store: StoreModel) -> Result<
    Seq<u8>,
    Seq<char>,
> {
    match q {
        ReadRequestView::Done(r) => r,
        ReadRequestView::Fetch(h) => match s.phase {
            ReadPhaseView::FetchRoot => content_of(store, h, s.path),
            ReadPhaseView::Descend(i) => match store(h) {
                Err(e) => Err(node_error_text(e)),
                Ok(n) => content_below(
                    store,
                    n,
                    s.dirs.skip(i as int),
                    s.file_name.unwrap(),
                    s.path,
                ),
            },
            ReadPhaseView::FetchFile => file_content(store(h), s.path),
            ReadPhaseView::Finished => Err(Seq::empty()),
        },
    }
}

/// The configurations a read passes through between its requests.
pub open spec fn read_config(s: FileReadView, q: ReadRequestView) -> bool {
    &&& read_wf(s)
    &&& (q is Done <==> s.phase is Finished)
    &&& (s.phase is FetchRoot ==> {
        let c = nonempty_pieces(s.path, '/');
        &&& s.path != "/"@
        &&& s.dirs == (if c.len() > 0 { c.drop_last() } else { c })
        &&& s.file_name == (if c.len() > 0 { Some(c.last()) } else { None::<Seq<char>> })
    })
}

proof fn lemma_read_at_node(s: FileReadView, n: FSNodeView, i: nat, store: StoreModel)
    requires
        i <= s.dirs.len(),
        s.file_name is Some,
    ensures
        read_config(read_at_node(s, n, i).0, read_at_node(s, n, i).1),
        read_expect(read_at_node(s, n, i).0, read_at_node(s, n, i).1, store) == content_below(
            store,
            n,
            s.dirs.skip(i as int),
            s.file_name.unwrap(),
            s.path,
        ),
{
    let rest = s.dirs.skip(i as int);
    if i < s.dirs.len() {
        assert(rest[0] == s.dirs[i as int]);
        assert(rest.drop_first() =~= s.dirs.skip(i + 1int));
    } else {
        assert(rest.len() == 0);
    }
}

proof fn lemma_read_step(s: FileReadView, h: Seq<char>, store: StoreModel)
    requires
        read_config(s, ReadRequestView::Fetch(h)),
    ensures
        read_config(read_resume_spec(s, store(h)).0, read_resume_spec(s, store(h)).1),
        read_expect(read_resume_spec(s, store(h)).0, read_resume_spec(s, store(h)).1, store)
            == read_expect(s, ReadRequestView::Fetch(h), store),
{
    match s.phase {
        ReadPhaseView::FetchRoot => {
            match store(h) {
                Ok(root) => {
                    if s.file_name is Some {
                        lemma_read_at_node(s, root, 0, store);
                        assert(s.dirs.skip(0) =~= s.dirs);
                    }
                },
                Err(_) => {},
            }
        },
        ReadPhaseView::Descend(i) => {
            match store(h) {
                Ok(n) => {
                    lemma_read_at_node(s, n, i, store);
                },
                Err(_) => {},
            }
        },
        _ => {},
    }
}

proof fn lemma_read_run(s: FileReadView, q: ReadRequestView, store: StoreModel, fuel: nat)
    requires
        read_config(s, q),
    ensures
        read_run(s, q, store, fuel) matches Some(r) ==> r == read_expect(s, q, store),
    decreases fuel,
{
    match q {
        ReadRequestView::Fetch(h) => {
            if fuel > 0 {
                lemma_read_step(s, h, store);
                let next = read_resume_spec(s, store(h));
                lemma_read_run(next.0, next.1, store, (fuel - 1) as nat);
            }
        },
        ReadRequestView::Done(_) => {},
    }
}

/// A file read that is started for `path` in the filesystem whose root has
/// hash `fs_hash`, and whose every request is answered by `store`, ends
/// (in however many steps it takes) with the content that `content_of`
/// describes: the content of the file node that the path names, or the
/// message for the first step that fails.
pub proof fn law_read_follows_store(store: StoreModel, fs_hash: Seq<char>, path: Seq<char>, fuel: nat)
    ensures
        read_run(read_start_spec(fs_hash, path).0, read_start_spec(fs_hash, path).1, store, fuel) matches Some(r)
            ==> r == content_of(store, fs_hash, path),
{
    lemma_read_run(read_start_spec(fs_hash, path).0, read_start_spec(fs_hash, path).1, store, fuel);
}

/// Appending characters other than the separator extends the last piece.
proof fn lemma_split_append_plain(x: Seq<char>, y: Seq<char>, sep: char)
    requires
        !y.contains(sep),
    ensures
        split_spec(x + y, sep) == split_spec(x, sep).update(
            split_spec(x, sep).len() - 1,
            split_spec(x, sep).last() + y,
        ),
    decreases y.len(),
{
    lemma_split_nonempty(x, sep);
    if y.len() == 0 {
        assert(x + y =~= x);
        assert(split_spec(x, sep).last() + y =~= split_spec(x, sep).last());
        assert(split_spec(x, sep).update(split_spec(x, sep).len() - 1, split_spec(x, sep).last())
            =~= split_spec(x, sep));
    } else {
        let y0 = y.drop_last();
        assert(!y0.contains(sep)) by {
            if y0.contains(sep) {
                let k = choose|k: int| 0 <= k < y0.len() && y0[k] == sep;
                assert(y[k] == sep);
            }
        }
        lemma_split_append_plain(x, y0, sep);
        assert((x + y).drop_last() =~= x + y0);
        assert((x + y).last() == y.last());
        assert(y.last() != sep) by {
            assert(y[y.len() - 1] == y.last());
        }
        lemma_split_nonempty(x + y0, sep);
        let p = split_spec(x, sep);
        let p2 = split_spec(x + y0, sep);
        assert(split_spec(x + y, sep) == p2.update(p2.len() - 1, p2.last().push(y.last())));
        assert(p2.last() == p.last() + y0);
        assert((p.last() + y0).push(y.last()) =~= p.last() + y);
        assert(split_spec(x + y, sep) =~= p.update(p.len() - 1, p.last() + y));
    }
}

/// The components of the path of an entry are the components of its
/// directory's path followed by the entry's name, for a name that is not
/// empty and holds no `/`: listing the path that the extraction gives a
/// subdirectory leads to that subdirectory.
pub proof fn law_entry_path_components(dir: Seq<char>, name: Seq<char>)
    requires
        name.len() > 0,
        !name.contains('/'),
    ensures
        nonempty_pieces(entry_path_spec(dir, name), '/') == nonempty_pieces(dir, '/').push(name),
{
    reveal_strlit("/");
    let slash: Seq<char> = seq!['/'];
    assert("/"@ == slash);
    let base = if dir == "/"@ {
        Seq::<char>::empty()
    } else {
        dir
    };
    assert(entry_path_spec(dir, name) =~= base + slash + name);
    lemma_split_nonempty(base, '/');
    let pb = split_spec(base, '/');
    assert((base + slash).drop_last() =~= base);
    assert(split_spec(base + slash, '/') == pb.push(Seq::<char>::empty()));
    lemma_split_append_plain(base + slash, name, '/');
    let full = split_spec(base + slash + name, '/');
    assert(full =~= pb.push(name)) by {
        assert(Seq::<char>::empty() + name =~= name);
    }
    reveal_with_fuel(Seq::filter, 2);
    assert(pb.push(name).drop_last() =~= pb);
    assert(full.filter(is_nonempty()) == pb.filter(is_nonempty()).push(name));
    if dir == "/"@ {
        assert(split_spec(Seq::<char>::empty(), '/') =~= seq![Seq::<char>::empty()]);
        assert(split_spec(slash, '/') == seq![Seq::<char>::empty()].push(Seq::<char>::empty())) by {
            assert(slash.drop_last() =~= Seq::<char>::empty());
        }
        assert(seq![Seq::<char>::empty()].filter(is_nonempty()) =~= Seq::<Seq<char>>::empty()) by {
            assert(seq![Seq::<char>::empty()].drop_last() =~= Seq::<Seq<char>>::empty());
        }
        assert(seq![Seq::<char>::empty()].push(Seq::<char>::empty()).drop_last() =~= seq![
            Seq::<char>::empty(),
        ]);
        assert(nonempty_pieces(dir, '/') =~= Seq::<Seq<char>>::empty());
        assert(pb =~= seq![Seq::<char>::empty()]);
        assert(pb.filter(is_nonempty()) =~= Seq::<Seq<char>>::empty());
    }
}

/// How far a listing is from its end, first by stage (the root, the
/// descent, the children), then within the stage.
pub open spec fn list_stage(s: DirectoryListingView) -> nat {
    match s.phase {
        ListPhaseView::FetchRoot => 3,
        ListPhaseView::Descend(_) => 2,
        ListPhaseView::Children(_, _) => 1,
        ListPhaseView::Finished => 0,
    }
}

/// The work left within the stage of a listing.
pub open spec fn list_left(s: DirectoryListingView) -> nat {
    match s.phase {
        ListPhaseView::Descend(i) => (s.components.len() - i) as nat,
        ListPhaseView::Children(e, l) => (e.len() - l.len()) as nat,
        _ => 0,
    }
}

/// Each step of a listing moves it closer to its end.
pub proof fn lemma_list_step_decreases(s: DirectoryListingView, h: Seq<char>, store: StoreModel)
    requires
        list_config(s, ListRequestView::Fetch(h)),
    ensures
        ({
            let n = list_resume_spec(s, store(h)).0;
            list_stage(n) < list_stage(s) || (list_stage(n) == list_stage(s) && list_left(n)
                < list_left(s))
        }),
{
}

/// The number of fetches a listing at `(s, q)` still makes, given `store`.
pub open spec fn list_fuel(s: DirectoryListingView, q: ListRequestView, store: StoreModel) -> nat
    decreases list_stage(s), list_left(s),
{
    match q {
        ListRequestView::Done(_) => 0,
        ListRequestView::Fetch(h) => if list_config(s, q) {
            proof {
                lemma_list_step_decreases(s, h, store);
            }
            let next = list_resume_spec(s, store(h));
            1 + list_fuel(next.0, next.1, store)
        } else {
            0
        },
    }
}

proof fn lemma_list_finishes(s: DirectoryListingView, q: ListRequestView, store: StoreModel)
    requires
        list_config(s, q),
    ensures
        list_run(s, q, store, list_fuel(s, q, store)) is Some,
    decreases list_stage(s), list_left(s),
{
    match q {
        ListRequestView::Fetch(h) => {
            lemma_list_step(s, h, store);
            lemma_list_step_decreases(s, h, store);
            let next = list_resume_spec(s, store(h));
            lemma_list_finishes(next.0, next.1, store);
        },
        ListRequestView::Done(_) => {},
    }
}

/// Every directory listing ends: answered by any store, it is done after
/// finitely many fetches (one for the root, one per path component, one per
/// entry listed), and then it has the outcome that `listing_of` describes.
pub proof fn law_listing_ends(store: StoreModel, fs_hash: Seq<char>, path: Seq<char>)
    ensures
        ({
            let start = list_start_spec(fs_hash, path);
            list_run(start.0, start.1, store, list_fuel(start.0, start.1, store)) == Some(
                listing_of(store, fs_hash, path),
            )
        }),
{
    let start = list_start_spec(fs_hash, path);
    lemma_list_finishes(start.0, start.1, store);
    lemma_list_run(start.0, start.1, store, list_fuel(start.0, start.1, store));
}

/// How far a read is from its end.
pub open spec fn read_stage(s: FileReadView) -> nat {
    match s.phase {
        ReadPhaseView::FetchRoot => 3,
        ReadPhaseView::Descend(_) => 2,
        ReadPhaseView::FetchFile => 1,
        ReadPhaseView::Finished => 0,
    }
}

/// The work left within the stage of a read.
pub open spec fn read_left(s: FileReadView) -> nat {
    match s.phase {
        ReadPhaseView::Descend(i) => (s.dirs.len() - i) as nat,
        _ => 0,
    }
}

/// Each step of a read moves it closer to its end.
pub proof fn lemma_read_step_decreases(s: FileReadView, h: Seq<char>, store: StoreModel)
    requires
        read_config(s, ReadRequestView::Fetch(h)),
    ensures
        ({
            let n = read_resume_spec(s, store(h)).0;
            read_stage(n) < read_stage(s) || (read_stage(n) == read_stage(s) && read_left(n)
                < read_left(s))
        }),
{
}

/// The number of fetches a read at `(s, q)` still makes, given `store`.
pub open spec fn read_fuel(s: FileReadView, q: ReadRequestView, store: StoreModel) -> nat
    decreases read_stage(s), read_left(s),
{
    match q {
        ReadRequestView::Done(_) => 0,
        ReadRequestView::Fetch(h) => if read_config(s, q) {
            proof {
                lemma_read_step_decreases(s, h, store);
            }
            let next = read_resume_spec(s, store(h));
            1 + read_fuel(next.0, next.1, store)
        } else {
            0
        },
    }
}

proof fn lemma_read_finishes(s: FileReadView, q: ReadRequestView, store: StoreModel)
    requires
        read_config(s, q),
    ensures
        read_run(s, q, store, read_fuel(s, q, store)) is Some,
    decreases read_stage(s), read_left(s),
{
    match q {
        ReadRequestView::Fetch(h) => {
            lemma_read_step(s, h, store);
            lemma_read_step_decreases(s, h, store);
            let next = read_resume_spec(s, store(h));
            lemma_read_finishes(next.0, next.1, store);
        },
        ReadRequestView::Done(_) => {},
    }
}

/// Every file read ends: answered by any store, it is done after finitely
/// many fetches (the root, one per directory component, the file), and then
/// it has the outcome that `content_of` describes.
pub proof fn law_read_ends(store: StoreModel, fs_hash: Seq<char>, path: Seq<char>)
    ensures
        ({
            let start = read_start_spec(fs_hash, path);
            read_run(start.0, start.1, store, read_fuel(start.0, start.1, store)) == Some(
                content_of(store, fs_hash, path),
            )
        }),
{
    let start = read_start_spec(fs_hash, path);
    lemma_read_finishes(start.0, start.1, store);
    lemma_read_run(start.0, start.1, store, read_fuel(start.0, start.1, store));
}

/// Every node the store hands out is well formed.
pub open spec fn store_wf(store: StoreModel) -> bool {
    forall|h: Seq<char>| (#[trigger] store(h)) matches Ok(n) ==> node_wf(n)
}

/// The directory that `path` names in the filesystem whose root has hash
/// `fs_hash`, in `store`.
pub open spec fn dir_node(store: StoreModel, fs_hash: Seq<char>, path: Seq<char>) -> Result<
    FSNodeView,
    Seq<char>,
> {
    match store(fs_hash) {
        Err(e) => Err(root_error_text(e)),
        Ok(root) => if path == "/"@ {
            Ok(root)
        } else {
            walk(store, root, nonempty_pieces(path, '/'))
        },
    }
}

/// A listing that succeeds lists every entry, in order, each with the type
/// of the node its hash names.
proof fn lemma_list_from_entries(
    store: StoreModel,
    dir: Seq<char>,
    entries: Seq<(Seq<char>, Seq<char>)>,
    listed: Seq<DirectoryEntryView>,
)
    requires
        listed.len() <= entries.len(),
        forall|k: int| 0 <= k < listed.len() ==> ((#[trigger] store(entries[k].1)) matches Ok(c)
            && listed[k] == listed_entry(dir, entries[k], c)),
    ensures
        list_from(store, dir, entries, listed) matches Ok(l) ==> {
            &&& l.len() == entries.len()
            &&& forall|k: int| 0 <= k < l.len() ==> ((#[trigger] store(entries[k].1)) matches Ok(c)
                && l[k] == listed_entry(dir, entries[k], c))
        },
    decreases entries.len() - listed.len(),
{
    if listed.len() < entries.len() {
        let e = entries[listed.len() as int];
        if let Ok(c) = store(e.1) {
            let next = listed.push(listed_entry(dir, e, c));
            assert forall|k: int| 0 <= k < next.len() implies ((#[trigger] store(entries[k].1)) matches Ok(c2)
                && next[k] == listed_entry(dir, entries[k], c2)) by {
                if k < listed.len() {
                    assert(next[k] == listed[k]);
                }
            }
            lemma_list_from_entries(store, dir, entries, next);
        }
    }
}

/// Following path components from a well-formed node in a well-formed
/// store reaches a well-formed node.
proof fn lemma_walk_wf(store: StoreModel, n: FSNodeView, components: Seq<Seq<char>>)
    requires
        store_wf(store),
        node_wf(n),
    ensures
        walk(store, n, components) matches Ok(d) ==> node_wf(d),
    decreases components.len(),
{
    if components.len() > 0 && is_listable(n) {
        if let Some(h) = lookup_spec(n.entries.unwrap(), components[0]) {
            if let Ok(c) = store(h) {
                lemma_walk_wf(store, c, components.drop_first());
            }
        }
    }
}

/// A successful listing is the listing of the directory the path names:
/// one entry for each of its children, in order.
proof fn lemma_listing_of_dir(store: StoreModel, fs_hash: Seq<char>, path: Seq<char>)
    requires
        store_wf(store),
    ensures
        listing_of(store, fs_hash, path) matches Ok(l) ==> dir_node(store, fs_hash, path) matches Ok(
            d,
        ) && {
            &&& is_listable(d)
            &&& node_wf(d)
            &&& l.len() == d.entries.unwrap().len()
            &&& forall|k: int| 0 <= k < l.len() ==> ((#[trigger] store(d.entries.unwrap()[k].1)) matches Ok(c)
                && l[k] == listed_entry(path, d.entries.unwrap()[k], c))
        },
{
    if let Ok(root) = store(fs_hash) {
        assert(node_wf(root));
        let d = if path == "/"@ { Ok(root) } else { walk(store, root, nonempty_pieces(path, '/')) };
        lemma_walk_wf(store, root, nonempty_pieces(path, '/'));
        if let Ok(dn) = d {
            if is_listable(dn) {
                lemma_list_from_entries(store, path, dn.entries.unwrap(), Seq::empty());
            }
        }
    }
}

/// In a store whose directories name each child once, a listing names each
/// entry once.
pub proof fn law_listing_names_each_child_once(store: StoreModel, fs_hash: Seq<char>, path: Seq<char>)
    requires
        store_wf(store),
    ensures
        listing_of(store, fs_hash, path) matches Ok(l) ==> forall|i: int, j: int|
            0 <= i < j < l.len() ==> (#[trigger] l[i]).name != (#[trigger] l[j]).name,
{
    lemma_listing_of_dir(store, fs_hash, path);
    if let Ok(l) = listing_of(store, fs_hash, path) {
        let d = dir_node(store, fs_hash, path)->Ok_0;
        let e = d.entries.unwrap();
        assert forall|i: int, j: int| 0 <= i < j < l.len() implies (#[trigger] l[i]).name != (#[trigger] l[j]).name by {
            assert(store(e[i].1) is Ok);
            assert(store(e[j].1) is Ok);
            assert(l[i].name == e[i].0);
            assert(l[j].name == e[j].0);
        }
    }
}

/// The path `"/"` has no components.
proof fn lemma_root_components()
    ensures
        nonempty_pieces("/"@, '/') == Seq::<Seq<char>>::empty(),
{
    reveal_strlit("/");
    let s = "/"@;
    assert(s.drop_last() =~= Seq::<char>::empty());
    assert(split_spec(s.drop_last(), '/') == seq![Seq::<char>::empty()]);
    let p = split_spec(s, '/');
    assert(p == seq![Seq::<char>::empty(), Seq::<char>::empty()]);
    assert(p.filter(is_nonempty()) =~= Seq::<Seq<char>>::empty()) by {
        reveal_with_fuel(Seq::filter, 3);
        assert(p.drop_last() =~= seq![Seq::<char>::empty()]);
        assert(p.drop_last().drop_last() =~= Seq::<Seq<char>>::empty());
    }
}

/// In a store whose directories name each child once, each file a listing
/// names reads back at the path the listing gives it (for a name that is
/// not empty and holds no `/`): the read has the content of the node the
/// entry stands for, or fails because that file node has no content.
pub proof fn law_listed_file_reads_back(
    store: StoreModel,
    fs_hash: Seq<char>,
    path: Seq<char>,
    k: int,
)
    requires
        store_wf(store),
        listing_of(store, fs_hash, path) matches Ok(l) && 0 <= k < l.len() && l[k].entry_type
            == "file"@ && l[k].name.len() > 0 && !l[k].name.contains('/'),
    ensures
        ({
            let l = listing_of(store, fs_hash, path)->Ok_0;
            &&& dir_node(store, fs_hash, path) matches Ok(d) && store(d.entries.unwrap()[k].1) matches Ok(c)
                && d.entries.unwrap()[k].0 == l[k].name
                && type_word_spec(c.node_type) == l[k].entry_type
                && content_of(store, fs_hash, l[k].path) == if is_readable(c) {
                Ok(c.content.unwrap())
            } else {
                Err("Path does not point to a file: "@ + l[k].path)
            }
        }),
{
    let l = listing_of(store, fs_hash, path)->Ok_0;
    lemma_listing_of_dir(store, fs_hash, path);
    let d = dir_node(store, fs_hash, path)->Ok_0;
    let e = d.entries.unwrap();
    assert(store(e[k].1) is Ok);
    let c = store(e[k].1)->Ok_0;
    let name = l[k].name;
    let p = l[k].path;
    assert(name == e[k].0);
    assert(p == entry_path_spec(path, name));
    lemma_lookup_finds_entry(e, k);
    law_entry_path_components(path, name);
    reveal_strlit("/");
    assert(p != "/"@) by {
        if path == "/"@ {
            assert(p.len() == 1 + name.len());
        } else {
            assert(p.len() == path.len() + 1 + name.len());
        }
    }
    let root = store(fs_hash)->Ok_0;
    let cs = nonempty_pieces(p, '/');
    assert(cs.drop_last() =~= nonempty_pieces(path, '/'));
    assert(cs.last() == name);
    if path == "/"@ {
        lemma_root_components();
        assert(walk(store, root, nonempty_pieces(path, '/')) == Ok::<FSNodeView, Seq<char>>(root));
    }
    assert(walk(store, root, cs.drop_last()) == Ok::<FSNodeView, Seq<char>>(d));
}

} // verus!
