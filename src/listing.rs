use vstd::prelude::*;

verus! {

/// What a directory entry turned out to be when its metadata was read.
#[derive(PartialEq, Eq, Structural, Clone, Copy, Debug)]
pub enum EntryKind {
    File,
    Directory,
    /// The metadata could not be read (no permission, or the entry vanished).
    Unresolvable,
}

/// One child of a directory, as enumerated: its base name and its kind.
/// An entry that could not be read at all has an empty name.
pub struct Entry {
    pub name: String,
    pub kind: EntryKind,
}

pub struct EntryView {
    pub name: Seq<char>,
    pub kind: EntryKind,
}

impl View for Entry {
    type V = EntryView;

    open spec fn view(&self) -> EntryView {
        EntryView { name: self.name@, kind: self.kind }
    }
}

impl Entry {
    pub fn new(name: String, kind: EntryKind) -> (r: Entry)
        ensures
            r.name@ == name@,
            r.kind == kind,
    {
        Entry { name, kind }
    }
}

/// The result of reading a directory: either the path turned out not to be a
/// directory, or its entries in enumeration order (possibly none, when the
/// directory could not be read).
pub enum Scan {
    NotADirectory,
    Entries(Vec<Entry>),
}

pub open spec fn entry_views(s: Seq<Entry>) -> Seq<EntryView> {
    s.map_values(|e: Entry| e@)
}

/// Whether an entry is shown: in directory-only mode only directories are.
pub open spec fn shown(dirs_only: bool, e: EntryView) -> bool {
    !dirs_only || e.kind == EntryKind::Directory
}

/// The entries that are shown, in enumeration order.
pub open spec fn visible(dirs_only: bool, s: Seq<EntryView>) -> Seq<EntryView>
    decreases s.len(),
{
    if s.len() == 0 {
        Seq::empty()
    } else if shown(dirs_only, s.last()) {
        visible(dirs_only, s.drop_last()).push(s.last())
    } else {
        visible(dirs_only, s.drop_last())
    }
}

/// The name under which an entry is listed: its base name, with the separator
/// after it for a directory, or `???` where the name could not be read.
pub open spec fn display_name(e: EntryView, sep: Seq<char>) -> Seq<char> {
    if e.name.len() == 0 {
        seq!['?', '?', '?']
    } else if e.kind == EntryKind::Directory {
        e.name + sep
    } else {
        e.name
    }
}

/// The listed names of the shown entries.
pub open spec fn visible_names(dirs_only: bool, s: Seq<EntryView>, sep: Seq<char>) -> Seq<
    Seq<char>,
> {
    visible(dirs_only, s).map_values(|e: EntryView| display_name(e, sep))
}

/// In directory-only mode every shown entry is a directory.
pub proof fn lemma_dirs_only_visible(s: Seq<EntryView>)
    ensures
        forall|i: int|
            0 <= i < visible(true, s).len() ==> #[trigger] visible(true, s)[i].kind
                == EntryKind::Directory,
    decreases s.len(),
{
    if s.len() > 0 {
        lemma_dirs_only_visible(s.drop_last());
    }
}

/// The shown entries of a prefix are a prefix of the shown entries.
proof fn lemma_visible_prefix(d: bool, s: Seq<EntryView>, i: int)
    requires
        0 <= i <= s.len(),
    ensures
        visible(d, s.take(i)).len() <= visible(d, s).len(),
        forall|j: int|
            0 <= j < visible(d, s.take(i)).len() ==> visible(d, s.take(i))[j] == visible(d, s)[j],
    decreases s.len() - i,
{
    if i == s.len() {
        assert(s.take(i) =~= s);
    } else {
        lemma_visible_prefix(d, s, i + 1);
        assert(s.take(i + 1).drop_last() =~= s.take(i));
    }
}

proof fn lemma_visible_step(d: bool, s: Seq<EntryView>, i: int)
    requires
        0 <= i < s.len(),
    ensures
        visible(d, s.take(i + 1)) == if shown(d, s[i]) {
            visible(d, s.take(i)).push(s[i])
        } else {
            visible(d, s.take(i))
        },
{
    assert(s.take(i + 1).drop_last() =~= s.take(i));
}

/// The position in `entries` of the shown entry number `idx`, if there is one.
pub fn nth_visible(dirs_only: bool, entries: &Vec<Entry>, idx: usize) -> (r: Option<usize>)
    ensures
        r is Some <==> idx < visible(dirs_only, entry_views(entries@)).len(),
        r matches Some(k) ==> k < entries.len() && entry_views(entries@)[k as int] == visible(
            dirs_only,
            entry_views(entries@),
        )[idx as int],
{
    let ghost s = entry_views(entries@);
    let mut count: usize = 0;
    let mut i: usize = 0;
    while i < entries.len()
        invariant
            s == entry_views(entries@),
            i <= entries.len(),
            count == visible(dirs_only, s.take(i as int)).len(),
            count <= idx,
        decreases entries.len() - i,
    {
        proof {
            lemma_visible_step(dirs_only, s, i as int);
        }
        if !dirs_only || entries[i].kind == EntryKind::Directory {
            if count == idx {
                proof {
                    lemma_visible_prefix(dirs_only, s, i + 1);
                }
                return Some(i);
            }
            count += 1;
        }
        i += 1;
    }
    assert(s.take(i as int) =~= s);
    None
}

/// The name under which `e` is listed.
pub fn entry_display_name(e: &Entry, sep: &String) -> (r: String)
    ensures
        r@ == display_name(e@, sep@),
{
    if e.name.as_str().is_empty() {
        proof {
            reveal_strlit("???");
        }
        String::from_str("???")
    } else if e.kind == EntryKind::Directory {
        let mut r = e.name.clone();
        r.append(sep.as_str());
        r
    } else {
        e.name.clone()
    }
}

/// The listed names of the shown entries, in enumeration order.
pub fn shown_names(dirs_only: bool, entries: &Vec<Entry>, sep: &String) -> (r: Vec<String>)
    ensures
        r@.map_values(|n: String| n@) == visible_names(dirs_only, entry_views(entries@), sep@),
{
    let ghost s = entry_views(entries@);
    let mut r: Vec<String> = Vec::new();
    let mut i: usize = 0;
    while i < entries.len()
        invariant
            s == entry_views(entries@),
            i <= entries.len(),
            r@.map_values(|n: String| n@) == visible_names(dirs_only, s.take(i as int), sep@),
        decreases entries.len() - i,
    {
        proof {
            lemma_visible_step(dirs_only, s, i as int);
            assert(s[i as int] == entries@[i as int]@);
        }
        let ghost before = r@;
        if !dirs_only || entries[i].kind == EntryKind::Directory {
            let n = entry_display_name(&entries[i], sep);
            r.push(n);
            assert(r@.map_values(|n: String| n@) =~= before.map_values(|n: String| n@).push(n@));
        }
        i += 1;
        assert(r@.map_values(|n: String| n@) =~= visible_names(dirs_only, s.take(i as int), sep@));
    }
    assert(s.take(i as int) =~= s);
    r
}

/// The first position of `x` in `v`.
pub fn position_of(v: &Vec<String>, x: &String) -> (r: Option<usize>)
    ensures
        r matches Some(i) ==> i < v.len() && v@[i as int]@ == x@ && forall|j: int|
            0 <= j < i ==> v@[j]@ != x@,
        r is None ==> forall|j: int| 0 <= j < v.len() ==> v@[j]@ != x@,
{
    let mut i: usize = 0;
    while i < v.len()
        invariant
            i <= v.len(),
            forall|j: int| 0 <= j < i ==> v@[j]@ != x@,
        decreases v.len() - i,
    {
        if v[i] == *x {
            return Some(i);
        }
        i += 1;
    }
    None
}

} // verus!
