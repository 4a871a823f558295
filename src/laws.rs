use vstd::prelude::*;
use crate::app::{find_child, AppView, NavError};
use crate::listing::{lemma_dirs_only_visible, visible, EntryKind, EntryView};
use crate::location::lemma_child_parent;

verus! {

/// At a root, ascending fails with `NoParent`, whatever is selected
/// (and `App::up` then leaves the state as it was).
pub proof fn law_ascend_at_root(v: AppView, selected: Option<usize>, scan: Option<Seq<EntryView>>)
    requires
        v.cwd.parent() is None,
    ensures
        v.ascend(selected, scan) == Err::<AppView, NavError>(NavError::NoParent),
{
}

/// An index at or past the end of the shown listing resolves to no child:
/// the child lookup answers `NotFound`, and a descent fails.
pub proof fn law_index_out_of_range(v: AppView, s: Seq<EntryView>, idx: int)
    requires
        idx >= visible(v.dirs_only, s).len(),
    ensures
        v.nth_child(Some(s), idx) == Err::<EntryView, NavError>(NavError::NotFound),
        v.descend(Some(s), idx) is Err,
{
}

/// Descending into a child and then ascending, whatever is selected by
/// then, leads back to the directory the descent started from.
pub proof fn law_descend_then_ascend(
    v: AppView,
    scan: Option<Seq<EntryView>>,
    idx: int,
    selected: Option<usize>,
    child_scan: Option<Seq<EntryView>>,
)
    requires
        v.descend(scan, idx) is Ok,
    ensures
        v.descend(scan, idx)->Ok_0.1.ascend(selected, child_scan) matches Ok(w) && w.cwd == v.cwd,
{
    let e = v.nth_child(scan, idx)->Ok_0;
    lemma_child_parent(v.cwd, e.name);
}

/// Where no entry of the current directory matches the top of the history,
/// the lookup returns nothing and discards the whole history, so that the
/// next lookup returns nothing too, whatever the directory then holds.
pub proof fn law_history_miss_discards(
    v: AppView,
    s: Seq<EntryView>,
    next_scan: Option<Seq<EntryView>>,
)
    requires
        v.history.len() > 0,
        find_child(s, v.cwd, v.history.last()) is None,
    ensures
        v.pop_history(Some(s)).0 is None,
        v.pop_history(Some(s)).1 == (AppView { history: Seq::empty(), ..v }),
        v.pop_history(Some(s)).1.pop_history(next_scan).0 is None,
{
}

/// Listing the same directory twice, with nothing changed on disk in
/// between, gives the same names in the same order.
pub proof fn law_listing_repeats(v: AppView, first: Option<Seq<EntryView>>, second: Option<Seq<EntryView>>)
    requires
        first == second,
    ensures
        v.names(first) == v.names(second),
        v.listing(first) == v.listing(second),
{
}

/// In directory-only mode every listed entry is a directory.
pub proof fn law_dirs_only_listing(v: AppView, scan: Option<Seq<EntryView>>)
    requires
        v.dirs_only,
    ensures
        v.listing(scan) matches Ok(l) ==> forall|i: int|
            0 <= i < l.len() ==> #[trigger] l[i].kind == EntryKind::Directory,
{
    if let Some(s) = scan {
        lemma_dirs_only_visible(s);
    }
}

} // verus!
