use vstd::prelude::*;
use crate::app::{names_of, App, AppView, NavError};
use crate::listing::{EntryView, Scan};
use crate::pane::{clamped_selection, next_selection, previous_selection, Folder, FolderView};

verus! {

/// The names of a listing, or none where it failed.
pub open spec fn names_or_empty(m: Result<Seq<Seq<char>>, NavError>) -> Seq<Seq<char>> {
    match m {
        Ok(n) => n,
        Err(_) => Seq::empty(),
    }
}

/// The names shown in the parent pane of state `v`, whose parent directory
/// was read as `scan`: none at a root.
pub open spec fn parent_names(v: AppView, scan: Option<Seq<EntryView>>) -> Seq<Seq<char>> {
    if v.cwd.parent() is None {
        Seq::empty()
    } else {
        names_or_empty(v.names(scan))
    }
}

pub open spec fn as_selection(i: Option<int>) -> Option<usize> {
    match i {
        Some(k) => Some(k as usize),
        None => None,
    }
}

/// The parent pane of state `v`: the names of its parent directory, read as
/// `scan`, with the current directory selected where it is found there.
pub open spec fn parent_pane(v: AppView, scan: Option<Seq<EntryView>>) -> FolderView {
    FolderView {
        items: parent_names(v, scan),
        selected: clamped_selection(
            parent_names(v, scan).len() as int,
            as_selection(v.parent_index(scan)),
        ),
    }
}

/// The state after a descent into the shown child number `idx`, where `names`
/// were listed before the move, `v` is the navigation state after it, and the
/// child was read as `scan`.
pub open spec fn descended(
    names: Seq<Seq<char>>,
    idx: usize,
    v: AppView,
    scan: Option<Seq<EntryView>>,
) -> (AppView, FolderView, FolderView) {
    let (found, after) = v.pop_history(scan);
    let items = names_or_empty(v.names(scan));
    (
        after,
        FolderView {
            items,
            selected: clamped_selection(
                items.len() as int,
                Some(
                    match found {
                        Some(i) => i as usize,
                        None => 0,
                    },
                ),
            ),
        },
        FolderView { items: names, selected: clamped_selection(names.len() as int, Some(idx)) },
    )
}

/// The navigation state together with the panes of the parent and of the
/// current directory, kept in step as the browser moves.
pub struct Browser {
    pub app: App,
    pub current: Folder,
    pub parent: Folder,
}

impl View for Browser {
    type V = (AppView, FolderView, FolderView);

    /// The navigation state, the current pane and the parent pane.
    open spec fn view(&self) -> (AppView, FolderView, FolderView) {
        (self.app@, self.current@, self.parent@)
    }
}

impl Browser {
    /// A browser for `app`, whose current directory was read as `cwd_scan` and
    /// parent directory as `parent_scan`; the first name is selected.
    pub fn new(app: App, cwd_scan: &Scan, parent_scan: &Scan) -> (r: Browser)
        ensures
            r.app@ == app@,
            r.current@ == (FolderView {
                items: names_or_empty(app@.names(cwd_scan@)),
                selected: clamped_selection(
                    names_or_empty(app@.names(cwd_scan@)).len() as int,
                    Some(0),
                ),
            }),
            r.parent@ == parent_pane(app@, parent_scan@),
    {
        let current = Folder::new(names_or_none(app.list_cwd_child_names(cwd_scan)));
        let parent = Folder::new(Vec::new());
        let mut r = Browser { app, current, parent };
        r.current.select(Some(0));
        r.refresh_parent(parent_scan);
        r
    }

    /// Fills the parent pane from `parent_scan`, the listing of the directory above.
    fn refresh_parent(&mut self, parent_scan: &Scan)
        ensures
            final(self).app@ == old(self).app@,
            final(self).current@ == old(self).current@,
            final(self).parent@ == parent_pane(old(self).app@, parent_scan@),
    {
        let items = names_or_none(self.app.parent_children_names(parent_scan));
        self.parent.set_items(items);
        let idx = self.app.cwd_parent_idx(parent_scan);
        match idx {
            Ok(i) => self.parent.select(Some(i)),
            Err(_) => self.parent.select(None),
        }
    }

    /// Moves the cursor of the current pane down, cyclically.
    pub fn move_next(&mut self)
        ensures
            final(self).app@ == old(self).app@,
            final(self).parent@ == old(self).parent@,
            final(self).current@ == (FolderView {
                selected: next_selection(
                    old(self).current@.items.len() as int,
                    old(self).current@.selected,
                ),
                ..old(self).current@
            }),
    {
        self.current.next();
    }

    /// Moves the cursor of the current pane up, cyclically.
    pub fn move_previous(&mut self)
        ensures
            final(self).app@ == old(self).app@,
            final(self).parent@ == old(self).parent@,
            final(self).current@ == (FolderView {
                selected: previous_selection(
                    old(self).current@.items.len() as int,
                    old(self).current@.selected,
                ),
                ..old(self).current@
            }),
    {
        self.current.previous();
    }

    /// Ascends, where the current directory was read as `cwd_scan` and the
    /// directory two levels up as `grandparent_scan`. The current pane takes
    /// over the parent pane, and the parent pane shows the new parent with the
    /// new current directory selected. Returns whether the browser moved.
    pub fn ascend(&mut self, cwd_scan: &Scan, grandparent_scan: &Scan) -> (r: bool)
        ensures
            match old(self).app@.ascend(old(self).current@.selected, cwd_scan@) {
                Err(_) => !r && final(self).view() == old(self).view(),
                Ok(v) => r && final(self).view() == (
                    v,
                    FolderView {
                        selected: clamped_selection(
                            old(self).parent@.items.len() as int,
                            old(self).parent@.selected,
                        ),
                        ..old(self).parent@
                    },
                    parent_pane(v, grandparent_scan@),
                ),
            },
    {
        let selected = self.current.selected();
        if self.app.up(selected, cwd_scan).is_err() {
            return false;
        }
        let names = crate::location::copy_strings(self.parent.items());
        let parent_selected = self.parent.selected();
        self.current.set_items(names);
        self.current.select(parent_selected);
        self.refresh_parent(grandparent_scan);
        true
    }

    /// Descends into the selected child of the current directory, read as
    /// `cwd_scan`, where that child was read as `child_scan`. The parent pane
    /// takes over the names listed before the move, with the child selected;
    /// the current pane shows the child, with the cursor on the entry that the
    /// history leads back to, else on the first. Returns whether the browser moved.
    pub fn descend(&mut self, cwd_scan: &Scan, child_scan: &Scan) -> (r: bool)
        ensures
            match old(self).current@.selected {
                None => !r && final(self).view() == old(self).view(),
                Some(idx) => match old(self).app@.descend(cwd_scan@, idx as int) {
                    Err(_) => !r && final(self).view() == old(self).view(),
                    Ok((names, v)) => r && final(self).view() == descended(
                        names,
                        idx,
                        v,
                        child_scan@,
                    ),
                },
            },
    {
        let idx = match self.current.selected() {
            None => {
                return false;
            },
            Some(i) => i,
        };
        let items = match self.app.down(idx, cwd_scan) {
            Err(_) => {
                return false;
            },
            Ok(items) => items,
        };
        self.parent.set_items(items);
        self.parent.select(Some(idx));
        let names = names_or_none(self.app.list_cwd_child_names(child_scan));
        self.current.set_items(names);
        match self.app.pop_last_visited_idx(child_scan) {
            Some(i) => self.current.select(Some(i)),
            None => self.current.select(Some(0)),
        }
        true
    }
}

/// The names of a listing, or none where it failed.
fn names_or_none(r: Result<Vec<String>, NavError>) -> (v: Vec<String>)
    ensures
        names_of(v@) == match r {
            Ok(n) => names_of(n@),
            Err(_) => Seq::empty(),
        },
{
    match r {
        Ok(n) => n,
        Err(_) => {
            let v: Vec<String> = Vec::new();
            assert(names_of(v@) =~= Seq::empty());
            v
        },
    }
}

} // verus!
