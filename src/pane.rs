use vstd::prelude::*;
use crate::app::{names_match, names_of, App, NavError};
use crate::listing::Scan;
use crate::sniff::{line_views, lines_match, preview, FileSample};

verus! {

/// One pane: a list of names and a cursor over it. The cursor may stand one
/// past the last name, which shows as nothing selected.
pub struct Folder {
    items: Vec<String>,
    selected: Option<usize>,
}

pub struct FolderView {
    pub items: Seq<Seq<char>>,
    pub selected: Option<usize>,
}

impl View for Folder {
    type V = FolderView;

    closed spec fn view(&self) -> FolderView {
        FolderView { items: names_of(self.items@), selected: self.selected }
    }
}

/// The cursor after moving down a list of `len` names: wraps from the last
/// name to the first, and starts at the first.
pub open spec fn next_selection(len: int, sel: Option<usize>) -> Option<usize> {
    if len == 0 {
        sel
    } else {
        match sel {
            None => Some(0),
            Some(i) => if i >= len - 1 {
                Some(0)
            } else {
                Some((i + 1) as usize)
            },
        }
    }
}

/// The cursor after moving up a list of `len` names: wraps from the first
/// name to the last, and starts at the first.
pub open spec fn previous_selection(len: int, sel: Option<usize>) -> Option<usize> {
    if len == 0 {
        sel
    } else {
        match sel {
            None => Some(0),
            Some(i) => if i == 0 {
                Some((len - 1) as usize)
            } else {
                Some((i - 1) as usize)
            },
        }
    }
}

/// The cursor asked for, held to at most one past the last of `len` names.
pub open spec fn clamped_selection(len: int, idx: Option<usize>) -> Option<usize> {
    match idx {
        None => None,
        Some(i) => if i >= len {
            Some(len as usize)
        } else {
            Some(i)
        },
    }
}

impl Folder {
    /// A pane over `items` with nothing selected.
    pub fn new(items: Vec<String>) -> (r: Folder)
        ensures
            r@ == (FolderView { items: names_of(items@), selected: None }),
    {
        Folder { items, selected: None }
    }

    /// Replaces the names; nothing is selected afterwards.
    pub fn set_items(&mut self, items: Vec<String>)
        ensures
            final(self)@ == (FolderView { items: names_of(items@), selected: None }),
    {
        self.items = items;
        self.selected = None;
    }

    pub fn items(&self) -> (r: &Vec<String>)
        ensures
            names_of(r@) == self@.items,
    {
        &self.items
    }

    pub fn selected(&self) -> (r: Option<usize>)
        ensures
            r == self@.selected,
    {
        self.selected
    }

    /// Moves the cursor down, cyclically; nothing happens on an empty list.
    pub fn next(&mut self)
        ensures
            final(self)@ == (FolderView {
                selected: next_selection(old(self)@.items.len() as int, old(self)@.selected),
                ..old(self)@
            }),
    {
        if self.items.len() == 0 {
            return ;
        }
        let i = match self.selected {
            Some(i) => {
                if i >= self.items.len() - 1 {
                    0
                } else {
                    i + 1
                }
            },
            None => 0,
        };
        self.selected = Some(i);
    }

    /// Moves the cursor up, cyclically; from no selection it lands on the
    /// first name, not the last. Nothing happens on an empty list.
    pub fn previous(&mut self)
        ensures
            final(self)@ == (FolderView {
                selected: previous_selection(old(self)@.items.len() as int, old(self)@.selected),
                ..old(self)@
            }),
    {
        if self.items.len() == 0 {
            return ;
        }
        let i = match self.selected {
            Some(i) => {
                if i == 0 {
                    self.items.len() - 1
                } else {
                    i - 1
                }
            },
            None => 0,
        };
        self.selected = Some(i);
    }

    pub fn unselect(&mut self)
        ensures
            final(self)@ == (FolderView { selected: None, ..old(self)@ }),
    {
        self.selected = None;
    }

    /// Selects `idx`, held to at most one past the last name; `None` unselects.
    pub fn select(&mut self, idx: Option<usize>)
        ensures
            final(self)@ == (FolderView {
                selected: clamped_selection(old(self)@.items.len() as int, idx),
                ..old(self)@
            }),
    {
        if let Some(idx) = idx {
            let i = if idx >= self.items.len() {
                self.items.len()
            } else {
                idx
            };
            self.selected = Some(i);
        } else {
            self.unselect();
        }
    }
}

/// What the three panes show, kept between redraws so that the preview is
/// computed again only when the selection moved.
pub struct UiData {
    pub parent_title: String,
    pub current_title: String,
    pub parent_list: Vec<String>,
    pub current_list: Vec<String>,
    pub current_last_selected: usize,
    pub child_list: Result<Vec<String>, NavError>,
    pub child_content: Option<Vec<String>>,
    pub child_is_folder: bool,
}

impl UiData {
    pub fn new() -> (r: UiData)
        ensures
            r.parent_title@ == Seq::<char>::empty(),
            r.current_title@ == Seq::<char>::empty(),
            r.parent_list@.len() == 0,
            r.current_list@.len() == 0,
            r.current_last_selected == 0,
            r.child_list matches Ok(v) && v@.len() == 0,
            r.child_content is None,
            r.child_is_folder,
    {
        UiData {
            parent_title: String::new(),
            current_title: String::new(),
            parent_list: Vec::new(),
            current_list: Vec::new(),
            current_last_selected: 0,
            child_list: Ok(Vec::new()),
            child_content: None,
            child_is_folder: true,
        }
    }

    /// Whether the preview must be computed for the selection `selected`: on a
    /// full redraw, or when the selection differs from the one last previewed,
    /// which it then records. With nothing selected there is no preview.
    pub fn preview_due(&mut self, selected: Option<usize>, redraw_only: bool) -> (r: Option<usize>)
        ensures
            r == (match selected {
                Some(i) => if i != old(self).current_last_selected || !redraw_only {
                    Some(i)
                } else {
                    None::<usize>
                },
                None => None,
            }),
            final(self).current_last_selected == (match r {
                Some(i) => i,
                None => old(self).current_last_selected,
            }),
            final(self).child_list == old(self).child_list,
            final(self).child_content == old(self).child_content,
            final(self).child_is_folder == old(self).child_is_folder,
            final(self).parent_list == old(self).parent_list,
            final(self).current_list == old(self).current_list,
    {
        if let Some(idx) = selected {
            if idx != self.current_last_selected || !redraw_only {
                self.current_last_selected = idx;
                return Some(idx);
            }
        }
        None
    }

    /// Computes the preview of the shown child number `idx` of the current
    /// directory (read as `cwd_scan`): the listing of that child (read as
    /// `child_scan`) where it is a directory, else the text of its `sample`.
    pub fn refresh_preview(
        &mut self,
        app: &App,
        idx: usize,
        cwd_scan: &Scan,
        child_scan: &Scan,
        sample: &Option<FileSample>,
    )
        ensures
            final(self).child_is_folder == app@.child_is_folder(cwd_scan@, idx as int),
            app@.child_is_folder(cwd_scan@, idx as int) ==> match app@.nth_child(
                cwd_scan@,
                idx as int,
            ) {
                Err(e) => final(self).child_list == Err::<Vec<String>, NavError>(e),
                Ok(_) => names_match(final(self).child_list, app@.names(child_scan@)),
            },
            !app@.child_is_folder(cwd_scan@, idx as int) ==> match app@.nth_child(
                cwd_scan@,
                idx as int,
            ) {
                Err(_) => final(self).child_content is None,
                Ok(_) => match sample {
                    None => final(self).child_content is None,
                    Some(fs) => lines_match(
                        final(self).child_content,
                        preview(fs.head@, line_views(fs.lines@)),
                    ),
                },
            },
    {
        self.child_is_folder = app.child_is_folder(idx, cwd_scan);
        if self.child_is_folder {
            self.child_list = app.list_cwd_nth_child_children_names(idx, cwd_scan, child_scan);
        } else {
            self.child_content = app.read_child_file(idx, cwd_scan, sample);
        }
    }
}

} // verus!
