use vstd::prelude::*;
use crate::listing::{
    entry_views, nth_visible, position_of, shown_names, visible, visible_names, EntryKind,
    EntryView, Scan,
};
use crate::location::{LocView, Location};
use crate::sniff::{line_views, lines_match, preview, preview_text, FileSample};

verus! {

/// Why a navigation step or a listing did not happen.
#[derive(PartialEq, Eq, Structural, Clone, Copy, Debug)]
pub enum NavError {
    NotADirectory,
    NoParent,
    NoChildren,
    NotFound,
}

/// The navigation state: where the browser is, the trail of children it
/// ascended from, and whether only directories are listed.
pub struct App {
    cwd: Location,
    history: Vec<Location>,
    dirs_only: bool,
}

pub struct AppView {
    pub cwd: LocView,
    pub history: Seq<LocView>,
    pub dirs_only: bool,
}

impl View for App {
    type V = AppView;

    closed spec fn view(&self) -> AppView {
        AppView {
            cwd: self.cwd@,
            history: self.history@.map_values(|l: Location| l@),
            dirs_only: self.dirs_only,
        }
    }
}

impl View for Scan {
    type V = Option<Seq<EntryView>>;

    open spec fn view(&self) -> Option<Seq<EntryView>> {
        match self {
            Scan::NotADirectory => None,
            Scan::Entries(v) => Some(entry_views(v@)),
        }
    }
}

pub open spec fn names_of(v: Seq<String>) -> Seq<Seq<char>> {
    v.map_values(|n: String| n@)
}

/// `r` holds the names of `m`, or the same error.
pub open spec fn names_match(
    r: Result<Vec<String>, NavError>,
    m: Result<Seq<Seq<char>>, NavError>,
) -> bool {
    match r {
        Ok(v) => m == Ok::<Seq<Seq<char>>, NavError>(names_of(v@)),
        Err(e) => m == Err::<Seq<Seq<char>>, NavError>(e),
    }
}

/// The title of a directory: its last component followed by the separator, or
/// the root itself.
pub open spec fn folder_name(l: LocView) -> Seq<char> {
    if l.parts.len() == 0 {
        l.root
    } else {
        l.parts.last() + l.sep
    }
}

/// Whether `i` is the first position of `x` in `s`.
pub open spec fn is_first_index(s: Seq<Seq<char>>, x: Seq<char>, i: int) -> bool {
    0 <= i < s.len() && s[i] == x && forall|j: int| 0 <= j < i ==> s[j] != x
}

/// The first position of `x` in `s`, if it occurs there.
pub open spec fn first_index(s: Seq<Seq<char>>, x: Seq<char>) -> Option<int> {
    if exists|i: int| is_first_index(s, x, i) {
        Some(choose|i: int| is_first_index(s, x, i))
    } else {
        None
    }
}

proof fn lemma_first_index(s: Seq<Seq<char>>, x: Seq<char>, i: int)
    requires
        is_first_index(s, x, i),
    ensures
        first_index(s, x) == Some(i),
{
    let k = choose|k: int| is_first_index(s, x, k);
    assert(is_first_index(s, x, k));
    if k < i {
        assert(s[k] != x);
    } else if i < k {
        assert(s[i] != x);
    }
}

proof fn lemma_no_first_index(s: Seq<Seq<char>>, x: Seq<char>)
    requires
        !s.contains(x),
    ensures
        first_index(s, x) == None::<int>,
{
    if exists|i: int| is_first_index(s, x, i) {
        let k = choose|k: int| is_first_index(s, x, k);
        assert(s[k] == x);
    }
}

/// The first position in `s` of an entry whose path, below `dir`, is `target`.
pub open spec fn find_child(s: Seq<EntryView>, dir: LocView, target: LocView) -> Option<int>
    decreases s.len(),
{
    if s.len() == 0 {
        None
    } else {
        match find_child(s.drop_last(), dir, target) {
            Some(i) => Some(i),
            None => if dir.child(s.last().name) == target {
                Some(s.len() - 1)
            } else {
                None
            },
        }
    }
}

impl AppView {
    /// The entries that are shown of a directory that was read as `scan`.
    pub open spec fn listing(self, scan: Option<Seq<EntryView>>) -> Result<Seq<EntryView>, NavError> {
        match scan {
            None => Err(NavError::NotADirectory),
            Some(s) => Ok(visible(self.dirs_only, s)),
        }
    }

    /// The names listed for a directory that was read as `scan`.
    pub open spec fn names(self, scan: Option<Seq<EntryView>>) -> Result<Seq<Seq<char>>, NavError> {
        match self.listing(scan) {
            Err(e) => Err(e),
            Ok(_) => Ok(visible_names(self.dirs_only, scan->0, self.cwd.sep)),
        }
    }

    /// The shown entry number `idx` of the directory read as `scan`.
    pub open spec fn nth_child(self, scan: Option<Seq<EntryView>>, idx: int) -> Result<
        EntryView,
        NavError,
    > {
        match self.listing(scan) {
            Err(e) => Err(e),
            Ok(l) => if 0 <= idx < l.len() {
                Ok(l[idx])
            } else {
                Err(NavError::NotFound)
            },
        }
    }

    /// Whether the shown child number `idx` of the current directory is a directory.
    pub open spec fn child_is_folder(self, scan: Option<Seq<EntryView>>, idx: int) -> bool {
        self.dirs_only || (self.nth_child(scan, idx) matches Ok(e) && e.kind
            == EntryKind::Directory)
    }

    /// The state after ascending, where the current directory was read as `scan`.
    pub open spec fn ascend(self, selected: Option<usize>, scan: Option<Seq<EntryView>>) -> Result<
        AppView,
        NavError,
    > {
        match self.cwd.parent() {
            None => Err(NavError::NoParent),
            Some(p) => Ok(
                AppView {
                    cwd: p,
                    history: match selected {
                        Some(i) => match self.nth_child(scan, i as int) {
                            Ok(e) => self.history.push(self.cwd.child(e.name)),
                            Err(_) => self.history,
                        },
                        None => self.history,
                    },
                    ..self
                },
            ),
        }
    }

    /// The names of the current directory before the move, and the state after
    /// descending into its shown child number `idx`.
    pub open spec fn descend(self, scan: Option<Seq<EntryView>>, idx: int) -> Result<
        (Seq<Seq<char>>, AppView),
        NavError,
    > {
        match self.names(scan) {
            Err(e) => Err(e),
            Ok(names) => if names.len() == 0 {
                Err(NavError::NoChildren)
            } else if !self.child_is_folder(scan, idx) {
                Err(NavError::NotADirectory)
            } else {
                match self.nth_child(scan, idx) {
                    Err(e) => Err(e),
                    Ok(e) => Ok((names, AppView { cwd: self.cwd.child(e.name), ..self })),
                }
            },
        }
    }

    /// Position of the current directory among the names listed for the
    /// directory above, read as `scan`.
    pub open spec fn parent_index(self, scan: Option<Seq<EntryView>>) -> Option<int> {
        match self.cwd.parent() {
            None => None,
            Some(_) => match self.names(scan) {
                Err(_) => None,
                Ok(n) => first_index(n, folder_name(self.cwd)),
            },
        }
    }

    /// What looking up the top of the history in the current directory, read
    /// unfiltered as `scan`, returns, and the state after it.
    pub open spec fn pop_history(self, scan: Option<Seq<EntryView>>) -> (Option<int>, AppView) {
        let cleared = AppView { history: Seq::empty(), ..self };
        if self.history.len() == 0 {
            (None, cleared)
        } else {
            match scan {
                None => (None, cleared),
                Some(s) => match find_child(s, self.cwd, self.history.last()) {
                    Some(i) => (Some(i), AppView { history: self.history.drop_last(), ..self }),
                    None => (None, cleared),
                },
            }
        }
    }
}

proof fn lemma_find_child_extends(s: Seq<EntryView>, dir: LocView, t: LocView, i: int)
    requires
        0 <= i <= s.len(),
        find_child(s.take(i), dir, t) is Some,
    ensures
        find_child(s, dir, t) == find_child(s.take(i), dir, t),
    decreases s.len() - i,
{
    if i < s.len() {
        assert(s.take(i + 1).drop_last() =~= s.take(i));
        lemma_find_child_extends(s, dir, t, i + 1);
    } else {
        assert(s.take(i) =~= s);
    }
}

impl App {
    /// A browser at `cwd`, with an empty history.
    pub fn new(cwd: Location, dirs_only: bool) -> (r: App)
        ensures
            r@ == (AppView { cwd: cwd@, history: Seq::empty(), dirs_only }),
    {
        let r = App { cwd, history: Vec::new(), dirs_only };
        assert(r@.history =~= Seq::empty());
        r
    }

    pub fn is_dirs_only(&self) -> (r: bool)
        ensures
            r == self@.dirs_only,
    {
        self.dirs_only
    }

    pub fn current_path(&self) -> (r: &Location)
        ensures
            r@ == self@.cwd,
    {
        &self.cwd
    }

    /// The paths that a later descent may return to, the most recent last.
    pub fn history(&self) -> (r: &Vec<Location>)
        ensures
            r@.map_values(|l: Location| l@) == self@.history,
    {
        &self.history
    }

    /// The names listed for a directory that was read as `scan`.
    pub fn list_path_children_names(&self, scan: &Scan) -> (r: Result<Vec<String>, NavError>)
        ensures
            names_match(r, self@.names(scan@)),
    {
        match scan {
            Scan::NotADirectory => Err(NavError::NotADirectory),
            Scan::Entries(v) => Ok(shown_names(self.dirs_only, v, &self.cwd.sep)),
        }
    }

    /// Position, among the entries of `scan`, of the shown child number `idx`.
    fn nth_entry(&self, scan: &Scan, idx: usize) -> (r: Result<usize, NavError>)
        ensures
            match r {
                Ok(k) => scan matches Scan::Entries(v) && k < v.len() && self@.nth_child(
                    scan@,
                    idx as int,
                ) == Ok::<EntryView, NavError>(v@[k as int]@),
                Err(e) => self@.nth_child(scan@, idx as int) == Err::<EntryView, NavError>(e),
            },
    {
        match scan {
            Scan::NotADirectory => Err(NavError::NotADirectory),
            Scan::Entries(v) => match nth_visible(self.dirs_only, v, idx) {
                Some(k) => Ok(k),
                None => Err(NavError::NotFound),
            },
        }
    }

    /// The path of the shown child number `idx` of the current directory, read as `cwd_scan`.
    pub fn path_nth_child(&self, cwd_scan: &Scan, idx: usize) -> (r: Result<Location, NavError>)
        ensures
            match r {
                Ok(p) => self@.nth_child(cwd_scan@, idx as int) matches Ok(e) && p@
                    == self@.cwd.child(e.name),
                Err(e) => self@.nth_child(cwd_scan@, idx as int) == Err::<EntryView, NavError>(e),
            },
            cwd_scan@ matches Some(s) && idx >= visible(self@.dirs_only, s).len() ==> r
                == Err::<Location, NavError>(NavError::NotFound),
    {
        match self.nth_entry(cwd_scan, idx) {
            Err(e) => Err(e),
            Ok(k) => match cwd_scan {
                Scan::Entries(v) => Ok(self.cwd.child(&v[k].name)),
                Scan::NotADirectory => Err(NavError::NotADirectory),
            },
        }
    }

    /// The names listed for the current directory, read as `cwd_scan`.
    pub fn list_cwd_child_names(&self, cwd_scan: &Scan) -> (r: Result<Vec<String>, NavError>)
        ensures
            names_match(r, self@.names(cwd_scan@)),
    {
        self.list_path_children_names(cwd_scan)
    }

    /// The path of the directory above, if there is one.
    pub fn parent_path(&self) -> (r: Option<Location>)
        ensures
            r matches Some(p) ==> self@.cwd.parent() == Some(p@),
            r is None <==> self@.cwd.parent() is None,
    {
        self.cwd.parent()
    }

    /// The names listed for the directory above, read as `parent_scan`; none at a root.
    pub fn parent_children_names(&self, parent_scan: &Scan) -> (r: Result<Vec<String>, NavError>)
        ensures
            self@.cwd.parent() is None ==> names_match(r, Ok(Seq::empty())),
            self@.cwd.parent() is Some ==> names_match(r, self@.names(parent_scan@)),
    {
        if !self.cwd.has_parent() {
            let none: Vec<String> = Vec::new();
            assert(names_of(none@) =~= Seq::empty());
            return Ok(none);
        }
        self.list_path_children_names(parent_scan)
    }

    /// The title of the current directory.
    pub fn current_folder_name(&self) -> (r: String)
        ensures
            r@ == folder_name(self@.cwd),
    {
        let mut r = self.cwd.base_name();
        if self.cwd.has_parent() {
            r.append(self.cwd.sep.as_str());
        }
        r
    }

    /// The title of the directory above.
    pub fn parent_folder_name(&self) -> (r: Result<String, NavError>)
        ensures
            match r {
                Ok(n) => self@.cwd.parent() matches Some(p) && n@ == folder_name(p),
                Err(e) => e == NavError::NoParent && self@.cwd.parent() is None,
            },
    {
        match self.cwd.parent() {
            None => Err(NavError::NoParent),
            Some(p) => {
                let mut r = p.base_name();
                if p.has_parent() {
                    r.append(p.sep.as_str());
                }
                Ok(r)
            },
        }
    }

    /// Whether the shown child number `idx` of the current directory is a
    /// directory; in directory-only mode every shown child is.
    pub fn child_is_folder(&self, idx: usize, cwd_scan: &Scan) -> (r: bool)
        ensures
            r == self@.child_is_folder(cwd_scan@, idx as int),
    {
        if self.dirs_only {
            return true;
        }
        match self.nth_entry(cwd_scan, idx) {
            Err(_) => false,
            Ok(k) => match cwd_scan {
                Scan::Entries(v) => v[k].kind == EntryKind::Directory,
                Scan::NotADirectory => false,
            },
        }
    }

    /// The names listed for the shown child number `idx` of the current
    /// directory, where the current directory was read as `cwd_scan` and that
    /// child as `child_scan`.
    pub fn list_cwd_nth_child_children_names(
        &self,
        idx: usize,
        cwd_scan: &Scan,
        child_scan: &Scan,
    ) -> (r: Result<Vec<String>, NavError>)
        ensures
            !self@.child_is_folder(cwd_scan@, idx as int) ==> r == Err::<Vec<String>, NavError>(
                NavError::NotADirectory,
            ),
            self@.child_is_folder(cwd_scan@, idx as int) ==> match self@.nth_child(
                cwd_scan@,
                idx as int,
            ) {
                Err(e) => r == Err::<Vec<String>, NavError>(e),
                Ok(_) => names_match(r, self@.names(child_scan@)),
            },
    {
        if !self.child_is_folder(idx, cwd_scan) {
            return Err(NavError::NotADirectory);
        }
        match self.nth_entry(cwd_scan, idx) {
            Err(e) => Err(e),
            Ok(_) => self.list_path_children_names(child_scan),
        }
    }

    /// Position of the current directory among the names listed for the
    /// directory above, read as `parent_scan`.
    pub fn cwd_parent_idx(&self, parent_scan: &Scan) -> (r: Result<usize, NavError>)
        ensures
            self@.cwd.parent() is None ==> r == Err::<usize, NavError>(NavError::NoParent),
            self@.cwd.parent() is Some ==> match self@.names(parent_scan@) {
                Err(e) => r == Err::<usize, NavError>(e),
                Ok(n) => match r {
                    Ok(i) => i < n.len() && n[i as int] == folder_name(self@.cwd) && forall|j: int|
                        0 <= j < i ==> n[j] != folder_name(self@.cwd),
                    Err(e) => e == NavError::NotFound && !n.contains(folder_name(self@.cwd)),
                },
            },
            match r {
                Ok(i) => self@.parent_index(parent_scan@) == Some(i as int),
                Err(_) => self@.parent_index(parent_scan@) is None,
            },
    {
        if !self.cwd.has_parent() {
            return Err(NavError::NoParent);
        }
        let parent = match self.list_path_children_names(parent_scan) {
            Err(e) => {
                return Err(e);
            },
            Ok(p) => p,
        };
        let curr = self.current_folder_name();
        match position_of(&parent, &curr) {
            Some(i) => {
                proof {
                    lemma_first_index(names_of(parent@), curr@, i as int);
                }
                Ok(i)
            },
            None => {
                proof {
                    if names_of(parent@).contains(curr@) {
                        let j = choose|j: int|
                            0 <= j < names_of(parent@).len() && names_of(parent@)[j] == curr@;
                        assert(parent@[j]@ == curr@);
                    }
                    lemma_no_first_index(names_of(parent@), curr@);
                }
                Err(NavError::NotFound)
            },
        }
    }

    /// Ascends to the directory above. Where `selected_idx` names a shown child
    /// of the current directory (read as `cwd_scan`), that child's path is
    /// pushed on the history first. At a root nothing changes.
    pub fn up(&mut self, selected_idx: Option<usize>, cwd_scan: &Scan) -> (r: Result<(), NavError>)
        ensures
            match old(self)@.ascend(selected_idx, cwd_scan@) {
                Ok(v) => r is Ok && final(self)@ == v,
                Err(e) => r == Err::<(), NavError>(e) && final(self)@ == old(self)@,
            },
            r == Err::<(), NavError>(NavError::NoParent) <==> old(self)@.cwd.parent() is None,
    {
        let parent = match self.cwd.parent() {
            None => {
                return Err(NavError::NoParent);
            },
            Some(p) => p,
        };
        if let Some(i) = selected_idx {
            if let Ok(child) = self.path_nth_child(cwd_scan, i) {
                self.history.push(child);
            }
        }
        self.cwd = parent;
        assert(self@.history =~= old(self)@.ascend(selected_idx, cwd_scan@)->Ok_0.history);
        Ok(())
    }

    /// Descends into the shown child number `idx` of the current directory,
    /// read as `cwd_scan`, and returns the names that were listed before the move.
    pub fn down(&mut self, idx: usize, cwd_scan: &Scan) -> (r: Result<Vec<String>, NavError>)
        ensures
            match old(self)@.descend(cwd_scan@, idx as int) {
                Ok((n, v)) => r matches Ok(p) && names_of(p@) == n && final(self)@ == v,
                Err(e) => r == Err::<Vec<String>, NavError>(e) && final(self)@ == old(self)@,
            },
            cwd_scan@ matches Some(s) && idx >= visible(old(self)@.dirs_only, s).len() ==> r is Err,
    {
        let parent = match self.list_cwd_child_names(cwd_scan) {
            Err(e) => {
                return Err(e);
            },
            Ok(p) => p,
        };
        if parent.len() == 0 {
            return Err(NavError::NoChildren);
        }
        if !self.child_is_folder(idx, cwd_scan) {
            return Err(NavError::NotADirectory);
        }
        match self.path_nth_child(cwd_scan, idx) {
            Err(e) => Err(e),
            Ok(child) => {
                self.cwd = child;
                Ok(parent)
            },
        }
    }

    /// Looks up the top of the history among the entries of the current
    /// directory, read unfiltered as `cwd_scan`. On a match the top is popped
    /// and its position returned; otherwise the whole history is discarded.
    pub fn pop_last_visited_idx(&mut self, cwd_scan: &Scan) -> (r: Option<usize>)
        ensures
            ({
                let (i, v) = old(self)@.pop_history(cwd_scan@);
                &&& final(self)@ == v
                &&& match r {
                    Some(k) => i == Some(k as int),
                    None => i is None,
                }
            }),
    {
        let ghost h = self@.history;
        if let Some(last) = self.history.pop() {
            assert(self@.history =~= h.drop_last());
            if let Scan::Entries(v) = cwd_scan {
                let ghost s = entry_views(v@);
                let mut i: usize = 0;
                while i < v.len()
                    invariant
                        s == entry_views(v@),
                        cwd_scan@ == Some(s),
                        i <= v.len(),
                        h == old(self)@.history,
                        h.len() > 0,
                        last@ == h.last(),
                        self@ == (AppView { history: h.drop_last(), ..old(self)@ }),
                        find_child(s.take(i as int), self.cwd@, last@) is None,
                    decreases v.len() - i,
                {
                    proof {
                        assert(s.take(i + 1).drop_last() =~= s.take(i as int));
                    }
                    if last.is_child_of(&self.cwd, &v[i].name) {
                        proof {
                            assert(s.take(i + 1).last() == s[i as int]);
                            assert(s[i as int].name == v@[i as int].name@);
                            assert(find_child(s.take(i + 1), self.cwd@, last@) == Some(i as int));
                            lemma_find_child_extends(s, self.cwd@, last@, i + 1);
                        }
                        return Some(i);
                    }
                    i += 1;
                }
                assert(s.take(i as int) =~= s);
            }
        }
        self.history = Vec::new();
        assert(self@.history =~= Seq::empty());
        None
    }

    /// The preview of the shown child number `idx` of the current directory,
    /// read as `cwd_scan`, where `sample` is what could be read from the start
    /// of that child (`None` where it could not be opened or read).
    pub fn read_child_file(&self, idx: usize, cwd_scan: &Scan, sample: &Option<FileSample>) -> (r:
        Option<Vec<String>>)
        ensures
            self@.nth_child(cwd_scan@, idx as int) is Err ==> r is None,
            sample is None ==> r is None,
            self@.nth_child(cwd_scan@, idx as int) is Ok ==> (sample matches Some(fs) ==> lines_match(
                r,
                preview(fs.head@, line_views(fs.lines@)),
            )),
    {
        if self.nth_entry(cwd_scan, idx).is_err() {
            return None;
        }
        match sample {
            None => None,
            Some(fs) => preview_text(fs),
        }
    }
}

} // verus!
