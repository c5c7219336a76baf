//! The state of the file explorer and every decision it takes: which folder
//! is shown, the history of folders, the selection, the clipboard, renaming,
//! the context menu, notifications and LAN sharing. Reading folders and
//! touching files is left to the caller, who is told when to do it.
use vstd::prelude::*;
use vstd::string::StringExecFns;
use vstd::string::StrSliceExecFns;
use crate::text::concat;
use crate::text::concat3;
use crate::listing::DirEntry;
use crate::listing::SortBy;
use crate::listing::sort_listing;
use crate::listing::is_stable_sort;
use crate::listing::keep_listed;
use crate::listing::listed;
use crate::listing::filter_indices;
use crate::listing::is_filter_result;
use crate::paths::parent_of;
use crate::paths::path_parent;
use crate::paths::file_name_of;
use crate::paths::path_file_name;
use crate::paths::joined;
use crate::paths::path_join;
use crate::theme::Rgb;
use crate::theme::rgb;
use crate::lan::LanPeer;

verus! {

/// What pasting the clipboard does with its file.
#[derive(Clone, Copy, Debug, PartialEq, Eq, Structural)]
pub enum FileOperation {
    Copy,
    Cut,
}

/// How the file list is laid out.
#[derive(Clone, Copy, Debug, PartialEq, Eq, Structural)]
pub enum ViewMode {
    List,
    Details,
}

/// The open context menu: the entry it is for and the frame it opened in.
#[derive(Clone, Copy, Debug, PartialEq, Eq, Structural)]
pub struct ContextMenu {
    pub entry_idx: usize,
    pub opened_frame: u64,
}

/// A message shown in the corner for a few seconds; `created` is the time
/// (nanoseconds) it was raised at.
#[derive(Debug)]
pub struct Notice {
    pub message: String,
    pub color: Rgb,
    pub created: u64,
}

/// A notice as plain values.
pub struct NoticeView {
    pub message: Seq<char>,
    pub color: Rgb,
    pub created: nat,
}

impl View for Notice {
    type V = NoticeView;

    open spec fn view(&self) -> NoticeView {
        NoticeView { message: self.message@, color: self.color, created: self.created as nat }
    }
}

/// Progress of sharing a file over the LAN.
#[derive(Debug)]
pub enum LanTransferState {
    Idle,
    Discovering,
    Ready(Vec<LanPeer>),
    Sending { peer_name: String },
    Done(String),
    Failed(String),
}

/// LAN sharing progress as plain values; peers are (display, address).
pub enum LanView {
    Idle,
    Discovering,
    Ready(Seq<(Seq<char>, Seq<char>)>),
    Sending(Seq<char>),
    Done(Seq<char>),
    Failed(Seq<char>),
}

/// The (display, address) texts of peers.
pub open spec fn peers_view(s: Seq<LanPeer>) -> Seq<(Seq<char>, Seq<char>)> {
    s.map_values(|p: LanPeer| (p.display@, p.addr@))
}

impl View for LanTransferState {
    type V = LanView;

    open spec fn view(&self) -> LanView {
        match self {
            LanTransferState::Idle => LanView::Idle,
            LanTransferState::Discovering => LanView::Discovering,
            LanTransferState::Ready(peers) => LanView::Ready(peers_view(peers@)),
            LanTransferState::Sending { peer_name } => LanView::Sending(peer_name@),
            LanTransferState::Done(m) => LanView::Done(m@),
            LanTransferState::Failed(e) => LanView::Failed(e@),
        }
    }
}

/// The texts of strings.
pub open spec fn texts(s: Seq<String>) -> Seq<Seq<char>> {
    s.map_values(|x: String| x@)
}

/// The text of an optional string.
pub open spec fn opt_text(o: Option<String>) -> Option<Seq<char>> {
    match o {
        Some(s) => Some(s@),
        None => None,
    }
}

/// The explorer's state as plain values.
pub struct ExplorerView {
    pub current_path: Seq<char>,
    pub entries: Seq<DirEntry>,
    pub filtered: Seq<usize>,
    pub selected: Option<usize>,
    pub error: Option<Seq<char>>,
    pub query: Seq<char>,
    pub clipboard: Option<(Seq<char>, FileOperation)>,
    pub show_hidden: bool,
    pub sort_by: SortBy,
    pub view_mode: ViewMode,
    pub history: Seq<Seq<char>>,
    pub history_index: nat,
    pub renaming: Option<(usize, Seq<char>)>,
    pub properties: Option<Seq<char>>,
    pub notices: Seq<NoticeView>,
    pub menu: Option<ContextMenu>,
    pub dark_mode: bool,
    pub lan: LanView,
    pub lan_file: Option<Seq<char>>,
    pub clock: nat,
}

/// The folders visited, in order, and the position of the one shown; the
/// position always lies inside the list.
struct History {
    paths: Vec<String>,
    index: usize,
}

impl History {
    #[verifier::type_invariant]
    spec fn inside(self) -> bool {
        self.index < self.paths.len()
    }

    fn start(home: String) -> (h: Self)
        ensures
            texts(h.paths@) == seq![home@],
            h.index == 0,
    {
        let mut paths: Vec<String> = Vec::new();
        paths.push(home);
        let h = History { paths, index: 0 };
        assert(texts(h.paths@) =~= seq![home@]);
        h
    }

    /// The folder shown.
    fn current(&self) -> (r: &String)
        ensures
            self.index < self.paths.len(),
            r@ == texts(self.paths@)[self.index as int],
    {
        proof {
            use_type_invariant(self);
        }
        &self.paths[self.index]
    }

    /// Drops the folders after the current one and appends `path`, which
    /// becomes current.
    fn visit(&mut self, path: String)
        ensures
            texts(final(self).paths@) == texts(old(self).paths@).take(old(self).index + 1int).push(path@),
            final(self).index == old(self).index + 1,
    {
        proof {
            use_type_invariant(&*self);
        }
        let mut kept: Vec<String> = Vec::new();
        let mut i: usize = 0;
        while i <= self.index
            invariant
                i <= self.index + 1,
                self.index < self.paths.len(),
                texts(kept@) == texts(self.paths@).take(i as int),
            decreases self.index + 1 - i,
        {
            let ghost before = kept@;
            let c = String::from_str(self.paths[i].as_str());
            assert(c@ == texts(self.paths@)[i as int]);
            kept.push(c);
            assert(texts(kept@) =~= texts(before).push(c@));
            i = i + 1;
            assert(texts(kept@) =~= texts(self.paths@).take(i as int));
        }
        kept.push(path);
        let n = kept.len() - 1;
        assert(texts(kept@) =~= texts(old(self).paths@).take(old(self).index + 1int).push(kept@[n as int]@));
        *self = History { paths: kept, index: n };
    }

    /// Steps one folder back, when there is one.
    fn back(&mut self) -> (moved: bool)
        ensures
            moved == (old(self).index > 0),
            final(self).paths == old(self).paths,
            final(self).index == if moved { old(self).index - 1 } else { old(self).index as int },
    {
        proof {
            use_type_invariant(&*self);
        }
        if self.index > 0 {
            self.index = self.index - 1;
            true
        } else {
            false
        }
    }

    /// Steps one folder forward, when there is one.
    fn forward(&mut self) -> (moved: bool)
        ensures
            moved == (old(self).index + 1 < old(self).paths.len()),
            final(self).paths == old(self).paths,
            final(self).index == if moved { old(self).index + 1 } else { old(self).index as int },
    {
        proof {
            use_type_invariant(&*self);
        }
        if self.index < self.paths.len() - 1 {
            self.index = self.index + 1;
            true
        } else {
            false
        }
    }
}

/// The file explorer.
pub struct FileExplorer {
    history: History,
    entries: Vec<DirEntry>,
    filtered_entries: Vec<usize>,
    selected_file: Option<usize>,
    error_message: Option<String>,
    search_query: String,
    clipboard: Option<(String, FileOperation)>,
    show_hidden: bool,
    sort_by: SortBy,
    view_mode: ViewMode,
    renaming: Option<(usize, String)>,
    properties_dialog: Option<String>,
    notifications: Vec<Notice>,
    context_menu: Option<ContextMenu>,
    dark_mode: bool,
    lan_state: LanTransferState,
    lan_file_path: Option<String>,
    clock: u64,
}

/// The clipboard as plain values.
pub open spec fn clip_view(c: Option<(String, FileOperation)>) -> Option<(Seq<char>, FileOperation)> {
    match c {
        Some((p, op)) => Some((p@, op)),
        None => None,
    }
}

/// The rename in progress as plain values.
pub open spec fn rename_view(r: Option<(usize, String)>) -> Option<(usize, Seq<char>)> {
    match r {
        Some((i, t)) => Some((i, t@)),
        None => None,
    }
}

/// The notices as plain values.
pub open spec fn notices_view(s: Seq<Notice>) -> Seq<NoticeView> {
    s.map_values(|n: Notice| n@)
}

impl View for FileExplorer {
    type V = ExplorerView;

    closed spec fn view(&self) -> ExplorerView {
        ExplorerView {
            current_path: texts(self.history.paths@)[self.history.index as int],
            entries: self.entries@,
            filtered: self.filtered_entries@,
            selected: self.selected_file,
            error: opt_text(self.error_message),
            query: self.search_query@,
            clipboard: clip_view(self.clipboard),
            show_hidden: self.show_hidden,
            sort_by: self.sort_by,
            view_mode: self.view_mode,
            history: texts(self.history.paths@),
            history_index: self.history.index as nat,
            renaming: rename_view(self.renaming),
            properties: opt_text(self.properties_dialog),
            notices: notices_view(self.notifications@),
            menu: self.context_menu,
            dark_mode: self.dark_mode,
            lan: self.lan_state@,
            lan_file: opt_text(self.lan_file_path),
            clock: self.clock as nat,
        }
    }
}

/// What always holds of an explorer: the history position is inside the
/// history, and the folder there is the one shown.
pub open spec fn history_consistent(v: ExplorerView) -> bool {
    &&& v.history_index < v.history.len()
    &&& v.history[v.history_index as int] == v.current_path
}

// ─── navigation as functions of the state ───────────────────────────────────

/// The state after moving to `path` (which differs from the current folder):
/// entries after the current history position are dropped and `path` is
/// appended and becomes current.
pub open spec fn moved_to(v: ExplorerView, path: Seq<char>) -> ExplorerView {
    ExplorerView {
        current_path: path,
        history: v.history.take(v.history_index + 1int).push(path),
        history_index: v.history_index + 1,
        ..v
    }
}

/// The state after asking to move to `path`: nothing changes when it names
/// the folder already shown, otherwise the explorer moves there.
pub open spec fn navigated(v: ExplorerView, path: Seq<char>) -> ExplorerView {
    if same_folder(path, v.current_path) {
        v
    } else {
        moved_to(v, path)
    }
}

/// Whether there is an earlier folder to go back to.
pub open spec fn can_back(v: ExplorerView) -> bool {
    v.history_index > 0
}

/// Whether there is a later folder to go forward to.
pub open spec fn can_forward(v: ExplorerView) -> bool {
    v.history_index + 1 < v.history.len()
}

/// The state after going back one step in the history.
pub open spec fn went_back(v: ExplorerView) -> ExplorerView {
    ExplorerView {
        history_index: (v.history_index - 1) as nat,
        current_path: v.history[v.history_index - 1],
        ..v
    }
}

/// The state after going forward one step in the history.
pub open spec fn went_forward(v: ExplorerView) -> ExplorerView {
    ExplorerView {
        history_index: v.history_index + 1,
        current_path: v.history[v.history_index + 1int],
        ..v
    }
}

/// Whether two path texts name the same path (`Path`'s `==`, which compares
/// components).
pub uninterp spec fn same_path(a: Seq<char>, b: Seq<char>) -> bool;

/// Whether two path texts name the same folder: the same text, or equal as
/// `Path`s. (`Path`'s `==` is reflexive, so this is `same_path`; the first
/// disjunct states that part of it.)
pub open spec fn same_folder(a: Seq<char>, b: Seq<char>) -> bool {
    a == b || same_path(a, b)
}

/// Calls `Path`'s `==`; the contract names the result and states that equal
/// texts are equal paths (`==` compares the components, which are then
/// equal).
#[verifier::external_body]
fn paths_equal(a: &str, b: &str) -> (r: bool)
    ensures
        r == same_path(a@, b@),
        a@ == b@ ==> r,
{
    std::path::Path::new(a) == std::path::Path::new(b)
}

/// The state with one more notice, raised at time `at`.
pub open spec fn notified_at(v: ExplorerView, message: Seq<char>, color: Rgb, at: nat) -> ExplorerView {
    ExplorerView { notices: v.notices.push(NoticeView { message, color, created: at }), ..v }
}

/// The state with one more notice, raised at the current frame's time.
pub open spec fn notified(v: ExplorerView, message: Seq<char>, color: Rgb) -> ExplorerView {
    notified_at(v, message, color, v.clock)
}

impl FileExplorer {
    /// A fresh explorer showing `home`, before its listing has been read.
    pub fn new(home: &str) -> (s: Self)
        ensures
            s@ == (ExplorerView {
                current_path: home@,
                entries: Seq::empty(),
                filtered: Seq::empty(),
                selected: None,
                error: None,
                query: Seq::empty(),
                clipboard: None,
                show_hidden: false,
                sort_by: SortBy::Name,
                view_mode: ViewMode::Details,
                history: seq![home@],
                history_index: 0,
                renaming: None,
                properties: None,
                notices: Seq::empty(),
                menu: None,
                dark_mode: true,
                lan: LanView::Idle,
                lan_file: None,
                clock: 0,
            }),
    {
        let s = FileExplorer {
            history: History::start(String::from_str(home)),
            entries: Vec::new(),
            filtered_entries: Vec::new(),
            selected_file: None,
            error_message: None,
            search_query: String::new(),
            clipboard: None,
            show_hidden: false,
            sort_by: SortBy::Name,
            view_mode: ViewMode::Details,
            renaming: None,
            properties_dialog: None,
            notifications: Vec::new(),
            context_menu: None,
            dark_mode: true,
            lan_state: LanTransferState::Idle,
            lan_file_path: None,
            clock: 0,
        };
        assert(notices_view(s.notifications@) =~= Seq::<NoticeView>::empty());
        s
    }

    // ─── reading ───────────────────────────────────────────────────────────

    /// The folder shown.
    pub fn current_path(&self) -> (r: &String)
        ensures
            r@ == self@.current_path,
    {
        self.history.current()
    }

    /// The entries of the folder shown, in listing order.
    pub fn entries(&self) -> (r: &Vec<DirEntry>)
        ensures
            r@ == self@.entries,
    {
        &self.entries
    }

    /// The positions in `entries` of the entries the search shows.
    pub fn filtered_entries(&self) -> (r: &Vec<usize>)
        ensures
            r@ == self@.filtered,
    {
        &self.filtered_entries
    }

    /// The selected row of the shown entries.
    pub fn selected_file(&self) -> (r: Option<usize>)
        ensures
            r == self@.selected,
    {
        self.selected_file
    }

    /// The last error, if any.
    pub fn error_message(&self) -> (r: &Option<String>)
        ensures
            opt_text(*r) == self@.error,
    {
        &self.error_message
    }

    /// The search text.
    pub fn search_query(&self) -> (r: &String)
        ensures
            r@ == self@.query,
    {
        &self.search_query
    }

    /// The clipboard: a path and what pasting does with it.
    pub fn clipboard(&self) -> (r: &Option<(String, FileOperation)>)
        ensures
            clip_view(*r) == self@.clipboard,
    {
        &self.clipboard
    }

    /// Whether hidden entries are listed.
    pub fn show_hidden(&self) -> (r: bool)
        ensures
            r == self@.show_hidden,
    {
        self.show_hidden
    }

    /// The column the listing is ordered by.
    pub fn sort_by(&self) -> (r: SortBy)
        ensures
            r == self@.sort_by,
    {
        self.sort_by
    }

    /// The layout of the file list.
    pub fn view_mode(&self) -> (r: ViewMode)
        ensures
            r == self@.view_mode,
    {
        self.view_mode
    }

    /// Whether the light or dark palette is used.
    pub fn dark_mode(&self) -> (r: bool)
        ensures
            r == self@.dark_mode,
    {
        self.dark_mode
    }

    /// The rename in progress: the row and the text typed so far.
    pub fn renaming(&self) -> (r: &Option<(usize, String)>)
        ensures
            rename_view(*r) == self@.renaming,
    {
        &self.renaming
    }

    /// The path whose properties are shown.
    pub fn properties_dialog(&self) -> (r: &Option<String>)
        ensures
            opt_text(*r) == self@.properties,
    {
        &self.properties_dialog
    }

    /// The notices currently shown, oldest first.
    pub fn notifications(&self) -> (r: &Vec<Notice>)
        ensures
            notices_view(r@) == self@.notices,
    {
        &self.notifications
    }

    /// The open context menu.
    pub fn context_menu(&self) -> (r: Option<ContextMenu>)
        ensures
            r == self@.menu,
    {
        self.context_menu
    }

    /// Progress of LAN sharing.
    pub fn lan_state(&self) -> (r: &LanTransferState)
        ensures
            r@ == self@.lan,
    {
        &self.lan_state
    }

    /// The file being shared over the LAN.
    pub fn lan_file_path(&self) -> (r: &Option<String>)
        ensures
            opt_text(*r) == self@.lan_file,
    {
        &self.lan_file_path
    }

    /// Whether "back" is available.
    pub fn can_go_back(&self) -> (r: bool)
        ensures
            r == can_back(self@),
    {
        self.history.index > 0
    }

    /// Whether "forward" is available.
    pub fn can_go_forward(&self) -> (r: bool)
        ensures
            r == can_forward(self@),
    {
        proof {
            use_type_invariant(&self.history);
        }
        self.history.index < self.history.paths.len() - 1
    }

    // ─── listing ───────────────────────────────────────────────────────────

    /// Takes in what reading the current folder gave: on success the listed
    /// entries (hidden ones only when shown), sorted stably and filtered by
    /// the search; on failure no entries and an error message (the shown
    /// rows are then left as they were). The selection is cleared either way.
    pub fn load_directory(&mut self, listing: Result<Vec<DirEntry>, String>)
        ensures
            final(self)@ == (ExplorerView {
                entries: final(self)@.entries,
                filtered: final(self)@.filtered,
                selected: None,
                error: final(self)@.error,
                ..old(self)@
            }),
            listing matches Ok(l) ==> {
                &&& is_stable_sort(old(self)@.sort_by, listed(old(self)@.show_hidden, l@), final(self)@.entries)
                &&& is_filter_result(final(self)@.entries, old(self)@.query, final(self)@.filtered)
                &&& final(self)@.error is None
            },
            listing matches Err(e) ==> {
                &&& final(self)@.entries == Seq::<DirEntry>::empty()
                &&& final(self)@.filtered == old(self)@.filtered
                &&& final(self)@.error == Some("Failed to read directory: "@ + e@)
            },
    {
        self.entries = Vec::new();
        self.selected_file = None;
        self.error_message = None;
        match listing {
            Ok(l) => {
                let kept = keep_listed(l, self.show_hidden);
                self.entries = sort_listing(kept, self.sort_by);
                self.filtered_entries = filter_indices(&self.entries, self.search_query.as_str());
            },
            Err(e) => {
                self.error_message = Some(concat("Failed to read directory: ", e.as_str()));
            },
        }
    }

    /// Re-sorts the entries by the current column.
    pub fn sort_entries(&mut self)
        ensures
            final(self)@ == (ExplorerView { entries: final(self)@.entries, ..old(self)@ }),
            is_stable_sort(old(self)@.sort_by, old(self)@.entries, final(self)@.entries),
    {
        let mut taken: Vec<DirEntry> = Vec::new();
        std::mem::swap(&mut taken, &mut self.entries);
        self.entries = sort_listing(taken, self.sort_by);
    }

    /// Recomputes which entries the search shows.
    pub fn apply_filter(&mut self)
        ensures
            final(self)@ == (ExplorerView { filtered: final(self)@.filtered, ..old(self)@ }),
            is_filter_result(old(self)@.entries, old(self)@.query, final(self)@.filtered),
    {
        self.filtered_entries = filter_indices(&self.entries, self.search_query.as_str());
    }

    /// Orders by another column: re-sorts and re-filters.
    pub fn set_sort(&mut self, by: SortBy)
        ensures
            final(self)@ == (ExplorerView {
                sort_by: by,
                entries: final(self)@.entries,
                filtered: final(self)@.filtered,
                ..old(self)@
            }),
            is_stable_sort(by, old(self)@.entries, final(self)@.entries),
            is_filter_result(final(self)@.entries, old(self)@.query, final(self)@.filtered),
    {
        self.sort_by = by;
        self.sort_entries();
        self.apply_filter();
    }

    /// Changes the search text and re-filters.
    pub fn set_search_query(&mut self, query: String)
        ensures
            final(self)@ == (ExplorerView { query: query@, filtered: final(self)@.filtered, ..old(self)@ }),
            is_filter_result(old(self)@.entries, query@, final(self)@.filtered),
    {
        self.search_query = query;
        self.apply_filter();
    }

    /// Switches between showing and hiding hidden entries; the folder must
    /// then be read again (returns `true`).
    pub fn toggle_hidden(&mut self) -> (reload: bool)
        ensures
            reload,
            final(self)@ == (ExplorerView { show_hidden: !old(self)@.show_hidden, ..old(self)@ }),
    {
        self.show_hidden = !self.show_hidden;
        true
    }

    /// Changes the layout of the file list.
    pub fn set_view_mode(&mut self, mode: ViewMode)
        ensures
            final(self)@ == (ExplorerView { view_mode: mode, ..old(self)@ }),
    {
        self.view_mode = mode;
    }

    /// Selects a row of the shown entries.
    pub fn select(&mut self, row: usize)
        ensures
            final(self)@ == (ExplorerView { selected: Some(row), ..old(self)@ }),
    {
        self.selected_file = Some(row);
    }

    // ─── history ───────────────────────────────────────────────────────────

    /// Moves to another folder. Returns whether the folder changed (and must
    /// be read); moving to the folder already shown does nothing.
    pub fn navigate_to(&mut self, path: String) -> (changed: bool)
        ensures
            history_consistent(final(self)@),
            changed == !same_folder(path@, old(self)@.current_path),
            final(self)@ == navigated(old(self)@, path@),
            changed ==> final(self)@ == moved_to(old(self)@, path@),
            !changed ==> final(self)@ == old(self)@,
    {
        proof {
            use_type_invariant(&self.history);
        }
        if paths_equal(path.as_str(), self.history.current().as_str()) {
            return false;
        }
        self.history.visit(path);
        true
    }

    /// Goes back one step in the history. Returns whether it did (the folder
    /// must then be read).
    pub fn go_back(&mut self) -> (moved: bool)
        ensures
            history_consistent(final(self)@),
            moved == can_back(old(self)@),
            moved ==> final(self)@ == went_back(old(self)@),
            !moved ==> final(self)@ == old(self)@,
    {
        proof {
            use_type_invariant(&self.history);
        }
        self.history.back()
    }

    /// Goes forward one step in the history. Returns whether it did.
    pub fn go_forward(&mut self) -> (moved: bool)
        ensures
            history_consistent(final(self)@),
            moved == can_forward(old(self)@),
            moved ==> final(self)@ == went_forward(old(self)@),
            !moved ==> final(self)@ == old(self)@,
    {
        proof {
            use_type_invariant(&self.history);
        }
        self.history.forward()
    }

    /// Moves to the parent folder, if there is one. Returns whether the
    /// folder changed.
    pub fn go_up(&mut self) -> (changed: bool)
        ensures
            history_consistent(final(self)@),
            parent_of(old(self)@.current_path) is None ==> !changed && final(self)@ == old(self)@,
            parent_of(old(self)@.current_path) matches Some(p) ==> {
                &&& changed == !same_folder(p, old(self)@.current_path)
                &&& changed ==> final(self)@ == moved_to(old(self)@, p)
                &&& !changed ==> final(self)@ == old(self)@
            },
    {
        proof {
            use_type_invariant(&self.history);
        }
        match path_parent(self.history.current().as_str()) {
            Some(p) => self.navigate_to(p),
            None => false,
        }
    }
}


// ─── notices ────────────────────────────────────────────────────────────────

/// Nanoseconds a notice stays on screen.
pub const NOTICE_LIFETIME: u64 = 5_000_000_000;

/// A notice is still shown at time `now` while less than five seconds have
/// passed since it was raised (no time passes for a notice from the future).
pub open spec fn is_alive(n: NoticeView, now: nat) -> bool {
    (if now >= n.created { now - n.created } else { 0 }) < NOTICE_LIFETIME
}

/// The notices of `s` still shown at `now`, in order.
pub open spec fn alive_notices(s: Seq<NoticeView>, now: nat) -> Seq<NoticeView>
    decreases s.len(),
{
    if s.len() == 0 {
        s
    } else if is_alive(s.last(), now) {
        alive_notices(s.drop_last(), now).push(s.last())
    } else {
        alive_notices(s.drop_last(), now)
    }
}

fn keep_alive(v: Vec<Notice>, now: u64) -> (out: Vec<Notice>)
    ensures
        notices_view(out@) == alive_notices(notices_view(v@), now as nat),
{
    let ghost input = notices_view(v@);
    let mut rest = v;
    let mut kept_rev: Vec<Notice> = Vec::new();
    while rest.len() > 0
        invariant
            input == notices_view(v@),
            alive_notices(input, now as nat) == alive_notices(notices_view(rest@), now as nat)
                + notices_view(kept_rev@).reverse(),
        decreases rest@.len(),
    {
        let ghost before = rest@;
        let ghost before_kept = kept_rev@;
        let n = rest.pop().unwrap();
        proof {
            assert(notices_view(before) =~= notices_view(rest@).push(n@));
            assert(notices_view(before).drop_last() =~= notices_view(rest@));
        }
        if n.created <= now {
            if now - n.created < NOTICE_LIFETIME {
                kept_rev.push(n);
            }
        } else {
            kept_rev.push(n);
        }
        proof {
            if notices_view(kept_rev@).len() > notices_view(before_kept).len() {
                assert(notices_view(kept_rev@).reverse() =~= seq![n@] + notices_view(before_kept).reverse());
            } else {
                assert(kept_rev@ == before_kept);
            }
        }
    }
    proof {
        assert(alive_notices(notices_view(rest@), now as nat) =~= Seq::<NoticeView>::empty());
    }
    let out = crate::listing::reverse_vec(kept_rev);
    proof {
        assert(notices_view(out@) =~= notices_view(kept_rev@).reverse());
    }
    out
}

impl FileExplorer {
    /// Advances the explorer's clock to `now` (nanoseconds) and drops the
    /// notices older than five seconds.
    pub fn tick(&mut self, now: u64)
        ensures
            final(self)@ == (ExplorerView {
                clock: now as nat,
                notices: alive_notices(old(self)@.notices, now as nat),
                ..old(self)@
            }),
    {
        self.clock = now;
        let mut taken: Vec<Notice> = Vec::new();
        std::mem::swap(&mut taken, &mut self.notifications);
        self.notifications = keep_alive(taken, now);
    }

    /// Raises a notice at time `now` (nanoseconds).
    pub fn push_notification(&mut self, message: String, color: Rgb, now: u64)
        ensures
            final(self)@ == notified_at(old(self)@, message@, color, now as nat),
    {
        let n = Notice { message, color, created: now };
        self.notifications.push(n);
        proof {
            assert(notices_view(self.notifications@) =~= old(self)@.notices.push(
                NoticeView { message: n.message@, color, created: now as nat },
            ));
        }
    }

    /// Raises a notice at the time of the current frame (the clock as last
    /// advanced by `tick`); used by the operations the user starts within a
    /// frame.
    fn notify(&mut self, message: String, color: Rgb)
        ensures
            final(self)@ == notified(old(self)@, message@, color),
    {
        let now = self.clock;
        self.push_notification(message, color, now);
    }
}


// ─── selection and file operations ──────────────────────────────────────────

/// The entry on the selected row, if the selection points at one.
pub open spec fn selected_entry(v: ExplorerView) -> Option<DirEntry> {
    match v.selected {
        Some(i) => if i < v.filtered.len() && v.filtered[i as int] < v.entries.len() {
            Some(v.entries[v.filtered[i as int] as int])
        } else {
            None
        },
        None => None,
    }
}

/// `opening` (which ends in a quote), the name and a closing quote.
pub open spec fn quoted(opening: Seq<char>, name: Seq<char>) -> Seq<char> {
    opening + name + "\""@
}

/// The state after putting `path` on the clipboard for `op`, with the notice
/// that says so.
pub open spec fn clipped(v: ExplorerView, path: Seq<char>, name: Seq<char>, op: FileOperation) -> ExplorerView {
    let with_clip = ExplorerView { clipboard: Some((path, op)), ..v };
    if op == FileOperation::Copy {
        notified(with_clip, quoted("Copied \""@, name), rgb(80, 180, 120))
    } else {
        notified(with_clip, quoted("Cut \""@, name), rgb(210, 160, 50))
    }
}

/// What pasting does, as plain values.
pub enum PasteView {
    Nothing,
    Unnamed,
    Go { source: Seq<char>, dest: Seq<char>, op: FileOperation },
}

/// What pasting asks the caller to do.
#[derive(Debug)]
pub enum PasteStep {
    /// The clipboard is empty.
    Nothing,
    /// The clipboard path has no file name, which the explorer cannot paste
    /// (the caller treats it as a fatal error).
    Unnamed,
    /// Copy or move `source` to `dest`, then read the folder again.
    Go { source: String, dest: String, op: FileOperation },
}

impl View for PasteStep {
    type V = PasteView;

    open spec fn view(&self) -> PasteView {
        match self {
            PasteStep::Nothing => PasteView::Nothing,
            PasteStep::Unnamed => PasteView::Unnamed,
            PasteStep::Go { source, dest, op } => PasteView::Go { source: source@, dest: dest@, op: *op },
        }
    }
}

/// The state after pasting and what the caller is to do: the file goes into
/// the current folder under its own name; a cut empties the clipboard.
pub open spec fn paste_outcome(v: ExplorerView) -> (ExplorerView, PasteView) {
    match v.clipboard {
        None => (v, PasteView::Nothing),
        Some((source, op)) => match file_name_of(source) {
            None => (v, PasteView::Unnamed),
            Some(name) => {
                let cleared = if op == FileOperation::Cut { ExplorerView { clipboard: None, ..v } } else { v };
                (
                    notified(cleared, "Pasted successfully"@, rgb(80, 180, 120)),
                    PasteView::Go { source, dest: joined(v.current_path, name), op },
                )
            },
        },
    }
}

/// The entry to delete, as plain values: (path, is a folder, name).
pub open spec fn target_view(t: Option<DeleteTarget>) -> Option<(Seq<char>, bool, Seq<char>)> {
    match t {
        Some(t) => Some((t.path@, t.is_dir, t.name@)),
        None => None,
    }
}

/// The entry to delete: (path, is a folder, name) of the selected entry.
pub open spec fn delete_target_of(v: ExplorerView) -> Option<(Seq<char>, bool, Seq<char>)> {
    match selected_entry(v) {
        Some(e) => Some((e.path@, e.is_dir, e.name@)),
        None => None,
    }
}

/// An entry the caller is to delete.
#[derive(Debug)]
pub struct DeleteTarget {
    pub path: String,
    pub is_dir: bool,
    pub name: String,
}

/// The name of the folder created by the `attempt`-th try: "New Folder",
/// then "New Folder (1)", "New Folder (2)", ...
pub open spec fn new_folder_name(attempt: nat) -> Seq<char> {
    if attempt == 0 {
        "New Folder"@
    } else {
        "New Folder ("@ + crate::text::decimal(attempt) + ")"@
    }
}

/// What finishing a rename does, as plain values.
pub enum RenameView {
    Skip,
    Move { from: Seq<char>, to: Seq<char> },
    NoParent,
}

/// What finishing a rename asks the caller to do.
#[derive(Debug)]
pub enum RenameStep {
    /// Nothing to move; read the folder again.
    Skip,
    /// Move `from` to `to`, then read the folder again.
    Move { from: String, to: String },
    /// The entry's path has no parent folder (the caller treats it as a
    /// fatal error).
    NoParent,
}

impl View for RenameStep {
    type V = RenameView;

    open spec fn view(&self) -> RenameView {
        match self {
            RenameStep::Skip => RenameView::Skip,
            RenameStep::Move { from, to } => RenameView::Move { from: from@, to: to@ },
            RenameStep::NoParent => RenameView::NoParent,
        }
    }
}

/// What finishing the rename of row `row` to `new_name` asks for: nothing for
/// an empty name or a row without an entry, otherwise moving the entry to
/// `new_name` in its folder.
pub open spec fn rename_outcome(v: ExplorerView, row: usize, new_name: Seq<char>) -> RenameView {
    if new_name.len() == 0 || row >= v.filtered.len() || v.filtered[row as int] >= v.entries.len() {
        RenameView::Skip
    } else {
        let e = v.entries[v.filtered[row as int] as int];
        match parent_of(e.path@) {
            Some(p) => RenameView::Move { from: e.path@, to: joined(p, new_name) },
            None => RenameView::NoParent,
        }
    }
}

impl FileExplorer {
    fn selected_entry_index(&self) -> (r: Option<usize>)
        ensures
            r matches Some(ei) ==> ei < self@.entries.len() && selected_entry(self@) == Some(self@.entries[ei as int]),
            r is None ==> selected_entry(self@) is None,
    {
        match self.selected_file {
            Some(i) => {
                if i < self.filtered_entries.len() {
                    let ei = self.filtered_entries[i];
                    if ei < self.entries.len() {
                        return Some(ei);
                    }
                }
                None
            },
            None => None,
        }
    }

    fn clip_entry(&mut self, ei: usize, op: FileOperation)
        requires
            ei < old(self)@.entries.len(),
        ensures
            final(self)@ == clipped(old(self)@, old(self)@.entries[ei as int].path@, old(self)@.entries[ei as int].name@, op),
    {
        let path = String::from_str(self.entries[ei].path.as_str());
        let name = self.entries[ei].name.as_str();
        let (message, color) = match op {
            FileOperation::Copy => (concat3("Copied \"", name, "\""), crate::theme::col_success()),
            FileOperation::Cut => (concat3("Cut \"", name, "\""), crate::theme::col_warn()),
        };
        self.clipboard = Some((path, op));
        self.notify(message, color);
    }

    /// Puts the selected entry on the clipboard for copying.
    pub fn copy_file(&mut self)
        ensures
            selected_entry(old(self)@) matches Some(e) ==> final(self)@ == clipped(old(self)@, e.path@, e.name@, FileOperation::Copy),
            selected_entry(old(self)@) is None ==> final(self)@ == old(self)@,
    {
        if let Some(ei) = self.selected_entry_index() {
            self.clip_entry(ei, FileOperation::Copy);
        }
    }

    /// Puts the selected entry on the clipboard for moving.
    pub fn cut_file(&mut self)
        ensures
            selected_entry(old(self)@) matches Some(e) ==> final(self)@ == clipped(old(self)@, e.path@, e.name@, FileOperation::Cut),
            selected_entry(old(self)@) is None ==> final(self)@ == old(self)@,
    {
        if let Some(ei) = self.selected_entry_index() {
            self.clip_entry(ei, FileOperation::Cut);
        }
    }

    /// Pastes the clipboard into the current folder; the caller does the
    /// copy or move and then reads the folder again.
    pub fn paste_file(&mut self) -> (step: PasteStep)
        ensures
            (final(self)@, step@) == paste_outcome(old(self)@),
    {
        let (source, op) = match &self.clipboard {
            None => {
                return PasteStep::Nothing;
            },
            Some((p, op)) => (String::from_str(p.as_str()), *op),
        };
        let name = match path_file_name(source.as_str()) {
            None => {
                return PasteStep::Unnamed;
            },
            Some(n) => n,
        };
        let dest = path_join(self.history.current().as_str(), name.as_str());
        if op == FileOperation::Cut {
            self.clipboard = None;
        }
        self.notify(String::from_str("Pasted successfully"), crate::theme::col_success());
        PasteStep::Go { source, dest, op }
    }

    /// The selected entry, which the caller is to delete.
    pub fn delete_target(&self) -> (t: Option<DeleteTarget>)
        ensures
            target_view(t) == delete_target_of(self@),
    {
        match self.selected_entry_index() {
            Some(ei) => Some(DeleteTarget {
                path: String::from_str(self.entries[ei].path.as_str()),
                is_dir: self.entries[ei].is_dir,
                name: String::from_str(self.entries[ei].name.as_str()),
            }),
            None => None,
        }
    }

    /// Takes in how deleting the entry named `name` went: an error message,
    /// or the selection cleared and a notice (the folder must then be read
    /// again, which is returned).
    pub fn finish_delete(&mut self, name: &str, result: Result<(), String>) -> (reload: bool)
        ensures
            result matches Err(e) ==> !reload && final(self)@ == (ExplorerView {
                error: Some("Failed to delete: "@ + e@),
                ..old(self)@
            }),
            result is Ok ==> reload && final(self)@ == notified(
                ExplorerView { selected: None, ..old(self)@ },
                quoted("Deleted \""@, name@),
                rgb(210, 70, 70),
            ),
    {
        match result {
            Err(e) => {
                self.error_message = Some(concat("Failed to delete: ", e.as_str()));
                false
            },
            Ok(()) => {
                self.selected_file = None;
                self.notify(concat3("Deleted \"", name, "\""), crate::theme::col_danger());
                true
            },
        }
    }

    /// The path to try for a new folder on the `attempt`-th try.
    pub fn new_folder_candidate(&self, attempt: u32) -> (p: String)
        ensures
            p@ == joined(self@.current_path, new_folder_name(attempt as nat)),
    {
        let name = if attempt == 0 {
            String::from_str("New Folder")
        } else {
            let n = crate::text::decimal_string(attempt as u64);
            concat3("New Folder (", n.as_str(), ")")
        };
        path_join(self.history.current().as_str(), name.as_str())
    }

    /// Records that a new folder was created; the folder must be read again.
    pub fn folder_created(&mut self) -> (reload: bool)
        ensures
            reload,
            final(self)@ == notified(old(self)@, "Created \"New Folder\""@, rgb(80, 180, 120)),
    {
        self.notify(String::from_str("Created \"New Folder\""), crate::theme::col_success());
        true
    }

    /// Updates the text of the rename in progress.
    pub fn set_rename_text(&mut self, text: String)
        ensures
            old(self)@.renaming matches Some((row, _)) ==> final(self)@ == (ExplorerView {
                renaming: Some((row, text@)),
                ..old(self)@
            }),
            old(self)@.renaming is None ==> final(self)@ == old(self)@,
    {
        match self.renaming {
            Some((row, _)) => {
                self.renaming = Some((row, text));
            },
            None => {},
        }
    }

    /// Ends a rename of row `row` to `new_name` (empty to cancel). Unless the
    /// entry has no parent folder, the rename is closed and the caller moves
    /// the entry (if asked) and reads the folder again.
    pub fn finish_rename(&mut self, row: usize, new_name: &str) -> (step: RenameStep)
        ensures
            step@ == rename_outcome(old(self)@, row, new_name@),
            step@ is NoParent ==> final(self)@ == old(self)@,
            !(step@ is NoParent) ==> final(self)@ == (ExplorerView { renaming: None, ..old(self)@ }),
    {
        let mut step = RenameStep::Skip;
        if new_name.unicode_len() > 0 && row < self.filtered_entries.len() {
            let ei = self.filtered_entries[row];
            if ei < self.entries.len() {
                match path_parent(self.entries[ei].path.as_str()) {
                    Some(p) => {
                        step = RenameStep::Move {
                            from: String::from_str(self.entries[ei].path.as_str()),
                            to: path_join(p.as_str(), new_name),
                        };
                    },
                    None => {
                        return RenameStep::NoParent;
                    },
                }
            }
        }
        self.renaming = None;
        step
    }
}


// ─── context menu ───────────────────────────────────────────────────────────

/// The entries of the context menu.
#[derive(Clone, Copy, Debug, PartialEq, Eq, Structural)]
pub enum MenuAction {
    Open,
    Rename,
    Copy,
    Cut,
    Paste,
    Properties,
    ShareLan,
    ShareLink,
    Delete,
}

/// What a menu choice asks the caller to do, as plain values.
pub enum EffectView {
    Nothing,
    Reload,
    OpenFile(Seq<char>),
    Paste(PasteView),
    Delete(Option<(Seq<char>, bool, Seq<char>)>),
    StartDiscovery(Seq<char>),
    CopyText(Seq<char>),
}

/// What a menu choice asks the caller to do.
#[derive(Debug)]
pub enum MenuEffect {
    /// Nothing.
    Nothing,
    /// Read the (new) current folder.
    Reload,
    /// Open the file with the system's default program.
    OpenFile(String),
    /// Carry out the paste, then read the folder.
    Paste(PasteStep),
    /// Delete this entry (if any) and report back with `finish_delete`.
    Delete(Option<DeleteTarget>),
    /// Look for peers on the LAN to send this file to.
    StartDiscovery(String),
    /// Put this text on the system clipboard.
    CopyText(String),
}

impl View for MenuEffect {
    type V = EffectView;

    open spec fn view(&self) -> EffectView {
        match self {
            MenuEffect::Nothing => EffectView::Nothing,
            MenuEffect::Reload => EffectView::Reload,
            MenuEffect::OpenFile(p) => EffectView::OpenFile(p@),
            MenuEffect::Paste(s) => EffectView::Paste(s@),
            MenuEffect::Delete(t) => EffectView::Delete(target_view(*t)),
            MenuEffect::StartDiscovery(p) => EffectView::StartDiscovery(p@),
            MenuEffect::CopyText(t) => EffectView::CopyText(t@),
        }
    }
}

/// The first position of `x` in `s`.
pub open spec fn first_position(s: Seq<usize>, x: usize) -> Option<nat>
    decreases s.len(),
{
    if s.len() == 0 {
        None
    } else if s[0] == x {
        Some(0)
    } else {
        match first_position(s.drop_first(), x) {
            Some(k) => Some(k + 1),
            None => None,
        }
    }
}

/// The state once LAN discovery for `path` has started.
pub open spec fn discovering(v: ExplorerView, path: Seq<char>) -> ExplorerView {
    ExplorerView { lan_file: Some(path), lan: LanView::Discovering, ..v }
}

/// What opening entry `e` does: a folder other than the one shown is moved
/// to and read; a file is opened with the system's default program.
pub open spec fn open_outcome(v: ExplorerView, e: DirEntry) -> (ExplorerView, EffectView) {
    if e.is_dir {
        if same_folder(e.path@, v.current_path) {
            (v, EffectView::Nothing)
        } else {
            (moved_to(v, e.path@), EffectView::Reload)
        }
    } else {
        (v, EffectView::OpenFile(e.path@))
    }
}

/// The entry shown on row `row`, if there is one.
pub open spec fn row_entry(v: ExplorerView, row: usize) -> Option<DirEntry> {
    if row < v.filtered.len() && v.filtered[row as int] < v.entries.len() {
        Some(v.entries[v.filtered[row as int] as int])
    } else {
        None
    }
}

/// What opening row `row` (a double click) does.
pub open spec fn row_open_outcome(v: ExplorerView, row: usize) -> (ExplorerView, EffectView) {
    match row_entry(v, row) {
        Some(e) => open_outcome(v, e),
        None => (v, EffectView::Nothing),
    }
}

/// What the context menu does: it closes when an entry is chosen or, after
/// the frame it opened in, on a click outside it; the chosen entry then acts
/// on the entry the menu is for.
pub open spec fn menu_outcome(v: ExplorerView, action: Option<MenuAction>, clicked_outside: bool, frame: nat) -> (ExplorerView, EffectView) {
    match v.menu {
        None => (v, EffectView::Nothing),
        Some(m) => if m.entry_idx >= v.entries.len() {
            (ExplorerView { menu: None, ..v }, EffectView::Nothing)
        } else {
            let e = v.entries[m.entry_idx as int];
            let close = action is Some || (frame > m.opened_frame && clicked_outside);
            let c = if close { ExplorerView { menu: None, ..v } } else { v };
            let di = first_position(v.filtered, m.entry_idx);
            match action {
                None => (c, EffectView::Nothing),
                Some(MenuAction::Open) => open_outcome(c, e),
                Some(MenuAction::Rename) => match di {
                    Some(d) => (ExplorerView { renaming: Some((d as usize, e.name@)), selected: Some(d as usize), ..c }, EffectView::Nothing),
                    None => (c, EffectView::Nothing),
                },
                Some(MenuAction::Copy) => (clipped(c, e.path@, e.name@, FileOperation::Copy), EffectView::Nothing),
                Some(MenuAction::Cut) => (clipped(c, e.path@, e.name@, FileOperation::Cut), EffectView::Nothing),
                Some(MenuAction::Paste) => (paste_outcome(c).0, EffectView::Paste(paste_outcome(c).1)),
                Some(MenuAction::Delete) => {
                    let d = match di {
                        Some(d) => ExplorerView { selected: Some(d as usize), ..c },
                        None => c,
                    };
                    (d, EffectView::Delete(delete_target_of(d)))
                },
                Some(MenuAction::Properties) => (ExplorerView { properties: Some(e.path@), ..c }, EffectView::Nothing),
                Some(MenuAction::ShareLan) => if !e.is_dir {
                    (discovering(c, e.path@), EffectView::StartDiscovery(e.path@))
                } else {
                    (notified(c, "LAN send: select a file, not a folder"@, rgb(210, 160, 50)), EffectView::Nothing)
                },
                Some(MenuAction::ShareLink) => (
                    notified(c, "Share link copied to clipboard"@, rgb(80, 180, 120)),
                    EffectView::CopyText(crate::format::share_link_text(e.name@)),
                ),
            }
        },
    }
}

fn first_index(s: &Vec<usize>, x: usize) -> (r: Option<usize>)
    ensures
        r matches Some(k) ==> first_position(s@, x) == Some(k as nat) && k < s@.len(),
        r is None ==> first_position(s@, x) is None,
{
    let mut i: usize = 0;
    assert(s@.skip(0) =~= s@);
    while i < s.len()
        invariant
            i <= s@.len(),
            first_position(s@, x) == (match first_position(s@.skip(i as int), x) {
                Some(k) => Some((k + i) as nat),
                None => None::<nat>,
            }),
        decreases s@.len() - i,
    {
        assert(s@.skip(i as int)[0] == s@[i as int]);
        if s[i] == x {
            return Some(i);
        }
        assert(s@.skip(i as int).drop_first() =~= s@.skip(i + 1));
        i = i + 1;
    }
    None
}

impl FileExplorer {
    /// Opens the context menu for entry `entry_idx`, shown on row `row`, in
    /// frame `frame`; the row becomes the selection.
    pub fn open_context_menu(&mut self, row: usize, entry_idx: usize, frame: u64)
        ensures
            final(self)@ == (ExplorerView {
                menu: Some(ContextMenu { entry_idx, opened_frame: frame }),
                selected: Some(row),
                ..old(self)@
            }),
    {
        self.context_menu = Some(ContextMenu { entry_idx, opened_frame: frame });
        self.selected_file = Some(row);
    }

    /// The entry the open menu is for; a menu for an entry that is gone is
    /// closed.
    pub fn menu_target(&mut self) -> (r: Option<usize>)
        ensures
            old(self)@.menu is None ==> r is None && final(self)@ == old(self)@,
            old(self)@.menu matches Some(m) ==> {
                if m.entry_idx < old(self)@.entries.len() {
                    r == Some(m.entry_idx) && final(self)@ == old(self)@
                } else {
                    r is None && final(self)@ == (ExplorerView { menu: None, ..old(self)@ })
                }
            },
    {
        match self.context_menu {
            None => None,
            Some(m) => {
                if m.entry_idx < self.entries.len() {
                    Some(m.entry_idx)
                } else {
                    self.context_menu = None;
                    None
                }
            },
        }
    }

    /// Handles the context menu for one frame: `action` is the entry chosen,
    /// if any, and `clicked_outside` whether a click landed outside the menu.
    #[verifier::rlimit(40)]
    pub fn menu_action(&mut self, action: Option<MenuAction>, clicked_outside: bool, frame: u64) -> (effect: MenuEffect)
        ensures
            (final(self)@, effect@) == menu_outcome(old(self)@, action, clicked_outside, frame as nat),
            history_consistent(final(self)@),
    {
        proof {
            use_type_invariant(&self.history);
        }
        let m = match self.context_menu {
            None => {
                return MenuEffect::Nothing;
            },
            Some(m) => m,
        };
        let ei = m.entry_idx;
        if ei >= self.entries.len() {
            self.context_menu = None;
            return MenuEffect::Nothing;
        }
        let epath = String::from_str(self.entries[ei].path.as_str());
        let ename = String::from_str(self.entries[ei].name.as_str());
        let eis_dir = self.entries[ei].is_dir;
        let close = action.is_some() || (frame > m.opened_frame && clicked_outside);
        if close {
            self.context_menu = None;
        }
        let di = first_index(&self.filtered_entries, ei);
        match action {
            None => MenuEffect::Nothing,
            Some(MenuAction::Open) => {
                if eis_dir {
                    if self.navigate_to(epath) {
                        MenuEffect::Reload
                    } else {
                        MenuEffect::Nothing
                    }
                } else {
                    MenuEffect::OpenFile(epath)
                }
            },
            Some(MenuAction::Rename) => {
                if let Some(d) = di {
                    self.renaming = Some((d, ename));
                    self.selected_file = Some(d);
                }
                MenuEffect::Nothing
            },
            Some(MenuAction::Copy) => {
                self.clip_entry(ei, FileOperation::Copy);
                MenuEffect::Nothing
            },
            Some(MenuAction::Cut) => {
                self.clip_entry(ei, FileOperation::Cut);
                MenuEffect::Nothing
            },
            Some(MenuAction::Paste) => MenuEffect::Paste(self.paste_file()),
            Some(MenuAction::Delete) => {
                if let Some(d) = di {
                    self.selected_file = Some(d);
                }
                MenuEffect::Delete(self.delete_target())
            },
            Some(MenuAction::Properties) => {
                self.properties_dialog = Some(epath);
                MenuEffect::Nothing
            },
            Some(MenuAction::ShareLan) => {
                if !eis_dir {
                    self.start_lan_discover(String::from_str(epath.as_str()));
                    MenuEffect::StartDiscovery(epath)
                } else {
                    self.notify(
                        String::from_str("LAN send: select a file, not a folder"),
                        crate::theme::col_warn(),
                    );
                    MenuEffect::Nothing
                }
            },
            Some(MenuAction::ShareLink) => {
                let link = crate::format::share_link(ename.as_str());
                self.notify(
                    String::from_str("Share link copied to clipboard"),
                    crate::theme::col_success(),
                );
                MenuEffect::CopyText(link)
            },
        }
    }

    /// Opens the entry on row `row` (a double click): moves into a folder or
    /// asks the caller to open a file.
    pub fn open_row(&mut self, row: usize) -> (effect: MenuEffect)
        ensures
            (final(self)@, effect@) == row_open_outcome(old(self)@, row),
            history_consistent(final(self)@),
    {
        proof {
            use_type_invariant(&self.history);
        }
        if row < self.filtered_entries.len() {
            let ei = self.filtered_entries[row];
            if ei < self.entries.len() {
                let path = String::from_str(self.entries[ei].path.as_str());
                if self.entries[ei].is_dir {
                    if self.navigate_to(path) {
                        return MenuEffect::Reload;
                    } else {
                        return MenuEffect::Nothing;
                    }
                } else {
                    return MenuEffect::OpenFile(path);
                }
            }
        }
        MenuEffect::Nothing
    }

    /// Closes the properties dialog.
    pub fn close_properties(&mut self)
        ensures
            final(self)@ == (ExplorerView { properties: None, ..old(self)@ }),
    {
        self.properties_dialog = None;
    }
}

// ─── LAN sharing ────────────────────────────────────────────────────────────

/// A message from the background receiver.
#[derive(Debug)]
pub enum LanServerMsg {
    /// A file arrived and was saved at `dest`.
    FileReceived { name: String, dest: String },
    /// Receiving failed.
    Error(String),
}

/// The folder a received file landed in, as the notice names it.
pub open spec fn landing_folder(dest: Seq<char>) -> Seq<char> {
    match parent_of(dest) {
        Some(p) => p,
        None => "home"@,
    }
}

/// The state after a message from the receiver, and whether the current
/// folder must be read again (a file landed in it).
pub open spec fn server_message_outcome(v: ExplorerView, msg: LanServerMsg, now: nat) -> (ExplorerView, bool) {
    match msg {
        LanServerMsg::FileReceived { name, dest } => (
            notified_at(v, "📥 Received \""@ + name@ + "\" → "@ + landing_folder(dest@), rgb(80, 180, 120), now),
            parent_of(dest@) matches Some(p) && same_folder(p, v.current_path),
        ),
        LanServerMsg::Error(e) => (notified_at(v, "LAN error: "@ + e@, rgb(210, 70, 70), now), false),
    }
}

/// Whether the LAN dialog offers to look for peers again.
pub open spec fn can_rescan(l: LanView) -> bool {
    l is Ready || l is Failed
}

impl FileExplorer {
    /// Starts looking for peers to send `path` to.
    pub fn start_lan_discover(&mut self, path: String)
        ensures
            final(self)@ == discovering(old(self)@, path@),
    {
        self.lan_file_path = Some(path);
        self.lan_state = LanTransferState::Discovering;
    }

    /// Takes in the peers discovery found.
    pub fn lan_peers_found(&mut self, peers: Vec<LanPeer>)
        ensures
            final(self)@ == (ExplorerView { lan: LanView::Ready(peers_view(peers@)), ..old(self)@ }),
    {
        self.lan_state = LanTransferState::Ready(peers);
    }

    /// Starts sending the shared file to `peer`; returns the file's path and
    /// the peer's address for the caller to send to, or `None` (and changes
    /// nothing) when no file is being shared.
    pub fn start_lan_send(&mut self, peer: LanPeer) -> (r: Option<(String, String)>)
        ensures
            old(self)@.lan_file is None ==> r is None && final(self)@ == old(self)@,
            old(self)@.lan_file matches Some(f) ==> {
                &&& r matches Some((path, addr)) && path@ == f && addr@ == peer.addr@
                &&& final(self)@ == (ExplorerView { lan: LanView::Sending(peer.display@), ..old(self)@ })
            },
    {
        let path = match &self.lan_file_path {
            None => {
                return None;
            },
            Some(p) => String::from_str(p.as_str()),
        };
        self.lan_state = LanTransferState::Sending { peer_name: peer.display };
        Some((path, peer.addr))
    }

    /// Takes in how sending went.
    pub fn lan_transfer_finished(&mut self, result: Result<(), String>)
        ensures
            result is Ok ==> final(self)@ == (ExplorerView { lan: LanView::Done("File sent successfully!"@), ..old(self)@ }),
            result matches Err(e) ==> final(self)@ == (ExplorerView { lan: LanView::Failed(e@), ..old(self)@ }),
    {
        self.lan_state = match result {
            Ok(()) => LanTransferState::Done(String::from_str("File sent successfully!")),
            Err(e) => LanTransferState::Failed(e),
        };
    }

    /// Takes in a message from the background receiver, arrived at time `now`
    /// (nanoseconds, which stamps its notice); returns whether the current
    /// folder must be read again.
    pub fn lan_server_message(&mut self, msg: LanServerMsg, now: u64) -> (reload: bool)
        ensures
            (final(self)@, reload) == server_message_outcome(old(self)@, msg, now as nat),
    {
        match msg {
            LanServerMsg::FileReceived { name, dest } => {
                let parent = path_parent(dest.as_str());
                let folder = match &parent {
                    Some(p) => String::from_str(p.as_str()),
                    None => String::from_str("home"),
                };
                let mut message = String::from_str("📥 Received \"");
                message.append(name.as_str());
                message.append("\" → ");
                message.append(folder.as_str());
                self.push_notification(message, crate::theme::col_success(), now);
                match parent {
                    Some(p) => paths_equal(p.as_str(), self.history.current().as_str()),
                    None => false,
                }
            },
            LanServerMsg::Error(e) => {
                self.push_notification(concat("LAN error: ", e.as_str()), crate::theme::col_danger(), now);
                false
            },
        }
    }

    /// Whether the LAN dialog offers to look for peers again: once peers
    /// were found or sending failed.
    pub fn rescan_offered(&self) -> (r: bool)
        ensures
            r == can_rescan(self@.lan),
    {
        match &self.lan_state {
            LanTransferState::Ready(_) => true,
            LanTransferState::Failed(_) => true,
            _ => false,
        }
    }

    /// Looks for peers again for the file being shared, when the dialog
    /// offers it; returns the file's path for the caller to start discovery
    /// with, or `None` (and changes nothing).
    pub fn rescan(&mut self) -> (r: Option<String>)
        ensures
            can_rescan(old(self)@.lan) && old(self)@.lan_file is Some ==> {
                &&& r matches Some(p) && old(self)@.lan_file == Some(p@)
                &&& final(self)@ == discovering(old(self)@, old(self)@.lan_file->0)
            },
            !(can_rescan(old(self)@.lan) && old(self)@.lan_file is Some) ==> r is None && final(self)@ == old(self)@,
    {
        if !self.rescan_offered() {
            return None;
        }
        let path = match &self.lan_file_path {
            None => {
                return None;
            },
            Some(p) => String::from_str(p.as_str()),
        };
        self.start_lan_discover(String::from_str(path.as_str()));
        Some(path)
    }

    /// Closes the LAN dialog.
    pub fn close_lan_dialog(&mut self)
        ensures
            final(self)@ == (ExplorerView { lan: LanView::Idle, lan_file: None, ..old(self)@ }),
    {
        self.lan_state = LanTransferState::Idle;
        self.lan_file_path = None;
    }
}

} // verus!
