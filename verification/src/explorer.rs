//! The tree's state: which directories are expanded, which node is selected,
//! and where the context menu is anchored.
//!
//! The state changes only through [`update`], one [`FileAction`] at a time.
//! What each action does is the spec function [`step`]; the named operations
//! ([`State::toggle_expand`], [`State::select`], [`State::delete`], and the
//! menu's open and close) are its building blocks, each with its own spec
//! function. The laws at the end of the file are proved of those functions.

use crate::context_menu::MenuItem;
use crate::paths::PathSet;
use iced::Point;
use vstd::prelude::*;

verus! {

/// What the user did to the tree.
#[derive(Debug, Clone)]
pub enum FileAction {
    /// A node was clicked: its path, and whether it is a directory.
    Select(String, bool),
    /// A node was right-clicked: its path, and whether it is a directory.
    ContextMenu(String, bool),
    /// The context menu was dismissed.
    CloseContextMenu,
    /// "Delete" was chosen for the node with this path.
    DeleteItem(String),
    /// The cursor moved to this position.
    CursorMoved(Point),
}

/// An open context menu: the node it is for and where it is anchored.
#[derive(Debug, Clone)]
pub struct ContextMenuState {
    pub target_path: String,
    pub is_directory: bool,
    pub position: Point,
}

/// A context menu in contracts.
pub struct MenuView {
    pub target_path: Seq<char>,
    pub is_directory: bool,
    pub position: Point,
}

impl View for ContextMenuState {
    type V = MenuView;

    open spec fn view(&self) -> MenuView {
        MenuView {
            target_path: self.target_path@,
            is_directory: self.is_directory,
            position: self.position,
        }
    }
}

/// The tree's state in contracts.
pub struct StateView {
    pub expanded: Set<Seq<char>>,
    pub selected: Set<Seq<char>>,
    pub context_menu: Option<MenuView>,
    pub cursor_position: Point,
}

impl StateView {
    /// What holds of every state: both sets are finite, and at most one node
    /// is selected.
    pub open spec fn valid(self) -> bool {
        &&& self.expanded.finite()
        &&& self.selected.finite()
        &&& self.selected.len() <= 1
    }
}

/// The view of an optional menu.
spec fn menu_view(menu: Option<ContextMenuState>) -> Option<MenuView> {
    match menu {
        Some(m) => Some(m@),
        None => None,
    }
}

/// The expanded set after a toggle of `path`: membership flips for a
/// directory, and nothing changes for anything else.
pub open spec fn toggled(expanded: Set<Seq<char>>, path: Seq<char>, is_dir: bool) -> Set<
    Seq<char>,
> {
    if !is_dir {
        expanded
    } else if expanded.contains(path) {
        expanded.remove(path)
    } else {
        expanded.insert(path)
    }
}

/// The state after `toggle_expand`.
pub open spec fn after_toggle(s: StateView, path: Seq<char>, is_dir: bool) -> StateView {
    StateView { expanded: toggled(s.expanded, path, is_dir), ..s }
}

/// The state after `select`: a directory is toggled, `path` becomes the one
/// selected node, and the menu closes.
pub open spec fn after_select(s: StateView, path: Seq<char>, is_dir: bool) -> StateView {
    StateView {
        expanded: toggled(s.expanded, path, is_dir),
        selected: set![path],
        context_menu: None,
        ..s
    }
}

/// The state after `delete`: `path` is in neither set and the menu is closed.
pub open spec fn after_delete(s: StateView, path: Seq<char>) -> StateView {
    StateView {
        expanded: s.expanded.remove(path),
        selected: s.selected.remove(path),
        context_menu: None,
        ..s
    }
}

/// The state after the menu was opened for `path`: it is anchored at the last
/// cursor position, and replaces any menu that was open.
pub open spec fn after_menu_open(s: StateView, path: Seq<char>, is_dir: bool) -> StateView {
    StateView {
        context_menu: Some(
            MenuView { target_path: path, is_directory: is_dir, position: s.cursor_position },
        ),
        ..s
    }
}

/// The state after the menu was closed.
pub open spec fn after_menu_close(s: StateView) -> StateView {
    StateView { context_menu: None, ..s }
}

/// The state after the cursor moved to `position`.
pub open spec fn after_cursor_move(s: StateView, position: Point) -> StateView {
    StateView { cursor_position: position, ..s }
}

/// The state after `action`.
pub open spec fn step(s: StateView, action: FileAction) -> StateView {
    match action {
        FileAction::Select(path, is_dir) => after_select(s, path@, is_dir),
        FileAction::ContextMenu(path, is_dir) => after_menu_open(s, path@, is_dir),
        FileAction::CloseContextMenu => after_menu_close(s),
        FileAction::DeleteItem(path) => after_delete(s, path@),
        FileAction::CursorMoved(position) => after_cursor_move(s, position),
    }
}

/// The path that `action` asks the caller to remove from disk, if any.
pub open spec fn removal(action: FileAction) -> Option<Seq<char>> {
    match action {
        FileAction::DeleteItem(path) => Some(path@),
        _ => None,
    }
}

/// The tree's state.
pub struct State {
    expanded: PathSet,
    selected: PathSet,
    context_menu: Option<ContextMenuState>,
    cursor_position: Point,
}

impl View for State {
    type V = StateView;

    closed spec fn view(&self) -> StateView {
        StateView {
            expanded: self.expanded@,
            selected: self.selected@,
            context_menu: menu_view(self.context_menu),
            cursor_position: self.cursor_position,
        }
    }
}

impl Default for State {
    /// Nothing expanded, nothing selected, no menu. The cursor starts where
    /// the toolkit puts the origin of the surface.
    fn default() -> (s: Self)
        ensures
            s@.expanded == Set::<Seq<char>>::empty(),
            s@.selected == Set::<Seq<char>>::empty(),
            s@.context_menu is None,
            s@.valid(),
    {
        State {
            expanded: PathSet::new(),
            selected: PathSet::new(),
            context_menu: None,
            cursor_position: surface_origin(),
        }
    }
}

/// `iced::Point::ORIGIN`, the toolkit's constant for the origin of the
/// surface. Nothing is claimed of it.
#[verifier::external_body]
fn surface_origin() -> Point {
    Point::ORIGIN
}

impl State {
    /// At most one node is selected.
    #[verifier::type_invariant]
    spec fn exclusive(&self) -> bool {
        self.selected@.len() <= 1
    }

    /// A state that keeps the invariant has a valid view.
    proof fn lemma_valid(&self)
        requires
            self.exclusive(),
        ensures
            self@.valid(),
    {
        self.expanded.lemma_finite();
        self.selected.lemma_finite();
    }

    /// Whether the directory `path` shows its children.
    pub fn is_expanded(&self, path: &String) -> (b: bool)
        ensures
            b == self@.expanded.contains(path@),
    {
        self.expanded.contains(path)
    }

    /// Whether `path` is the selected node.
    pub fn is_selected(&self, path: &String) -> (b: bool)
        ensures
            b == self@.selected.contains(path@),
    {
        self.selected.contains(path)
    }

    /// The number of selected nodes: none or one.
    pub fn selected_count(&self) -> (n: usize)
        ensures
            n == self@.selected.len(),
            n <= 1,
            self@.valid(),
    {
        proof {
            use_type_invariant(self);
            self.lemma_valid();
        }
        self.selected.len()
    }

    /// The open context menu, if there is one.
    pub fn context_menu(&self) -> (menu: Option<&ContextMenuState>)
        ensures
            match menu {
                Some(m) => self@.context_menu == Some(m@),
                None => self@.context_menu is None,
            },
    {
        self.context_menu.as_ref()
    }

    /// The last cursor position that was reported.
    pub fn cursor_position(&self) -> (p: Point)
        ensures
            p == self@.cursor_position,
    {
        self.cursor_position
    }

    /// Flips whether the directory `path` is expanded. For anything that is
    /// not a directory, a path that no longer exists included, nothing
    /// changes.
    pub fn toggle_expand(&mut self, path: &String, is_dir: bool)
        ensures
            final(self)@ == after_toggle(old(self)@, path@, is_dir),
            final(self)@.valid(),
    {
        proof {
            use_type_invariant(&*self);
        }
        if is_dir {
            let mut expanded = PathSet::new();
            std::mem::swap(&mut self.expanded, &mut expanded);
            if expanded.contains(path) {
                expanded.remove(path);
            } else {
                expanded.insert(path.clone());
            }
            self.expanded = expanded;
        }
        proof {
            self.lemma_valid();
        }
    }

    /// Selects `path`, and nothing else. A directory is toggled as well. Any
    /// open context menu closes.
    pub fn select(&mut self, path: String, is_dir: bool)
        ensures
            final(self)@ == after_select(old(self)@, path@, is_dir),
            final(self)@.selected.len() == 1,
            final(self)@.valid(),
    {
        self.toggle_expand(&path, is_dir);
        let mut selected = PathSet::new();
        selected.insert(path);
        proof {
            assert(selected@ =~= set![path@]);
            assert(set![path@].len() == 1) by {
                assert(set![path@] =~= Set::<Seq<char>>::empty().insert(path@));
            }
        }
        self.selected = selected;
        self.context_menu = None;
        proof {
            self.lemma_valid();
        }
    }

    /// Forgets `path`: it is neither expanded nor selected afterwards, whether
    /// or not it was before. Any open context menu closes. Removing the node
    /// from disk is the caller's part, and its outcome changes nothing here.
    pub fn delete(&mut self, path: &String)
        ensures
            final(self)@ == after_delete(old(self)@, path@),
            !final(self)@.expanded.contains(path@),
            !final(self)@.selected.contains(path@),
            final(self)@.valid(),
    {
        proof {
            use_type_invariant(&*self);
            self.selected.lemma_finite();
        }
        let mut expanded = PathSet::new();
        std::mem::swap(&mut self.expanded, &mut expanded);
        expanded.remove(path);
        self.expanded = expanded;
        let mut selected = PathSet::new();
        std::mem::swap(&mut self.selected, &mut selected);
        let ghost before = selected@;
        selected.remove(path);
        proof {
            vstd::set_lib::lemma_len_subset(selected@, before);
        }
        self.selected = selected;
        self.context_menu = None;
        proof {
            self.lemma_valid();
        }
    }

    /// Opens the context menu for `target`, anchored at the last cursor
    /// position. A menu that was open is replaced.
    pub fn open_context_menu(&mut self, target: String, is_dir: bool)
        ensures
            final(self)@ == after_menu_open(old(self)@, target@, is_dir),
            final(self)@.valid(),
    {
        proof {
            use_type_invariant(&*self);
        }
        self.context_menu = Some(
            ContextMenuState {
                target_path: target,
                is_directory: is_dir,
                position: self.cursor_position,
            },
        );
        proof {
            self.lemma_valid();
        }
    }

    /// Closes the context menu, if one is open.
    pub fn close_context_menu(&mut self)
        ensures
            final(self)@ == after_menu_close(old(self)@),
            final(self)@.valid(),
    {
        proof {
            use_type_invariant(&*self);
        }
        self.context_menu = None;
        proof {
            self.lemma_valid();
        }
    }

    /// Records where the cursor is.
    pub fn cursor_moved(&mut self, position: Point)
        ensures
            final(self)@ == after_cursor_move(old(self)@, position),
            final(self)@.valid(),
    {
        proof {
            use_type_invariant(&*self);
        }
        self.cursor_position = position;
        proof {
            self.lemma_valid();
        }
    }
}

/// The entries of the context menu for the node at `target`: "Delete", which
/// removes it. The entry comes without an icon.
pub fn menu_items(target: &String) -> (items: Vec<MenuItem<FileAction>>)
    ensures
        items@.len() == 1,
        items@[0].label@ == "Delete"@,
        items@[0].icon is None,
        items@[0].action == FileAction::DeleteItem(*target),
{
    let mut items: Vec<MenuItem<FileAction>> = Vec::new();
    items.push(MenuItem::new("Delete", FileAction::DeleteItem(target.clone())));
    items
}

/// Applies one action to the state. Returns the path that the caller must now
/// remove from disk: the action's path for `DeleteItem` and `None` otherwise.
pub fn update(state: &mut State, action: FileAction) -> (request: Option<String>)
    ensures
        final(state)@ == step(old(state)@, action),
        final(state)@.valid(),
        match request {
            Some(path) => removal(action) == Some(path@),
            None => removal(action) is None,
        },
{
    match action {
        FileAction::Select(path, is_dir) => {
            state.select(path, is_dir);
            None
        },
        FileAction::ContextMenu(path, is_dir) => {
            state.open_context_menu(path, is_dir);
            None
        },
        FileAction::CloseContextMenu => {
            state.close_context_menu();
            None
        },
        FileAction::DeleteItem(path) => {
            state.delete(&path);
            Some(path)
        },
        FileAction::CursorMoved(position) => {
            state.cursor_moved(position);
            None
        },
    }
}

/// The state after a sequence of actions, applied in order.
pub open spec fn run(s: StateView, actions: Seq<FileAction>) -> StateView
    decreases actions.len(),
{
    if actions.len() == 0 {
        s
    } else {
        run(step(s, actions[0]), actions.drop_first())
    }
}

/// Selection is exclusive: after `select`, the selected node is `path` and
/// no other, whatever was selected before.
pub proof fn lemma_select_is_exclusive(s: StateView, path: Seq<char>, is_dir: bool)
    ensures
        after_select(s, path, is_dir).selected == set![path],
        after_select(s, path, is_dir).selected.finite(),
        after_select(s, path, is_dir).selected.len() == 1,
{
    assert(set![path] =~= Set::<Seq<char>>::empty().insert(path));
}

/// No action selects a second node: if at most one node is selected before
/// an action, at most one is selected after it.
pub proof fn lemma_step_keeps_selection_exclusive(s: StateView, action: FileAction)
    requires
        s.valid(),
    ensures
        step(s, action).valid(),
        step(s, action).selected.len() <= 1,
{
    match action {
        FileAction::Select(path, is_dir) => {
            lemma_select_is_exclusive(s, path@, is_dir);
        },
        FileAction::DeleteItem(path) => {
            vstd::set_lib::lemma_len_subset(s.selected.remove(path@), s.selected);
        },
        _ => {},
    }
}

/// At most one node is selected after any sequence of actions, and so after
/// each action of it, if at most one was selected at the start.
pub proof fn lemma_selection_exclusive_throughout(s: StateView, actions: Seq<FileAction>)
    requires
        s.valid(),
    ensures
        run(s, actions).valid(),
        run(s, actions).selected.len() <= 1,
    decreases actions.len(),
{
    if actions.len() > 0 {
        lemma_step_keeps_selection_exclusive(s, actions[0]);
        lemma_selection_exclusive_throughout(step(s, actions[0]), actions.drop_first());
    }
}

/// Toggling a path twice changes nothing: the path is expanded after the
/// second toggle exactly if it was before the first, and so is every other
/// path. Both toggles see the path as the same kind of node.
pub proof fn lemma_toggle_twice_restores(s: StateView, path: Seq<char>, is_dir: bool)
    ensures
        after_toggle(after_toggle(s, path, is_dir), path, is_dir) == s,
        toggled(toggled(s.expanded, path, is_dir), path, is_dir).contains(path)
            == s.expanded.contains(path),
{
    assert(toggled(toggled(s.expanded, path, is_dir), path, is_dir) =~= s.expanded);
}

/// One toggle of a directory flips whether it is expanded, and leaves every
/// other path as it was.
pub proof fn lemma_toggle_flips(s: StateView, path: Seq<char>, other: Seq<char>)
    requires
        other != path,
    ensures
        after_toggle(s, path, true).expanded.contains(path) == !s.expanded.contains(path),
        after_toggle(s, path, true).expanded.contains(other) == s.expanded.contains(other),
{
}

/// The expanded set changes only by a toggle or a delete: selecting a file,
/// the menu and the cursor leave it as it is.
pub proof fn lemma_expanded_is_kept(s: StateView, action: FileAction)
    requires
        !(action matches FileAction::Select(_, is_dir) && is_dir),
        !(action is DeleteItem),
    ensures
        step(s, action).expanded == s.expanded,
{
}

/// Deleting cleans the state: the path is neither expanded nor selected
/// afterwards, whether or not it was before, and the menu is closed. Deleting
/// it once more changes nothing.
pub proof fn lemma_delete_cleans(s: StateView, path: Seq<char>)
    ensures
        !after_delete(s, path).expanded.contains(path),
        !after_delete(s, path).selected.contains(path),
        after_delete(s, path).context_menu is None,
        after_delete(after_delete(s, path), path) == after_delete(s, path),
{
    let once = after_delete(s, path);
    assert(once.expanded.remove(path) =~= once.expanded);
    assert(once.selected.remove(path) =~= once.selected);
}

/// Selecting closes the context menu, whichever node is selected and
/// wherever the menu was anchored.
pub proof fn lemma_select_closes_menu(
    s: StateView,
    target: Seq<char>,
    target_is_dir: bool,
    path: Seq<char>,
    is_dir: bool,
)
    ensures
        after_select(after_menu_open(s, target, target_is_dir), path, is_dir).context_menu is None,
        after_select(s, path, is_dir).context_menu is None,
{
}

} // verus!
