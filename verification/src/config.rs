use vstd::prelude::*;
use indexmap::IndexSet;
use crate::msg::{ExternalMsg, ExternalMsgView, NodeSorterApplicable};
use crate::paths::{join, path_joined};
use crate::text::strings_view;

verus! {

// ---------------------------------------------------------------------------
// Small helpers on optional texts, message lists and keyed entries

/// An optional text, taken by its characters.
pub open spec fn opt_text(o: Option<String>) -> Option<Seq<char>> {
    match o {
        Some(s) => Some(s@),
        None => None,
    }
}

/// A copy of an optional text.
pub fn copy_opt_text(o: &Option<String>) -> (r: Option<String>)
    ensures
        opt_text(r) == opt_text(*o),
{
    match o {
        Some(s) => Some(s.clone()),
        None => None,
    }
}

/// Whether two optional texts are equal.
pub fn same_opt_text(a: &Option<String>, b: &Option<String>) -> (r: bool)
    ensures
        r == (opt_text(*a) == opt_text(*b)),
{
    match (a, b) {
        (Some(x), Some(y)) => *x == *y,
        (None, None) => true,
        _ => false,
    }
}

/// A list of messages, each taken by its value.
pub open spec fn msgs_view(s: Seq<ExternalMsg>) -> Seq<ExternalMsgView> {
    s.map_values(|m: ExternalMsg| m@)
}

/// A copy of a list of messages.
pub fn copy_msgs(v: &Vec<ExternalMsg>) -> (r: Vec<ExternalMsg>)
    ensures
        msgs_view(r@) == msgs_view(v@),
{
    let mut r: Vec<ExternalMsg> = Vec::new();
    let mut i: usize = 0;
    while i < v.len()
        invariant
            i <= v.len(),
            r.len() == i,
            forall|j: int| 0 <= j < i ==> r@[j]@ == v@[j]@,
        decreases v.len() - i,
    {
        r.push(v[i].copy());
        i = i + 1;
    }
    assert(msgs_view(r@) =~= msgs_view(v@));
    r
}

/// Whether two lists of messages are equal.
pub fn same_msgs(a: &Vec<ExternalMsg>, b: &Vec<ExternalMsg>) -> (r: bool)
    ensures
        r == (msgs_view(a@) == msgs_view(b@)),
{
    if a.len() != b.len() {
        assert(msgs_view(a@).len() != msgs_view(b@).len());
        return false;
    }
    let mut i: usize = 0;
    while i < a.len()
        invariant
            i <= a.len(),
            a.len() == b.len(),
            forall|j: int| 0 <= j < i ==> a@[j]@ == b@[j]@,
        decreases a.len() - i,
    {
        if !a[i].same_as(&b[i]) {
            assert(msgs_view(a@)[i as int] != msgs_view(b@)[i as int]);
            return false;
        }
        i = i + 1;
    }
    assert(msgs_view(a@) =~= msgs_view(b@));
    true
}

/// The value kept under the first entry named `k`, if any.
pub open spec fn first_with_key<V>(entries: Seq<(String, V)>, k: Seq<char>) -> Option<V>
    decreases entries.len(),
{
    if entries.len() == 0 {
        None
    } else if entries[0].0@ == k {
        Some(entries[0].1)
    } else {
        first_with_key(entries.drop_first(), k)
    }
}

/// The value kept under the first entry named `k`, if any.
pub fn find_entry<'a, V>(entries: &'a Vec<(String, V)>, k: &str) -> (r: Option<&'a V>)
    ensures
        match r {
            Some(v) => first_with_key(entries@, k@) == Some(*v),
            None => first_with_key(entries@, k@) is None,
        },
{
    let key = String::from_str(k);
    let mut i: usize = 0;
    assert(entries@.skip(0) =~= entries@);
    while i < entries.len()
        invariant
            i <= entries.len(),
            key@ == k@,
            first_with_key(entries@, k@) == first_with_key(entries@.skip(i as int), k@),
        decreases entries.len() - i,
    {
        assert(entries@.skip(i as int).drop_first() =~= entries@.skip(i + 1));
        if entries[i].0 == key {
            assert(entries@.skip(i as int)[0] == entries@[i as int]);
            return Some(&entries[i].1);
        }
        i = i + 1;
    }
    None
}

// ---------------------------------------------------------------------------
// Actions and key bindings

/// The abstract value of an [`Action`].
pub struct ActionView {
    pub help: Option<Seq<char>>,
    pub messages: Seq<ExternalMsgView>,
}

/// What a key binding does: its help text and the messages it sends.
#[derive(Debug, Clone)]
pub struct Action {
    pub help: Option<String>,
    pub messages: Vec<ExternalMsg>,
}

impl View for Action {
    type V = ActionView;

    open spec fn view(&self) -> ActionView {
        ActionView { help: opt_text(self.help), messages: msgs_view(self.messages@) }
    }
}

/// Whether an action stays in a mode sanitized for read-only use: always when
/// not read-only, else when all of its messages are read-only.
pub open spec fn action_kept(a: ActionView, read_only: bool) -> bool {
    !read_only || forall|i: int| 0 <= i < a.messages.len() ==> #[trigger] a.messages[i].read_only()
}

/// An optional action, taken by its value.
pub open spec fn opt_action(o: Option<Action>) -> Option<ActionView> {
    match o {
        Some(a) => Some(a@),
        None => None,
    }
}

/// An optional action after sanitizing.
pub open spec fn opt_action_sanitized(o: Option<ActionView>, read_only: bool) -> Option<ActionView> {
    match o {
        Some(a) => if action_kept(a, read_only) {
            Some(a)
        } else {
            None
        },
        None => None,
    }
}

impl Action {
    /// A copy of the action.
    pub fn copy(&self) -> (r: Self)
        ensures
            r@ == self@,
    {
        Action { help: copy_opt_text(&self.help), messages: copy_msgs(&self.messages) }
    }

    /// Whether two actions are equal.
    pub fn same_as(&self, other: &Self) -> (r: bool)
        ensures
            r == (self@ == other@),
    {
        same_opt_text(&self.help, &other.help) && same_msgs(&self.messages, &other.messages)
    }

    /// The action if it stays in a mode sanitized with `read_only` (see [`action_kept`]).
    pub fn sanitized(self, read_only: bool) -> (r: Option<Self>)
        ensures
            opt_action(r) == (if action_kept(self@, read_only) {
                Some(self@)
            } else {
                None
            }),
    {
        if !read_only {
            return Some(self);
        }
        let mut i: usize = 0;
        while i < self.messages.len()
            invariant
                read_only,
                i <= self.messages.len(),
                forall|j: int| 0 <= j < i ==> #[trigger] self.messages@[j]@.read_only(),
            decreases self.messages.len() - i,
        {
            if !self.messages[i].is_read_only() {
                assert(self@.messages[i as int] == self.messages@[i as int]@);
                assert(!self@.messages[i as int].read_only());
                return None;
            }
            i = i + 1;
        }
        assert forall|j: int| 0 <= j < self@.messages.len() implies #[trigger] self@.messages[j].read_only() by {
            assert(self@.messages[j] == self.messages@[j]@);
        }
        Some(self)
    }
}

/// A copy of an optional action.
pub fn copy_opt_action(o: &Option<Action>) -> (r: Option<Action>)
    ensures
        opt_action(r) == opt_action(*o),
{
    match o {
        Some(a) => Some(a.copy()),
        None => None,
    }
}

/// Whether two optional actions are equal.
pub fn same_opt_action(a: &Option<Action>, b: &Option<Action>) -> (r: bool)
    ensures
        r == (opt_action(*a) == opt_action(*b)),
{
    match (a, b) {
        (Some(x), Some(y)) => x.same_as(y),
        (None, None) => true,
        _ => false,
    }
}

/// An optional action after sanitizing (see [`opt_action_sanitized`]).
pub fn sanitize_opt_action(o: Option<Action>, read_only: bool) -> (r: Option<Action>)
    ensures
        opt_action(r) == opt_action_sanitized(opt_action(o), read_only),
{
    match o {
        Some(a) => a.sanitized(read_only),
        None => None,
    }
}

/// A list of named actions, each taken by its value.
pub open spec fn entries_view(s: Seq<(String, Action)>) -> Seq<(Seq<char>, ActionView)> {
    s.map_values(|e: (String, Action)| (e.0@, e.1@))
}

/// The abstract value of [`KeyBindings`].
pub struct KeyBindingsView {
    pub on_key: Seq<(Seq<char>, ActionView)>,
    pub on_alphabet: Option<ActionView>,
    pub on_number: Option<ActionView>,
    pub on_special_character: Option<ActionView>,
    pub on_navigation: Option<ActionView>,
    pub on_function: Option<ActionView>,
    pub on_alphanumeric: Option<ActionView>,
    pub on_character: Option<ActionView>,
    pub default: Option<ActionView>,
}

/// The actions of a mode: one per key name, then one per class of keys, then
/// a default.
#[derive(Debug, Clone)]
pub struct KeyBindings {
    pub on_key: Vec<(String, Action)>,
    pub on_alphabet: Option<Action>,
    pub on_number: Option<Action>,
    pub on_special_character: Option<Action>,
    pub on_navigation: Option<Action>,
    pub on_function: Option<Action>,
    pub on_alphanumeric: Option<Action>,
    pub on_character: Option<Action>,
    pub default: Option<Action>,
}

impl View for KeyBindings {
    type V = KeyBindingsView;

    open spec fn view(&self) -> KeyBindingsView {
        KeyBindingsView {
            on_key: entries_view(self.on_key@),
            on_alphabet: opt_action(self.on_alphabet),
            on_number: opt_action(self.on_number),
            on_special_character: opt_action(self.on_special_character),
            on_navigation: opt_action(self.on_navigation),
            on_function: opt_action(self.on_function),
            on_alphanumeric: opt_action(self.on_alphanumeric),
            on_character: opt_action(self.on_character),
            default: opt_action(self.default),
        }
    }
}

/// Key bindings with the actions that cannot run in read-only mode removed
/// (unchanged when not read-only).
pub open spec fn bindings_sanitized(kb: KeyBindingsView, read_only: bool) -> KeyBindingsView {
    if !read_only {
        kb
    } else {
        KeyBindingsView {
            on_key: kb.on_key.filter(|e: (Seq<char>, ActionView)| action_kept(e.1, read_only)),
            on_alphabet: opt_action_sanitized(kb.on_alphabet, read_only),
            on_number: opt_action_sanitized(kb.on_number, read_only),
            on_special_character: opt_action_sanitized(kb.on_special_character, read_only),
            on_navigation: opt_action_sanitized(kb.on_navigation, read_only),
            on_function: opt_action_sanitized(kb.on_function, read_only),
            on_alphanumeric: opt_action_sanitized(kb.on_alphanumeric, read_only),
            on_character: opt_action_sanitized(kb.on_character, read_only),
            default: opt_action_sanitized(kb.default, read_only),
        }
    }
}

/// A copy of a list of named actions.
fn copy_entries(v: &Vec<(String, Action)>) -> (r: Vec<(String, Action)>)
    ensures
        entries_view(r@) == entries_view(v@),
{
    let mut r: Vec<(String, Action)> = Vec::new();
    let mut i: usize = 0;
    while i < v.len()
        invariant
            i <= v.len(),
            r.len() == i,
            forall|j: int| 0 <= j < i ==> r@[j].0@ == v@[j].0@ && r@[j].1@ == v@[j].1@,
        decreases v.len() - i,
    {
        r.push((v[i].0.clone(), v[i].1.copy()));
        i = i + 1;
    }
    assert(entries_view(r@) =~= entries_view(v@));
    r
}

/// Whether two lists of named actions are equal.
fn same_entries(a: &Vec<(String, Action)>, b: &Vec<(String, Action)>) -> (r: bool)
    ensures
        r == (entries_view(a@) == entries_view(b@)),
{
    if a.len() != b.len() {
        assert(entries_view(a@).len() != entries_view(b@).len());
        return false;
    }
    let mut i: usize = 0;
    while i < a.len()
        invariant
            i <= a.len(),
            a.len() == b.len(),
            forall|j: int| 0 <= j < i ==> a@[j].0@ == b@[j].0@ && a@[j].1@ == b@[j].1@,
        decreases a.len() - i,
    {
        if !(a[i].0 == b[i].0 && a[i].1.same_as(&b[i].1)) {
            assert(entries_view(a@)[i as int] != entries_view(b@)[i as int]);
            return false;
        }
        i = i + 1;
    }
    assert(entries_view(a@) =~= entries_view(b@));
    true
}

/// The named actions that stay in read-only mode, in order.
fn sanitize_entries(v: Vec<(String, Action)>, read_only: bool) -> (r: Vec<(String, Action)>)
    requires
        read_only,
    ensures
        entries_view(r@) == entries_view(v@).filter(
            |e: (Seq<char>, ActionView)| action_kept(e.1, read_only),
        ),
{
    let ghost pred = |e: (Seq<char>, ActionView)| action_kept(e.1, read_only);
    let mut r: Vec<(String, Action)> = Vec::new();
    let mut i: usize = 0;
    while i < v.len()
        invariant
            i <= v.len(),
            entries_view(r@) == entries_view(v@.take(i as int)).filter(pred),
            pred == (|e: (Seq<char>, ActionView)| action_kept(e.1, read_only)),
        decreases v.len() - i,
    {
        let name = v[i].0.clone();
        let a = v[i].1.copy();
        let kept = a.sanitized(read_only);
        proof {
            reveal(Seq::filter);
            assert(entries_view(v@.take(i + 1)).drop_last() =~= entries_view(v@.take(i as int)));
            assert(entries_view(v@.take(i + 1)).last() == (v@[i as int].0@, v@[i as int].1@));
        }
        match kept {
            Some(k) => {
                r.push((name, k));
                assert(entries_view(r@) =~= entries_view(v@.take(i + 1)).filter(pred));
            },
            None => {
                assert(entries_view(r@) =~= entries_view(v@.take(i + 1)).filter(pred));
            },
        }
        i = i + 1;
    }
    assert(v@.take(v.len() as int) =~= v@);
    r
}

impl KeyBindings {
    /// A copy of the key bindings.
    pub fn copy(&self) -> (r: Self)
        ensures
            r@ == self@,
    {
        KeyBindings {
            on_key: copy_entries(&self.on_key),
            on_alphabet: copy_opt_action(&self.on_alphabet),
            on_number: copy_opt_action(&self.on_number),
            on_special_character: copy_opt_action(&self.on_special_character),
            on_navigation: copy_opt_action(&self.on_navigation),
            on_function: copy_opt_action(&self.on_function),
            on_alphanumeric: copy_opt_action(&self.on_alphanumeric),
            on_character: copy_opt_action(&self.on_character),
            default: copy_opt_action(&self.default),
        }
    }

    /// Whether two sets of key bindings are equal.
    pub fn same_as(&self, other: &Self) -> (r: bool)
        ensures
            r == (self@ == other@),
    {
        same_entries(&self.on_key, &other.on_key)
            && same_opt_action(&self.on_alphabet, &other.on_alphabet)
            && same_opt_action(&self.on_number, &other.on_number)
            && same_opt_action(&self.on_special_character, &other.on_special_character)
            && same_opt_action(&self.on_navigation, &other.on_navigation)
            && same_opt_action(&self.on_function, &other.on_function)
            && same_opt_action(&self.on_alphanumeric, &other.on_alphanumeric)
            && same_opt_action(&self.on_character, &other.on_character)
            && same_opt_action(&self.default, &other.default)
    }

    /// The key bindings without the actions that cannot run in read-only mode
    /// (see [`bindings_sanitized`]).
    pub fn sanitized(self, read_only: bool) -> (r: Self)
        ensures
            r@ == bindings_sanitized(self@, read_only),
    {
        if !read_only {
            return self;
        }
        KeyBindings {
            on_key: sanitize_entries(self.on_key, read_only),
            on_alphabet: sanitize_opt_action(self.on_alphabet, read_only),
            on_number: sanitize_opt_action(self.on_number, read_only),
            on_special_character: sanitize_opt_action(self.on_special_character, read_only),
            on_navigation: sanitize_opt_action(self.on_navigation, read_only),
            on_function: sanitize_opt_action(self.on_function, read_only),
            on_alphanumeric: sanitize_opt_action(self.on_alphanumeric, read_only),
            on_character: sanitize_opt_action(self.on_character, read_only),
            default: sanitize_opt_action(self.default, read_only),
        }
    }
}

// ---------------------------------------------------------------------------
// Modes

/// The abstract value of a [`Mode`].
pub struct ModeView {
    pub name: Seq<char>,
    pub help: Option<Seq<char>>,
    pub key_bindings: KeyBindingsView,
}

/// A mode of the explorer: its name, help text and key bindings.
#[derive(Debug, Clone)]
pub struct Mode {
    pub name: String,
    pub help: Option<String>,
    pub key_bindings: KeyBindings,
}

impl View for Mode {
    type V = ModeView;

    open spec fn view(&self) -> ModeView {
        ModeView { name: self.name@, help: opt_text(self.help), key_bindings: self.key_bindings@ }
    }
}

/// A mode as it runs with `read_only`: its key bindings sanitized.
pub open spec fn mode_sanitized(m: ModeView, read_only: bool) -> ModeView {
    ModeView { name: m.name, help: m.help, key_bindings: bindings_sanitized(m.key_bindings, read_only) }
}

impl Mode {
    /// A copy of the mode.
    pub fn copy(&self) -> (r: Self)
        ensures
            r@ == self@,
    {
        Mode { name: self.name.clone(), help: copy_opt_text(&self.help), key_bindings: self.key_bindings.copy() }
    }

    /// Whether two modes are equal.
    pub fn same_as(&self, other: &Self) -> (r: bool)
        ensures
            r == (self@ == other@),
    {
        self.name == other.name && same_opt_text(&self.help, &other.help)
            && self.key_bindings.same_as(&other.key_bindings)
    }

    /// The mode as it runs with `read_only` (see [`mode_sanitized`]).
    pub fn sanitized(self, read_only: bool) -> (r: Self)
        ensures
            r@ == mode_sanitized(self@, read_only),
    {
        Mode { name: self.name, help: self.help, key_bindings: self.key_bindings.sanitized(read_only) }
    }
}

// ---------------------------------------------------------------------------
// Layouts and the configuration

/// How the screen is split into panels.
#[derive(Debug, Clone, PartialEq, Eq)]
pub enum Layout {
    Nothing,
    Table,
    InputAndLogs,
    Selection,
    HelpMenu,
    SortAndFilter,
    Dynamic(String),
}

impl Layout {
    /// A copy of the layout.
    pub fn copy(&self) -> (r: Self)
        ensures
            r == *self,
    {
        match self {
            Layout::Nothing => Layout::Nothing,
            Layout::Table => Layout::Table,
            Layout::InputAndLogs => Layout::InputAndLogs,
            Layout::Selection => Layout::Selection,
            Layout::HelpMenu => Layout::HelpMenu,
            Layout::SortAndFilter => Layout::SortAndFilter,
            Layout::Dynamic(f) => Layout::Dynamic(f.clone()),
        }
    }
}

/// The modes that come with the explorer.
#[derive(Debug, Clone)]
pub struct BuiltinModesConfig {
    pub default: Mode,
    pub debug_error: Mode,
    pub recover: Mode,
    pub filter: Mode,
    pub number: Mode,
    pub go_to: Mode,
    pub search: Mode,
    pub selection_ops: Mode,
    pub action: Mode,
    pub create: Mode,
    pub create_file: Mode,
    pub create_directory: Mode,
    pub rename: Mode,
    pub duplicate_as: Mode,
    pub delete: Mode,
    pub sort: Mode,
    pub relative_path_does_contain: Mode,
    pub relative_path_does_not_contain: Mode,
    pub switch_layout: Mode,
}

impl BuiltinModesConfig {
    /// The entry named `name` (its field's name), if there is one.
    pub open spec fn named(&self, name: Seq<char>) -> Option<Mode> {
        if name == "default"@ {
            Some(self.default)
        } else if name == "debug_error"@ {
            Some(self.debug_error)
        } else if name == "recover"@ {
            Some(self.recover)
        } else if name == "filter"@ {
            Some(self.filter)
        } else if name == "number"@ {
            Some(self.number)
        } else if name == "go_to"@ {
            Some(self.go_to)
        } else if name == "search"@ {
            Some(self.search)
        } else if name == "selection_ops"@ {
            Some(self.selection_ops)
        } else if name == "action"@ {
            Some(self.action)
        } else if name == "create"@ {
            Some(self.create)
        } else if name == "create_file"@ {
            Some(self.create_file)
        } else if name == "create_directory"@ {
            Some(self.create_directory)
        } else if name == "rename"@ {
            Some(self.rename)
        } else if name == "duplicate_as"@ {
            Some(self.duplicate_as)
        } else if name == "delete"@ {
            Some(self.delete)
        } else if name == "sort"@ {
            Some(self.sort)
        } else if name == "relative_path_does_contain"@ {
            Some(self.relative_path_does_contain)
        } else if name == "relative_path_does_not_contain"@ {
            Some(self.relative_path_does_not_contain)
        } else if name == "switch_layout"@ {
            Some(self.switch_layout)
        } else {
            None
        }
    }

    /// The entry named `name` (see [`BuiltinModesConfig::named`]).
    pub fn get(&self, name: &str) -> (r: Option<&Mode>)
        ensures
            match r {
                Some(v) => self.named(name@) == Some(*v),
                None => self.named(name@) is None,
            },
    {
        let key = String::from_str(name);
        if key == String::from_str("default") {
            return Some(&self.default);
        }
        if key == String::from_str("debug_error") {
            return Some(&self.debug_error);
        }
        if key == String::from_str("recover") {
            return Some(&self.recover);
        }
        if key == String::from_str("filter") {
            return Some(&self.filter);
        }
        if key == String::from_str("number") {
            return Some(&self.number);
        }
        if key == String::from_str("go_to") {
            return Some(&self.go_to);
        }
        if key == String::from_str("search") {
            return Some(&self.search);
        }
        if key == String::from_str("selection_ops") {
            return Some(&self.selection_ops);
        }
        if key == String::from_str("action") {
            return Some(&self.action);
        }
        if key == String::from_str("create") {
            return Some(&self.create);
        }
        if key == String::from_str("create_file") {
            return Some(&self.create_file);
        }
        if key == String::from_str("create_directory") {
            return Some(&self.create_directory);
        }
        if key == String::from_str("rename") {
            return Some(&self.rename);
        }
        if key == String::from_str("duplicate_as") {
            return Some(&self.duplicate_as);
        }
        if key == String::from_str("delete") {
            return Some(&self.delete);
        }
        if key == String::from_str("sort") {
            return Some(&self.sort);
        }
        if key == String::from_str("relative_path_does_contain") {
            return Some(&self.relative_path_does_contain);
        }
        if key == String::from_str("relative_path_does_not_contain") {
            return Some(&self.relative_path_does_not_contain);
        }
        if key == String::from_str("switch_layout") {
            return Some(&self.switch_layout);
        }
        None
    }
}

/// The builtin modes and the modes that the configuration adds, by name.
#[derive(Debug, Clone)]
pub struct ModesConfig {
    pub builtin: BuiltinModesConfig,
    pub custom: Vec<(String, Mode)>,
}

impl ModesConfig {
    /// The mode named `name`: a builtin one, else a custom one.
    pub open spec fn named(&self, name: Seq<char>) -> Option<Mode> {
        match self.builtin.named(name) {
            Some(m) => Some(m),
            None => first_with_key(self.custom@, name),
        }
    }

    /// The mode named `name` (see [`ModesConfig::named`]).
    pub fn get(&self, name: &str) -> (r: Option<&Mode>)
        ensures
            match r {
                Some(v) => self.named(name@) == Some(*v),
                None => self.named(name@) is None,
            },
    {
        match self.builtin.get(name) {
            Some(m) => Some(m),
            None => find_entry(&self.custom, name),
        }
    }
}

/// The layouts that come with the explorer.
#[derive(Debug, Clone)]
pub struct BuiltinLayoutsConfig {
    pub default: Layout,
    pub no_help: Layout,
    pub no_selection: Layout,
    pub no_help_no_selection: Layout,
}

impl BuiltinLayoutsConfig {
    /// The entry named `name` (its field's name), if there is one.
    pub open spec fn named(&self, name: Seq<char>) -> Option<Layout> {
        if name == "default"@ {
            Some(self.default)
        } else if name == "no_help"@ {
            Some(self.no_help)
        } else if name == "no_selection"@ {
            Some(self.no_selection)
        } else if name == "no_help_no_selection"@ {
            Some(self.no_help_no_selection)
        } else {
            None
        }
    }

    /// The entry named `name` (see [`BuiltinLayoutsConfig::named`]).
    pub fn get(&self, name: &str) -> (r: Option<&Layout>)
        ensures
            match r {
                Some(v) => self.named(name@) == Some(*v),
                None => self.named(name@) is None,
            },
    {
        let key = String::from_str(name);
        if key == String::from_str("default") {
            return Some(&self.default);
        }
        if key == String::from_str("no_help") {
            return Some(&self.no_help);
        }
        if key == String::from_str("no_selection") {
            return Some(&self.no_selection);
        }
        if key == String::from_str("no_help_no_selection") {
            return Some(&self.no_help_no_selection);
        }
        None
    }
}

/// The builtin layouts and the layouts that the configuration adds, by name.
#[derive(Debug, Clone)]
pub struct LayoutsConfig {
    pub builtin: BuiltinLayoutsConfig,
    pub custom: Vec<(String, Layout)>,
}

impl LayoutsConfig {
    /// The layout named `name`: a builtin one, else a custom one.
    pub open spec fn named(&self, name: Seq<char>) -> Option<Layout> {
        match self.builtin.named(name) {
            Some(l) => Some(l),
            None => first_with_key(self.custom@, name),
        }
    }

    /// The layout named `name` (see [`LayoutsConfig::named`]).
    pub fn get(&self, name: &str) -> (r: Option<&Layout>)
        ensures
            match r {
                Some(v) => self.named(name@) == Some(*v),
                None => self.named(name@) is None,
            },
    {
        match self.builtin.get(name) {
            Some(l) => Some(l),
            None => find_entry(&self.custom, name),
        }
    }

    /// The custom layout named `name`.
    pub fn get_custom(&self, name: &str) -> (r: Option<&Layout>)
        ensures
            match r {
                Some(v) => first_with_key(self.custom@, name@) == Some(*v),
                None => first_with_key(self.custom@, name@) is None,
            },
    {
        find_entry(&self.custom, name)
    }
}

/// The general settings.
#[derive(Debug)]
pub struct GeneralConfig {
    pub read_only: bool,
    pub enable_recover_mode: bool,
    pub enforce_bounded_index_navigation: bool,
    pub show_hidden: bool,
    pub disable_debug_error_mode: bool,
    pub initial_sorting: Option<IndexSet<NodeSorterApplicable>>,
    pub initial_mode: Option<String>,
    pub initial_layout: Option<String>,
}

/// The configuration of the explorer.
#[derive(Debug)]
pub struct Config {
    pub general: GeneralConfig,
    pub modes: ModesConfig,
    pub layouts: LayoutsConfig,
}

// ---------------------------------------------------------------------------
// Which configuration files are read at start, and what loading them gives

/// `base/.config/xplr/init.lua`, joined one part at a time.
pub open spec fn user_config_path(home: Seq<char>) -> Seq<char> {
    path_joined(path_joined(path_joined(home, ".config"@), "xplr"@), "init.lua"@)
}

/// `/etc/xplr/init.lua`, joined one part at a time.
pub open spec fn system_config_path() -> Seq<char> {
    path_joined(path_joined(path_joined("/"@, "etc"@), "xplr"@), "init.lua"@)
}

/// The configuration file under a home directory.
pub fn user_config_file(home: &str) -> (r: String)
    ensures
        r@ == user_config_path(home@),
{
    let a = join(home, ".config");
    let b = join(a.as_str(), "xplr");
    join(b.as_str(), "init.lua")
}

/// The configuration file of the whole system.
pub fn system_config_file() -> (r: String)
    ensures
        r@ == system_config_path(),
{
    let a = join("/", "etc");
    let b = join(a.as_str(), "xplr");
    join(b.as_str(), "init.lua")
}

/// The configuration file read first: the one given; else, when there is a
/// home directory, its user configuration file if it exists; else, without a
/// home directory, the system's if it exists.
pub open spec fn chosen_config(
    given: Option<Seq<char>>,
    user_file: Option<(Seq<char>, bool)>,
    system_file_exists: bool,
) -> Option<Seq<char>> {
    match given {
        Some(p) => Some(p),
        None => match user_file {
            Some((p, exists)) => if exists { Some(p) } else { None },
            None => if system_file_exists { Some(system_config_path()) } else { None },
        },
    }
}

/// The configuration files to read at start, in order: the chosen one (see
/// [`chosen_config`]; `user_file` is the user configuration file with whether
/// it exists, when there is a home directory), then `extra`.
pub fn config_files(
    given: Option<String>,
    user_file: Option<(String, bool)>,
    system_file_exists: bool,
    extra: Vec<String>,
) -> (r: Vec<String>)
    ensures
        strings_view(r@) == (match chosen_config(
            opt_text(given),
            match user_file {
                Some((p, e)) => Some((p@, e)),
                None => None,
            },
            system_file_exists,
        ) {
            Some(p) => seq![p],
            None => Seq::<Seq<char>>::empty(),
        }) + strings_view(extra@),
{
    let first: Option<String> = match given {
        Some(p) => Some(p),
        None => match user_file {
            Some((p, exists)) => if exists { Some(p) } else { None },
            None => if system_file_exists { Some(system_config_file()) } else { None },
        },
    };
    let mut r: Vec<String> = Vec::new();
    match first {
        Some(p) => r.push(p),
        None => {},
    }
    let ghost head = strings_view(r@);
    let mut i: usize = 0;
    while i < extra.len()
        invariant
            i <= extra.len(),
            strings_view(r@) == head + strings_view(extra@).take(i as int),
        decreases extra.len() - i,
    {
        let ghost before = r@;
        r.push(extra[i].clone());
        assert(strings_view(r@) =~= strings_view(before).push(extra@[i as int]@));
        assert(strings_view(extra@).take(i + 1) =~= strings_view(extra@).take(i as int).push(extra@[i as int]@));
        assert(strings_view(r@) =~= head + strings_view(extra@).take(i + 1));
        i = i + 1;
    }
    assert(strings_view(extra@).take(extra.len() as int) =~= strings_view(extra@));
    r
}

/// The configuration after loading each file in turn: each file that loads
/// gives the configuration, one that fails leaves the one before.
pub open spec fn last_loaded(init: Config, loaded: Seq<Result<Config, String>>) -> Config
    decreases loaded.len(),
{
    if loaded.len() == 0 {
        init
    } else {
        match loaded.last() {
            Ok(c) => c,
            Err(_) => last_loaded(init, loaded.drop_last()),
        }
    }
}

/// The error texts of the files that failed to load, in order.
pub open spec fn load_errors(loaded: Seq<Result<Config, String>>) -> Seq<Seq<char>>
    decreases loaded.len(),
{
    if loaded.len() == 0 {
        Seq::empty()
    } else {
        match loaded.last() {
            Ok(_) => load_errors(loaded.drop_last()),
            Err(e) => load_errors(loaded.drop_last()).push(e@),
        }
    }
}

/// Folds what loading each configuration file gave, in order, into the
/// configuration to start with and the errors to report.
pub fn fold_loads(init: Config, loaded: Vec<Result<Config, String>>) -> (r: (Config, Vec<String>))
    ensures
        r.0 == last_loaded(init, loaded@),
        strings_view(r.1@) == load_errors(loaded@),
{
    let ghost all = loaded@;
    assert(all.len() == loaded.len());
    let mut rest = loaded;
    let mut config = init;
    let mut errs: Vec<String> = Vec::new();
    let mut i: usize = 0;
    while rest.len() > 0
        invariant
            i + rest.len() == all.len(),
            all.len() <= usize::MAX,
            rest@ == all.skip(i as int),
            config == last_loaded(init, all.take(i as int)),
            strings_view(errs@) == load_errors(all.take(i as int)),
        decreases rest.len(),
    {
        let item = rest.remove(0);
        assert(all.take(i + 1).drop_last() =~= all.take(i as int));
        assert(all.take(i + 1).last() == all[i as int]);
        match item {
            Ok(c) => {
                config = c;
            },
            Err(e) => {
                let ghost before = errs@;
                errs.push(e);
                assert(strings_view(errs@) =~= strings_view(before).push(all[i as int]->Err_0@));
                assert(strings_view(errs@) =~= load_errors(all.take(i as int)).push(all[i as int]->Err_0@));
            },
        }
        assert(rest@ =~= all.skip(i + 1));
        i = i + 1;
    }
    assert(all.take(i as int) =~= all);
    (config, errs)
}

} // verus!
