use vstd::prelude::*;
use crate::input::Key;
use crate::node::DirectoryBuffer;
use crate::text::{copy_strings, same_strings, strings_view};

verus! {

/// An edit of the input buffer.
#[derive(Debug, Clone, Copy, PartialEq, Eq, Hash, Structural)]
pub enum InputOperation {
    SetCursor(usize),
    InsertCharacter(char),
    GoToPreviousCharacter,
    GoToNextCharacter,
    GoToPreviousWord,
    GoToNextWord,
    GoToStart,
    GoToEnd,
    DeletePreviousCharacter,
    DeleteNextCharacter,
    DeletePreviousWord,
    DeleteNextWord,
    DeleteLine,
    DeleteTillEnd,
}

/// The test that a node filter applies to a node's path.
#[derive(Debug, Clone, Copy, PartialEq, Eq, Hash, Structural)]
pub enum NodeFilter {
    RelativePathIs,
    IRelativePathIs,
    RelativePathIsNot,
    IRelativePathIsNot,
    RelativePathDoesStartWith,
    IRelativePathDoesStartWith,
    RelativePathDoesNotStartWith,
    IRelativePathDoesNotStartWith,
    RelativePathDoesContain,
    IRelativePathDoesContain,
    RelativePathDoesNotContain,
    IRelativePathDoesNotContain,
    RelativePathDoesEndWith,
    IRelativePathDoesEndWith,
    RelativePathDoesNotEndWith,
    IRelativePathDoesNotEndWith,
    RelativePathDoesMatchRegex,
    IRelativePathDoesMatchRegex,
    RelativePathDoesNotMatchRegex,
    IRelativePathDoesNotMatchRegex,
    AbsolutePathIs,
    IAbsolutePathIs,
    AbsolutePathIsNot,
    IAbsolutePathIsNot,
    AbsolutePathDoesStartWith,
    IAbsolutePathDoesStartWith,
    AbsolutePathDoesNotStartWith,
    IAbsolutePathDoesNotStartWith,
    AbsolutePathDoesContain,
    IAbsolutePathDoesContain,
    AbsolutePathDoesNotContain,
    IAbsolutePathDoesNotContain,
    AbsolutePathDoesEndWith,
    IAbsolutePathDoesEndWith,
    AbsolutePathDoesNotEndWith,
    IAbsolutePathDoesNotEndWith,
    AbsolutePathDoesMatchRegex,
    IAbsolutePathDoesMatchRegex,
    AbsolutePathDoesNotMatchRegex,
    IAbsolutePathDoesNotMatchRegex,
}

/// The key by which a node sorter orders nodes.
#[derive(Debug, Clone, Copy, PartialEq, Eq, Hash, Structural)]
pub enum NodeSorter {
    ByRelativePath,
    ByIRelativePath,
    ByExtension,
    ByIsDir,
    ByIsFile,
    ByIsSymlink,
    ByIsBroken,
    ByIsReadonly,
    ByMimeEssence,
    BySize,
    ByCreated,
    ByLastModified,
    ByCanonicalAbsolutePath,
    ByICanonicalAbsolutePath,
    ByCanonicalExtension,
    ByCanonicalIsDir,
    ByCanonicalIsFile,
    ByCanonicalIsReadonly,
    ByCanonicalMimeEssence,
    ByCanonicalSize,
    ByCanonicalCreated,
    ByCanonicalLastModified,
    BySymlinkAbsolutePath,
    ByISymlinkAbsolutePath,
    BySymlinkExtension,
    BySymlinkIsDir,
    BySymlinkIsFile,
    BySymlinkIsReadonly,
    BySymlinkMimeEssence,
    BySymlinkSize,
    BySymlinkCreated,
    BySymlinkLastModified,
}

/// A sorter together with its direction.
#[derive(Debug, Clone, Copy, PartialEq, Eq, Hash, Structural)]
pub struct NodeSorterApplicable {
    pub sorter: NodeSorter,
    pub reverse: bool,
}

impl NodeSorterApplicable {
    /// The same sorter in the other direction.
    pub fn reversed(self) -> (r: Self)
        ensures
            r.sorter == self.sorter,
            r.reverse == !self.reverse,
    {
        NodeSorterApplicable { sorter: self.sorter, reverse: !self.reverse }
    }
}

/// The abstract value of a [`NodeFilterApplicable`].
pub struct NodeFilterApplicableView {
    pub filter: NodeFilter,
    pub input: Seq<char>,
}

/// A filter together with the text it tests against.
#[derive(Debug, Clone, PartialEq, Eq, Hash)]
pub struct NodeFilterApplicable {
    pub filter: NodeFilter,
    pub input: String,
}

impl View for NodeFilterApplicable {
    type V = NodeFilterApplicableView;

    open spec fn view(&self) -> NodeFilterApplicableView {
        NodeFilterApplicableView { filter: self.filter, input: self.input@ }
    }
}

impl NodeFilterApplicable {
    /// A filter applied to `input`.
    pub fn new(filter: NodeFilter, input: String) -> (r: Self)
        ensures
            r.filter == filter,
            r.input == input,
    {
        NodeFilterApplicable { filter, input }
    }

    /// A copy of the filter.
    pub fn copy(&self) -> (r: Self)
        ensures
            r@ == self@,
    {
        NodeFilterApplicable { filter: self.filter, input: self.input.clone() }
    }

    /// Whether two filters are equal.
    pub fn same_as(&self, other: &Self) -> (r: bool)
        ensures
            r == (self@ == other@),
    {
        self.filter == other.filter && self.input == other.input
    }
}

/// The abstract value of a [`Command`].
pub struct CommandView {
    pub command: Seq<char>,
    pub args: Seq<Seq<char>>,
}

/// An external command with its arguments.
#[derive(Debug, Clone, PartialEq, Eq)]
pub struct Command {
    pub command: String,
    pub args: Vec<String>,
}

impl View for Command {
    type V = CommandView;

    open spec fn view(&self) -> CommandView {
        CommandView { command: self.command@, args: strings_view(self.args@) }
    }
}

impl Command {
    /// A copy of the command.
    pub fn copy(&self) -> (r: Self)
        ensures
            r@ == self@,
    {
        Command { command: self.command.clone(), args: copy_strings(&self.args) }
    }

    /// Whether two commands are equal.
    pub fn same_as(&self, other: &Self) -> (r: bool)
        ensures
            r == (self@ == other@),
    {
        self.command == other.command && same_strings(&self.args, &other.args)
    }
}

/// A message that the user, a key binding or a script sends to the explorer.
#[derive(Debug, Clone)]
pub enum ExternalMsg {
    ExplorePwd,
    ExploreParentsAsync,
    ExplorePwdAsync,
    Refresh,
    ClearScreen,
    FocusFirst,
    FocusLast,
    FocusPrevious,
    FocusPreviousByRelativeIndex(usize),
    FocusPreviousByRelativeIndexFromInput,
    FocusNext,
    FocusNextByRelativeIndex(usize),
    FocusNextByRelativeIndexFromInput,
    FocusPath(String),
    FocusPathFromInput,
    FocusByIndex(usize),
    FocusByIndexFromInput,
    FocusByFileName(String),
    ChangeDirectory(String),
    Enter,
    Back,
    LastVisitedPath,
    NextVisitedPath,
    FollowSymlink,
    UpdateInputBuffer(InputOperation),
    UpdateInputBufferFromKey,
    BufferInput(String),
    BufferInputFromKey,
    SetInputBuffer(String),
    RemoveInputBufferLastCharacter,
    RemoveInputBufferLastWord,
    ResetInputBuffer,
    SwitchMode(String),
    SwitchModeKeepingInputBuffer(String),
    SwitchModeBuiltin(String),
    SwitchModeBuiltinKeepingInputBuffer(String),
    SwitchModeCustom(String),
    SwitchModeCustomKeepingInputBuffer(String),
    PopMode,
    PopModeKeepingInputBuffer,
    SwitchLayout(String),
    SwitchLayoutBuiltin(String),
    SwitchLayoutCustom(String),
    Call(Command),
    CallSilently(Command),
    BashExec(String),
    BashExecSilently(String),
    CallLua(String),
    CallLuaSilently(String),
    LuaEval(String),
    LuaEvalSilently(String),
    Select,
    SelectAll,
    SelectPath(String),
    UnSelect,
    UnSelectAll,
    UnSelectPath(String),
    ToggleSelection,
    ToggleSelectAll,
    ToggleSelectionByPath(String),
    ClearSelection,
    AddNodeFilter(NodeFilterApplicable),
    AddNodeFilterFromInput(NodeFilter),
    RemoveNodeFilter(NodeFilterApplicable),
    RemoveNodeFilterFromInput(NodeFilter),
    ToggleNodeFilter(NodeFilterApplicable),
    RemoveLastNodeFilter,
    ResetNodeFilters,
    ClearNodeFilters,
    AddNodeSorter(NodeSorterApplicable),
    RemoveNodeSorter(NodeSorter),
    ReverseNodeSorter(NodeSorter),
    ToggleNodeSorter(NodeSorterApplicable),
    RemoveLastNodeSorter,
    ReverseNodeSorters,
    ResetNodeSorters,
    ClearNodeSorters,
    EnableMouse,
    DisableMouse,
    ToggleMouse,
    StartFifo(String),
    StopFifo,
    ToggleFifo(String),
    LogInfo(String),
    LogSuccess(String),
    LogWarning(String),
    LogError(String),
    Quit,
    PrintPwdAndQuit,
    PrintFocusPathAndQuit,
    PrintSelectionAndQuit,
    PrintResultAndQuit,
    PrintAppStateAndQuit,
    Debug(String),
    Terminate,
}

/// The abstract value of an [`ExternalMsg`]: its text payloads taken by their characters.
pub enum ExternalMsgView {
    ExplorePwd,
    ExploreParentsAsync,
    ExplorePwdAsync,
    Refresh,
    ClearScreen,
    FocusFirst,
    FocusLast,
    FocusPrevious,
    FocusPreviousByRelativeIndex(usize),
    FocusPreviousByRelativeIndexFromInput,
    FocusNext,
    FocusNextByRelativeIndex(usize),
    FocusNextByRelativeIndexFromInput,
    FocusPath(Seq<char>),
    FocusPathFromInput,
    FocusByIndex(usize),
    FocusByIndexFromInput,
    FocusByFileName(Seq<char>),
    ChangeDirectory(Seq<char>),
    Enter,
    Back,
    LastVisitedPath,
    NextVisitedPath,
    FollowSymlink,
    UpdateInputBuffer(InputOperation),
    UpdateInputBufferFromKey,
    BufferInput(Seq<char>),
    BufferInputFromKey,
    SetInputBuffer(Seq<char>),
    RemoveInputBufferLastCharacter,
    RemoveInputBufferLastWord,
    ResetInputBuffer,
    SwitchMode(Seq<char>),
    SwitchModeKeepingInputBuffer(Seq<char>),
    SwitchModeBuiltin(Seq<char>),
    SwitchModeBuiltinKeepingInputBuffer(Seq<char>),
    SwitchModeCustom(Seq<char>),
    SwitchModeCustomKeepingInputBuffer(Seq<char>),
    PopMode,
    PopModeKeepingInputBuffer,
    SwitchLayout(Seq<char>),
    SwitchLayoutBuiltin(Seq<char>),
    SwitchLayoutCustom(Seq<char>),
    Call(CommandView),
    CallSilently(CommandView),
    BashExec(Seq<char>),
    BashExecSilently(Seq<char>),
    CallLua(Seq<char>),
    CallLuaSilently(Seq<char>),
    LuaEval(Seq<char>),
    LuaEvalSilently(Seq<char>),
    Select,
    SelectAll,
    SelectPath(Seq<char>),
    UnSelect,
    UnSelectAll,
    UnSelectPath(Seq<char>),
    ToggleSelection,
    ToggleSelectAll,
    ToggleSelectionByPath(Seq<char>),
    ClearSelection,
    AddNodeFilter(NodeFilterApplicableView),
    AddNodeFilterFromInput(NodeFilter),
    RemoveNodeFilter(NodeFilterApplicableView),
    RemoveNodeFilterFromInput(NodeFilter),
    ToggleNodeFilter(NodeFilterApplicableView),
    RemoveLastNodeFilter,
    ResetNodeFilters,
    ClearNodeFilters,
    AddNodeSorter(NodeSorterApplicable),
    RemoveNodeSorter(NodeSorter),
    ReverseNodeSorter(NodeSorter),
    ToggleNodeSorter(NodeSorterApplicable),
    RemoveLastNodeSorter,
    ReverseNodeSorters,
    ResetNodeSorters,
    ClearNodeSorters,
    EnableMouse,
    DisableMouse,
    ToggleMouse,
    StartFifo(Seq<char>),
    StopFifo,
    ToggleFifo(Seq<char>),
    LogInfo(Seq<char>),
    LogSuccess(Seq<char>),
    LogWarning(Seq<char>),
    LogError(Seq<char>),
    Quit,
    PrintPwdAndQuit,
    PrintFocusPathAndQuit,
    PrintSelectionAndQuit,
    PrintResultAndQuit,
    PrintAppStateAndQuit,
    Debug(Seq<char>),
    Terminate,
}

impl ExternalMsgView {
    /// Whether the message may run in read-only mode: every message but those that
    /// run a command, a shell script or Lua code.
    pub open spec fn read_only(self) -> bool {
        !(self is Call || self is CallSilently || self is BashExec || self is BashExecSilently || self is CallLua || self is CallLuaSilently || self is LuaEval || self is LuaEvalSilently)
    }
}

impl View for ExternalMsg {
    type V = ExternalMsgView;

    open spec fn view(&self) -> ExternalMsgView {
        match self {
            ExternalMsg::ExplorePwd => ExternalMsgView::ExplorePwd,
            ExternalMsg::ExploreParentsAsync => ExternalMsgView::ExploreParentsAsync,
            ExternalMsg::ExplorePwdAsync => ExternalMsgView::ExplorePwdAsync,
            ExternalMsg::Refresh => ExternalMsgView::Refresh,
            ExternalMsg::ClearScreen => ExternalMsgView::ClearScreen,
            ExternalMsg::FocusFirst => ExternalMsgView::FocusFirst,
            ExternalMsg::FocusLast => ExternalMsgView::FocusLast,
            ExternalMsg::FocusPrevious => ExternalMsgView::FocusPrevious,
            ExternalMsg::FocusPreviousByRelativeIndex(x) => ExternalMsgView::FocusPreviousByRelativeIndex(*x),
            ExternalMsg::FocusPreviousByRelativeIndexFromInput => ExternalMsgView::FocusPreviousByRelativeIndexFromInput,
            ExternalMsg::FocusNext => ExternalMsgView::FocusNext,
            ExternalMsg::FocusNextByRelativeIndex(x) => ExternalMsgView::FocusNextByRelativeIndex(*x),
            ExternalMsg::FocusNextByRelativeIndexFromInput => ExternalMsgView::FocusNextByRelativeIndexFromInput,
            ExternalMsg::FocusPath(x) => ExternalMsgView::FocusPath(x@),
            ExternalMsg::FocusPathFromInput => ExternalMsgView::FocusPathFromInput,
            ExternalMsg::FocusByIndex(x) => ExternalMsgView::FocusByIndex(*x),
            ExternalMsg::FocusByIndexFromInput => ExternalMsgView::FocusByIndexFromInput,
            ExternalMsg::FocusByFileName(x) => ExternalMsgView::FocusByFileName(x@),
            ExternalMsg::ChangeDirectory(x) => ExternalMsgView::ChangeDirectory(x@),
            ExternalMsg::Enter => ExternalMsgView::Enter,
            ExternalMsg::Back => ExternalMsgView::Back,
            ExternalMsg::LastVisitedPath => ExternalMsgView::LastVisitedPath,
            ExternalMsg::NextVisitedPath => ExternalMsgView::NextVisitedPath,
            ExternalMsg::FollowSymlink => ExternalMsgView::FollowSymlink,
            ExternalMsg::UpdateInputBuffer(x) => ExternalMsgView::UpdateInputBuffer(*x),
            ExternalMsg::UpdateInputBufferFromKey => ExternalMsgView::UpdateInputBufferFromKey,
            ExternalMsg::BufferInput(x) => ExternalMsgView::BufferInput(x@),
            ExternalMsg::BufferInputFromKey => ExternalMsgView::BufferInputFromKey,
            ExternalMsg::SetInputBuffer(x) => ExternalMsgView::SetInputBuffer(x@),
            ExternalMsg::RemoveInputBufferLastCharacter => ExternalMsgView::RemoveInputBufferLastCharacter,
            ExternalMsg::RemoveInputBufferLastWord => ExternalMsgView::RemoveInputBufferLastWord,
            ExternalMsg::ResetInputBuffer => ExternalMsgView::ResetInputBuffer,
            ExternalMsg::SwitchMode(x) => ExternalMsgView::SwitchMode(x@),
            ExternalMsg::SwitchModeKeepingInputBuffer(x) => ExternalMsgView::SwitchModeKeepingInputBuffer(x@),
            ExternalMsg::SwitchModeBuiltin(x) => ExternalMsgView::SwitchModeBuiltin(x@),
            ExternalMsg::SwitchModeBuiltinKeepingInputBuffer(x) => ExternalMsgView::SwitchModeBuiltinKeepingInputBuffer(x@),
            ExternalMsg::SwitchModeCustom(x) => ExternalMsgView::SwitchModeCustom(x@),
            ExternalMsg::SwitchModeCustomKeepingInputBuffer(x) => ExternalMsgView::SwitchModeCustomKeepingInputBuffer(x@),
            ExternalMsg::PopMode => ExternalMsgView::PopMode,
            ExternalMsg::PopModeKeepingInputBuffer => ExternalMsgView::PopModeKeepingInputBuffer,
            ExternalMsg::SwitchLayout(x) => ExternalMsgView::SwitchLayout(x@),
            ExternalMsg::SwitchLayoutBuiltin(x) => ExternalMsgView::SwitchLayoutBuiltin(x@),
            ExternalMsg::SwitchLayoutCustom(x) => ExternalMsgView::SwitchLayoutCustom(x@),
            ExternalMsg::Call(x) => ExternalMsgView::Call(x@),
            ExternalMsg::CallSilently(x) => ExternalMsgView::CallSilently(x@),
            ExternalMsg::BashExec(x) => ExternalMsgView::BashExec(x@),
            ExternalMsg::BashExecSilently(x) => ExternalMsgView::BashExecSilently(x@),
            ExternalMsg::CallLua(x) => ExternalMsgView::CallLua(x@),
            ExternalMsg::CallLuaSilently(x) => ExternalMsgView::CallLuaSilently(x@),
            ExternalMsg::LuaEval(x) => ExternalMsgView::LuaEval(x@),
            ExternalMsg::LuaEvalSilently(x) => ExternalMsgView::LuaEvalSilently(x@),
            ExternalMsg::Select => ExternalMsgView::Select,
            ExternalMsg::SelectAll => ExternalMsgView::SelectAll,
            ExternalMsg::SelectPath(x) => ExternalMsgView::SelectPath(x@),
            ExternalMsg::UnSelect => ExternalMsgView::UnSelect,
            ExternalMsg::UnSelectAll => ExternalMsgView::UnSelectAll,
            ExternalMsg::UnSelectPath(x) => ExternalMsgView::UnSelectPath(x@),
            ExternalMsg::ToggleSelection => ExternalMsgView::ToggleSelection,
            ExternalMsg::ToggleSelectAll => ExternalMsgView::ToggleSelectAll,
            ExternalMsg::ToggleSelectionByPath(x) => ExternalMsgView::ToggleSelectionByPath(x@),
            ExternalMsg::ClearSelection => ExternalMsgView::ClearSelection,
            ExternalMsg::AddNodeFilter(x) => ExternalMsgView::AddNodeFilter(x@),
            ExternalMsg::AddNodeFilterFromInput(x) => ExternalMsgView::AddNodeFilterFromInput(*x),
            ExternalMsg::RemoveNodeFilter(x) => ExternalMsgView::RemoveNodeFilter(x@),
            ExternalMsg::RemoveNodeFilterFromInput(x) => ExternalMsgView::RemoveNodeFilterFromInput(*x),
            ExternalMsg::ToggleNodeFilter(x) => ExternalMsgView::ToggleNodeFilter(x@),
            ExternalMsg::RemoveLastNodeFilter => ExternalMsgView::RemoveLastNodeFilter,
            ExternalMsg::ResetNodeFilters => ExternalMsgView::ResetNodeFilters,
            ExternalMsg::ClearNodeFilters => ExternalMsgView::ClearNodeFilters,
            ExternalMsg::AddNodeSorter(x) => ExternalMsgView::AddNodeSorter(*x),
            ExternalMsg::RemoveNodeSorter(x) => ExternalMsgView::RemoveNodeSorter(*x),
            ExternalMsg::ReverseNodeSorter(x) => ExternalMsgView::ReverseNodeSorter(*x),
            ExternalMsg::ToggleNodeSorter(x) => ExternalMsgView::ToggleNodeSorter(*x),
            ExternalMsg::RemoveLastNodeSorter => ExternalMsgView::RemoveLastNodeSorter,
            ExternalMsg::ReverseNodeSorters => ExternalMsgView::ReverseNodeSorters,
            ExternalMsg::ResetNodeSorters => ExternalMsgView::ResetNodeSorters,
            ExternalMsg::ClearNodeSorters => ExternalMsgView::ClearNodeSorters,
            ExternalMsg::EnableMouse => ExternalMsgView::EnableMouse,
            ExternalMsg::DisableMouse => ExternalMsgView::DisableMouse,
            ExternalMsg::ToggleMouse => ExternalMsgView::ToggleMouse,
            ExternalMsg::StartFifo(x) => ExternalMsgView::StartFifo(x@),
            ExternalMsg::StopFifo => ExternalMsgView::StopFifo,
            ExternalMsg::ToggleFifo(x) => ExternalMsgView::ToggleFifo(x@),
            ExternalMsg::LogInfo(x) => ExternalMsgView::LogInfo(x@),
            ExternalMsg::LogSuccess(x) => ExternalMsgView::LogSuccess(x@),
            ExternalMsg::LogWarning(x) => ExternalMsgView::LogWarning(x@),
            ExternalMsg::LogError(x) => ExternalMsgView::LogError(x@),
            ExternalMsg::Quit => ExternalMsgView::Quit,
            ExternalMsg::PrintPwdAndQuit => ExternalMsgView::PrintPwdAndQuit,
            ExternalMsg::PrintFocusPathAndQuit => ExternalMsgView::PrintFocusPathAndQuit,
            ExternalMsg::PrintSelectionAndQuit => ExternalMsgView::PrintSelectionAndQuit,
            ExternalMsg::PrintResultAndQuit => ExternalMsgView::PrintResultAndQuit,
            ExternalMsg::PrintAppStateAndQuit => ExternalMsgView::PrintAppStateAndQuit,
            ExternalMsg::Debug(x) => ExternalMsgView::Debug(x@),
            ExternalMsg::Terminate => ExternalMsgView::Terminate,
        }
    }
}

impl ExternalMsg {
    /// Whether the message may run in read-only mode (see [`ExternalMsgView::read_only`]).
    pub fn is_read_only(&self) -> (r: bool)
        ensures
            r == self@.read_only(),
    {
        match self {
            ExternalMsg::Call(_) => false,
            ExternalMsg::CallSilently(_) => false,
            ExternalMsg::BashExec(_) => false,
            ExternalMsg::BashExecSilently(_) => false,
            ExternalMsg::CallLua(_) => false,
            ExternalMsg::CallLuaSilently(_) => false,
            ExternalMsg::LuaEval(_) => false,
            ExternalMsg::LuaEvalSilently(_) => false,
            _ => true,
        }
    }

    /// A copy of the message.
    pub fn copy(&self) -> (r: Self)
        ensures
            r@ == self@,
    {
        match self {
            ExternalMsg::ExplorePwd => ExternalMsg::ExplorePwd,
            ExternalMsg::ExploreParentsAsync => ExternalMsg::ExploreParentsAsync,
            ExternalMsg::ExplorePwdAsync => ExternalMsg::ExplorePwdAsync,
            ExternalMsg::Refresh => ExternalMsg::Refresh,
            ExternalMsg::ClearScreen => ExternalMsg::ClearScreen,
            ExternalMsg::FocusFirst => ExternalMsg::FocusFirst,
            ExternalMsg::FocusLast => ExternalMsg::FocusLast,
            ExternalMsg::FocusPrevious => ExternalMsg::FocusPrevious,
            ExternalMsg::FocusPreviousByRelativeIndex(x) => ExternalMsg::FocusPreviousByRelativeIndex(*x),
            ExternalMsg::FocusPreviousByRelativeIndexFromInput => ExternalMsg::FocusPreviousByRelativeIndexFromInput,
            ExternalMsg::FocusNext => ExternalMsg::FocusNext,
            ExternalMsg::FocusNextByRelativeIndex(x) => ExternalMsg::FocusNextByRelativeIndex(*x),
            ExternalMsg::FocusNextByRelativeIndexFromInput => ExternalMsg::FocusNextByRelativeIndexFromInput,
            ExternalMsg::FocusPath(x) => ExternalMsg::FocusPath(x.clone()),
            ExternalMsg::FocusPathFromInput => ExternalMsg::FocusPathFromInput,
            ExternalMsg::FocusByIndex(x) => ExternalMsg::FocusByIndex(*x),
            ExternalMsg::FocusByIndexFromInput => ExternalMsg::FocusByIndexFromInput,
            ExternalMsg::FocusByFileName(x) => ExternalMsg::FocusByFileName(x.clone()),
            ExternalMsg::ChangeDirectory(x) => ExternalMsg::ChangeDirectory(x.clone()),
            ExternalMsg::Enter => ExternalMsg::Enter,
            ExternalMsg::Back => ExternalMsg::Back,
            ExternalMsg::LastVisitedPath => ExternalMsg::LastVisitedPath,
            ExternalMsg::NextVisitedPath => ExternalMsg::NextVisitedPath,
            ExternalMsg::FollowSymlink => ExternalMsg::FollowSymlink,
            ExternalMsg::UpdateInputBuffer(x) => ExternalMsg::UpdateInputBuffer(*x),
            ExternalMsg::UpdateInputBufferFromKey => ExternalMsg::UpdateInputBufferFromKey,
            ExternalMsg::BufferInput(x) => ExternalMsg::BufferInput(x.clone()),
            ExternalMsg::BufferInputFromKey => ExternalMsg::BufferInputFromKey,
            ExternalMsg::SetInputBuffer(x) => ExternalMsg::SetInputBuffer(x.clone()),
            ExternalMsg::RemoveInputBufferLastCharacter => ExternalMsg::RemoveInputBufferLastCharacter,
            ExternalMsg::RemoveInputBufferLastWord => ExternalMsg::RemoveInputBufferLastWord,
            ExternalMsg::ResetInputBuffer => ExternalMsg::ResetInputBuffer,
            ExternalMsg::SwitchMode(x) => ExternalMsg::SwitchMode(x.clone()),
            ExternalMsg::SwitchModeKeepingInputBuffer(x) => ExternalMsg::SwitchModeKeepingInputBuffer(x.clone()),
            ExternalMsg::SwitchModeBuiltin(x) => ExternalMsg::SwitchModeBuiltin(x.clone()),
            ExternalMsg::SwitchModeBuiltinKeepingInputBuffer(x) => ExternalMsg::SwitchModeBuiltinKeepingInputBuffer(x.clone()),
            ExternalMsg::SwitchModeCustom(x) => ExternalMsg::SwitchModeCustom(x.clone()),
            ExternalMsg::SwitchModeCustomKeepingInputBuffer(x) => ExternalMsg::SwitchModeCustomKeepingInputBuffer(x.clone()),
            ExternalMsg::PopMode => ExternalMsg::PopMode,
            ExternalMsg::PopModeKeepingInputBuffer => ExternalMsg::PopModeKeepingInputBuffer,
            ExternalMsg::SwitchLayout(x) => ExternalMsg::SwitchLayout(x.clone()),
            ExternalMsg::SwitchLayoutBuiltin(x) => ExternalMsg::SwitchLayoutBuiltin(x.clone()),
            ExternalMsg::SwitchLayoutCustom(x) => ExternalMsg::SwitchLayoutCustom(x.clone()),
            ExternalMsg::Call(x) => ExternalMsg::Call(x.copy()),
            ExternalMsg::CallSilently(x) => ExternalMsg::CallSilently(x.copy()),
            ExternalMsg::BashExec(x) => ExternalMsg::BashExec(x.clone()),
            ExternalMsg::BashExecSilently(x) => ExternalMsg::BashExecSilently(x.clone()),
            ExternalMsg::CallLua(x) => ExternalMsg::CallLua(x.clone()),
            ExternalMsg::CallLuaSilently(x) => ExternalMsg::CallLuaSilently(x.clone()),
            ExternalMsg::LuaEval(x) => ExternalMsg::LuaEval(x.clone()),
            ExternalMsg::LuaEvalSilently(x) => ExternalMsg::LuaEvalSilently(x.clone()),
            ExternalMsg::Select => ExternalMsg::Select,
            ExternalMsg::SelectAll => ExternalMsg::SelectAll,
            ExternalMsg::SelectPath(x) => ExternalMsg::SelectPath(x.clone()),
            ExternalMsg::UnSelect => ExternalMsg::UnSelect,
            ExternalMsg::UnSelectAll => ExternalMsg::UnSelectAll,
            ExternalMsg::UnSelectPath(x) => ExternalMsg::UnSelectPath(x.clone()),
            ExternalMsg::ToggleSelection => ExternalMsg::ToggleSelection,
            ExternalMsg::ToggleSelectAll => ExternalMsg::ToggleSelectAll,
            ExternalMsg::ToggleSelectionByPath(x) => ExternalMsg::ToggleSelectionByPath(x.clone()),
            ExternalMsg::ClearSelection => ExternalMsg::ClearSelection,
            ExternalMsg::AddNodeFilter(x) => ExternalMsg::AddNodeFilter(x.copy()),
            ExternalMsg::AddNodeFilterFromInput(x) => ExternalMsg::AddNodeFilterFromInput(*x),
            ExternalMsg::RemoveNodeFilter(x) => ExternalMsg::RemoveNodeFilter(x.copy()),
            ExternalMsg::RemoveNodeFilterFromInput(x) => ExternalMsg::RemoveNodeFilterFromInput(*x),
            ExternalMsg::ToggleNodeFilter(x) => ExternalMsg::ToggleNodeFilter(x.copy()),
            ExternalMsg::RemoveLastNodeFilter => ExternalMsg::RemoveLastNodeFilter,
            ExternalMsg::ResetNodeFilters => ExternalMsg::ResetNodeFilters,
            ExternalMsg::ClearNodeFilters => ExternalMsg::ClearNodeFilters,
            ExternalMsg::AddNodeSorter(x) => ExternalMsg::AddNodeSorter(*x),
            ExternalMsg::RemoveNodeSorter(x) => ExternalMsg::RemoveNodeSorter(*x),
            ExternalMsg::ReverseNodeSorter(x) => ExternalMsg::ReverseNodeSorter(*x),
            ExternalMsg::ToggleNodeSorter(x) => ExternalMsg::ToggleNodeSorter(*x),
            ExternalMsg::RemoveLastNodeSorter => ExternalMsg::RemoveLastNodeSorter,
            ExternalMsg::ReverseNodeSorters => ExternalMsg::ReverseNodeSorters,
            ExternalMsg::ResetNodeSorters => ExternalMsg::ResetNodeSorters,
            ExternalMsg::ClearNodeSorters => ExternalMsg::ClearNodeSorters,
            ExternalMsg::EnableMouse => ExternalMsg::EnableMouse,
            ExternalMsg::DisableMouse => ExternalMsg::DisableMouse,
            ExternalMsg::ToggleMouse => ExternalMsg::ToggleMouse,
            ExternalMsg::StartFifo(x) => ExternalMsg::StartFifo(x.clone()),
            ExternalMsg::StopFifo => ExternalMsg::StopFifo,
            ExternalMsg::ToggleFifo(x) => ExternalMsg::ToggleFifo(x.clone()),
            ExternalMsg::LogInfo(x) => ExternalMsg::LogInfo(x.clone()),
            ExternalMsg::LogSuccess(x) => ExternalMsg::LogSuccess(x.clone()),
            ExternalMsg::LogWarning(x) => ExternalMsg::LogWarning(x.clone()),
            ExternalMsg::LogError(x) => ExternalMsg::LogError(x.clone()),
            ExternalMsg::Quit => ExternalMsg::Quit,
            ExternalMsg::PrintPwdAndQuit => ExternalMsg::PrintPwdAndQuit,
            ExternalMsg::PrintFocusPathAndQuit => ExternalMsg::PrintFocusPathAndQuit,
            ExternalMsg::PrintSelectionAndQuit => ExternalMsg::PrintSelectionAndQuit,
            ExternalMsg::PrintResultAndQuit => ExternalMsg::PrintResultAndQuit,
            ExternalMsg::PrintAppStateAndQuit => ExternalMsg::PrintAppStateAndQuit,
            ExternalMsg::Debug(x) => ExternalMsg::Debug(x.clone()),
            ExternalMsg::Terminate => ExternalMsg::Terminate,
        }
    }

    /// Whether two messages are equal.
    #[verifier::rlimit(50)]
    pub fn same_as(&self, other: &Self) -> (r: bool)
        ensures
            r == (self@ == other@),
    {
        match self {
            ExternalMsg::ExplorePwd => matches!(other, ExternalMsg::ExplorePwd),
            ExternalMsg::ExploreParentsAsync => matches!(other, ExternalMsg::ExploreParentsAsync),
            ExternalMsg::ExplorePwdAsync => matches!(other, ExternalMsg::ExplorePwdAsync),
            ExternalMsg::Refresh => matches!(other, ExternalMsg::Refresh),
            ExternalMsg::ClearScreen => matches!(other, ExternalMsg::ClearScreen),
            ExternalMsg::FocusFirst => matches!(other, ExternalMsg::FocusFirst),
            ExternalMsg::FocusLast => matches!(other, ExternalMsg::FocusLast),
            ExternalMsg::FocusPrevious => matches!(other, ExternalMsg::FocusPrevious),
            ExternalMsg::FocusPreviousByRelativeIndex(x) => match other {
                ExternalMsg::FocusPreviousByRelativeIndex(y) => *x == *y,
                _ => false,
            },
            ExternalMsg::FocusPreviousByRelativeIndexFromInput => matches!(other, ExternalMsg::FocusPreviousByRelativeIndexFromInput),
            ExternalMsg::FocusNext => matches!(other, ExternalMsg::FocusNext),
            ExternalMsg::FocusNextByRelativeIndex(x) => match other {
                ExternalMsg::FocusNextByRelativeIndex(y) => *x == *y,
                _ => false,
            },
            ExternalMsg::FocusNextByRelativeIndexFromInput => matches!(other, ExternalMsg::FocusNextByRelativeIndexFromInput),
            ExternalMsg::FocusPath(x) => match other {
                ExternalMsg::FocusPath(y) => *x == *y,
                _ => false,
            },
            ExternalMsg::FocusPathFromInput => matches!(other, ExternalMsg::FocusPathFromInput),
            ExternalMsg::FocusByIndex(x) => match other {
                ExternalMsg::FocusByIndex(y) => *x == *y,
                _ => false,
            },
            ExternalMsg::FocusByIndexFromInput => matches!(other, ExternalMsg::FocusByIndexFromInput),
            ExternalMsg::FocusByFileName(x) => match other {
                ExternalMsg::FocusByFileName(y) => *x == *y,
                _ => false,
            },
            ExternalMsg::ChangeDirectory(x) => match other {
                ExternalMsg::ChangeDirectory(y) => *x == *y,
                _ => false,
            },
            ExternalMsg::Enter => matches!(other, ExternalMsg::Enter),
            ExternalMsg::Back => matches!(other, ExternalMsg::Back),
            ExternalMsg::LastVisitedPath => matches!(other, ExternalMsg::LastVisitedPath),
            ExternalMsg::NextVisitedPath => matches!(other, ExternalMsg::NextVisitedPath),
            ExternalMsg::FollowSymlink => matches!(other, ExternalMsg::FollowSymlink),
            ExternalMsg::UpdateInputBuffer(x) => match other {
                ExternalMsg::UpdateInputBuffer(y) => *x == *y,
                _ => false,
            },
            ExternalMsg::UpdateInputBufferFromKey => matches!(other, ExternalMsg::UpdateInputBufferFromKey),
            ExternalMsg::BufferInput(x) => match other {
                ExternalMsg::BufferInput(y) => *x == *y,
                _ => false,
            },
            ExternalMsg::BufferInputFromKey => matches!(other, ExternalMsg::BufferInputFromKey),
            ExternalMsg::SetInputBuffer(x) => match other {
                ExternalMsg::SetInputBuffer(y) => *x == *y,
                _ => false,
            },
            ExternalMsg::RemoveInputBufferLastCharacter => matches!(other, ExternalMsg::RemoveInputBufferLastCharacter),
            ExternalMsg::RemoveInputBufferLastWord => matches!(other, ExternalMsg::RemoveInputBufferLastWord),
            ExternalMsg::ResetInputBuffer => matches!(other, ExternalMsg::ResetInputBuffer),
            ExternalMsg::SwitchMode(x) => match other {
                ExternalMsg::SwitchMode(y) => *x == *y,
                _ => false,
            },
            ExternalMsg::SwitchModeKeepingInputBuffer(x) => match other {
                ExternalMsg::SwitchModeKeepingInputBuffer(y) => *x == *y,
                _ => false,
            },
            ExternalMsg::SwitchModeBuiltin(x) => match other {
                ExternalMsg::SwitchModeBuiltin(y) => *x == *y,
                _ => false,
            },
            ExternalMsg::SwitchModeBuiltinKeepingInputBuffer(x) => match other {
                ExternalMsg::SwitchModeBuiltinKeepingInputBuffer(y) => *x == *y,
                _ => false,
            },
            ExternalMsg::SwitchModeCustom(x) => match other {
                ExternalMsg::SwitchModeCustom(y) => *x == *y,
                _ => false,
            },
            ExternalMsg::SwitchModeCustomKeepingInputBuffer(x) => match other {
                ExternalMsg::SwitchModeCustomKeepingInputBuffer(y) => *x == *y,
                _ => false,
            },
            ExternalMsg::PopMode => matches!(other, ExternalMsg::PopMode),
            ExternalMsg::PopModeKeepingInputBuffer => matches!(other, ExternalMsg::PopModeKeepingInputBuffer),
            ExternalMsg::SwitchLayout(x) => match other {
                ExternalMsg::SwitchLayout(y) => *x == *y,
                _ => false,
            },
            ExternalMsg::SwitchLayoutBuiltin(x) => match other {
                ExternalMsg::SwitchLayoutBuiltin(y) => *x == *y,
                _ => false,
            },
            ExternalMsg::SwitchLayoutCustom(x) => match other {
                ExternalMsg::SwitchLayoutCustom(y) => *x == *y,
                _ => false,
            },
            ExternalMsg::Call(x) => match other {
                ExternalMsg::Call(y) => x.same_as(y),
                _ => false,
            },
            ExternalMsg::CallSilently(x) => match other {
                ExternalMsg::CallSilently(y) => x.same_as(y),
                _ => false,
            },
            ExternalMsg::BashExec(x) => match other {
                ExternalMsg::BashExec(y) => *x == *y,
                _ => false,
            },
            ExternalMsg::BashExecSilently(x) => match other {
                ExternalMsg::BashExecSilently(y) => *x == *y,
                _ => false,
            },
            ExternalMsg::CallLua(x) => match other {
                ExternalMsg::CallLua(y) => *x == *y,
                _ => false,
            },
            ExternalMsg::CallLuaSilently(x) => match other {
                ExternalMsg::CallLuaSilently(y) => *x == *y,
                _ => false,
            },
            ExternalMsg::LuaEval(x) => match other {
                ExternalMsg::LuaEval(y) => *x == *y,
                _ => false,
            },
            ExternalMsg::LuaEvalSilently(x) => match other {
                ExternalMsg::LuaEvalSilently(y) => *x == *y,
                _ => false,
            },
            ExternalMsg::Select => matches!(other, ExternalMsg::Select),
            ExternalMsg::SelectAll => matches!(other, ExternalMsg::SelectAll),
            ExternalMsg::SelectPath(x) => match other {
                ExternalMsg::SelectPath(y) => *x == *y,
                _ => false,
            },
            ExternalMsg::UnSelect => matches!(other, ExternalMsg::UnSelect),
            ExternalMsg::UnSelectAll => matches!(other, ExternalMsg::UnSelectAll),
            ExternalMsg::UnSelectPath(x) => match other {
                ExternalMsg::UnSelectPath(y) => *x == *y,
                _ => false,
            },
            ExternalMsg::ToggleSelection => matches!(other, ExternalMsg::ToggleSelection),
            ExternalMsg::ToggleSelectAll => matches!(other, ExternalMsg::ToggleSelectAll),
            ExternalMsg::ToggleSelectionByPath(x) => match other {
                ExternalMsg::ToggleSelectionByPath(y) => *x == *y,
                _ => false,
            },
            ExternalMsg::ClearSelection => matches!(other, ExternalMsg::ClearSelection),
            ExternalMsg::AddNodeFilter(x) => match other {
                ExternalMsg::AddNodeFilter(y) => x.same_as(y),
                _ => false,
            },
            ExternalMsg::AddNodeFilterFromInput(x) => match other {
                ExternalMsg::AddNodeFilterFromInput(y) => *x == *y,
                _ => false,
            },
            ExternalMsg::RemoveNodeFilter(x) => match other {
                ExternalMsg::RemoveNodeFilter(y) => x.same_as(y),
                _ => false,
            },
            ExternalMsg::RemoveNodeFilterFromInput(x) => match other {
                ExternalMsg::RemoveNodeFilterFromInput(y) => *x == *y,
                _ => false,
            },
            ExternalMsg::ToggleNodeFilter(x) => match other {
                ExternalMsg::ToggleNodeFilter(y) => x.same_as(y),
                _ => false,
            },
            ExternalMsg::RemoveLastNodeFilter => matches!(other, ExternalMsg::RemoveLastNodeFilter),
            ExternalMsg::ResetNodeFilters => matches!(other, ExternalMsg::ResetNodeFilters),
            ExternalMsg::ClearNodeFilters => matches!(other, ExternalMsg::ClearNodeFilters),
            ExternalMsg::AddNodeSorter(x) => match other {
                ExternalMsg::AddNodeSorter(y) => *x == *y,
                _ => false,
            },
            ExternalMsg::RemoveNodeSorter(x) => match other {
                ExternalMsg::RemoveNodeSorter(y) => *x == *y,
                _ => false,
            },
            ExternalMsg::ReverseNodeSorter(x) => match other {
                ExternalMsg::ReverseNodeSorter(y) => *x == *y,
                _ => false,
            },
            ExternalMsg::ToggleNodeSorter(x) => match other {
                ExternalMsg::ToggleNodeSorter(y) => *x == *y,
                _ => false,
            },
            ExternalMsg::RemoveLastNodeSorter => matches!(other, ExternalMsg::RemoveLastNodeSorter),
            ExternalMsg::ReverseNodeSorters => matches!(other, ExternalMsg::ReverseNodeSorters),
            ExternalMsg::ResetNodeSorters => matches!(other, ExternalMsg::ResetNodeSorters),
            ExternalMsg::ClearNodeSorters => matches!(other, ExternalMsg::ClearNodeSorters),
            ExternalMsg::EnableMouse => matches!(other, ExternalMsg::EnableMouse),
            ExternalMsg::DisableMouse => matches!(other, ExternalMsg::DisableMouse),
            ExternalMsg::ToggleMouse => matches!(other, ExternalMsg::ToggleMouse),
            ExternalMsg::StartFifo(x) => match other {
                ExternalMsg::StartFifo(y) => *x == *y,
                _ => false,
            },
            ExternalMsg::StopFifo => matches!(other, ExternalMsg::StopFifo),
            ExternalMsg::ToggleFifo(x) => match other {
                ExternalMsg::ToggleFifo(y) => *x == *y,
                _ => false,
            },
            ExternalMsg::LogInfo(x) => match other {
                ExternalMsg::LogInfo(y) => *x == *y,
                _ => false,
            },
            ExternalMsg::LogSuccess(x) => match other {
                ExternalMsg::LogSuccess(y) => *x == *y,
                _ => false,
            },
            ExternalMsg::LogWarning(x) => match other {
                ExternalMsg::LogWarning(y) => *x == *y,
                _ => false,
            },
            ExternalMsg::LogError(x) => match other {
                ExternalMsg::LogError(y) => *x == *y,
                _ => false,
            },
            ExternalMsg::Quit => matches!(other, ExternalMsg::Quit),
            ExternalMsg::PrintPwdAndQuit => matches!(other, ExternalMsg::PrintPwdAndQuit),
            ExternalMsg::PrintFocusPathAndQuit => matches!(other, ExternalMsg::PrintFocusPathAndQuit),
            ExternalMsg::PrintSelectionAndQuit => matches!(other, ExternalMsg::PrintSelectionAndQuit),
            ExternalMsg::PrintResultAndQuit => matches!(other, ExternalMsg::PrintResultAndQuit),
            ExternalMsg::PrintAppStateAndQuit => matches!(other, ExternalMsg::PrintAppStateAndQuit),
            ExternalMsg::Debug(x) => match other {
                ExternalMsg::Debug(y) => *x == *y,
                _ => false,
            },
            ExternalMsg::Terminate => matches!(other, ExternalMsg::Terminate),
        }
    }
}

/// A message from inside the explorer.
#[derive(Debug, Clone)]
pub enum InternalMsg {
    SetDirectory(DirectoryBuffer),
    AddLastFocus(String, Option<String>),
    HandleKey(Key),
}

/// A message to the explorer.
#[derive(Debug, Clone)]
pub enum MsgIn {
    Internal(InternalMsg),
    External(ExternalMsg),
}

/// A message to handle, with the key that sent it (if a key did).
#[derive(Debug, Clone)]
pub struct Task {
    pub msg: MsgIn,
    pub key: Option<Key>,
}

impl Task {
    /// A task for `msg`, sent by `key`.
    pub fn new(msg: MsgIn, key: Option<Key>) -> (r: Self)
        ensures
            r.msg == msg,
            r.key == key,
    {
        Task { msg, key }
    }
}

/// What the explorer asks its runner to do.
#[derive(Debug, Clone)]
pub enum MsgOut {
    Enque(Task),
    ExplorePwdAsync,
    ExploreParentsAsync,
    Refresh,
    ClearScreen,
    Quit,
    PrintPwdAndQuit,
    PrintFocusPathAndQuit,
    PrintSelectionAndQuit,
    PrintResultAndQuit,
    PrintAppStateAndQuit,
    Debug(String),
    Call(Command),
    CallSilently(Command),
    CallLua(String),
    CallLuaSilently(String),
    LuaEval(String),
    LuaEvalSilently(String),
    EnableMouse,
    DisableMouse,
    ToggleMouse,
    StartFifo(String),
    StopFifo,
    ToggleFifo(String),
}

} // verus!
