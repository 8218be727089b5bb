//! The loader: how the indirection library comes to be open, once, and how
//! named symbols are resolved from it, each at most once.
//!
//! The loader decides and its caller acts. Each step takes what has just
//! happened (an event) and says what has to happen next (an action): read the
//! environment variable, open the library at a path, look a symbol up, use an
//! address, or give up with a report. The caller performs the action and
//! comes back with its outcome.

use crate::error::{error_text, LoadError, LoadErrorView};
use vstd::prelude::*;
use vstd::slice::slice_to_vec;

verus! {

/// How far the process has come with the indirection library.
#[derive(Debug, PartialEq, Eq)]
pub enum LibraryState {
    /// Nothing has been asked of the library yet.
    Unopened,
    /// The environment named `path`; the attempt to open it is under way.
    Opening { path: String },
    /// The library at `path` is open, and stays so until the process ends.
    Open { path: String },
    /// The library cannot be had. Nothing is tried again.
    Failed { error: LoadError },
}

/// A `LibraryState` as plain values.
pub enum LibraryStateView {
    Unopened,
    Opening { path: Seq<char> },
    Open { path: Seq<char> },
    Failed { error: LoadErrorView },
}

impl View for LibraryState {
    type V = LibraryStateView;

    open spec fn view(&self) -> LibraryStateView {
        match self {
            LibraryState::Unopened => LibraryStateView::Unopened,
            LibraryState::Opening { path } => LibraryStateView::Opening { path: path@ },
            LibraryState::Open { path } => LibraryStateView::Open { path: path@ },
            LibraryState::Failed { error } => LibraryStateView::Failed { error: error@ },
        }
    }
}

/// What has just happened, as far as the library is concerned.
#[derive(Debug, PartialEq, Eq)]
pub enum LibraryEvent {
    /// A caller asks for the library.
    Requested,
    /// The environment variable was read: its value, or `None` if it is not
    /// set.
    Variable(Option<String>),
    /// The library was opened.
    Opened,
    /// The library could not be opened, for the reason given.
    OpenFailed(String),
}

/// A `LibraryEvent` as plain values.
pub enum LibraryEventView {
    Requested,
    Variable(Option<Seq<char>>),
    Opened,
    OpenFailed(Seq<char>),
}

impl View for LibraryEvent {
    type V = LibraryEventView;

    open spec fn view(&self) -> LibraryEventView {
        match self {
            LibraryEvent::Requested => LibraryEventView::Requested,
            LibraryEvent::Variable(value) => LibraryEventView::Variable(
                match value {
                    Some(path) => Some(path@),
                    None => None,
                },
            ),
            LibraryEvent::Opened => LibraryEventView::Opened,
            LibraryEvent::OpenFailed(cause) => LibraryEventView::OpenFailed(cause@),
        }
    }
}

/// What the caller has to do next to get the library.
#[derive(Debug, PartialEq, Eq)]
pub enum LibraryAction {
    /// Read the environment variable `LIBRARY_VARIABLE`.
    ReadVariable,
    /// Open the library at this path.
    Open(String),
    /// Use the library: it is open.
    Ready,
    /// End the process with this report.
    Abort(LoadError),
}

/// A `LibraryAction` as plain values.
pub enum LibraryActionView {
    ReadVariable,
    Open(Seq<char>),
    Ready,
    Abort(LoadErrorView),
}

impl View for LibraryAction {
    type V = LibraryActionView;

    open spec fn view(&self) -> LibraryActionView {
        match self {
            LibraryAction::ReadVariable => LibraryActionView::ReadVariable,
            LibraryAction::Open(path) => LibraryActionView::Open(path@),
            LibraryAction::Ready => LibraryActionView::Ready,
            LibraryAction::Abort(error) => LibraryActionView::Abort(error@),
        }
    }
}

impl LibraryStateView {
    /// The state after an event. The variable counts only while nothing has
    /// been tried, the outcome of opening only while opening is under way;
    /// an event that does not fit the state changes nothing.
    pub open spec fn next(self, event: LibraryEventView) -> LibraryStateView {
        match (self, event) {
            (LibraryStateView::Unopened, LibraryEventView::Variable(None)) => {
                LibraryStateView::Failed { error: LoadErrorView::VariableNotSet }
            },
            (LibraryStateView::Unopened, LibraryEventView::Variable(Some(path))) => {
                LibraryStateView::Opening { path }
            },
            (LibraryStateView::Opening { path }, LibraryEventView::Opened) => {
                LibraryStateView::Open { path }
            },
            (LibraryStateView::Opening { path }, LibraryEventView::OpenFailed(cause)) => {
                LibraryStateView::Failed { error: LoadErrorView::OpenFailed { path, cause } }
            },
            _ => self,
        }
    }

    /// What a state asks of the caller.
    pub open spec fn action(self) -> LibraryActionView {
        match self {
            LibraryStateView::Unopened => LibraryActionView::ReadVariable,
            LibraryStateView::Opening { path } => LibraryActionView::Open(path),
            LibraryStateView::Open { .. } => LibraryActionView::Ready,
            LibraryStateView::Failed { error } => LibraryActionView::Abort(error),
        }
    }
}

/// What has just happened, as far as one symbol is concerned.
#[derive(Debug, PartialEq, Eq)]
pub enum SymbolEvent {
    /// A caller asks for the symbol.
    Requested,
    /// The library exports the symbol, at this address.
    Found(usize),
    /// The library does not export the symbol, for the reason given.
    Missing(String),
}

/// A `SymbolEvent` as plain values.
pub enum SymbolEventView {
    Requested,
    Found(usize),
    Missing(Seq<char>),
}

impl View for SymbolEvent {
    type V = SymbolEventView;

    open spec fn view(&self) -> SymbolEventView {
        match self {
            SymbolEvent::Requested => SymbolEventView::Requested,
            SymbolEvent::Found(address) => SymbolEventView::Found(*address),
            SymbolEvent::Missing(cause) => SymbolEventView::Missing(cause@),
        }
    }
}

/// What the caller has to do next to get a symbol.
#[derive(Debug, PartialEq, Eq)]
pub enum SymbolAction {
    /// Use this address.
    Use(usize),
    /// Look the symbol up in the open library.
    Lookup,
    /// Get the library first: it is not open yet.
    OpenLibrary,
    /// End the process with this report.
    Abort(LoadError),
}

/// A `SymbolAction` as plain values.
pub enum SymbolActionView {
    Use(usize),
    Lookup,
    OpenLibrary,
    Abort(LoadErrorView),
}

impl View for SymbolAction {
    type V = SymbolActionView;

    open spec fn view(&self) -> SymbolActionView {
        match self {
            SymbolAction::Use(address) => SymbolActionView::Use(*address),
            SymbolAction::Lookup => SymbolActionView::Lookup,
            SymbolAction::OpenLibrary => SymbolActionView::OpenLibrary,
            SymbolAction::Abort(error) => SymbolActionView::Abort(error@),
        }
    }
}

/// A resolved symbol: its name and the address that the library gave for it.
struct SymbolEntry {
    name: Vec<u8>,
    address: usize,
}

/// The state of the loader: that of the library, and the symbols resolved so
/// far.
pub struct Loader {
    library: LibraryState,
    symbols: Vec<SymbolEntry>,
}

/// A `Loader` as plain values.
pub struct LoaderView {
    pub library: LibraryStateView,
    /// The memo: each resolved name with its address.
    pub symbols: Map<Seq<u8>, usize>,
}

/// The memo that a list of entries stands for. Where a name stands twice,
/// the first entry counts.
spec fn memo_of(entries: Seq<SymbolEntry>) -> Map<Seq<u8>, usize>
    decreases entries.len(),
{
    if entries.len() == 0 {
        Map::empty()
    } else {
        memo_of(entries.drop_first()).insert(entries.first().name@, entries.first().address)
    }
}

/// A name that no entry has is not in the memo.
proof fn lemma_memo_absent(entries: Seq<SymbolEntry>, name: Seq<u8>)
    requires
        forall|j: int| 0 <= j < entries.len() ==> entries[j].name@ != name,
    ensures
        !memo_of(entries).contains_key(name),
    decreases entries.len(),
{
    if entries.len() > 0 {
        let rest = entries.drop_first();
        assert forall|j: int| 0 <= j < rest.len() implies rest[j].name@ != name by {
            assert(rest[j] == entries[j + 1]);
        }
        lemma_memo_absent(rest, name);
        assert(entries.first() == entries[0]);
    }
}

/// The memo maps a name to the address of the first entry that has it.
proof fn lemma_memo_first(entries: Seq<SymbolEntry>, name: Seq<u8>, i: int)
    requires
        0 <= i < entries.len(),
        entries[i].name@ == name,
        forall|j: int| 0 <= j < i ==> entries[j].name@ != name,
    ensures
        memo_of(entries).contains_key(name),
        memo_of(entries)[name] == entries[i].address,
    decreases entries.len(),
{
    assert(entries.first() == entries[0]);
    if i > 0 {
        let rest = entries.drop_first();
        assert(rest[i - 1] == entries[i]);
        assert forall|j: int| 0 <= j < i - 1 implies rest[j].name@ != name by {
            assert(rest[j] == entries[j + 1]);
        }
        lemma_memo_first(rest, name, i - 1);
    }
}

/// An entry with a new name, put last, adds just that name to the memo.
proof fn lemma_memo_push(entries: Seq<SymbolEntry>, entry: SymbolEntry)
    requires
        !memo_of(entries).contains_key(entry.name@),
    ensures
        memo_of(entries.push(entry)) == memo_of(entries).insert(entry.name@, entry.address),
    decreases entries.len(),
{
    let longer = entries.push(entry);
    if entries.len() == 0 {
        assert(longer.drop_first() =~= entries);
        assert(longer.first() == entry);
    } else {
        let rest = entries.drop_first();
        assert(longer.drop_first() =~= rest.push(entry));
        assert(longer.first() == entries.first());
        lemma_memo_push(rest, entry);
        assert(memo_of(longer) =~= memo_of(entries).insert(entry.name@, entry.address));
    }
}

impl LoaderView {
    /// The loader of a process that has not touched the library.
    pub open spec fn fresh() -> LoaderView {
        LoaderView { library: LibraryStateView::Unopened, symbols: Map::empty() }
    }

    /// The loader after a step towards the library: its state moves on, the
    /// memo stays.
    pub open spec fn library(self, event: LibraryEventView) -> (LoaderView, LibraryActionView) {
        let library = self.library.next(event);
        (LoaderView { library, symbols: self.symbols }, library.action())
    }

    /// The loader after a step towards a symbol, and what the step asks for.
    ///
    /// Without an open library there is no symbol: the answer is to get the
    /// library, or the report of why it cannot be had. With one, a name in
    /// the memo is answered from the memo, whatever the event says. A name
    /// that is not there is looked up; the address found goes into the memo,
    /// and a name that the library lacks ends in a report that names it and
    /// leaves the memo as it was.
    pub open spec fn get_symbol(self, name: Seq<u8>, event: SymbolEventView) -> (
        LoaderView,
        SymbolActionView,
    ) {
        match self.library {
            LibraryStateView::Open { .. } => {
                if self.symbols.contains_key(name) {
                    (self, SymbolActionView::Use(self.symbols[name]))
                } else {
                    match event {
                        SymbolEventView::Requested => (self, SymbolActionView::Lookup),
                        SymbolEventView::Found(address) => (
                            LoaderView {
                                library: self.library,
                                symbols: self.symbols.insert(name, address),
                            },
                            SymbolActionView::Use(address),
                        ),
                        SymbolEventView::Missing(cause) => (
                            self,
                            SymbolActionView::Abort(LoadErrorView::SymbolNotFound { name, cause }),
                        ),
                    }
                }
            },
            LibraryStateView::Failed { error } => (self, SymbolActionView::Abort(error)),
            _ => (self, SymbolActionView::OpenLibrary),
        }
    }
}

impl View for Loader {
    type V = LoaderView;

    closed spec fn view(&self) -> LoaderView {
        LoaderView { library: self.library@, symbols: memo_of(self.symbols@) }
    }
}

impl LibraryEvent {
    /// The event of a library that could not be opened, from the error of
    /// the dynamic loader. The cause is the text that the error displays as,
    /// unchanged.
    pub fn open_failed(error: &libloading::Error) -> (event: LibraryEvent)
        ensures
            event@ == LibraryEventView::OpenFailed(crate::error::loading_error_text(*error)),
    {
        LibraryEvent::OpenFailed(error_text(error))
    }
}

impl SymbolEvent {
    /// The event of a symbol that the library does not export, from the
    /// error of the dynamic loader. The cause is the text that the error
    /// displays as, unchanged.
    pub fn missing(error: &libloading::Error) -> (event: SymbolEvent)
        ensures
            event@ == SymbolEventView::Missing(crate::error::loading_error_text(*error)),
    {
        SymbolEvent::Missing(error_text(error))
    }
}

/// Whether two byte strings are the same.
fn same_bytes(a: &[u8], b: &[u8]) -> (same: bool)
    ensures
        same == (a@ == b@),
{
    if a.len() != b.len() {
        return false;
    }
    let mut i: usize = 0;
    while i < a.len()
        invariant
            a.len() == b.len(),
            i <= a.len(),
            forall|j: int| 0 <= j < i ==> a@[j] == b@[j],
        decreases a.len() - i,
    {
        if a[i] != b[i] {
            return false;
        }
        i = i + 1;
    }
    assert(a@ =~= b@);
    true
}

/// The address that the memo has for a name, if it has one.
fn find(entries: &Vec<SymbolEntry>, name: &[u8]) -> (found: Option<usize>)
    ensures
        match found {
            Some(address) => memo_of(entries@).contains_key(name@) && memo_of(entries@)[name@]
                == address,
            None => !memo_of(entries@).contains_key(name@),
        },
{
    let mut i: usize = 0;
    while i < entries.len()
        invariant
            i <= entries.len(),
            forall|j: int| 0 <= j < i ==> entries@[j].name@ != name@,
        decreases entries.len() - i,
    {
        if same_bytes(entries[i].name.as_slice(), name) {
            proof {
                lemma_memo_first(entries@, name@, i as int);
            }
            return Some(entries[i].address);
        }
        i = i + 1;
    }
    proof {
        lemma_memo_absent(entries@, name@);
    }
    None
}

impl LibraryState {
    /// What the state asks of the caller.
    pub fn action(&self) -> (action: LibraryAction)
        ensures
            action@ == self@.action(),
    {
        match self {
            LibraryState::Unopened => LibraryAction::ReadVariable,
            LibraryState::Opening { path } => LibraryAction::Open(path.clone()),
            LibraryState::Open { .. } => LibraryAction::Ready,
            LibraryState::Failed { error } => LibraryAction::Abort(error.clone()),
        }
    }

    /// The state after an event.
    pub fn next(self, event: LibraryEvent) -> (state: LibraryState)
        ensures
            state@ == self@.next(event@),
    {
        match self {
            LibraryState::Unopened => match event {
                LibraryEvent::Variable(None) => LibraryState::Failed {
                    error: LoadError::VariableNotSet,
                },
                LibraryEvent::Variable(Some(path)) => LibraryState::Opening { path },
                _ => LibraryState::Unopened,
            },
            LibraryState::Opening { path } => match event {
                LibraryEvent::Opened => LibraryState::Open { path },
                LibraryEvent::OpenFailed(cause) => LibraryState::Failed {
                    error: LoadError::OpenFailed { path, cause },
                },
                _ => LibraryState::Opening { path },
            },
            LibraryState::Open { path } => LibraryState::Open { path },
            LibraryState::Failed { error } => LibraryState::Failed { error },
        }
    }
}

impl Loader {
    /// The loader of a process that has not touched the library.
    pub fn new() -> (loader: Loader)
        ensures
            loader@ == LoaderView::fresh(),
    {
        Loader { library: LibraryState::Unopened, symbols: Vec::new() }
    }
}

/// One step towards the open library.
///
/// The first request has the environment variable read. Its value is the
/// path to open; without a value the library has failed. What opening the
/// path gives decides between open and failed, and there the state stays:
/// an open library is not checked again, a failed one not tried again. The
/// action is what the new state asks for. The memo is not touched.
pub fn library(loader: &mut Loader, event: LibraryEvent) -> (action: LibraryAction)
    ensures
        (final(loader)@, action@) == old(loader)@.library(event@),
{
    let mut state = LibraryState::Unopened;
    std::mem::swap(&mut loader.library, &mut state);
    loader.library = state.next(event);
    loader.library.action()
}

/// One step towards the address of the symbol `name`.
///
/// See `LoaderView::get_symbol` for what is decided. The address is handed
/// on as the library gave it: nothing here looks at what it points to.
pub fn get_symbol(loader: &mut Loader, name: &[u8], event: SymbolEvent) -> (action: SymbolAction)
    ensures
        (final(loader)@, action@) == old(loader)@.get_symbol(name@, event@),
{
    match &loader.library {
        LibraryState::Open { .. } => {},
        LibraryState::Failed { error } => {
            return SymbolAction::Abort(error.clone());
        },
        _ => {
            return SymbolAction::OpenLibrary;
        },
    }
    match find(&loader.symbols, name) {
        Some(address) => SymbolAction::Use(address),
        None => match event {
            SymbolEvent::Requested => SymbolAction::Lookup,
            SymbolEvent::Found(address) => {
                let entry = SymbolEntry { name: slice_to_vec(name), address };
                proof {
                    lemma_memo_push(loader.symbols@, entry);
                }
                loader.symbols.push(entry);
                SymbolAction::Use(address)
            },
            SymbolEvent::Missing(cause) => SymbolAction::Abort(
                LoadError::SymbolNotFound { name: slice_to_vec(name), cause },
            ),
        },
    }
}

/// An open library stays open and a failed one stays failed, whatever
/// happens later: the library is opened at most once, it is not checked
/// again, and a failure is not retried. Each further step repeats the answer.
pub proof fn lemma_settled_library_stays(loader: LoaderView, event: LibraryEventView)
    requires
        loader.library is Open || loader.library is Failed,
    ensures
        loader.library(event) == (loader, loader.library.action()),
        loader.library is Open ==> loader.library.action() == LibraryActionView::Ready,
        loader.library matches LibraryStateView::Failed { error } ==> loader.library.action()
            == LibraryActionView::Abort(error),
{
}

impl LoaderView {
    /// The loader of a process that found `path` in the environment and
    /// opened the library there, and has resolved nothing yet.
    pub open spec fn opened(path: Seq<char>) -> LoaderView {
        LoaderView::fresh().library(LibraryEventView::Variable(Some(path))).0.library(
            LibraryEventView::Opened,
        ).0
    }
}

/// A process binds to the library that its own environment names, and to no
/// other. Started fresh, it is told to open the path found in the variable,
/// and once that is open it holds no symbol: a name is looked up, and the
/// address used is the one that this library gave. So two processes, each
/// with its own path and its own library, get each its own library's value
/// for one and the same name.
pub proof fn lemma_each_process_binds_its_own_library(
    name: Seq<u8>,
    path_a: Seq<char>,
    address_a: usize,
    path_b: Seq<char>,
    address_b: usize,
)
    ensures
        LoaderView::fresh().library(LibraryEventView::Variable(Some(path_a))).1
            == LibraryActionView::Open(path_a),
        LoaderView::fresh().library(LibraryEventView::Variable(Some(path_b))).1
            == LibraryActionView::Open(path_b),
        LoaderView::opened(path_a).library == (LibraryStateView::Open { path: path_a }),
        LoaderView::opened(path_b).library == (LibraryStateView::Open { path: path_b }),
        LoaderView::opened(path_a).get_symbol(name, SymbolEventView::Requested).1
            == SymbolActionView::Lookup,
        LoaderView::opened(path_b).get_symbol(name, SymbolEventView::Requested).1
            == SymbolActionView::Lookup,
        LoaderView::opened(path_a).get_symbol(name, SymbolEventView::Found(address_a)).1
            == SymbolActionView::Use(address_a),
        LoaderView::opened(path_b).get_symbol(name, SymbolEventView::Found(address_b)).1
            == SymbolActionView::Use(address_b),
{
}

/// A symbol is resolved at most once. After the step that found it, every
/// further step for the same name gives the same address and leaves the
/// loader as it is, whatever the library would say now: the memo is not
/// checked against the library again.
pub proof fn lemma_first_resolution_stays(
    loader: LoaderView,
    name: Seq<u8>,
    address: usize,
    later: SymbolEventView,
)
    requires
        loader.library is Open,
    ensures
        ({
            let (after, action) = loader.get_symbol(name, SymbolEventView::Found(address));
            &&& action is Use
            &&& !loader.symbols.contains_key(name) ==> action == SymbolActionView::Use(address)
            &&& after.get_symbol(name, later) == (after, action)
        }),
{
}

/// Without the environment variable nothing is ever resolved. A fresh
/// process that finds the variable unset has failed for good: every further
/// step towards the library, and every step towards any symbol, ends in the
/// report that the variable is not set, never in an address.
pub proof fn lemma_unset_variable_is_fatal(
    name: Seq<u8>,
    library_event: LibraryEventView,
    symbol_event: SymbolEventView,
)
    ensures
        ({
            let (failed, action) = LoaderView::fresh().library(LibraryEventView::Variable(None));
            &&& action == LibraryActionView::Abort(LoadErrorView::VariableNotSet)
            &&& failed.library(library_event) == (failed, action)
            &&& failed.get_symbol(name, symbol_event) == (
                failed,
                SymbolActionView::Abort(LoadErrorView::VariableNotSet),
            )
        }),
{
}

/// An address is used only if the library is open, and only if it is the one
/// in the memo or the one just found.
pub proof fn lemma_address_comes_from_the_library(
    loader: LoaderView,
    name: Seq<u8>,
    event: SymbolEventView,
)
    ensures
        loader.get_symbol(name, event).1 matches SymbolActionView::Use(address) ==> {
            &&& loader.library is Open
            &&& if loader.symbols.contains_key(name) {
                loader.symbols[name] == address
            } else {
                event == SymbolEventView::Found(address)
            }
        },
{
}

/// A symbol that the library lacks ends in a report that names that very
/// symbol, and costs the symbols resolved before nothing: the memo is as it
/// was, and each of them is still answered from it.
pub proof fn lemma_missing_symbol_spares_the_rest(
    loader: LoaderView,
    missing: Seq<u8>,
    cause: Seq<char>,
    resolved: Seq<u8>,
    later: SymbolEventView,
)
    requires
        loader.library is Open,
        !loader.symbols.contains_key(missing),
        loader.symbols.contains_key(resolved),
    ensures
        ({
            let (after, action) = loader.get_symbol(missing, SymbolEventView::Missing(cause));
            &&& action == SymbolActionView::Abort(
                LoadErrorView::SymbolNotFound { name: missing, cause },
            )
            &&& after == loader
            &&& after.get_symbol(resolved, later) == (
                after,
                SymbolActionView::Use(loader.symbols[resolved]),
            )
        }),
{
}

/// Resolving one symbol leaves every other name as it was.
pub proof fn lemma_resolution_spares_the_rest(
    loader: LoaderView,
    name: Seq<u8>,
    event: SymbolEventView,
    other: Seq<u8>,
)
    requires
        other != name,
    ensures
        ({
            let after = loader.get_symbol(name, event).0;
            &&& after.library == loader.library
            &&& after.symbols.contains_key(other) == loader.symbols.contains_key(other)
            &&& after.symbols[other] == loader.symbols[other]
        }),
{
}

} // verus!
