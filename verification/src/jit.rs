//! Decisions made while attaching to the optional JIT backend: which
//! library to open, which symbols to resolve and in what order, and when
//! the attachment stands or has failed. Opening the library and calling
//! into it are left to the caller.

use vstd::prelude::*;

verus! {

/// Exported names of the five backend procedures, each with the
/// terminating NUL that the symbol lookup expects.
pub const JIT_PROC_NAME_STARTUP: &'static str = "RpsJITStartup\0";

pub const JIT_PROC_NAME_SHUTDOWN: &'static str = "RpsJITShutdown\0";

pub const JIT_PROC_NAME_LOAD: &'static str = "RpsJITLoad\0";

pub const JIT_PROC_NAME_UNLOAD: &'static str = "RpsJITUnload\0";

pub const JIT_PROC_NAME_GETENTRYPOINT: &'static str = "RpsJITGetEntryPoint\0";

pub const JIT_LIB_NAME_WINDOWS: &'static str = "rps-jit.dll";

/// The operating systems the binding layer is built for.
#[derive(Clone, Copy, Debug, PartialEq, Eq, Hash, Structural)]
pub enum Platform {
    Windows,
    /// Linux, Android included.
    Linux,
    MacOs,
}

impl Platform {
    /// Whether a JIT backend library is known for this platform.
    pub open spec fn has_jit_backend(self) -> bool {
        self is Windows
    }

    #[verifier::when_used_as_spec(has_jit_backend)]
    pub fn is_supported(self) -> (supported: bool)
        ensures
            supported == self.has_jit_backend(),
    {
        match self {
            Platform::Windows => true,
            _ => false,
        }
    }
}

/// File name of the JIT backend library on `platform`.
pub fn jit_lib_name(platform: Platform) -> (name: &'static str)
    requires
        platform.has_jit_backend(),
    ensures
        name@ == JIT_LIB_NAME_WINDOWS@,
{
    JIT_LIB_NAME_WINDOWS
}

/// Where the backend library is to be looked for.
#[derive(Debug)]
pub enum LibraryLocation<P> {
    /// The given path names the library file itself.
    Verbatim(P),
    /// The library file of the given name inside the given directory.
    InDirectory(P, &'static str),
    /// The library file of the given name, left to the system's library
    /// search.
    SearchPath(&'static str),
}

/// Whether `location` is where the backend is looked for, given the
/// caller's `path` and whether that path names an existing file.
pub open spec fn is_location_for<P>(
    location: LibraryLocation<P>,
    path: Option<P>,
    path_is_file: bool,
) -> bool {
    match path {
        Some(p) => if path_is_file {
            location == LibraryLocation::Verbatim(p)
        } else {
            location matches LibraryLocation::InDirectory(dir, name) && dir == p && name@
                == JIT_LIB_NAME_WINDOWS@
        },
        None => location matches LibraryLocation::SearchPath(name) && name@
            == JIT_LIB_NAME_WINDOWS@,
    }
}

/// Decides where to look for the backend library. A path that names an
/// existing file is used as it is; any other path is taken as a directory
/// and the platform's library file name is appended; with no path the file
/// name alone is used. `path_is_file` is read only when a path is given.
///
/// The platform's file name is needed unless the path names a file, and only
/// then must the platform have a backend.
pub fn locate_library<P>(path: Option<P>, path_is_file: bool, platform: Platform) -> (location:
    LibraryLocation<P>)
    requires
        path is None || !path_is_file ==> platform.has_jit_backend(),
    ensures
        is_location_for(location, path, path_is_file),
{
    match path {
        Some(p) => {
            if path_is_file {
                LibraryLocation::Verbatim(p)
            } else {
                LibraryLocation::InDirectory(p, jit_lib_name(platform))
            }
        },
        None => LibraryLocation::SearchPath(jit_lib_name(platform)),
    }
}

/// The five procedures a backend library must export.
#[derive(Clone, Copy, Debug, PartialEq, Eq, Hash, Structural)]
pub enum JitProc {
    Startup,
    Shutdown,
    Load,
    Unload,
    GetEntryPoint,
}

impl JitProc {
    /// Position in the order of resolution, from zero.
    pub open spec fn index(self) -> nat {
        match self {
            JitProc::Startup => 0,
            JitProc::Shutdown => 1,
            JitProc::Load => 2,
            JitProc::Unload => 3,
            JitProc::GetEntryPoint => 4,
        }
    }

    /// The procedure resolved after this one, if any.
    pub open spec fn successor(self) -> Option<JitProc> {
        match self {
            JitProc::Startup => Some(JitProc::Shutdown),
            JitProc::Shutdown => Some(JitProc::Load),
            JitProc::Load => Some(JitProc::Unload),
            JitProc::Unload => Some(JitProc::GetEntryPoint),
            JitProc::GetEntryPoint => None,
        }
    }

    /// The exported name, as a sequence of characters ending in NUL.
    pub open spec fn symbol_name(self) -> Seq<char> {
        match self {
            JitProc::Startup => JIT_PROC_NAME_STARTUP@,
            JitProc::Shutdown => JIT_PROC_NAME_SHUTDOWN@,
            JitProc::Load => JIT_PROC_NAME_LOAD@,
            JitProc::Unload => JIT_PROC_NAME_UNLOAD@,
            JitProc::GetEntryPoint => JIT_PROC_NAME_GETENTRYPOINT@,
        }
    }

    #[verifier::when_used_as_spec(successor)]
    pub fn next(self) -> (following: Option<JitProc>)
        ensures
            following == self.successor(),
    {
        match self {
            JitProc::Startup => Some(JitProc::Shutdown),
            JitProc::Shutdown => Some(JitProc::Load),
            JitProc::Load => Some(JitProc::Unload),
            JitProc::Unload => Some(JitProc::GetEntryPoint),
            JitProc::GetEntryPoint => None,
        }
    }

    /// The name to look up in the backend library.
    pub fn symbol(self) -> (name: &'static str)
        ensures
            name@ == self.symbol_name(),
    {
        match self {
            JitProc::Startup => JIT_PROC_NAME_STARTUP,
            JitProc::Shutdown => JIT_PROC_NAME_SHUTDOWN,
            JitProc::Load => JIT_PROC_NAME_LOAD,
            JitProc::Unload => JIT_PROC_NAME_UNLOAD,
            JitProc::GetEntryPoint => JIT_PROC_NAME_GETENTRYPOINT,
        }
    }

    /// The successor is the procedure at the next position, and only the
    /// last procedure has none.
    pub proof fn lemma_successor_is_next(self)
        ensures
            self.successor() matches Some(q) ==> q.index() == self.index() + 1,
            self.successor() is None <==> self.index() == 4,
    {
    }
}

/// Why an attachment failed.
#[derive(Clone, Copy, Debug, PartialEq, Eq, Hash, Structural)]
pub enum LoadError {
    /// The library could not be opened.
    Library,
    /// The library was opened but does not export this procedure.
    Symbol(JitProc),
}

/// What the caller is to do next.
#[derive(Clone, Copy, Debug, PartialEq, Eq, Hash, Structural)]
pub enum LoaderAction {
    /// Open the library at the decided location.
    Open,
    /// Look this procedure up in the opened library.
    Resolve(JitProc),
    /// All five procedures are resolved: the loader stands.
    Finish,
    /// Give up; no loader is constructed.
    Abort(LoadError),
}

/// Progress of an attachment.
#[derive(Clone, Copy, Debug, PartialEq, Eq, Hash, Structural)]
pub enum LoaderState {
    /// The library is yet to be opened.
    Opening,
    /// The library is open and this procedure is the next to resolve.
    Resolving(JitProc),
    Ready,
    Failed(LoadError),
}

impl LoaderState {
    /// The action this state asks for.
    pub open spec fn pending(self) -> LoaderAction {
        match self {
            LoaderState::Opening => LoaderAction::Open,
            LoaderState::Resolving(p) => LoaderAction::Resolve(p),
            LoaderState::Ready => LoaderAction::Finish,
            LoaderState::Failed(e) => LoaderAction::Abort(e),
        }
    }

    /// The state after the pending action succeeded (`ok`) or failed.
    /// A failure is final at once; `Ready` and `Failed` do not move.
    pub open spec fn after(self, ok: bool) -> LoaderState {
        match self {
            LoaderState::Opening => if ok {
                LoaderState::Resolving(JitProc::Startup)
            } else {
                LoaderState::Failed(LoadError::Library)
            },
            LoaderState::Resolving(p) => if !ok {
                LoaderState::Failed(LoadError::Symbol(p))
            } else {
                match p.successor() {
                    Some(q) => LoaderState::Resolving(q),
                    None => LoaderState::Ready,
                }
            },
            LoaderState::Ready => self,
            LoaderState::Failed(_) => self,
        }
    }

    /// The state after a run of actions with the given outcomes, first
    /// outcome first.
    pub open spec fn after_all(self, outcomes: Seq<bool>) -> LoaderState
        decreases outcomes.len(),
    {
        if outcomes.len() == 0 {
            self
        } else {
            self.after(outcomes[0]).after_all(outcomes.skip(1))
        }
    }

    /// How many more actions must succeed before the loader stands. Meant
    /// for states that have not failed.
    pub open spec fn remaining(self) -> nat {
        match self {
            LoaderState::Opening => 6,
            LoaderState::Resolving(p) => (5 - p.index()) as nat,
            LoaderState::Ready => 0,
            LoaderState::Failed(_) => 0,
        }
    }

    /// The state in which every attachment begins.
    pub fn start() -> (state: LoaderState)
        ensures
            state == LoaderState::Opening,
    {
        LoaderState::Opening
    }

    #[verifier::when_used_as_spec(pending)]
    pub fn action(self) -> (action: LoaderAction)
        ensures
            action == self.pending(),
    {
        match self {
            LoaderState::Opening => LoaderAction::Open,
            LoaderState::Resolving(p) => LoaderAction::Resolve(p),
            LoaderState::Ready => LoaderAction::Finish,
            LoaderState::Failed(e) => LoaderAction::Abort(e),
        }
    }

    #[verifier::when_used_as_spec(after)]
    pub fn advance(self, ok: bool) -> (state: LoaderState)
        ensures
            state == self.after(ok),
    {
        match self {
            LoaderState::Opening => {
                if ok {
                    LoaderState::Resolving(JitProc::Startup)
                } else {
                    LoaderState::Failed(LoadError::Library)
                }
            },
            LoaderState::Resolving(p) => {
                if !ok {
                    LoaderState::Failed(LoadError::Symbol(p))
                } else {
                    match p.next() {
                        Some(q) => LoaderState::Resolving(q),
                        None => LoaderState::Ready,
                    }
                }
            },
            LoaderState::Ready => self,
            LoaderState::Failed(_) => self,
        }
    }

    /// A failed attachment stays failed, with the same reason, whatever
    /// follows: no loader ever comes of it.
    pub proof fn lemma_failure_is_final(self, outcomes: Seq<bool>)
        requires
            self is Failed,
        ensures
            self.after_all(outcomes) == self,
        decreases outcomes.len(),
    {
        if outcomes.len() > 0 {
            self.lemma_failure_is_final(outcomes.skip(1));
        }
    }

    /// A loader that stands keeps standing.
    pub proof fn lemma_ready_is_final(self, outcomes: Seq<bool>)
        requires
            self is Ready,
        ensures
            self.after_all(outcomes) == self,
        decreases outcomes.len(),
    {
        if outcomes.len() > 0 {
            self.lemma_ready_is_final(outcomes.skip(1));
        }
    }

    /// From a state that has not failed, the loader stands after a run of
    /// actions exactly when the run is long enough and each of the actions
    /// still needed succeeded.
    pub proof fn lemma_ready_iff_all_succeed(self, outcomes: Seq<bool>)
        requires
            !(self is Failed),
        ensures
            self.after_all(outcomes) is Ready <==> outcomes.len() >= self.remaining() && (forall|
                i: int,
            | 0 <= i < self.remaining() ==> outcomes[i]),
        decreases outcomes.len(),
    {
        if self is Ready {
            self.lemma_ready_is_final(outcomes);
        } else if outcomes.len() > 0 {
            let rest = outcomes.skip(1);
            let step = self.after(outcomes[0]);
            if outcomes[0] {
                step.lemma_ready_iff_all_succeed(rest);
                assert(step.remaining() + 1 == self.remaining());
                if step.after_all(rest) is Ready {
                    assert forall|i: int| 0 <= i < self.remaining() implies outcomes[i] by {
                        if i > 0 {
                            assert(rest[i - 1] == outcomes[i]);
                        }
                    }
                }
                if outcomes.len() >= self.remaining() && (forall|i: int|
                    0 <= i < self.remaining() ==> outcomes[i]) {
                    assert forall|i: int| 0 <= i < step.remaining() implies rest[i] by {
                        assert(rest[i] == outcomes[i + 1]);
                    }
                }
            } else {
                step.lemma_failure_is_final(rest);
            }
        }
    }

    /// An attachment stands exactly when the library opened and all five
    /// procedures resolved.
    pub proof fn lemma_attached_iff_six_successes(outcomes: Seq<bool>)
        ensures
            LoaderState::Opening.after_all(outcomes) is Ready <==> outcomes.len() >= 6 && (forall|
                i: int,
            | 0 <= i < 6 ==> outcomes[i]),
    {
        LoaderState::Opening.lemma_ready_iff_all_succeed(outcomes);
    }

    /// When the library cannot be opened, the attachment fails with the
    /// library as the reason and nothing that follows revives it.
    pub proof fn lemma_missing_library_fails(outcomes: Seq<bool>)
        requires
            outcomes.len() > 0,
            !outcomes[0],
        ensures
            LoaderState::Opening.after_all(outcomes) == LoaderState::Failed(LoadError::Library),
    {
        LoaderState::Failed(LoadError::Library).lemma_failure_is_final(outcomes.skip(1));
    }
}

/// Opaque identifier of a module loaded into the JIT backend, held as the
/// address the backend handed out.
#[derive(Clone, Copy, Debug, PartialEq, Eq, Hash, Structural)]
pub struct JITModule {
    address: usize,
}

impl JITModule {
    pub closed spec fn spec_address(self) -> usize {
        self.address
    }

    pub fn from_raw(address: usize) -> (module: JITModule)
        ensures
            module.spec_address() == address,
    {
        JITModule { address }
    }

    #[verifier::when_used_as_spec(spec_address)]
    pub fn into_raw(self) -> (address: usize)
        ensures
            address == self.spec_address(),
    {
        self.address
    }

    pub fn is_null(self) -> (null: bool)
        ensures
            null <==> self.spec_address() == 0,
    {
        self.address == 0
    }
}

} // verus!
