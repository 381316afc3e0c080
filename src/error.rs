use vstd::prelude::*;

verus! {

/// The fixed, argument-free entry points that a compiled unit can expose.
#[derive(Clone, Copy, Debug, PartialEq, Eq, Structural)]
pub enum EntryPoint {
    /// `main`, whose result is written to a 32-bit signed slot.
    Main,
    /// `kernel`, whose result is written to a pointer-width unsigned slot.
    Kernel,
}

/// The symbol name of an entry point, as characters.
pub open spec fn entry_name(e: EntryPoint) -> Seq<char> {
    match e {
        EntryPoint::Main => seq!['m', 'a', 'i', 'n'],
        EntryPoint::Kernel => seq!['k', 'e', 'r', 'n', 'e', 'l'],
    }
}

impl EntryPoint {
    /// The symbol that the backend resolves for this entry point.
    pub fn name(&self) -> (r: String)
        ensures
            r@ == entry_name(*self),
    {
        match self {
            EntryPoint::Main => {
                proof { reveal_strlit("main"); }
                "main".to_owned()
            },
            EntryPoint::Kernel => {
                proof { reveal_strlit("kernel"); }
                "kernel".to_owned()
            },
        }
    }
}

/// Everything that can go wrong around the native backend.
#[derive(Clone, Debug, PartialEq, Eq)]
pub enum JitError {
    /// The backend's global setup failed; nothing further may be used.
    Initialization,
    /// The backend could not allocate an engine context.
    EngineCreation,
    /// Source text did not compile; carries a non-empty diagnostic.
    Compilation { diagnostic: String },
    /// The requested entry point is absent from the compiled unit.
    EntryPointNotFound { entry: EntryPoint },
    /// A unit was used after the engine that produced it was released.
    UseAfterEngineRelease,
    /// A handle that the session at hand never issued.
    ForeignHandle,
}

} // verus!
