use vstd::prelude::*;
use crate::error::{EntryPoint, JitError};
use crate::gate::InitToken;
use crate::session::{
    compile_diagnostic, engine_target, invoke_result, source_diagnostic, source_ok, unit_target, EngineRecord, JitCompUnit,
    JitEng, Session, UnitRecord,
};

verus! {

/// Checks that source text can cross the native boundary intact.
pub fn check_source(src: &[u8]) -> (r: Result<(), JitError>)
    ensures
        source_ok(src@) ==> r is Ok,
        !source_ok(src@) ==> (r matches Err(JitError::Compilation { diagnostic: d }) && d@
            == source_diagnostic(src@)),
{
    if src.len() == 0 {
        return Err(JitError::Compilation { diagnostic: "the source text is empty".to_owned() });
    }
    let mut i: usize = 0;
    while i < src.len()
        invariant
            0 <= i <= src@.len(),
            src@.len() > 0,
            forall|j: int| 0 <= j < i ==> src@[j] != 0,
        decreases src@.len() - i,
    {
        if src[i] == 0 {
            return Err(
                JitError::Compilation { diagnostic: "the source text holds a NUL byte".to_owned() },
            );
        }
        i = i + 1;
    }
    Ok(())
}

/// An engine: one native compilation context, recorded in a session.
///
/// It is not `Clone`, so it is released at most once, by `release`.
pub struct Engine {
    id: usize,
    include_dirs: Vec<String>,
}

impl Engine {
    /// The index of this engine's record in its session.
    pub closed spec fn id(&self) -> usize {
        self.id
    }

    pub closed spec fn dirs(&self) -> Seq<String> {
        self.include_dirs@
    }

    /// Records the native context that the backend created, with no include
    /// directories. A null context is an engine creation error.
    pub fn new(session: &mut Session, ready: &InitToken, native: JitEng) -> (r: Result<Engine, JitError>)
        requires
            old(session).wf(),
        ensures
            final(session).wf(),
            final(session).units() == old(session).units(),
            native.addr == 0 ==> r == Err::<Engine, JitError>(JitError::EngineCreation)
                && final(session).engines() == old(session).engines(),
            native.addr != 0 ==> (r matches Ok(e) && e.id() == old(session).engines().len()
                && e.dirs() == Seq::<String>::empty()
                && final(session).engines() == old(session).engines().push(
                EngineRecord { raw: native, live: true },
            )),
    {
        Engine::new_with_includes(session, ready, native, Vec::new())
    }

    /// Records the native context that the backend created, together with the
    /// include directories asked for. The directories are kept for the caller
    /// but not yet handed to the backend, which takes none.
    pub fn new_with_includes(
        session: &mut Session,
        ready: &InitToken,
        native: JitEng,
        include_dirs: Vec<String>,
    ) -> (r: Result<Engine, JitError>)
        requires
            old(session).wf(),
        ensures
            final(session).wf(),
            final(session).units() == old(session).units(),
            native.addr == 0 ==> r == Err::<Engine, JitError>(JitError::EngineCreation)
                && final(session).engines() == old(session).engines(),
            native.addr != 0 ==> (r matches Ok(e) && e.id() == old(session).engines().len()
                && e.dirs() == include_dirs@
                && final(session).engines() == old(session).engines().push(
                EngineRecord { raw: native, live: true },
            )),
    {
        if native.addr == 0 {
            return Err(JitError::EngineCreation);
        }
        let id = session.add_engine(native);
        Ok(Engine { id, include_dirs })
    }

    /// The include directories this engine was made with.
    pub fn include_dirs(&self) -> (r: &Vec<String>)
        ensures
            r@ == self.dirs(),
    {
        &self.include_dirs
    }

    /// The native context to compile `src` with, once the engine is known to
    /// be live and the text fit for the boundary.
    pub fn compile_target(&self, session: &Session, src: &[u8]) -> (r: Result<JitEng, JitError>)
        ensures
            engine_target(session.engines(), self.id()) is Err ==> r == engine_target(
                session.engines(),
                self.id(),
            ),
            engine_target(session.engines(), self.id()) is Ok && source_ok(src@) ==> r
                == engine_target(session.engines(), self.id()),
            engine_target(session.engines(), self.id()) is Ok && !source_ok(src@) ==> (r matches Err(
                JitError::Compilation { diagnostic: d },
            ) && d@ == source_diagnostic(src@)),
    {
        let target = session.engine_target(self.id);
        match target {
            Err(e) => Err(e),
            Ok(native) => match check_source(src) {
                Ok(()) => Ok(native),
                Err(e) => Err(e),
            },
        }
    }

    /// Records what the backend returned for a compilation on this engine: a
    /// null unit is a compilation error carrying the backend's diagnostic.
    pub fn jitc(&self, session: &mut Session, native: JitCompUnit, diagnostic: String) -> (r: Result<
        CompilationUnit,
        JitError,
    >)
        requires
            old(session).wf(),
        ensures
            final(session).wf(),
            final(session).engines() == old(session).engines(),
            match engine_target(old(session).engines(), self.id()) {
                Err(e) => r == Err::<CompilationUnit, JitError>(e) && final(session).units()
                    == old(session).units(),
                Ok(_) => if native.addr == 0 {
                    &&& r matches Err(JitError::Compilation { diagnostic: d })
                    &&& d@ == compile_diagnostic(diagnostic@)
                    &&& final(session).units() == old(session).units()
                } else {
                    &&& r matches Ok(u) && u.id() == old(session).units().len()
                    &&& final(session).units() == old(session).units().push(
                        UnitRecord { raw: native, engine: self.id(), retained: false, live: true },
                    )
                },
            },
    {
        match session.add_unit(self.id, native, diagnostic, false) {
            Ok(id) => Ok(CompilationUnit { id }),
            Err(e) => Err(e),
        }
    }

    /// Hands the engine back. Returns its native context, which the caller
    /// releases exactly once; every unit it produced becomes unusable.
    pub fn release(self, session: &mut Session) -> (r: Option<JitEng>)
        requires
            old(session).wf(),
        ensures
            final(session).wf(),
            final(session).units() == old(session).units(),
            engine_target(old(session).engines(), self.id()) is Ok ==> {
                &&& Ok::<JitEng, JitError>(r->Some_0) == engine_target(old(session).engines(), self.id())
                &&& r is Some
                &&& final(session).engines() == old(session).engines().update(
                    self.id() as int,
                    EngineRecord { raw: r->Some_0, live: false },
                )
            },
            engine_target(old(session).engines(), self.id()) is Err ==> r is None
                && final(session).engines() == old(session).engines(),
    {
        session.release_engine(self.id)
    }
}

/// A compiled unit owned by the caller, released once by `release`.
pub struct CompilationUnit {
    id: usize,
}

impl CompilationUnit {
    /// The index of this unit's record in its session.
    pub closed spec fn id(&self) -> usize {
        self.id
    }

    /// The native unit to invoke an entry point of, once it and its engine are
    /// known to be live.
    pub fn target(&self, session: &Session) -> (r: Result<JitCompUnit, JitError>)
        ensures
            r == unit_target(session.engines(), session.units(), self.id()),
    {
        session.unit_target(self.id)
    }

    /// The result of invoking `main`, given what the native call wrote to its
    /// 32-bit slot (`None` when the symbol did not resolve).
    pub fn call_main(&self, session: &Session, slot: Option<i32>) -> (r: Result<i32, JitError>)
        ensures
            r == invoke_result(
                unit_target(session.engines(), session.units(), self.id()),
                EntryPoint::Main,
                slot,
            ),
    {
        match session.unit_target(self.id) {
            Err(e) => Err(e),
            Ok(_) => match slot {
                None => Err(JitError::EntryPointNotFound { entry: EntryPoint::Main }),
                Some(v) => Ok(v),
            },
        }
    }

    /// The result of invoking `kernel`, given what the native call wrote to
    /// its pointer-width slot (`None` when the symbol did not resolve).
    pub fn call(&self, session: &Session, slot: Option<usize>) -> (r: Result<usize, JitError>)
        ensures
            r == invoke_result(
                unit_target(session.engines(), session.units(), self.id()),
                EntryPoint::Kernel,
                slot,
            ),
    {
        match session.unit_target(self.id) {
            Err(e) => Err(e),
            Ok(_) => match slot {
                None => Err(JitError::EntryPointNotFound { entry: EntryPoint::Kernel }),
                Some(v) => Ok(v),
            },
        }
    }

    /// Hands the unit back. Returns its native unit for release while its
    /// engine is live, and nothing once the engine has gone.
    pub fn release(self, session: &mut Session) -> (r: Option<JitCompUnit>)
        requires
            old(session).wf(),
        ensures
            final(session).wf(),
            final(session).engines() == old(session).engines(),
            unit_target(old(session).engines(), old(session).units(), self.id()) is Ok ==> {
                &&& Ok::<JitCompUnit, JitError>(r->Some_0) == unit_target(
                    old(session).engines(),
                    old(session).units(),
                    self.id(),
                )
                &&& r is Some
                &&& final(session).units() == old(session).units().update(
                    self.id() as int,
                    UnitRecord { live: false, ..old(session).units()[self.id() as int] },
                )
            },
            unit_target(old(session).engines(), old(session).units(), self.id()) == Err::<
                JitCompUnit,
                JitError,
            >(JitError::UseAfterEngineRelease) ==> {
                &&& r is None
                &&& final(session).units() == old(session).units().update(
                    self.id() as int,
                    UnitRecord { live: false, ..old(session).units()[self.id() as int] },
                )
            },
            unit_target(old(session).engines(), old(session).units(), self.id()) == Err::<
                JitCompUnit,
                JitError,
            >(JitError::ForeignHandle) ==> r is None && final(session).units()
                == old(session).units(),
    {
        proof {
            if self.id < session.units().len() {
                session.lemma_unit_record(self.id as int);
            }
        }
        session.release_unit(self.id)
    }
}

/// A resident library unit: its symbols stay available to every unit
/// compiled later on the same engine, so it is never released.
pub struct GobalLibCompilationUnit {
    id: usize,
}

impl GobalLibCompilationUnit {
    /// The index of this unit's record in its session.
    pub closed spec fn id(&self) -> usize {
        self.id
    }

    /// Records what the backend returned for a library compilation on
    /// `engine`, as `Engine::jitc` does, but as a unit that is never released.
    pub fn init(engine: &Engine, session: &mut Session, native: JitCompUnit, diagnostic: String) -> (r:
        Result<GobalLibCompilationUnit, JitError>)
        requires
            old(session).wf(),
        ensures
            final(session).wf(),
            final(session).engines() == old(session).engines(),
            match engine_target(old(session).engines(), engine.id()) {
                Err(e) => r == Err::<GobalLibCompilationUnit, JitError>(e) && final(session).units()
                    == old(session).units(),
                Ok(_) => if native.addr == 0 {
                    &&& r matches Err(JitError::Compilation { diagnostic: d })
                    &&& d@ == compile_diagnostic(diagnostic@)
                    &&& final(session).units() == old(session).units()
                } else {
                    &&& r matches Ok(u) && u.id() == old(session).units().len()
                    &&& final(session).units() == old(session).units().push(
                        UnitRecord { raw: native, engine: engine.id(), retained: true, live: true },
                    )
                },
            },
    {
        match session.add_unit(engine.id, native, diagnostic, true) {
            Ok(id) => Ok(GobalLibCompilationUnit { id }),
            Err(e) => Err(e),
        }
    }
}

} // verus!
