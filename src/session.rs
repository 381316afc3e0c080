use vstd::prelude::*;
use crate::error::{EntryPoint, JitError};
use crate::gate::InitToken;

verus! {

/// The address of an engine context owned by the backend; zero is null.
#[derive(Clone, Copy, Debug, PartialEq, Eq, Structural)]
pub struct JitEng {
    pub addr: usize,
}

/// The address of a translation unit compiled by the backend; zero is null.
#[derive(Clone, Copy, Debug, PartialEq, Eq, Structural)]
pub struct JitCompUnit {
    pub addr: usize,
}

/// What the session knows of one native engine context.
#[derive(Clone, Copy, Debug, PartialEq, Eq, Structural)]
pub struct EngineRecord {
    /// The native context; never null.
    pub raw: JitEng,
    /// False once the context has been handed back for release.
    pub live: bool,
}

/// What the session knows of one native compiled unit.
#[derive(Clone, Copy, Debug, PartialEq, Eq, Structural)]
pub struct UnitRecord {
    /// The native unit; never null.
    pub raw: JitCompUnit,
    /// The index of the engine record that compiled it.
    pub engine: usize,
    /// A resident library unit, which is never released.
    pub retained: bool,
    /// False once the unit has been released.
    pub live: bool,
}

/// Diagnostic used when the backend rejects source without saying why.
pub open spec fn compile_diagnostic(d: Seq<char>) -> Seq<char> {
    if d.len() > 0 {
        d
    } else {
        "the backend rejected the source without a diagnostic"@
    }
}

/// Source text that the backend can be handed: non-empty, and free of NUL
/// bytes, which would cut it short at the native boundary.
pub open spec fn source_ok(s: Seq<u8>) -> bool {
    s.len() > 0 && forall|i: int| 0 <= i < s.len() ==> s[i] != 0
}

/// Why source text cannot be handed to the backend.
pub open spec fn source_diagnostic(s: Seq<u8>) -> Seq<char> {
    if s.len() == 0 {
        "the source text is empty"@
    } else {
        "the source text holds a NUL byte"@
    }
}

/// The native engine that the engine record `id` stands for, if it may be used.
pub open spec fn engine_target(engines: Seq<EngineRecord>, id: usize) -> Result<JitEng, JitError> {
    if id >= engines.len() {
        Err(JitError::ForeignHandle)
    } else if !engines[id as int].live {
        Err(JitError::UseAfterEngineRelease)
    } else {
        Ok(engines[id as int].raw)
    }
}

/// The native unit that the owned unit record `id` stands for, if it may be
/// invoked.
pub open spec fn unit_target(
    engines: Seq<EngineRecord>,
    units: Seq<UnitRecord>,
    id: usize,
) -> Result<JitCompUnit, JitError> {
    if id >= units.len() || units[id as int].retained || !units[id as int].live
        || units[id as int].engine >= engines.len() {
        Err(JitError::ForeignHandle)
    } else if !engines[units[id as int].engine as int].live {
        Err(JitError::UseAfterEngineRelease)
    } else {
        Ok(units[id as int].raw)
    }
}

/// The result of invoking an entry point, given what the native call wrote.
pub open spec fn invoke_result<T>(
    target: Result<JitCompUnit, JitError>,
    entry: EntryPoint,
    slot: Option<T>,
) -> Result<T, JitError> {
    match target {
        Err(e) => Err(e),
        Ok(_) => match slot {
            None => Err(JitError::EntryPointNotFound { entry }),
            Some(v) => Ok(v),
        },
    }
}

/// The ownership records of every engine and unit made through one embedding.
///
/// Engines and units are indices into these records, so a unit whose engine
/// has been released is detected rather than handed to the backend.
pub struct Session {
    engines: Vec<EngineRecord>,
    units: Vec<UnitRecord>,
}

impl Session {
    pub closed spec fn engines(&self) -> Seq<EngineRecord> {
        self.engines@
    }

    pub closed spec fn units(&self) -> Seq<UnitRecord> {
        self.units@
    }

    /// Every handle is non-zero, every unit names an engine record, and a
    /// retained unit is never released.
    pub closed spec fn wf(&self) -> bool {
        &&& forall|i: int| 0 <= i < self.engines@.len() ==> self.engines@[i].raw.addr != 0
        &&& forall|i: int|
            0 <= i < self.units@.len() ==> {
                &&& self.units@[i].raw.addr != 0
                &&& self.units@[i].engine < self.engines@.len()
                &&& (self.units@[i].retained ==> self.units@[i].live)
            }
    }

    /// What well-formedness says of one unit record.
    pub proof fn lemma_unit_record(&self, i: int)
        requires
            self.wf(),
            0 <= i < self.units().len(),
        ensures
            self.units()[i].raw.addr != 0,
            self.units()[i].engine < self.engines().len(),
            self.units()[i].retained ==> self.units()[i].live,
    {
    }

    pub fn new() -> (r: Session)
        ensures
            r.wf(),
            r.engines() == Seq::<EngineRecord>::empty(),
            r.units() == Seq::<UnitRecord>::empty(),
    {
        Session { engines: Vec::new(), units: Vec::new() }
    }

    pub(crate) fn engine_target(&self, id: usize) -> (r: Result<JitEng, JitError>)
        ensures
            r == engine_target(self.engines(), id),
    {
        if id >= self.engines.len() {
            Err(JitError::ForeignHandle)
        } else if !self.engines[id].live {
            Err(JitError::UseAfterEngineRelease)
        } else {
            Ok(self.engines[id].raw)
        }
    }

    pub(crate) fn unit_target(&self, id: usize) -> (r: Result<JitCompUnit, JitError>)
        ensures
            r == unit_target(self.engines(), self.units(), id),
    {
        if id >= self.units.len() {
            return Err(JitError::ForeignHandle);
        }
        let u = self.units[id];
        if u.retained || !u.live || u.engine >= self.engines.len() {
            Err(JitError::ForeignHandle)
        } else if !self.engines[u.engine].live {
            Err(JitError::UseAfterEngineRelease)
        } else {
            Ok(u.raw)
        }
    }

    pub(crate) fn add_engine(&mut self, raw: JitEng) -> (id: usize)
        requires
            old(self).wf(),
            raw.addr != 0,
        ensures
            final(self).wf(),
            id == old(self).engines().len(),
            final(self).engines() == old(self).engines().push(EngineRecord { raw, live: true }),
            final(self).units() == old(self).units(),
    {
        let id = self.engines.len();
        self.engines.push(EngineRecord { raw, live: true });
        id
    }

    /// Records a unit that the engine record `engine` compiled.
    pub(crate) fn add_unit(
        &mut self,
        engine: usize,
        unit_raw: JitCompUnit,
        diagnostic: String,
        retained: bool,
    ) -> (r: Result<usize, JitError>)
        requires
            old(self).wf(),
        ensures
            final(self).wf(),
            final(self).engines() == old(self).engines(),
            match engine_target(old(self).engines(), engine) {
                Err(e) => r == Err::<usize, JitError>(e) && final(self).units() == old(self).units(),
                Ok(_) => if unit_raw.addr == 0 {
                    &&& r matches Err(JitError::Compilation { diagnostic: d })
                    &&& d@ == compile_diagnostic(diagnostic@)
                    &&& final(self).units() == old(self).units()
                } else {
                    &&& r matches Ok(id) && id == old(self).units().len()
                    &&& final(self).units() == old(self).units().push(
                        UnitRecord { raw: unit_raw, engine, retained, live: true },
                    )
                },
            },
    {
        match self.engine_target(engine) {
            Err(e) => Err(e),
            Ok(_) => {
                if unit_raw.addr == 0 {
                    let d = if !diagnostic.as_str().is_empty() {
                        diagnostic
                    } else {
                        "the backend rejected the source without a diagnostic".to_owned()
                    };
                    Err(JitError::Compilation { diagnostic: d })
                } else {
                    let id = self.units.len();
                    self.units.push(UnitRecord { raw: unit_raw, engine, retained, live: true });
                    Ok(id)
                }
            },
        }
    }

    /// Marks a live engine record released and returns its native context,
    /// which the caller releases exactly once.
    pub(crate) fn release_engine(&mut self, id: usize) -> (r: Option<JitEng>)
        requires
            old(self).wf(),
        ensures
            final(self).wf(),
            final(self).units() == old(self).units(),
            if id < old(self).engines().len() && old(self).engines()[id as int].live {
                &&& r == Some(old(self).engines()[id as int].raw)
                &&& final(self).engines() == old(self).engines().update(
                    id as int,
                    EngineRecord { raw: old(self).engines()[id as int].raw, live: false },
                )
            } else {
                r is None && final(self).engines() == old(self).engines()
            },
    {
        if id < self.engines.len() && self.engines[id].live {
            let raw = self.engines[id].raw;
            self.engines.set(id, EngineRecord { raw, live: false });
            Some(raw)
        } else {
            None
        }
    }

    /// Marks a live owned unit record released. Its native unit is returned
    /// for release only while its engine is live: a released engine took its
    /// units with it.
    pub(crate) fn release_unit(&mut self, id: usize) -> (r: Option<JitCompUnit>)
        requires
            old(self).wf(),
        ensures
            final(self).wf(),
            final(self).engines() == old(self).engines(),
            if id < old(self).units().len() && !old(self).units()[id as int].retained
                && old(self).units()[id as int].live {
                let u = old(self).units()[id as int];
                &&& final(self).units() == old(self).units().update(
                    id as int,
                    UnitRecord { live: false, ..u },
                )
                &&& r == (if engine_target(old(self).engines(), u.engine) is Ok {
                    Some(u.raw)
                } else {
                    None::<JitCompUnit>
                })
            } else {
                r is None && final(self).units() == old(self).units()
            },
    {
        if id < self.units.len() && !self.units[id].retained && self.units[id].live {
            let u = self.units[id];
            self.units.set(id, UnitRecord { raw: u.raw, engine: u.engine, retained: u.retained, live: false });
            match self.engine_target(u.engine) {
                Ok(_) => Some(u.raw),
                Err(_) => None,
            }
        } else {
            None
        }
    }
}

/// A unit whose entry point resolved returns exactly what the native call
/// wrote, for `main` and `kernel` alike, and the same on every invocation.
pub proof fn lemma_resolved_entry_returns_slot<T>(
    target: Result<JitCompUnit, JitError>,
    entry: EntryPoint,
    v: T,
)
    requires
        target is Ok,
    ensures
        invoke_result(target, entry, Some(v)) == Ok::<T, JitError>(v),
        invoke_result(target, entry, None::<T>) == Err::<T, JitError>(
            JitError::EntryPointNotFound { entry },
        ),
{
}

/// A failed compilation, or source text refused before it, always carries
/// non-empty diagnostic text.
pub proof fn lemma_diagnostics_non_empty(d: Seq<char>, src: Seq<u8>)
    ensures
        compile_diagnostic(d).len() > 0,
        source_diagnostic(src).len() > 0,
{
    reveal_strlit("the backend rejected the source without a diagnostic");
    reveal_strlit("the source text is empty");
    reveal_strlit("the source text holds a NUL byte");
}

/// Engines do not interfere: releasing one engine, or compiling another unit,
/// leaves the invocation target of every unit of another engine as it was.
pub proof fn lemma_engines_do_not_interfere(
    engines: Seq<EngineRecord>,
    units: Seq<UnitRecord>,
    other: usize,
    id: usize,
    added: UnitRecord,
)
    requires
        other < engines.len(),
        id < units.len(),
        units[id as int].engine != other,
    ensures
        unit_target(
            engines.update(other as int, EngineRecord { raw: engines[other as int].raw, live: false }),
            units,
            id,
        ) == unit_target(engines, units, id),
        unit_target(engines, units.push(added), id) == unit_target(engines, units, id),
{
    assert(units.push(added)[id as int] == units[id as int]);
}

/// Releasing a unit leaves the invocation target of every other unit as it
/// was.
pub proof fn lemma_unit_release_is_local(
    engines: Seq<EngineRecord>,
    units: Seq<UnitRecord>,
    released: usize,
    id: usize,
)
    requires
        released < units.len(),
        id < units.len(),
        id != released,
    ensures
        unit_target(
            engines,
            units.update(released as int, UnitRecord { live: false, ..units[released as int] }),
            id,
        ) == unit_target(engines, units, id),
{
}

/// Once an engine is released, invoking any unit it produced is refused with
/// a use-after-release error, whatever the native slot would have held.
pub proof fn lemma_released_engine_blocks_units<T>(
    engines: Seq<EngineRecord>,
    units: Seq<UnitRecord>,
    id: usize,
    entry: EntryPoint,
    slot: Option<T>,
)
    requires
        id < units.len(),
        !units[id as int].retained,
        units[id as int].live,
        units[id as int].engine < engines.len(),
    ensures
        ({
            let a = units[id as int].engine as int;
            let after = engines.update(a, EngineRecord { raw: engines[a].raw, live: false });
            &&& unit_target(after, units, id) == Err::<JitCompUnit, JitError>(
                JitError::UseAfterEngineRelease,
            )
            &&& invoke_result(unit_target(after, units, id), entry, slot) == Err::<T, JitError>(
                JitError::UseAfterEngineRelease,
            )
        }),
{
}

/// A resident library unit stays live in every well-formed session, and
/// neither compiling further units nor releasing owned ones touches its
/// record, so later units can keep relying on its symbols.
pub proof fn lemma_retained_units_stay_resident(s: &Session, i: int, added: UnitRecord)
    requires
        s.wf(),
        0 <= i < s.units().len(),
        s.units()[i].retained,
    ensures
        s.units()[i].live,
        s.units().push(added)[i] == s.units()[i],
        forall|j: int|
            0 <= j < s.units().len() && !s.units()[j].retained ==> s.units().update(
                j,
                UnitRecord { live: false, ..s.units()[j] },
            )[i] == s.units()[i],
{
    s.lemma_unit_record(i);
}

} // verus!
