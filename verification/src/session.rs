//! The session handle: possession of an [`EverythingGlobal`] is the only
//! way to reach the engine, and the only way to obtain a search
//! configuration handle.
//!
//! The real engine is a process-wide singleton, so a program should hold
//! exactly one session (typically behind a lock) and pass it around by
//! ownership; the searcher and result handles borrow that exclusivity
//! structurally by consuming their parent and giving it back when released.

use vstd::prelude::*;
use vstd::pervasive::VecAdditionalExecFns;

use crate::engine::Engine;
use crate::engine::RunEntry;
use crate::engine::lemma_run_lookup_absent;
use crate::engine::lemma_run_lookup_found;
use crate::engine::lemma_run_lookup_push_other;
use crate::engine::lemma_run_lookup_remove_other;
use crate::engine::lemma_run_lookup_update_other;
use crate::engine::run_lookup;
use crate::engine::run_names_unique;
use crate::error::EverythingError;
use crate::marshal::no_nul;
use crate::raw::zero_or_ipc_error;
use crate::sort::FileInfoType;
use crate::sort::LastError;
use crate::sort::SortType;
use crate::sort::TargetMachine;

verus! {

/// What one round-trip over IPC does to the engine state when the operation
/// itself reads without writing: only the last-error register moves, to "no
/// error" on contact and to "IPC unavailable" when the engine is
/// unreachable.
pub open spec fn ipc_touched(post: Engine, pre: Engine) -> bool {
    post == (Engine {
        last_error: if pre.ipc_ok {
            LastError::EVERYTHING_OK
        } else {
            LastError::EVERYTHING_ERROR_IPC
        },
        ..pre
    })
}

/// Whether this sort order is fast under the given per-sort bit set.
pub open spec fn sort_is_fast(bits: u32, sort: SortType) -> bool {
    (bits >> ((sort.spec_code() - 1) as u32)) & 1u32 == 1u32
}

/// Whether this file-information kind is indexed under the given bit set.
pub open spec fn info_is_indexed(bits: u32, info: FileInfoType) -> bool {
    (bits >> ((info.spec_code() - 1) as u32)) & 1u32 == 1u32
}

/// The session handle for the engine.
pub struct EverythingGlobal {
    pub(crate) engine: Engine,
}

/// A session bound to the model of an engine that is not (yet) reachable
/// over IPC, in the engine's documented default state.  Every operation
/// that needs the engine will report [`EverythingError::Ipc`] until a
/// session is built around a reachable engine model with
/// [`EverythingGlobal::with_engine`].
pub fn global() -> (g: EverythingGlobal)
    ensures
        g.wf(),
        g@.is_fresh_offline(),
{
    EverythingGlobal { engine: Engine::offline() }
}

impl View for EverythingGlobal {
    type V = Engine;

    closed spec fn view(&self) -> Engine {
        self.engine
    }
}

/// Within the crate, a session is exactly its engine model.
pub(crate) broadcast proof fn lemma_global_view(g: EverythingGlobal)
    ensures
        #[trigger] g@ == g.engine,
{
}

/// Find the position of the entry carrying `name`, if any.
fn find_run_entry(h: &Vec<RunEntry>, name: &String) -> (r: Option<usize>)
    ensures
        r matches Some(i) ==> i < h@.len() && h@[i as int].name@ == name@ && (forall|j: int|
            0 <= j < i ==> (#[trigger] h@[j].name@) != name@),
        r is None ==> forall|j: int| 0 <= j < h@.len() ==> (#[trigger] h@[j].name@) != name@,
{
    let mut i: usize = 0;
    while i < h.len()
        invariant
            i <= h@.len(),
            forall|j: int| 0 <= j < i ==> (#[trigger] h@[j].name@) != name@,
        decreases h@.len() - i,
    {
        if h[i].name == *name {
            return Some(i);
        }
        i += 1;
    }
    None
}

impl EverythingGlobal {
    pub open spec fn wf(self) -> bool {
        self@.wf()
    }

    /// A session bound to the given engine model.
    pub fn with_engine(engine: Engine) -> (g: EverythingGlobal)
        requires
            engine.wf(),
        ensures
            g.wf(),
            g@ == engine,
    {
        EverythingGlobal { engine }
    }

    /// Give up the session and look at the engine model it was bound to.
    pub fn into_engine(self) -> (e: Engine)
        ensures
            e == self@,
    {
        self.engine
    }

    /// Enter the engine state for one IPC read: touch the last-error
    /// register and report whether the engine answered.
    fn touch(&mut self) -> (ok: bool)
        requires
            old(self).wf(),
        ensures
            final(self).wf(),
            ipc_touched(final(self)@, old(self)@),
            ok == old(self)@.ipc_ok,
    {
        if self.engine.ipc_ok {
            self.engine.last_error = LastError::EVERYTHING_OK;
            true
        } else {
            self.engine.last_error = LastError::EVERYTHING_ERROR_IPC;
            false
        }
    }

    /// The engine's major version number; 0 can be a real version part, so
    /// the last-error register disambiguates it from a failed call.
    pub fn get_major_version(&mut self) -> (r: Result<u32, EverythingError>)
        requires
            old(self).wf(),
        ensures
            final(self).wf(),
            ipc_touched(final(self)@, old(self)@),
            r == if old(self)@.ipc_ok {
                Ok::<u32, EverythingError>(old(self)@.major)
            } else {
                Err::<u32, EverythingError>(EverythingError::Ipc)
            },
    {
        let raw = if self.touch() {
            self.engine.major
        } else {
            0
        };
        match zero_or_ipc_error(raw, self.engine.last_error) {
            Some(n) => Ok(n),
            None => Err(EverythingError::Ipc),
        }
    }

    /// The engine's minor version number.
    pub fn get_minor_version(&mut self) -> (r: Result<u32, EverythingError>)
        requires
            old(self).wf(),
        ensures
            final(self).wf(),
            ipc_touched(final(self)@, old(self)@),
            r == if old(self)@.ipc_ok {
                Ok::<u32, EverythingError>(old(self)@.minor)
            } else {
                Err::<u32, EverythingError>(EverythingError::Ipc)
            },
    {
        let raw = if self.touch() {
            self.engine.minor
        } else {
            0
        };
        match zero_or_ipc_error(raw, self.engine.last_error) {
            Some(n) => Ok(n),
            None => Err(EverythingError::Ipc),
        }
    }

    /// The engine's revision number.
    pub fn get_revision(&mut self) -> (r: Result<u32, EverythingError>)
        requires
            old(self).wf(),
        ensures
            final(self).wf(),
            ipc_touched(final(self)@, old(self)@),
            r == if old(self)@.ipc_ok {
                Ok::<u32, EverythingError>(old(self)@.revision)
            } else {
                Err::<u32, EverythingError>(EverythingError::Ipc)
            },
    {
        let raw = if self.touch() {
            self.engine.revision
        } else {
            0
        };
        match zero_or_ipc_error(raw, self.engine.last_error) {
            Some(n) => Ok(n),
            None => Err(EverythingError::Ipc),
        }
    }

    /// The engine's build number, incremental and unique across versions.
    pub fn get_build_number(&mut self) -> (r: Result<u32, EverythingError>)
        requires
            old(self).wf(),
        ensures
            final(self).wf(),
            ipc_touched(final(self)@, old(self)@),
            r == if old(self)@.ipc_ok {
                Ok::<u32, EverythingError>(old(self)@.build)
            } else {
                Err::<u32, EverythingError>(EverythingError::Ipc)
            },
    {
        let raw = if self.touch() {
            self.engine.build
        } else {
            0
        };
        match zero_or_ipc_error(raw, self.engine.last_error) {
            Some(n) => Ok(n),
            None => Err(EverythingError::Ipc),
        }
    }

    /// The architecture the engine was built for.
    pub fn get_target_machine(&mut self) -> (r: Result<TargetMachine, EverythingError>)
        requires
            old(self).wf(),
        ensures
            final(self).wf(),
            ipc_touched(final(self)@, old(self)@),
            old(self)@.ipc_ok <==> r is Ok,
            r matches Ok(m) ==> m.spec_code() == old(self)@.machine,
            r matches Err(e) ==> e == EverythingError::Ipc,
    {
        if self.touch() {
            match TargetMachine::from_code(self.engine.machine) {
                Some(m) => Ok(m),
                None => {
                    proof {
                        assert(false);
                    }
                    Err(EverythingError::Ipc)
                },
            }
        } else {
            Err(EverythingError::Ipc)
        }
    }

    /// The engine's version as `<major>.<minor>.<revision>.<build>` plus its
    /// target machine.
    pub fn version(&mut self) -> (r: Result<(u32, u32, u32, u32, TargetMachine), EverythingError>)
        requires
            old(self).wf(),
        ensures
            final(self).wf(),
            ipc_touched(final(self)@, old(self)@),
            old(self)@.ipc_ok <==> r is Ok,
            r matches Ok(v) ==> v.0 == old(self)@.major && v.1 == old(self)@.minor && v.2 == old(
                self,
            )@.revision && v.3 == old(self)@.build && v.4.spec_code() == old(self)@.machine,
            r matches Err(e) ==> e == EverythingError::Ipc,
    {
        let major = self.get_major_version()?;
        let minor = self.get_minor_version()?;
        let revision = self.get_revision()?;
        let build = self.get_build_number()?;
        let machine = self.get_target_machine()?;
        Ok((major, minor, revision, build, machine))
    }

    /// Ask the engine to save its settings and data to disk and exit.
    /// Whether it then actually goes away is outside this model; the
    /// request itself succeeds exactly when the engine is reachable.
    pub fn save_and_exit(&mut self) -> (r: Result<bool, EverythingError>)
        requires
            old(self).wf(),
        ensures
            final(self).wf(),
            ipc_touched(final(self)@, old(self)@),
            r == if old(self)@.ipc_ok {
                Ok::<bool, EverythingError>(true)
            } else {
                Err::<bool, EverythingError>(EverythingError::Ipc)
            },
    {
        if self.touch() {
            Ok(true)
        } else {
            Err(EverythingError::Ipc)
        }
    }

    /// Whether the engine's database is fully loaded; while it is loading,
    /// queries appear to return no results.
    pub fn is_db_loaded(&mut self) -> (r: Result<bool, EverythingError>)
        requires
            old(self).wf(),
        ensures
            final(self).wf(),
            ipc_touched(final(self)@, old(self)@),
            r == if old(self)@.ipc_ok {
                Ok::<bool, EverythingError>(old(self)@.db_loaded)
            } else {
                Err::<bool, EverythingError>(EverythingError::Ipc)
            },
    {
        if self.touch() {
            Ok(self.engine.db_loaded)
        } else {
            Err(EverythingError::Ipc)
        }
    }

    /// Whether the engine runs as administrator.
    pub fn is_admin(&mut self) -> (r: Result<bool, EverythingError>)
        requires
            old(self).wf(),
        ensures
            final(self).wf(),
            ipc_touched(final(self)@, old(self)@),
            r == if old(self)@.ipc_ok {
                Ok::<bool, EverythingError>(old(self)@.admin)
            } else {
                Err::<bool, EverythingError>(EverythingError::Ipc)
            },
    {
        if self.touch() {
            Ok(self.engine.admin)
        } else {
            Err(EverythingError::Ipc)
        }
    }

    /// Whether the engine keeps settings and data under the user's
    /// application-data folder rather than beside its executable.
    pub fn is_appdata(&mut self) -> (r: Result<bool, EverythingError>)
        requires
            old(self).wf(),
        ensures
            final(self).wf(),
            ipc_touched(final(self)@, old(self)@),
            r == if old(self)@.ipc_ok {
                Ok::<bool, EverythingError>(old(self)@.appdata)
            } else {
                Err::<bool, EverythingError>(EverythingError::Ipc)
            },
    {
        if self.touch() {
            Ok(self.engine.appdata)
        } else {
            Err(EverythingError::Ipc)
        }
    }

    /// Ask the engine to forcefully rebuild its index.
    pub fn rebuild_db(&mut self) -> (r: Result<bool, EverythingError>)
        requires
            old(self).wf(),
        ensures
            final(self).wf(),
            ipc_touched(final(self)@, old(self)@),
            r == if old(self)@.ipc_ok {
                Ok::<bool, EverythingError>(true)
            } else {
                Err::<bool, EverythingError>(EverythingError::Ipc)
            },
    {
        if self.touch() {
            Ok(true)
        } else {
            Err(EverythingError::Ipc)
        }
    }

    /// Ask the engine to rescan all folder indexes in the background.
    pub fn update_all_folder_indexes(&mut self) -> (r: Result<bool, EverythingError>)
        requires
            old(self).wf(),
        ensures
            final(self).wf(),
            ipc_touched(final(self)@, old(self)@),
            r == if old(self)@.ipc_ok {
                Ok::<bool, EverythingError>(true)
            } else {
                Err::<bool, EverythingError>(EverythingError::Ipc)
            },
    {
        if self.touch() {
            Ok(true)
        } else {
            Err(EverythingError::Ipc)
        }
    }

    /// Ask the engine to write its index to disk.
    pub fn save_db(&mut self) -> (r: Result<bool, EverythingError>)
        requires
            old(self).wf(),
        ensures
            final(self).wf(),
            ipc_touched(final(self)@, old(self)@),
            r == if old(self)@.ipc_ok {
                Ok::<bool, EverythingError>(true)
            } else {
                Err::<bool, EverythingError>(EverythingError::Ipc)
            },
    {
        if self.touch() {
            Ok(true)
        } else {
            Err(EverythingError::Ipc)
        }
    }

    /// Ask the engine to write its run history to disk.
    pub fn save_run_history(&mut self) -> (r: Result<bool, EverythingError>)
        requires
            old(self).wf(),
        ensures
            final(self).wf(),
            ipc_touched(final(self)@, old(self)@),
            r == if old(self)@.ipc_ok {
                Ok::<bool, EverythingError>(true)
            } else {
                Err::<bool, EverythingError>(EverythingError::Ipc)
            },
    {
        if self.touch() {
            Ok(true)
        } else {
            Err(EverythingError::Ipc)
        }
    }

    /// Clear all run history, from memory and disk: afterwards every file's
    /// run count reads as 0.
    pub fn delete_run_history(&mut self) -> (r: Result<bool, EverythingError>)
        requires
            old(self).wf(),
        ensures
            final(self).wf(),
            !old(self)@.ipc_ok ==> final(self)@ == (Engine {
                last_error: LastError::EVERYTHING_ERROR_IPC,
                ..old(self)@
            }) && r == Err::<bool, EverythingError>(EverythingError::Ipc),
            old(self)@.ipc_ok ==> final(self)@ == (Engine {
                last_error: LastError::EVERYTHING_OK,
                run_history: final(self)@.run_history,
                ..old(self)@
            }) && final(self)@.run_history@.len() == 0 && r == Ok::<bool, EverythingError>(true),
    {
        if self.touch() {
            self.engine.run_history = Vec::new();
            Ok(true)
        } else {
            Err(EverythingError::Ipc)
        }
    }

    /// The run count the engine's history holds for a fully qualified file
    /// name; 0 means "no history" and is a valid answer, so the last-error
    /// register is consulted to tell it from a failed call.  The engine
    /// does not clear that register on a successful read here, so a stale
    /// "IPC unavailable" makes a genuine 0 read as [`EverythingError::Ipc`];
    /// this quirk of the engine's contract is preserved, not papered over.
    pub fn get_run_count(&mut self, file_name: &str) -> (r: Result<u32, EverythingError>)
        requires
            old(self).wf(),
            no_nul(file_name@),
        ensures
            final(self).wf(),
            !old(self)@.ipc_ok ==> final(self)@ == (Engine {
                last_error: LastError::EVERYTHING_ERROR_IPC,
                ..old(self)@
            }) && r == Err::<u32, EverythingError>(EverythingError::Ipc),
            old(self)@.ipc_ok ==> final(self)@ == old(self)@ && {
                let count = run_lookup(old(self)@.run_history@, file_name@);
                if count != 0 || old(self)@.last_error == LastError::EVERYTHING_OK {
                    r == Ok::<u32, EverythingError>(count)
                } else {
                    r == Err::<u32, EverythingError>(EverythingError::Ipc)
                }
            },
    {
        if !self.engine.ipc_ok {
            self.engine.last_error = LastError::EVERYTHING_ERROR_IPC;
            return Err(EverythingError::Ipc);
        }
        let name = file_name.to_owned();
        let raw = match find_run_entry(&self.engine.run_history, &name) {
            Some(i) => {
                proof {
                    lemma_run_lookup_found(self.engine.run_history@, i as int);
                }
                self.engine.run_history[i].count
            },
            None => {
                proof {
                    lemma_run_lookup_absent(self.engine.run_history@, name@);
                }
                0
            },
        };
        match zero_or_ipc_error(raw, self.engine.last_error) {
            Some(n) => Ok(n),
            None => Err(EverythingError::Ipc),
        }
    }

    /// Set the run count for a fully qualified file name; a count of 0
    /// removes the file's history.
    pub fn set_run_count(&mut self, file_name: &str, run_count: u32) -> (r: Result<
        (),
        EverythingError,
    >)
        requires
            old(self).wf(),
            no_nul(file_name@),
        ensures
            final(self).wf(),
            !old(self)@.ipc_ok ==> final(self)@ == (Engine {
                last_error: LastError::EVERYTHING_ERROR_IPC,
                ..old(self)@
            }) && r == Err::<(), EverythingError>(EverythingError::Ipc),
            old(self)@.ipc_ok ==> final(self)@ == (Engine {
                last_error: LastError::EVERYTHING_OK,
                run_history: final(self)@.run_history,
                ..old(self)@
            }) && run_lookup(final(self)@.run_history@, file_name@) == run_count && (forall|m: Seq<char>|
                m != file_name@ ==> run_lookup(final(self)@.run_history@, m) == run_lookup(
                    old(self)@.run_history@,
                    m,
                )) && r == Ok::<(), EverythingError>(()),
    {
        if !self.touch() {
            return Err(EverythingError::Ipc);
        }
        let name = file_name.to_owned();
        self.write_run_count(name, run_count);
        Ok(())
    }

    /// Increment the run count for a fully qualified file name by one and
    /// return the new count; a file already at the largest representable
    /// count stays there.
    pub fn inc_run_count(&mut self, file_name: &str) -> (r: Result<u32, EverythingError>)
        requires
            old(self).wf(),
            no_nul(file_name@),
        ensures
            final(self).wf(),
            !old(self)@.ipc_ok ==> final(self)@ == (Engine {
                last_error: LastError::EVERYTHING_ERROR_IPC,
                ..old(self)@
            }) && r == Err::<u32, EverythingError>(EverythingError::Ipc),
            old(self)@.ipc_ok ==> final(self)@ == (Engine {
                last_error: LastError::EVERYTHING_OK,
                run_history: final(self)@.run_history,
                ..old(self)@
            }) && {
                let cur = run_lookup(old(self)@.run_history@, file_name@);
                let new = if cur == u32::MAX {
                    u32::MAX
                } else {
                    (cur + 1) as u32
                };
                run_lookup(final(self)@.run_history@, file_name@) == new && (forall|m: Seq<char>|
                    m != file_name@ ==> run_lookup(final(self)@.run_history@, m) == run_lookup(
                        old(self)@.run_history@,
                        m,
                    )) && r == Ok::<u32, EverythingError>(new)
            },
    {
        if !self.touch() {
            return Err(EverythingError::Ipc);
        }
        let name = file_name.to_owned();
        let cur = match find_run_entry(&self.engine.run_history, &name) {
            Some(i) => {
                proof {
                    lemma_run_lookup_found(self.engine.run_history@, i as int);
                }
                self.engine.run_history[i].count
            },
            None => {
                proof {
                    lemma_run_lookup_absent(self.engine.run_history@, name@);
                }
                0
            },
        };
        let new = if cur == u32::MAX {
            u32::MAX
        } else {
            cur + 1
        };
        self.write_run_count(name, new);
        Ok(new)
    }

    /// Write one name's run count into the history: update the entry in
    /// place, append a new one, or remove it when the count is 0.
    fn write_run_count(&mut self, name: String, run_count: u32)
        requires
            old(self).wf(),
            no_nul(name@),
        ensures
            final(self).wf(),
            final(self)@ == (Engine { run_history: final(self)@.run_history, ..old(self)@ }),
            run_lookup(final(self)@.run_history@, name@) == run_count,
            forall|m: Seq<char>|
                m != name@ ==> run_lookup(final(self)@.run_history@, m) == run_lookup(
                    old(self)@.run_history@,
                    m,
                ),
    {
        let ghost h0 = self.engine.run_history@;
        match find_run_entry(&self.engine.run_history, &name) {
            Some(i) => {
                if run_count == 0 {
                    let _ = self.engine.run_history.remove(i);
                    proof {
                        let h1 = self.engine.run_history@;
                        assert forall|j: int| 0 <= j < h1.len() implies (#[trigger] h1[j].name@)
                            != name@ by {
                            if j < i {
                                assert(h1[j] == h0[j]);
                            } else {
                                assert(h1[j] == h0[j + 1]);
                            }
                        }
                        lemma_run_lookup_absent(h1, name@);
                        assert forall|m: Seq<char>| m != name@ implies run_lookup(h1, m)
                            == run_lookup(h0, m) by {
                            lemma_run_lookup_remove_other(h0, i as int, m);
                        }
                        assert(run_names_unique(h1));
                    }
                } else {
                    let entry = RunEntry { name, count: run_count };
                    self.engine.run_history.set(i, entry);
                    proof {
                        let h1 = self.engine.run_history@;
                        lemma_run_lookup_found(h1, i as int);
                        assert forall|m: Seq<char>| m != name@ implies run_lookup(h1, m)
                            == run_lookup(h0, m) by {
                            lemma_run_lookup_update_other(h0, i as int, h1[i as int], m);
                        }
                        assert(run_names_unique(h1));
                    }
                }
            },
            None => {
                if run_count != 0 {
                    let entry = RunEntry { name, count: run_count };
                    self.engine.run_history.push(entry);
                    proof {
                        let h1 = self.engine.run_history@;
                        lemma_run_lookup_found(h1, h1.len() - 1);
                        assert forall|m: Seq<char>| m != name@ implies run_lookup(h1, m)
                            == run_lookup(h0, m) by {
                            lemma_run_lookup_push_other(h0, h1[h1.len() - 1], m);
                        }
                        assert(run_names_unique(h1));
                    }
                } else {
                    proof {
                        lemma_run_lookup_absent(h0, name@);
                    }
                }
            },
        }
    }

    /// Whether the given sort order is fast for the engine's index: eight
    /// orders always are, the rest only when the index carries them.
    pub fn is_fast_sort(&mut self, sort_type: SortType) -> (r: Result<bool, EverythingError>)
        requires
            old(self).wf(),
        ensures
            final(self).wf(),
            ipc_touched(final(self)@, old(self)@),
            r == if old(self)@.ipc_ok {
                Ok::<bool, EverythingError>(sort_is_fast(old(self)@.fast_sort_bits, sort_type))
            } else {
                Err::<bool, EverythingError>(EverythingError::Ipc)
            },
    {
        if self.touch() {
            let shift = sort_type.code() - 1;
            Ok((self.engine.fast_sort_bits >> shift) & 1 == 1)
        } else {
            Err(EverythingError::Ipc)
        }
    }

    /// Whether the engine's index carries the given kind of file
    /// information.
    pub fn is_file_info_indexed(&mut self, file_info_type: FileInfoType) -> (r: Result<
        bool,
        EverythingError,
    >)
        requires
            old(self).wf(),
        ensures
            final(self).wf(),
            ipc_touched(final(self)@, old(self)@),
            r == if old(self)@.ipc_ok {
                Ok::<bool, EverythingError>(info_is_indexed(old(self)@.file_info_bits, file_info_type))
            } else {
                Err::<bool, EverythingError>(EverythingError::Ipc)
            },
    {
        if self.touch() {
            let shift = file_info_type.code() - 1;
            Ok((self.engine.file_info_bits >> shift) & 1 == 1)
        } else {
            Err(EverythingError::Ipc)
        }
    }
}

} // verus!
