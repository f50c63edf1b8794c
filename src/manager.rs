use vstd::prelude::*;
use crate::binding::{ClamAVError, error_message};
use crate::config::ClamAVConfig;

verus! {

/// Life-cycle state of the engine; only `Ready` is operational.
#[derive(Debug, Clone, PartialEq, Eq)]
pub enum EngineState {
    Uninitialized,
    Initializing,
    Ready,
    Error(String),
    Failed,
}

/// Text naming a state in messages.
pub open spec fn state_text(s: EngineState) -> Seq<char> {
    match s {
        EngineState::Uninitialized => "Uninitialized"@,
        EngineState::Initializing => "Initializing"@,
        EngineState::Ready => "Ready"@,
        EngineState::Error(m) => "Error: "@ + m@,
        EngineState::Failed => "Failed"@,
    }
}

impl EngineState {
    /// Whether the engine is ready.
    pub fn is_ready(&self) -> (r: bool)
        ensures
            r <==> *self == EngineState::Ready,
    {
        matches!(self, EngineState::Ready)
    }

    /// Whether scans can run: only in the ready state.
    pub fn is_operational(&self) -> (r: bool)
        ensures
            r <==> *self == EngineState::Ready,
    {
        matches!(self, EngineState::Ready)
    }

    /// An equal copy of the state.
    pub fn duplicate(&self) -> (r: Self)
        ensures
            r == *self,
    {
        match self {
            EngineState::Uninitialized => EngineState::Uninitialized,
            EngineState::Initializing => EngineState::Initializing,
            EngineState::Ready => EngineState::Ready,
            EngineState::Error(m) => EngineState::Error(m.clone()),
            EngineState::Failed => EngineState::Failed,
        }
    }

    /// Text naming the state.
    pub fn describe(&self) -> (r: String)
        ensures
            r@ == state_text(*self),
    {
        match self {
            EngineState::Uninitialized => String::from_str("Uninitialized"),
            EngineState::Initializing => String::from_str("Initializing"),
            EngineState::Ready => String::from_str("Ready"),
            EngineState::Error(m) => {
                let mut s = String::from_str("Error: ");
                s.append(m.as_str());
                s
            },
            EngineState::Failed => String::from_str("Failed"),
        }
    }
}

/// `load` was called once with the configured database directory and
/// certificate directory, and its answer settled the attempt: a loaded
/// engine is the one held and the result is `Ok`; a load error's message is
/// the error returned.
pub open spec fn settled_by_loader<E, F: FnOnce(String, Option<String>) -> Result<E, ClamAVError>>(
    cfg: ClamAVConfig,
    load: F,
    r: Result<(), String>,
    handle: Option<E>,
) -> bool {
    exists|db: String, certs: Option<String>, res: Result<E, ClamAVError>|
        db@ == cfg.database_dir@ && certs == cfg.certs_dir && #[trigger] load.ensures((db, certs), res)
        && (res matches Ok(e) ==> r is Ok && handle == Some(e))
        && (res matches Err(x) ==> (r matches Err(m) && m@ == error_message(x)))
}

/// Owner of the process's one engine instance and its life cycle. `E` is the
/// host's handle on a loaded native engine; the host loads it, and keeps the
/// manager behind one lock so that transitions exclude each other.
pub struct EngineManager<E> {
    engine: Option<E>,
    state: EngineState,
    config: ClamAVConfig,
}

impl<E> EngineManager<E> {
    pub closed spec fn handle(&self) -> Option<E> {
        self.engine
    }

    pub closed spec fn state(&self) -> EngineState {
        self.state
    }

    pub closed spec fn settings(&self) -> ClamAVConfig {
        self.config
    }

    /// An engine is held exactly when the state is ready.
    pub open spec fn wf(&self) -> bool {
        self.handle() is Some <==> self.state() == EngineState::Ready
    }

    /// A manager with no engine loaded.
    pub fn new(config: ClamAVConfig) -> (r: Self)
        ensures
            r.wf(),
            r.state() == EngineState::Uninitialized,
            r.handle() is None,
            r.settings() == config,
    {
        EngineManager { engine: None, state: EngineState::Uninitialized, config }
    }

    /// Settles an initialisation attempt: a loaded engine makes the manager
    /// ready; a load error puts it in the error state with the error's
    /// message, which is also returned.
    pub fn complete_initialize(&mut self, loaded: Result<E, ClamAVError>) -> (r: Result<(), String>)
        ensures
            final(self).wf(),
            final(self).settings() == old(self).settings(),
            loaded is Ok ==> r is Ok && final(self).state() == EngineState::Ready
                && final(self).handle() == Some(loaded->Ok_0),
            loaded is Err ==> (r matches Err(m) && m@ == error_message(loaded->Err_0)
                && final(self).state() == EngineState::Error(m))
                && final(self).handle() is None,
    {
        match loaded {
            Ok(e) => {
                self.engine = Some(e);
                self.state = EngineState::Ready;
                Ok(())
            },
            Err(e) => {
                let m = e.to_string();
                self.engine = None;
                self.state = EngineState::Error(m.clone());
                Err(m)
            },
        }
    }

    /// Brings the engine up: nothing to do when ready; otherwise the state
    /// passes through initializing, `load` is asked for an engine built from
    /// the database and certificate directories, and the attempt is settled
    /// as `complete_initialize` says.
    pub fn initialize<F: FnOnce(String, Option<String>) -> Result<E, ClamAVError>>(&mut self, load: F) -> (r: Result<(), String>)
        requires
            old(self).wf(),
            forall|db: String, certs: Option<String>| load.requires((db, certs)),
        ensures
            final(self).wf(),
            final(self).settings() == old(self).settings(),
            old(self).state() == EngineState::Ready ==> r is Ok && *final(self) == *old(self),
            r is Ok <==> final(self).state() == EngineState::Ready,
            r matches Err(m) ==> final(self).state() == EngineState::Error(m) && final(self).handle() is None,
            old(self).state() != EngineState::Ready ==> settled_by_loader(old(self).settings(), load, r, final(self).handle()),
    {
        if self.state.is_ready() {
            return Ok(());
        }
        self.state = EngineState::Initializing;
        let db = self.config.database_dir.clone();
        let certs = match &self.config.certs_dir {
            Some(c) => Some(c.clone()),
            None => None,
        };
        let ghost given_db = db;
        let ghost given_certs = certs;
        let loaded = load(db, certs);
        let ghost got = loaded;
        let r = self.complete_initialize(loaded);
        assert(load.ensures((given_db, given_certs), got));
        r
    }

    /// The loaded engine; fails unless the state is ready.
    pub fn get_engine(&self) -> (r: Result<&E, String>)
        requires
            self.wf(),
        ensures
            r is Ok <==> self.state() == EngineState::Ready,
            r matches Ok(e) ==> self.handle() == Some(*e),
            r matches Err(m) ==> m@ == "Engine not operational: "@ + state_text(self.state()),
    {
        if !self.state.is_operational() {
            let mut m = String::from_str("Engine not operational: ");
            let s = self.state.describe();
            m.append(s.as_str());
            return Err(m);
        }
        match &self.engine {
            Some(e) => Ok(e),
            None => {
                let mut m = String::from_str("Engine not operational: ");
                let s = self.state.describe();
                m.append(s.as_str());
                Err(m)
            },
        }
    }

    /// Releases the engine and returns to the uninitialised state.
    pub fn shutdown(&mut self)
        ensures
            final(self).wf(),
            final(self).handle() is None,
            final(self).state() == EngineState::Uninitialized,
            final(self).settings() == old(self).settings(),
    {
        self.engine = None;
        self.state = EngineState::Uninitialized;
    }

    /// The current state.
    pub fn get_state(&self) -> (r: EngineState)
        ensures
            r == self.state(),
    {
        self.state.duplicate()
    }

    /// Whether the engine is ready.
    pub fn health_check(&self) -> (r: bool)
        ensures
            r <==> self.state() == EngineState::Ready,
    {
        self.state.is_operational()
    }

    /// Whether an engine is held.
    pub fn has_engine(&self) -> (r: bool)
        ensures
            r <==> self.handle() is Some,
    {
        self.engine.is_some()
    }

    /// Reloads the signatures: shuts the engine down, then initialises anew.
    pub fn reload<F: FnOnce(String, Option<String>) -> Result<E, ClamAVError>>(&mut self, load: F) -> (r: Result<(), String>)
        requires
            old(self).wf(),
            forall|db: String, certs: Option<String>| load.requires((db, certs)),
        ensures
            final(self).wf(),
            final(self).settings() == old(self).settings(),
            r is Ok <==> final(self).state() == EngineState::Ready,
            r matches Err(m) ==> final(self).state() == EngineState::Error(m) && final(self).handle() is None,
            settled_by_loader(old(self).settings(), load, r, final(self).handle()),
    {
        self.shutdown();
        self.initialize(load)
    }
}

} // verus!
