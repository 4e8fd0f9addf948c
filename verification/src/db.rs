//! Database configuration and the connect fast path.
//!
//! A host hands in a tagged configuration: a remote database needs a URL
//! and an auth token, a local one needs a path, an in-memory one needs
//! nothing.  [`build_plan`] validates the configuration and yields exactly
//! what the client's builder is to be asked for.
//!
//! A database handle keeps a weak, non-owning reference to the connection
//! it last opened.  [`DbState::connect`] models a connect call: while that
//! connection is live the call reuses it synchronously — the bridge is
//! bypassed and no worker is spawned; otherwise a worker is detached to
//! open a fresh connection.

use vstd::prelude::*;
use vstd::string::StringExecFns;
use crate::bridge::WorkerLedger;

verus! {

/// How a database is reached.
#[derive(Debug, Clone, Copy, PartialEq, Eq, Structural)]
pub enum LuaDatabaseKind {
    /// A remote database, reached by URL with an auth token.
    Remote,
    /// A local database file.
    Local,
    /// An anonymous in-memory database.
    Memory,
}

/// The configuration a host passes to open a database.  For a local
/// database the `url` field carries the path.
#[derive(Debug, Clone)]
pub struct LuaDatabaseConfig {
    pub kind: LuaDatabaseKind,
    pub url: Option<String>,
    pub token: Option<String>,
}

/// The mathematical view of a [`LuaDatabaseConfig`].
pub struct LuaDatabaseConfigView {
    pub kind: LuaDatabaseKind,
    pub url: Option<Seq<char>>,
    pub token: Option<Seq<char>>,
}

impl View for LuaDatabaseConfig {
    type V = LuaDatabaseConfigView;

    open spec fn view(&self) -> LuaDatabaseConfigView {
        LuaDatabaseConfigView {
            kind: self.kind,
            url: match &self.url {
                Some(u) => Some(u@),
                None => None,
            },
            token: match &self.token {
                Some(t) => Some(t@),
                None => None,
            },
        }
    }
}

/// A configuration that does not describe the target it names.
#[derive(Debug, Clone, Copy, PartialEq, Eq, Structural)]
pub enum ConfigError {
    /// A remote database needs both a URL and a token.
    MissingUrlOrToken,
    /// A local database needs a path.
    MissingPath,
}

impl ConfigError {
    /// The diagnostic text of this error.
    pub open spec fn message_view(self) -> Seq<char> {
        match self {
            ConfigError::MissingUrlOrToken => "url and token must be provided"@,
            ConfigError::MissingPath => "path must be provided"@,
        }
    }

    /// The diagnostic text of this error.
    pub fn message(&self) -> (r: String)
        ensures
            r@ == self.message_view(),
    {
        match self {
            ConfigError::MissingUrlOrToken => String::from_str("url and token must be provided"),
            ConfigError::MissingPath => String::from_str("path must be provided"),
        }
    }
}

/// What the client's builder is to be asked for.
#[derive(Debug, Clone)]
pub enum BuildPlan {
    Remote { url: String, token: String },
    Local { path: String },
    Memory,
}

/// The mathematical view of a [`BuildPlan`].
pub enum BuildPlanView {
    Remote { url: Seq<char>, token: Seq<char> },
    Local { path: Seq<char> },
    Memory,
}

impl View for BuildPlan {
    type V = BuildPlanView;

    open spec fn view(&self) -> BuildPlanView {
        match self {
            BuildPlan::Remote { url, token } => BuildPlanView::Remote { url: url@, token: token@ },
            BuildPlan::Local { path } => BuildPlanView::Local { path: path@ },
            BuildPlan::Memory => BuildPlanView::Memory,
        }
    }
}

/// Validation of a configuration: a remote target needs URL and token, a
/// local target needs a path, an in-memory target needs nothing.
pub open spec fn build_plan_view(c: LuaDatabaseConfigView) -> Result<BuildPlanView, ConfigError> {
    match c.kind {
        LuaDatabaseKind::Remote => match (c.url, c.token) {
            (Some(u), Some(t)) => Ok(BuildPlanView::Remote { url: u, token: t }),
            _ => Err(ConfigError::MissingUrlOrToken),
        },
        LuaDatabaseKind::Local => match c.url {
            Some(p) => Ok(BuildPlanView::Local { path: p }),
            None => Err(ConfigError::MissingPath),
        },
        LuaDatabaseKind::Memory => Ok(BuildPlanView::Memory),
    }
}

/// Validate a configuration and produce the build plan for it.
pub fn build_plan(config: LuaDatabaseConfig) -> (r: Result<BuildPlan, ConfigError>)
    ensures
        r matches Ok(p) ==> build_plan_view(config@) == Ok::<BuildPlanView, ConfigError>(p@),
        r matches Err(e) ==> build_plan_view(config@) == Err::<BuildPlanView, ConfigError>(e),
{
    match config.kind {
        LuaDatabaseKind::Remote => match (config.url, config.token) {
            (Some(url), Some(token)) => Ok(BuildPlan::Remote { url, token }),
            _ => Err(ConfigError::MissingUrlOrToken),
        },
        LuaDatabaseKind::Local => match config.url {
            Some(path) => Ok(BuildPlan::Local { path }),
            None => Err(ConfigError::MissingPath),
        },
        LuaDatabaseKind::Memory => Ok(BuildPlan::Memory),
    }
}

/// What one connect call does: reuse the live connection synchronously,
/// or detach a worker to open a fresh one.
#[derive(Debug, Clone, Copy, PartialEq, Eq, Structural)]
pub enum ConnectAction {
    /// The open connection was reused; the callback runs inline on the
    /// caller's thread and no worker is spawned.
    Reuse(u64),
    /// No live connection; a worker is detached to open one.
    Spawn,
}

/// The connect transition: the live connection decides between reuse and
/// spawn, and only spawning touches the worker count.
pub open spec fn connect_view(live: Option<u64>, spawned: nat) -> (Option<u64>, nat, ConnectAction) {
    match live {
        Some(c) => (live, spawned, ConnectAction::Reuse(c)),
        None => (live, spawned + 1, ConnectAction::Spawn),
    }
}

/// The connection-reuse state of one database handle: the weak reference
/// to the connection it last opened, modeled by that connection's
/// identity while the host keeps it live.
pub struct DbState {
    /// The open connection observable through the weak reference, if any.
    pub live_conn: Option<u64>,
}

impl DbState {
    /// A fresh handle: no connection opened yet.
    pub fn new() -> (s: DbState)
        ensures
            s.live_conn is None,
    {
        DbState { live_conn: None }
    }

    /// One connect call; see [`connect_view`] for the transition.
    pub fn connect(&mut self, ledger: &mut WorkerLedger) -> (a: ConnectAction)
        requires
            old(ledger).spawned < u64::MAX,
        ensures
            (final(self).live_conn, final(ledger).spawned as nat, a) == connect_view(
                old(self).live_conn,
                old(ledger).spawned as nat,
            ),
    {
        match self.live_conn {
            Some(c) => ConnectAction::Reuse(c),
            None => {
                ledger.spawned = ledger.spawned + 1;
                ConnectAction::Spawn
            },
        }
    }

    /// The worker finished opening a connection; the handle now observes
    /// it through the weak reference.
    pub fn install_connection(&mut self, conn: u64)
        ensures
            final(self).live_conn == Some(conn),
    {
        self.live_conn = Some(conn);
    }

    /// The host dropped the last owning reference; the weak reference no
    /// longer upgrades.
    pub fn release_connection(&mut self)
        ensures
            final(self).live_conn is None,
    {
        self.live_conn = None;
    }
}

/// Law: the connect fast path reuses.  On a handle whose connection is
/// open and live, two successive connect calls both return that same
/// logical connection, and neither spawns a worker.
pub proof fn lemma_connect_fast_path_reuse(live: Option<u64>, spawned: nat, c: u64)
    requires
        live == Some(c),
    ensures
        ({
            let (l1, s1, a1) = connect_view(live, spawned);
            let (l2, s2, a2) = connect_view(l1, s1);
            &&& a1 == ConnectAction::Reuse(c)
            &&& a2 == ConnectAction::Reuse(c)
            &&& l2 == live
            &&& s2 == spawned
        }),
{
}

} // verus!
