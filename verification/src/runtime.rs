//! Typed models of the runtime bundle and container state, and the
//! lifecycle contract a runtime implements.

use vstd::prelude::*;

use crate::json::{
    jstr, jstr_of, jstrmap, jstrmap_of, ju64, ju64_of, opt_match, opt_ok, opt_value, req_value,
    FieldRead,
};
use crate::text::str_eq;

verus! {

/// The runtime state of a container.
#[derive(Debug, Clone, Hash, Eq, PartialEq)]
pub enum RuntimeStatus {
    /// The container is being created.
    Creating,
    /// The create operation finished; the user program has not run.
    Created,
    /// The user program is running.
    Running,
    /// The container process has exited.
    Stopped,
    /// A runtime-defined state outside the closed set.
    Other(String),
}

/// The mathematical form of a runtime state: the `Other` name as text.
pub enum RuntimeStatusView {
    Creating,
    Created,
    Running,
    Stopped,
    Other(Seq<char>),
}

/// The view of a runtime state.
pub open spec fn status_view(st: RuntimeStatus) -> RuntimeStatusView {
    match st {
        RuntimeStatus::Creating => RuntimeStatusView::Creating,
        RuntimeStatus::Created => RuntimeStatusView::Created,
        RuntimeStatus::Running => RuntimeStatusView::Running,
        RuntimeStatus::Stopped => RuntimeStatusView::Stopped,
        RuntimeStatus::Other(s) => RuntimeStatusView::Other(s@),
    }
}

/// The canonical name of each runtime state.
pub open spec fn runtime_status_name(st: RuntimeStatusView) -> Seq<char> {
    match st {
        RuntimeStatusView::Creating => "creating"@,
        RuntimeStatusView::Created => "created"@,
        RuntimeStatusView::Running => "running"@,
        RuntimeStatusView::Stopped => "stopped"@,
        RuntimeStatusView::Other(s) => s,
    }
}

/// The runtime state a string names; unknown names land in `Other`.
pub open spec fn runtime_status_of(s: Seq<char>) -> RuntimeStatusView {
    if s == "creating"@ {
        RuntimeStatusView::Creating
    } else if s == "created"@ {
        RuntimeStatusView::Created
    } else if s == "running"@ {
        RuntimeStatusView::Running
    } else if s == "stopped"@ {
        RuntimeStatusView::Stopped
    } else {
        RuntimeStatusView::Other(s)
    }
}

impl RuntimeStatus {
    /// The canonical name of this state.
    pub fn as_str(&self) -> (r: &str)
        ensures
            r@ == runtime_status_name(status_view(*self)),
    {
        match self {
            RuntimeStatus::Creating => "creating",
            RuntimeStatus::Created => "created",
            RuntimeStatus::Running => "running",
            RuntimeStatus::Stopped => "stopped",
            RuntimeStatus::Other(s) => s.as_str(),
        }
    }

    /// Parse a state name; every string parses, unknown names to `Other`.
    pub fn parse(s: &str) -> (r: RuntimeStatus)
        ensures
            status_view(r) == runtime_status_of(s@),
    {
        if str_eq(s, "creating") {
            RuntimeStatus::Creating
        } else if str_eq(s, "created") {
            RuntimeStatus::Created
        } else if str_eq(s, "running") {
            RuntimeStatus::Running
        } else if str_eq(s, "stopped") {
            RuntimeStatus::Stopped
        } else {
            RuntimeStatus::Other(s.to_owned())
        }
    }
}

/// The runtime state of a container as `state()` reports it.
#[derive(Debug)]
pub struct State {
    pub oci_version: String,
    /// Unique within this host's runtime.
    pub id: String,
    pub status: RuntimeStatus,
    /// The container process's PID as the host sees it.
    pub pid: u64,
    /// The absolute path of the container's bundle directory.
    pub bundle: String,
    pub annotations: Option<Vec<(String, String)>>,
}

/// How a parsed state relates to the document it was read from.
pub open spec fn state_matches(s: Seq<char>, st: State) -> bool {
    &&& jstr_of(s, "ociVersion"@, None) == FieldRead::Value(st.oci_version)
    &&& jstr_of(s, "id"@, None) == FieldRead::Value(st.id)
    &&& (jstr_of(s, "status"@, None) matches FieldRead::Value(raw) && status_view(st.status)
        == runtime_status_of(raw@))
    &&& ju64_of(s, "pid"@, None) == FieldRead::Value(st.pid)
    &&& jstr_of(s, "bundle"@, None) == FieldRead::Value(st.bundle)
    &&& opt_match(jstrmap_of(s, "annotations"@, None), st.annotations)
}

/// Whether a document holds everything a state needs.
pub open spec fn state_readable(s: Seq<char>) -> bool {
    &&& jstr_of(s, "ociVersion"@, None) is Value
    &&& jstr_of(s, "id"@, None) is Value
    &&& jstr_of(s, "status"@, None) is Value
    &&& ju64_of(s, "pid"@, None) is Value
    &&& jstr_of(s, "bundle"@, None) is Value
    &&& opt_ok(jstrmap_of(s, "annotations"@, None))
}

impl State {
    /// Parse a runtime state document: an `Ok` state carries the
    /// document's own field values, and parsing fails exactly when the
    /// document cannot be read in full.
    pub fn parse(s: &str) -> (r: Result<State, serde_json::Error>)
        ensures
            match r {
                Ok(st) => state_matches(s@, st),
                Err(_) => !state_readable(s@),
            },
    {
        let oci_version = match req_value(jstr(s, "ociVersion", None)) {
            Ok(v) => v,
            Err(e) => {
                return Err(e);
            },
        };
        let id = match req_value(jstr(s, "id", None)) {
            Ok(v) => v,
            Err(e) => {
                return Err(e);
            },
        };
        let status = match req_value(jstr(s, "status", None)) {
            Ok(raw) => RuntimeStatus::parse(raw.as_str()),
            Err(e) => {
                return Err(e);
            },
        };
        let pid = match req_value(ju64(s, "pid", None)) {
            Ok(v) => v,
            Err(e) => {
                return Err(e);
            },
        };
        let bundle = match req_value(jstr(s, "bundle", None)) {
            Ok(v) => v,
            Err(e) => {
                return Err(e);
            },
        };
        let annotations = match opt_value(jstrmap(s, "annotations", None)) {
            Ok(v) => v,
            Err(e) => {
                return Err(e);
            },
        };
        Ok(State { oci_version, id, status, pid, bundle, annotations })
    }
}

/// The root filesystem a bundle names.
#[derive(Debug)]
pub struct RootConfig {
    pub path: String,
    pub readonly: Option<bool>,
}

/// The process a bundle starts.
#[derive(Debug)]
pub struct ProcessConfig {
    pub terminal: Option<bool>,
    pub cwd: String,
    pub args: Option<Vec<String>>,
    pub env: Option<Vec<String>>,
}

/// The data of a bundle's `config.json`.
#[derive(Debug)]
pub struct Config {
    pub oci_version: String,
    pub root: Option<RootConfig>,
    pub process: Option<ProcessConfig>,
    pub hostname: Option<String>,
    pub annotations: Option<Vec<(String, String)>>,
}

/// A filesystem bundle: a directory holding `config.json` and everything a
/// runtime needs to run the container it describes.
#[derive(Debug)]
pub struct Bundle {
    /// The path of the bundle directory.
    pub path: String,
    /// The data of `config.json` at the bundle's root.
    pub config: Config,
}

/// The lifecycle operations an OCI runtime implements. The error conditions
/// are those of the OCI Runtime Specification: for example, starting a
/// container that is not `Created` must fail without affecting it.
pub trait Runtime {
    type Err;

    /// Report the state of the container.
    fn state(&self) -> Result<State, Self::Err>;

    /// Create the container described by the bundle at the given path.
    fn create(&mut self, path_to_bundle: &str) -> Result<(), Self::Err>;

    /// Run the user-specified program of a created container.
    fn start(&mut self) -> Result<(), Self::Err>;

    /// Send a signal to a created or running container's process.
    fn kill(&mut self, signal: u16) -> Result<(), Self::Err>;

    /// Delete a stopped container and the resources `create` made.
    fn delete(self) -> Result<(), Self::Err>;
}

/// A known state's name parses back to that state, and an `Other` state's
/// name parses back to it unless it spells one of the four known names.
pub proof fn lemma_runtime_status_roundtrip(st: RuntimeStatusView)
    requires
        st matches RuntimeStatusView::Other(s) ==> runtime_status_of(s) is Other,
    ensures
        runtime_status_of(runtime_status_name(st)) == st,
{
    reveal_strlit("creating");
    reveal_strlit("created");
    reveal_strlit("running");
    reveal_strlit("stopped");
    assert("creating"@ =~= seq!['c', 'r', 'e', 'a', 't', 'i', 'n', 'g']);
    assert("created"@ =~= seq!['c', 'r', 'e', 'a', 't', 'e', 'd']);
    assert("running"@ =~= seq!['r', 'u', 'n', 'n', 'i', 'n', 'g']);
    assert("stopped"@ =~= seq!['s', 't', 'o', 'p', 'p', 'e', 'd']);
    match st {
        RuntimeStatusView::Creating => assert(runtime_status_of(runtime_status_name(st)) == st),
        RuntimeStatusView::Created => assert(runtime_status_of(runtime_status_name(st)) == st),
        RuntimeStatusView::Running => assert(runtime_status_of(runtime_status_name(st)) == st),
        RuntimeStatusView::Stopped => assert(runtime_status_of(runtime_status_name(st)) == st),
        RuntimeStatusView::Other(_) => assert(runtime_status_of(runtime_status_name(st)) == st),
    }
}

} // verus!
