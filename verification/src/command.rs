//! The data model of the command layer: which external binary to run, the
//! closed enumerations of resource kinds and actions, the named parameter
//! slots an operation may take, and the build-time error taxonomy.

use vstd::prelude::*;

verus! {

/// The external control binary a command targets.
#[derive(Clone, Copy, Debug, PartialEq, Eq, Structural)]
pub enum Binary {
    /// `lxd`: daemon control (init, version, shutdown, cluster operations).
    Lxd,
    /// `lxc`: resource control (everything else).
    Lxc,
}

/// A fully rendered command line: the binary and its ordered argument
/// vector.  Immutable once built; consumed exactly once by the executor.
#[derive(Clone, Debug, PartialEq, Eq)]
pub struct CommandSpec {
    pub binary: Binary,
    pub argv: Vec<String>,
}

/// Mathematical model of a [`CommandSpec`].
pub struct CommandSpecV {
    pub binary: Binary,
    pub argv: Seq<Seq<char>>,
}

impl View for CommandSpec {
    type V = CommandSpecV;

    open spec fn view(&self) -> CommandSpecV {
        CommandSpecV { binary: self.binary, argv: self.argv.deep_view() }
    }
}

/// The closed enumeration of resource kinds the registry knows.
#[derive(Clone, Copy, Debug, PartialEq, Eq, Structural)]
pub enum ResourceKind {
    Container,
    Image,
    Storage,
    Volume,
    Profile,
    Network,
    NetworkZone,
    NetworkZoneRecord,
    Snapshot,
    Project,
    Operation,
    ConfigKey,
    ConfigTemplate,
    ConfigDevice,
    Remote,
}

/// The closed enumeration of actions a resource kind may support.
#[derive(Clone, Copy, Debug, PartialEq, Eq, Structural)]
pub enum Action {
    List,
    Show,
    Info,
    Create,
    Delete,
    Rename,
    Copy,
    Move,
    SetValue,
    Unset,
    Get,
    Start,
    Stop,
    Restart,
    Launch,
    Attach,
    Detach,
    Publish,
    Export,
    Import,
    Refresh,
    Switch,
}

/// The named parameter slots of a [`ParamSet`].  `Remote` and `DestRemote`
/// are scope slots; the rest carry resource names, option values and paths.
#[derive(Clone, Copy, Debug, PartialEq, Eq, Structural)]
pub enum ParamName {
    Remote,
    DestRemote,
    Name,
    NewName,
    Snapshot,
    Key,
    Value,
    Filesystem,
    Alias,
    Image,
    Pool,
    Container,
    Path,
    Endpoint,
    Device,
    Title,
}

/// The typed parameters handed to the builder.  Every slot is optional; the
/// registry entry for a `(kind, action)` pair decides which slots are
/// required and which must stay empty.  `remote` and `dest_remote` select
/// the scope of the source and destination address and default to local.
#[derive(Clone, Debug)]
pub struct ParamSet {
    pub remote: Option<String>,
    pub dest_remote: Option<String>,
    pub name: Option<String>,
    pub new_name: Option<String>,
    pub snapshot: Option<String>,
    pub key: Option<String>,
    pub value: Option<String>,
    pub filesystem: Option<String>,
    pub alias: Option<String>,
    pub image: Option<String>,
    pub pool: Option<String>,
    pub container: Option<String>,
    pub path: Option<String>,
    pub endpoint: Option<String>,
    pub device: Option<String>,
    pub title: Option<String>,
}

impl ParamSet {
    /// A parameter set with every slot empty.
    pub fn empty() -> (r: ParamSet)
        ensures
            r.remote is None,
            r.dest_remote is None,
            r.name is None,
            r.new_name is None,
            r.snapshot is None,
            r.key is None,
            r.value is None,
            r.filesystem is None,
            r.alias is None,
            r.image is None,
            r.pool is None,
            r.container is None,
            r.path is None,
            r.endpoint is None,
            r.device is None,
            r.title is None,
    {
        ParamSet {
            remote: None,
            dest_remote: None,
            name: None,
            new_name: None,
            snapshot: None,
            key: None,
            value: None,
            filesystem: None,
            alias: None,
            image: None,
            pool: None,
            container: None,
            path: None,
            endpoint: None,
            device: None,
            title: None,
        }
    }

    /// The value stored in a non-scope slot, as a character sequence.
    pub open spec fn slot(self, p: ParamName) -> Option<Seq<char>> {
        match p {
            ParamName::Remote => opt_view(self.remote),
            ParamName::DestRemote => opt_view(self.dest_remote),
            ParamName::Name => opt_view(self.name),
            ParamName::NewName => opt_view(self.new_name),
            ParamName::Snapshot => opt_view(self.snapshot),
            ParamName::Key => opt_view(self.key),
            ParamName::Value => opt_view(self.value),
            ParamName::Filesystem => opt_view(self.filesystem),
            ParamName::Alias => opt_view(self.alias),
            ParamName::Image => opt_view(self.image),
            ParamName::Pool => opt_view(self.pool),
            ParamName::Container => opt_view(self.container),
            ParamName::Path => opt_view(self.path),
            ParamName::Endpoint => opt_view(self.endpoint),
            ParamName::Device => opt_view(self.device),
            ParamName::Title => opt_view(self.title),
        }
    }

    /// Whether a slot holds a value.
    pub open spec fn has(self, p: ParamName) -> bool {
        self.slot(p) is Some
    }

    /// The value a filled slot holds.
    pub open spec fn value_of(self, p: ParamName) -> Seq<char> {
        self.slot(p)->0
    }
}

/// The view of an optional owned string.
pub open spec fn opt_view(s: Option<String>) -> Option<Seq<char>> {
    match s {
        Some(s) => Some(s@),
        None => None,
    }
}

/// Failures of command construction, all detected before any process is
/// spawned.
#[derive(Clone, Copy, Debug, PartialEq, Eq, Structural)]
pub enum BuildError {
    /// The registry has no entry for this `(kind, action)` pair.
    UnsupportedAction,
    /// A parameter the entry requires was not supplied.
    MissingParam(ParamName),
    /// A parameter was supplied that the entry does not declare.
    UnexpectedParam(ParamName),
    /// A supplied address part failed validation.
    InvalidAddress(crate::address::AddressError),
}

} // verus!
