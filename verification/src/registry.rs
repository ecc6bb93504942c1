//! The declarative operation registry: an append-only table keyed by a
//! `(ResourceKind, Action)` pair, mapping each supported operation to its
//! argument template.
//!
//! A template is an ordered sequence of [`Token`]s.  A token renders to
//! exactly one argument: a literal word, a plain parameter, or an address
//! part built from the parameter set's scope slots.  Which parameters an
//! operation requires, and whether it accepts a source or destination
//! scope, is read off its template; the builder enforces that.
//!
//! Adding a new resource kind or action means adding one arm to the table,
//! not a new function.

use vstd::prelude::*;
use vstd::string::StringExecFns;
use crate::command::Action;
use crate::command::ParamName;
use crate::command::ResourceKind;

verus! {

/// One argument-vector position of a template.
///
/// `Scoped` renders a fully qualified `scope:name` address from the source
/// scope slot; `ScopedIfRemote` leaves the name bare under local scope (some
/// subcommands of the external tool expect that); `ScopedOrRegistry` falls
/// back to the public image registry `images` instead of `local` when no
/// source scope is given; `BareScope` renders the scope token alone, as the
/// list-style actions expect; `ScopedPath` renders a snapshot-style
/// `scope:name/sub` address.  The `Dest*` forms do the same with the
/// destination scope slot.
pub enum Token {
    Lit(String),
    Param(ParamName),
    Scoped(ParamName),
    ScopedIfRemote(ParamName),
    ScopedOrRegistry(ParamName),
    BareScope,
    DestScoped(ParamName),
    DestScopedIfRemote(ParamName),
    DestBareScope,
    ScopedPath(ParamName, ParamName),
}

/// Mathematical model of a [`Token`].
pub enum TokenV {
    Lit(Seq<char>),
    Param(ParamName),
    Scoped(ParamName),
    ScopedIfRemote(ParamName),
    ScopedOrRegistry(ParamName),
    BareScope,
    DestScoped(ParamName),
    DestScopedIfRemote(ParamName),
    DestBareScope,
    ScopedPath(ParamName, ParamName),
}

impl View for Token {
    type V = TokenV;

    open spec fn view(&self) -> TokenV {
        match self {
            Token::Lit(s) => TokenV::Lit(s@),
            Token::Param(p) => TokenV::Param(*p),
            Token::Scoped(p) => TokenV::Scoped(*p),
            Token::ScopedIfRemote(p) => TokenV::ScopedIfRemote(*p),
            Token::ScopedOrRegistry(p) => TokenV::ScopedOrRegistry(*p),
            Token::BareScope => TokenV::BareScope,
            Token::DestScoped(p) => TokenV::DestScoped(*p),
            Token::DestScopedIfRemote(p) => TokenV::DestScopedIfRemote(*p),
            Token::DestBareScope => TokenV::DestBareScope,
            Token::ScopedPath(p, q) => TokenV::ScopedPath(*p, *q),
        }
    }
}

impl DeepView for Token {
    type V = TokenV;

    open spec fn deep_view(&self) -> TokenV {
        self.view()
    }
}

/// The view of a lookup result.
pub open spec fn entry_view(r: Option<Vec<Token>>) -> Option<Seq<TokenV>> {
    match r {
        Some(v) => Some(v.deep_view()),
        None => None,
    }
}

/// A literal template token.
fn lit(s: &str) -> (t: Token)
    ensures
        t@ == TokenV::Lit(s@),
{
    Token::Lit(String::from_str(s))
}

/// The template of a `(kind, action)` pair, or `None` where the pair is
/// unsupported.
pub open spec fn spec_entry(kind: ResourceKind, action: Action) -> Option<Seq<TokenV>> {
    match kind {
        ResourceKind::Container => spec_entry_container(action),
        ResourceKind::Image => spec_entry_image(action),
        ResourceKind::Storage => spec_entry_storage(action),
        ResourceKind::Volume => spec_entry_volume(action),
        ResourceKind::Profile => spec_entry_profile(action),
        ResourceKind::Network => spec_entry_network(action),
        ResourceKind::NetworkZone => spec_entry_network_zone(action),
        ResourceKind::NetworkZoneRecord => spec_entry_network_zone_record(action),
        ResourceKind::Snapshot => spec_entry_snapshot(action),
        ResourceKind::Project => spec_entry_project(action),
        ResourceKind::Operation => spec_entry_operation(action),
        ResourceKind::ConfigKey => spec_entry_config_key(action),
        ResourceKind::ConfigTemplate => spec_entry_config_template(action),
        ResourceKind::ConfigDevice => spec_entry_config_device(action),
        ResourceKind::Remote => spec_entry_remote(action),
    }
}

/// Look the template of a `(kind, action)` pair up.
pub fn entry_for(kind: ResourceKind, action: Action) -> (r: Option<Vec<Token>>)
    ensures
        entry_view(r) == spec_entry(kind, action),
{
    match kind {
        ResourceKind::Container => entry_container(action),
        ResourceKind::Image => entry_image(action),
        ResourceKind::Storage => entry_storage(action),
        ResourceKind::Volume => entry_volume(action),
        ResourceKind::Profile => entry_profile(action),
        ResourceKind::Network => entry_network(action),
        ResourceKind::NetworkZone => entry_network_zone(action),
        ResourceKind::NetworkZoneRecord => entry_network_zone_record(action),
        ResourceKind::Snapshot => entry_snapshot(action),
        ResourceKind::Project => entry_project(action),
        ResourceKind::Operation => entry_operation(action),
        ResourceKind::ConfigKey => entry_config_key(action),
        ResourceKind::ConfigTemplate => entry_config_template(action),
        ResourceKind::ConfigDevice => entry_config_device(action),
        ResourceKind::Remote => entry_remote(action),
    }
}

pub open spec fn spec_entry_container(action: Action) -> Option<Seq<TokenV>> {
    match action {
        Action::List => Some(seq![TokenV::Lit("list"@), TokenV::BareScope]),
        Action::Launch => Some(seq![TokenV::Lit("launch"@), TokenV::ScopedOrRegistry(ParamName::Image), TokenV::ScopedIfRemote(ParamName::Name)]),
        Action::Info => Some(seq![TokenV::Lit("info"@), TokenV::Scoped(ParamName::Name)]),
        Action::Start => Some(seq![TokenV::Lit("start"@), TokenV::Scoped(ParamName::Name)]),
        Action::Stop => Some(seq![TokenV::Lit("stop"@), TokenV::Scoped(ParamName::Name)]),
        Action::Restart => Some(seq![TokenV::Lit("restart"@), TokenV::Scoped(ParamName::Name)]),
        Action::Delete => Some(seq![TokenV::Lit("delete"@), TokenV::Scoped(ParamName::Name)]),
        Action::Rename => Some(seq![TokenV::Lit("move"@), TokenV::Scoped(ParamName::Name), TokenV::DestScopedIfRemote(ParamName::NewName)]),
        Action::Copy => Some(seq![TokenV::Lit("copy"@), TokenV::Scoped(ParamName::Name), TokenV::DestScoped(ParamName::NewName)]),
        Action::Show => Some(seq![TokenV::Lit("config"@), TokenV::Lit("show"@), TokenV::Scoped(ParamName::Name)]),
        _ => None,
    }
}

fn entry_container(action: Action) -> (r: Option<Vec<Token>>)
    ensures
        entry_view(r) == spec_entry_container(action),
{
    match action {
        Action::List => {
            let mut toks: Vec<Token> = Vec::new();
            toks.push(lit("list"));
            toks.push(Token::BareScope);
            proof {
                assert(toks.deep_view() =~= spec_entry_container(action)->0);
            }
            Some(toks)
        },
        Action::Launch => {
            let mut toks: Vec<Token> = Vec::new();
            toks.push(lit("launch"));
            toks.push(Token::ScopedOrRegistry(ParamName::Image));
            toks.push(Token::ScopedIfRemote(ParamName::Name));
            proof {
                assert(toks.deep_view() =~= spec_entry_container(action)->0);
            }
            Some(toks)
        },
        Action::Info => {
            let mut toks: Vec<Token> = Vec::new();
            toks.push(lit("info"));
            toks.push(Token::Scoped(ParamName::Name));
            proof {
                assert(toks.deep_view() =~= spec_entry_container(action)->0);
            }
            Some(toks)
        },
        Action::Start => {
            let mut toks: Vec<Token> = Vec::new();
            toks.push(lit("start"));
            toks.push(Token::Scoped(ParamName::Name));
            proof {
                assert(toks.deep_view() =~= spec_entry_container(action)->0);
            }
            Some(toks)
        },
        Action::Stop => {
            let mut toks: Vec<Token> = Vec::new();
            toks.push(lit("stop"));
            toks.push(Token::Scoped(ParamName::Name));
            proof {
                assert(toks.deep_view() =~= spec_entry_container(action)->0);
            }
            Some(toks)
        },
        Action::Restart => {
            let mut toks: Vec<Token> = Vec::new();
            toks.push(lit("restart"));
            toks.push(Token::Scoped(ParamName::Name));
            proof {
                assert(toks.deep_view() =~= spec_entry_container(action)->0);
            }
            Some(toks)
        },
        Action::Delete => {
            let mut toks: Vec<Token> = Vec::new();
            toks.push(lit("delete"));
            toks.push(Token::Scoped(ParamName::Name));
            proof {
                assert(toks.deep_view() =~= spec_entry_container(action)->0);
            }
            Some(toks)
        },
        Action::Rename => {
            let mut toks: Vec<Token> = Vec::new();
            toks.push(lit("move"));
            toks.push(Token::Scoped(ParamName::Name));
            toks.push(Token::DestScopedIfRemote(ParamName::NewName));
            proof {
                assert(toks.deep_view() =~= spec_entry_container(action)->0);
            }
            Some(toks)
        },
        Action::Copy => {
            let mut toks: Vec<Token> = Vec::new();
            toks.push(lit("copy"));
            toks.push(Token::Scoped(ParamName::Name));
            toks.push(Token::DestScoped(ParamName::NewName));
            proof {
                assert(toks.deep_view() =~= spec_entry_container(action)->0);
            }
            Some(toks)
        },
        Action::Show => {
            let mut toks: Vec<Token> = Vec::new();
            toks.push(lit("config"));
            toks.push(lit("show"));
            toks.push(Token::Scoped(ParamName::Name));
            proof {
                assert(toks.deep_view() =~= spec_entry_container(action)->0);
            }
            Some(toks)
        },
        _ => None,
    }
}

pub open spec fn spec_entry_image(action: Action) -> Option<Seq<TokenV>> {
    match action {
        Action::List => Some(seq![TokenV::Lit("image"@), TokenV::Lit("list"@), TokenV::BareScope]),
        Action::Info => Some(seq![TokenV::Lit("image"@), TokenV::Lit("info"@), TokenV::Param(ParamName::Name)]),
        Action::Show => Some(seq![TokenV::Lit("image"@), TokenV::Lit("show"@), TokenV::Param(ParamName::Name)]),
        Action::Copy => Some(seq![TokenV::Lit("image"@), TokenV::Lit("copy"@), TokenV::ScopedOrRegistry(ParamName::Name), TokenV::DestBareScope, TokenV::Lit("--alias"@), TokenV::Param(ParamName::Alias)]),
        Action::Publish => Some(seq![TokenV::Lit("publish"@), TokenV::Param(ParamName::Name), TokenV::Lit("--alias"@), TokenV::Param(ParamName::Alias)]),
        Action::Export => Some(seq![TokenV::Lit("image"@), TokenV::Lit("export"@), TokenV::Param(ParamName::Name), TokenV::Param(ParamName::Path)]),
        Action::Import => Some(seq![TokenV::Lit("image"@), TokenV::Lit("import"@), TokenV::Param(ParamName::Path), TokenV::Lit("--alias"@), TokenV::Param(ParamName::Alias)]),
        Action::Delete => Some(seq![TokenV::Lit("image"@), TokenV::Lit("delete"@), TokenV::Param(ParamName::Name)]),
        Action::Refresh => Some(seq![TokenV::Lit("image"@), TokenV::Lit("refresh"@), TokenV::Param(ParamName::Name)]),
        Action::SetValue => Some(seq![TokenV::Lit("image"@), TokenV::Lit("set-property"@), TokenV::Param(ParamName::Name), TokenV::Param(ParamName::Key), TokenV::Param(ParamName::Value)]),
        Action::Unset => Some(seq![TokenV::Lit("image"@), TokenV::Lit("unset-property"@), TokenV::Param(ParamName::Name), TokenV::Param(ParamName::Key)]),
        Action::Rename => Some(seq![TokenV::Lit("image"@), TokenV::Lit("rename"@), TokenV::Param(ParamName::Name), TokenV::Param(ParamName::NewName)]),
        _ => None,
    }
}

fn entry_image(action: Action) -> (r: Option<Vec<Token>>)
    ensures
        entry_view(r) == spec_entry_image(action),
{
    match action {
        Action::List => {
            let mut toks: Vec<Token> = Vec::new();
            toks.push(lit("image"));
            toks.push(lit("list"));
            toks.push(Token::BareScope);
            proof {
                assert(toks.deep_view() =~= spec_entry_image(action)->0);
            }
            Some(toks)
        },
        Action::Info => {
            let mut toks: Vec<Token> = Vec::new();
            toks.push(lit("image"));
            toks.push(lit("info"));
            toks.push(Token::Param(ParamName::Name));
            proof {
                assert(toks.deep_view() =~= spec_entry_image(action)->0);
            }
            Some(toks)
        },
        Action::Show => {
            let mut toks: Vec<Token> = Vec::new();
            toks.push(lit("image"));
            toks.push(lit("show"));
            toks.push(Token::Param(ParamName::Name));
            proof {
                assert(toks.deep_view() =~= spec_entry_image(action)->0);
            }
            Some(toks)
        },
        Action::Copy => {
            let mut toks: Vec<Token> = Vec::new();
            toks.push(lit("image"));
            toks.push(lit("copy"));
            toks.push(Token::ScopedOrRegistry(ParamName::Name));
            toks.push(Token::DestBareScope);
            toks.push(lit("--alias"));
            toks.push(Token::Param(ParamName::Alias));
            proof {
                assert(toks.deep_view() =~= spec_entry_image(action)->0);
            }
            Some(toks)
        },
        Action::Publish => {
            let mut toks: Vec<Token> = Vec::new();
            toks.push(lit("publish"));
            toks.push(Token::Param(ParamName::Name));
            toks.push(lit("--alias"));
            toks.push(Token::Param(ParamName::Alias));
            proof {
                assert(toks.deep_view() =~= spec_entry_image(action)->0);
            }
            Some(toks)
        },
        Action::Export => {
            let mut toks: Vec<Token> = Vec::new();
            toks.push(lit("image"));
            toks.push(lit("export"));
            toks.push(Token::Param(ParamName::Name));
            toks.push(Token::Param(ParamName::Path));
            proof {
                assert(toks.deep_view() =~= spec_entry_image(action)->0);
            }
            Some(toks)
        },
        Action::Import => {
            let mut toks: Vec<Token> = Vec::new();
            toks.push(lit("image"));
            toks.push(lit("import"));
            toks.push(Token::Param(ParamName::Path));
            toks.push(lit("--alias"));
            toks.push(Token::Param(ParamName::Alias));
            proof {
                assert(toks.deep_view() =~= spec_entry_image(action)->0);
            }
            Some(toks)
        },
        Action::Delete => {
            let mut toks: Vec<Token> = Vec::new();
            toks.push(lit("image"));
            toks.push(lit("delete"));
            toks.push(Token::Param(ParamName::Name));
            proof {
                assert(toks.deep_view() =~= spec_entry_image(action)->0);
            }
            Some(toks)
        },
        Action::Refresh => {
            let mut toks: Vec<Token> = Vec::new();
            toks.push(lit("image"));
            toks.push(lit("refresh"));
            toks.push(Token::Param(ParamName::Name));
            proof {
                assert(toks.deep_view() =~= spec_entry_image(action)->0);
            }
            Some(toks)
        },
        Action::SetValue => {
            let mut toks: Vec<Token> = Vec::new();
            toks.push(lit("image"));
            toks.push(lit("set-property"));
            toks.push(Token::Param(ParamName::Name));
            toks.push(Token::Param(ParamName::Key));
            toks.push(Token::Param(ParamName::Value));
            proof {
                assert(toks.deep_view() =~= spec_entry_image(action)->0);
            }
            Some(toks)
        },
        Action::Unset => {
            let mut toks: Vec<Token> = Vec::new();
            toks.push(lit("image"));
            toks.push(lit("unset-property"));
            toks.push(Token::Param(ParamName::Name));
            toks.push(Token::Param(ParamName::Key));
            proof {
                assert(toks.deep_view() =~= spec_entry_image(action)->0);
            }
            Some(toks)
        },
        Action::Rename => {
            let mut toks: Vec<Token> = Vec::new();
            toks.push(lit("image"));
            toks.push(lit("rename"));
            toks.push(Token::Param(ParamName::Name));
            toks.push(Token::Param(ParamName::NewName));
            proof {
                assert(toks.deep_view() =~= spec_entry_image(action)->0);
            }
            Some(toks)
        },
        _ => None,
    }
}

pub open spec fn spec_entry_storage(action: Action) -> Option<Seq<TokenV>> {
    match action {
        Action::List => Some(seq![TokenV::Lit("storage"@), TokenV::Lit("list"@), TokenV::BareScope]),
        Action::Info => Some(seq![TokenV::Lit("storage"@), TokenV::Lit("info"@), TokenV::ScopedIfRemote(ParamName::Name)]),
        Action::Create => Some(seq![TokenV::Lit("storage"@), TokenV::Lit("create"@), TokenV::Scoped(ParamName::Name), TokenV::Param(ParamName::Filesystem)]),
        Action::SetValue => Some(seq![TokenV::Lit("storage"@), TokenV::Lit("set"@), TokenV::Scoped(ParamName::Name), TokenV::Param(ParamName::Key), TokenV::Param(ParamName::Value)]),
        Action::Unset => Some(seq![TokenV::Lit("storage"@), TokenV::Lit("unset"@), TokenV::Scoped(ParamName::Name), TokenV::Param(ParamName::Key)]),
        Action::Get => Some(seq![TokenV::Lit("storage"@), TokenV::Lit("get"@), TokenV::Scoped(ParamName::Name), TokenV::Param(ParamName::Key)]),
        Action::Delete => Some(seq![TokenV::Lit("storage"@), TokenV::Lit("delete"@), TokenV::Scoped(ParamName::Name)]),
        _ => None,
    }
}

fn entry_storage(action: Action) -> (r: Option<Vec<Token>>)
    ensures
        entry_view(r) == spec_entry_storage(action),
{
    match action {
        Action::List => {
            let mut toks: Vec<Token> = Vec::new();
            toks.push(lit("storage"));
            toks.push(lit("list"));
            toks.push(Token::BareScope);
            proof {
                assert(toks.deep_view() =~= spec_entry_storage(action)->0);
            }
            Some(toks)
        },
        Action::Info => {
            let mut toks: Vec<Token> = Vec::new();
            toks.push(lit("storage"));
            toks.push(lit("info"));
            toks.push(Token::ScopedIfRemote(ParamName::Name));
            proof {
                assert(toks.deep_view() =~= spec_entry_storage(action)->0);
            }
            Some(toks)
        },
        Action::Create => {
            let mut toks: Vec<Token> = Vec::new();
            toks.push(lit("storage"));
            toks.push(lit("create"));
            toks.push(Token::Scoped(ParamName::Name));
            toks.push(Token::Param(ParamName::Filesystem));
            proof {
                assert(toks.deep_view() =~= spec_entry_storage(action)->0);
            }
            Some(toks)
        },
        Action::SetValue => {
            let mut toks: Vec<Token> = Vec::new();
            toks.push(lit("storage"));
            toks.push(lit("set"));
            toks.push(Token::Scoped(ParamName::Name));
            toks.push(Token::Param(ParamName::Key));
            toks.push(Token::Param(ParamName::Value));
            proof {
                assert(toks.deep_view() =~= spec_entry_storage(action)->0);
            }
            Some(toks)
        },
        Action::Unset => {
            let mut toks: Vec<Token> = Vec::new();
            toks.push(lit("storage"));
            toks.push(lit("unset"));
            toks.push(Token::Scoped(ParamName::Name));
            toks.push(Token::Param(ParamName::Key));
            proof {
                assert(toks.deep_view() =~= spec_entry_storage(action)->0);
            }
            Some(toks)
        },
        Action::Get => {
            let mut toks: Vec<Token> = Vec::new();
            toks.push(lit("storage"));
            toks.push(lit("get"));
            toks.push(Token::Scoped(ParamName::Name));
            toks.push(Token::Param(ParamName::Key));
            proof {
                assert(toks.deep_view() =~= spec_entry_storage(action)->0);
            }
            Some(toks)
        },
        Action::Delete => {
            let mut toks: Vec<Token> = Vec::new();
            toks.push(lit("storage"));
            toks.push(lit("delete"));
            toks.push(Token::Scoped(ParamName::Name));
            proof {
                assert(toks.deep_view() =~= spec_entry_storage(action)->0);
            }
            Some(toks)
        },
        _ => None,
    }
}

pub open spec fn spec_entry_volume(action: Action) -> Option<Seq<TokenV>> {
    match action {
        Action::List => Some(seq![TokenV::Lit("storage"@), TokenV::Lit("volume"@), TokenV::Lit("list"@), TokenV::ScopedIfRemote(ParamName::Pool)]),
        Action::Create => Some(seq![TokenV::Lit("storage"@), TokenV::Lit("volume"@), TokenV::Lit("create"@), TokenV::ScopedIfRemote(ParamName::Pool), TokenV::Param(ParamName::Name)]),
        Action::Attach => Some(seq![TokenV::Lit("storage"@), TokenV::Lit("volume"@), TokenV::Lit("attach"@), TokenV::Param(ParamName::Pool), TokenV::Param(ParamName::Name), TokenV::Param(ParamName::Container), TokenV::Lit("data"@), TokenV::Param(ParamName::Path)]),
        Action::Detach => Some(seq![TokenV::Lit("storage"@), TokenV::Lit("volume"@), TokenV::Lit("detach"@), TokenV::Param(ParamName::Pool), TokenV::Param(ParamName::Name), TokenV::Param(ParamName::Container)]),
        Action::Delete => Some(seq![TokenV::Lit("storage"@), TokenV::Lit("volume"@), TokenV::Lit("delete"@), TokenV::Scoped(ParamName::Pool), TokenV::Scoped(ParamName::Name)]),
        Action::Rename => Some(seq![TokenV::Lit("storage"@), TokenV::Lit("volume"@), TokenV::Lit("rename"@), TokenV::ScopedIfRemote(ParamName::Pool), TokenV::ScopedIfRemote(ParamName::Name), TokenV::ScopedIfRemote(ParamName::NewName)]),
        _ => None,
    }
}

fn entry_volume(action: Action) -> (r: Option<Vec<Token>>)
    ensures
        entry_view(r) == spec_entry_volume(action),
{
    match action {
        Action::List => {
            let mut toks: Vec<Token> = Vec::new();
            toks.push(lit("storage"));
            toks.push(lit("volume"));
            toks.push(lit("list"));
            toks.push(Token::ScopedIfRemote(ParamName::Pool));
            proof {
                assert(toks.deep_view() =~= spec_entry_volume(action)->0);
            }
            Some(toks)
        },
        Action::Create => {
            let mut toks: Vec<Token> = Vec::new();
            toks.push(lit("storage"));
            toks.push(lit("volume"));
            toks.push(lit("create"));
            toks.push(Token::ScopedIfRemote(ParamName::Pool));
            toks.push(Token::Param(ParamName::Name));
            proof {
                assert(toks.deep_view() =~= spec_entry_volume(action)->0);
            }
            Some(toks)
        },
        Action::Attach => {
            let mut toks: Vec<Token> = Vec::new();
            toks.push(lit("storage"));
            toks.push(lit("volume"));
            toks.push(lit("attach"));
            toks.push(Token::Param(ParamName::Pool));
            toks.push(Token::Param(ParamName::Name));
            toks.push(Token::Param(ParamName::Container));
            toks.push(lit("data"));
            toks.push(Token::Param(ParamName::Path));
            proof {
                assert(toks.deep_view() =~= spec_entry_volume(action)->0);
            }
            Some(toks)
        },
        Action::Detach => {
            let mut toks: Vec<Token> = Vec::new();
            toks.push(lit("storage"));
            toks.push(lit("volume"));
            toks.push(lit("detach"));
            toks.push(Token::Param(ParamName::Pool));
            toks.push(Token::Param(ParamName::Name));
            toks.push(Token::Param(ParamName::Container));
            proof {
                assert(toks.deep_view() =~= spec_entry_volume(action)->0);
            }
            Some(toks)
        },
        Action::Delete => {
            let mut toks: Vec<Token> = Vec::new();
            toks.push(lit("storage"));
            toks.push(lit("volume"));
            toks.push(lit("delete"));
            toks.push(Token::Scoped(ParamName::Pool));
            toks.push(Token::Scoped(ParamName::Name));
            proof {
                assert(toks.deep_view() =~= spec_entry_volume(action)->0);
            }
            Some(toks)
        },
        Action::Rename => {
            let mut toks: Vec<Token> = Vec::new();
            toks.push(lit("storage"));
            toks.push(lit("volume"));
            toks.push(lit("rename"));
            toks.push(Token::ScopedIfRemote(ParamName::Pool));
            toks.push(Token::ScopedIfRemote(ParamName::Name));
            toks.push(Token::ScopedIfRemote(ParamName::NewName));
            proof {
                assert(toks.deep_view() =~= spec_entry_volume(action)->0);
            }
            Some(toks)
        },
        _ => None,
    }
}

pub open spec fn spec_entry_profile(action: Action) -> Option<Seq<TokenV>> {
    match action {
        Action::List => Some(seq![TokenV::Lit("profile"@), TokenV::Lit("list"@), TokenV::BareScope]),
        Action::Show => Some(seq![TokenV::Lit("profile"@), TokenV::Lit("show"@), TokenV::Scoped(ParamName::Name)]),
        Action::Delete => Some(seq![TokenV::Lit("profile"@), TokenV::Lit("delete"@), TokenV::Scoped(ParamName::Name)]),
        Action::Copy => Some(seq![TokenV::Lit("profile"@), TokenV::Lit("copy"@), TokenV::Scoped(ParamName::Name), TokenV::DestScoped(ParamName::NewName)]),
        Action::Rename => Some(seq![TokenV::Lit("profile"@), TokenV::Lit("rename"@), TokenV::Param(ParamName::Name), TokenV::Param(ParamName::NewName)]),
        Action::Create => Some(seq![TokenV::Lit("profile"@), TokenV::Lit("create"@), TokenV::Scoped(ParamName::Name)]),
        Action::Detach => Some(seq![TokenV::Lit("profile"@), TokenV::Lit("remove"@), TokenV::ScopedIfRemote(ParamName::Name)]),
        _ => None,
    }
}

fn entry_profile(action: Action) -> (r: Option<Vec<Token>>)
    ensures
        entry_view(r) == spec_entry_profile(action),
{
    match action {
        Action::List => {
            let mut toks: Vec<Token> = Vec::new();
            toks.push(lit("profile"));
            toks.push(lit("list"));
            toks.push(Token::BareScope);
            proof {
                assert(toks.deep_view() =~= spec_entry_profile(action)->0);
            }
            Some(toks)
        },
        Action::Show => {
            let mut toks: Vec<Token> = Vec::new();
            toks.push(lit("profile"));
            toks.push(lit("show"));
            toks.push(Token::Scoped(ParamName::Name));
            proof {
                assert(toks.deep_view() =~= spec_entry_profile(action)->0);
            }
            Some(toks)
        },
        Action::Delete => {
            let mut toks: Vec<Token> = Vec::new();
            toks.push(lit("profile"));
            toks.push(lit("delete"));
            toks.push(Token::Scoped(ParamName::Name));
            proof {
                assert(toks.deep_view() =~= spec_entry_profile(action)->0);
            }
            Some(toks)
        },
        Action::Copy => {
            let mut toks: Vec<Token> = Vec::new();
            toks.push(lit("profile"));
            toks.push(lit("copy"));
            toks.push(Token::Scoped(ParamName::Name));
            toks.push(Token::DestScoped(ParamName::NewName));
            proof {
                assert(toks.deep_view() =~= spec_entry_profile(action)->0);
            }
            Some(toks)
        },
        Action::Rename => {
            let mut toks: Vec<Token> = Vec::new();
            toks.push(lit("profile"));
            toks.push(lit("rename"));
            toks.push(Token::Param(ParamName::Name));
            toks.push(Token::Param(ParamName::NewName));
            proof {
                assert(toks.deep_view() =~= spec_entry_profile(action)->0);
            }
            Some(toks)
        },
        Action::Create => {
            let mut toks: Vec<Token> = Vec::new();
            toks.push(lit("profile"));
            toks.push(lit("create"));
            toks.push(Token::Scoped(ParamName::Name));
            proof {
                assert(toks.deep_view() =~= spec_entry_profile(action)->0);
            }
            Some(toks)
        },
        Action::Detach => {
            let mut toks: Vec<Token> = Vec::new();
            toks.push(lit("profile"));
            toks.push(lit("remove"));
            toks.push(Token::ScopedIfRemote(ParamName::Name));
            proof {
                assert(toks.deep_view() =~= spec_entry_profile(action)->0);
            }
            Some(toks)
        },
        _ => None,
    }
}

pub open spec fn spec_entry_network(action: Action) -> Option<Seq<TokenV>> {
    match action {
        Action::List => Some(seq![TokenV::Lit("network"@), TokenV::Lit("list"@), TokenV::BareScope]),
        Action::Delete => Some(seq![TokenV::Lit("network"@), TokenV::Lit("delete"@), TokenV::Scoped(ParamName::Name)]),
        Action::Show => Some(seq![TokenV::Lit("network"@), TokenV::Lit("show"@), TokenV::Scoped(ParamName::Name)]),
        Action::Create => Some(seq![TokenV::Lit("network"@), TokenV::Lit("create"@), TokenV::Scoped(ParamName::Name)]),
        Action::Rename => Some(seq![TokenV::Lit("network"@), TokenV::Lit("rename"@), TokenV::Scoped(ParamName::Name), TokenV::DestScoped(ParamName::NewName)]),
        Action::Copy => Some(seq![TokenV::Lit("network"@), TokenV::Lit("copy"@), TokenV::ScopedIfRemote(ParamName::Name), TokenV::DestScopedIfRemote(ParamName::NewName)]),
        Action::SetValue => Some(seq![TokenV::Lit("network"@), TokenV::Lit("set"@), TokenV::ScopedIfRemote(ParamName::Name), TokenV::Param(ParamName::Key), TokenV::Param(ParamName::Value)]),
        Action::Unset => Some(seq![TokenV::Lit("network"@), TokenV::Lit("unset"@), TokenV::ScopedIfRemote(ParamName::Name), TokenV::Param(ParamName::Key)]),
        _ => None,
    }
}

fn entry_network(action: Action) -> (r: Option<Vec<Token>>)
    ensures
        entry_view(r) == spec_entry_network(action),
{
    match action {
        Action::List => {
            let mut toks: Vec<Token> = Vec::new();
            toks.push(lit("network"));
            toks.push(lit("list"));
            toks.push(Token::BareScope);
            proof {
                assert(toks.deep_view() =~= spec_entry_network(action)->0);
            }
            Some(toks)
        },
        Action::Delete => {
            let mut toks: Vec<Token> = Vec::new();
            toks.push(lit("network"));
            toks.push(lit("delete"));
            toks.push(Token::Scoped(ParamName::Name));
            proof {
                assert(toks.deep_view() =~= spec_entry_network(action)->0);
            }
            Some(toks)
        },
        Action::Show => {
            let mut toks: Vec<Token> = Vec::new();
            toks.push(lit("network"));
            toks.push(lit("show"));
            toks.push(Token::Scoped(ParamName::Name));
            proof {
                assert(toks.deep_view() =~= spec_entry_network(action)->0);
            }
            Some(toks)
        },
        Action::Create => {
            let mut toks: Vec<Token> = Vec::new();
            toks.push(lit("network"));
            toks.push(lit("create"));
            toks.push(Token::Scoped(ParamName::Name));
            proof {
                assert(toks.deep_view() =~= spec_entry_network(action)->0);
            }
            Some(toks)
        },
        Action::Rename => {
            let mut toks: Vec<Token> = Vec::new();
            toks.push(lit("network"));
            toks.push(lit("rename"));
            toks.push(Token::Scoped(ParamName::Name));
            toks.push(Token::DestScoped(ParamName::NewName));
            proof {
                assert(toks.deep_view() =~= spec_entry_network(action)->0);
            }
            Some(toks)
        },
        Action::Copy => {
            let mut toks: Vec<Token> = Vec::new();
            toks.push(lit("network"));
            toks.push(lit("copy"));
            toks.push(Token::ScopedIfRemote(ParamName::Name));
            toks.push(Token::DestScopedIfRemote(ParamName::NewName));
            proof {
                assert(toks.deep_view() =~= spec_entry_network(action)->0);
            }
            Some(toks)
        },
        Action::SetValue => {
            let mut toks: Vec<Token> = Vec::new();
            toks.push(lit("network"));
            toks.push(lit("set"));
            toks.push(Token::ScopedIfRemote(ParamName::Name));
            toks.push(Token::Param(ParamName::Key));
            toks.push(Token::Param(ParamName::Value));
            proof {
                assert(toks.deep_view() =~= spec_entry_network(action)->0);
            }
            Some(toks)
        },
        Action::Unset => {
            let mut toks: Vec<Token> = Vec::new();
            toks.push(lit("network"));
            toks.push(lit("unset"));
            toks.push(Token::ScopedIfRemote(ParamName::Name));
            toks.push(Token::Param(ParamName::Key));
            proof {
                assert(toks.deep_view() =~= spec_entry_network(action)->0);
            }
            Some(toks)
        },
        _ => None,
    }
}

pub open spec fn spec_entry_network_zone(action: Action) -> Option<Seq<TokenV>> {
    match action {
        Action::List => Some(seq![TokenV::Lit("network"@), TokenV::Lit("zone"@), TokenV::Lit("list"@), TokenV::BareScope]),
        Action::Create => Some(seq![TokenV::Lit("network"@), TokenV::Lit("zone"@), TokenV::Lit("create"@), TokenV::Param(ParamName::Name)]),
        Action::SetValue => Some(seq![TokenV::Lit("network"@), TokenV::Lit("zone"@), TokenV::Lit("set"@), TokenV::Param(ParamName::Name), TokenV::Param(ParamName::Key), TokenV::Param(ParamName::Value)]),
        Action::Unset => Some(seq![TokenV::Lit("network"@), TokenV::Lit("zone"@), TokenV::Lit("unset"@), TokenV::Param(ParamName::Name), TokenV::Param(ParamName::Key)]),
        Action::Show => Some(seq![TokenV::Lit("network"@), TokenV::Lit("zone"@), TokenV::Lit("show"@), TokenV::Param(ParamName::Name)]),
        Action::Delete => Some(seq![TokenV::Lit("network"@), TokenV::Lit("zone"@), TokenV::Lit("delete"@), TokenV::Scoped(ParamName::Name)]),
        _ => None,
    }
}

fn entry_network_zone(action: Action) -> (r: Option<Vec<Token>>)
    ensures
        entry_view(r) == spec_entry_network_zone(action),
{
    match action {
        Action::List => {
            let mut toks: Vec<Token> = Vec::new();
            toks.push(lit("network"));
            toks.push(lit("zone"));
            toks.push(lit("list"));
            toks.push(Token::BareScope);
            proof {
                assert(toks.deep_view() =~= spec_entry_network_zone(action)->0);
            }
            Some(toks)
        },
        Action::Create => {
            let mut toks: Vec<Token> = Vec::new();
            toks.push(lit("network"));
            toks.push(lit("zone"));
            toks.push(lit("create"));
            toks.push(Token::Param(ParamName::Name));
            proof {
                assert(toks.deep_view() =~= spec_entry_network_zone(action)->0);
            }
            Some(toks)
        },
        Action::SetValue => {
            let mut toks: Vec<Token> = Vec::new();
            toks.push(lit("network"));
            toks.push(lit("zone"));
            toks.push(lit("set"));
            toks.push(Token::Param(ParamName::Name));
            toks.push(Token::Param(ParamName::Key));
            toks.push(Token::Param(ParamName::Value));
            proof {
                assert(toks.deep_view() =~= spec_entry_network_zone(action)->0);
            }
            Some(toks)
        },
        Action::Unset => {
            let mut toks: Vec<Token> = Vec::new();
            toks.push(lit("network"));
            toks.push(lit("zone"));
            toks.push(lit("unset"));
            toks.push(Token::Param(ParamName::Name));
            toks.push(Token::Param(ParamName::Key));
            proof {
                assert(toks.deep_view() =~= spec_entry_network_zone(action)->0);
            }
            Some(toks)
        },
        Action::Show => {
            let mut toks: Vec<Token> = Vec::new();
            toks.push(lit("network"));
            toks.push(lit("zone"));
            toks.push(lit("show"));
            toks.push(Token::Param(ParamName::Name));
            proof {
                assert(toks.deep_view() =~= spec_entry_network_zone(action)->0);
            }
            Some(toks)
        },
        Action::Delete => {
            let mut toks: Vec<Token> = Vec::new();
            toks.push(lit("network"));
            toks.push(lit("zone"));
            toks.push(lit("delete"));
            toks.push(Token::Scoped(ParamName::Name));
            proof {
                assert(toks.deep_view() =~= spec_entry_network_zone(action)->0);
            }
            Some(toks)
        },
        _ => None,
    }
}

pub open spec fn spec_entry_network_zone_record(action: Action) -> Option<Seq<TokenV>> {
    match action {
        Action::List => Some(seq![TokenV::Lit("network"@), TokenV::Lit("zone"@), TokenV::Lit("record"@), TokenV::Lit("list"@), TokenV::Param(ParamName::Name)]),
        Action::Create => Some(seq![TokenV::Lit("network"@), TokenV::Lit("zone"@), TokenV::Lit("record"@), TokenV::Lit("create"@), TokenV::Param(ParamName::Name), TokenV::Param(ParamName::Title)]),
        Action::Delete => Some(seq![TokenV::Lit("network"@), TokenV::Lit("zone"@), TokenV::Lit("record"@), TokenV::Lit("delete"@), TokenV::Param(ParamName::Name), TokenV::Param(ParamName::Title)]),
        Action::Show => Some(seq![TokenV::Lit("network"@), TokenV::Lit("zone"@), TokenV::Lit("record"@), TokenV::Lit("show"@), TokenV::Param(ParamName::Name), TokenV::Param(ParamName::Title)]),
        Action::SetValue => Some(seq![TokenV::Lit("network"@), TokenV::Lit("zone"@), TokenV::Lit("record"@), TokenV::Lit("set"@), TokenV::Param(ParamName::Name), TokenV::Param(ParamName::Title), TokenV::Param(ParamName::Key), TokenV::Param(ParamName::Value)]),
        Action::Unset => Some(seq![TokenV::Lit("network"@), TokenV::Lit("zone"@), TokenV::Lit("record"@), TokenV::Lit("unset"@), TokenV::Param(ParamName::Name), TokenV::Param(ParamName::Title), TokenV::Param(ParamName::Key)]),
        _ => None,
    }
}

fn entry_network_zone_record(action: Action) -> (r: Option<Vec<Token>>)
    ensures
        entry_view(r) == spec_entry_network_zone_record(action),
{
    match action {
        Action::List => {
            let mut toks: Vec<Token> = Vec::new();
            toks.push(lit("network"));
            toks.push(lit("zone"));
            toks.push(lit("record"));
            toks.push(lit("list"));
            toks.push(Token::Param(ParamName::Name));
            proof {
                assert(toks.deep_view() =~= spec_entry_network_zone_record(action)->0);
            }
            Some(toks)
        },
        Action::Create => {
            let mut toks: Vec<Token> = Vec::new();
            toks.push(lit("network"));
            toks.push(lit("zone"));
            toks.push(lit("record"));
            toks.push(lit("create"));
            toks.push(Token::Param(ParamName::Name));
            toks.push(Token::Param(ParamName::Title));
            proof {
                assert(toks.deep_view() =~= spec_entry_network_zone_record(action)->0);
            }
            Some(toks)
        },
        Action::Delete => {
            let mut toks: Vec<Token> = Vec::new();
            toks.push(lit("network"));
            toks.push(lit("zone"));
            toks.push(lit("record"));
            toks.push(lit("delete"));
            toks.push(Token::Param(ParamName::Name));
            toks.push(Token::Param(ParamName::Title));
            proof {
                assert(toks.deep_view() =~= spec_entry_network_zone_record(action)->0);
            }
            Some(toks)
        },
        Action::Show => {
            let mut toks: Vec<Token> = Vec::new();
            toks.push(lit("network"));
            toks.push(lit("zone"));
            toks.push(lit("record"));
            toks.push(lit("show"));
            toks.push(Token::Param(ParamName::Name));
            toks.push(Token::Param(ParamName::Title));
            proof {
                assert(toks.deep_view() =~= spec_entry_network_zone_record(action)->0);
            }
            Some(toks)
        },
        Action::SetValue => {
            let mut toks: Vec<Token> = Vec::new();
            toks.push(lit("network"));
            toks.push(lit("zone"));
            toks.push(lit("record"));
            toks.push(lit("set"));
            toks.push(Token::Param(ParamName::Name));
            toks.push(Token::Param(ParamName::Title));
            toks.push(Token::Param(ParamName::Key));
            toks.push(Token::Param(ParamName::Value));
            proof {
                assert(toks.deep_view() =~= spec_entry_network_zone_record(action)->0);
            }
            Some(toks)
        },
        Action::Unset => {
            let mut toks: Vec<Token> = Vec::new();
            toks.push(lit("network"));
            toks.push(lit("zone"));
            toks.push(lit("record"));
            toks.push(lit("unset"));
            toks.push(Token::Param(ParamName::Name));
            toks.push(Token::Param(ParamName::Title));
            toks.push(Token::Param(ParamName::Key));
            proof {
                assert(toks.deep_view() =~= spec_entry_network_zone_record(action)->0);
            }
            Some(toks)
        },
        _ => None,
    }
}

pub open spec fn spec_entry_snapshot(action: Action) -> Option<Seq<TokenV>> {
    match action {
        Action::Create => Some(seq![TokenV::Lit("snapshot"@), TokenV::Scoped(ParamName::Name), TokenV::Param(ParamName::Snapshot)]),
        Action::Copy => Some(seq![TokenV::Lit("copy"@), TokenV::ScopedPath(ParamName::Name, ParamName::Snapshot), TokenV::DestScoped(ParamName::NewName)]),
        Action::Delete => Some(seq![TokenV::Lit("delete"@), TokenV::ScopedPath(ParamName::Name, ParamName::Snapshot)]),
        _ => None,
    }
}

fn entry_snapshot(action: Action) -> (r: Option<Vec<Token>>)
    ensures
        entry_view(r) == spec_entry_snapshot(action),
{
    match action {
        Action::Create => {
            let mut toks: Vec<Token> = Vec::new();
            toks.push(lit("snapshot"));
            toks.push(Token::Scoped(ParamName::Name));
            toks.push(Token::Param(ParamName::Snapshot));
            proof {
                assert(toks.deep_view() =~= spec_entry_snapshot(action)->0);
            }
            Some(toks)
        },
        Action::Copy => {
            let mut toks: Vec<Token> = Vec::new();
            toks.push(lit("copy"));
            toks.push(Token::ScopedPath(ParamName::Name, ParamName::Snapshot));
            toks.push(Token::DestScoped(ParamName::NewName));
            proof {
                assert(toks.deep_view() =~= spec_entry_snapshot(action)->0);
            }
            Some(toks)
        },
        Action::Delete => {
            let mut toks: Vec<Token> = Vec::new();
            toks.push(lit("delete"));
            toks.push(Token::ScopedPath(ParamName::Name, ParamName::Snapshot));
            proof {
                assert(toks.deep_view() =~= spec_entry_snapshot(action)->0);
            }
            Some(toks)
        },
        _ => None,
    }
}

pub open spec fn spec_entry_project(action: Action) -> Option<Seq<TokenV>> {
    match action {
        Action::List => Some(seq![TokenV::Lit("project"@), TokenV::Lit("list"@), TokenV::BareScope]),
        Action::Rename => Some(seq![TokenV::Lit("project"@), TokenV::Lit("rename"@), TokenV::Param(ParamName::Name), TokenV::Param(ParamName::NewName)]),
        Action::Delete => Some(seq![TokenV::Lit("project"@), TokenV::Lit("delete"@), TokenV::Scoped(ParamName::Name)]),
        Action::Info => Some(seq![TokenV::Lit("project"@), TokenV::Lit("info"@), TokenV::Scoped(ParamName::Name)]),
        Action::Show => Some(seq![TokenV::Lit("project"@), TokenV::Lit("show"@), TokenV::Scoped(ParamName::Name)]),
        Action::Switch => Some(seq![TokenV::Lit("project"@), TokenV::Lit("switch"@), TokenV::Scoped(ParamName::Name)]),
        Action::Create => Some(seq![TokenV::Lit("project"@), TokenV::Lit("create"@), TokenV::Scoped(ParamName::Name)]),
        Action::SetValue => Some(seq![TokenV::Lit("project"@), TokenV::Lit("set"@), TokenV::Scoped(ParamName::Name), TokenV::Param(ParamName::Key), TokenV::Param(ParamName::Value)]),
        Action::Unset => Some(seq![TokenV::Lit("project"@), TokenV::Lit("unset"@), TokenV::Scoped(ParamName::Name), TokenV::Param(ParamName::Key)]),
        _ => None,
    }
}

fn entry_project(action: Action) -> (r: Option<Vec<Token>>)
    ensures
        entry_view(r) == spec_entry_project(action),
{
    match action {
        Action::List => {
            let mut toks: Vec<Token> = Vec::new();
            toks.push(lit("project"));
            toks.push(lit("list"));
            toks.push(Token::BareScope);
            proof {
                assert(toks.deep_view() =~= spec_entry_project(action)->0);
            }
            Some(toks)
        },
        Action::Rename => {
            let mut toks: Vec<Token> = Vec::new();
            toks.push(lit("project"));
            toks.push(lit("rename"));
            toks.push(Token::Param(ParamName::Name));
            toks.push(Token::Param(ParamName::NewName));
            proof {
                assert(toks.deep_view() =~= spec_entry_project(action)->0);
            }
            Some(toks)
        },
        Action::Delete => {
            let mut toks: Vec<Token> = Vec::new();
            toks.push(lit("project"));
            toks.push(lit("delete"));
            toks.push(Token::Scoped(ParamName::Name));
            proof {
                assert(toks.deep_view() =~= spec_entry_project(action)->0);
            }
            Some(toks)
        },
        Action::Info => {
            let mut toks: Vec<Token> = Vec::new();
            toks.push(lit("project"));
            toks.push(lit("info"));
            toks.push(Token::Scoped(ParamName::Name));
            proof {
                assert(toks.deep_view() =~= spec_entry_project(action)->0);
            }
            Some(toks)
        },
        Action::Show => {
            let mut toks: Vec<Token> = Vec::new();
            toks.push(lit("project"));
            toks.push(lit("show"));
            toks.push(Token::Scoped(ParamName::Name));
            proof {
                assert(toks.deep_view() =~= spec_entry_project(action)->0);
            }
            Some(toks)
        },
        Action::Switch => {
            let mut toks: Vec<Token> = Vec::new();
            toks.push(lit("project"));
            toks.push(lit("switch"));
            toks.push(Token::Scoped(ParamName::Name));
            proof {
                assert(toks.deep_view() =~= spec_entry_project(action)->0);
            }
            Some(toks)
        },
        Action::Create => {
            let mut toks: Vec<Token> = Vec::new();
            toks.push(lit("project"));
            toks.push(lit("create"));
            toks.push(Token::Scoped(ParamName::Name));
            proof {
                assert(toks.deep_view() =~= spec_entry_project(action)->0);
            }
            Some(toks)
        },
        Action::SetValue => {
            let mut toks: Vec<Token> = Vec::new();
            toks.push(lit("project"));
            toks.push(lit("set"));
            toks.push(Token::Scoped(ParamName::Name));
            toks.push(Token::Param(ParamName::Key));
            toks.push(Token::Param(ParamName::Value));
            proof {
                assert(toks.deep_view() =~= spec_entry_project(action)->0);
            }
            Some(toks)
        },
        Action::Unset => {
            let mut toks: Vec<Token> = Vec::new();
            toks.push(lit("project"));
            toks.push(lit("unset"));
            toks.push(Token::Scoped(ParamName::Name));
            toks.push(Token::Param(ParamName::Key));
            proof {
                assert(toks.deep_view() =~= spec_entry_project(action)->0);
            }
            Some(toks)
        },
        _ => None,
    }
}

pub open spec fn spec_entry_operation(action: Action) -> Option<Seq<TokenV>> {
    match action {
        Action::List => Some(seq![TokenV::Lit("operation"@), TokenV::Lit("list"@), TokenV::BareScope]),
        Action::Delete => Some(seq![TokenV::Lit("operation"@), TokenV::Lit("delete"@), TokenV::Scoped(ParamName::Name)]),
        Action::Show => Some(seq![TokenV::Lit("operation"@), TokenV::Lit("show"@), TokenV::Scoped(ParamName::Name)]),
        _ => None,
    }
}

fn entry_operation(action: Action) -> (r: Option<Vec<Token>>)
    ensures
        entry_view(r) == spec_entry_operation(action),
{
    match action {
        Action::List => {
            let mut toks: Vec<Token> = Vec::new();
            toks.push(lit("operation"));
            toks.push(lit("list"));
            toks.push(Token::BareScope);
            proof {
                assert(toks.deep_view() =~= spec_entry_operation(action)->0);
            }
            Some(toks)
        },
        Action::Delete => {
            let mut toks: Vec<Token> = Vec::new();
            toks.push(lit("operation"));
            toks.push(lit("delete"));
            toks.push(Token::Scoped(ParamName::Name));
            proof {
                assert(toks.deep_view() =~= spec_entry_operation(action)->0);
            }
            Some(toks)
        },
        Action::Show => {
            let mut toks: Vec<Token> = Vec::new();
            toks.push(lit("operation"));
            toks.push(lit("show"));
            toks.push(Token::Scoped(ParamName::Name));
            proof {
                assert(toks.deep_view() =~= spec_entry_operation(action)->0);
            }
            Some(toks)
        },
        _ => None,
    }
}

pub open spec fn spec_entry_config_key(action: Action) -> Option<Seq<TokenV>> {
    match action {
        Action::SetValue => Some(seq![TokenV::Lit("config"@), TokenV::Lit("set"@), TokenV::Param(ParamName::Key), TokenV::Param(ParamName::Value)]),
        Action::Get => Some(seq![TokenV::Lit("config"@), TokenV::Lit("get"@), TokenV::Param(ParamName::Key)]),
        Action::Unset => Some(seq![TokenV::Lit("config"@), TokenV::Lit("unset"@), TokenV::Param(ParamName::Key)]),
        _ => None,
    }
}

fn entry_config_key(action: Action) -> (r: Option<Vec<Token>>)
    ensures
        entry_view(r) == spec_entry_config_key(action),
{
    match action {
        Action::SetValue => {
            let mut toks: Vec<Token> = Vec::new();
            toks.push(lit("config"));
            toks.push(lit("set"));
            toks.push(Token::Param(ParamName::Key));
            toks.push(Token::Param(ParamName::Value));
            proof {
                assert(toks.deep_view() =~= spec_entry_config_key(action)->0);
            }
            Some(toks)
        },
        Action::Get => {
            let mut toks: Vec<Token> = Vec::new();
            toks.push(lit("config"));
            toks.push(lit("get"));
            toks.push(Token::Param(ParamName::Key));
            proof {
                assert(toks.deep_view() =~= spec_entry_config_key(action)->0);
            }
            Some(toks)
        },
        Action::Unset => {
            let mut toks: Vec<Token> = Vec::new();
            toks.push(lit("config"));
            toks.push(lit("unset"));
            toks.push(Token::Param(ParamName::Key));
            proof {
                assert(toks.deep_view() =~= spec_entry_config_key(action)->0);
            }
            Some(toks)
        },
        _ => None,
    }
}

pub open spec fn spec_entry_config_template(action: Action) -> Option<Seq<TokenV>> {
    match action {
        Action::List => Some(seq![TokenV::Lit("config"@), TokenV::Lit("template"@), TokenV::Lit("list"@), TokenV::Param(ParamName::Name)]),
        Action::Delete => Some(seq![TokenV::Lit("config"@), TokenV::Lit("template"@), TokenV::Lit("delete"@), TokenV::Param(ParamName::Name), TokenV::Param(ParamName::Title)]),
        Action::Show => Some(seq![TokenV::Lit("config"@), TokenV::Lit("template"@), TokenV::Lit("show"@), TokenV::Param(ParamName::Name), TokenV::Param(ParamName::Title)]),
        Action::Create => Some(seq![TokenV::Lit("config"@), TokenV::Lit("template"@), TokenV::Lit("create"@), TokenV::Param(ParamName::Name), TokenV::Param(ParamName::Title)]),
        _ => None,
    }
}

fn entry_config_template(action: Action) -> (r: Option<Vec<Token>>)
    ensures
        entry_view(r) == spec_entry_config_template(action),
{
    match action {
        Action::List => {
            let mut toks: Vec<Token> = Vec::new();
            toks.push(lit("config"));
            toks.push(lit("template"));
            toks.push(lit("list"));
            toks.push(Token::Param(ParamName::Name));
            proof {
                assert(toks.deep_view() =~= spec_entry_config_template(action)->0);
            }
            Some(toks)
        },
        Action::Delete => {
            let mut toks: Vec<Token> = Vec::new();
            toks.push(lit("config"));
            toks.push(lit("template"));
            toks.push(lit("delete"));
            toks.push(Token::Param(ParamName::Name));
            toks.push(Token::Param(ParamName::Title));
            proof {
                assert(toks.deep_view() =~= spec_entry_config_template(action)->0);
            }
            Some(toks)
        },
        Action::Show => {
            let mut toks: Vec<Token> = Vec::new();
            toks.push(lit("config"));
            toks.push(lit("template"));
            toks.push(lit("show"));
            toks.push(Token::Param(ParamName::Name));
            toks.push(Token::Param(ParamName::Title));
            proof {
                assert(toks.deep_view() =~= spec_entry_config_template(action)->0);
            }
            Some(toks)
        },
        Action::Create => {
            let mut toks: Vec<Token> = Vec::new();
            toks.push(lit("config"));
            toks.push(lit("template"));
            toks.push(lit("create"));
            toks.push(Token::Param(ParamName::Name));
            toks.push(Token::Param(ParamName::Title));
            proof {
                assert(toks.deep_view() =~= spec_entry_config_template(action)->0);
            }
            Some(toks)
        },
        _ => None,
    }
}

pub open spec fn spec_entry_config_device(action: Action) -> Option<Seq<TokenV>> {
    match action {
        Action::List => Some(seq![TokenV::Lit("config"@), TokenV::Lit("device"@), TokenV::Lit("list"@), TokenV::Param(ParamName::Name)]),
        Action::Create => Some(seq![TokenV::Lit("config"@), TokenV::Lit("device"@), TokenV::Lit("add"@)]),
        Action::Unset => Some(seq![TokenV::Lit("config"@), TokenV::Lit("device"@), TokenV::Lit("unset"@), TokenV::Param(ParamName::Name), TokenV::Param(ParamName::Device), TokenV::Param(ParamName::Key)]),
        Action::Delete => Some(seq![TokenV::Lit("config"@), TokenV::Lit("device"@), TokenV::Lit("remove"@), TokenV::Param(ParamName::Name), TokenV::Param(ParamName::Title)]),
        Action::Show => Some(seq![TokenV::Lit("config"@), TokenV::Lit("device"@), TokenV::Lit("show"@), TokenV::Param(ParamName::Name)]),
        _ => None,
    }
}

fn entry_config_device(action: Action) -> (r: Option<Vec<Token>>)
    ensures
        entry_view(r) == spec_entry_config_device(action),
{
    match action {
        Action::List => {
            let mut toks: Vec<Token> = Vec::new();
            toks.push(lit("config"));
            toks.push(lit("device"));
            toks.push(lit("list"));
            toks.push(Token::Param(ParamName::Name));
            proof {
                assert(toks.deep_view() =~= spec_entry_config_device(action)->0);
            }
            Some(toks)
        },
        Action::Create => {
            let mut toks: Vec<Token> = Vec::new();
            toks.push(lit("config"));
            toks.push(lit("device"));
            toks.push(lit("add"));
            proof {
                assert(toks.deep_view() =~= spec_entry_config_device(action)->0);
            }
            Some(toks)
        },
        Action::Unset => {
            let mut toks: Vec<Token> = Vec::new();
            toks.push(lit("config"));
            toks.push(lit("device"));
            toks.push(lit("unset"));
            toks.push(Token::Param(ParamName::Name));
            toks.push(Token::Param(ParamName::Device));
            toks.push(Token::Param(ParamName::Key));
            proof {
                assert(toks.deep_view() =~= spec_entry_config_device(action)->0);
            }
            Some(toks)
        },
        Action::Delete => {
            let mut toks: Vec<Token> = Vec::new();
            toks.push(lit("config"));
            toks.push(lit("device"));
            toks.push(lit("remove"));
            toks.push(Token::Param(ParamName::Name));
            toks.push(Token::Param(ParamName::Title));
            proof {
                assert(toks.deep_view() =~= spec_entry_config_device(action)->0);
            }
            Some(toks)
        },
        Action::Show => {
            let mut toks: Vec<Token> = Vec::new();
            toks.push(lit("config"));
            toks.push(lit("device"));
            toks.push(lit("show"));
            toks.push(Token::Param(ParamName::Name));
            proof {
                assert(toks.deep_view() =~= spec_entry_config_device(action)->0);
            }
            Some(toks)
        },
        _ => None,
    }
}

pub open spec fn spec_entry_remote(action: Action) -> Option<Seq<TokenV>> {
    match action {
        Action::Create => Some(seq![TokenV::Lit("remote"@), TokenV::Lit("add"@), TokenV::Param(ParamName::Name), TokenV::Param(ParamName::Endpoint)]),
        Action::Rename => Some(seq![TokenV::Lit("remote"@), TokenV::Lit("rename"@), TokenV::Param(ParamName::Name), TokenV::Param(ParamName::NewName)]),
        Action::List => Some(seq![TokenV::Lit("remote"@), TokenV::Lit("list"@)]),
        Action::Get => Some(seq![TokenV::Lit("remote"@), TokenV::Lit("get-default"@)]),
        _ => None,
    }
}

fn entry_remote(action: Action) -> (r: Option<Vec<Token>>)
    ensures
        entry_view(r) == spec_entry_remote(action),
{
    match action {
        Action::Create => {
            let mut toks: Vec<Token> = Vec::new();
            toks.push(lit("remote"));
            toks.push(lit("add"));
            toks.push(Token::Param(ParamName::Name));
            toks.push(Token::Param(ParamName::Endpoint));
            proof {
                assert(toks.deep_view() =~= spec_entry_remote(action)->0);
            }
            Some(toks)
        },
        Action::Rename => {
            let mut toks: Vec<Token> = Vec::new();
            toks.push(lit("remote"));
            toks.push(lit("rename"));
            toks.push(Token::Param(ParamName::Name));
            toks.push(Token::Param(ParamName::NewName));
            proof {
                assert(toks.deep_view() =~= spec_entry_remote(action)->0);
            }
            Some(toks)
        },
        Action::List => {
            let mut toks: Vec<Token> = Vec::new();
            toks.push(lit("remote"));
            toks.push(lit("list"));
            proof {
                assert(toks.deep_view() =~= spec_entry_remote(action)->0);
            }
            Some(toks)
        },
        Action::Get => {
            let mut toks: Vec<Token> = Vec::new();
            toks.push(lit("remote"));
            toks.push(lit("get-default"));
            proof {
                assert(toks.deep_view() =~= spec_entry_remote(action)->0);
            }
            Some(toks)
        },
        _ => None,
    }
}

} // verus!
