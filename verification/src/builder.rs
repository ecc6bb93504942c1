//! The one generic dispatch function of the command layer.
//!
//! [`build`] looks a `(kind, action)` pair up in the registry, validates the
//! supplied [`ParamSet`] against the entry's template — every required
//! parameter present, nothing undeclared supplied, every address part valid
//! — and renders the ordered argument vector.  Its contract is exact: the
//! result equals [`spec_build`], a mathematical restatement of the whole
//! pipeline, so the outcome is pinned for every input.
//!
//! Validation order, visible in the error a caller gets: registry lookup,
//! then missing parameters in template order, then undeclared parameters in
//! slot-declaration order, then scope names, then empty resource names in
//! template order.

use vstd::prelude::*;
use vstd::string::StringExecFns;
use crate::address::AddressError;
use crate::address::valid_remote_name;
use crate::command::Action;
use crate::command::Binary;
use crate::command::BuildError;
use crate::command::CommandSpec;
use crate::command::CommandSpecV;
use crate::command::ParamName;
use crate::command::ParamSet;
use crate::command::ResourceKind;
use crate::registry::Token;
use crate::registry::TokenV;
use crate::registry::entry_for;
use crate::registry::spec_entry;

verus! {

// ---------------------------------------------------------------------------
// The specification of validation
// ---------------------------------------------------------------------------
/// The first parameter of one token, in render order, that the set lacks.
pub open spec fn token_missing(t: TokenV, p: ParamSet) -> Option<ParamName> {
    match t {
        TokenV::Lit(_) => None,
        TokenV::BareScope => None,
        TokenV::DestBareScope => None,
        TokenV::Param(pn) => if !p.has(pn) {
            Some(pn)
        } else {
            None
        },
        TokenV::Scoped(pn) => if !p.has(pn) {
            Some(pn)
        } else {
            None
        },
        TokenV::ScopedIfRemote(pn) => if !p.has(pn) {
            Some(pn)
        } else {
            None
        },
        TokenV::ScopedOrRegistry(pn) => if !p.has(pn) {
            Some(pn)
        } else {
            None
        },
        TokenV::DestScoped(pn) => if !p.has(pn) {
            Some(pn)
        } else {
            None
        },
        TokenV::DestScopedIfRemote(pn) => if !p.has(pn) {
            Some(pn)
        } else {
            None
        },
        TokenV::ScopedPath(a, b) => if !p.has(a) {
            Some(a)
        } else if !p.has(b) {
            Some(b)
        } else {
            None
        },
    }
}

/// The first required parameter, in template order, that the set lacks.
pub open spec fn first_missing(toks: Seq<TokenV>, p: ParamSet) -> Option<ParamName>
    decreases toks.len(),
{
    if toks.len() == 0 {
        None
    } else {
        match token_missing(toks[0], p) {
            Some(pn) => Some(pn),
            None => first_missing(toks.drop_first(), p),
        }
    }
}

/// Whether one token requires the parameter.
pub open spec fn token_requires(t: TokenV, pn: ParamName) -> bool {
    match t {
        TokenV::Lit(_) => false,
        TokenV::BareScope => false,
        TokenV::DestBareScope => false,
        TokenV::Param(q) => q == pn,
        TokenV::Scoped(q) => q == pn,
        TokenV::ScopedIfRemote(q) => q == pn,
        TokenV::ScopedOrRegistry(q) => q == pn,
        TokenV::DestScoped(q) => q == pn,
        TokenV::DestScopedIfRemote(q) => q == pn,
        TokenV::ScopedPath(a, b) => a == pn || b == pn,
    }
}

/// Whether the template requires the parameter.
pub open spec fn requires_param(toks: Seq<TokenV>, pn: ParamName) -> bool {
    exists|i: int| 0 <= i < toks.len() && token_requires(toks[i], pn)
}

/// Whether one token reads the source scope slot.
pub open spec fn token_uses_src(t: TokenV) -> bool {
    match t {
        TokenV::Scoped(_) => true,
        TokenV::ScopedIfRemote(_) => true,
        TokenV::ScopedOrRegistry(_) => true,
        TokenV::BareScope => true,
        TokenV::ScopedPath(_, _) => true,
        _ => false,
    }
}

/// Whether one token reads the destination scope slot.
pub open spec fn token_uses_dst(t: TokenV) -> bool {
    match t {
        TokenV::DestScoped(_) => true,
        TokenV::DestScopedIfRemote(_) => true,
        TokenV::DestBareScope => true,
        _ => false,
    }
}

/// Whether the template reads the source scope slot.
pub open spec fn uses_src_scope(toks: Seq<TokenV>) -> bool {
    exists|i: int| 0 <= i < toks.len() && token_uses_src(toks[i])
}

/// Whether the template reads the destination scope slot.
pub open spec fn uses_dst_scope(toks: Seq<TokenV>) -> bool {
    exists|i: int| 0 <= i < toks.len() && token_uses_dst(toks[i])
}

/// Whether the entry declares the slot: the scope slots are declared by any
/// scope-reading token, a value slot by a token that requires it.
pub open spec fn slot_allowed(toks: Seq<TokenV>, pn: ParamName) -> bool {
    match pn {
        ParamName::Remote => uses_src_scope(toks),
        ParamName::DestRemote => uses_dst_scope(toks),
        _ => requires_param(toks, pn),
    }
}

/// The first supplied slot, in slot-declaration order, that the entry does
/// not declare.
pub open spec fn first_unexpected(toks: Seq<TokenV>, p: ParamSet) -> Option<ParamName> {
    if p.has(ParamName::Remote) && !slot_allowed(toks, ParamName::Remote) {
        Some(ParamName::Remote)
    } else if p.has(ParamName::DestRemote) && !slot_allowed(toks, ParamName::DestRemote) {
        Some(ParamName::DestRemote)
    } else if p.has(ParamName::Name) && !slot_allowed(toks, ParamName::Name) {
        Some(ParamName::Name)
    } else if p.has(ParamName::NewName) && !slot_allowed(toks, ParamName::NewName) {
        Some(ParamName::NewName)
    } else if p.has(ParamName::Snapshot) && !slot_allowed(toks, ParamName::Snapshot) {
        Some(ParamName::Snapshot)
    } else if p.has(ParamName::Key) && !slot_allowed(toks, ParamName::Key) {
        Some(ParamName::Key)
    } else if p.has(ParamName::Value) && !slot_allowed(toks, ParamName::Value) {
        Some(ParamName::Value)
    } else if p.has(ParamName::Filesystem) && !slot_allowed(toks, ParamName::Filesystem) {
        Some(ParamName::Filesystem)
    } else if p.has(ParamName::Alias) && !slot_allowed(toks, ParamName::Alias) {
        Some(ParamName::Alias)
    } else if p.has(ParamName::Image) && !slot_allowed(toks, ParamName::Image) {
        Some(ParamName::Image)
    } else if p.has(ParamName::Pool) && !slot_allowed(toks, ParamName::Pool) {
        Some(ParamName::Pool)
    } else if p.has(ParamName::Container) && !slot_allowed(toks, ParamName::Container) {
        Some(ParamName::Container)
    } else if p.has(ParamName::Path) && !slot_allowed(toks, ParamName::Path) {
        Some(ParamName::Path)
    } else if p.has(ParamName::Endpoint) && !slot_allowed(toks, ParamName::Endpoint) {
        Some(ParamName::Endpoint)
    } else if p.has(ParamName::Device) && !slot_allowed(toks, ParamName::Device) {
        Some(ParamName::Device)
    } else if p.has(ParamName::Title) && !slot_allowed(toks, ParamName::Title) {
        Some(ParamName::Title)
    } else {
        None
    }
}

/// Whether one token would render an address with an empty resource name.
/// Only meaningful once every required parameter is present.
pub open spec fn token_empty(t: TokenV, p: ParamSet) -> bool {
    match t {
        TokenV::Scoped(pn) => p.value_of(pn).len() == 0,
        TokenV::ScopedIfRemote(pn) => p.value_of(pn).len() == 0,
        TokenV::ScopedOrRegistry(pn) => p.value_of(pn).len() == 0,
        TokenV::DestScoped(pn) => p.value_of(pn).len() == 0,
        TokenV::DestScopedIfRemote(pn) => p.value_of(pn).len() == 0,
        TokenV::ScopedPath(a, b) => p.value_of(a).len() == 0 || p.value_of(b).len() == 0,
        _ => false,
    }
}

/// The first address token, in template order, with an empty resource name.
pub open spec fn first_empty(toks: Seq<TokenV>, p: ParamSet) -> Option<AddressError>
    decreases toks.len(),
{
    if toks.len() == 0 {
        None
    } else if token_empty(toks[0], p) {
        Some(AddressError::EmptyResource)
    } else {
        first_empty(toks.drop_first(), p)
    }
}

/// Address validation: scope names first, then resource names.
pub open spec fn scope_error(toks: Seq<TokenV>, p: ParamSet) -> Option<AddressError> {
    if p.has(ParamName::Remote) && !valid_remote_name(p.value_of(ParamName::Remote)) {
        Some(AddressError::InvalidRemoteName)
    } else if p.has(ParamName::DestRemote) && !valid_remote_name(
        p.value_of(ParamName::DestRemote),
    ) {
        Some(AddressError::InvalidRemoteName)
    } else {
        first_empty(toks, p)
    }
}

// ---------------------------------------------------------------------------
// The specification of rendering
// ---------------------------------------------------------------------------
/// The source scope token, separator included: `local:` by default.
pub open spec fn src_prefix(p: ParamSet) -> Seq<char> {
    if p.has(ParamName::Remote) {
        p.value_of(ParamName::Remote) + ":"@
    } else {
        "local:"@
    }
}

/// The destination scope token, separator included: `local:` by default.
pub open spec fn dst_prefix(p: ParamSet) -> Seq<char> {
    if p.has(ParamName::DestRemote) {
        p.value_of(ParamName::DestRemote) + ":"@
    } else {
        "local:"@
    }
}

/// What one token renders to.
pub open spec fn render_token(t: TokenV, p: ParamSet) -> Seq<char> {
    match t {
        TokenV::Lit(s) => s,
        TokenV::Param(pn) => p.value_of(pn),
        TokenV::Scoped(pn) => src_prefix(p) + p.value_of(pn),
        TokenV::ScopedIfRemote(pn) => if p.has(ParamName::Remote) {
            src_prefix(p) + p.value_of(pn)
        } else {
            p.value_of(pn)
        },
        TokenV::ScopedOrRegistry(pn) => if p.has(ParamName::Remote) {
            src_prefix(p) + p.value_of(pn)
        } else {
            "images:"@ + p.value_of(pn)
        },
        TokenV::BareScope => src_prefix(p),
        TokenV::DestScoped(pn) => dst_prefix(p) + p.value_of(pn),
        TokenV::DestScopedIfRemote(pn) => if p.has(ParamName::DestRemote) {
            dst_prefix(p) + p.value_of(pn)
        } else {
            p.value_of(pn)
        },
        TokenV::DestBareScope => dst_prefix(p),
        TokenV::ScopedPath(a, b) => src_prefix(p) + p.value_of(a) + "/"@ + p.value_of(b),
    }
}

/// The rendered argument vector: one argument per template token.
pub open spec fn spec_argv(toks: Seq<TokenV>, p: ParamSet) -> Seq<Seq<char>> {
    toks.map_values(|t: TokenV| render_token(t, p))
}

/// The whole pipeline: lookup, validation, rendering.
pub open spec fn spec_build(kind: ResourceKind, action: Action, p: ParamSet) -> Result<
    CommandSpecV,
    BuildError,
> {
    match spec_entry(kind, action) {
        None => Err(BuildError::UnsupportedAction),
        Some(toks) => match first_missing(toks, p) {
            Some(pn) => Err(BuildError::MissingParam(pn)),
            None => match first_unexpected(toks, p) {
                Some(pn) => Err(BuildError::UnexpectedParam(pn)),
                None => match scope_error(toks, p) {
                    Some(e) => Err(BuildError::InvalidAddress(e)),
                    None => Ok(CommandSpecV { binary: Binary::Lxc, argv: spec_argv(toks, p) }),
                },
            },
        },
    }
}

/// The view of a build result.
pub open spec fn build_result_view(r: Result<CommandSpec, BuildError>) -> Result<
    CommandSpecV,
    BuildError,
> {
    match r {
        Ok(c) => Ok(c@),
        Err(e) => Err(e),
    }
}

// ---------------------------------------------------------------------------
// Executable helpers
// ---------------------------------------------------------------------------
/// Whether the slot holds a value.
fn has_slot(p: &ParamSet, pn: ParamName) -> (r: bool)
    ensures
        r == p.has(pn),
{
    match pn {
        ParamName::Remote => p.remote.is_some(),
        ParamName::DestRemote => p.dest_remote.is_some(),
        ParamName::Name => p.name.is_some(),
        ParamName::NewName => p.new_name.is_some(),
        ParamName::Snapshot => p.snapshot.is_some(),
        ParamName::Key => p.key.is_some(),
        ParamName::Value => p.value.is_some(),
        ParamName::Filesystem => p.filesystem.is_some(),
        ParamName::Alias => p.alias.is_some(),
        ParamName::Image => p.image.is_some(),
        ParamName::Pool => p.pool.is_some(),
        ParamName::Container => p.container.is_some(),
        ParamName::Path => p.path.is_some(),
        ParamName::Endpoint => p.endpoint.is_some(),
        ParamName::Device => p.device.is_some(),
        ParamName::Title => p.title.is_some(),
    }
}

/// The value a filled slot holds.
fn get_slot<'a>(p: &'a ParamSet, pn: ParamName) -> (r: &'a String)
    requires
        p.has(pn),
    ensures
        r@ == p.value_of(pn),
{
    match pn {
        ParamName::Remote => p.remote.as_ref().unwrap(),
        ParamName::DestRemote => p.dest_remote.as_ref().unwrap(),
        ParamName::Name => p.name.as_ref().unwrap(),
        ParamName::NewName => p.new_name.as_ref().unwrap(),
        ParamName::Snapshot => p.snapshot.as_ref().unwrap(),
        ParamName::Key => p.key.as_ref().unwrap(),
        ParamName::Value => p.value.as_ref().unwrap(),
        ParamName::Filesystem => p.filesystem.as_ref().unwrap(),
        ParamName::Alias => p.alias.as_ref().unwrap(),
        ParamName::Image => p.image.as_ref().unwrap(),
        ParamName::Pool => p.pool.as_ref().unwrap(),
        ParamName::Container => p.container.as_ref().unwrap(),
        ParamName::Path => p.path.as_ref().unwrap(),
        ParamName::Endpoint => p.endpoint.as_ref().unwrap(),
        ParamName::Device => p.device.as_ref().unwrap(),
        ParamName::Title => p.title.as_ref().unwrap(),
    }
}

/// Decide [`token_missing`] for one token.
fn check_token_missing(t: &Token, p: &ParamSet) -> (r: Option<ParamName>)
    ensures
        r == token_missing(t@, *p),
{
    match t {
        Token::Lit(_) => None,
        Token::BareScope => None,
        Token::DestBareScope => None,
        Token::Param(pn) => if !has_slot(p, *pn) {
            Some(*pn)
        } else {
            None
        },
        Token::Scoped(pn) => if !has_slot(p, *pn) {
            Some(*pn)
        } else {
            None
        },
        Token::ScopedIfRemote(pn) => if !has_slot(p, *pn) {
            Some(*pn)
        } else {
            None
        },
        Token::ScopedOrRegistry(pn) => if !has_slot(p, *pn) {
            Some(*pn)
        } else {
            None
        },
        Token::DestScoped(pn) => if !has_slot(p, *pn) {
            Some(*pn)
        } else {
            None
        },
        Token::DestScopedIfRemote(pn) => if !has_slot(p, *pn) {
            Some(*pn)
        } else {
            None
        },
        Token::ScopedPath(a, b) => if !has_slot(p, *a) {
            Some(*a)
        } else if !has_slot(p, *b) {
            Some(*b)
        } else {
            None
        },
    }
}

/// Decide [`first_missing`] for a template.
fn find_missing(toks: &Vec<Token>, p: &ParamSet) -> (r: Option<ParamName>)
    ensures
        r == first_missing(toks.deep_view(), *p),
{
    let ghost tv = toks.deep_view();
    proof {
        assert(tv.skip(0) =~= tv);
    }
    let mut i: usize = 0;
    while i < toks.len()
        invariant
            i <= toks.len(),
            tv == toks.deep_view(),
            tv.len() == toks.len(),
            first_missing(tv, *p) == first_missing(tv.skip(i as int), *p),
        decreases toks.len() - i,
    {
        let m = check_token_missing(&toks[i], p);
        proof {
            assert(tv.skip(i as int)[0] == tv[i as int]);
        }
        if let Some(pn) = m {
            return Some(pn);
        }
        proof {
            assert(tv.skip(i as int).drop_first() =~= tv.skip(i as int + 1));
        }
        i += 1;
    }
    proof {
        assert(tv.skip(i as int) =~= Seq::<TokenV>::empty());
    }
    None
}

/// Decide [`token_requires`] for one token.
fn check_token_requires(t: &Token, pn: ParamName) -> (r: bool)
    ensures
        r == token_requires(t@, pn),
{
    match t {
        Token::Lit(_) => false,
        Token::BareScope => false,
        Token::DestBareScope => false,
        Token::Param(q) => *q == pn,
        Token::Scoped(q) => *q == pn,
        Token::ScopedIfRemote(q) => *q == pn,
        Token::ScopedOrRegistry(q) => *q == pn,
        Token::DestScoped(q) => *q == pn,
        Token::DestScopedIfRemote(q) => *q == pn,
        Token::ScopedPath(a, b) => *a == pn || *b == pn,
    }
}

/// Decide [`requires_param`] for a template.
fn check_requires_param(toks: &Vec<Token>, pn: ParamName) -> (r: bool)
    ensures
        r == requires_param(toks.deep_view(), pn),
{
    let ghost tv = toks.deep_view();
    let mut i: usize = 0;
    while i < toks.len()
        invariant
            i <= toks.len(),
            tv == toks.deep_view(),
            tv.len() == toks.len(),
            forall|j: int| 0 <= j < i ==> !token_requires(tv[j], pn),
        decreases toks.len() - i,
    {
        if check_token_requires(&toks[i], pn) {
            proof {
                assert(token_requires(tv[i as int], pn));
            }
            return true;
        }
        i += 1;
    }
    false
}

/// Decide [`uses_src_scope`] for a template.
fn check_uses_src(toks: &Vec<Token>) -> (r: bool)
    ensures
        r == uses_src_scope(toks.deep_view()),
{
    let ghost tv = toks.deep_view();
    let mut i: usize = 0;
    while i < toks.len()
        invariant
            i <= toks.len(),
            tv == toks.deep_view(),
            tv.len() == toks.len(),
            forall|j: int| 0 <= j < i ==> !token_uses_src(tv[j]),
        decreases toks.len() - i,
    {
        let hit = match &toks[i] {
            Token::Scoped(_) => true,
            Token::ScopedIfRemote(_) => true,
            Token::ScopedOrRegistry(_) => true,
            Token::BareScope => true,
            Token::ScopedPath(_, _) => true,
            _ => false,
        };
        if hit {
            proof {
                assert(token_uses_src(tv[i as int]));
            }
            return true;
        }
        i += 1;
    }
    false
}

/// Decide [`uses_dst_scope`] for a template.
fn check_uses_dst(toks: &Vec<Token>) -> (r: bool)
    ensures
        r == uses_dst_scope(toks.deep_view()),
{
    let ghost tv = toks.deep_view();
    let mut i: usize = 0;
    while i < toks.len()
        invariant
            i <= toks.len(),
            tv == toks.deep_view(),
            tv.len() == toks.len(),
            forall|j: int| 0 <= j < i ==> !token_uses_dst(tv[j]),
        decreases toks.len() - i,
    {
        let hit = match &toks[i] {
            Token::DestScoped(_) => true,
            Token::DestScopedIfRemote(_) => true,
            Token::DestBareScope => true,
            _ => false,
        };
        if hit {
            proof {
                assert(token_uses_dst(tv[i as int]));
            }
            return true;
        }
        i += 1;
    }
    false
}

/// Decide [`slot_allowed`] for one slot.
fn check_slot_allowed(toks: &Vec<Token>, pn: ParamName) -> (r: bool)
    ensures
        r == slot_allowed(toks.deep_view(), pn),
{
    match pn {
        ParamName::Remote => check_uses_src(toks),
        ParamName::DestRemote => check_uses_dst(toks),
        _ => check_requires_param(toks, pn),
    }
}

/// Decide [`first_unexpected`] for a template.
#[verifier::rlimit(40)]
fn find_unexpected(toks: &Vec<Token>, p: &ParamSet) -> (r: Option<ParamName>)
    ensures
        r == first_unexpected(toks.deep_view(), *p),
{
    if p.remote.is_some() && !check_slot_allowed(toks, ParamName::Remote) {
        return Some(ParamName::Remote);
    }
    if p.dest_remote.is_some() && !check_slot_allowed(toks, ParamName::DestRemote) {
        return Some(ParamName::DestRemote);
    }
    if p.name.is_some() && !check_slot_allowed(toks, ParamName::Name) {
        return Some(ParamName::Name);
    }
    if p.new_name.is_some() && !check_slot_allowed(toks, ParamName::NewName) {
        return Some(ParamName::NewName);
    }
    if p.snapshot.is_some() && !check_slot_allowed(toks, ParamName::Snapshot) {
        return Some(ParamName::Snapshot);
    }
    if p.key.is_some() && !check_slot_allowed(toks, ParamName::Key) {
        return Some(ParamName::Key);
    }
    if p.value.is_some() && !check_slot_allowed(toks, ParamName::Value) {
        return Some(ParamName::Value);
    }
    if p.filesystem.is_some() && !check_slot_allowed(toks, ParamName::Filesystem) {
        return Some(ParamName::Filesystem);
    }
    if p.alias.is_some() && !check_slot_allowed(toks, ParamName::Alias) {
        return Some(ParamName::Alias);
    }
    if p.image.is_some() && !check_slot_allowed(toks, ParamName::Image) {
        return Some(ParamName::Image);
    }
    if p.pool.is_some() && !check_slot_allowed(toks, ParamName::Pool) {
        return Some(ParamName::Pool);
    }
    if p.container.is_some() && !check_slot_allowed(toks, ParamName::Container) {
        return Some(ParamName::Container);
    }
    if p.path.is_some() && !check_slot_allowed(toks, ParamName::Path) {
        return Some(ParamName::Path);
    }
    if p.endpoint.is_some() && !check_slot_allowed(toks, ParamName::Endpoint) {
        return Some(ParamName::Endpoint);
    }
    if p.device.is_some() && !check_slot_allowed(toks, ParamName::Device) {
        return Some(ParamName::Device);
    }
    if p.title.is_some() && !check_slot_allowed(toks, ParamName::Title) {
        return Some(ParamName::Title);
    }
    None
}

/// A complete template has no missing parameter in any token.
pub proof fn lemma_first_missing_none(toks: Seq<TokenV>, p: ParamSet)
    ensures
        first_missing(toks, p) is None <==> (forall|i: int|
            0 <= i < toks.len() ==> token_missing(toks[i], p) is None),
    decreases toks.len(),
{
    if toks.len() > 0 {
        lemma_first_missing_none(toks.drop_first(), p);
        if token_missing(toks[0], p) is None {
            assert forall|i: int|
                0 <= i < toks.len() && first_missing(toks, p) is None implies token_missing(
                toks[i],
                p,
            ) is None by {
                if i > 0 {
                    assert(toks.drop_first()[i - 1] == toks[i]);
                }
            }
            if forall|i: int| 0 <= i < toks.len() ==> token_missing(toks[i], p) is None {
                assert forall|i: int|
                    0 <= i < toks.drop_first().len() implies token_missing(
                    toks.drop_first()[i],
                    p,
                ) is None by {
                    assert(toks.drop_first()[i] == toks[i + 1]);
                }
            }
        }
    }
}

/// Decide [`token_empty`] for one token whose parameters are present.
fn check_token_empty(t: &Token, p: &ParamSet) -> (r: bool)
    requires
        token_missing(t@, *p) is None,
    ensures
        r == token_empty(t@, *p),
{
    match t {
        Token::Scoped(pn) => get_slot(p, *pn).as_str().is_empty(),
        Token::ScopedIfRemote(pn) => get_slot(p, *pn).as_str().is_empty(),
        Token::ScopedOrRegistry(pn) => get_slot(p, *pn).as_str().is_empty(),
        Token::DestScoped(pn) => get_slot(p, *pn).as_str().is_empty(),
        Token::DestScopedIfRemote(pn) => get_slot(p, *pn).as_str().is_empty(),
        Token::ScopedPath(a, b) => get_slot(p, *a).as_str().is_empty() || get_slot(
            p,
            *b,
        ).as_str().is_empty(),
        _ => false,
    }
}

/// Decide [`scope_error`] for a validated-complete template.
fn find_scope_error(toks: &Vec<Token>, p: &ParamSet) -> (r: Option<AddressError>)
    requires
        first_missing(toks.deep_view(), *p) is None,
    ensures
        r == scope_error(toks.deep_view(), *p),
{
    let ghost tv = toks.deep_view();
    match &p.remote {
        Some(r) => {
            if !crate::address::check_remote_name(r.as_str()) {
                return Some(AddressError::InvalidRemoteName);
            }
        },
        None => {},
    }
    match &p.dest_remote {
        Some(r) => {
            if !crate::address::check_remote_name(r.as_str()) {
                return Some(AddressError::InvalidRemoteName);
            }
        },
        None => {},
    }
    proof {
        lemma_first_missing_none(tv, *p);
        assert(tv.skip(0) =~= tv);
    }
    let mut i: usize = 0;
    while i < toks.len()
        invariant
            i <= toks.len(),
            tv == toks.deep_view(),
            tv.len() == toks.len(),
            forall|j: int| 0 <= j < tv.len() ==> token_missing(tv[j], *p) is None,
            first_empty(tv, *p) == first_empty(tv.skip(i as int), *p),
            scope_error(tv, *p) == first_empty(tv, *p),
        decreases toks.len() - i,
    {
        let e = check_token_empty(&toks[i], p);
        proof {
            assert(tv.skip(i as int)[0] == tv[i as int]);
        }
        if e {
            return Some(AddressError::EmptyResource);
        }
        proof {
            assert(tv.skip(i as int).drop_first() =~= tv.skip(i as int + 1));
        }
        i += 1;
    }
    proof {
        assert(tv.skip(i as int) =~= Seq::<TokenV>::empty());
    }
    None
}

/// Render the source scope token.
fn render_src_prefix(p: &ParamSet) -> (r: String)
    ensures
        r@ == src_prefix(*p),
{
    match &p.remote {
        Some(r) => r.clone().concat(":"),
        None => String::from_str("local:"),
    }
}

/// Render the destination scope token.
fn render_dst_prefix(p: &ParamSet) -> (r: String)
    ensures
        r@ == dst_prefix(*p),
{
    match &p.dest_remote {
        Some(r) => r.clone().concat(":"),
        None => String::from_str("local:"),
    }
}

/// Render one token whose parameters are present.
fn render_token_exec(t: &Token, p: &ParamSet) -> (r: String)
    requires
        token_missing(t@, *p) is None,
    ensures
        r@ == render_token(t@, *p),
{
    match t {
        Token::Lit(s) => s.clone(),
        Token::Param(pn) => get_slot(p, *pn).clone(),
        Token::Scoped(pn) => render_src_prefix(p).concat(get_slot(p, *pn).as_str()),
        Token::ScopedIfRemote(pn) => {
            if p.remote.is_some() {
                render_src_prefix(p).concat(get_slot(p, *pn).as_str())
            } else {
                get_slot(p, *pn).clone()
            }
        },
        Token::ScopedOrRegistry(pn) => {
            if p.remote.is_some() {
                render_src_prefix(p).concat(get_slot(p, *pn).as_str())
            } else {
                String::from_str("images:").concat(get_slot(p, *pn).as_str())
            }
        },
        Token::BareScope => render_src_prefix(p),
        Token::DestScoped(pn) => render_dst_prefix(p).concat(get_slot(p, *pn).as_str()),
        Token::DestScopedIfRemote(pn) => {
            if p.dest_remote.is_some() {
                render_dst_prefix(p).concat(get_slot(p, *pn).as_str())
            } else {
                get_slot(p, *pn).clone()
            }
        },
        Token::DestBareScope => render_dst_prefix(p),
        Token::ScopedPath(a, b) => render_src_prefix(p).concat(get_slot(p, *a).as_str()).concat(
            "/",
        ).concat(get_slot(p, *b).as_str()),
    }
}

/// Render the whole argument vector of a validated-complete template.
fn render_argv(toks: &Vec<Token>, p: &ParamSet) -> (r: Vec<String>)
    requires
        first_missing(toks.deep_view(), *p) is None,
    ensures
        r.deep_view() == spec_argv(toks.deep_view(), *p),
{
    let ghost tv = toks.deep_view();
    proof {
        lemma_first_missing_none(tv, *p);
    }
    let mut argv: Vec<String> = Vec::new();
    let mut i: usize = 0;
    while i < toks.len()
        invariant
            i <= toks.len(),
            tv == toks.deep_view(),
            tv.len() == toks.len(),
            forall|j: int| 0 <= j < tv.len() ==> token_missing(tv[j], *p) is None,
            argv.len() == i,
            forall|j: int| 0 <= j < i ==> argv@[j]@ == render_token(tv[j], *p),
        decreases toks.len() - i,
    {
        proof {
            assert(tv[i as int] == toks@[i as int].deep_view());
        }
        let s = render_token_exec(&toks[i], p);
        argv.push(s);
        i += 1;
    }
    proof {
        assert(argv.deep_view() =~= spec_argv(tv, *p));
    }
    argv
}

/// Build the command line for a `(kind, action)` pair and its parameters.
///
/// Pure and deterministic: the result is exactly [`spec_build`] of the
/// inputs, and every failure is detected before any process is spawned.
pub fn build(kind: ResourceKind, action: Action, params: ParamSet) -> (r: Result<
    CommandSpec,
    BuildError,
>)
    ensures
        build_result_view(r) == spec_build(kind, action, params),
{
    let toks = match entry_for(kind, action) {
        None => {
            return Err(BuildError::UnsupportedAction);
        },
        Some(t) => t,
    };
    if let Some(pn) = find_missing(&toks, &params) {
        return Err(BuildError::MissingParam(pn));
    }
    if let Some(pn) = find_unexpected(&toks, &params) {
        return Err(BuildError::UnexpectedParam(pn));
    }
    if let Some(e) = find_scope_error(&toks, &params) {
        return Err(BuildError::InvalidAddress(e));
    }
    let argv = render_argv(&toks, &params);
    Ok(CommandSpec { binary: Binary::Lxc, argv })
}

// ---------------------------------------------------------------------------
// Laws
// ---------------------------------------------------------------------------
/// Every parameter the template requires is supplied.
pub open spec fn params_complete(toks: Seq<TokenV>, p: ParamSet) -> bool {
    forall|pn: ParamName| requires_param(toks, pn) ==> #[trigger] p.has(pn)
}

/// Every supplied slot is declared by the template.
pub open spec fn params_exact(toks: Seq<TokenV>, p: ParamSet) -> bool {
    forall|pn: ParamName| #[trigger] p.has(pn) ==> slot_allowed(toks, pn)
}

/// Every supplied scope name is valid and no address token renders an empty
/// resource name.
pub open spec fn addresses_valid(toks: Seq<TokenV>, p: ParamSet) -> bool {
    &&& (p.has(ParamName::Remote) ==> valid_remote_name(p.value_of(ParamName::Remote)))
    &&& (p.has(ParamName::DestRemote) ==> valid_remote_name(p.value_of(ParamName::DestRemote)))
    &&& (forall|i: int| 0 <= i < toks.len() ==> !(#[trigger] token_empty(toks[i], p)))
}

/// A parameter set that supplies every required parameter leaves no token
/// with a missing one.
pub proof fn lemma_complete_no_missing(toks: Seq<TokenV>, p: ParamSet)
    requires
        params_complete(toks, p),
    ensures
        first_missing(toks, p) is None,
{
    lemma_first_missing_none(toks, p);
    assert forall|i: int| 0 <= i < toks.len() implies token_missing(toks[i], p) is None by {
        match token_missing(toks[i], p) {
            Some(pn) => {
                assert(token_requires(toks[i], pn));
                assert(requires_param(toks, pn));
            },
            None => {},
        }
    }
}

/// No address token renders empty exactly when no token in the template
/// does.
proof fn lemma_first_empty_none(toks: Seq<TokenV>, p: ParamSet)
    ensures
        first_empty(toks, p) is None <==> (forall|i: int|
            0 <= i < toks.len() ==> !(#[trigger] token_empty(toks[i], p))),
    decreases toks.len(),
{
    if toks.len() > 0 {
        lemma_first_empty_none(toks.drop_first(), p);
        if !token_empty(toks[0], p) {
            if first_empty(toks, p) is None {
                assert forall|i: int| 0 <= i < toks.len() implies !token_empty(toks[i], p) by {
                    if i > 0 {
                        assert(toks.drop_first()[i - 1] == toks[i]);
                    }
                }
            }
            if forall|i: int| 0 <= i < toks.len() ==> !(#[trigger] token_empty(toks[i], p)) {
                assert forall|i: int| 0 <= i < toks.drop_first().len() implies !token_empty(
                    toks.drop_first()[i],
                    p,
                ) by {
                    assert(toks.drop_first()[i] == toks[i + 1]);
                }
            }
        }
    }
}

/// Round trip, success direction: for every registry entry, building with
/// every required parameter present, none undeclared, and valid addresses
/// succeeds and renders exactly the entry's template.
pub proof fn lemma_build_succeeds(kind: ResourceKind, action: Action, p: ParamSet)
    requires
        spec_entry(kind, action) is Some,
        params_complete(spec_entry(kind, action)->0, p),
        params_exact(spec_entry(kind, action)->0, p),
        addresses_valid(spec_entry(kind, action)->0, p),
    ensures
        spec_build(kind, action, p) == Ok::<CommandSpecV, BuildError>(
            CommandSpecV { binary: Binary::Lxc, argv: spec_argv(spec_entry(kind, action)->0, p) },
        ),
{
    let toks = spec_entry(kind, action)->0;
    lemma_complete_no_missing(toks, p);
    assert(first_unexpected(toks, p) is None);
    lemma_first_empty_none(toks, p);
    assert(scope_error(toks, p) is None);
}

/// A missing-parameter search that stops finds a required, absent
/// parameter.
proof fn lemma_first_missing_found(toks: Seq<TokenV>, p: ParamSet)
    ensures
        (match first_missing(toks, p) {
            Some(pn) => requires_param(toks, pn) && !p.has(pn),
            None => true,
        }),
    decreases toks.len(),
{
    if toks.len() > 0 {
        match token_missing(toks[0], p) {
            Some(pn) => {
                assert(token_requires(toks[0], pn) && !p.has(pn));
                assert(requires_param(toks, pn));
            },
            None => {
                lemma_first_missing_found(toks.drop_first(), p);
                match first_missing(toks, p) {
                    Some(pn) => {
                        let i = choose|i: int|
                            0 <= i < toks.drop_first().len() && token_requires(
                                toks.drop_first()[i],
                                pn,
                            );
                        assert(toks.drop_first()[i] == toks[i + 1]);
                        assert(requires_param(toks, pn));
                    },
                    None => {},
                }
            },
        }
    }
}

/// Round trip, missing direction: omitting any required parameter of a
/// registry entry fails with `MissingParam` naming a required, absent
/// parameter.
pub proof fn lemma_build_missing(kind: ResourceKind, action: Action, p: ParamSet)
    requires
        spec_entry(kind, action) is Some,
        exists|pn: ParamName|
            requires_param(spec_entry(kind, action)->0, pn) && !(#[trigger] p.has(pn)),
    ensures
        spec_build(kind, action, p) matches Err(BuildError::MissingParam(pn))
            && requires_param(spec_entry(kind, action)->0, pn) && !p.has(pn),
{
    let toks = spec_entry(kind, action)->0;
    lemma_first_missing_none(toks, p);
    lemma_first_missing_found(toks, p);
    match first_missing(toks, p) {
        Some(_) => {},
        None => {
            let pn0 = choose|pn: ParamName| requires_param(toks, pn) && !p.has(pn);
            let i = choose|i: int| 0 <= i < toks.len() && token_requires(toks[i], pn0);
            assert(token_missing(toks[i], p) is None);
            assert(false);
        },
    }
}

/// Round trip, undeclared direction: supplying any undeclared slot, with
/// every required parameter present, fails with `UnexpectedParam` naming a
/// supplied, undeclared slot.
pub proof fn lemma_build_unexpected(kind: ResourceKind, action: Action, p: ParamSet)
    requires
        spec_entry(kind, action) is Some,
        params_complete(spec_entry(kind, action)->0, p),
        exists|pn: ParamName| #[trigger] p.has(pn) && !slot_allowed(spec_entry(kind, action)->0, pn),
    ensures
        spec_build(kind, action, p) matches Err(BuildError::UnexpectedParam(pn)) && p.has(pn)
            && !slot_allowed(spec_entry(kind, action)->0, pn),
{
    let toks = spec_entry(kind, action)->0;
    lemma_complete_no_missing(toks, p);
    let pn0 = choose|pn: ParamName| p.has(pn) && !slot_allowed(toks, pn);
    if first_unexpected(toks, p) is None {
        match pn0 {
            ParamName::Remote => assert(false),
            ParamName::DestRemote => assert(false),
            ParamName::Name => assert(false),
            ParamName::NewName => assert(false),
            ParamName::Snapshot => assert(false),
            ParamName::Key => assert(false),
            ParamName::Value => assert(false),
            ParamName::Filesystem => assert(false),
            ParamName::Alias => assert(false),
            ParamName::Image => assert(false),
            ParamName::Pool => assert(false),
            ParamName::Container => assert(false),
            ParamName::Path => assert(false),
            ParamName::Endpoint => assert(false),
            ParamName::Device => assert(false),
            ParamName::Title => assert(false),
        }
    }
    match first_unexpected(toks, p) {
        Some(pn) => {
            assert(p.has(pn) && !slot_allowed(toks, pn));
        },
        None => {},
    }
}

/// Round trip, the remaining case: a parameter set that supplies exactly
/// the required parameters of a registry entry never fails with a missing,
/// unexpected or unsupported error.  It builds successfully when its scope
/// names are valid and no scoped resource name is empty, and fails with an
/// address error otherwise — the rejection the resolver's own rules
/// mandate.
pub proof fn lemma_build_fit_outcome(kind: ResourceKind, action: Action, p: ParamSet)
    requires
        spec_entry(kind, action) is Some,
        params_complete(spec_entry(kind, action)->0, p),
        params_exact(spec_entry(kind, action)->0, p),
    ensures
        addresses_valid(spec_entry(kind, action)->0, p) ==> spec_build(kind, action, p) is Ok,
        !addresses_valid(spec_entry(kind, action)->0, p) ==> (spec_build(kind, action, p) matches
            Err(e) && e matches BuildError::InvalidAddress(_)),
{
    let toks = spec_entry(kind, action)->0;
    lemma_complete_no_missing(toks, p);
    assert(first_unexpected(toks, p) is None);
    lemma_first_empty_none(toks, p);
    if addresses_valid(toks, p) {
        assert(scope_error(toks, p) is None);
    } else {
        assert(scope_error(toks, p) is Some);
    }
}

/// Command construction is idempotent: any two build results for the same
/// kind, action and parameter set have the same rendered view.  Together
/// with the contract of [`build`], which pins each result to
/// [`spec_build`], this rules out hidden state and randomness.
pub proof fn lemma_build_deterministic(
    kind: ResourceKind,
    action: Action,
    p: ParamSet,
    r1: Result<CommandSpec, BuildError>,
    r2: Result<CommandSpec, BuildError>,
)
    requires
        build_result_view(r1) == spec_build(kind, action, p),
        build_result_view(r2) == spec_build(kind, action, p),
    ensures
        build_result_view(r1) == build_result_view(r2),
{
}

} // verus!
