//! Resource addressing in the two-tier `[remote:]resource[/sub-resource]`
//! grammar.
//!
//! An [`Address`] either targets the local daemon instance or a named remote.
//! A remote name is valid when it is non-empty and contains neither `:` nor
//! `/`; a resource name must be non-empty.  Rendering always produces the
//! fully qualified form (`local:name`, `remote:name`), optionally suffixed
//! with `/sub` for snapshot-style paths.

use vstd::prelude::*;
use vstd::string::StrSliceExecFns;
use vstd::string::StringExecFns;
use crate::text::str_eq;

verus! {

/// A remote name may stand as the scope of an address exactly when it is
/// non-empty and contains neither the scope separator `:` nor the
/// sub-resource separator `/`.
pub open spec fn valid_remote_name(s: Seq<char>) -> bool {
    &&& s.len() > 0
    &&& forall|i: int| 0 <= i < s.len() ==> s[i] != ':' && s[i] != '/'
}

/// Whether an address refers to the local daemon instance or a named remote.
#[derive(Clone, Debug)]
pub enum Scope {
    Local,
    Remote(String),
}

/// Mathematical model of a [`Scope`].
pub enum ScopeV {
    Local,
    Remote(Seq<char>),
}

impl View for Scope {
    type V = ScopeV;

    open spec fn view(&self) -> ScopeV {
        match self {
            Scope::Local => ScopeV::Local,
            Scope::Remote(r) => ScopeV::Remote(r@),
        }
    }
}

/// A validated resource address: a scope, a resource name, and an optional
/// snapshot-style sub-resource.
#[derive(Clone, Debug)]
pub struct Address {
    pub scope: Scope,
    pub resource: String,
    pub sub_resource: Option<String>,
}

/// Mathematical model of an [`Address`].
pub struct AddressV {
    pub scope: ScopeV,
    pub resource: Seq<char>,
    pub sub_resource: Option<Seq<char>>,
}

impl View for Address {
    type V = AddressV;

    open spec fn view(&self) -> AddressV {
        AddressV {
            scope: self.scope@,
            resource: self.resource@,
            sub_resource: match self.sub_resource {
                Some(s) => Some(s@),
                None => None,
            },
        }
    }
}

/// Failures of address construction.
#[derive(Clone, Copy, Debug, PartialEq, Eq, Structural)]
pub enum AddressError {
    /// The remote name is empty or contains `:` or `/`.
    InvalidRemoteName,
    /// The resource (or sub-resource) name is empty.
    EmptyResource,
}

impl AddressV {
    /// The invariant every constructed address satisfies: a valid remote
    /// name, a non-empty resource, and a non-empty sub-resource if any.
    pub open spec fn wf(self) -> bool {
        &&& (match self.scope {
            ScopeV::Local => true,
            ScopeV::Remote(r) => valid_remote_name(r),
        })
        &&& self.resource.len() > 0
        &&& (match self.sub_resource {
            Some(s) => s.len() > 0,
            None => true,
        })
    }

    /// The scope part of the rendered form, separator included.
    pub open spec fn scope_prefix(self) -> Seq<char> {
        match self.scope {
            ScopeV::Local => "local:"@,
            ScopeV::Remote(r) => r + ":"@,
        }
    }

    /// The rendered form: `scope:resource`, plus `/sub` for snapshots.
    pub open spec fn render_view(self) -> Seq<char> {
        self.scope_prefix() + self.resource + (match self.sub_resource {
            Some(s) => "/"@ + s,
            None => Seq::<char>::empty(),
        })
    }
}

/// Model of [`resolve`]: `None` and the literal `local` marker give local
/// scope; any other token must be a valid remote name; the resource must be
/// non-empty.
pub open spec fn spec_resolve(scope_token: Option<Seq<char>>, resource: Seq<char>) -> Result<
    AddressV,
    AddressError,
> {
    match scope_token {
        None => spec_resolve_local(resource),
        Some(t) => if t == "local"@ {
            spec_resolve_local(resource)
        } else if !valid_remote_name(t) {
            Err(AddressError::InvalidRemoteName)
        } else if resource.len() == 0 {
            Err(AddressError::EmptyResource)
        } else {
            Ok(AddressV { scope: ScopeV::Remote(t), resource, sub_resource: None })
        },
    }
}

pub open spec fn spec_resolve_local(resource: Seq<char>) -> Result<AddressV, AddressError> {
    if resource.len() == 0 {
        Err(AddressError::EmptyResource)
    } else {
        Ok(AddressV { scope: ScopeV::Local, resource, sub_resource: None })
    }
}

/// The view of an optional scope token.
pub open spec fn opt_str_view(t: Option<&str>) -> Option<Seq<char>> {
    match t {
        None => None,
        Some(s) => Some(s@),
    }
}

/// The view of a resolution result.
pub open spec fn resolve_result_view(r: Result<Address, AddressError>) -> Result<
    AddressV,
    AddressError,
> {
    match r {
        Ok(a) => Ok(a@),
        Err(e) => Err(e),
    }
}

/// Parse and validate an address from a caller-supplied scope token and
/// resource name.
pub fn resolve(scope_token: Option<&str>, resource: &str) -> (r: Result<Address, AddressError>)
    ensures
        resolve_result_view(r) == spec_resolve(opt_str_view(scope_token), resource@),
        r matches Ok(a) ==> a@.wf(),
{
    let scope = match scope_token {
        None => Scope::Local,
        Some(t) => {
            if str_eq(t, "local") {
                Scope::Local
            } else if !check_remote_name(t) {
                return Err(AddressError::InvalidRemoteName);
            } else {
                Scope::Remote(String::from_str(t))
            }
        },
    };
    if resource.is_empty() {
        return Err(AddressError::EmptyResource);
    }
    Ok(Address { scope, resource: String::from_str(resource), sub_resource: None })
}

/// Decide [`valid_remote_name`] for a string slice.
pub fn check_remote_name(s: &str) -> (r: bool)
    ensures
        r == valid_remote_name(s@),
{
    let len = s.unicode_len();
    if len == 0 {
        return false;
    }
    let mut i: usize = 0;
    while i < len
        invariant
            i <= len,
            len == s@.len(),
            forall|j: int| 0 <= j < i ==> s@[j] != ':' && s@[j] != '/',
        decreases len - i,
    {
        let c = s.get_char(i);
        if c == ':' || c == '/' {
            return false;
        }
        i += 1;
    }
    true
}

impl Address {
    /// Derive a snapshot-style address by attaching a non-empty sub-resource.
    pub fn with_sub_resource(self, sub: &str) -> (r: Result<Address, AddressError>)
        ensures
            sub@.len() > 0 ==> (r matches Ok(a) && a@ == (AddressV {
                sub_resource: Some(sub@),
                ..self@
            })),
            sub@.len() == 0 ==> r == Err::<Address, AddressError>(AddressError::EmptyResource),
    {
        if sub.is_empty() {
            Err(AddressError::EmptyResource)
        } else {
            Ok(Address { sub_resource: Some(String::from_str(sub)), ..self })
        }
    }

    /// Render the address in the form the external tool expects.
    pub fn render(&self) -> (r: String)
        ensures
            r@ == self@.render_view(),
    {
        let mut s: String = match &self.scope {
            Scope::Local => String::from_str("local:"),
            Scope::Remote(name) => name.clone().concat(":"),
        };
        s.append(self.resource.as_str());
        match &self.sub_resource {
            Some(sub) => {
                s.append("/");
                s.append(sub.as_str());
            },
            None => {},
        }
        proof {
            assert(s@ =~= self@.render_view());
        }
        s
    }
}

/// The literal scope marker `local` is itself a syntactically valid remote
/// name; it is recognised before remote-name validation and maps to local
/// scope.
pub proof fn lemma_local_marker_valid()
    ensures
        valid_remote_name("local"@),
{
    reveal_strlit("local");
    assert forall|i: int| 0 <= i < "local"@.len() implies "local"@[i] != ':' && "local"@[i]
        != '/' by {
        if i == 0 {
            assert("local"@[0] == 'l');
        } else if i == 1 {
            assert("local"@[1] == 'o');
        } else if i == 2 {
            assert("local"@[2] == 'c');
        } else if i == 3 {
            assert("local"@[3] == 'a');
        } else {
            assert("local"@[4] == 'l');
        }
    }
}

/// Rendering a resolved remote address yields `remote:resource` exactly.
///
/// Holds for every valid remote name and non-empty resource; in particular
/// the marker `local` itself resolves to local scope, whose rendering
/// coincides with `local:resource`.
pub proof fn lemma_resolve_remote_renders(r: Seq<char>, n: Seq<char>)
    requires
        valid_remote_name(r),
        n.len() > 0,
    ensures
        spec_resolve(Some(r), n) matches Ok(a) && a.render_view() == r + ":"@ + n,
{
    if r == "local"@ {
        reveal_strlit("local");
        reveal_strlit("local:");
        reveal_strlit(":");
        let a = spec_resolve(Some(r), n)->Ok_0;
        assert(a.render_view() =~= r + ":"@ + n);
    } else {
        let a = spec_resolve(Some(r), n)->Ok_0;
        assert(a.render_view() =~= r + ":"@ + n);
    }
}

/// Rendering a resolved local address yields `local:resource` exactly.
pub proof fn lemma_resolve_local_renders(n: Seq<char>)
    requires
        n.len() > 0,
    ensures
        spec_resolve(None, n) matches Ok(a) && a.render_view() == "local:"@ + n,
{
    let a = spec_resolve(None, n)->Ok_0;
    assert(a.render_view() =~= "local:"@ + n);
}

} // verus!
