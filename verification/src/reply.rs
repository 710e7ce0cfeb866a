//! The replies a sentinel or a candidate node can give, as plain data.
//!
//! Decoding the wire format is the collaborator's job; the resolver only
//! decides what each already-decoded reply means for the sweep. Keeping the
//! reply shapes explicit keeps the skip policy (which replies are passed
//! over, which abort the call) auditable.

use vstd::prelude::*;

verus! {

/// What one sentinel answered to "resolve the primary address of this
/// service", as handed over by the wire-protocol client.
pub enum QueryReply {
    /// The exchange itself failed: transport fault or refused command.
    Failed,
    /// The explicit empty marker: this sentinel has no opinion on the
    /// service (it does not monitor it, or does not know it).
    Unknown,
    /// The reply could not be decoded as a two-element (host, port) pair.
    Malformed,
    /// The sentinel names the host and port of the primary it believes in.
    /// Both elements arrive as text, exactly as the sentinel sent them.
    Addr(String, String),
}

/// The ghost image of a `QueryReply`.
pub ghost enum QueryReplySpec {
    Failed,
    Unknown,
    Malformed,
    Addr(Seq<char>, Seq<char>),
}

impl View for QueryReply {
    type V = QueryReplySpec;

    open spec fn view(&self) -> QueryReplySpec {
        match self {
            QueryReply::Failed => QueryReplySpec::Failed,
            QueryReply::Unknown => QueryReplySpec::Unknown,
            QueryReply::Malformed => QueryReplySpec::Malformed,
            QueryReply::Addr(host, port) => QueryReplySpec::Addr(host@, port@),
        }
    }
}

impl QueryReply {
    /// An owned copy with the same ghost image.
    pub fn duplicate(&self) -> (r: QueryReply)
        ensures
            r@ == self@,
    {
        match self {
            QueryReply::Failed => QueryReply::Failed,
            QueryReply::Unknown => QueryReply::Unknown,
            QueryReply::Malformed => QueryReply::Malformed,
            QueryReply::Addr(host, port) => QueryReply::Addr(host.clone(), port.clone()),
        }
    }
}

/// What a candidate node answered to "report your current role".
pub enum RoleReply {
    /// The node could not be reached, or its reply could not be decoded.
    Failed,
    /// The decoded reply: its first element is the role the node claims.
    Roles(Vec<String>),
}

/// The ghost image of a `RoleReply`.
pub ghost enum RoleReplySpec {
    Failed,
    Roles(Seq<Seq<char>>),
}

impl View for RoleReply {
    type V = RoleReplySpec;

    open spec fn view(&self) -> RoleReplySpec {
        match self {
            RoleReply::Failed => RoleReplySpec::Failed,
            RoleReply::Roles(items) => RoleReplySpec::Roles(items.deep_view()),
        }
    }
}

impl RoleReply {
    /// An owned copy with the same ghost image.
    pub fn duplicate(&self) -> (r: RoleReply)
        ensures
            r@ == self@,
    {
        match self {
            RoleReply::Failed => RoleReply::Failed,
            RoleReply::Roles(items) => RoleReply::Roles(duplicate_strings(items)),
        }
    }
}

/// An owned copy of a list of strings, element for element.
fn duplicate_strings(items: &Vec<String>) -> (r: Vec<String>)
    ensures
        r.deep_view() == items.deep_view(),
{
    let mut r: Vec<String> = Vec::new();
    let n = items.len();
    let mut i: usize = 0;
    while i < n
        invariant
            i <= n,
            n == items@.len(),
            r@.len() == i,
            forall|j: int| 0 <= j < i ==> r@[j]@ == items@[j]@,
        decreases n - i,
    {
        r.push(items[i].clone());
        i += 1;
    }
    proof {
        assert(r.deep_view() =~= items.deep_view());
    }
    r
}

} // verus!
