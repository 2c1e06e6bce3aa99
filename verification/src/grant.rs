//! The grant decision: from a submitted token to an outcome.
//!
//! Handling a `!flag` command needs two remote calls (fetch the author's
//! membership, add the role), so the decision is split in two verified
//! steps around them. `resolve` does everything that needs no I/O: it
//! validates the token's shape, looks it up in the table, and resolves the
//! mapped role id against the server's role list. When it answers
//! `Grant`, the host performs the two calls and reports what happened as
//! an `ApiEvent`; `finish` then folds that answer into the final outcome.

use vstd::prelude::*;

use crate::flag::flag_matches;
use crate::flag::is_flag_token;
use crate::table::FlagTable;

verus! {

/// A role of the connected server: identifier and display name.
pub struct Role {
    pub id: u64,
    pub name: String,
}

/// Spec-level image of a `Role`.
pub ghost struct RoleView {
    pub id: u64,
    pub name: Seq<char>,
}

impl View for Role {
    type V = RoleView;

    open spec fn view(&self) -> RoleView {
        RoleView { id: self.id, name: self.name@ }
    }
}

/// A read-only snapshot of the server data the decision consults: its role
/// list. The host builds it from the platform's guild data.
pub struct ServerContext {
    pub roles: Vec<Role>,
}

impl View for ServerContext {
    type V = Seq<RoleView>;

    open spec fn view(&self) -> Seq<RoleView> {
        Seq::new(self.roles@.len(), |i: int| self.roles@[i]@)
    }
}

/// Role ids identify roles uniquely, as a server's role map guarantees.
pub open spec fn wf_server(sv: Seq<RoleView>) -> bool {
    forall|i: int, j: int| 0 <= i < j < sv.len() ==> sv[i].id != sv[j].id
}

/// Some role of the server carries this id.
pub open spec fn has_role(sv: Seq<RoleView>, rid: u64) -> bool {
    exists|i: int| 0 <= i < sv.len() && sv[i].id == rid
}

/// The display name of the server's role with this id.
pub open spec fn role_name(sv: Seq<RoleView>, rid: u64) -> Seq<char> {
    sv[choose|i: int| 0 <= i < sv.len() && sv[i].id == rid].name
}

/// Outcome of handling a `!flag` command.
#[derive(Clone, Debug, PartialEq, Eq)]
pub enum Outcome {
    /// The flag was granted; carries the rewarded role's display name.
    Success(String),
    /// The submission was at fault; carries the corrective message shown
    /// to the user.
    UserError(String),
    /// The system was at fault; carries detail meant for the operator's
    /// log, never for the user.
    InternalError(String),
}

/// Spec-level image of an `Outcome`.
pub ghost enum OutcomeView {
    Success(Seq<char>),
    UserError(Seq<char>),
    InternalError(Seq<char>),
}

impl View for Outcome {
    type V = OutcomeView;

    open spec fn view(&self) -> OutcomeView {
        match self {
            Outcome::Success(m) => OutcomeView::Success(m@),
            Outcome::UserError(m) => OutcomeView::UserError(m@),
            Outcome::InternalError(m) => OutcomeView::InternalError(m@),
        }
    }
}

/// What the decision step tells the host to do next.
#[derive(Clone, Debug, PartialEq, Eq)]
pub enum Resolution {
    /// Add the role to the author's membership, then report through
    /// `finish`.
    Grant { role_id: u64, role_name: String },
    /// Nothing to carry out: this is already the outcome.
    Fail(Outcome),
}

/// Spec-level image of a `Resolution`.
pub ghost enum ResolutionView {
    Grant { role_id: u64, role_name: Seq<char> },
    Fail(OutcomeView),
}

impl View for Resolution {
    type V = ResolutionView;

    open spec fn view(&self) -> ResolutionView {
        match self {
            Resolution::Grant { role_id, role_name } => ResolutionView::Grant {
                role_id: *role_id,
                role_name: role_name@,
            },
            Resolution::Fail(o) => ResolutionView::Fail(o@),
        }
    }
}

/// What came back from the chat platform while carrying out a grant.
#[derive(Clone, Debug, PartialEq, Eq)]
pub enum ApiEvent {
    /// The role was added to the author's membership.
    Granted,
    /// The author's membership could not be fetched; carries the
    /// platform's error rendered as text.
    MemberFetchFailed(String),
    /// Adding the role failed; carries the platform's error rendered as
    /// text.
    RoleAddFailed(String),
}

/// Spec-level image of an `ApiEvent`.
pub ghost enum ApiEventView {
    Granted,
    MemberFetchFailed(Seq<char>),
    RoleAddFailed(Seq<char>),
}

impl View for ApiEvent {
    type V = ApiEventView;

    open spec fn view(&self) -> ApiEventView {
        match self {
            ApiEvent::Granted => ApiEventView::Granted,
            ApiEvent::MemberFetchFailed(d) => ApiEventView::MemberFetchFailed(d@),
            ApiEvent::RoleAddFailed(d) => ApiEventView::RoleAddFailed(d@),
        }
    }
}

/// Message shown when the submitted token has the wrong shape.
pub open spec fn malformed_text() -> Seq<char> {
    "Le flag donné n'a pas la bonne forme. Il ressemble à ça: `CA{c0dE_4n0n}`."@
}

/// Message shown when a well-formed token is not in the table.
pub open spec fn unknown_text() -> Seq<char> {
    "Ce flag n'existe pas."@
}

/// Logged when the table maps a flag to a role the server does not have.
pub open spec fn role_missing_text() -> Seq<char> {
    "Couldn't get role id"@
}

/// Reply sent when a flag is granted, naming the rewarded role.
pub open spec fn success_text(name: Seq<char>) -> Seq<char> {
    "Bravo, tu as trouvé le flag ! Tu as désormais le rôle `"@ + name
        + "` sur le Discord CodeAnon ! :flag_black:"@
}

fn malformed_message() -> (s: String)
    ensures
        s@ == malformed_text(),
{
    "Le flag donné n'a pas la bonne forme. Il ressemble à ça: `CA{c0dE_4n0n}`.".to_owned()
}

fn unknown_message() -> (s: String)
    ensures
        s@ == unknown_text(),
{
    "Ce flag n'existe pas.".to_owned()
}

fn role_missing_message() -> (s: String)
    ensures
        s@ == role_missing_text(),
{
    "Couldn't get role id".to_owned()
}

fn success_message(name: &str) -> (s: String)
    ensures
        s@ == success_text(name@),
{
    let mut s = "Bravo, tu as trouvé le flag ! Tu as désormais le rôle `".to_owned();
    s.append(name);
    s.append("` sur le Discord CodeAnon ! :flag_black:");
    s
}

/// What `resolve` decides for a submitted flag.
pub open spec fn resolve_spec(
    table: Map<Seq<char>, u64>,
    sv: Seq<RoleView>,
    flag: Seq<char>,
) -> ResolutionView {
    if !is_flag_token(flag) {
        ResolutionView::Fail(OutcomeView::UserError(malformed_text()))
    } else if !table.contains_key(flag) {
        ResolutionView::Fail(OutcomeView::UserError(unknown_text()))
    } else if !has_role(sv, table[flag]) {
        ResolutionView::Fail(OutcomeView::InternalError(role_missing_text()))
    } else {
        ResolutionView::Grant { role_id: table[flag], role_name: role_name(sv, table[flag]) }
    }
}

/// What `finish` reports once the platform has answered.
pub open spec fn finish_spec(role_name: Seq<char>, ev: ApiEventView) -> OutcomeView {
    match ev {
        ApiEventView::Granted => OutcomeView::Success(success_text(role_name)),
        ApiEventView::MemberFetchFailed(d) => OutcomeView::InternalError(d),
        ApiEventView::RoleAddFailed(d) => OutcomeView::InternalError(d),
    }
}

/// The whole grant pipeline at spec level: the decision, and, where a grant
/// was ordered, the platform's answer folded in.
pub open spec fn grant_outcome(
    table: Map<Seq<char>, u64>,
    sv: Seq<RoleView>,
    flag: Seq<char>,
    ev: ApiEventView,
) -> OutcomeView {
    match resolve_spec(table, sv, flag) {
        ResolutionView::Fail(o) => o,
        ResolutionView::Grant { role_id, role_name } => finish_spec(role_name, ev),
    }
}

/// Decides a submitted flag: checks its shape, looks it up, and resolves
/// the mapped role against the server's role list.
pub fn resolve(table: &FlagTable, server: &ServerContext, flag: &str) -> (r: Resolution)
    requires
        wf_server(server@),
    ensures
        r@ == resolve_spec(table@, server@, flag@),
{
    if !flag_matches(flag) {
        return Resolution::Fail(Outcome::UserError(malformed_message()));
    }
    let rid = match table.lookup(flag) {
        None => {
            return Resolution::Fail(Outcome::UserError(unknown_message()));
        },
        Some(rid) => rid,
    };
    let n = server.roles.len();
    let mut i: usize = 0;
    while i < n
        invariant
            0 <= i <= n,
            n == server.roles@.len(),
            server@.len() == n,
            wf_server(server@),
            is_flag_token(flag@),
            table@.contains_key(flag@),
            rid == table@[flag@],
            forall|j: int| 0 <= j < i ==> (#[trigger] server@[j]).id != rid,
        decreases n - i,
    {
        if server.roles[i].id == rid {
            let name = server.roles[i].name.clone();
            proof {
                assert(server@[i as int].id == rid);
                assert(has_role(server@, rid));
                let w = choose|k: int| 0 <= k < server@.len() && server@[k].id == rid;
                assert(wf_server(server@));
                assert(w == i as int);
                assert(role_name(server@, rid) == name@);
            }
            return Resolution::Grant { role_id: rid, role_name: name };
        }
        i = i + 1;
    }
    proof {
        assert(!has_role(server@, rid));
    }
    Resolution::Fail(Outcome::InternalError(role_missing_message()))
}

/// Folds the platform's answer into the final outcome. `role_name` is the
/// name the preceding `resolve` put in its `Grant`.
pub fn finish(role_name: &str, event: ApiEvent) -> (o: Outcome)
    ensures
        o@ == finish_spec(role_name@, event@),
{
    match event {
        ApiEvent::Granted => Outcome::Success(success_message(role_name)),
        ApiEvent::MemberFetchFailed(d) => Outcome::InternalError(d),
        ApiEvent::RoleAddFailed(d) => Outcome::InternalError(d),
    }
}

} // verus!
