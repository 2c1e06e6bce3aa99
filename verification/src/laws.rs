//! Laws of the grant pipeline, stated once and proved for all inputs.

use vstd::prelude::*;

use crate::flag::is_flag_token;
use crate::grant::ApiEventView;
use crate::grant::OutcomeView;
use crate::grant::ResolutionView;
use crate::grant::RoleView;
use crate::grant::grant_outcome;
use crate::grant::has_role;
use crate::grant::malformed_text;
use crate::grant::resolve_spec;
use crate::grant::role_missing_text;
use crate::grant::role_name;
use crate::grant::success_text;
use crate::grant::unknown_text;
use crate::reply::format_spec;

verus! {

/// A well-formed flag that is in the table, whose mapped role the server
/// has, is granted: the decision is `Grant` of exactly the table's mapped
/// role, and once the platform confirms, the outcome is `Success` naming
/// that role.
pub proof fn lemma_present_flag_granted(
    table: Map<Seq<char>, u64>,
    sv: Seq<RoleView>,
    flag: Seq<char>,
)
    requires
        is_flag_token(flag),
        table.contains_key(flag),
        has_role(sv, table[flag]),
    ensures
        resolve_spec(table, sv, flag) == (ResolutionView::Grant {
            role_id: table[flag],
            role_name: role_name(sv, table[flag]),
        }),
        grant_outcome(table, sv, flag, ApiEventView::Granted) == OutcomeView::Success(
            success_text(role_name(sv, table[flag])),
        ),
{
}

/// A token of the wrong shape is turned away before the table or the
/// server is consulted: the decision is the same `UserError`, whatever
/// table and whatever server are supplied.
pub proof fn lemma_malformed_ignores_table(
    table1: Map<Seq<char>, u64>,
    sv1: Seq<RoleView>,
    table2: Map<Seq<char>, u64>,
    sv2: Seq<RoleView>,
    flag: Seq<char>,
)
    requires
        !is_flag_token(flag),
    ensures
        resolve_spec(table1, sv1, flag) == ResolutionView::Fail(
            OutcomeView::UserError(malformed_text()),
        ),
        resolve_spec(table1, sv1, flag) == resolve_spec(table2, sv2, flag),
{
}

/// A well-formed flag that is absent from the table is rejected as a user
/// error whose message differs from the malformed-shape message.
pub proof fn lemma_unknown_flag_distinct_message(
    table: Map<Seq<char>, u64>,
    sv: Seq<RoleView>,
    flag: Seq<char>,
)
    requires
        is_flag_token(flag),
        !table.contains_key(flag),
    ensures
        resolve_spec(table, sv, flag) == ResolutionView::Fail(
            OutcomeView::UserError(unknown_text()),
        ),
        unknown_text() != malformed_text(),
{
    reveal_strlit("Ce flag n'existe pas.");
    reveal_strlit("Le flag donné n'a pas la bonne forme. Il ressemble à ça: `CA{c0dE_4n0n}`.");
    assert(unknown_text().len() != malformed_text().len());
}

/// A flag mapped to a role the server does not have ends as an internal
/// error whatever the platform would have answered: never a success, and
/// the formatter shows nothing to the user, so the role id cannot leak.
pub proof fn lemma_missing_role_stays_internal(
    table: Map<Seq<char>, u64>,
    sv: Seq<RoleView>,
    flag: Seq<char>,
    ev: ApiEventView,
)
    requires
        is_flag_token(flag),
        table.contains_key(flag),
        !has_role(sv, table[flag]),
    ensures
        grant_outcome(table, sv, flag, ev) == OutcomeView::InternalError(role_missing_text()),
        !(grant_outcome(table, sv, flag, ev) is Success),
        format_spec(grant_outcome(table, sv, flag, ev)) is None,
{
}

} // verus!
