//! Administration: the guarded record counts of the dashboard, role edits,
//! and the erasure of a person's data, shared by the administrator's GDPR
//! erasure and a person's own account deletion.
use crate::forms::{csv_items, csv_list};
use crate::text::{chars_of, owned, push_str, str_is, string_of, texts};
use vstd::prelude::*;

verus! {

/// The tables the dashboard may count.
pub open spec fn countable(table: Seq<char>) -> bool {
    ||| table == "person"@
    ||| table == "film"@
    ||| table == "platform"@
    ||| table == "dmca_claim"@
    ||| table == "watch_session"@
    ||| table == "transcode_job"@
}

/// Whether `table` may be counted.
pub fn is_countable(table: &str) -> (b: bool)
    ensures
        b == countable(table@),
{
    str_is(table, "person") || str_is(table, "film") || str_is(table, "platform") || str_is(
        table,
        "dmca_claim",
    ) || str_is(table, "watch_session") || str_is(table, "transcode_job")
}

/// The query counting the records of `table` that meet `condition`, if any.
pub open spec fn count_query_spec(table: Seq<char>, condition: Option<Seq<char>>) -> Seq<char> {
    match condition {
        Some(c) => "SELECT count() AS count FROM "@ + table + " WHERE "@ + c,
        None => "SELECT count() AS count FROM "@ + table,
    }
}

/// The counting query for `table`; none for a table outside the allowed
/// list, whose count is then zero.
pub fn count_query(table: &str, condition: Option<&str>) -> (r: Option<String>)
    ensures
        !countable(table@) ==> r is None,
        countable(table@) ==> (r matches Some(q) && q@ == count_query_spec(
            table@,
            match condition {
                Some(c) => Some(c@),
                None => None,
            },
        )),
{
    if !is_countable(table) {
        return None;
    }
    let mut v = chars_of("SELECT count() AS count FROM ");
    push_str(&mut v, table);
    match condition {
        Some(c) => {
            push_str(&mut v, " WHERE ");
            push_str(&mut v, c);
        },
        None => {},
    }
    Some(string_of(v.as_slice()))
}

/// The role edit form: roles separated by commas.
#[derive(Debug, Clone)]
pub struct RoleForm {
    pub roles: String,
}

/// The roles a role edit sets: the listed names, trimmed, empty ones dropped.
pub fn role_list(form: &RoleForm) -> (r: Vec<String>)
    ensures
        texts(r@) == csv_items(form.roles@),
{
    csv_list(form.roles.as_str())
}

/// The tables that hold a person's data, each erased with the person.
pub open spec fn erasure_spec() -> Seq<char> {
    "DELETE FROM agreed_to WHERE in = $pid; DELETE FROM filmmaker_of WHERE in = $pid; DELETE FROM curator_of WHERE in = $pid; DELETE FROM attending WHERE in = $pid; DELETE FROM watch_session WHERE person = $pid; DELETE FROM entitlement WHERE person = $pid; DELETE FROM viewer_subscription WHERE person = $pid; DELETE FROM rating WHERE person = $pid; DELETE FROM credit_balance WHERE person = $pid; DELETE FROM credit_transaction WHERE person = $pid; DELETE FROM storage_usage WHERE person = $pid; DELETE $pid;"@
}

/// The statements that erase the person `$pid` and all their data: their
/// agreements, films, platforms, attendances, viewing sessions,
/// entitlements, subscriptions, ratings, credits and storage usage, then the
/// person. Both the administrator's erasure and a person's own account
/// deletion run exactly these.
pub fn erasure_query() -> (r: String)
    ensures
        r@ == erasure_spec(),
{
    owned(
        "DELETE FROM agreed_to WHERE in = $pid; DELETE FROM filmmaker_of WHERE in = $pid; DELETE FROM curator_of WHERE in = $pid; DELETE FROM attending WHERE in = $pid; DELETE FROM watch_session WHERE person = $pid; DELETE FROM entitlement WHERE person = $pid; DELETE FROM viewer_subscription WHERE person = $pid; DELETE FROM rating WHERE person = $pid; DELETE FROM credit_balance WHERE person = $pid; DELETE FROM credit_transaction WHERE person = $pid; DELETE FROM storage_usage WHERE person = $pid; DELETE $pid;",
    )
}

/// The `Content-Disposition` of a person's data export made by an administrator.
pub fn export_disposition(person_id: &str) -> (r: String)
    ensures
        r@ == "attachment; filename=\"gdpr-export-"@ + person_id@ + ".json\""@,
{
    let mut v = chars_of("attachment; filename=\"gdpr-export-");
    push_str(&mut v, person_id);
    push_str(&mut v, ".json\"");
    string_of(v.as_slice())
}

} // verus!
