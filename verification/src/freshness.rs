//! Whether a repository is due for an update: it is, unless the table
//! records an update less than the maximum age ago.

use crate::instant::{elapsed, elapsed_between, hours_span, span_of_hours, Instant};
use crate::table::StateMapping;
use vstd::prelude::*;

verus! {

/// `name` was updated less than `max_age` hours before or after `now`,
/// going by `table`. A clock that has moved back, or a recorded instant that
/// lies ahead of `now`, is measured by its distance like any other.
pub open spec fn recent(
    table: Map<Seq<char>, Instant>,
    name: Seq<char>,
    max_age: i32,
    now: Instant,
) -> bool {
    table.contains_key(name) && hours_span(max_age as int) > elapsed_between(table[name]@, now@)
}

/// `name` is due for an update at `now`: `table` records no update of it, or
/// one that lies `max_age` hours or more away.
pub open spec fn due(
    table: Map<Seq<char>, Instant>,
    name: Seq<char>,
    max_age: i32,
    now: Instant,
) -> bool {
    !table.contains_key(name) || elapsed_between(table[name]@, now@) >= hours_span(max_age as int)
}

/// A repository is due exactly when it is not recent.
pub proof fn lemma_due_is_not_recent(
    table: Map<Seq<char>, Instant>,
    name: Seq<char>,
    max_age: i32,
    now: Instant,
)
    ensures
        due(table, name, max_age, now) == !recent(table, name, max_age, now),
{
}

/// A recorded instant that lies ahead of the clock counts like one that lies
/// as far behind it: the two tables agree on whether `name` is due.
pub proof fn lemma_skew_counts_by_distance(
    behind: Map<Seq<char>, Instant>,
    ahead: Map<Seq<char>, Instant>,
    name: Seq<char>,
    max_age: i32,
    now: Instant,
)
    requires
        behind.contains_key(name),
        ahead.contains_key(name),
        now@ - behind[name]@ == ahead[name]@ - now@,
    ensures
        due(behind, name, max_age, now) == due(ahead, name, max_age, now),
{
}

/// Says whether `repository_name` was updated less than `max_age` hours
/// before or after `now`. A repository that the table does not know is not
/// recent.
pub fn is_recent(table: &StateMapping, repository_name: &str, max_age: i32, now: Instant) -> (fresh:
    bool)
    ensures
        fresh == recent(table@, repository_name@, max_age, now),
{
    match table.get(repository_name) {
        None => false,
        Some(timestamp) => {
            let age: i128 = elapsed(timestamp, now);
            span_of_hours(max_age) > age
        },
    }
}

/// Says whether `repository_name` is due for an update at `now`: always where
/// the table does not know it, and otherwise exactly where the time between
/// its last update and `now` has reached `max_age` hours.
pub fn is_due(table: &StateMapping, repository_name: &str, max_age: i32, now: Instant) -> (stale:
    bool)
    ensures
        stale == due(table@, repository_name@, max_age, now),
        !table@.contains_key(repository_name@) ==> stale,
        table@.contains_key(repository_name@) ==> stale == (elapsed_between(
            table@[repository_name@]@,
            now@,
        ) >= hours_span(max_age as int)),
{
    !is_recent(table, repository_name, max_age, now)
}

} // verus!
