//! Identifiers for platform records, drawn from per-kind counters.
use vstd::prelude::*;
use crate::text::{decimal, decimal_string};

verus! {

/// The identifier that a counter at `n` gives under `prefix`.
pub open spec fn record_id(prefix: Seq<char>, n: u64) -> Seq<char> {
    prefix + decimal(n as nat)
}

/// Advances `counter` and names the new value under `prefix`.
fn next_id(prefix: &str, counter: &mut u64) -> (r: String)
    requires
        *old(counter) < u64::MAX,
    ensures
        *final(counter) == *old(counter) + 1,
        r@ == record_id(prefix@, *final(counter)),
{
    *counter = *counter + 1;
    let digits = decimal_string(*counter);
    String::from_str(prefix).concat(digits.as_str())
}

/// The next certification identifier, `cert_<n>`.
pub fn generate_certification_id(counter: &mut u64) -> (r: String)
    requires
        *old(counter) < u64::MAX,
    ensures
        *final(counter) == *old(counter) + 1,
        r@ == record_id("cert_"@, *final(counter)),
{
    next_id("cert_", counter)
}

/// The next course identifier, `course_<n>`.
pub fn generate_course_id(counter: &mut u64) -> (r: String)
    requires
        *old(counter) < u64::MAX,
    ensures
        *final(counter) == *old(counter) + 1,
        r@ == record_id("course_"@, *final(counter)),
{
    next_id("course_", counter)
}

/// The next lesson identifier, `lesson_<n>`.
pub fn generate_lesson_id(counter: &mut u64) -> (r: String)
    requires
        *old(counter) < u64::MAX,
    ensures
        *final(counter) == *old(counter) + 1,
        r@ == record_id("lesson_"@, *final(counter)),
{
    next_id("lesson_", counter)
}

/// The next discussion identifier, `discussion_<n>`.
pub fn generate_discussion_id(counter: &mut u64) -> (r: String)
    requires
        *old(counter) < u64::MAX,
    ensures
        *final(counter) == *old(counter) + 1,
        r@ == record_id("discussion_"@, *final(counter)),
{
    next_id("discussion_", counter)
}

/// The next learning path identifier, `learning_path_<n>`.
pub fn generate_learning_path_id(counter: &mut u64) -> (r: String)
    requires
        *old(counter) < u64::MAX,
    ensures
        *final(counter) == *old(counter) + 1,
        r@ == record_id("learning_path_"@, *final(counter)),
{
    next_id("learning_path_", counter)
}

} // verus!
