//! Names for gamblers: a first name and a surname drawn at random, each put
//! in title case, with a space between them.

use vstd::prelude::*;
use vstd::string::StringExecFns;
use scottish_names::Sex;
use crate::luck::coin;

verus! {

/// `scottish_names::Sex`: the sex a first name is drawn for, `Male` or
/// `Female`.
#[verifier::external_type_specification]
pub struct ExSex(scottish_names::Sex);

/// `scottish_names::first_name` draws a first name of the given sex at
/// random, weighted by how common the name is. Nothing is claimed of it.
pub assume_specification[ scottish_names::first_name ](sex: Sex) -> &'static str
;

/// `scottish_names::surname` draws a surname at random, weighted by how
/// common the name is. Nothing is claimed of it.
pub assume_specification[ scottish_names::surname ]() -> &'static str
;

/// The text that `titlecase::titlecase` makes of `input`.
pub uninterp spec fn titlecase_of(input: Seq<char>) -> Seq<char>;

/// `titlecase::titlecase` trims the text and capitalises it as a title.
/// The contract only names the outcome, which depends on the text alone.
pub assume_specification[ titlecase::titlecase ](input: &str) -> (out: String)
    ensures
        out@ == titlecase_of(input@),
;

/// The full name made of two names: both in title case, a space between.
pub open spec fn full_name(first: Seq<char>, last: Seq<char>) -> Seq<char> {
    titlecase_of(first) + seq![' '] + titlecase_of(last)
}

/// Joins two names with a space.
pub fn join_names(first: String, last: &str) -> (name: String)
    ensures
        name@ == first@ + seq![' '] + last@,
{
    let mut name = first;
    name.push(' ');
    name.append(last);
    name
}

/// Puts two names in title case and joins them with a space.
pub fn display_name(first: &str, last: &str) -> (name: String)
    ensures
        name@ == full_name(first@, last@),
{
    let head = titlecase::titlecase(first);
    let tail = titlecase::titlecase(last);
    join_names(head, tail.as_str())
}

/// Draws a name: the toss of a coin picks the sex of the first name.
pub fn random_name() -> (name: String)
    ensures
        exists|first: Seq<char>, last: Seq<char>| name@ == full_name(first, last),
{
    let sex = if coin() {
        Sex::Male
    } else {
        Sex::Female
    };
    let first = scottish_names::first_name(sex);
    let last = scottish_names::surname();
    display_name(first, last)
}

} // verus!
