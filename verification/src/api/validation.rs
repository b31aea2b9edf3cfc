//! The rules a request body must keep, checked by the validation crate's
//! own rule functions, and the report of the rules a body breaks.

use vstd::prelude::*;
use vstd::utf8::encode_utf8;

verus! {

/// `garde::Error`: the message of one broken rule.
#[verifier::external_type_specification]
#[verifier::external_body]
pub struct ExError(garde::Error);

/// Whether the validation crate's email rule accepts `address`: roughly,
/// whether it reads `user@domain` with a user part of the characters that
/// HTML5 allows and a domain that is a host name or a bracketed IP
/// address. The rule is a pair of regular expressions in the crate.
pub uninterp spec fn email_accepted(address: Seq<char>) -> bool;

/// The paths of a report's entries, in the order in which they were
/// entered, each as the crate writes it out. The path of a field of the
/// validated body is the field's name.
pub uninterp spec fn reported_paths(report: garde::Report) -> Seq<Seq<char>>;

/// `garde::rules::length::simple::apply` on a string: the rule is kept if
/// and only if the string takes at least `min` and at most `max` bytes in
/// UTF-8.
#[verifier::external_body]
pub(crate) fn check_length(value: &String, min: usize, max: usize) -> (checked: Result<
    (),
    garde::Error,
>)
    ensures
        checked is Ok <==> min <= encode_utf8(value@).len() <= max,
{
    garde::rules::length::simple::apply(value, (min, max))
}

/// `garde::rules::email::apply` on a string: the rule is kept if and only
/// if the crate's email rule accepts the string, and it accepts no string
/// that is empty or has no `@`.
#[verifier::external_body]
pub(crate) fn check_email(value: &String) -> (checked: Result<(), garde::Error>)
    ensures
        checked is Ok <==> email_accepted(value@),
        checked is Ok ==> value@.len() > 0 && value@.contains('@'),
{
    garde::rules::email::apply(value, ())
}

/// `garde::Report::new`: a report without entries.
#[verifier::external_body]
pub(crate) fn empty_report() -> (report: garde::Report)
    ensures
        reported_paths(report) == Seq::<Seq<char>>::empty(),
{
    garde::Report::new()
}

/// `garde::Report::append` with `garde::Path::new`: enters `error` at the
/// end of the report, under the path that consists of `field` alone.
#[verifier::external_body]
pub(crate) fn enter_violation(report: &mut garde::Report, field: &str, error: garde::Error)
    ensures
        reported_paths(*final(report)) == reported_paths(*old(report)).push(field@),
{
    report.append(garde::Path::new(field), error)
}

/// The length rule with a lower bound alone: the rule is kept if and only
/// if the string takes at least `min` bytes in UTF-8.
pub(crate) fn check_min_length(value: &String, min: usize) -> (checked: Result<(), garde::Error>)
    ensures
        checked is Ok <==> min <= encode_utf8(value@).len(),
{
    let bytes = value.as_str().as_bytes();
    assert(bytes@.len() <= usize::MAX) by {
        assert(vstd::slice::spec_slice_len(bytes) == bytes@.len());
    }
    check_length(value, min, usize::MAX)
}

/// A string takes no bytes in UTF-8 exactly if it has no characters.
pub proof fn lemma_encoding_is_empty_iff_string_is(chars: Seq<char>)
    ensures
        encode_utf8(chars).len() == 0 <==> chars.len() == 0,
{
    reveal_with_fuel(encode_utf8, 2);
}

/// The outcome of checking one rule on one field of a request body.
pub struct FieldCheck {
    pub field: &'static str,
    pub outcome: Result<(), garde::Error>,
}

/// The fields whose checks failed, one entry per failed check, in the
/// order of the checks.
pub open spec fn failed_fields(checks: Seq<FieldCheck>) -> Seq<Seq<char>>
    decreases checks.len(),
{
    if checks.len() == 0 {
        Seq::empty()
    } else if checks.last().outcome is Err {
        failed_fields(checks.drop_last()).push(checks.last().field@)
    } else {
        failed_fields(checks.drop_last())
    }
}

/// Whether every check passed.
pub open spec fn all_passed(checks: Seq<FieldCheck>) -> bool {
    forall|i: int| 0 <= i < checks.len() ==> (#[trigger] checks[i]).outcome is Ok
}

/// No field is reported exactly if every check passed.
pub proof fn lemma_nothing_failed_iff_all_passed(checks: Seq<FieldCheck>)
    ensures
        failed_fields(checks).len() == 0 <==> all_passed(checks),
    decreases checks.len(),
{
    if checks.len() > 0 {
        lemma_nothing_failed_iff_all_passed(checks.drop_last());
        let rest = checks.drop_last();
        if all_passed(checks) {
            assert forall|i: int| 0 <= i < rest.len() implies (#[trigger] rest[i]).outcome is Ok by {
                assert(rest[i] == checks[i]);
            }
        }
        if all_passed(rest) && checks.last().outcome is Ok {
            assert forall|i: int| 0 <= i < checks.len() implies (#[trigger] checks[i]).outcome
                is Ok by {
                if i < checks.len() - 1 {
                    assert(rest[i] == checks[i]);
                }
            }
        }
    }
}

/// Gathers the outcomes of a body's checks: `Ok` if every check passed,
/// else the report of the failed ones, each under its field, in the order
/// of the checks.
pub fn report_of(checks: Vec<FieldCheck>) -> (verdict: Result<(), garde::Report>)
    ensures
        verdict is Ok <==> all_passed(checks@),
        verdict matches Err(report) ==> reported_paths(report) == failed_fields(checks@),
{
    let mut report = empty_report();
    let mut clean = true;
    let ghost all = checks@;
    for check in rest: checks
        invariant
            rest.seq() == all,
            reported_paths(report) == failed_fields(all.take(rest.index() as int)),
            clean <==> failed_fields(all.take(rest.index() as int)).len() == 0,
    {
        assert(all.take(rest.index() + 1).drop_last() == all.take(rest.index() as int));
        let FieldCheck { field, outcome } = check;
        match outcome {
            Err(error) => {
                enter_violation(&mut report, field, error);
                clean = false;
            },
            Ok(()) => {},
        }
    }
    assert(all.take(all.len() as int) == all);
    proof {
        lemma_nothing_failed_iff_all_passed(all);
    }
    if clean {
        Ok(())
    } else {
        Err(report)
    }
}

} // verus!
