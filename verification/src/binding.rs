//! Binding inference: whether an option takes no value, a required value or
//! an optional one, from the analyses of its probes.

use crate::help::ValueForm;
use crate::schema::{BindingKind, ValidationStatus};
use crate::signals::{AnalysisView, AttemptAnalysis};
use vstd::prelude::*;

verus! {

/// What is concluded of a binding: status, kind where confirmed, and reason.
pub ghost struct BindingVerdict {
    pub status: ValidationStatus,
    pub kind: Option<BindingKind>,
    pub reason: Seq<char>,
}

pub open spec fn undetermined(reason: Seq<char>) -> BindingVerdict {
    BindingVerdict { status: ValidationStatus::Undetermined, kind: None, reason }
}

pub open spec fn confirmed(kind: BindingKind, reason: Seq<char>) -> BindingVerdict {
    BindingVerdict { status: ValidationStatus::Confirmed, kind: Some(kind), reason }
}

/// Both probes exited with 0 and neither shows an argument error.
pub open spec fn is_quiet(missing: AnalysisView, invalid: AnalysisView) -> bool {
    missing.exit_code == Some(0i32) && invalid.exit_code == Some(0i32) && !missing.argument_error
        && !invalid.argument_error
}

/// The verdict on the binding of an option whose existence is confirmed.
/// `missing` is the analysis of the existence probe, `invalid` that of the
/// invalid-value probe, `end` that of the option-at-end probe if it ran. The
/// first rule that applies decides.
pub open spec fn binding_rules(
    missing: AnalysisView,
    invalid: AnalysisView,
    end: Option<AnalysisView>,
    form: Option<ValueForm>,
) -> BindingVerdict {
    if missing.unrecognized || invalid.unrecognized {
        undetermined("unrecognized option response"@)
    } else if missing.ambiguous || invalid.ambiguous {
        undetermined("ambiguous option response"@)
    } else if missing.missing_arg {
        confirmed(BindingKind::Required, "missing argument response observed"@)
    } else if missing.invalid_arg {
        confirmed(
            BindingKind::Required,
            "invalid argument response observed for missing probe"@,
        )
    } else if invalid.arg_not_allowed {
        confirmed(BindingKind::NoValue, "argument not allowed response observed"@)
    } else if invalid.invalid_arg {
        if !missing.help_like && invalid.help_like {
            confirmed(
                BindingKind::Required,
                "missing probe likely consumed --help; invalid argument observed"@,
            )
        } else {
            confirmed(BindingKind::Optional, "invalid argument response observed"@)
        }
    } else if is_quiet(missing, invalid) {
        if form == Some(ValueForm::Attached) {
            confirmed(BindingKind::Optional, "no argument errors detected with attached value"@)
        } else {
            undetermined("no argument errors detected with trailing value"@)
        }
    } else if end is Some && end->0.missing_arg && end->0.exit_code != Some(0i32) {
        confirmed(
            BindingKind::Required,
            "missing argument response observed (option at end probe)"@,
        )
    } else {
        undetermined("insufficient binding evidence"@)
    }
}

pub open spec fn verdict_of(r: (ValidationStatus, Option<BindingKind>, Option<String>)) -> BindingVerdict
    recommends
        r.2 is Some,
{
    BindingVerdict { status: r.0, kind: r.1, reason: r.2->0@ }
}

fn exited_zero(code: Option<i32>) -> (b: bool)
    ensures
        b == (code == Some(0i32)),
{
    match code {
        Some(c) => c == 0,
        None => false,
    }
}

/// Infers the binding of an option from the analyses of its probes.
pub fn infer_binding(
    missing: &AttemptAnalysis,
    invalid: &AttemptAnalysis,
    end: Option<&AttemptAnalysis>,
    form_hint: Option<ValueForm>,
) -> (r: (ValidationStatus, Option<BindingKind>, Option<String>))
    ensures
        r.2 is Some,
        verdict_of(r) == binding_rules(
            missing@,
            invalid@,
            match end {
                Some(e) => Some(e@),
                None => None,
            },
            form_hint,
        ),
{
    if missing.unrecognized || invalid.unrecognized {
        return (
            ValidationStatus::Undetermined,
            None,
            Some("unrecognized option response".to_owned()),
        );
    }
    if missing.ambiguous || invalid.ambiguous {
        return (ValidationStatus::Undetermined, None, Some("ambiguous option response".to_owned()));
    }
    if missing.missing_arg {
        return (
            ValidationStatus::Confirmed,
            Some(BindingKind::Required),
            Some("missing argument response observed".to_owned()),
        );
    }
    if missing.invalid_arg {
        return (
            ValidationStatus::Confirmed,
            Some(BindingKind::Required),
            Some("invalid argument response observed for missing probe".to_owned()),
        );
    }
    if invalid.arg_not_allowed {
        return (
            ValidationStatus::Confirmed,
            Some(BindingKind::NoValue),
            Some("argument not allowed response observed".to_owned()),
        );
    }
    if invalid.invalid_arg {
        if !missing.help_like && invalid.help_like {
            return (
                ValidationStatus::Confirmed,
                Some(BindingKind::Required),
                Some("missing probe likely consumed --help; invalid argument observed".to_owned()),
            );
        }
        return (
            ValidationStatus::Confirmed,
            Some(BindingKind::Optional),
            Some("invalid argument response observed".to_owned()),
        );
    }
    if exited_zero(missing.exit_code) && exited_zero(invalid.exit_code) && !missing.argument_error
        && !invalid.argument_error {
        let attached = match form_hint {
            Some(ValueForm::Attached) => true,
            _ => false,
        };
        if attached {
            return (
                ValidationStatus::Confirmed,
                Some(BindingKind::Optional),
                Some("no argument errors detected with attached value".to_owned()),
            );
        }
        return (
            ValidationStatus::Undetermined,
            None,
            Some("no argument errors detected with trailing value".to_owned()),
        );
    }
    if let Some(e) = end {
        if e.missing_arg && !exited_zero(e.exit_code) {
            return (
                ValidationStatus::Confirmed,
                Some(BindingKind::Required),
                Some("missing argument response observed (option at end probe)".to_owned()),
            );
        }
    }
    (ValidationStatus::Undetermined, None, Some("insufficient binding evidence".to_owned()))
}

/// A kind is named exactly when the binding is confirmed, and a binding is
/// never refuted.
pub proof fn lemma_kind_iff_confirmed(
    missing: AnalysisView,
    invalid: AnalysisView,
    end: Option<AnalysisView>,
    form: Option<ValueForm>,
)
    ensures
        binding_rules(missing, invalid, end, form).kind is Some <==> binding_rules(
            missing,
            invalid,
            end,
            form,
        ).status == ValidationStatus::Confirmed,
        binding_rules(missing, invalid, end, form).status != ValidationStatus::Refuted,
{
}

/// What a binding claim expects of its option.
#[derive(Debug, Clone, Copy, PartialEq, Eq, Structural)]
pub enum BindingExpectation {
    Required,
    Optional,
}

/// The verdict on a claimed binding: status and reason.
pub open spec fn claim_rules(
    expectation: BindingExpectation,
    missing: AnalysisView,
    with_arg: AnalysisView,
) -> (ValidationStatus, Option<Seq<char>>) {
    let ambiguous_note = if missing.ambiguous || with_arg.ambiguous {
        Some("ambiguous option response"@)
    } else {
        None
    };
    if missing.unrecognized || with_arg.unrecognized {
        (ValidationStatus::Refuted, Some("unrecognized option response"@))
    } else if missing.missing_arg {
        (
            if expectation == BindingExpectation::Required {
                ValidationStatus::Confirmed
            } else {
                ValidationStatus::Refuted
            },
            Some("missing argument response observed"@),
        )
    } else if with_arg.arg_not_allowed {
        (ValidationStatus::Refuted, Some("argument not allowed response observed"@))
    } else if expectation == BindingExpectation::Required {
        (ValidationStatus::Undetermined, ambiguous_note)
    } else if with_arg.invalid_arg {
        (ValidationStatus::Confirmed, Some("argument accepted with invalid value"@))
    } else if missing.exit_code == Some(0i32) && with_arg.exit_code == Some(0i32) {
        (ValidationStatus::Confirmed, Some("no argument errors detected"@))
    } else {
        (ValidationStatus::Undetermined, ambiguous_note)
    }
}

/// Holds a claimed binding against the analyses of its two probes.
pub fn classify_binding_attempts(
    expectation: BindingExpectation,
    missing: &AttemptAnalysis,
    with_arg: &AttemptAnalysis,
) -> (r: (ValidationStatus, Option<String>))
    ensures
        (r.0, crate::schema::text_view(r.1)) == claim_rules(expectation, missing@, with_arg@),
{
    if missing.unrecognized || with_arg.unrecognized {
        return (ValidationStatus::Refuted, Some("unrecognized option response".to_owned()));
    }
    let ambiguous_note = if missing.ambiguous || with_arg.ambiguous {
        Some("ambiguous option response".to_owned())
    } else {
        None
    };
    match expectation {
        BindingExpectation::Required => {
            if missing.missing_arg {
                (
                    ValidationStatus::Confirmed,
                    Some("missing argument response observed".to_owned()),
                )
            } else if with_arg.arg_not_allowed {
                (
                    ValidationStatus::Refuted,
                    Some("argument not allowed response observed".to_owned()),
                )
            } else {
                (ValidationStatus::Undetermined, ambiguous_note)
            }
        },
        BindingExpectation::Optional => {
            if missing.missing_arg {
                (ValidationStatus::Refuted, Some("missing argument response observed".to_owned()))
            } else if with_arg.arg_not_allowed {
                (
                    ValidationStatus::Refuted,
                    Some("argument not allowed response observed".to_owned()),
                )
            } else if with_arg.invalid_arg {
                (
                    ValidationStatus::Confirmed,
                    Some("argument accepted with invalid value".to_owned()),
                )
            } else if exited_zero(missing.exit_code) && exited_zero(with_arg.exit_code) {
                (ValidationStatus::Confirmed, Some("no argument errors detected".to_owned()))
            } else {
                (ValidationStatus::Undetermined, ambiguous_note)
            }
        },
    }
}

} // verus!
