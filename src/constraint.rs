//! Field-level constraints, the violations they produce, and the check that
//! evaluates every declared constraint of a request.
use vstd::prelude::*;
use vstd::string::*;

verus! {

/// A rule on the value of one string field.
///
/// Lengths count characters, not bytes.
#[derive(Clone, Copy, Debug, PartialEq, Eq)]
pub enum Rule {
    /// The field is present and non-empty.
    Required,
    /// The field, when present, holds at least this many characters.
    MinLen(u64),
    /// The field, when present, holds at most this many characters.
    MaxLen(u64),
}

/// Whether `rule` holds of a field whose value is `value` (`None`: absent).
pub open spec fn rule_holds(rule: Rule, value: Option<Seq<char>>) -> bool {
    match rule {
        Rule::Required => value is Some && value->0.len() > 0,
        Rule::MinLen(n) => value is None || value->0.len() >= n,
        Rule::MaxLen(n) => value is None || value->0.len() <= n,
    }
}

/// The record of one failed constraint on one field.
#[derive(Clone, Debug, PartialEq, Eq)]
pub struct Violation {
    pub field_path: String,
    pub constraint_id: String,
    pub message: String,
}

/// The mathematical view of a `Violation`.
pub struct ViolationModel {
    pub field_path: Seq<char>,
    pub constraint_id: Seq<char>,
    pub message: Seq<char>,
}

impl View for Violation {
    type V = ViolationModel;

    open spec fn view(&self) -> ViolationModel {
        ViolationModel {
            field_path: self.field_path@,
            constraint_id: self.constraint_id@,
            message: self.message@,
        }
    }
}

/// The views of a list of violations.
pub open spec fn violations_view(v: Seq<Violation>) -> Seq<ViolationModel> {
    v.map_values(|x: Violation| x@)
}

/// A constraint declared on a field of a request type.
#[derive(Clone, Debug)]
pub struct Constraint {
    pub field_path: String,
    pub constraint_id: String,
    pub message: String,
    pub rule: Rule,
}

/// A declared constraint together with the current value of its field.
#[derive(Clone, Debug)]
pub struct FieldCheck {
    pub constraint: Constraint,
    pub value: Option<String>,
}

/// The mathematical view of a `FieldCheck`.
pub struct CheckModel {
    pub field_path: Seq<char>,
    pub constraint_id: Seq<char>,
    pub message: Seq<char>,
    pub rule: Rule,
    pub value: Option<Seq<char>>,
}

/// The view of an optional field value.
pub open spec fn opt_view(v: Option<String>) -> Option<Seq<char>> {
    match v {
        Some(s) => Some(s@),
        None => None,
    }
}

impl View for FieldCheck {
    type V = CheckModel;

    open spec fn view(&self) -> CheckModel {
        CheckModel {
            field_path: self.constraint.field_path@,
            constraint_id: self.constraint.constraint_id@,
            message: self.constraint.message@,
            rule: self.constraint.rule,
            value: opt_view(self.value),
        }
    }
}

/// The views of a list of checks.
pub open spec fn checks_view(c: Seq<FieldCheck>) -> Seq<CheckModel> {
    c.map_values(|x: FieldCheck| x@)
}

impl CheckModel {
    /// The constraint does not hold of the field's value.
    pub open spec fn fails(self) -> bool {
        !rule_holds(self.rule, self.value)
    }

    /// The violation reported when this check fails.
    pub open spec fn violation(self) -> ViolationModel {
        ViolationModel {
            field_path: self.field_path,
            constraint_id: self.constraint_id,
            message: self.message,
        }
    }
}

/// The violations of a list of checks: one per failing check, in the order
/// in which the checks are declared.
pub open spec fn violations_of(checks: Seq<CheckModel>) -> Seq<ViolationModel> {
    checks.filter(|c: CheckModel| c.fails()).map_values(|c: CheckModel| c.violation())
}

/// The number of checks in `checks` that fail.
pub open spec fn failing_count(checks: Seq<CheckModel>) -> nat
    decreases checks.len(),
{
    if checks.len() == 0 {
        0
    } else {
        failing_count(checks.drop_last()) + if checks.last().fails() {
            1nat
        } else {
            0nat
        }
    }
}

/// The result of validation: valid, or invalid with the violations found.
#[derive(Clone, Debug, PartialEq, Eq)]
pub enum ValidationOutcome {
    Valid,
    Invalid(Vec<Violation>),
}

/// The mathematical view of a `ValidationOutcome`.
pub enum OutcomeModel {
    Valid,
    Invalid(Seq<ViolationModel>),
}

impl View for ValidationOutcome {
    type V = OutcomeModel;

    open spec fn view(&self) -> OutcomeModel {
        match self {
            ValidationOutcome::Valid => OutcomeModel::Valid,
            ValidationOutcome::Invalid(v) => OutcomeModel::Invalid(violations_view(v@)),
        }
    }
}

/// The outcome for a list of checks: `Valid` when none fails, otherwise
/// `Invalid` with every violation.
pub open spec fn outcome_of(checks: Seq<CheckModel>) -> OutcomeModel {
    let v = violations_of(checks);
    if v.len() == 0 {
        OutcomeModel::Valid
    } else {
        OutcomeModel::Invalid(v)
    }
}

/// A request type that declares constraints on its fields.
pub trait Constrained {
    /// The declared constraints, each with the current value of its field.
    spec fn spec_checks(&self) -> Seq<CheckModel>;

    fn checks(&self) -> (r: Vec<FieldCheck>)
        ensures
            checks_view(r@) == self.spec_checks(),
    ;
}

/// Whether `rule` holds of `value`.
pub fn check_rule(rule: Rule, value: &Option<String>) -> (r: bool)
    ensures
        r == rule_holds(rule, opt_view(*value)),
{
    match value {
        None => match rule {
            Rule::Required => false,
            _ => true,
        },
        Some(s) => {
            let n = s.as_str().unicode_len();
            match rule {
                Rule::Required => n > 0,
                Rule::MinLen(m) => n as u64 >= m,
                Rule::MaxLen(m) => n as u64 <= m,
            }
        },
    }
}

proof fn lemma_filter_step(cs: Seq<CheckModel>, i: int)
    requires
        0 <= i < cs.len(),
    ensures
        cs.take(i + 1).filter(|c: CheckModel| c.fails()) == if cs[i].fails() {
            cs.take(i).filter(|c: CheckModel| c.fails()).push(cs[i])
        } else {
            cs.take(i).filter(|c: CheckModel| c.fails())
        },
{
    reveal(Seq::filter);
    assert(cs.take(i + 1).drop_last() =~= cs.take(i));
}

/// Completeness: validation reports exactly one violation for each failing
/// constraint, so a request that breaks `K` constraints gets `K` violations,
/// and the violation of every failing constraint is among them.
pub proof fn lemma_reports_every_failure(checks: Seq<CheckModel>)
    ensures
        violations_of(checks).len() == failing_count(checks),
        forall|i: int|
            0 <= i < checks.len() && #[trigger] checks[i].fails() ==> violations_of(
                checks,
            ).contains(checks[i].violation()),
    decreases checks.len(),
{
    let pred = |c: CheckModel| c.fails();
    reveal(Seq::filter);
    if checks.len() > 0 {
        lemma_reports_every_failure(checks.drop_last());
    }
    checks.lemma_filter_len(pred);
    assert forall|i: int| 0 <= i < checks.len() && #[trigger] checks[i].fails() implies violations_of(
        checks,
    ).contains(checks[i].violation()) by {
        checks.lemma_filter_contains(pred, i);
        let f = checks.filter(pred);
        let j = choose|j: int| 0 <= j < f.len() && f[j] == checks[i];
        assert(violations_of(checks)[j] == checks[i].violation());
    }
}

/// The outcome is `Valid` exactly when no declared constraint fails.
pub proof fn lemma_valid_iff_no_failure(checks: Seq<CheckModel>)
    ensures
        outcome_of(checks) is Valid <==> failing_count(checks) == 0,
        outcome_of(checks) is Valid <==> forall|i: int|
            0 <= i < checks.len() ==> !(#[trigger] checks[i].fails()),
{
    lemma_reports_every_failure(checks);
    if outcome_of(checks) is Valid {
        assert forall|i: int| 0 <= i < checks.len() implies !(#[trigger] checks[i].fails()) by {
            if checks[i].fails() {
                assert(violations_of(checks).contains(checks[i].violation()));
            }
        }
    } else {
        let pred = |c: CheckModel| c.fails();
        let f = checks.filter(pred);
        assert(f.len() > 0);
        checks.lemma_filter_pred(pred, 0);
        assert(checks.contains(f[0])) by {
            reveal(Seq::filter);
            checks.lemma_filter_contains_rev(pred, f[0]);
        }
    }
}

/// Purity: two requests whose declared constraints and field values agree
/// get the same validation outcome.
pub proof fn lemma_same_request_same_outcome<T: Constrained>(a: &T, b: &T)
    requires
        a.spec_checks() == b.spec_checks(),
    ensures
        outcome_of(a.spec_checks()) == outcome_of(b.spec_checks()),
{
}

/// A request type that declares no constraint always yields `Valid`.
pub proof fn lemma_no_constraint_is_valid<T: Constrained>(req: &T)
    requires
        req.spec_checks().len() == 0,
    ensures
        outcome_of(req.spec_checks()) == OutcomeModel::Valid,
{
    lemma_reports_every_failure(req.spec_checks());
}

/// Evaluates every constraint of `checks` and collects one violation per
/// failing constraint, in declaration order.
pub fn collect_violations(checks: &Vec<FieldCheck>) -> (r: Vec<Violation>)
    ensures
        violations_view(r@) == violations_of(checks_view(checks@)),
{
    let ghost cs = checks_view(checks@);
    let mut out: Vec<Violation> = Vec::new();
    let mut i: usize = 0;
    while i < checks.len()
        invariant
            i <= checks.len(),
            cs == checks_view(checks@),
            violations_view(out@) == violations_of(cs.take(i as int)),
        decreases checks.len() - i,
    {
        let c = &checks[i];
        proof {
            lemma_filter_step(cs, i as int);
            assert(cs[i as int] == c@);
        }
        if !check_rule(c.constraint.rule, &c.value) {
            let v = Violation {
                field_path: c.constraint.field_path.clone(),
                constraint_id: c.constraint.constraint_id.clone(),
                message: c.constraint.message.clone(),
            };
            assert(v@ == cs[i as int].violation());
            let ghost before = out@;
            out.push(v);
            assert(out@ == before.push(v));
            assert(violations_view(out@) =~= violations_view(before).push(v@));
            assert(violations_view(out@) =~= violations_of(cs.take(i as int + 1)));
        } else {
            assert(violations_view(out@) =~= violations_of(cs.take(i as int + 1)));
        }
        i = i + 1;
    }
    assert(cs.take(checks.len() as int) =~= cs);
    out
}

/// Validates a request: `Valid` when every declared constraint of `req`
/// holds, otherwise `Invalid` with one violation per failing constraint.
pub fn validation_outcome<T: Constrained>(req: &T) -> (r: ValidationOutcome)
    ensures
        r@ == outcome_of(req.spec_checks()),
{
    let checks = req.checks();
    let v = collect_violations(&checks);
    if v.len() == 0 {
        ValidationOutcome::Valid
    } else {
        ValidationOutcome::Invalid(v)
    }
}

} // verus!
