//! Appraisal of attestation results by policy.
//!
//! A policy is a Rego module. It is evaluated with the claims of an
//! attestation result as its input and the known-good reference values as its
//! data, and one of its rules gives the verdict. Which policy and which rule
//! apply follows from the media type of the evidence, by a fixed table.

use crate::encoding::same_text;
use crate::error::Error;
use regorus::Engine;
use vstd::prelude::*;

verus! {

/// The media type of Arm CCA evidence.
pub const ARM_CCA_MEDIA_TYPE: &'static str =
    "application/eat-collection; profile=\"http://arm.com/CCA-SSD/1.0.0\"";

/// The rule of [`ARM_CCA_POLICY`] that gives the verdict.
pub const ARM_CCA_RULE: &'static str = "data.arm_cca.allow";

/// The policy for Arm CCA evidence.
///
/// The platform must have been appraised as affirming. The realm comes as a
/// warning, since the verifier knows the platform but not what runs in the
/// realm: its identity must be recognised, and its initial measurement must be
/// one of the reference values.
pub const ARM_CCA_POLICY: &'static str = "package arm_cca

default allow := false

allow if {
    platform := input.submods.CCA_SSD_PLATFORM
    platform[\"ear.status\"] == \"affirming\"

    realm := input.submods.CCA_REALM
    realm[\"ear.status\"] == \"warning\"
    realm[\"ear.trustworthiness-vector\"][\"instance-identity\"] == 2

    measurement := realm[\"ear.veraison.annotated-evidence\"][\"cca-realm-initial-measurement\"]
    measurement in data[\"reference-values\"]
}
";

/// The name under which a policy is handed to the engine.
pub const POLICY_FILE_NAME: &'static str = "policy.rego";

/// The one text of a rule's result that counts as a positive verdict.
pub const POSITIVE_RESULT: &'static str = "true";

/// One row of the table of policies: a media type, and the policy and the
/// rule under which evidence of that type is appraised.
#[derive(Debug, Clone, Copy)]
pub struct PolicyBinding {
    pub media_type: &'static str,
    pub policy: &'static str,
    pub rule: &'static str,
}

/// What a [`PolicyBinding`] holds.
pub struct PolicyBindingView {
    pub media_type: Seq<char>,
    pub policy: Seq<char>,
    pub rule: Seq<char>,
}

impl View for PolicyBinding {
    type V = PolicyBindingView;

    open spec fn view(&self) -> PolicyBindingView {
        PolicyBindingView { media_type: self.media_type@, policy: self.policy@, rule: self.rule@ }
    }
}

/// The table of policies.
pub open spec fn policy_table() -> Seq<PolicyBindingView> {
    seq![
        PolicyBindingView {
            media_type: ARM_CCA_MEDIA_TYPE@,
            policy: ARM_CCA_POLICY@,
            rule: ARM_CCA_RULE@,
        },
    ]
}

/// The first row of `table` for `media_type`, if there is one.
pub open spec fn binding_in(table: Seq<PolicyBindingView>, media_type: Seq<char>) -> Option<
    PolicyBindingView,
>
    decreases table.len(),
{
    if table.len() == 0 {
        None
    } else if table[0].media_type == media_type {
        Some(table[0])
    } else {
        binding_in(table.drop_first(), media_type)
    }
}

/// The policy and the rule bound to `media_type`, if any are.
pub open spec fn binding_for(media_type: Seq<char>) -> Option<PolicyBindingView> {
    binding_in(policy_table(), media_type)
}

/// The table binds the media type of Arm CCA evidence, to the Arm CCA policy
/// and its rule, and no other media type.
pub proof fn lemma_bound_media_types(media_type: Seq<char>)
    ensures
        media_type != ARM_CCA_MEDIA_TYPE@ ==> binding_for(media_type) is None,
        media_type == ARM_CCA_MEDIA_TYPE@ ==> binding_for(media_type) == Some(
            PolicyBindingView {
                media_type: ARM_CCA_MEDIA_TYPE@,
                policy: ARM_CCA_POLICY@,
                rule: ARM_CCA_RULE@,
            },
        ),
{
    reveal_with_fuel(binding_in, 2);
}

/// Whether the JSON text of a rule's value is a positive verdict. Only the
/// text `true` is one.
pub open spec fn is_positive(result: Seq<char>) -> bool {
    result == POSITIVE_RESULT@
}

/// The table of policies, as data.
pub fn mediatypes_to_policy() -> (table: Vec<PolicyBinding>)
    ensures
        table@.map_values(|row: PolicyBinding| row@) == policy_table(),
{
    let table = vec![
        PolicyBinding { media_type: ARM_CCA_MEDIA_TYPE, policy: ARM_CCA_POLICY, rule: ARM_CCA_RULE },
    ];
    assert(table@.map_values(|row: PolicyBinding| row@) =~= policy_table());
    table
}

/// The policy and the rule under which evidence of the given media type is
/// appraised.
pub fn policy_for(media_type: &str) -> (found: Option<PolicyBinding>)
    ensures
        match binding_for(media_type@) {
            Some(row) => found matches Some(binding) && binding@ == row,
            None => found is None,
        },
{
    let table = mediatypes_to_policy();
    let ghost rows = table@.map_values(|row: PolicyBinding| row@);
    assert(rows.subrange(0, rows.len() as int) =~= rows);
    let mut i: usize = 0;
    while i < table.len()
        invariant
            i <= table.len(),
            rows == table@.map_values(|row: PolicyBinding| row@),
            binding_for(media_type@) == binding_in(
                rows.subrange(i as int, rows.len() as int),
                media_type@,
            ),
        decreases table.len() - i,
    {
        let ghost rest = rows.subrange(i as int, rows.len() as int);
        assert(rest[0] == rows[i as int]);
        assert(rest.drop_first() =~= rows.subrange(i + 1, rows.len() as int));
        if same_text(table[i].media_type, media_type) {
            return Some(table[i]);
        }
        i += 1;
    }
    None
}

/// The policy engine of the `regorus` crate.
#[verifier::external_type_specification]
#[verifier::external_body]
pub struct ExEngine(Engine);

/// Whether an engine reads the policies that are added to it in the
/// `rego.v1` dialect.
pub uninterp spec fn engine_rego_v1(engine: Engine) -> bool;

/// Whether an engine has builtins that fail raise errors, rather than give
/// no value.
pub uninterp spec fn engine_strict(engine: Engine) -> bool;

/// The policies that an engine holds, in the order in which they were added:
/// of each the file name and the text.
pub uninterp spec fn engine_policies(engine: Engine) -> Seq<(Seq<char>, Seq<char>)>;

/// The JSON documents that have been merged into an engine's data, in the
/// order in which they were added.
pub uninterp spec fn engine_data(engine: Engine) -> Seq<Seq<char>>;

/// The JSON document that is an engine's input, if one has been set.
pub uninterp spec fn engine_input(engine: Engine) -> Option<Seq<char>>;

/// Whether `Engine::add_policy` takes a policy text under a file name, on an
/// engine that reads policies in the `rego.v1` dialect or does not: whether
/// the text is a Rego module that the engine's parser accepts.
pub uninterp spec fn policy_accepted(rego_v1: bool, file_name: Seq<char>, rego: Seq<char>) -> bool;

/// Whether `Engine::add_data_json` takes a text on an engine that has no data
/// yet: whether the text is a JSON document and the document is an object.
pub uninterp spec fn data_accepted(data_json: Seq<char>) -> bool;

/// Whether `Engine::set_input_json` takes a text: whether the text is a JSON
/// document.
pub uninterp spec fn input_accepted(input_json: Seq<char>) -> bool;

/// A fresh engine, by `Engine::new`. It reads policies in the older dialect,
/// has failing builtins raise errors, and holds no policy, no data and no
/// input.
#[verifier::external_body]
fn engine_new() -> (engine: Engine)
    ensures
        !engine_rego_v1(engine),
        engine_strict(engine),
        engine_policies(engine) == Seq::<(Seq<char>, Seq<char>)>::empty(),
        engine_data(engine) == Seq::<Seq<char>>::empty(),
        engine_input(engine) is None,
{
    Engine::new()
}

/// Turns the `rego.v1` dialect on or off for policies added from now on, by
/// `Engine::set_rego_v1`. Nothing else of the engine changes.
#[verifier::external_body]
fn engine_set_rego_v1(engine: &mut Engine, rego_v1: bool)
    ensures
        engine_rego_v1(*final(engine)) == rego_v1,
        engine_strict(*final(engine)) == engine_strict(*old(engine)),
        engine_policies(*final(engine)) == engine_policies(*old(engine)),
        engine_data(*final(engine)) == engine_data(*old(engine)),
        engine_input(*final(engine)) == engine_input(*old(engine)),
{
    engine.set_rego_v1(rego_v1);
}

/// Sets whether builtins that fail raise errors or give no value, by
/// `Engine::set_strict_builtin_errors`. Nothing else of the engine changes.
#[verifier::external_body]
fn engine_set_strict_builtin_errors(engine: &mut Engine, strict: bool)
    ensures
        engine_strict(*final(engine)) == strict,
        engine_rego_v1(*final(engine)) == engine_rego_v1(*old(engine)),
        engine_policies(*final(engine)) == engine_policies(*old(engine)),
        engine_data(*final(engine)) == engine_data(*old(engine)),
        engine_input(*final(engine)) == engine_input(*old(engine)),
{
    engine.set_strict_builtin_errors(strict);
}

/// Parses a policy and adds it to the engine under a file name, by
/// `Engine::add_policy`. The policy is taken exactly where
/// [`policy_accepted`] holds of it in the engine's dialect; it then comes
/// after the policies that the engine held, and nothing else of the engine
/// changes. A refusal is handed on as the text of the engine's complaint.
#[verifier::external_body]
fn engine_add_policy(engine: &mut Engine, file_name: &str, rego: &str) -> (added: Result<
    (),
    String,
>)
    ensures
        added is Ok <==> policy_accepted(engine_rego_v1(*old(engine)), file_name@, rego@),
        added is Ok ==> engine_policies(*final(engine)) == engine_policies(*old(engine)).push(
            (file_name@, rego@),
        ),
        added is Ok ==> engine_rego_v1(*final(engine)) == engine_rego_v1(*old(engine)),
        added is Ok ==> engine_strict(*final(engine)) == engine_strict(*old(engine)),
        added is Ok ==> engine_data(*final(engine)) == engine_data(*old(engine)),
        added is Ok ==> engine_input(*final(engine)) == engine_input(*old(engine)),
{
    engine.add_policy(file_name.to_string(), rego.to_string()).map(|_package| ()).map_err(
        |e| e.to_string(),
    )
}

/// Parses a JSON document and merges it into the engine's data, by
/// `Engine::add_data_json`. On an engine without data the document is taken
/// exactly where [`data_accepted`] holds of it. A document that is taken
/// comes after those that the engine held, and nothing else of the engine
/// changes. A refusal is handed on as the text of the engine's complaint.
#[verifier::external_body]
fn engine_add_data_json(engine: &mut Engine, data_json: &str) -> (added: Result<(), String>)
    ensures
        engine_data(*old(engine)).len() == 0 ==> (added is Ok <==> data_accepted(data_json@)),
        added is Ok ==> engine_data(*final(engine)) == engine_data(*old(engine)).push(data_json@),
        added is Ok ==> engine_rego_v1(*final(engine)) == engine_rego_v1(*old(engine)),
        added is Ok ==> engine_strict(*final(engine)) == engine_strict(*old(engine)),
        added is Ok ==> engine_policies(*final(engine)) == engine_policies(*old(engine)),
        added is Ok ==> engine_input(*final(engine)) == engine_input(*old(engine)),
{
    engine.add_data_json(data_json).map_err(|e| e.to_string())
}

/// Parses a JSON document and makes it the engine's input, by
/// `Engine::set_input_json`. The document is taken exactly where
/// [`input_accepted`] holds of it, and is then the input in place of any
/// earlier one; nothing else of the engine changes. A refusal is handed on as
/// the text of the engine's complaint.
#[verifier::external_body]
fn engine_set_input_json(engine: &mut Engine, input_json: &str) -> (set: Result<(), String>)
    ensures
        set is Ok <==> input_accepted(input_json@),
        set is Ok ==> engine_input(*final(engine)) == Some(input_json@),
        set is Ok ==> engine_rego_v1(*final(engine)) == engine_rego_v1(*old(engine)),
        set is Ok ==> engine_strict(*final(engine)) == engine_strict(*old(engine)),
        set is Ok ==> engine_policies(*final(engine)) == engine_policies(*old(engine)),
        set is Ok ==> engine_data(*final(engine)) == engine_data(*old(engine)),
{
    engine.set_input_json(input_json).map_err(|e| e.to_string())
}

/// Evaluates the rule at the given path, by `Engine::eval_rule`, and gives
/// its value as the JSON text in which the value displays itself. What the
/// value is rests with the policy, which may consult more than its input and
/// data; nothing is claimed of it.
#[verifier::external_body]
fn engine_eval_rule(engine: &mut Engine, rule: &str) -> Result<String, String> {
    engine.eval_rule(rule.to_string()).map(|value| value.to_string()).map_err(|e| e.to_string())
}

/// Whether an engine can be made ready for a policy, reference values and
/// claims: the policy is a Rego module in the `rego.v1` dialect, the
/// reference values are a JSON object, and the claims are a JSON document.
pub open spec fn preparable(
    policy: Seq<char>,
    reference_values: Seq<char>,
    ear_claims: Seq<char>,
) -> bool {
    &&& policy_accepted(true, POLICY_FILE_NAME@, policy)
    &&& data_accepted(reference_values)
    &&& input_accepted(ear_claims)
}

/// Whether an engine is ready to evaluate a policy on claims, against
/// reference values.
///
/// It reads policies in the `rego.v1` dialect and has failing builtins give
/// no value. The policy is the one policy it holds, under the name
/// [`POLICY_FILE_NAME`]; the reference values are all of its data; the claims
/// are its input.
pub open spec fn prepared(
    engine: Engine,
    policy: Seq<char>,
    reference_values: Seq<char>,
    ear_claims: Seq<char>,
) -> bool {
    &&& engine_rego_v1(engine)
    &&& !engine_strict(engine)
    &&& engine_policies(engine) == seq![(POLICY_FILE_NAME@, policy)]
    &&& engine_data(engine) == seq![reference_values]
    &&& engine_input(engine) == Some(ear_claims)
}

/// An engine that is ready to evaluate `policy` on `ear_claims`, against
/// `reference_values`.
///
/// There is one exactly where the three can be taken; where one of them
/// cannot, the first that cannot gives the policy error: the policy before
/// the reference values, and these before the claims.
pub fn prepared_engine(policy: &str, reference_values: &str, ear_claims: &str) -> (made: Result<
    Engine,
    Error,
>)
    ensures
        match made {
            Ok(engine) => preparable(policy@, reference_values@, ear_claims@) && prepared(
                engine,
                policy@,
                reference_values@,
                ear_claims@,
            ),
            Err(e) => !preparable(policy@, reference_values@, ear_claims@) && e is Policy,
        },
{
    let mut engine = engine_new();
    engine_set_rego_v1(&mut engine, true);
    engine_set_strict_builtin_errors(&mut engine, false);
    match engine_add_policy(&mut engine, POLICY_FILE_NAME, policy) {
        Err(complaint) => {
            return Err(Error::Policy(complaint));
        },
        Ok(()) => {},
    }
    match engine_add_data_json(&mut engine, reference_values) {
        Err(complaint) => {
            return Err(Error::Policy(complaint));
        },
        Ok(()) => {},
    }
    match engine_set_input_json(&mut engine, ear_claims) {
        Err(complaint) => {
            return Err(Error::Policy(complaint));
        },
        Ok(()) => {},
    }
    assert(engine_policies(engine) =~= seq![(POLICY_FILE_NAME@, policy@)]);
    assert(engine_data(engine) =~= seq![reference_values@]);
    Ok(engine)
}

/// Evaluates a rule on an engine, and gives the rule's value as JSON text.
///
/// What the value is rests with the engine and with what it holds. A rule
/// that is not there, or that cannot be evaluated, gives a policy error.
pub fn evaluate_rule(engine: Engine, policy_rule: &str) -> (result: Result<String, Error>)
    ensures
        result matches Err(e) ==> e is Policy,
{
    let mut engine = engine;
    match engine_eval_rule(&mut engine, policy_rule) {
        Err(complaint) => Err(Error::Policy(complaint)),
        Ok(result) => Ok(result),
    }
}

/// Whether `result` is what evaluating a rule of a policy on claims, against
/// reference values, may give.
///
/// A policy that is no Rego module, reference values that are no JSON
/// object, and claims that are no JSON document each end the evaluation in a
/// policy error: there is no result without all three. With all three the
/// result is what [`evaluate_rule`] gives for the rule on an engine that is
/// ready for them, and a failure is a policy error.
pub open spec fn evaluated(
    policy: &str,
    policy_rule: &str,
    reference_values: &str,
    ear_claims: &str,
    result: Result<String, Error>,
) -> bool {
    &&& result matches Err(e) ==> e is Policy
    &&& if preparable(policy@, reference_values@, ear_claims@) {
        exists|engine: Engine|
            {
                &&& prepared(engine, policy@, reference_values@, ear_claims@)
                &&& #[trigger] call_ensures(evaluate_rule, (engine, policy_rule), result)
            }
    } else {
        result is Err
    }
}

/// Evaluates a rule of a policy on the claims of an attestation result, with
/// the known-good reference values as the policy's data, and gives the rule's
/// result as JSON text.
///
/// The policy is read in the `rego.v1` dialect, and builtins that fail give no
/// value in place of an error. `reference_values` and `ear_claims` are JSON
/// documents, and `policy_rule` is the path of the rule, such as
/// `data.arm_cca.allow`. Whatever goes wrong on the way, a policy or a
/// document that does not parse or a rule that is not there, comes back as a
/// policy error.
pub fn rego_eval(policy: &str, policy_rule: &str, reference_values: &str, ear_claims: &str) -> (result:
    Result<String, Error>)
    ensures
        evaluated(policy, policy_rule, reference_values, ear_claims, result),
{
    match prepared_engine(policy, reference_values, ear_claims) {
        Err(e) => Err(e),
        Ok(engine) => evaluate_rule(engine, policy_rule),
    }
}

/// What a finished evaluation says of the evidence: a rule's result is a
/// positive verdict where its text is `true`, and a negative one otherwise; a
/// failed evaluation stays a failure.
pub fn verdict_of(evaluated: Result<String, Error>) -> (outcome: Result<bool, Error>)
    ensures
        match evaluated {
            Ok(result) => outcome == Ok::<bool, Error>(is_positive(result@)),
            Err(e) => outcome == Err::<bool, Error>(e),
        },
{
    match evaluated {
        Ok(result) => Ok(verdict(result.as_str())),
        Err(e) => Err(e),
    }
}

/// Whether the result of the verdict rule, in text, is a positive verdict.
pub fn verdict(result: &str) -> (verified: bool)
    ensures
        verified == is_positive(result@),
{
    same_text(result, POSITIVE_RESULT)
}

} // verus!
