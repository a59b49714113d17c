//! Credential-field classification and the fill plan of the
//! authentication resolver.
//!
//! A login form's inputs are classified by their `name` attribute against a
//! fixed table; exactly the inputs recognized as the userid and the password
//! fields receive injected credential text, every other input (including one
//! with no `name` attribute) is left untouched.

use vstd::prelude::*;

verus! {

/// Static credential configuration handed to the authentication resolver.
#[derive(Clone)]
pub struct Credentials {
    pub userid: String,
    pub password: String,
}

/// Logical role of a login-form input, derived from its `name` attribute.
#[derive(Clone, Copy, Debug, PartialEq, Eq, Structural)]
pub enum CredentialField {
    UserId,
    Password,
    Remember,
    Unknown,
}

/// The classification table on a present `name` attribute.
pub open spec fn role_of_name(n: Seq<char>) -> CredentialField {
    if n == "login-userid"@ {
        CredentialField::UserId
    } else if n == "login-password"@ {
        CredentialField::Password
    } else if n == "remember"@ {
        CredentialField::Remember
    } else {
        CredentialField::Unknown
    }
}

/// The classification table; a missing `name` attribute is `Unknown`.
pub open spec fn role_of(name: Option<String>) -> CredentialField {
    match name {
        Some(n) => role_of_name(n@),
        None => CredentialField::Unknown,
    }
}

/// Classify one input by its `name` attribute.
pub fn classify_field(name: &Option<String>) -> (r: CredentialField)
    ensures
        r == role_of(*name),
{
    match name {
        Some(n) => {
            if n.eq(&String::from_str("login-userid")) {
                CredentialField::UserId
            } else if n.eq(&String::from_str("login-password")) {
                CredentialField::Password
            } else if n.eq(&String::from_str("remember")) {
                CredentialField::Remember
            } else {
                CredentialField::Unknown
            }
        },
        None => CredentialField::Unknown,
    }
}

/// One planned injection: send `text` to the input at position `index` of
/// the form's input list.
#[derive(Clone, Debug, PartialEq, Eq)]
pub struct FieldFill {
    pub index: usize,
    pub text: String,
}

/// What the plan holds for the single input at position `i`: the stored
/// userid or password for the two recognized credential fields, nothing for
/// any other input.
pub open spec fn fill_at(names: Seq<Option<String>>, creds: Credentials, i: int) -> Seq<
    FieldFill,
> {
    match role_of(names[i]) {
        CredentialField::UserId => seq![
            FieldFill { index: i as usize, text: creds.userid },
        ],
        CredentialField::Password => seq![
            FieldFill { index: i as usize, text: creds.password },
        ],
        _ => Seq::empty(),
    }
}

/// The fill plan of the first `i` inputs.
pub open spec fn fill_plan_prefix(names: Seq<Option<String>>, creds: Credentials, i: int) -> Seq<
    FieldFill,
>
    decreases i,
{
    if i <= 0 {
        Seq::empty()
    } else {
        fill_plan_prefix(names, creds, i - 1) + fill_at(names, creds, i - 1)
    }
}

/// The whole fill plan for a form whose inputs carry the given `name`
/// attributes.
pub open spec fn fill_plan(names: Seq<Option<String>>, creds: Credentials) -> Seq<FieldFill> {
    fill_plan_prefix(names, creds, names.len() as int)
}

/// Compute the fill plan for a form's input list.
pub fn plan_fills(names: &Vec<Option<String>>, creds: &Credentials) -> (fills: Vec<FieldFill>)
    ensures
        fills@ == fill_plan(names@, *creds),
{
    let mut fills: Vec<FieldFill> = Vec::new();
    let mut i: usize = 0;
    while i < names.len()
        invariant
            i <= names@.len(),
            fills@ == fill_plan_prefix(names@, *creds, i as int),
        decreases names@.len() - i,
    {
        let role = classify_field(&names[i]);
        match role {
            CredentialField::UserId => {
                fills.push(FieldFill { index: i, text: creds.userid.clone() });
            },
            CredentialField::Password => {
                fills.push(FieldFill { index: i, text: creds.password.clone() });
            },
            _ => {
            },
        }
        assert(fills@ == fill_plan_prefix(names@, *creds, i + 1));
        i = i + 1;
    }
    fills
}

/// Whether an input with this `name` attribute receives injected credential
/// text.
pub open spec fn is_cred_role(name: Option<String>) -> bool {
    role_of(name) is UserId || role_of(name) is Password
}

/// One planned fill is sound for a form of `i` inputs: it points below `i`
/// at an input classified as a credential field and carries the matching
/// stored credential.
pub open spec fn plan_entry_ok(
    names: Seq<Option<String>>,
    creds: Credentials,
    i: int,
    f: FieldFill,
) -> bool {
    &&& (f.index as int) < i
    &&& is_cred_role(names[f.index as int])
    &&& (role_of(names[f.index as int]) is UserId ==> f.text == creds.userid)
    &&& (role_of(names[f.index as int]) is Password ==> f.text == creds.password)
}

/// A plan injects exactly the recognized credential fields among the first
/// `i` inputs: every fill is sound, every credential field is covered, and
/// the fills' positions are strictly increasing, so no input is filled
/// twice.
pub open spec fn plan_exact(
    names: Seq<Option<String>>,
    creds: Credentials,
    i: int,
    plan: Seq<FieldFill>,
) -> bool {
    &&& forall|j: int| 0 <= j < plan.len() ==> plan_entry_ok(names, creds, i, #[trigger] plan[j])
    &&& forall|k: int|
        0 <= k < i && is_cred_role(#[trigger] names[k]) ==> exists|j: int|
            0 <= j < plan.len() && (#[trigger] plan[j]).index as int == k
    &&& forall|j1: int, j2: int|
        0 <= j1 < j2 < plan.len() ==> (#[trigger] plan[j1]).index < (#[trigger] plan[j2]).index
}

/// The fill plan injects exactly the recognized credential fields, each
/// exactly once, with the matching stored credential.
pub proof fn lemma_fill_plan_exact(names: Seq<Option<String>>, creds: Credentials)
    requires
        names.len() <= usize::MAX,
    ensures
        plan_exact(names, creds, names.len() as int, fill_plan(names, creds)),
{
    lemma_fill_plan_prefix_exact(names, creds, names.len() as int);
}

/// Induction behind `lemma_fill_plan_exact`, over the plan of the first `i`
/// inputs.
proof fn lemma_fill_plan_prefix_exact(names: Seq<Option<String>>, creds: Credentials, i: int)
    requires
        0 <= i <= names.len(),
        names.len() <= usize::MAX,
    ensures
        plan_exact(names, creds, i, fill_plan_prefix(names, creds, i)),
    decreases i,
{
    if i <= 0 {
    } else {
        lemma_fill_plan_prefix_exact(names, creds, i - 1);
        let prev = fill_plan_prefix(names, creds, i - 1);
        let here = fill_at(names, creds, i - 1);
        let plan = fill_plan_prefix(names, creds, i);
        assert(plan == prev + here);
        assert forall|j: int| 0 <= j < plan.len() implies plan_entry_ok(
            names,
            creds,
            i,
            #[trigger] plan[j],
        ) by {
            if j < prev.len() {
                assert(plan[j] == prev[j]);
                assert(plan_entry_ok(names, creds, i - 1, prev[j]));
            } else {
                assert(plan[j] == here[j - prev.len()]);
            }
        }
        assert forall|k: int| 0 <= k < i && is_cred_role(#[trigger] names[k]) implies exists|j: int|
            0 <= j < plan.len() && (#[trigger] plan[j]).index as int == k by {
            if k < i - 1 {
                let j = choose|j: int|
                    0 <= j < prev.len() && (#[trigger] prev[j]).index as int == k;
                assert(plan[j] == prev[j]);
                assert(0 <= j < plan.len() && plan[j].index as int == k);
            } else {
                assert(here.len() == 1);
                let j = prev.len() as int;
                assert(plan[j] == here[0]);
                assert(0 <= j < plan.len() && plan[j].index as int == k);
            }
        }
        assert forall|j1: int, j2: int| 0 <= j1 < j2 < plan.len() implies (#[trigger] plan[j1]).index
            < (#[trigger] plan[j2]).index by {
            if j2 < prev.len() {
                assert(plan[j1] == prev[j1]);
                assert(plan[j2] == prev[j2]);
            } else {
                assert(j1 < prev.len());
                assert(plan[j1] == prev[j1]);
                assert(plan_entry_ok(names, creds, i - 1, prev[j1]));
                assert(plan[j2] == here[j2 - prev.len()]);
            }
        }
    }
}

} // verus!
