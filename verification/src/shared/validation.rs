//! Field validation of request payloads and configuration, the errors it reports, and
//! the `422` failure they are answered with.

use vstd::prelude::*;
use validator::{ValidateEmail, ValidateUrl};
use crate::shared::json::{Json, is_json_str};
use crate::shared::responses::{ApiFail, STATUS_UNPROCESSABLE_ENTITY};

verus! {

/// Whether `validator` takes a text for an email address (the HTML5 form rule).
pub uninterp spec fn email_is_valid(text: Seq<char>) -> bool;

/// Whether `validator` takes a text for a URL (the `url` crate parses it).
pub uninterp spec fn url_is_valid(text: Seq<char>) -> bool;

/// `ValidateEmail::validate_email` on a text. A text without `@` is never an address.
#[verifier::external_body]
pub(crate) fn validate_email(text: &str) -> (res: bool)
    ensures
        res == email_is_valid(text@),
        !text@.contains('@') ==> !res,
{
    text.validate_email()
}

/// `ValidateUrl::validate_url` on a text.
#[verifier::external_body]
pub(crate) fn validate_url(text: &str) -> (res: bool)
    ensures
        res == url_is_valid(text@),
{
    text.validate_url()
}

/// One failed check of a field: a code, an optional message and the check's parameters.
#[derive(Debug)]
pub struct FieldError {
    pub code: String,
    pub message: Option<String>,
    pub params: Vec<(String, Json)>,
}

/// The failed checks of a payload, by field, in the order the fields were checked.
#[derive(Debug)]
pub struct ValidationErrors {
    pub fields: Vec<(String, Vec<FieldError>)>,
}

/// `j` is the JSON of a field error: `{"code": …, "message": … or null, "params": {…}}`.
pub open spec fn is_field_error_json(j: Json, e: FieldError) -> bool {
    match j {
        Json::Object(m) => m@.len() == 3 && m@[0].0@ == "code"@ && m@[0].1 == Json::Str(e.code)
            && m@[1].0@ == "message"@ && m@[1].1 == (match e.message {
            Some(t) => Json::Str(t),
            None => Json::Null,
        }) && m@[2].0@ == "params"@ && m@[2].1 == Json::Object(e.params),
        _ => false,
    }
}

/// `j` is the JSON of the errors of one field: an array of their JSON.
pub open spec fn is_field_errors_json(j: Json, errs: Seq<FieldError>) -> bool {
    match j {
        Json::Array(a) => a@.len() == errs.len() && forall|i: int|
            0 <= i < errs.len() ==> is_field_error_json(#[trigger] a@[i], errs[i]),
        _ => false,
    }
}

/// `j` is the JSON of validation errors: an object with a member per field.
pub open spec fn is_errors_json(j: Json, errs: ValidationErrors) -> bool {
    match j {
        Json::Object(m) => m@.len() == errs.fields@.len() && forall|i: int|
            0 <= i < m@.len() ==> (#[trigger] m@[i]).0 == errs.fields@[i].0
                && is_field_errors_json(m@[i].1, errs.fields@[i].1@),
        _ => false,
    }
}

impl FieldError {
    /// An error with the given code, no message and no parameters.
    pub fn new(code: &str) -> (res: FieldError)
        ensures
            res.code@ == code@,
            res.message is None,
            res.params@.len() == 0,
    {
        FieldError { code: String::from_str(code), message: None, params: Vec::new() }
    }

    /// Adds a parameter.
    pub fn add_param(&mut self, name: &str, value: Json)
        ensures
            final(self).code == old(self).code,
            final(self).message == old(self).message,
            final(self).params@.len() == old(self).params@.len() + 1,
            final(self).params@.drop_last() == old(self).params@,
            final(self).params@.last().0@ == name@,
            final(self).params@.last().1 == value,
    {
        self.params.push((String::from_str(name), value));
        assert(self.params@.drop_last() =~= old(self).params@);
    }

    /// The JSON of the error.
    pub fn into_json(self) -> (res: Json)
        ensures
            is_field_error_json(res, self),
    {
        let message = match self.message {
            Some(t) => Json::Str(t),
            None => Json::Null,
        };
        let mut members: Vec<(String, Json)> = Vec::new();
        members.push((String::from_str("code"), Json::Str(self.code)));
        members.push((String::from_str("message"), message));
        members.push((String::from_str("params"), Json::Object(self.params)));
        Json::Object(members)
    }
}

impl ValidationErrors {
    pub fn new() -> (res: ValidationErrors)
        ensures
            res.fields@.len() == 0,
    {
        ValidationErrors { fields: Vec::new() }
    }

    /// Whether no check failed.
    pub fn is_empty(&self) -> (res: bool)
        ensures
            res == (self.fields@.len() == 0),
    {
        self.fields.len() == 0
    }

    /// Records a failed check of `field`: appended to the field's errors, the field
    /// appended to the list when it has none yet.
    pub fn add(&mut self, field: &str, error: FieldError)
        requires
            forall|i: int, j: int|
                0 <= i < j < old(self).fields@.len() ==> old(self).fields@[i].0@ != old(self).fields@[j].0@,
        ensures
            forall|i: int, j: int|
                0 <= i < j < final(self).fields@.len() ==> final(self).fields@[i].0@ != final(self).fields@[j].0@,
            exists|i: int|
                0 <= i < final(self).fields@.len() && final(self).fields@[i].0@ == field@
                    && final(self).fields@[i].1@.last() == error,
            (forall|i: int| 0 <= i < old(self).fields@.len() ==> old(self).fields@[i].0@ != field@)
                ==> final(self).fields@.len() == old(self).fields@.len() + 1
                && final(self).fields@.drop_last() == old(self).fields@
                && final(self).fields@.last().0@ == field@
                && final(self).fields@.last().1@ == seq![error],
            forall|i: int| 0 <= i < old(self).fields@.len() && old(self).fields@[i].0@ == field@
                ==> final(self).fields@.len() == old(self).fields@.len()
                && final(self).fields@ == old(self).fields@.update(i, (final(self).fields@[i].0, final(self).fields@[i].1))
                && final(self).fields@[i].0 == old(self).fields@[i].0
                && final(self).fields@[i].1@ == old(self).fields@[i].1@.push(error),
    {
        let n = self.fields.len();
        let mut i: usize = 0;
        let wanted = String::from_str(field);
        while i < n
            invariant
                i <= n,
                n == self.fields@.len(),
                self.fields@ == old(self).fields@,
                wanted@ == field@,
                forall|a: int, b: int|
                    0 <= a < b < old(self).fields@.len() ==> old(self).fields@[a].0@ != old(self).fields@[b].0@,
                forall|j: int| 0 <= j < i ==> self.fields@[j].0@ != field@,
            decreases n - i,
        {
            if self.fields[i].0 == wanted {
                let ghost before = self.fields@;
                let mut entry = self.fields.remove(i);
                entry.1.push(error);
                self.fields.insert(i, entry);
                assert(self.fields@[i as int].0@ == field@);
                assert(self.fields@ =~= before.update(i as int, (self.fields@[i as int].0, self.fields@[i as int].1)));
                assert forall|a: int| 0 <= a < before.len() && before[a].0@ == field@ implies a == i by {
                    if a != i {
                        assert(before[a].0@ != before[i as int].0@);
                    }
                }
                assert forall|a: int, b: int|
                    0 <= a < b < self.fields@.len() implies self.fields@[a].0@ != self.fields@[b].0@ by {
                    assert(self.fields@[a].0 == before[a].0);
                    assert(self.fields@[b].0 == before[b].0);
                }
                return;
            }
            i = i + 1;
        }
        let mut list: Vec<FieldError> = Vec::new();
        list.push(error);
        self.fields.push((wanted, list));
        assert(self.fields@[n as int].1@.last() == error);
        assert(self.fields@.drop_last() =~= old(self).fields@);
        assert(self.fields@.last().1@ =~= seq![error]);
    }

    /// The JSON of the errors: an object with, for each field, the array of its errors.
    pub fn into_json(self) -> (res: Json)
        ensures
            is_errors_json(res, self),
    {
        let ghost original = self;
        let mut members: Vec<(String, Json)> = Vec::new();
        let mut rest = self.fields;
        let n = rest.len();
        // take the fields from the back and put them at the front
        let mut out: Vec<(String, Json)> = Vec::new();
        let mut k: usize = n;
        while k > 0
            invariant
                k <= n,
                n == original.fields@.len(),
                rest@ == original.fields@.subrange(0, k as int),
                out@.len() == n - k,
                forall|i: int|
                    0 <= i < n - k ==> (#[trigger] out@[i]).0 == original.fields@[n - 1 - i].0
                        && is_field_errors_json(out@[i].1, original.fields@[n - 1 - i].1@),
            decreases k,
        {
            let (name, errs) = rest.pop().unwrap();
            let j = field_errors_json(errs);
            out.push((name, j));
            k = k - 1;
            assert(rest@ =~= original.fields@.subrange(0, k as int));
        }
        let mut i: usize = n;
        while i > 0
            invariant
                i <= n,
                out@.len() == i,
                n == original.fields@.len(),
                members@.len() == n - i,
                forall|a: int|
                    0 <= a < i ==> (#[trigger] out@[a]).0 == original.fields@[n - 1 - a].0
                        && is_field_errors_json(out@[a].1, original.fields@[n - 1 - a].1@),
                forall|a: int|
                    0 <= a < n - i ==> (#[trigger] members@[a]).0 == original.fields@[a].0
                        && is_field_errors_json(members@[a].1, original.fields@[a].1@),
            decreases i,
        {
            let entry = out.pop().unwrap();
            members.push(entry);
            i = i - 1;
        }
        Json::Object(members)
    }
}

/// The JSON array of a field's errors.
fn field_errors_json(errs: Vec<FieldError>) -> (res: Json)
    ensures
        is_field_errors_json(res, errs@),
{
    let ghost original = errs@;
    let n = errs.len();
    let mut rest = errs;
    let mut out: Vec<Json> = Vec::new();
    let mut k: usize = n;
    while k > 0
        invariant
            k <= n,
            n == original.len(),
            rest@ == original.subrange(0, k as int),
            out@.len() == n - k,
            forall|i: int| 0 <= i < n - k ==> is_field_error_json(#[trigger] out@[i], original[n - 1 - i]),
        decreases k,
    {
        let e = rest.pop().unwrap();
        out.push(e.into_json());
        k = k - 1;
        assert(rest@ =~= original.subrange(0, k as int));
    }
    let mut items: Vec<Json> = Vec::new();
    let mut i: usize = n;
    while i > 0
        invariant
            i <= n,
            out@.len() == i,
            n == original.len(),
            items@.len() == n - i,
            forall|a: int| 0 <= a < i ==> is_field_error_json(#[trigger] out@[a], original[n - 1 - a]),
            forall|a: int| 0 <= a < n - i ==> is_field_error_json(#[trigger] items@[a], original[a]),
        decreases i,
    {
        let j = out.pop().unwrap();
        items.push(j);
        i = i - 1;
    }
    Json::Array(items)
}

/// A payload or configuration whose fields are checked.
pub trait Validate {
    /// Whether every check holds.
    spec fn is_valid(&self) -> bool;

    /// The fields whose checks fail, each with its failed checks, in order.
    spec fn failures(&self) -> Seq<(Seq<char>, Seq<FieldCheck>)>;

    /// Runs the checks; the errors report every check that failed, in order.
    fn validate(&self) -> (res: Result<(), ValidationErrors>)
        ensures
            res is Ok <==> self.is_valid(),
            res matches Err(e) ==> errors_report(e, self.failures()),
    ;
}

/// Runs the checks of payloads for the HTTP handlers.
pub struct AxumValidator;

impl AxumValidator {
    /// Runs the checks of `schema`; failed checks are answered with `422` and the JSON of
    /// the errors.
    pub fn validate<T: Validate>(schema: &T) -> (res: Result<(), ApiFail>)
        ensures
            res is Ok <==> schema.is_valid(),
            res matches Err(f) ==> f.code == STATUS_UNPROCESSABLE_ENTITY && exists|e: ValidationErrors|
                #[trigger] errors_report(e, schema.failures()) && is_errors_json(f.data, e),
    {
        match schema.validate() {
            Ok(()) => Ok(()),
            Err(errors) => {
                let ghost e = errors;
                let fail = ApiFail::unprocessable_entity(errors.into_json());
                assert(errors_report(e, schema.failures()) && is_errors_json(fail.data, e));
                Err(fail)
            },
        }
    }
}

/// A request payload that passed its checks.
pub struct ValidatedJson<T>(pub T);

impl<T: Validate> ValidatedJson<T> {
    /// Takes a payload that was read from the request body: it is accepted when its checks
    /// hold, and otherwise answered as `AxumValidator::validate` answers.
    pub fn accept(value: T) -> (res: Result<ValidatedJson<T>, ApiFail>)
        ensures
            res is Ok <==> value.is_valid(),
            res matches Ok(v) ==> v.0 == value,
            res matches Err(f) ==> f.code == STATUS_UNPROCESSABLE_ENTITY && exists|e: ValidationErrors|
                #[trigger] errors_report(e, value.failures()) && is_errors_json(f.data, e),
    {
        match AxumValidator::validate(&value) {
            Ok(()) => Ok(ValidatedJson(value)),
            Err(f) => Err(f),
        }
    }

    /// The answer to a body that could not be read as the payload: `422` with the reason,
    /// the origin and the matched path (`null` when there is none).
    pub fn rejected(reason: &str, path: Option<String>) -> (res: ApiFail)
        ensures
            res.code == STATUS_UNPROCESSABLE_ENTITY,
            res.data matches Json::Object(m) && m@.len() == 3 && m@[0].0@ == "message"@
                && is_json_str(m@[0].1, reason@) && m@[1].0@ == "origin"@ && is_json_str(
                m@[1].1,
                "validated_json_extractor"@,
            ) && m@[2].0@ == "path"@ && match path {
                Some(p) => is_json_str(m@[2].1, p@),
                None => m@[2].1 is Null,
            },
    {
        let path_json = match path {
            Some(p) => Json::Str(p),
            None => Json::Null,
        };
        let mut members: Vec<(String, Json)> = Vec::new();
        members.push((String::from_str("message"), Json::text(reason)));
        members.push((String::from_str("origin"), Json::text("validated_json_extractor")));
        members.push((String::from_str("path"), path_json));
        ApiFail::unprocessable_entity(Json::Object(members))
    }
}

/// `e` is the error of a check of kind `code` on the text `value`, with no message and
/// the text as its `value` parameter.
pub open spec fn is_value_error(e: FieldError, code: Seq<char>, value: Seq<char>) -> bool {
    e.code@ == code && e.message is None && e.params@.len() == 1 && e.params@[0].0@ == "value"@
        && is_json_str(e.params@[0].1, value)
}

impl FieldError {
    /// The error of a failed check of kind `code` on the text `value`.
    pub fn for_value(code: &str, value: &str) -> (res: FieldError)
        ensures
            is_value_error(res, code@, value@),
    {
        let mut e = FieldError::new(code);
        e.add_param("value", Json::text(value));
        e
    }

    /// The error of a failed `length(min = …)` check on the text `value`: the `min` and
    /// `value` parameters.
    pub fn for_min_length(min: i64, value: &str) -> (res: FieldError)
        ensures
            res.code@ == "length"@,
            res.message is None,
            res.params@.len() == 2,
            res.params@[0].0@ == "min"@ && res.params@[0].1 == Json::Int(min),
            res.params@[1].0@ == "value"@ && is_json_str(res.params@[1].1, value@),
    {
        let mut e = FieldError::new("length");
        e.add_param("min", Json::Int(min));
        e.add_param("value", Json::text(value));
        e
    }
}

/// The number of characters of a text, as `validator` counts a length.
pub fn char_count(text: &str) -> (res: usize)
    ensures
        res == text@.len(),
{
    text.unicode_len()
}

/// A failed check, as the error it is reported with.
pub enum FieldCheck {
    /// `length(min = …)`: code `length`, no message, the parameters `min` and `value`.
    Length { min: i64, value: Seq<char> },
    /// A check of kind `code`: no message, the checked text as the parameter `value`.
    Value { code: Seq<char>, value: Seq<char> },
    /// A custom check: its code and message, the checked text as the parameter `value`.
    Custom { code: Seq<char>, message: Seq<char>, value: Seq<char> },
}

/// The error `e` reports the failed check `c`.
pub open spec fn reports(e: FieldError, c: FieldCheck) -> bool {
    match c {
        FieldCheck::Length { min, value } => e.code@ == "length"@ && e.message is None && e.params@.len() == 2
            && e.params@[0].0@ == "min"@ && e.params@[0].1 == Json::Int(min) && e.params@[1].0@ == "value"@
            && is_json_str(e.params@[1].1, value),
        FieldCheck::Value { code, value } => is_value_error(e, code, value),
        FieldCheck::Custom { code, message, value } => e.code@ == code && (e.message matches Some(m) && m@
            == message) && e.params@.len() == 1 && e.params@[0].0@ == "value"@ && is_json_str(
            e.params@[0].1,
            value,
        ),
    }
}

/// The errors report exactly the expected failed checks: the fields in order, each with
/// an error per failed check, in order.
pub open spec fn errors_report(errs: ValidationErrors, expected: Seq<(Seq<char>, Seq<FieldCheck>)>) -> bool {
    &&& errs.fields@.len() == expected.len()
    &&& forall|i: int| 0 <= i < expected.len() ==> (#[trigger] errs.fields@[i]).0@ == expected[i].0
        && errs.fields@[i].1@.len() == expected[i].1.len()
    &&& forall|i: int, j: int| 0 <= i < expected.len() && 0 <= j < expected[i].1.len() ==> reports(
        #[trigger] errs.fields@[i].1@[j],
        expected[i].1[j],
    )
}

/// Recording the first error of a new field adds that field and check to the report.
pub proof fn lemma_report_new_field(
    before: ValidationErrors,
    after: ValidationErrors,
    expected: Seq<(Seq<char>, Seq<FieldCheck>)>,
    field: Seq<char>,
    error: FieldError,
    check: FieldCheck,
)
    requires
        errors_report(before, expected),
        after.fields@.len() == before.fields@.len() + 1,
        after.fields@.drop_last() == before.fields@,
        after.fields@.last().0@ == field,
        after.fields@.last().1@ == seq![error],
        reports(error, check),
    ensures
        errors_report(after, expected.push((field, seq![check]))),
{
    let n = before.fields@.len() as int;
    let ex = expected.push((field, seq![check]));
    assert forall|i: int| 0 <= i < n implies #[trigger] after.fields@[i] == before.fields@[i] by {
        assert(after.fields@.drop_last()[i] == after.fields@[i]);
    }
    assert forall|i: int| 0 <= i < ex.len() implies (#[trigger] after.fields@[i]).0@ == ex[i].0
        && after.fields@[i].1@.len() == ex[i].1.len() by {
        if i < n {
            assert(before.fields@[i] == after.fields@[i]);
        }
    }
    assert forall|i: int, j: int| 0 <= i < ex.len() && 0 <= j < ex[i].1.len() implies reports(
        #[trigger] after.fields@[i].1@[j],
        ex[i].1[j],
    ) by {
        if i < n {
            assert(before.fields@[i] == after.fields@[i]);
            assert(reports(before.fields@[i].1@[j], expected[i].1[j]));
        }
    }
}

/// Recording another error of the last field adds its check to that field's checks.
pub proof fn lemma_report_last_field(
    before: ValidationErrors,
    after: ValidationErrors,
    expected: Seq<(Seq<char>, Seq<FieldCheck>)>,
    error: FieldError,
    check: FieldCheck,
)
    requires
        errors_report(before, expected),
        before.fields@.len() > 0,
        after.fields@.len() == before.fields@.len(),
        after.fields@.drop_last() == before.fields@.drop_last(),
        after.fields@.last().0 == before.fields@.last().0,
        after.fields@.last().1@ == before.fields@.last().1@.push(error),
        reports(error, check),
    ensures
        errors_report(after, expected.update(expected.len() - 1, (expected.last().0, expected.last().1.push(check)))),
{
    let n = before.fields@.len() as int;
    let ex = expected.update(expected.len() - 1, (expected.last().0, expected.last().1.push(check)));
    assert forall|i: int| 0 <= i < n - 1 implies #[trigger] after.fields@[i] == before.fields@[i] by {
        assert(after.fields@.drop_last()[i] == after.fields@[i]);
        assert(before.fields@.drop_last()[i] == before.fields@[i]);
    }
    assert forall|i: int| 0 <= i < ex.len() implies (#[trigger] after.fields@[i]).0@ == ex[i].0
        && after.fields@[i].1@.len() == ex[i].1.len() by {
        if i < n - 1 {
            assert(before.fields@[i] == after.fields@[i]);
        } else {
            assert(before.fields@[n - 1].0@ == expected[n - 1].0);
        }
    }
    assert forall|i: int, j: int| 0 <= i < ex.len() && 0 <= j < ex[i].1.len() implies reports(
        #[trigger] after.fields@[i].1@[j],
        ex[i].1[j],
    ) by {
        if i < n - 1 {
            assert(before.fields@[i] == after.fields@[i]);
            assert(reports(before.fields@[i].1@[j], expected[i].1[j]));
        } else if j < expected[n - 1].1.len() {
            assert(after.fields@[n - 1].1@[j] == before.fields@[n - 1].1@[j]);
            assert(reports(before.fields@[n - 1].1@[j], expected[n - 1].1[j]));
        }
    }
}

/// The names of the fields of validation errors, in order.
pub open spec fn field_names(errs: ValidationErrors) -> Seq<Seq<char>> {
    errs.fields@.map_values(|f: (String, Vec<FieldError>)| f.0@)
}

/// The field names of validation errors are distinct.
pub open spec fn distinct_fields(errs: ValidationErrors) -> bool {
    forall|i: int, j: int|
        0 <= i < j < errs.fields@.len() ==> errs.fields@[i].0@ != errs.fields@[j].0@
}

impl ValidationErrors {
    /// Records the first error of a field that has none yet.
    pub fn record_new(&mut self, field: &str, error: FieldError)
        requires
            distinct_fields(*old(self)),
            !field_names(*old(self)).contains(field@),
        ensures
            distinct_fields(*final(self)),
            field_names(*final(self)) == field_names(*old(self)).push(field@),
            final(self).fields@.len() == old(self).fields@.len() + 1,
            final(self).fields@.drop_last() == old(self).fields@,
            final(self).fields@.last().0@ == field@,
            final(self).fields@.last().1@ == seq![error],
    {
        let ghost before = *self;
        assert forall|i: int| 0 <= i < before.fields@.len() implies before.fields@[i].0@ != field@ by {
            assert(field_names(before)[i] == before.fields@[i].0@);
        }
        self.add(field, error);
        proof {
            assert forall|i: int| 0 <= i < before.fields@.len() implies #[trigger] self.fields@[i] == before.fields@[i] by {
                assert(self.fields@.drop_last()[i] == self.fields@[i]);
            }
            assert(field_names(*self) =~= field_names(before).push(field@));
        }
    }

    /// Records another error of the last field.
    pub fn record_last(&mut self, field: &str, error: FieldError)
        requires
            distinct_fields(*old(self)),
            old(self).fields@.len() > 0,
            old(self).fields@.last().0@ == field@,
        ensures
            distinct_fields(*final(self)),
            field_names(*final(self)) == field_names(*old(self)),
            final(self).fields@.len() == old(self).fields@.len(),
            final(self).fields@.drop_last() == old(self).fields@.drop_last(),
            final(self).fields@.last().0 == old(self).fields@.last().0,
            final(self).fields@.last().1@ == old(self).fields@.last().1@.push(error),
    {
        let ghost before = *self;
        let ghost n = self.fields@.len();
        self.add(field, error);
        proof {
            assert(before.fields@[n - 1].0@ == field@);
            let after = *self;
            assert(after.fields@.drop_last() =~= before.fields@.drop_last());
            assert forall|i: int| 0 <= i < n implies #[trigger] after.fields@[i].0 == before.fields@[i].0 by {
                if i < n - 1 {
                    assert(after.fields@.drop_last()[i] == after.fields@[i]);
                    assert(before.fields@.drop_last()[i] == before.fields@[i]);
                }
            }
            assert(field_names(after) =~= field_names(before));
        }
    }
}

} // verus!
