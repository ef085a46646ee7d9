//! The authentication service's request payloads and their checks, and the replies of
//! its small handlers (health, root, logout).

use vstd::prelude::*;
use crate::auth::passwords::{MIN_PASSWORD_SCORE, PasswordError, check_password, zxcvbn_estimate};
use crate::auth::errors::{AuthErrorResponse, AuthServiceError, is_error_response};
use crate::auth::sessions::{ACCESS_TOKEN_COOKIE, REFRESH_TOKEN_COOKIE};
use crate::shared::json::{Json, is_message_object};
use crate::shared::responses::{ApiSuccess, STATUS_NO_CONTENT, STATUS_OK};
use crate::shared::validation::{
    FieldCheck, FieldError, Validate, ValidationErrors, char_count, distinct_fields,
    email_is_valid, errors_report, field_names, lemma_report_last_field, lemma_report_new_field,
    reports, validate_email,
};

verus! {

/// The message of a weak password: the estimator's warning, or a fixed text without one.
pub open spec fn weak_password_message(password: Seq<char>) -> Seq<char> {
    match zxcvbn_estimate(password).1 {
        Some(w) => w,
        None => "Password too weak"@,
    }
}

/// The custom check of passwords: a password the estimator scores below three is refused
/// with code `password/weak` and the estimator's warning (or "Password too weak") as
/// message.
pub fn validate_password(password: &str) -> (res: Result<(), FieldError>)
    ensures
        res is Ok <==> zxcvbn_estimate(password@).0 >= MIN_PASSWORD_SCORE,
        res matches Err(e) ==> e.code@ == "password/weak"@ && e.params@.len() == 0 && (
        e.message matches Some(m) && m@ == weak_password_message(password@)),
{
    match check_password(password) {
        Ok(()) => Ok(()),
        Err(PasswordError::WeakPasswordError { feedback }) => {
            let text = match feedback {
                Some(f) => f,
                None => String::from_str("Password too weak"),
            };
            let mut e = FieldError::new("password/weak");
            e.message = Some(text);
            Err(e)
        },
    }
}

/// The checks of a password that fail, in order: a length below eight, then a weak
/// estimate.
pub open spec fn password_checks(password: Seq<char>) -> Seq<FieldCheck> {
    (if password.len() < 8 {
        seq![FieldCheck::Length { min: 8, value: password }]
    } else {
        seq![]
    }) + (if zxcvbn_estimate(password).0 < MIN_PASSWORD_SCORE {
        seq![
            FieldCheck::Custom {
                code: "password/weak"@,
                message: weak_password_message(password),
                value: password,
            },
        ]
    } else {
        seq![]
    })
}

/// The entry of the password field among the failed fields, if any check of it fails.
pub open spec fn password_entry(password: Seq<char>) -> Seq<(Seq<char>, Seq<FieldCheck>)> {
    if password_checks(password).len() > 0 {
        seq![("password"@, password_checks(password))]
    } else {
        seq![]
    }
}

/// Checks the password field, recording its failures after the other fields'.
fn check_password_field(
    errors: &mut ValidationErrors,
    password: &str,
    Ghost(expected): Ghost<Seq<(Seq<char>, Seq<FieldCheck>)>>,
)
    requires
        distinct_fields(*old(errors)),
        !field_names(*old(errors)).contains("password"@),
        errors_report(*old(errors), expected),
    ensures
        distinct_fields(*final(errors)),
        errors_report(*final(errors), expected + password_entry(password@)),
{
    let ghost length_check = FieldCheck::Length { min: 8, value: password@ };
    let ghost weak_check = FieldCheck::Custom {
        code: "password/weak"@,
        message: weak_password_message(password@),
        value: password@,
    };
    let mut recorded = false;
    if char_count(password) < 8 {
        let e = FieldError::for_min_length(8, password);
        let ghost (before, ge) = (*errors, e);
        errors.record_new("password", e);
        proof {
            lemma_report_new_field(before, *errors, expected, "password"@, ge, length_check);
        }
        recorded = true;
    }
    let ghost middle = *errors;
    assert(recorded == (password@.len() < 8));
    match validate_password(password) {
        Ok(()) => {
            if recorded {
                assert(password_checks(password@) =~= seq![length_check]);
                assert(expected.push(("password"@, seq![length_check])) =~= expected + password_entry(password@));
            } else {
                assert(password_checks(password@) =~= seq![]);
                assert(expected =~= expected + password_entry(password@));
            }
        },
        Err(e) => {
            let mut e = e;
            e.add_param("value", Json::text(password));
            assert(reports(e, weak_check));
            let ghost ge = e;
            if recorded {
                errors.record_last("password", e);
                proof {
                    let ex1 = expected.push(("password"@, seq![length_check]));
                    lemma_report_last_field(middle, *errors, ex1, ge, weak_check);
                    assert(password_checks(password@) =~= seq![length_check, weak_check]);
                    assert(seq![length_check].push(weak_check) =~= seq![length_check, weak_check]);
                    assert(ex1.update(ex1.len() - 1, (ex1.last().0, ex1.last().1.push(weak_check)))
                        =~= expected + password_entry(password@));
                }
            } else {
                errors.record_new("password", e);
                proof {
                    lemma_report_new_field(middle, *errors, expected, "password"@, ge, weak_check);
                    assert(password_checks(password@) =~= seq![weak_check]);
                    assert(expected.push(("password"@, seq![weak_check])) =~= expected + password_entry(password@));
                }
            }
        },
    }
}

/// The sign-up payload.
pub struct SignUpUserSchema {
    pub username: String,
    pub email: String,
    pub password: String,
}

/// The failed fields of a sign-up payload with their failed checks: a username shorter
/// than one character, an email that is not an address, and the password's failures.
pub open spec fn sign_up_failures(s: SignUpUserSchema) -> Seq<(Seq<char>, Seq<FieldCheck>)> {
    (if s.username@.len() < 1 {
        seq![("username"@, seq![FieldCheck::Length { min: 1, value: s.username@ }])]
    } else {
        seq![]
    }) + (if !email_is_valid(s.email@) {
        seq![("email"@, seq![FieldCheck::Value { code: "email"@, value: s.email@ }])]
    } else {
        seq![]
    }) + password_entry(s.password@)
}

impl Validate for SignUpUserSchema {
    open spec fn is_valid(&self) -> bool {
        sign_up_failures(*self).len() == 0
    }

    open spec fn failures(&self) -> Seq<(Seq<char>, Seq<FieldCheck>)> {
        sign_up_failures(*self)
    }

    fn validate(&self) -> (res: Result<(), ValidationErrors>)
    {
        let mut errors = ValidationErrors::new();
        let ghost mut expected: Seq<(Seq<char>, Seq<FieldCheck>)> = seq![];
        proof {
            reveal_strlit("username");
            reveal_strlit("email");
            reveal_strlit("password");
        }
        assert(field_names(errors) =~= seq![]);
        if char_count(self.username.as_str()) < 1 {
            let e = FieldError::for_min_length(1, self.username.as_str());
            let ghost (before, ge) = (errors, e);
            errors.record_new("username", e);
            proof {
                let check = FieldCheck::Length { min: 1, value: self.username@ };
                lemma_report_new_field(before, errors, expected, "username"@, ge, check);
                expected = expected.push(("username"@, seq![check]));
            }
        }
        let ghost after_username = field_names(errors);
        assert(after_username.len() <= 1 && (after_username.len() == 1 ==> after_username[0] == "username"@));
        assert(!after_username.contains("email"@)) by {
            if after_username.len() == 1 {
                assert("username"@[0] != "email"@[0]);
            }
        }
        if !validate_email(self.email.as_str()) {
            let e = FieldError::for_value("email", self.email.as_str());
            let ghost (before, ge) = (errors, e);
            errors.record_new("email", e);
            proof {
                let check = FieldCheck::Value { code: "email"@, value: self.email@ };
                lemma_report_new_field(before, errors, expected, "email"@, ge, check);
                expected = expected.push(("email"@, seq![check]));
            }
        }
        let ghost after_email = field_names(errors);
        assert(forall|i: int| 0 <= i < after_email.len() ==> after_email[i] == "username"@ || after_email[i] == "email"@);
        assert(!after_email.contains("password"@)) by {
            assert("username"@[0] != "password"@[0]);
            assert("email"@[0] != "password"@[0]);
        }
        check_password_field(&mut errors, self.password.as_str(), Ghost(expected));
        assert(expected + password_entry(self.password@) =~= sign_up_failures(*self));
        if errors.is_empty() {
            Ok(())
        } else {
            Err(errors)
        }
    }
}

/// The sign-in payload.
pub struct SignInUserSchema {
    pub email: String,
    pub password: String,
}

/// The failed fields of a sign-in payload with their failed checks.
pub open spec fn sign_in_failures(s: SignInUserSchema) -> Seq<(Seq<char>, Seq<FieldCheck>)> {
    (if !email_is_valid(s.email@) {
        seq![("email"@, seq![FieldCheck::Value { code: "email"@, value: s.email@ }])]
    } else {
        seq![]
    }) + password_entry(s.password@)
}

impl Validate for SignInUserSchema {
    open spec fn is_valid(&self) -> bool {
        sign_in_failures(*self).len() == 0
    }

    open spec fn failures(&self) -> Seq<(Seq<char>, Seq<FieldCheck>)> {
        sign_in_failures(*self)
    }

    fn validate(&self) -> (res: Result<(), ValidationErrors>)
    {
        let mut errors = ValidationErrors::new();
        let ghost mut expected: Seq<(Seq<char>, Seq<FieldCheck>)> = seq![];
        proof {
            reveal_strlit("email");
            reveal_strlit("password");
        }
        assert(field_names(errors) =~= seq![]);
        if !validate_email(self.email.as_str()) {
            let e = FieldError::for_value("email", self.email.as_str());
            let ghost (before, ge) = (errors, e);
            errors.record_new("email", e);
            proof {
                let check = FieldCheck::Value { code: "email"@, value: self.email@ };
                lemma_report_new_field(before, errors, expected, "email"@, ge, check);
                expected = expected.push(("email"@, seq![check]));
            }
        }
        let ghost after_email = field_names(errors);
        assert(after_email.len() <= 1 && (after_email.len() == 1 ==> after_email[0] == "email"@));
        assert(!after_email.contains("password"@)) by {
            if after_email.len() == 1 {
                assert("email"@[0] != "password"@[0]);
            }
        }
        check_password_field(&mut errors, self.password.as_str(), Ghost(expected));
        assert(expected + password_entry(self.password@) =~= sign_in_failures(*self));
        if errors.is_empty() {
            Ok(())
        } else {
            Err(errors)
        }
    }
}

/// The check `c` of the field `field` is among the failures `fs`.
pub open spec fn has_failure(fs: Seq<(Seq<char>, Seq<FieldCheck>)>, field: Seq<char>, c: FieldCheck) -> bool {
    exists|i: int, j: int| 0 <= i < fs.len() && 0 <= j < fs[i].1.len() && fs[i].0 == field && #[trigger] fs[i].1[j] == c
}

/// The length check of a password: at least eight characters.
pub open spec fn password_length_check(password: Seq<char>) -> FieldCheck {
    FieldCheck::Length { min: 8, value: password }
}

/// The strength check of a password: `password/weak` with the estimator's feedback.
pub open spec fn password_strength_check(password: Seq<char>) -> FieldCheck {
    FieldCheck::Custom { code: "password/weak"@, message: weak_password_message(password), value: password }
}

/// The failed checks of a password, by where they stand.
proof fn lemma_password_checks(password: Seq<char>)
    ensures
        ({
            let pc = password_checks(password);
            let short = password.len() < 8;
            let weak = zxcvbn_estimate(password).0 < MIN_PASSWORD_SCORE;
            &&& pc.len() == (if short { 1int } else { 0 }) + (if weak { 1int } else { 0 })
            &&& short ==> pc[0] == password_length_check(password)
            &&& weak ==> pc[if short { 1int } else { 0 }] == password_strength_check(password)
            &&& forall|j: int| 0 <= j < pc.len() ==> (short && pc[j] == password_length_check(password))
                || (weak && pc[j] == password_strength_check(password))
        }),
{
    let pc = password_checks(password);
    let short = password.len() < 8;
    let weak = zxcvbn_estimate(password).0 < MIN_PASSWORD_SCORE;
    let l: Seq<FieldCheck> = if short { seq![password_length_check(password)] } else { seq![] };
    let w: Seq<FieldCheck> = if weak { seq![password_strength_check(password)] } else { seq![] };
    assert(pc =~= l + w);
    assert forall|j: int| 0 <= j < pc.len() implies (short && pc[j] == password_length_check(password))
        || (weak && pc[j] == password_strength_check(password)) by {
        if j < l.len() {
            assert(pc[j] == l[j]);
        } else {
            assert(pc[j] == w[j - l.len()]);
        }
    }
}

/// The checks of a sign-up payload: its username must have a character, its email be an
/// address, its password have eight characters and be scored three or more by the
/// estimator, whatever its length. Each failed check is reported for its field, nothing
/// else is reported, and the payload is valid exactly when no check fails.
pub proof fn law_sign_up_checks(s: SignUpUserSchema)
    ensures
        ({
            let (u, e, p) = (s.username@, s.email@, s.password@);
            let f = s.failures();
            let weak = zxcvbn_estimate(p).0 < MIN_PASSWORD_SCORE;
            &&& s.is_valid() <==> (u.len() >= 1 && email_is_valid(e) && p.len() >= 8 && !weak)
            &&& has_failure(f, "username"@, FieldCheck::Length { min: 1, value: u }) <== u.len() < 1
            &&& has_failure(f, "email"@, FieldCheck::Value { code: "email"@, value: e }) <== !email_is_valid(e)
            &&& has_failure(f, "password"@, password_length_check(p)) <== p.len() < 8
            &&& has_failure(f, "password"@, password_strength_check(p)) <== weak
            &&& forall|i: int, j: int| 0 <= i < f.len() && 0 <= j < f[i].1.len() ==> {
                ||| f[i].0 == "username"@ && f[i].1[j] == FieldCheck::Length { min: 1, value: u } && u.len() < 1
                ||| f[i].0 == "email"@ && f[i].1[j] == FieldCheck::Value { code: "email"@, value: e }
                    && !email_is_valid(e)
                ||| f[i].0 == "password"@ && f[i].1[j] == password_length_check(p) && p.len() < 8
                ||| f[i].0 == "password"@ && f[i].1[j] == password_strength_check(p) && weak
            }
        }),
{
    let (u, e, p) = (s.username@, s.email@, s.password@);
    let f = s.failures();
    let weak = zxcvbn_estimate(p).0 < MIN_PASSWORD_SCORE;
    let a: Seq<(Seq<char>, Seq<FieldCheck>)> = if u.len() < 1 {
        seq![("username"@, seq![FieldCheck::Length { min: 1, value: u }])]
    } else {
        seq![]
    };
    let b: Seq<(Seq<char>, Seq<FieldCheck>)> = if !email_is_valid(e) {
        seq![("email"@, seq![FieldCheck::Value { code: "email"@, value: e }])]
    } else {
        seq![]
    };
    let pe = password_entry(p);
    assert(f == a + b + pe);
    lemma_password_checks(p);
    let pc = password_checks(p);
    assert(pc.len() > 0 <==> (p.len() < 8 || weak));
    if u.len() < 1 {
        assert(f[0] == a[0]);
        assert(f[0].1[0] == FieldCheck::Length { min: 1, value: u });
    }
    if !email_is_valid(e) {
        assert(f[a.len() as int] == b[0]);
        assert(f[a.len() as int].1[0] == FieldCheck::Value { code: "email"@, value: e });
    }
    let k = (a.len() + b.len()) as int;
    if pc.len() > 0 {
        assert(f[k] == pe[0]);
        if p.len() < 8 {
            assert(f[k].1[0] == password_length_check(p));
        }
        if weak {
            let j = if p.len() < 8 { 1int } else { 0 };
            assert(f[k].1[j] == password_strength_check(p));
        }
    }
    assert forall|i: int, j: int| 0 <= i < f.len() && 0 <= j < f[i].1.len() implies {
        ||| f[i].0 == "username"@ && f[i].1[j] == FieldCheck::Length { min: 1, value: u } && u.len() < 1
        ||| f[i].0 == "email"@ && f[i].1[j] == FieldCheck::Value { code: "email"@, value: e }
            && !email_is_valid(e)
        ||| f[i].0 == "password"@ && f[i].1[j] == password_length_check(p) && p.len() < 8
        ||| f[i].0 == "password"@ && f[i].1[j] == password_strength_check(p) && weak
    } by {
        if i < a.len() {
            assert(f[i] == a[i]);
        } else if i < k {
            assert(f[i] == b[i - a.len()]);
        } else {
            assert(f[i] == pe[i - k]);
            assert(pc[j] == f[i].1[j]);
        }
    }
}

/// The checks of a sign-in payload: its email must be an address, its password have
/// eight characters and be scored three or more by the estimator, whatever its length.
/// Each failed check is reported for its field, nothing else is reported, and the
/// payload is valid exactly when no check fails.
pub proof fn law_sign_in_checks(s: SignInUserSchema)
    ensures
        ({
            let (e, p) = (s.email@, s.password@);
            let f = s.failures();
            let weak = zxcvbn_estimate(p).0 < MIN_PASSWORD_SCORE;
            &&& s.is_valid() <==> (email_is_valid(e) && p.len() >= 8 && !weak)
            &&& has_failure(f, "email"@, FieldCheck::Value { code: "email"@, value: e }) <== !email_is_valid(e)
            &&& has_failure(f, "password"@, password_length_check(p)) <== p.len() < 8
            &&& has_failure(f, "password"@, password_strength_check(p)) <== weak
            &&& forall|i: int, j: int| 0 <= i < f.len() && 0 <= j < f[i].1.len() ==> {
                ||| f[i].0 == "email"@ && f[i].1[j] == FieldCheck::Value { code: "email"@, value: e }
                    && !email_is_valid(e)
                ||| f[i].0 == "password"@ && f[i].1[j] == password_length_check(p) && p.len() < 8
                ||| f[i].0 == "password"@ && f[i].1[j] == password_strength_check(p) && weak
            }
        }),
{
    let (e, p) = (s.email@, s.password@);
    let f = s.failures();
    let weak = zxcvbn_estimate(p).0 < MIN_PASSWORD_SCORE;
    let b: Seq<(Seq<char>, Seq<FieldCheck>)> = if !email_is_valid(e) {
        seq![("email"@, seq![FieldCheck::Value { code: "email"@, value: e }])]
    } else {
        seq![]
    };
    let pe = password_entry(p);
    assert(f == b + pe);
    lemma_password_checks(p);
    let pc = password_checks(p);
    assert(pc.len() > 0 <==> (p.len() < 8 || weak));
    if !email_is_valid(e) {
        assert(f[0] == b[0]);
        assert(f[0].1[0] == FieldCheck::Value { code: "email"@, value: e });
    }
    let k = b.len() as int;
    if pc.len() > 0 {
        assert(f[k] == pe[0]);
        if p.len() < 8 {
            assert(f[k].1[0] == password_length_check(p));
        }
        if weak {
            let j = if p.len() < 8 { 1int } else { 0 };
            assert(f[k].1[j] == password_strength_check(p));
        }
    }
    assert forall|i: int, j: int| 0 <= i < f.len() && 0 <= j < f[i].1.len() implies {
        ||| f[i].0 == "email"@ && f[i].1[j] == FieldCheck::Value { code: "email"@, value: e }
            && !email_is_valid(e)
        ||| f[i].0 == "password"@ && f[i].1[j] == password_length_check(p) && p.len() < 8
        ||| f[i].0 == "password"@ && f[i].1[j] == password_strength_check(p) && weak
    } by {
        if i < k {
            assert(f[i] == b[i]);
        } else {
            assert(f[i] == pe[i - k]);
            assert(pc[j] == f[i].1[j]);
        }
    }
}

/// The health check: `200` with an empty object.
pub fn get_health() -> (res: ApiSuccess)
    ensures
        res.code == STATUS_OK,
        res.data matches Json::Object(m) && m@.len() == 0,
{
    ApiSuccess::empty()
}

/// The database health check, from the outcome of a trivial query: `200` with
/// `{"message": "Database operational"}`, or the response of the query's error.
pub fn get_health_db(query: Result<(), AuthServiceError>) -> (res: Result<ApiSuccess, AuthErrorResponse>)
    ensures
        match query {
            Ok(()) => res matches Ok(s) && s.code == STATUS_OK && is_message_object(s.data, "Database operational"@),
            Err(e) => res matches Err(r) && is_error_response(e, r),
        },
{
    match query {
        Ok(()) => Ok(ApiSuccess::ok(Json::message("Database operational"))),
        Err(e) => Err(e.into_response()),
    }
}

/// The root: `204` with no body.
pub fn get_root() -> (res: u16)
    ensures
        res == STATUS_NO_CONTENT,
{
    STATUS_NO_CONTENT
}

/// What logging out does: remove the two token cookies and answer `204`.
pub struct LogoutReply {
    pub code: u16,
    pub removed_cookies: Vec<String>,
}

/// Logging out a session: the access and refresh cookies are removed, and the answer is
/// `204` with no body.
pub fn logout_user() -> (res: LogoutReply)
    ensures
        res.code == STATUS_NO_CONTENT,
        res.removed_cookies@.len() == 2,
        res.removed_cookies@[0]@ == ACCESS_TOKEN_COOKIE@,
        res.removed_cookies@[1]@ == REFRESH_TOKEN_COOKIE@,
{
    let mut removed: Vec<String> = Vec::new();
    removed.push(String::from_str(ACCESS_TOKEN_COOKIE));
    removed.push(String::from_str(REFRESH_TOKEN_COOKIE));
    LogoutReply { code: STATUS_NO_CONTENT, removed_cookies: removed }
}

} // verus!
