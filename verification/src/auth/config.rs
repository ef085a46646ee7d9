//! The authentication service's configuration and fixed names.

use vstd::prelude::*;
use crate::shared::validation::{
    FieldCheck, FieldError, Validate, ValidationErrors, field_names, lemma_report_new_field,
    url_is_valid, validate_url,
};

verus! {

/// The redis key of the current signing key.
pub const SIGNING_REDIS_KEY: &'static str = "signing_key";

/// The prefix of the redis keys of verifying keys.
pub const VERIFYING_REDIS_KEY: &'static str = "verifying_key";

/// The issuer claim of the tokens.
pub const ISSUER: &'static str = "auth_service";

/// The audience claim of the tokens.
pub const AUDIENCE: &'static str = "example";

/// The authentication service's configuration; the two URLs must be URLs, the two ages
/// are in minutes.
pub struct Config {
    pub auth_database_url: String,
    pub auth_redis_url: String,
    pub auth_refresh_token_max_age: i64,
    pub auth_access_token_max_age: i64,
}

/// The fields whose `url` check fails, in field order, each with that check on its text.
pub open spec fn config_failures(c: Config) -> Seq<(Seq<char>, Seq<FieldCheck>)> {
    let first: Seq<(Seq<char>, Seq<FieldCheck>)> = if url_is_valid(c.auth_database_url@) {
        seq![]
    } else {
        seq![("auth_database_url"@, seq![FieldCheck::Value { code: "url"@, value: c.auth_database_url@ }])]
    };
    let second: Seq<(Seq<char>, Seq<FieldCheck>)> = if url_is_valid(c.auth_redis_url@) {
        seq![]
    } else {
        seq![("auth_redis_url"@, seq![FieldCheck::Value { code: "url"@, value: c.auth_redis_url@ }])]
    };
    first + second
}

impl Validate for Config {
    open spec fn is_valid(&self) -> bool {
        url_is_valid(self.auth_database_url@) && url_is_valid(self.auth_redis_url@)
    }

    open spec fn failures(&self) -> Seq<(Seq<char>, Seq<FieldCheck>)> {
        config_failures(*self)
    }

    fn validate(&self) -> (res: Result<(), ValidationErrors>)
    {
        let mut errors = ValidationErrors::new();
        let ghost mut expected: Seq<(Seq<char>, Seq<FieldCheck>)> = seq![];
        assert(field_names(errors) =~= seq![]);
        if !validate_url(self.auth_database_url.as_str()) {
            let e = FieldError::for_value("url", self.auth_database_url.as_str());
            let ghost (before, ge) = (errors, e);
            errors.record_new("auth_database_url", e);
            proof {
                let check = FieldCheck::Value { code: "url"@, value: self.auth_database_url@ };
                lemma_report_new_field(before, errors, expected, "auth_database_url"@, ge, check);
                expected = expected.push(("auth_database_url"@, seq![check]));
            }
        }
        let ghost names = field_names(errors);
        assert(names.len() <= 1 && (names.len() == 1 ==> names[0] == "auth_database_url"@));
        assert(!names.contains("auth_redis_url"@)) by {
            reveal_strlit("auth_database_url");
            reveal_strlit("auth_redis_url");
            if names.len() == 1 {
                assert("auth_database_url"@[5] != "auth_redis_url"@[5]);
            }
        }
        if !validate_url(self.auth_redis_url.as_str()) {
            let e = FieldError::for_value("url", self.auth_redis_url.as_str());
            let ghost (before, ge) = (errors, e);
            errors.record_new("auth_redis_url", e);
            proof {
                let check = FieldCheck::Value { code: "url"@, value: self.auth_redis_url@ };
                lemma_report_new_field(before, errors, expected, "auth_redis_url"@, ge, check);
                expected = expected.push(("auth_redis_url"@, seq![check]));
            }
        }
        assert(expected =~= config_failures(*self));
        if errors.is_empty() {
            Ok(())
        } else {
            Err(errors)
        }
    }
}

} // verus!
