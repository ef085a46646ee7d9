//! The resource server's configuration.

use vstd::prelude::*;
use crate::shared::validation::{
    FieldCheck, FieldError, Validate, ValidationErrors, field_names, lemma_report_new_field,
    url_is_valid, validate_url,
};

verus! {

/// The resource server's configuration: where the key list of the authentication
/// service is, the database, and the port to serve on. The two addresses must be URLs.
pub struct Config {
    pub resource_paserk_url: String,
    pub resource_database_url: String,
    pub resource_service_port: i64,
}

/// The fields whose `url` check fails, in field order, each with that check on its text.
pub open spec fn resource_config_failures(c: Config) -> Seq<(Seq<char>, Seq<FieldCheck>)> {
    let first: Seq<(Seq<char>, Seq<FieldCheck>)> = if url_is_valid(c.resource_paserk_url@) {
        seq![]
    } else {
        seq![("resource_paserk_url"@, seq![FieldCheck::Value { code: "url"@, value: c.resource_paserk_url@ }])]
    };
    let second: Seq<(Seq<char>, Seq<FieldCheck>)> = if url_is_valid(c.resource_database_url@) {
        seq![]
    } else {
        seq![("resource_database_url"@, seq![FieldCheck::Value { code: "url"@, value: c.resource_database_url@ }])]
    };
    first + second
}

impl Validate for Config {
    open spec fn is_valid(&self) -> bool {
        url_is_valid(self.resource_paserk_url@) && url_is_valid(self.resource_database_url@)
    }

    open spec fn failures(&self) -> Seq<(Seq<char>, Seq<FieldCheck>)> {
        resource_config_failures(*self)
    }

    fn validate(&self) -> (res: Result<(), ValidationErrors>)
    {
        let mut errors = ValidationErrors::new();
        let ghost mut expected: Seq<(Seq<char>, Seq<FieldCheck>)> = seq![];
        assert(field_names(errors) =~= seq![]);
        if !validate_url(self.resource_paserk_url.as_str()) {
            let e = FieldError::for_value("url", self.resource_paserk_url.as_str());
            let ghost (before, ge) = (errors, e);
            errors.record_new("resource_paserk_url", e);
            proof {
                let check = FieldCheck::Value { code: "url"@, value: self.resource_paserk_url@ };
                lemma_report_new_field(before, errors, expected, "resource_paserk_url"@, ge, check);
                expected = expected.push(("resource_paserk_url"@, seq![check]));
            }
        }
        let ghost names = field_names(errors);
        assert(names.len() <= 1 && (names.len() == 1 ==> names[0] == "resource_paserk_url"@));
        assert(!names.contains("resource_database_url"@)) by {
            reveal_strlit("resource_paserk_url");
            reveal_strlit("resource_database_url");
            if names.len() == 1 {
                assert("resource_paserk_url"@[9] != "resource_database_url"@[9]);
            }
        }
        if !validate_url(self.resource_database_url.as_str()) {
            let e = FieldError::for_value("url", self.resource_database_url.as_str());
            let ghost (before, ge) = (errors, e);
            errors.record_new("resource_database_url", e);
            proof {
                let check = FieldCheck::Value { code: "url"@, value: self.resource_database_url@ };
                lemma_report_new_field(before, errors, expected, "resource_database_url"@, ge, check);
                expected = expected.push(("resource_database_url"@, seq![check]));
            }
        }
        assert(expected =~= resource_config_failures(*self));
        if errors.is_empty() {
            Ok(())
        } else {
            Err(errors)
        }
    }
}

} // verus!
