//! The cookies the authentication service sets.

use vstd::prelude::*;

verus! {

/// A cookie to set: its name and value, whether the service runs in debug mode, and
/// the domain it is for outside debug mode.
pub struct BaseCookie {
    name: String,
    value: String,
    debug: bool,
    domain: String,
}

/// The attributes of a cookie as it is sent.
pub struct CookieAttributes {
    pub name: String,
    pub value: String,
    pub http_only: bool,
    pub secure: bool,
    /// `SameSite=Lax` when set.
    pub same_site_lax: bool,
    pub path: String,
    pub domain: String,
}

impl BaseCookie {
    pub closed spec fn name_view(&self) -> Seq<char> {
        self.name@
    }

    pub closed spec fn value_view(&self) -> Seq<char> {
        self.value@
    }

    pub closed spec fn is_debug(&self) -> bool {
        self.debug
    }

    pub closed spec fn domain_view(&self) -> Seq<char> {
        self.domain@
    }

    /// A cookie with the given name, value, mode and domain.
    pub fn new(name: &str, value: &str, debug: bool, domain: &str) -> (res: Self)
        ensures
            res.name_view() == name@,
            res.value_view() == value@,
            res.is_debug() == debug,
            res.domain_view() == domain@,
    {
        BaseCookie {
            name: String::from_str(name),
            value: String::from_str(value),
            debug: debug,
            domain: String::from_str(domain),
        }
    }

    /// The cookie as it is sent: HTTP only, `SameSite=Lax`, for the path `/`; secure and
    /// for its domain outside debug mode, not secure and with an empty domain in debug
    /// mode.
    pub fn attributes(self) -> (res: CookieAttributes)
        ensures
            res.name@ == self.name_view(),
            res.value@ == self.value_view(),
            res.http_only,
            res.secure == !self.is_debug(),
            res.same_site_lax,
            res.path@ == "/"@,
            res.domain@ == if self.is_debug() {
                Seq::<char>::empty()
            } else {
                self.domain_view()
            },
    {
        let domain = if self.debug {
            String::new()
        } else {
            self.domain
        };
        CookieAttributes {
            name: self.name,
            value: self.value,
            http_only: true,
            secure: !self.debug,
            same_site_lax: true,
            path: String::from_str("/"),
            domain: domain,
        }
    }
}

} // verus!
