//! Query parameters of the HTTP API and the defaults the handlers apply.
use vstd::prelude::*;
use crate::site::{KnownSite, spec_known_site};

verus! {

/// Paging and filtering parameters of the listing endpoints.
pub struct PaginationParams {
    pub limit: Option<u32>,
    pub site_id: Option<String>,
}

/// The site a listing shows when the query names none.
pub open spec fn spec_default_site() -> Seq<char> {
    "huiyinbi"@
}

impl PaginationParams {
    /// The requested limit, or `default` when none was given.
    pub fn limit_or(&self, default: u32) -> (r: u32)
        ensures
            r == match self.limit {
                Some(l) => l,
                None => default,
            },
    {
        match self.limit {
            Some(l) => l,
            None => default,
        }
    }

    /// The requested site, or `default` when none was given.
    pub fn site_or<'a>(&'a self, default: &'a str) -> (r: &'a str)
        ensures
            r@ == match self.site_id {
                Some(s) => s@,
                None => default@,
            },
    {
        match &self.site_id {
            Some(s) => s.as_str(),
            None => default,
        }
    }

    /// The requested site, or the Echo Wall when none was given.
    pub fn site_or_default(&self) -> (r: &str)
        ensures
            r@ == match self.site_id {
                Some(s) => s@,
                None => spec_default_site(),
            },
    {
        self.site_or("huiyinbi")
    }
}

/// The site a listing shows by default is the Echo Wall.
pub proof fn law_default_site_is_echo_wall()
    ensures
        spec_known_site(spec_default_site()) == Some(KnownSite::Huiyinbi),
{
}

} // verus!
