//! The three monitored sites of the Temple of Heaven, recognised by their ids.
use vstd::prelude::*;
use crate::text::{concat_str, str_eq};

verus! {

/// A site that the simulator knows by id: the Echo Wall, the Triple Sound
/// Stones and the Circular Mound Altar.
#[derive(PartialEq, Eq, Structural, Clone, Copy, Debug)]
pub enum KnownSite {
    Huiyinbi,
    Sanyinshi,
    Huanqiutan,
}

/// The known site that `id` names, if any.
pub open spec fn spec_known_site(id: Seq<char>) -> Option<KnownSite> {
    if id == "huiyinbi"@ {
        Some(KnownSite::Huiyinbi)
    } else if id == "sanyinshi"@ {
        Some(KnownSite::Sanyinshi)
    } else if id == "huanqiutan"@ {
        Some(KnownSite::Huanqiutan)
    } else {
        None
    }
}

/// The display name shown for a site: the Chinese name of a known site, the id
/// itself for any other.
pub open spec fn spec_site_display_name(id: Seq<char>) -> Seq<char> {
    match spec_known_site(id) {
        Some(KnownSite::Huiyinbi) => "回音壁"@,
        Some(KnownSite::Sanyinshi) => "三音石"@,
        Some(KnownSite::Huanqiutan) => "圜丘坛"@,
        None => id,
    }
}

impl KnownSite {
    /// The id under which the site is configured.
    pub open spec fn spec_id(self) -> Seq<char> {
        match self {
            KnownSite::Huiyinbi => "huiyinbi"@,
            KnownSite::Sanyinshi => "sanyinshi"@,
            KnownSite::Huanqiutan => "huanqiutan"@,
        }
    }

    /// Recognises a site id.
    pub fn from_id(id: &str) -> (r: Option<KnownSite>)
        ensures
            r == spec_known_site(id@),
    {
        if str_eq(id, "huiyinbi") {
            Some(KnownSite::Huiyinbi)
        } else if str_eq(id, "sanyinshi") {
            Some(KnownSite::Sanyinshi)
        } else if str_eq(id, "huanqiutan") {
            Some(KnownSite::Huanqiutan)
        } else {
            None
        }
    }

    /// The id under which the site is configured.
    pub fn id(&self) -> (r: &'static str)
        ensures
            r@ == self.spec_id(),
    {
        match self {
            KnownSite::Huiyinbi => "huiyinbi",
            KnownSite::Sanyinshi => "sanyinshi",
            KnownSite::Huanqiutan => "huanqiutan",
        }
    }
}

/// The display name of the site with id `id`.
pub fn site_display_name(id: &str) -> (r: String)
    ensures
        r@ == spec_site_display_name(id@),
{
    match KnownSite::from_id(id) {
        Some(KnownSite::Huiyinbi) => String::from_str("回音壁"),
        Some(KnownSite::Sanyinshi) => String::from_str("三音石"),
        Some(KnownSite::Huanqiutan) => String::from_str("圜丘坛"),
        None => String::from_str(id),
    }
}

/// The message with which a request naming an unconfigured site is refused.
pub fn invalid_site_id_message(id: &str) -> (r: String)
    ensures
        r@ == "Invalid site_id: "@ + id@,
{
    concat_str("Invalid site_id: ", id)
}

/// Recognising a site's own id gives that site back.
pub proof fn law_known_site_id_round_trip(site: KnownSite)
    ensures
        spec_known_site(site.spec_id()) == Some(site),
{
    reveal_strlit("huiyinbi");
    reveal_strlit("sanyinshi");
    reveal_strlit("huanqiutan");
    match site {
        KnownSite::Huiyinbi => {},
        KnownSite::Sanyinshi => {
            assert("sanyinshi"@[0] != "huiyinbi"@[0]);
        },
        KnownSite::Huanqiutan => {
            assert("huanqiutan"@.len() != "huiyinbi"@.len());
            assert("huanqiutan"@.len() != "sanyinshi"@.len());
        },
    }
}

/// Exactly three ids are recognised, "huiyinbi", "sanyinshi" and "huanqiutan",
/// each the configured id of its site; a recognised site is shown under its
/// Chinese name, and any other id is shown as it is.
pub proof fn law_known_sites(id: Seq<char>, site: KnownSite)
    ensures
        spec_known_site(id) is Some <==> (id == "huiyinbi"@ || id == "sanyinshi"@
            || id == "huanqiutan"@),
        site == KnownSite::Huiyinbi ==> site.spec_id() == "huiyinbi"@,
        site == KnownSite::Sanyinshi ==> site.spec_id() == "sanyinshi"@,
        site == KnownSite::Huanqiutan ==> site.spec_id() == "huanqiutan"@,
        spec_known_site(id) == Some(KnownSite::Huiyinbi) ==> spec_site_display_name(id) == "回音壁"@,
        spec_known_site(id) == Some(KnownSite::Sanyinshi) ==> spec_site_display_name(id) == "三音石"@,
        spec_known_site(id) == Some(KnownSite::Huanqiutan) ==> spec_site_display_name(id) == "圜丘坛"@,
        spec_known_site(id) is None ==> spec_site_display_name(id) == id,
{
}

} // verus!
