//! The parts of the crowd-noise simulation that decide rather than compute:
//! how each noise source is grouped in the contribution report, and on what
//! the noise-free speech transmission index of a site is based.
use vstd::prelude::*;
use crate::measurement::{is_listed, listed};
use crate::site::{KnownSite, spec_known_site};
use crate::text::{concat_str, decimal, decimal_string, seq_contains, str_contains};

verus! {

/// The key under which a noise source is reported: its group id, or
/// `noise_<index>` for a source without a group.
pub open spec fn spec_noise_group_key(group_id: Option<String>, index: nat) -> Seq<char> {
    match group_id {
        Some(g) => g@,
        None => "noise_"@ + decimal(index),
    }
}

/// The key under which the noise source at position `index` is reported.
pub fn noise_group_key(group_id: &Option<String>, index: usize) -> (r: String)
    ensures
        r@ == spec_noise_group_key(*group_id, index as nat),
{
    match group_id {
        Some(g) => g.clone(),
        None => {
            let digits = decimal_string(index);
            concat_str("noise_", digits.as_str())
        },
    }
}

/// Two ungrouped sources at different positions are reported under different
/// keys.
pub proof fn law_ungrouped_keys_distinct(i: nat, j: nat)
    requires
        i != j,
    ensures
        spec_noise_group_key(None, i) != spec_noise_group_key(None, j),
{
    if spec_noise_group_key(None, i) == spec_noise_group_key(None, j) {
        let p = "noise_"@;
        assert(spec_noise_group_key(None, i).skip(p.len() as int) =~= decimal(i));
        assert(spec_noise_group_key(None, j).skip(p.len() as int) =~= decimal(j));
        crate::text::law_decimal_injective(i, j);
    }
}

/// What the noise-free speech transmission index of a site is based on.
#[derive(PartialEq, Eq, Structural, Clone, Copy, Debug)]
pub enum CleanStiBasis {
    /// A fixed value for each of the three temple sites.
    Known(KnownSite),
    /// A temple id found among the ancient buildings: derived from its T60.
    AncientBuilding,
    /// A temple id that no ancient building has.
    UnlistedTemple,
    /// A hall id found among the concert halls: derived from its T60.
    ConcertHall,
    /// A hall id that no concert hall has.
    UnlistedHall,
    /// Any other id.
    Other,
}

/// The basis of the noise-free index of site `id`: a temple site first; then an
/// id containing "temple" is looked up among the ancient buildings, one
/// containing "hall" among the concert halls.
pub open spec fn spec_clean_sti_basis(id: Seq<char>, ancient: Seq<String>, halls: Seq<String>) -> CleanStiBasis {
    match spec_known_site(id) {
        Some(k) => CleanStiBasis::Known(k),
        None => if seq_contains(id, "temple"@) {
            if listed(ancient, id) {
                CleanStiBasis::AncientBuilding
            } else {
                CleanStiBasis::UnlistedTemple
            }
        } else if seq_contains(id, "hall"@) {
            if listed(halls, id) {
                CleanStiBasis::ConcertHall
            } else {
                CleanStiBasis::UnlistedHall
            }
        } else {
            CleanStiBasis::Other
        },
    }
}

/// Decides on what the noise-free index of site `site_id` is based, given the
/// ids of the ancient buildings and of the concert halls.
pub fn clean_sti_basis(site_id: &str, ancient: &Vec<String>, halls: &Vec<String>) -> (r: CleanStiBasis)
    ensures
        r == spec_clean_sti_basis(site_id@, ancient@, halls@),
{
    match KnownSite::from_id(site_id) {
        Some(k) => CleanStiBasis::Known(k),
        None => {
            if str_contains(site_id, "temple") {
                if is_listed(ancient, site_id) {
                    CleanStiBasis::AncientBuilding
                } else {
                    CleanStiBasis::UnlistedTemple
                }
            } else if str_contains(site_id, "hall") {
                if is_listed(halls, site_id) {
                    CleanStiBasis::ConcertHall
                } else {
                    CleanStiBasis::UnlistedHall
                }
            } else {
                CleanStiBasis::Other
            }
        },
    }
}

/// What the noise-free index of a site is based on, by membership: one of the
/// three temple sites keeps its own value; any other id containing "temple" is
/// based on the ancient building of that id wherever it stands in the list of
/// ancient buildings, and is an unlisted temple when no entry has it; an id
/// containing "hall" but not "temple" is looked up the same way among the
/// concert halls; any other id is neither.
pub proof fn law_clean_sti_basis_by_membership(id: Seq<char>, ancient: Seq<String>, halls: Seq<String>)
    ensures
        spec_known_site(id) matches Some(k) ==> spec_clean_sti_basis(id, ancient, halls)
            == CleanStiBasis::Known(k),
        spec_known_site(id) is None && seq_contains(id, "temple"@) ==> (
            spec_clean_sti_basis(id, ancient, halls) == CleanStiBasis::AncientBuilding
                <==> exists|i: int| 0 <= i < ancient.len() && (#[trigger] ancient[i])@ == id),
        spec_known_site(id) is None && seq_contains(id, "temple"@) ==> (
            spec_clean_sti_basis(id, ancient, halls) == CleanStiBasis::UnlistedTemple
                <==> forall|i: int| 0 <= i < ancient.len() ==> (#[trigger] ancient[i])@ != id),
        spec_known_site(id) is None && !seq_contains(id, "temple"@) && seq_contains(id, "hall"@) ==> (
            spec_clean_sti_basis(id, ancient, halls) == CleanStiBasis::ConcertHall
                <==> exists|i: int| 0 <= i < halls.len() && (#[trigger] halls[i])@ == id),
        spec_known_site(id) is None && !seq_contains(id, "temple"@) && seq_contains(id, "hall"@) ==> (
            spec_clean_sti_basis(id, ancient, halls) == CleanStiBasis::UnlistedHall
                <==> forall|i: int| 0 <= i < halls.len() ==> (#[trigger] halls[i])@ != id),
        spec_known_site(id) is None && !seq_contains(id, "temple"@) && !seq_contains(id, "hall"@)
            ==> spec_clean_sti_basis(id, ancient, halls) == CleanStiBasis::Other,
{
}

/// Listing more ancient buildings or concert halls never takes a site's
/// basis away from the building or hall it was based on.
pub proof fn law_clean_sti_basis_more_listed(
    id: Seq<char>,
    ancient: Seq<String>,
    halls: Seq<String>,
    more_ancient: Seq<String>,
    more_halls: Seq<String>,
)
    ensures
        spec_clean_sti_basis(id, ancient, halls) == CleanStiBasis::AncientBuilding
            ==> spec_clean_sti_basis(id, ancient + more_ancient, halls + more_halls)
            == CleanStiBasis::AncientBuilding,
        spec_clean_sti_basis(id, ancient, halls) == CleanStiBasis::ConcertHall
            ==> spec_clean_sti_basis(id, ancient + more_ancient, halls + more_halls)
            == CleanStiBasis::ConcertHall,
{
    if spec_clean_sti_basis(id, ancient, halls) == CleanStiBasis::AncientBuilding {
        let i = choose|i: int| 0 <= i < ancient.len() && (#[trigger] ancient[i])@ == id;
        assert((ancient + more_ancient)[i] == ancient[i]);
    }
    if spec_clean_sti_basis(id, ancient, halls) == CleanStiBasis::ConcertHall {
        let i = choose|i: int| 0 <= i < halls.len() && (#[trigger] halls[i])@ == id;
        assert((halls + more_halls)[i] == halls[i]);
    }
}

} // verus!
