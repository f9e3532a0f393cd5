use vstd::prelude::*;

verus! {

/// What the region directory said about a `region_id` in a request.
#[derive(Debug, Clone, Copy, PartialEq, Eq, Structural)]
pub enum RegionCheck {
    /// No lookup was made (no directory configured, or no region given).
    NotRequested,
    /// The region exists.
    Found,
    /// The directory does not know the region.
    NotFound,
    /// The directory could not be reached; the request goes on.
    Unavailable,
}

/// A region identifier that the directory should be asked about: present
/// and not empty.
pub open spec fn wants_region_check(region_id: Option<Seq<char>>) -> bool {
    match region_id {
        Some(r) => r.len() > 0,
        None => false,
    }
}

/// Whether a request's `region_id` should be checked with the directory.
pub fn needs_region_check(region_id: &Option<String>) -> (r: bool)
    ensures
        r == wants_region_check(crate::moderation::opt_view(*region_id)),
{
    match region_id {
        Some(r) => r.as_str().unicode_len() > 0,
        None => false,
    }
}

} // verus!

verus! {

/// What to ask the geocoder for: the free-text address and the region whose
/// name is looked up first.
pub struct GeocodePlan {
    pub address_line: Option<String>,
    pub region_id: Option<String>,
}

/// Whether an ad's place is geocoded: only with a geocoder, only when an
/// address or region is given, and, when a region is given, only with a
/// region directory to name it.
pub open spec fn geocode_wanted(
    lokasi: Option<Seq<char>>,
    region_id: Option<Seq<char>>,
    has_geocoder: bool,
    has_region_directory: bool,
) -> bool {
    has_geocoder && (lokasi is Some || region_id is Some) && (region_id is Some ==> has_region_directory)
}

/// The geocoding request for an ad's place, if one is made (an edit asks
/// only when it changes the address or region).
pub fn geocode_plan(
    lokasi: &Option<String>,
    region_id: &Option<String>,
    has_geocoder: bool,
    has_region_directory: bool,
) -> (r: Option<GeocodePlan>)
    ensures
        r is Some == geocode_wanted(
            crate::moderation::opt_view(*lokasi),
            crate::moderation::opt_view(*region_id),
            has_geocoder,
            has_region_directory,
        ),
        r matches Some(p) ==> crate::moderation::opt_view(p.address_line) == crate::moderation::opt_view(*lokasi)
            && crate::moderation::opt_view(p.region_id) == crate::moderation::opt_view(*region_id),
{
    if !has_geocoder {
        return None;
    }
    if lokasi.is_none() && region_id.is_none() {
        return None;
    }
    if region_id.is_some() && !has_region_directory {
        return None;
    }
    Some(GeocodePlan {
        address_line: crate::util::clone_opt_string(lokasi),
        region_id: crate::util::clone_opt_string(region_id),
    })
}

} // verus!
