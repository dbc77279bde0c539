//! The GeoNames web services that the resolvers call.

use vstd::prelude::*;

verus! {

/// A GeoNames service.
#[derive(Clone, Copy, Debug, PartialEq, Eq)]
pub enum GeoNamesService {
    Postcode,
    Extended,
    Weather,
    PlacesOfInterest,
    Wikipedia,
    Address,
}

/// The method name under the GeoNames base address.
pub open spec fn method_name(s: GeoNamesService) -> Seq<char> {
    match s {
        GeoNamesService::Postcode => "findNearbyPostalCodesJSON"@,
        GeoNamesService::Extended => "extendedFindNearbyJSON"@,
        GeoNamesService::Weather => "findNearByWeatherJSON"@,
        GeoNamesService::PlacesOfInterest => "findNearbyPOIsOSMJSON"@,
        GeoNamesService::Wikipedia => "findNearbyWikipediaJSON"@,
        GeoNamesService::Address => "addressJSON"@,
    }
}

impl GeoNamesService {
    pub fn to_method_name(&self) -> (r: String)
        ensures
            r@ == method_name(*self),
    {
        let name = match self {
            GeoNamesService::Postcode => "findNearbyPostalCodesJSON",
            GeoNamesService::Extended => "extendedFindNearbyJSON",
            GeoNamesService::Weather => "findNearByWeatherJSON",
            GeoNamesService::PlacesOfInterest => "findNearbyPOIsOSMJSON",
            GeoNamesService::Wikipedia => "findNearbyWikipediaJSON",
            GeoNamesService::Address => "addressJSON",
        };
        String::from_str(name)
    }

    /// Points of interest are asked for within one kilometre, in full.
    pub fn needs_radius_and_style(&self) -> (r: bool)
        ensures
            r == (*self == GeoNamesService::PlacesOfInterest),
    {
        match self {
            GeoNamesService::PlacesOfInterest => true,
            _ => false,
        }
    }
}

}
