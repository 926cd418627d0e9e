//! The interface every panel offers, and the names panels show for buildings.
use vstd::prelude::*;
use crate::types::BuildingType;

verus! {

/// What every panel of the interface offers: showing, closing and toggling.
pub trait Panel: Sized {
    /// Whether the panel is visible.
    spec fn panel_shown(&self) -> bool;

    /// A new panel, not yet visible.
    fn new() -> (r: Self)
        ensures
            !r.panel_shown(),
    ;

    /// Makes the panel visible.
    fn show(&mut self)
        ensures
            final(self).panel_shown(),
    ;

    /// Makes the panel invisible.
    fn close(&mut self)
        ensures
            !final(self).panel_shown(),
    ;

    /// Whether the panel is visible.
    fn is_visible(&self) -> (r: bool)
        ensures
            r == self.panel_shown(),
    ;

    /// Closes a visible panel and shows an invisible one.
    fn toggle(&mut self)
        ensures
            final(self).panel_shown() == !old(self).panel_shown(),
    {
        if self.is_visible() {
            self.close();
        } else {
            self.show();
        }
    }
}

/// The name a panel shows for a building type.
pub open spec fn building_display_name(building_type: BuildingType) -> Seq<char> {
    match building_type {
        BuildingType::Mine => "Mining Facility"@,
        BuildingType::Farm => "Agricultural Complex"@,
        BuildingType::PowerPlant => "Power Generation Plant"@,
        BuildingType::Factory => "Industrial Factory"@,
        BuildingType::ResearchLab => "Research Laboratory"@,
        BuildingType::Spaceport => "Orbital Spaceport"@,
        BuildingType::DefensePlatform => "Defense Platform"@,
        BuildingType::StorageFacility => "Storage Facility"@,
        BuildingType::Habitat => "Residential Habitat"@,
    }
}

/// The name a panel shows for a building type.
pub fn format_building_name(building_type: BuildingType) -> (r: &'static str)
    ensures
        r@ == building_display_name(building_type),
{
    match building_type {
        BuildingType::Mine => "Mining Facility",
        BuildingType::Farm => "Agricultural Complex",
        BuildingType::PowerPlant => "Power Generation Plant",
        BuildingType::Factory => "Industrial Factory",
        BuildingType::ResearchLab => "Research Laboratory",
        BuildingType::Spaceport => "Orbital Spaceport",
        BuildingType::DefensePlatform => "Defense Platform",
        BuildingType::StorageFacility => "Storage Facility",
        BuildingType::Habitat => "Residential Habitat",
    }
}

} // verus!
