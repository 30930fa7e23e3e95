use vstd::prelude::*;

verus! {

/// The categories of vehicle approved to use the expressway.
#[derive(Clone, Copy, Debug, PartialEq, Eq, Structural)]
pub enum VehicleType {
    SALOON,
    BUS,
    TRAILER,
    OTHER,
}

/// The category that a free-text label names: an exact, case-sensitive match
/// of "saloon", "bus" or "trailer"; every other label is `OTHER`.
pub open spec fn spec_category_of(label: Seq<char>) -> VehicleType {
    if label == "saloon"@ {
        VehicleType::SALOON
    } else if label == "bus"@ {
        VehicleType::BUS
    } else if label == "trailer"@ {
        VehicleType::TRAILER
    } else {
        VehicleType::OTHER
    }
}

/// A registered vehicle: its category, its registration number (the unique
/// identifier, case- and whitespace-sensitive as entered) and the directed
/// route it was registered for.
#[derive(Debug)]
pub struct Vehicle {
    pub types: VehicleType,
    pub reg_no: String,
    pub from_to: String,
}

impl Clone for Vehicle {
    fn clone(&self) -> (res: Self)
        ensures
            res == *self,
    {
        Vehicle {
            types: self.types,
            reg_no: self.reg_no.clone(),
            from_to: self.from_to.clone(),
        }
    }
}

} // verus!
