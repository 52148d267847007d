//! The named steps of the resolution chain and the ways a step can fail.
use vstd::prelude::*;

verus! {

/// One named step of the resolution chain, in the order the chain runs them.
#[derive(Debug, Clone, Copy, PartialEq, Eq, Structural)]
pub enum Stage {
    Parcel,
    Itinerary,
    FlightPlanLink,
    User,
}

/// The stages in the order in which a resolution visits them.
pub open spec fn chain() -> Seq<Stage> {
    seq![Stage::Parcel, Stage::Itinerary, Stage::FlightPlanLink, Stage::User]
}

impl Stage {
    /// Position of the stage in `chain()`.
    pub open spec fn position(self) -> nat {
        match self {
            Stage::Parcel => 0,
            Stage::Itinerary => 1,
            Stage::FlightPlanLink => 2,
            Stage::User => 3,
        }
    }

    /// The label used for the stage in diagnostics.
    pub open spec fn label(self) -> Seq<char> {
        match self {
            Stage::Parcel => "parcel"@,
            Stage::Itinerary => "itinerary"@,
            Stage::FlightPlanLink => "flight_plan_link"@,
            Stage::User => "user"@,
        }
    }

    /// The label of the stage as a string.
    pub fn name(&self) -> (r: String)
        ensures
            r@ == self.label(),
    {
        match self {
            Stage::Parcel => "parcel".to_owned(),
            Stage::Itinerary => "itinerary".to_owned(),
            Stage::FlightPlanLink => "flight_plan_link".to_owned(),
            Stage::User => "user".to_owned(),
        }
    }
}

/// Why a resolution stopped. Each kind names the stage at which it happened.
#[derive(Debug, Clone, PartialEq, Eq)]
pub enum ResolutionError {
    /// No connected sub-client could be obtained for the stage.
    ClientUnavailable(Stage),
    /// The remote call of the stage returned an error; the cause is its message.
    UpstreamFailure(Stage, String),
    /// The remote call of the stage succeeded but carried no record.
    NotFound(Stage),
}

impl ResolutionError {
    /// The stage at which the resolution stopped.
    pub open spec fn stage_spec(&self) -> Stage {
        match self {
            ResolutionError::ClientUnavailable(k) => *k,
            ResolutionError::UpstreamFailure(k, _) => *k,
            ResolutionError::NotFound(k) => *k,
        }
    }

    /// A copy of the error, field for field.
    pub fn duplicate(&self) -> (r: ResolutionError)
        ensures
            r == *self,
    {
        match self {
            ResolutionError::ClientUnavailable(k) => ResolutionError::ClientUnavailable(*k),
            ResolutionError::UpstreamFailure(k, c) => ResolutionError::UpstreamFailure(*k, c.clone()),
            ResolutionError::NotFound(k) => ResolutionError::NotFound(*k),
        }
    }

    /// The stage at which the resolution stopped.
    pub fn stage(&self) -> (r: Stage)
        ensures
            r == self.stage_spec(),
    {
        match self {
            ResolutionError::ClientUnavailable(k) => *k,
            ResolutionError::UpstreamFailure(k, _) => *k,
            ResolutionError::NotFound(k) => *k,
        }
    }
}

} // verus!
