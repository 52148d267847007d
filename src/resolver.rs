//! The confirmation resolver, written as a state machine.
//!
//! A `Resolution` runs the chain parcel → itinerary → flight-plan links → user
//! for one parcel id. It never talks to the storage service itself: the caller
//! asks it for the next `Action`, performs that action against the storage
//! gateway, and hands the outcome back as an `Event`. The first failure ends
//! the resolution, and a finished resolution accepts no further event.
use vstd::prelude::*;
use crate::stage::{chain, ResolutionError, Stage};

verus! {

/// A parcel record; only `itinerary_id` is used downstream.
#[derive(Debug, Clone, PartialEq, Eq)]
pub struct Parcel {
    pub id: String,
    pub itinerary_id: String,
}

/// An itinerary record; only `user_id` is used downstream.
#[derive(Debug, Clone, PartialEq, Eq)]
pub struct Itinerary {
    pub id: String,
    pub user_id: String,
}

/// The flight plans linked to an itinerary, in the order the gateway lists them.
#[derive(Debug, Clone, PartialEq, Eq)]
pub struct FlightPlanLinkSet {
    pub flight_plan_ids: Vec<String>,
}

/// A user record; only `display_name` is used downstream.
#[derive(Debug, Clone, PartialEq, Eq)]
pub struct User {
    pub id: String,
    pub display_name: String,
}

/// What a successful resolution gathered for the confirmation notice. The
/// route and time fields have no data source in the chain and stay unset.
#[derive(Debug, Clone, PartialEq, Eq)]
pub struct ConfirmationInfo {
    pub parcel_id: String,
    pub itinerary_id: String,
    pub display_name: String,
    pub departure_port_name: Option<String>,
    pub arrival_port_name: Option<String>,
    pub departure_timestamp: Option<String>,
    pub arrival_timestamp: Option<String>,
}

/// The answer given to the caller of a confirmation request.
#[derive(Debug, Clone, Copy, PartialEq, Eq, Structural)]
pub struct ConfirmationResult {
    pub success: bool,
}

/// The outcome of the last action, reported back to the resolution.
#[derive(Debug, Clone, PartialEq, Eq)]
pub enum Event {
    /// A connected sub-client was obtained.
    ClientAcquired,
    /// No connected sub-client could be obtained.
    ClientUnavailable,
    /// The remote call returned an error with this message.
    CallFailed(String),
    /// The parcel lookup answered; `None` when the reply had no record.
    ParcelFetched(Option<Parcel>),
    /// The itinerary lookup answered; `None` when the reply had no record.
    ItineraryFetched(Option<Itinerary>),
    /// The flight-plan-link lookup answered; `None` when the reply had no body.
    LinksFetched(Option<FlightPlanLinkSet>),
    /// The user lookup answered; `None` when the reply had no record.
    UserFetched(Option<User>),
}

/// What the caller has to do next.
#[derive(Debug, PartialEq, Eq)]
pub enum Action {
    /// Obtain a connected sub-client for the stage.
    AcquireClient(Stage),
    /// Issue the read of the stage with this identifier.
    Call(Stage, String),
    /// The resolution is over; answer the request with this.
    Finish(Result<ConfirmationResult, ResolutionError>),
}

/// Where a resolution stands.
#[derive(Debug, PartialEq, Eq)]
pub enum Phase {
    /// Waiting for a sub-client of the stage.
    AwaitClient(Stage),
    /// Waiting for the reply to the stage's read.
    AwaitReply(Stage),
    /// Over, with the gathered information or the first failure.
    Finished(Result<ConfirmationInfo, ResolutionError>),
}

/// One resolution of a parcel id. Each resolution owns all of its state.
#[derive(Debug)]
pub struct Resolution {
    pub parcel_id: String,
    /// Taken from the parcel record; empty until then.
    pub itinerary_id: String,
    /// Taken from the itinerary record; empty until then.
    pub user_id: String,
    /// The flight plans linked to the itinerary; empty until fetched.
    pub linked_flight_plans: Vec<String>,
    pub phase: Phase,
    /// The stages whose remote read has been issued, in order.
    pub calls: Vec<Stage>,
}

/// The read of each stage comes after that of every earlier stage.
pub open spec fn calls_so_far(n: nat) -> Seq<Stage> {
    chain().take(n as int)
}

impl Resolution {
    /// The calls made agree with the phase: a stage's read is issued only
    /// after every earlier stage has fully succeeded.
    pub open spec fn wf(&self) -> bool {
        match self.phase {
            Phase::AwaitClient(k) => self.calls@ == calls_so_far(k.position()),
            Phase::AwaitReply(k) => self.calls@ == calls_so_far(k.position() + 1),
            Phase::Finished(r) => match r {
                Ok(_) => self.calls@ == chain(),
                Err(e) => self.calls@ == calls_so_far(e.stage_spec().position())
                    || self.calls@ == calls_so_far(e.stage_spec().position() + 1),
            },
        }
    }

    /// A fresh resolution of `parcel_id`.
    pub open spec fn is_start(&self, parcel_id: String) -> bool {
        &&& self.parcel_id == parcel_id
        &&& self.phase == Phase::AwaitClient(Stage::Parcel)
        &&& self.itinerary_id@ == Seq::<char>::empty()
        &&& self.user_id@ == Seq::<char>::empty()
        &&& self.calls@ == Seq::<Stage>::empty()
        &&& self.linked_flight_plans@ == Seq::<String>::empty()
    }

    pub open spec fn is_finished(&self) -> bool {
        self.phase is Finished
    }

    /// Whether `e` answers the action the resolution is waiting on.
    pub open spec fn accepts_spec(&self, e: Event) -> bool {
        match self.phase {
            Phase::AwaitClient(_) => e is ClientAcquired || e is ClientUnavailable,
            Phase::AwaitReply(k) => e is CallFailed || match k {
                Stage::Parcel => e is ParcelFetched,
                Stage::Itinerary => e is ItineraryFetched,
                Stage::FlightPlanLink => e is LinksFetched,
                Stage::User => e is UserFetched,
            },
            Phase::Finished(_) => false,
        }
    }

    /// The identifier that the read of stage `k` takes.
    pub open spec fn key_of(&self, k: Stage) -> String {
        match k {
            Stage::Parcel => self.parcel_id,
            Stage::Itinerary => self.itinerary_id,
            Stage::FlightPlanLink => self.itinerary_id,
            Stage::User => self.user_id,
        }
    }

    /// The action the resolution waits on.
    pub open spec fn action_spec(&self) -> Action {
        match self.phase {
            Phase::AwaitClient(k) => Action::AcquireClient(k),
            Phase::AwaitReply(k) => Action::Call(k, self.key_of(k)),
            Phase::Finished(r) => match r {
                Ok(_) => Action::Finish(Ok(ConfirmationResult { success: true })),
                Err(e) => Action::Finish(Err(e)),
            },
        }
    }

    /// `t` keeps the identifiers and flight plans of `s`.
    pub open spec fn same_data(s: Resolution, t: Resolution) -> bool {
        &&& t.parcel_id == s.parcel_id
        &&& t.itinerary_id == s.itinerary_id
        &&& t.user_id == s.user_id
        &&& t.linked_flight_plans@ == s.linked_flight_plans@
    }

    /// `t` is `s` finished with failure `err`; no call is added.
    pub open spec fn fails_with(s: Resolution, t: Resolution, err: ResolutionError) -> bool {
        &&& Self::same_data(s, t)
        &&& t.calls@ == s.calls@
        &&& t.phase == Phase::<>::Finished(Err(err))
    }

    /// `t` is what `s` becomes on the accepted event `e`.
    pub open spec fn step_to(s: Resolution, e: Event, t: Resolution) -> bool {
        match s.phase {
            Phase::AwaitClient(k) => match e {
                Event::ClientAcquired => {
                    &&& Self::same_data(s, t)
                    &&& t.calls@ == s.calls@.push(k)
                    &&& t.phase == Phase::AwaitReply(k)
                },
                _ => Self::fails_with(s, t, ResolutionError::ClientUnavailable(k)),
            },
            Phase::AwaitReply(k) => match e {
                Event::CallFailed(cause) => Self::fails_with(
                    s,
                    t,
                    ResolutionError::UpstreamFailure(k, cause),
                ),
                Event::ParcelFetched(Some(p)) => {
                    &&& t.parcel_id == s.parcel_id
                    &&& t.itinerary_id == p.itinerary_id
                    &&& t.user_id == s.user_id
                    &&& t.linked_flight_plans@ == s.linked_flight_plans@
                    &&& t.calls@ == s.calls@
                    &&& t.phase == Phase::AwaitClient(Stage::Itinerary)
                },
                Event::ItineraryFetched(Some(i)) => {
                    &&& t.parcel_id == s.parcel_id
                    &&& t.itinerary_id == s.itinerary_id
                    &&& t.user_id == i.user_id
                    &&& t.linked_flight_plans@ == s.linked_flight_plans@
                    &&& t.calls@ == s.calls@
                    &&& t.phase == Phase::AwaitClient(Stage::FlightPlanLink)
                },
                Event::LinksFetched(Some(l)) => {
                    &&& t.parcel_id == s.parcel_id
                    &&& t.itinerary_id == s.itinerary_id
                    &&& t.user_id == s.user_id
                    &&& t.linked_flight_plans@ == l.flight_plan_ids@
                    &&& t.calls@ == s.calls@
                    &&& t.phase == Phase::AwaitClient(Stage::User)
                },
                Event::UserFetched(Some(u)) => {
                    &&& Self::same_data(s, t)
                    &&& t.calls@ == s.calls@
                    &&& t.phase == Phase::Finished(
                        Ok(
                            ConfirmationInfo {
                                parcel_id: s.parcel_id,
                                itinerary_id: s.itinerary_id,
                                display_name: u.display_name,
                                departure_port_name: None,
                                arrival_port_name: None,
                                departure_timestamp: None,
                                arrival_timestamp: None,
                            },
                        ),
                    )
                },
                _ => Self::fails_with(s, t, ResolutionError::NotFound(k)),
            },
            Phase::Finished(_) => false,
        }
    }

    /// Starts the resolution of `parcel_id`: the first action asks for a
    /// parcel sub-client.
    pub fn new(parcel_id: String) -> (r: Resolution)
        ensures
            r.is_start(parcel_id),
            r.wf(),
    {
        let r = Resolution {
            parcel_id,
            itinerary_id: String::new(),
            user_id: String::new(),
            linked_flight_plans: Vec::new(),
            phase: Phase::AwaitClient(Stage::Parcel),
            calls: Vec::new(),
        };
        assert(r.calls@ =~= calls_so_far(0));
        r
    }

    /// Whether the resolution is over.
    pub fn finished(&self) -> (r: bool)
        ensures
            r == self.is_finished(),
    {
        matches!(self.phase, Phase::Finished(_))
    }

    /// Whether `e` answers the action the resolution is waiting on.
    pub fn accepts(&self, e: &Event) -> (r: bool)
        ensures
            r == self.accepts_spec(*e),
    {
        match self.phase {
            Phase::AwaitClient(_) => matches!(e, Event::ClientAcquired | Event::ClientUnavailable),
            Phase::AwaitReply(k) => match e {
                Event::CallFailed(_) => true,
                Event::ParcelFetched(_) => k == Stage::Parcel,
                Event::ItineraryFetched(_) => k == Stage::Itinerary,
                Event::LinksFetched(_) => k == Stage::FlightPlanLink,
                Event::UserFetched(_) => k == Stage::User,
                _ => false,
            },
            Phase::Finished(_) => false,
        }
    }

    /// The action the resolution waits on. Once finished, the action carries
    /// the answer to the request: `success: true`, or the first failure.
    pub fn next_action(&self) -> (r: Action)
        ensures
            r == self.action_spec(),
    {
        match &self.phase {
            Phase::AwaitClient(k) => Action::AcquireClient(*k),
            Phase::AwaitReply(k) => {
                let key = match k {
                    Stage::Parcel => self.parcel_id.clone(),
                    Stage::Itinerary => self.itinerary_id.clone(),
                    Stage::FlightPlanLink => self.itinerary_id.clone(),
                    Stage::User => self.user_id.clone(),
                };
                Action::Call(*k, key)
            },
            Phase::Finished(Ok(_)) => Action::Finish(Ok(ConfirmationResult { success: true })),
            Phase::Finished(Err(e)) => Action::Finish(Err(e.duplicate())),
        }
    }

    fn fail(&mut self, err: ResolutionError)
        ensures
            Self::fails_with(*old(self), *final(self), err),
    {
        self.phase = Phase::Finished(Err(err));
    }

    /// Takes in the outcome of the action the resolution waited on.
    pub fn advance(&mut self, e: Event)
        requires
            old(self).accepts_spec(e),
        ensures
            Self::step_to(*old(self), e, *final(self)),
            old(self).wf() ==> final(self).wf(),
    {
        let ghost s = *self;
        match self.phase {
            Phase::AwaitClient(k) => match e {
                Event::ClientAcquired => {
                    self.calls.push(k);
                    self.phase = Phase::AwaitReply(k);
                    proof {
                        if s.wf() {
                            assert(self.calls@ =~= calls_so_far(k.position() + 1));
                        }
                    }
                },
                _ => self.fail(ResolutionError::ClientUnavailable(k)),
            },
            Phase::AwaitReply(k) => match e {
                Event::CallFailed(cause) => self.fail(ResolutionError::UpstreamFailure(k, cause)),
                Event::ParcelFetched(Some(p)) => {
                    self.itinerary_id = p.itinerary_id;
                    self.phase = Phase::AwaitClient(Stage::Itinerary);
                },
                Event::ItineraryFetched(Some(i)) => {
                    self.user_id = i.user_id;
                    self.phase = Phase::AwaitClient(Stage::FlightPlanLink);
                },
                Event::LinksFetched(Some(l)) => {
                    self.linked_flight_plans = l.flight_plan_ids;
                    self.phase = Phase::AwaitClient(Stage::User);
                },
                Event::UserFetched(Some(u)) => {
                    let info = ConfirmationInfo {
                        parcel_id: self.parcel_id.clone(),
                        itinerary_id: self.itinerary_id.clone(),
                        display_name: u.display_name,
                        departure_port_name: None,
                        arrival_port_name: None,
                        departure_timestamp: None,
                        arrival_timestamp: None,
                    };
                    self.phase = Phase::Finished(Ok(info));
                },
                _ => self.fail(ResolutionError::NotFound(k)),
            },
            Phase::Finished(_) => {},
        }
        proof {
            if s.wf() {
                assert(calls_so_far(4) =~= chain());
            }
        }
    }
}

} // verus!
