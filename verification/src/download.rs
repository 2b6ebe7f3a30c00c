//! The tile fetch scheduler: the decisions of the download loop, as a
//! state machine over the set of in-flight fetches, together with the
//! classification of what a fetch brought back.
//!
//! The loop itself — awaiting the request channel, issuing HTTP requests,
//! sending results — is asynchronous I/O and lives with the host; it feeds
//! every outcome into [`Scheduler::step`] and performs the action that
//! comes back.

use vstd::prelude::*;
use crate::tiles::TileId;

verus! {

/// The ceiling on simultaneously in-flight fetch-and-decode operations.
/// Requests beyond it stay buffered in the request channel, which is the
/// backpressure on whoever feeds it.
pub const MAX_IN_FLIGHT: usize = 6;

/// Controls how the tile fetcher uses the HTTP protocol, such as caching.
pub struct HttpOptions {
    /// Path to the directory to store the HTTP cache, if any.
    ///
    /// Keep in mind that some providers require clients to respect the
    /// HTTP `Expires` header. Interpreted by the underlying network
    /// client, not by the scheduler's control logic.
    pub cache: Option<String>,
}

impl Default for HttpOptions {
    /// By default nothing is cached.
    fn default() -> (r: HttpOptions)
        ensures
            r.cache is None,
    {
        HttpOptions { cache: None }
    }
}

/// Why one fetch delivered no tile. Each is per-fetch and non-fatal: the
/// scheduler logs and discards it and never retries on its own.
#[derive(Clone, Copy, PartialEq, Eq, Structural, Debug)]
pub enum FetchError {
    /// The network transport failed before any response arrived.
    TransportFailure,
    /// A response arrived with a non-success HTTP status.
    ResponseFailure,
    /// The body arrived but no image decoder accepts it.
    DecodeFailure,
}

/// Classify an HTTP status code: exactly the non-success codes (anything
/// outside 200..=299) are a [`FetchError::ResponseFailure`].
pub fn check_status(status: u16) -> (r: Result<(), FetchError>)
    ensures
        r is Ok <==> 200 <= status <= 299,
        r matches Err(e) ==> e == FetchError::ResponseFailure,
{
    if 200 <= status && status <= 299 {
        Ok(())
    } else {
        Err(FetchError::ResponseFailure)
    }
}

#[verifier::external_type_specification]
#[verifier::external_body]
pub struct ExDynamicImage(image::DynamicImage);

#[verifier::external_type_specification]
#[verifier::external_body]
pub struct ExImageError(image::ImageError);

/// Whether the image crate's built-in decoders accept these bytes as an
/// image.
pub uninterp spec fn image_decodes(bytes: Seq<u8>) -> bool;

/// Relies on image::guess_format, which reads only the crate's static
/// magic-byte table, and image::load_from_memory_with_format, which with
/// a built-in format never consults the crate's registries of
/// process-global hooks. So, unlike image::load_from_memory, whether this
/// pair succeeds is a function of the bytes alone.
#[verifier::external_body]
fn load_image(bytes: &Vec<u8>) -> (r: Result<image::DynamicImage, image::ImageError>)
    ensures
        r is Ok <==> image_decodes(bytes@),
{
    let format = image::guess_format(bytes.as_slice())?;
    image::load_from_memory_with_format(bytes.as_slice(), format)
}

/// Decode a fetched body as an image; bytes that no decoder accepts are
/// exactly the [`FetchError::DecodeFailure`] outcomes.
pub fn decode_tile(bytes: &Vec<u8>) -> (r: Result<image::DynamicImage, FetchError>)
    ensures
        r is Ok <==> image_decodes(bytes@),
        r matches Err(e) ==> e == FetchError::DecodeFailure,
{
    match load_image(bytes) {
        Ok(img) => Ok(img),
        Err(_) => Err(FetchError::DecodeFailure),
    }
}

/// One thing the download loop learns while it waits.
#[derive(Clone, Copy, PartialEq, Eq, Debug)]
pub enum SchedulerEvent {
    /// The request channel handed over the next wanted tile.
    RequestArrived(TileId),
    /// The request channel's producer went away.
    RequestChannelClosed,
    /// The in-flight fetch at this index finished, well or badly.
    FetchCompleted(usize, Result<(), FetchError>),
    /// A finished tile could not be sent: the result channel's receiver
    /// went away.
    DeliveryFailed,
}

/// What the download loop must do next.
#[derive(Clone, Copy, PartialEq, Eq, Structural, Debug)]
pub enum SchedulerAction {
    /// Launch a fetch-and-decode task for this tile.
    StartFetch(TileId),
    /// Hand the finished tile to the result channel and request a repaint.
    Deliver(TileId),
    /// Log the failure with its tile and move on; the tile is simply
    /// never delivered.
    Discard(TileId, FetchError),
    /// A channel end went away: end the loop, reporting once.
    Shutdown,
}

/// The scheduler's three phases, by how full the in-flight set is.
#[derive(Clone, Copy, PartialEq, Eq, Structural, Debug)]
pub enum Phase {
    /// Nothing in flight: the loop blocks until a request arrives.
    Idle,
    /// Some slots taken: the loop races the next request against the
    /// completions.
    Filling,
    /// Every slot taken: the loop stops pulling requests and waits for a
    /// completion only.
    Saturated,
}

/// Which events the loop can legally feed to a scheduler in this state:
/// it only awaits the request channel (and so can only see a request or
/// its closing) below the ceiling, and a completion needs an in-flight
/// fetch at that index.
pub open spec fn admits(s: Seq<TileId>, event: SchedulerEvent) -> bool {
    match event {
        SchedulerEvent::RequestArrived(_) => s.len() < MAX_IN_FLIGHT,
        SchedulerEvent::RequestChannelClosed => s.len() < MAX_IN_FLIGHT,
        SchedulerEvent::FetchCompleted(i, _) => i < s.len(),
        SchedulerEvent::DeliveryFailed => true,
    }
}

/// The transition function: the in-flight set after the event, and the
/// action the loop must take. A request starts a fetch; a completion
/// frees its slot and is delivered if it succeeded, discarded with its
/// failure if not; a closed channel or a failed delivery shuts the loop
/// down.
pub open spec fn spec_step(s: Seq<TileId>, event: SchedulerEvent) -> (Seq<TileId>, SchedulerAction) {
    match event {
        SchedulerEvent::RequestArrived(id) => (s.push(id), SchedulerAction::StartFetch(id)),
        SchedulerEvent::RequestChannelClosed => (s, SchedulerAction::Shutdown),
        SchedulerEvent::FetchCompleted(i, outcome) => (
            s.remove(i as int),
            match outcome {
                Ok(_) => SchedulerAction::Deliver(s[i as int]),
                Err(e) => SchedulerAction::Discard(s[i as int], e),
            },
        ),
        SchedulerEvent::DeliveryFailed => (s, SchedulerAction::Shutdown),
    }
}

/// The coordinating state of the download loop: which tiles are in
/// flight. Owned by exactly one loop; nothing else touches it.
pub struct Scheduler {
    in_flight: Vec<TileId>,
}

impl View for Scheduler {
    type V = Seq<TileId>;

    closed spec fn view(&self) -> Seq<TileId> {
        self.in_flight@
    }
}

impl Scheduler {
    /// A scheduler never tracks more than [`MAX_IN_FLIGHT`] fetches.
    pub open spec fn wf(self) -> bool {
        self@.len() <= MAX_IN_FLIGHT
    }

    /// A fresh loop with nothing in flight.
    pub fn new() -> (r: Scheduler)
        ensures
            r@ =~= Seq::<TileId>::empty(),
            r.wf(),
    {
        Scheduler { in_flight: Vec::new() }
    }

    /// How many fetches are in flight.
    pub fn in_flight_count(&self) -> (n: usize)
        ensures
            n == self@.len(),
    {
        self.in_flight.len()
    }

    /// Which tile the in-flight slot holds.
    pub fn in_flight_tile(&self, i: usize) -> (t: TileId)
        requires
            i < self@.len(),
        ensures
            t == self@[i as int],
    {
        self.in_flight[i]
    }

    /// The phase the loop is in; see [`Phase`].
    pub open spec fn spec_phase(self) -> Phase {
        if self@.len() == 0 {
            Phase::Idle
        } else if self@.len() < MAX_IN_FLIGHT {
            Phase::Filling
        } else {
            Phase::Saturated
        }
    }

    /// See [`Self::spec_phase`].
    pub fn phase(&self) -> (p: Phase)
        ensures
            p == self.spec_phase(),
    {
        let n = self.in_flight.len();
        if n == 0 {
            Phase::Idle
        } else if n < MAX_IN_FLIGHT {
            Phase::Filling
        } else {
            Phase::Saturated
        }
    }

    /// Whether the loop may pull another request: only below the ceiling.
    pub fn wants_request(&self) -> (b: bool)
        ensures
            b == (self@.len() < MAX_IN_FLIGHT),
            b == (self.spec_phase() !is Saturated),
    {
        self.in_flight.len() < MAX_IN_FLIGHT
    }

    /// Feed one event in and learn what to do, as [`spec_step`] says.
    pub fn step(&mut self, event: SchedulerEvent) -> (action: SchedulerAction)
        requires
            old(self).wf(),
            admits(old(self)@, event),
        ensures
            final(self).wf(),
            final(self)@ == spec_step(old(self)@, event).0,
            action == spec_step(old(self)@, event).1,
    {
        match event {
            SchedulerEvent::RequestArrived(id) => {
                self.in_flight.push(id);
                SchedulerAction::StartFetch(id)
            },
            SchedulerEvent::RequestChannelClosed => SchedulerAction::Shutdown,
            SchedulerEvent::FetchCompleted(i, outcome) => {
                let id = self.in_flight.remove(i);
                match outcome {
                    Ok(_) => SchedulerAction::Deliver(id),
                    Err(e) => SchedulerAction::Discard(id, e),
                }
            },
            SchedulerEvent::DeliveryFailed => SchedulerAction::Shutdown,
        }
    }
}

/// Law: the concurrency ceiling holds. Every admissible event keeps the
/// in-flight set at or under [`MAX_IN_FLIGHT`], and a fetch is only ever
/// started strictly under the ceiling — so a seventh fetch cannot start
/// before a completion.
pub proof fn lemma_concurrency_ceiling(s: Seq<TileId>, event: SchedulerEvent)
    requires
        s.len() <= MAX_IN_FLIGHT,
        admits(s, event),
    ensures
        spec_step(s, event).0.len() <= MAX_IN_FLIGHT,
        spec_step(s, event).1 matches SchedulerAction::StartFetch(..) ==> s.len() < MAX_IN_FLIGHT,
        s.len() == MAX_IN_FLIGHT ==> event matches SchedulerEvent::FetchCompleted(..)
            || event is DeliveryFailed,
{
}

/// Whether every event of a run is the arrival of a request.
pub open spec fn all_requests(events: Seq<SchedulerEvent>) -> bool {
    forall|i: int|
        0 <= i < events.len() ==> (#[trigger] events[i]) matches SchedulerEvent::RequestArrived(..)
}

/// Whether a run of events is admissible one after another from this
/// in-flight set.
pub open spec fn run_admitted(s: Seq<TileId>, events: Seq<SchedulerEvent>) -> bool
    decreases events.len(),
{
    events.len() == 0 || (admits(s, events[0]) && run_admitted(
        spec_step(s, events[0]).0,
        events.drop_first(),
    ))
}

/// Law: a burst of requests with no completion among them is cut off at
/// the ceiling: the scheduler can admit at most
/// `MAX_IN_FLIGHT - s.len()` of them in a row, so of a burst of more than
/// [`MAX_IN_FLIGHT`] requests, the seventh and later wait for a
/// completion.
pub proof fn lemma_burst_bounded(s: Seq<TileId>, events: Seq<SchedulerEvent>)
    requires
        s.len() <= MAX_IN_FLIGHT,
        all_requests(events),
        run_admitted(s, events),
    ensures
        s.len() + events.len() <= MAX_IN_FLIGHT,
    decreases events.len(),
{
    if events.len() > 0 {
        let s1 = spec_step(s, events[0]).0;
        assert(s1.len() == s.len() + 1);
        assert(all_requests(events.drop_first())) by {
            assert forall|i: int| 0 <= i < events.drop_first().len() implies (
            #[trigger] events.drop_first()[i]) matches SchedulerEvent::RequestArrived(..) by {
                assert(events.drop_first()[i] == events[i + 1]);
            }
        }
        lemma_burst_bounded(s1, events.drop_first());
    }
}

/// Law: liveness after saturation. At the ceiling any completion is
/// admissible, it steps the loop down to [`Phase::Filling`], and the next
/// buffered request is admissible right away.
pub proof fn lemma_completion_admits_next(
    s: Seq<TileId>,
    i: usize,
    outcome: Result<(), FetchError>,
    next: TileId,
)
    requires
        s.len() == MAX_IN_FLIGHT,
        i < s.len(),
    ensures
        admits(s, SchedulerEvent::FetchCompleted(i, outcome)),
        spec_step(s, SchedulerEvent::FetchCompleted(i, outcome)).0.len() == MAX_IN_FLIGHT - 1,
        admits(
            spec_step(s, SchedulerEvent::FetchCompleted(i, outcome)).0,
            SchedulerEvent::RequestArrived(next),
        ),
{
}

} // verus!
