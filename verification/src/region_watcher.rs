//! The region watcher: keeps the region parameters fresh, and publishes them
//! on a channel whose readers always see the latest value.
//!
//! The watcher decides; its driver sleeps, fetches and listens for shutdown,
//! and tells the watcher what happened.

use vstd::prelude::*;
use vstd::arithmetic::power2::{lemma_pow2_pos, lemma_pow2_unfold, pow2};
use crate::error::Error;
use crate::region::{Region, RegionParams, RegionParamsView};

verus! {

/// Number of attempts over which the wait between fetches backs off.
pub const REGION_BACKOFF_RETRIES: u32 = 10;

/// Shortest wait between fetches, in milliseconds.
pub const REGION_BACKOFF_MIN_WAIT: u64 = 5_000;

/// Longest wait between fetches, in milliseconds: 60 minutes.
pub const REGION_BACKOFF_MAX_WAIT: u64 = 3_600_000;

/// Smallest share of the nominal wait, in percent, that jitter leaves.
pub const JITTER_LOW: u64 = 71;

/// Largest share of the nominal wait, in percent, that jitter makes of it.
pub const JITTER_HIGH: u64 = 129;

/// The sending half of a `tokio::sync::watch` channel, which holds one
/// value at a time.
#[verifier::external_type_specification]
#[verifier::external_body]
#[verifier::reject_recursive_types(T)]
pub struct ExWatchSender<T>(tokio::sync::watch::Sender<T>);

/// A receiving half of a `tokio::sync::watch` channel.
#[verifier::external_type_specification]
#[verifier::external_body]
#[verifier::reject_recursive_types(T)]
pub struct ExWatchReceiver<T>(tokio::sync::watch::Receiver<T>);

/// The value that the channel behind `sender` holds.
pub uninterp spec fn watched(sender: tokio::sync::watch::Sender<RegionParams>) -> RegionParamsView;

/// The channel that `sender` sends on. Two halves belong together exactly if
/// they have the same channel.
pub uninterp spec fn channel_of(sender: tokio::sync::watch::Sender<RegionParams>) -> int;

/// The channel that `receiver` reads.
pub uninterp spec fn source_of(receiver: tokio::sync::watch::Receiver<RegionParams>) -> int;

/// `wait` brought into the range from `min` to `max`; `min` where the range
/// is empty.
pub open spec fn clamp_wait(wait: nat, min: nat, max: nat) -> nat {
    let capped = if wait > max {
        max
    } else {
        wait
    };
    if capped < min {
        min
    } else {
        capped
    }
}

/// The wait, in milliseconds, before attempt `retry` when jitter makes
/// `percent` percent of the nominal wait, which doubles with each attempt.
pub open spec fn jittered_wait(min: nat, max: nat, retry: nat, percent: nat) -> nat {
    clamp_wait(min * pow2(retry) * percent / 100, min, max)
}

/// Calls `exponential_backoff::Backoff::new` with the given number of
/// retries and bounds in milliseconds, then `Backoff::next` for attempt
/// `retry`.
///
/// There is no wait for the attempt that follows the last retry, and for no
/// other. A wait lies within the bounds. It is the nominal wait, the lower
/// bound doubled `retry` times, with a jitter drawn at random that takes at
/// most 29 percent from it or adds at most 29 percent to it, brought into
/// the bounds.
#[verifier::external_body]
fn backoff_next(retries: u32, min: u64, max: u64, retry: u32) -> (wait: Option<u64>)
    requires
        1 <= retries < u32::MAX,
        retry < u32::MAX,
        min <= max,
    ensures
        wait is None <==> retry == retries + 1,
        wait matches Some(ms) ==> min <= ms <= max,
        wait matches Some(ms) ==> retry <= 31 && min * pow2(retry as nat) < 0x1_0000_0000_0000
            ==> jittered_wait(min as nat, max as nat, retry as nat, JITTER_LOW as nat) <= ms
            <= jittered_wait(min as nat, max as nat, retry as nat, JITTER_HIGH as nat),
{
    let backoff = exponential_backoff::Backoff::new(
        retries,
        std::time::Duration::from_millis(min),
        std::time::Duration::from_millis(max),
    );
    backoff.next(retry).map(|wait| wait.as_millis() as u64)
}

/// Calls `tokio::sync::watch::channel` and keeps the sender. The channel
/// holds the value it was made with.
#[verifier::external_body]
fn watch_channel(init: RegionParams) -> (sender: tokio::sync::watch::Sender<RegionParams>)
    ensures
        watched(sender) == init@,
{
    tokio::sync::watch::channel(init).0
}

/// Calls `tokio::sync::watch::Sender::subscribe`, which makes a new receiver
/// of the sender's own channel.
#[verifier::external_body]
fn watch_subscribe(
    sender: &tokio::sync::watch::Sender<RegionParams>,
) -> (receiver: tokio::sync::watch::Receiver<RegionParams>)
    ensures
        source_of(receiver) == channel_of(*sender),
{
    sender.subscribe()
}

/// Calls `tokio::sync::watch::Sender::borrow` and copies the value borrowed:
/// the value that the channel holds.
#[verifier::external_body]
fn watch_current(sender: &tokio::sync::watch::Sender<RegionParams>) -> (value: RegionParams)
    ensures
        value@ == watched(*sender),
{
    sender.borrow().clone()
}

/// Calls `tokio::sync::watch::Sender::send_replace`, which puts `value` in
/// the channel, whether or not anyone listens, and hands back the value that
/// was there. The sender stays on its channel.
#[verifier::external_body]
fn watch_replace(
    sender: &mut tokio::sync::watch::Sender<RegionParams>,
    value: RegionParams,
) -> (previous: RegionParams)
    ensures
        watched(*final(sender)) == value@,
        previous@ == watched(*old(sender)),
        channel_of(*final(sender)) == channel_of(*old(sender)),
{
    sender.send_replace(value)
}

/// Calls `tokio::sync::watch::Receiver::borrow` and copies the value
/// borrowed. The value is the latest that was sent when the call was made;
/// what it is depends on what the sending task has done by then.
#[verifier::external_body]
pub fn current_value<T: Clone>(receiver: &tokio::sync::watch::Receiver<T>) -> (value: T) {
    receiver.borrow().clone()
}

/// The retry counter after a failed fetch: the first failure after a success
/// starts the backoff over, later ones advance it up to the last retry.
pub open spec fn retry_after_error(retry: u32) -> u32 {
    if retry > REGION_BACKOFF_RETRIES {
        1
    } else if retry + 1 < REGION_BACKOFF_RETRIES {
        (retry + 1) as u32
    } else {
        REGION_BACKOFF_RETRIES
    }
}

/// The retry counter after a successful fetch: past the last retry, where
/// the wait is the longest.
pub open spec fn retry_after_success() -> u32 {
    (REGION_BACKOFF_RETRIES + 1) as u32
}

/// What a fetch of the region parameters came to.
pub type FetchOutcome = Result<Option<RegionParams>, Error>;

/// The retry counter after a fetch that came to `outcome`.
pub open spec fn retry_after(retry: u32, outcome: FetchOutcome) -> u32 {
    match outcome {
        Err(_) => retry_after_error(retry),
        Ok(None) => retry,
        Ok(Some(_)) => retry_after_success(),
    }
}

/// The value in the channel after a fetch that came to `outcome`.
pub open spec fn value_after(current: RegionParamsView, outcome: FetchOutcome) -> RegionParamsView {
    match outcome {
        Ok(Some(params)) => params@,
        _ => current,
    }
}

/// What happened while a fetch was under way.
#[derive(Debug, PartialEq, Eq)]
pub enum FetchEvent {
    /// Shutdown was signalled before the service answered.
    Shutdown,
    /// The service answered, with parameters or with an error.
    Response(Result<RegionParams, Error>),
    /// No service could be selected to ask: the selection failed with this
    /// error.
    SelectionFailed(Error),
    /// The selection found no service to ask.
    NoService,
}

/// What a fetch comes to, given what happened while it was under way.
pub open spec fn outcome_of(event: FetchEvent) -> FetchOutcome {
    match event {
        FetchEvent::Shutdown => Ok(None),
        FetchEvent::Response(Ok(params)) => Ok(Some(params)),
        FetchEvent::Response(Err(err)) => Err(err),
        FetchEvent::SelectionFailed(err) => Err(err),
        FetchEvent::NoService => Err(Error::Service(crate::error::ServiceError::NoService)),
    }
}

/// What the driver tells the watcher.
#[derive(Debug, PartialEq, Eq)]
pub enum WatcherEvent {
    /// The watcher was started.
    Started,
    /// Shutdown was signalled.
    Shutdown,
    /// The wait that the watcher asked for is over.
    Woke,
    /// The fetch that the watcher asked for came to this.
    Fetched(FetchOutcome),
}

/// What the watcher asks of its driver.
#[derive(Debug, Clone, Copy, PartialEq, Eq)]
pub enum WatcherAction {
    /// Wait this many milliseconds, or until shutdown.
    Sleep(u64),
    /// Fetch the parameters of this region.
    Fetch(Region),
    /// Stop: the watcher is done.
    Stop,
}

/// Whether `wait` is a wait that the watcher may ask for at `retry`.
pub open spec fn wait_allowed(retry: u32, wait: u64) -> bool {
    &&& REGION_BACKOFF_MIN_WAIT <= wait <= REGION_BACKOFF_MAX_WAIT
    &&& retry > REGION_BACKOFF_RETRIES ==> wait == REGION_BACKOFF_MAX_WAIT
    &&& retry <= REGION_BACKOFF_RETRIES ==> jittered_wait(
        REGION_BACKOFF_MIN_WAIT as nat,
        REGION_BACKOFF_MAX_WAIT as nat,
        retry as nat,
        JITTER_LOW as nat,
    ) <= wait <= jittered_wait(
        REGION_BACKOFF_MIN_WAIT as nat,
        REGION_BACKOFF_MAX_WAIT as nat,
        retry as nat,
        JITTER_HIGH as nat,
    )
}

/// The retry counter of the watcher: it says which wait of the backoff comes
/// next. It starts at 1 and stays between 1 and one past the last retry.
pub struct RetryCounter {
    value: u32,
}

impl View for RetryCounter {
    type V = u32;

    closed spec fn view(&self) -> u32 {
        self.value
    }
}

impl RetryCounter {
    #[verifier::type_invariant]
    spec fn in_range(self) -> bool {
        1 <= self.value <= REGION_BACKOFF_RETRIES + 1
    }

    /// A counter at 1.
    pub fn new() -> (counter: RetryCounter)
        ensures
            counter@ == 1,
    {
        RetryCounter { value: 1 }
    }

    /// The counter's value.
    pub fn get(&self) -> (value: u32)
        ensures
            value == self@,
            1 <= value <= REGION_BACKOFF_RETRIES + 1,
    {
        proof {
            use_type_invariant(self);
        }
        self.value
    }

    /// Count a failed fetch.
    pub fn failed(&mut self)
        ensures
            final(self)@ == retry_after_error(old(self)@),
    {
        proof {
            use_type_invariant(&*self);
        }
        self.value = if self.value > REGION_BACKOFF_RETRIES {
            1
        } else if self.value + 1 < REGION_BACKOFF_RETRIES {
            self.value + 1
        } else {
            REGION_BACKOFF_RETRIES
        };
    }

    /// Count a successful fetch.
    pub fn succeeded(&mut self)
        ensures
            final(self)@ == retry_after_success(),
    {
        self.value = REGION_BACKOFF_RETRIES + 1;
    }
}

/// Keeps the region parameters fresh and publishes them.
pub struct RegionWatcher {
    default_region: Region,
    request_retry: RetryCounter,
    watch: tokio::sync::watch::Sender<RegionParams>,
}

impl RegionWatcher {
    /// The retry counter.
    pub closed spec fn retry(self) -> u32 {
        self.request_retry@
    }

    /// The parameters published last.
    pub closed spec fn published(self) -> RegionParamsView {
        watched(self.watch)
    }

    /// The region the watcher was configured with.
    pub closed spec fn configured_region(self) -> Region {
        self.default_region
    }

    /// The channel on which the watcher publishes. It is the same for as
    /// long as the watcher lives.
    pub closed spec fn channel(self) -> int {
        channel_of(self.watch)
    }

    /// A watcher for a gateway configured for `default_region`. The channel
    /// starts with the parameters of that region, and the retry counter at 1,
    /// which puts jitter on the time of the first fetch.
    pub fn new(default_region: Region) -> (watcher: RegionWatcher)
        ensures
            watcher.retry() == 1,
            watcher.configured_region() == default_region,
            watcher.published() == RegionParamsView::initial(default_region),
    {
        let default_params = RegionParams::from_region(default_region);
        let watch = watch_channel(default_params);
        RegionWatcher { default_region, request_retry: RetryCounter::new(), watch }
    }

    /// A new receiver of the parameters that the watcher publishes: it reads
    /// the channel on which the watcher publishes. The watcher stays as it
    /// is.
    pub fn watcher(&mut self) -> (receiver: tokio::sync::watch::Receiver<RegionParams>)
        ensures
            source_of(receiver) == old(self).channel(),
            final(self).channel() == old(self).channel(),
            final(self).retry() == old(self).retry(),
            final(self).published() == old(self).published(),
            final(self).configured_region() == old(self).configured_region(),
    {
        watch_subscribe(&self.watch)
    }

    /// The retry counter.
    pub fn request_retry(&self) -> (retry: u32)
        ensures
            retry == self.retry(),
            1 <= retry <= REGION_BACKOFF_RETRIES + 1,
    {
        self.request_retry.get()
    }

    /// The parameters published last.
    pub fn current(&self) -> (params: RegionParams)
        ensures
            params@ == self.published(),
    {
        watch_current(&self.watch)
    }

    /// The wait before the next fetch, in milliseconds: the backoff for the
    /// retry counter, and the longest wait once the counter is past the last
    /// retry.
    pub fn next_wait(&self) -> (wait: u64)
        ensures
            wait_allowed(self.retry(), wait),
    {
        let retry = self.request_retry.get();
        proof {
            lemma_wait_range(retry as nat);
        }
        match backoff_next(
            REGION_BACKOFF_RETRIES,
            REGION_BACKOFF_MIN_WAIT,
            REGION_BACKOFF_MAX_WAIT,
            retry,
        ) {
            Some(wait) => wait,
            None => REGION_BACKOFF_MAX_WAIT,
        }
    }

    /// Take note of what a fetch came to. A failure moves the retry counter;
    /// a success sets it past the last retry and publishes the parameters
    /// fetched if they differ from those published last. Tells whether
    /// anything was published.
    pub fn fetched(&mut self, outcome: FetchOutcome) -> (sent: bool)
        ensures
            final(self).retry() == retry_after(old(self).retry(), outcome),
            final(self).published() == value_after(old(self).published(), outcome),
            final(self).configured_region() == old(self).configured_region(),
            final(self).channel() == old(self).channel(),
            sent == (final(self).published() != old(self).published()),
    {
        match outcome {
            Err(_) => {
                self.request_retry.failed();
                false
            },
            Ok(None) => false,
            Ok(Some(remote_params)) => {
                self.request_retry.succeeded();
                let current = watch_current(&self.watch);
                if !remote_params.same_as(&current) {
                    let _ = watch_replace(&mut self.watch, remote_params);
                    true
                } else {
                    false
                }
            },
        }
    }

    /// What a fetch comes to, given what happened while it was under way:
    /// nothing if shutdown came first, the parameters or the error that the
    /// service answered with, or the error for which no service was asked.
    pub fn check_region(&self, event: FetchEvent) -> (outcome: FetchOutcome)
        ensures
            outcome == outcome_of(event),
    {
        match event {
            FetchEvent::Shutdown => Ok(None),
            FetchEvent::Response(Ok(params)) => Ok(Some(params)),
            FetchEvent::Response(Err(err)) => Err(err),
            FetchEvent::SelectionFailed(err) => Err(err),
            FetchEvent::NoService => Err(Error::no_service()),
        }
    }

    /// Run the watcher for one event, and tell what to do next.
    ///
    /// The watcher sleeps, fetches, takes note of the outcome, and sleeps
    /// again, until shutdown. The region fetched is the one published last.
    pub fn run(&mut self, event: WatcherEvent) -> (action: WatcherAction)
        ensures
            final(self).configured_region() == old(self).configured_region(),
            final(self).channel() == old(self).channel(),
            match event {
                WatcherEvent::Started => {
                    &&& final(self).retry() == old(self).retry()
                    &&& final(self).published() == old(self).published()
                    &&& action matches WatcherAction::Sleep(wait) && wait_allowed(
                        final(self).retry(),
                        wait,
                    )
                },
                WatcherEvent::Shutdown => {
                    &&& final(self).retry() == old(self).retry()
                    &&& final(self).published() == old(self).published()
                    &&& action == WatcherAction::Stop
                },
                WatcherEvent::Woke => {
                    &&& final(self).retry() == old(self).retry()
                    &&& final(self).published() == old(self).published()
                    &&& action == WatcherAction::Fetch(old(self).published().region)
                },
                WatcherEvent::Fetched(outcome) => {
                    &&& final(self).retry() == retry_after(old(self).retry(), outcome)
                    &&& final(self).published() == value_after(old(self).published(), outcome)
                    &&& action matches WatcherAction::Sleep(wait) && wait_allowed(
                        final(self).retry(),
                        wait,
                    )
                },
            },
    {
        match event {
            WatcherEvent::Started => WatcherAction::Sleep(self.next_wait()),
            WatcherEvent::Shutdown => WatcherAction::Stop,
            WatcherEvent::Woke => {
                let current = watch_current(&self.watch);
                WatcherAction::Fetch(current.region)
            },
            WatcherEvent::Fetched(outcome) => {
                let _ = self.fetched(outcome);
                WatcherAction::Sleep(self.next_wait())
            },
        }
    }
}

/// The value in the channel after fetches that came to `outcomes`, in this
/// order.
pub open spec fn value_after_all(
    current: RegionParamsView,
    outcomes: Seq<FetchOutcome>,
) -> RegionParamsView
    decreases outcomes.len(),
{
    if outcomes.len() == 0 {
        current
    } else {
        value_after(value_after_all(current, outcomes.drop_last()), outcomes.last())
    }
}

/// The retry counter after fetches that came to `outcomes`, in this order.
pub open spec fn retry_after_all(retry: u32, outcomes: Seq<FetchOutcome>) -> u32
    decreases outcomes.len(),
{
    if outcomes.len() == 0 {
        retry
    } else {
        retry_after(retry_after_all(retry, outcomes.drop_last()), outcomes.last())
    }
}

/// The attempts in use are few enough, and the shortest wait short enough,
/// for the backoff to be computed without reaching the limits of the clock.
proof fn lemma_wait_range(retry: nat)
    requires
        retry <= REGION_BACKOFF_RETRIES + 1,
    ensures
        retry <= 31,
        REGION_BACKOFF_MIN_WAIT * pow2(retry) < 0x1_0000_0000_0000,
{
    vstd::arithmetic::power2::lemma2_to64();
}

/// The backoff grows: whatever the jitter, the wait at one attempt is at most
/// the wait at the next, and past the last retry the wait is the longest one.
pub proof fn lemma_backoff_monotone(retry: u32, wait: u64, next: u64)
    requires
        1 <= retry <= REGION_BACKOFF_RETRIES,
        wait_allowed(retry, wait),
        wait_allowed((retry + 1) as u32, next),
    ensures
        wait <= next,
        retry == REGION_BACKOFF_RETRIES ==> next == REGION_BACKOFF_MAX_WAIT,
{
    if retry < REGION_BACKOFF_RETRIES {
        let min = REGION_BACKOFF_MIN_WAIT as nat;
        let nominal = min * pow2(retry as nat);
        lemma_pow2_unfold((retry + 1) as nat);
        lemma_pow2_pos(retry as nat);
        assert(min * pow2((retry + 1) as nat) == 2 * nominal) by (nonlinear_arith)
            requires
                pow2((retry + 1) as nat) == 2 * pow2(retry as nat),
                nominal == min * pow2(retry as nat),
        ;
    }
}

/// A success puts the retry counter past the last retry; the first failure
/// after it starts the backoff over at 1; each further failure advances the
/// counter by one until it stays at the last retry.
pub proof fn lemma_retry_reset(retry: u32)
    requires
        1 <= retry <= REGION_BACKOFF_RETRIES + 1,
    ensures
        retry_after_success() == REGION_BACKOFF_RETRIES + 1,
        retry_after_error(retry_after_success()) == 1,
        retry < REGION_BACKOFF_RETRIES ==> retry_after_error(retry) == retry + 1,
        retry == REGION_BACKOFF_RETRIES ==> retry_after_error(retry) == REGION_BACKOFF_RETRIES,
        1 <= retry_after_error(retry) <= REGION_BACKOFF_RETRIES,
{
}

/// Latest wins: after any number of fetches of which the last one brought
/// parameters, the channel holds exactly those, whatever came before.
pub proof fn lemma_latest_wins(current: RegionParamsView, outcomes: Seq<FetchOutcome>)
    requires
        outcomes.len() > 0,
        outcomes.last() matches Ok(Some(_)),
    ensures
        outcomes.last() matches Ok(Some(params)) && value_after_all(current, outcomes) == params@,
        retry_after_all(1, outcomes) == REGION_BACKOFF_RETRIES + 1,
{
}

/// The channel holds the parameters that the last successful fetch brought,
/// and those it started with if there was none: a fetch that fails or is cut
/// short leaves the channel as it is.
pub proof fn lemma_failures_keep_value(current: RegionParamsView, outcomes: Seq<FetchOutcome>)
    requires
        outcomes.len() > 0,
        !(outcomes.last() matches Ok(Some(_))),
    ensures
        value_after_all(current, outcomes) == value_after_all(current, outcomes.drop_last()),
{
}

} // verus!
