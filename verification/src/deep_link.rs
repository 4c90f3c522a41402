//! The deep-link listener: one-shot registration of the custom URL scheme
//! at application setup, and republication of every URL the OS later
//! delivers on the host event bus, under the fixed deep-link topic.

use vstd::prelude::*;

use crate::event::{deep_link_topic, deep_link_topic_str, Event, EventModel};

verus! {

/// The custom URL scheme registered with the OS at setup: deep links reach
/// the application as `mythos://...` URLs.
pub open spec fn scheme() -> Seq<char> {
    "mythos"@
}

/// The custom URL scheme, as a string the shell hands to the OS
/// registration call.
pub fn scheme_str() -> (s: &'static str)
    ensures
        s@ == scheme(),
{
    "mythos"
}

/// The events the deep-link listener publishes for the URLs delivered in
/// one OS callback: one per URL, in the order received, each on the
/// deep-link topic with the URL unchanged.
pub open spec fn deep_link_events_spec(urls: Seq<Seq<char>>) -> Seq<EventModel> {
    urls.map_values(|u: Seq<char>| EventModel { topic: deep_link_topic(), payload: u })
}

/// The deep-link listener's runtime operation. For the URLs delivered in
/// one OS callback — possibly none — the events to publish on the host
/// event bus: exactly one per URL, in the order received, each on the fixed
/// deep-link topic with the URL passed through unchanged. The shell
/// publishes each returned event fire-and-forget.
pub fn deep_link_events(urls: &Vec<String>) -> (evs: Vec<Event>)
    ensures
        evs@.map_values(|e: Event| e@) == deep_link_events_spec(urls@.map_values(|u: String| u@)),
        evs@.len() == urls@.len(),
        forall|i: int| 0 <= i < urls@.len() ==> #[trigger] evs@[i]@.topic == deep_link_topic(),
        forall|i: int| 0 <= i < urls@.len() ==> #[trigger] evs@[i]@.payload == urls@[i]@,
{
    let mut evs: Vec<Event> = Vec::new();
    let mut i: usize = 0;
    while i < urls.len()
        invariant
            i <= urls@.len(),
            evs@.len() == i,
            forall|j: int| 0 <= j < i ==> #[trigger] evs@[j]@.topic == deep_link_topic(),
            forall|j: int| 0 <= j < i ==> #[trigger] evs@[j]@.payload == urls@[j]@,
        decreases urls@.len() - i,
    {
        let topic = deep_link_topic_str().to_owned();
        let payload = urls[i].clone();
        evs.push(Event { topic, payload });
        i = i + 1;
    }
    proof {
        let lhs = evs@.map_values(|e: Event| e@);
        let rhs = deep_link_events_spec(urls@.map_values(|u: String| u@));
        assert forall|j: int| 0 <= j < lhs.len() implies lhs[j] == rhs[j] by {
            assert(lhs[j] == evs@[j]@);
            assert(rhs[j] == (EventModel { topic: deep_link_topic(), payload: urls@[j]@ }));
            assert(lhs[j] =~= rhs[j]);
        }
        assert(lhs =~= rhs);
    }
    evs
}

/// Guards the one registration attempt a process may make.
///
/// Two states, crossed once and never back: no attempt made, then an
/// attempt made (whether or not the OS accepted the scheme).
pub struct Registrar {
    attempted: bool,
    registered: bool,
}

/// One step of the registrar's guard: asking leave to attempt registration
/// is granted exactly when no attempt has been made yet.
pub open spec fn begin_granted(attempted: bool) -> bool {
    !attempted
}

/// After asking leave, an attempt counts as made, granted or not.
pub open spec fn begin_next(attempted: bool) -> bool {
    true
}

/// How many of `n` successive requests for leave to attempt registration
/// are granted, starting with the flag in state `attempted`.
pub open spec fn grants(attempted: bool, n: nat) -> nat
    decreases n,
{
    if n == 0 {
        0
    } else {
        (if begin_granted(attempted) {
            1nat
        } else {
            0nat
        }) + grants(begin_next(attempted), (n - 1) as nat)
    }
}

/// Registration is attempted at most once per process lifetime: however
/// many times the shell asks leave to attempt, at most one request is
/// granted — and none at all once an attempt has been made.
pub proof fn lemma_register_at_most_once(attempted: bool, n: nat)
    ensures
        grants(attempted, n) <= 1,
        attempted ==> grants(attempted, n) == 0,
    decreases n,
{
    if n > 0 {
        lemma_register_at_most_once(begin_next(attempted), (n - 1) as nat);
    }
}

impl Registrar {
    /// Whether the one registration attempt has been made.
    pub closed spec fn attempted(&self) -> bool {
        self.attempted
    }

    /// Whether the scheme is registered with the OS.
    pub closed spec fn registered(&self) -> bool {
        self.registered
    }

    /// A scheme is only ever registered after an attempt.
    pub open spec fn wf(&self) -> bool {
        self.registered() ==> self.attempted()
    }

    /// A fresh registrar: no attempt made, nothing registered.
    pub fn new() -> (r: Self)
        ensures
            !r.attempted(),
            !r.registered(),
            r.wf(),
    {
        Registrar { attempted: false, registered: false }
    }

    /// Ask leave to attempt registration. Leave is granted exactly when no
    /// attempt has been made yet; afterwards an attempt counts as made, so
    /// leave is never granted twice in one process.
    pub fn try_begin(&mut self) -> (go: bool)
        ensures
            go == begin_granted(old(self).attempted()),
            final(self).attempted() == begin_next(old(self).attempted()),
            final(self).registered() == old(self).registered(),
            final(self).wf(),
    {
        let go = !self.attempted;
        self.attempted = true;
        go
    }

    /// Record whether the OS accepted the scheme on the one attempt.
    pub fn record_outcome(&mut self, ok: bool)
        requires
            old(self).attempted(),
        ensures
            final(self).attempted(),
            final(self).registered() == ok,
            final(self).wf(),
    {
        self.registered = ok;
    }
}

/// How a failed scheme registration is treated at application setup.
pub enum Policy {
    /// A registration failure aborts setup: the main loop is never reached.
    Strict,
    /// A registration failure is logged as a warning — expected where the
    /// build is not bundled and the OS refuses scheme registration — and
    /// setup proceeds to the main loop.
    Lenient,
}

/// Decide application setup from the chosen policy and the outcome of the
/// single registration attempt (`Ok`, or the registration error text).
///
/// When registration succeeded, setup proceeds with nothing to log:
/// `Ok(None)`. When it failed under the strict policy, setup is aborted
/// with that error: `Err`. When it failed under the lenient policy, setup
/// proceeds and the shell logs the returned warning: `Ok(Some(..))`.
pub fn setup_decision(policy: Policy, registration: Result<(), String>) -> (r: Result<
    Option<String>,
    String,
>)
    ensures
        registration is Ok ==> r == Ok::<Option<String>, String>(None::<String>),
        registration is Err && policy is Strict ==> r == Err::<Option<String>, String>(
            registration->Err_0,
        ),
        registration is Err && policy is Lenient ==> r == Ok::<Option<String>, String>(
            Some(registration->Err_0),
        ),
{
    match registration {
        Ok(()) => Ok(None),
        Err(e) => match policy {
            Policy::Strict => Err(e),
            Policy::Lenient => Ok(Some(e)),
        },
    }
}

} // verus!
