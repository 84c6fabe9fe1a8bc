//! The two best-effort retry plans: device connection and post-mutation
//! playback refresh.
//!
//! A device connection makes up to [`CONNECT_MAX_ATTEMPTS`] attempts, each
//! preceded by a fixed one-second delay, because the target device may not
//! yet be visible on the remote service. Exhausting every attempt is not a
//! failure of the overall request. After any playback-mutating action an
//! independent refresher re-polls the playback state for
//! [`REFRESH_ROUNDS`] rounds; its failures are logged by the caller, never
//! surfaced.

use vstd::prelude::*;
use crate::model::{Device, RawDevice};
use crate::state::{named_devices, named_of, clone_opt_string};
use crate::strkit::str_eq;

verus! {

/// Attempts a device connection makes, at most.
pub const CONNECT_MAX_ATTEMPTS: u32 = 10;

/// Seconds the caller waits before each connection attempt.
pub const CONNECT_DELAY_SECS: u64 = 1;

/// Rounds of the post-mutation playback refresh.
pub const REFRESH_ROUNDS: u32 = 5;

/// Seconds the caller waits before each refresh round.
pub const REFRESH_DELAY_SECS: u64 = 1;

/// The index of the device the connection picks from a discovered device
/// list: the first device whose name is the configured default name when one
/// exists, else the first device.
pub open spec fn pick_spec(devices: Seq<Device>, name: Seq<char>) -> int
    decreases devices.len(),
{
    if devices.len() == 0 {
        0
    } else if devices.first().name@ == name {
        0
    } else if exists|i: int| 0 <= i < devices.len() && #[trigger] devices[i].name@ == name {
        1 + pick_spec(devices.drop_first(), name)
    } else {
        0
    }
}

/// When a device of the configured default name is among the discovered
/// devices, the pick is the first such device: the default name takes
/// priority over list order.
pub proof fn lemma_default_device_preferred(devices: Seq<Device>, name: Seq<char>)
    requires
        exists|i: int| 0 <= i < devices.len() && #[trigger] devices[i].name@ == name,
    ensures
        0 <= pick_spec(devices, name) < devices.len(),
        devices[pick_spec(devices, name)].name@ == name,
        forall|k: int| 0 <= k < pick_spec(devices, name) ==> devices[k].name@ != name,
    decreases devices.len(),
{
    if devices.first().name@ == name {
    } else {
        let rest = devices.drop_first();
        let i = choose|i: int| 0 <= i < devices.len() && #[trigger] devices[i].name@ == name;
        assert(rest[i - 1].name@ == name);
        lemma_default_device_preferred(rest, name);
        assert forall|k: int| 0 <= k < pick_spec(devices, name) implies devices[k].name@
            != name by {
            if k > 0 {
                assert(rest[k - 1].name@ != name);
            }
        }
    }
}

/// When no discovered device carries the configured default name, the pick
/// is the first device.
pub proof fn lemma_no_default_picks_first(devices: Seq<Device>, name: Seq<char>)
    requires
        !(exists|i: int| 0 <= i < devices.len() && #[trigger] devices[i].name@ == name),
    ensures
        pick_spec(devices, name) == 0,
{
    if devices.len() > 0 {
        assert(devices[0].name@ != name);
    }
}

/// Finds an available device among the raw discovered devices: devices
/// without an id are unusable and skipped; a device named like the
/// configured default is prioritized, else the first usable device answers;
/// with no usable device there is nothing to connect to.
pub fn find_available_device(devices: Vec<RawDevice>, default_device: &str) -> (r: Option<String>)
    ensures
        ({
            let named = named_devices(devices@);
            &&& (r is None <==> named.len() == 0)
            &&& named.len() > 0 ==> r is Some && r->Some_0@ == named[pick_spec(
                named,
                default_device@,
            )].id@
        }),
{
    let mut named = named_of(devices);
    let ghost nseq = named@;
    if named.len() == 0 {
        return None;
    }
    let n = named.len();
    let mut i: usize = 0;
    let mut pick: usize = 0;
    let mut found = false;
    while i < n
        invariant
            i <= n,
            n == nseq.len(),
            named@ == nseq,
            found ==> pick < i && nseq[pick as int].name@ == default_device@ && forall|k: int|
                0 <= k < pick ==> nseq[k].name@ != default_device@,
            !found ==> pick == 0 && forall|k: int| 0 <= k < i ==> nseq[k].name@ != default_device@,
        decreases n - i,
    {
        if !found && str_eq(named[i].name.as_str(), default_device) {
            pick = i;
            found = true;
        }
        i += 1;
    }
    proof {
        if found {
            lemma_default_device_preferred(nseq, default_device@);
            let ps = pick_spec(nseq, default_device@);
            if ps < pick {
                assert(nseq[ps].name@ != default_device@);
            }
            if pick < ps {
                assert(nseq[pick as int].name@ != default_device@);
            }
            assert(ps == pick);
        } else {
            lemma_no_default_picks_first(nseq, default_device@);
        }
    }
    let picked = named.remove(pick);
    Some(picked.id)
}

/// One device-connection session: a bounded sequence of best-effort
/// attempts. The caller drives it: before each attempt it sleeps
/// [`CONNECT_DELAY_SECS`], asks [`ConnectSession::begin_attempt`] what to
/// do, performs the discovery and/or the transfer, and reports the
/// transfer's outcome.
#[derive(Debug)]
pub struct ConnectSession {
    attempts_left: u32,
    explicit_id: Option<String>,
}

/// What one connection attempt does: transfer to the explicitly requested
/// device, or discover an available device first.
#[derive(Debug, PartialEq)]
pub enum AttemptStep {
    UseDevice(String),
    Discover,
}

impl ConnectSession {
    /// The attempts this session may still make.
    pub closed spec fn attempts_spec(&self) -> u32 {
        self.attempts_left
    }

    /// The explicitly requested device id, if the request named one.
    pub closed spec fn explicit_spec(&self) -> Option<String> {
        self.explicit_id
    }

    /// Starts a session of [`CONNECT_MAX_ATTEMPTS`] attempts for the given
    /// explicit device id, or for a device yet to be discovered.
    pub fn new(device_id: Option<String>) -> (r: Self)
        ensures
            r.attempts_spec() == CONNECT_MAX_ATTEMPTS,
            r.explicit_spec() == device_id,
    {
        ConnectSession { attempts_left: CONNECT_MAX_ATTEMPTS, explicit_id: device_id }
    }

    /// Opens the next attempt: uses one of the remaining attempts and says
    /// what the attempt does; with no attempt left the session is over.
    pub fn begin_attempt(&mut self) -> (r: Option<AttemptStep>)
        ensures
            old(self).attempts_spec() == 0 ==> r is None && *final(self) == *old(self),
            old(self).attempts_spec() > 0 ==> {
                &&& final(self).attempts_spec() == old(self).attempts_spec() - 1
                &&& final(self).explicit_spec() == old(self).explicit_spec()
                &&& r == match old(self).explicit_spec() {
                    Some(id) => Some(AttemptStep::UseDevice(id)),
                    None => Some(AttemptStep::Discover),
                }
            },
    {
        if self.attempts_left == 0 {
            return None;
        }
        self.attempts_left = self.attempts_left - 1;
        match clone_opt_string(&self.explicit_id) {
            Some(id) => Some(AttemptStep::UseDevice(id)),
            None => Some(AttemptStep::Discover),
        }
    }

    /// Reports the outcome of this attempt's transfer. A success ends the
    /// session — no further attempt follows, and the caller triggers one
    /// playback refresh — while a failure leaves the remaining attempts to
    /// try again.
    pub fn on_transfer_result(&mut self, ok: bool) -> (done: bool)
        ensures
            done == ok,
            ok ==> final(self).attempts_spec() == 0,
            !ok ==> *final(self) == *old(self),
            final(self).explicit_spec() == old(self).explicit_spec(),
    {
        if ok {
            self.attempts_left = 0;
        }
        ok
    }
}

/// The post-mutation playback refresher's plan: a fixed number of rounds of
/// {sleep, re-fetch playback, re-fetch the cover image if applicable}. The
/// plan only counts rounds; it cannot fail the request that spawned it,
/// which has already returned.
pub struct RefreshPlan {
    rounds_left: u32,
}

impl RefreshPlan {
    /// The rounds still to run.
    pub closed spec fn rounds_spec(&self) -> u32 {
        self.rounds_left
    }

    /// A fresh plan of [`REFRESH_ROUNDS`] rounds.
    pub fn new() -> (r: Self)
        ensures
            r.rounds_spec() == REFRESH_ROUNDS,
    {
        RefreshPlan { rounds_left: REFRESH_ROUNDS }
    }

    /// Uses one round; says whether a round was left to use.
    pub fn next_round(&mut self) -> (r: bool)
        ensures
            r <==> old(self).rounds_spec() > 0,
            r ==> final(self).rounds_spec() == old(self).rounds_spec() - 1,
            !r ==> *final(self) == *old(self),
    {
        if self.rounds_left == 0 {
            false
        } else {
            self.rounds_left = self.rounds_left - 1;
            true
        }
    }
}

} // verus!
