//! In-place config reload. Restarting the daemon to pick up a config change
//! destroys the uinput keyboard, and KOReader reacts to a vanishing node by
//! rebuilding its UI. So a reload re-reads the config in place: the devices
//! and settings workers read are replaced, a generation counter tells them
//! something changed, and devices nobody watches yet are handed back so a
//! worker can start for each.

use vstd::prelude::*;
use crate::config::DeviceConfig;
use crate::text::{chars_of, same};

verus! {

/// What workers share: the devices and settings of the last reload, its
/// generation, and the ids that already have a worker (which only grows, so a
/// device removed and re-added does not get two threads on one node).
pub struct Registry<S> {
    pub generation: u64,
    pub devices: Vec<DeviceConfig>,
    pub settings: Option<S>,
    pub watched: Vec<String>,
}

/// The ids of `ds`.
pub open spec fn ids(ds: Seq<DeviceConfig>) -> Set<Seq<char>> {
    Set::new(|x: Seq<char>| exists|j: int| 0 <= j < ds.len() && ds[j].id@ == x)
}

/// Positions in `ds` of the devices whose id is neither in `w` nor taken by
/// an earlier entry: those a reload hands back for a new worker.
pub open spec fn fresh_positions(w: Set<Seq<char>>, ds: Seq<DeviceConfig>) -> Seq<int>
    decreases ds.len(),
{
    if ds.len() == 0 {
        Seq::empty()
    } else {
        let prev = fresh_positions(w, ds.drop_last());
        if w.contains(ds.last().id@) || ids(ds.drop_last()).contains(ds.last().id@) {
            prev
        } else {
            prev.push(ds.len() - 1)
        }
    }
}

impl<S> Registry<S> {
    pub open spec fn watched_ids(&self) -> Set<Seq<char>> {
        Set::new(|x: Seq<char>| exists|j: int| 0 <= j < self.watched.len() && self.watched@[j]@ == x)
    }

    pub fn new() -> (r: Self)
        ensures
            r.generation == 0,
            r.devices@.len() == 0,
            r.settings is None,
            r.watched_ids() == Set::<Seq<char>>::empty(),
    {
        let r = Registry { generation: 0, devices: Vec::new(), settings: None, watched: Vec::new() };
        assert(r.watched_ids() =~= Set::<Seq<char>>::empty());
        r
    }
}

/// What claiming `id` does: true exactly when nobody had it, and from then
/// on it is taken.
pub open spec fn claim_post<S>(pre: Registry<S>, id: Seq<char>, post: Registry<S>, r: bool) -> bool {
    &&& r == !pre.watched_ids().contains(id)
    &&& post.watched_ids() == pre.watched_ids().insert(id)
    &&& post.generation == pre.generation
    &&& post.devices@ == pre.devices@
    &&& post.settings == pre.settings
}

/// Claim a device id for a worker. False when someone already has it.
pub fn claim<S>(reg: &mut Registry<S>, id: &str) -> (r: bool)
    ensures
        claim_post(*old(reg), id@, *final(reg), r),
{
    let want = chars_of(id);
    let mut i: usize = 0;
    while i < reg.watched.len()
        invariant
            i <= reg.watched.len(),
            want@ == id@,
            forall|k: int| 0 <= k < i ==> reg.watched@[k]@ != id@,
        decreases reg.watched.len() - i,
    {
        if same(&chars_of(reg.watched[i].as_str()), &want) {
            assert(old(reg).watched_ids().insert(id@) =~= old(reg).watched_ids());
            return false;
        }
        i = i + 1;
    }
    let ghost before = reg.watched@;
    reg.watched.push(id.to_string());
    proof {
        assert(reg.watched@[before.len() as int]@ == id@);
        assert(reg.watched_ids() =~= old(reg).watched_ids().insert(id@)) by {
            assert forall|x: Seq<char>| reg.watched_ids().contains(x) implies old(reg).watched_ids().insert(id@).contains(x) by {
                let j = choose|j: int| 0 <= j < reg.watched.len() && reg.watched@[j]@ == x;
                if j < before.len() {
                    assert(before[j]@ == x);
                }
            }
            assert forall|x: Seq<char>| old(reg).watched_ids().insert(id@).contains(x) implies reg.watched_ids().contains(x) by {
                if x != id@ {
                    let j = choose|j: int| 0 <= j < before.len() && before[j]@ == x;
                    assert(reg.watched@[j]@ == x);
                }
            }
        }
    }
    true
}

/// Bumped once per applied reload. Workers compare against their own copy.
pub fn generation<S>(reg: &Registry<S>) -> (r: u64)
    ensures
        r == reg.generation,
{
    reg.generation
}

/// What publishing does: workers read these devices and settings from now
/// on; the generation and the watched ids stay.
pub open spec fn publish_post<S>(pre: Registry<S>, devices: Seq<DeviceConfig>, settings: S, post: Registry<S>) -> bool {
    &&& post.devices@ == devices
    &&& post.settings == Some(settings)
    &&& post.generation == pre.generation
    &&& post.watched@ == pre.watched@
}

/// Makes `devices` and `settings` what workers read from now on.
pub fn publish<S>(reg: &mut Registry<S>, devices: Vec<DeviceConfig>, settings: S)
    ensures
        publish_post(*old(reg), devices@, settings, *final(reg)),
{
    reg.devices = devices;
    reg.settings = Some(settings);
}

/// The settings a worker reads.
pub open spec fn settings_of<S>(reg: Registry<S>) -> Option<S> {
    reg.settings
}

/// The global settings as of the last reload.
pub fn settings<S>(reg: &Registry<S>) -> (r: Option<&S>)
    ensures
        match r {
            Some(s) => settings_of(*reg) == Some(*s),
            None => settings_of(*reg) is None,
        },
{
    match &reg.settings {
        Some(s) => Some(s),
        None => None,
    }
}

/// The first device in `ds` whose id is `id`.
pub open spec fn first_with_id(ds: Seq<DeviceConfig>, id: Seq<char>) -> Option<int> {
    if exists|j: int| 0 <= j < ds.len() && ds[j].id@ == id {
        Some(choose|j: int| 0 <= j < ds.len() && ds[j].id@ == id && forall|k: int| 0 <= k < j ==> ds[k].id@ != id)
    } else {
        None
    }
}

/// The device's current config, or None if it was removed from the file.
pub fn device_config<'a, S>(reg: &'a Registry<S>, id: &str) -> (r: Option<&'a DeviceConfig>)
    ensures
        match first_with_id(reg.devices@, id@) {
            Some(j) => r == Some(&reg.devices@[j]),
            None => r is None,
        },
{
    let want = chars_of(id);
    let mut i: usize = 0;
    while i < reg.devices.len()
        invariant
            i <= reg.devices.len(),
            want@ == id@,
            forall|k: int| 0 <= k < i ==> reg.devices@[k].id@ != id@,
        decreases reg.devices.len() - i,
    {
        if same(&chars_of(reg.devices[i].id.as_str()), &want) {
            proof {
                let ds = reg.devices@;
                assert(ds[i as int].id@ == id@);
                let j = choose|j: int| 0 <= j < ds.len() && ds[j].id@ == id@ && forall|k: int| 0 <= k < j ==> ds[k].id@ != id@;
                if j < i {
                    assert(ds[j].id@ != id@);
                } else if j > i {
                    assert(ds[i as int].id@ != id@);
                }
            }
            return Some(&reg.devices[i]);
        }
        i = i + 1;
    }
    None
}

/// What a poll does with the outcome of re-reading the config: on success
/// every device whose id nobody watched yet is claimed and handed back (a
/// copy, in file order), the new devices and settings are published, and
/// the generation moves on (wrapping, as an atomic counter does); on
/// failure nothing changes and nothing is handed back.
pub open spec fn poll_post<S>(
    pre: Registry<S>,
    loaded: Result<(Vec<DeviceConfig>, S), String>,
    post: Registry<S>,
    r: Seq<DeviceConfig>,
) -> bool {
    match loaded {
        Ok((devices, settings)) => {
            let fresh = fresh_positions(pre.watched_ids(), devices@);
            &&& r.len() == fresh.len()
            &&& forall|i: int| 0 <= i < fresh.len() ==> #[trigger] r[i].same_as(&devices@[fresh[i]])
            &&& post.watched_ids() == pre.watched_ids() + ids(devices@)
            &&& post.devices@ == devices@
            &&& post.settings == Some(settings)
            &&& post.generation == (if pre.generation == u64::MAX { 0 } else { pre.generation + 1 })
        },
        Err(_) => {
            &&& r.len() == 0
            &&& post.generation == pre.generation
            &&& post.devices@ == pre.devices@
            &&& post.settings == pre.settings
            &&& post.watched_ids() == pre.watched_ids()
        },
    }
}

/// Applies a re-read config, or keeps the running one when reading failed.
pub fn poll<S>(reg: &mut Registry<S>, loaded: Result<(Vec<DeviceConfig>, S), String>) -> (r: Vec<DeviceConfig>)
    ensures
        poll_post(*old(reg), loaded, *final(reg), r@),
{
    match loaded {
        Ok((devices, settings)) => {
            let ghost w0 = reg.watched_ids();
            let ghost g0 = reg.generation;
            let mut fresh: Vec<DeviceConfig> = Vec::new();
            let mut i: usize = 0;
            while i < devices.len()
                invariant
                    i <= devices.len(),
                    reg.watched_ids() == w0 + ids(devices@.take(i as int)),
                    reg.generation == g0,
                    fresh@.len() == fresh_positions(w0, devices@.take(i as int)).len(),
                    forall|k: int| 0 <= k < fresh@.len() ==> #[trigger] fresh@[k].same_as(
                        &devices@.take(i as int)[fresh_positions(w0, devices@.take(i as int))[k]]),
                    forall|k: int| 0 <= k < fresh_positions(w0, devices@.take(i as int)).len() ==>
                        0 <= #[trigger] fresh_positions(w0, devices@.take(i as int))[k] < i,
                decreases devices.len() - i,
            {
                let ghost pre = devices@.take(i as int);
                let ghost next = devices@.take(i + 1);
                assert(next.drop_last() == pre);
                assert(next.last() == devices@[i as int]);
                assert(ids(next) =~= ids(pre).insert(devices@[i as int].id@)) by {
                    assert forall|x: Seq<char>| ids(next).contains(x) implies ids(pre).insert(devices@[i as int].id@).contains(x) by {
                        let j = choose|j: int| 0 <= j < next.len() && next[j].id@ == x;
                        if j < i {
                            assert(pre[j].id@ == x);
                        }
                    }
                    assert forall|x: Seq<char>| ids(pre).insert(devices@[i as int].id@).contains(x) implies ids(next).contains(x) by {
                        if x != devices@[i as int].id@ {
                            let j = choose|j: int| 0 <= j < pre.len() && pre[j].id@ == x;
                            assert(next[j].id@ == x);
                        } else {
                            assert(next[i as int].id@ == x);
                        }
                    }
                }
                let ghost fp = fresh_positions(w0, pre);
                if claim(reg, devices[i].id.as_str()) {
                    let c = devices[i].copied();
                    fresh.push(c);
                    proof {
                        assert(fresh_positions(w0, next) == fp.push(i as int));
                        assert forall|k: int| 0 <= k < fresh@.len() implies #[trigger] fresh@[k].same_as(
                            &next[fresh_positions(w0, next)[k]]) by {
                            if k < fp.len() {
                                assert(next[fp[k]] == pre[fp[k]]);
                            }
                        }
                    }
                } else {
                    proof {
                        assert(fresh_positions(w0, next) == fp);
                        assert forall|k: int| 0 <= k < fresh@.len() implies #[trigger] fresh@[k].same_as(
                            &next[fresh_positions(w0, next)[k]]) by {
                            assert(next[fp[k]] == pre[fp[k]]);
                        }
                    }
                }
                proof {
                    assert(w0 + ids(next) =~= (w0 + ids(pre)).insert(devices@[i as int].id@));
                }
                i = i + 1;
            }
            assert(devices@.take(devices.len() as int) == devices@);
            let ghost dv = devices@;
            assert(fresh@.len() == fresh_positions(w0, dv).len());
            assert(forall|k: int| 0 <= k < fresh@.len() ==> #[trigger] fresh@[k].same_as(&dv[fresh_positions(w0, dv)[k]]));
            publish(reg, devices, settings);
            reg.generation = if reg.generation == u64::MAX { 0 } else { reg.generation + 1 };
            fresh
        },
        Err(_) => Vec::new(),
    }
}

/// An id is handed to one worker only: a second claim of it fails.
pub proof fn law_claim_once<S>(r0: Registry<S>, id: Seq<char>, r1: Registry<S>, first: bool, r2: Registry<S>, second: bool)
    requires
        claim_post(r0, id, r1, first),
        claim_post(r1, id, r2, second),
    ensures
        !second,
{
}

/// What a reload publishes is what workers then read: the settings, and
/// for every id the first device with it.
pub proof fn law_published_config_is_read<S>(r0: Registry<S>, devices: Seq<DeviceConfig>, settings: S, r1: Registry<S>, id: Seq<char>)
    requires
        publish_post(r0, devices, settings, r1),
    ensures
        settings_of(r1) == Some(settings),
        first_with_id(r1.devices@, id) == first_with_id(devices, id),
{
}

/// A reload never hands back a device whose id already has a worker, nor
/// the same id twice, and every id it hands back is then taken.
pub proof fn law_reload_hands_out_unwatched_ids(w: Set<Seq<char>>, devices: Seq<DeviceConfig>, i: int, j: int)
    requires
        0 <= i < fresh_positions(w, devices).len(),
        0 <= j < fresh_positions(w, devices).len(),
        i != j,
    ensures
        0 <= fresh_positions(w, devices)[i] < devices.len(),
        !w.contains(devices[fresh_positions(w, devices)[i]].id@),
        devices[fresh_positions(w, devices)[i]].id@ != devices[fresh_positions(w, devices)[j]].id@,
    decreases devices.len(),
{
    lemma_fresh_positions(w, devices);
}

proof fn lemma_fresh_positions(w: Set<Seq<char>>, ds: Seq<DeviceConfig>)
    ensures
        forall|i: int| 0 <= i < fresh_positions(w, ds).len() ==> {
            &&& 0 <= #[trigger] fresh_positions(w, ds)[i] < ds.len()
            &&& !w.contains(ds[fresh_positions(w, ds)[i]].id@)
            &&& forall|k: int| 0 <= k < fresh_positions(w, ds)[i] ==> (#[trigger] ds[k]).id@ != ds[fresh_positions(w, ds)[i]].id@
        },
        forall|i: int, j: int| 0 <= i < j < fresh_positions(w, ds).len() ==> fresh_positions(w, ds)[i] < fresh_positions(w, ds)[j],
    decreases ds.len(),
{
    if ds.len() > 0 {
        let pre = ds.drop_last();
        lemma_fresh_positions(w, pre);
        let prev = fresh_positions(w, pre);
        let cur = fresh_positions(w, ds);
        assert forall|k: int| 0 <= k < pre.len() implies #[trigger] ds[k] == pre[k] by {}
        let added = !(w.contains(ds.last().id@) || ids(pre).contains(ds.last().id@));
        if added {
            assert(cur == prev.push(ds.len() - 1));
            assert forall|k: int| 0 <= k < ds.len() - 1 implies (#[trigger] ds[k]).id@ != ds[ds.len() - 1].id@ by {
                if ds[k].id@ == ds.last().id@ {
                    assert(pre[k].id@ == ds.last().id@);
                    assert(ids(pre).contains(ds.last().id@));
                }
            }
        } else {
            assert(cur == prev);
        }
        assert forall|i: int| 0 <= i < cur.len() implies {
            &&& 0 <= #[trigger] cur[i] < ds.len()
            &&& !w.contains(ds[cur[i]].id@)
            &&& forall|k: int| 0 <= k < cur[i] ==> (#[trigger] ds[k]).id@ != ds[cur[i]].id@
        } by {
            if i < prev.len() {
                assert(cur[i] == prev[i]);
                assert(ds[prev[i]] == pre[prev[i]]);
                assert forall|k: int| 0 <= k < cur[i] implies (#[trigger] ds[k]).id@ != ds[cur[i]].id@ by {
                    assert(ds[k] == pre[k]);
                    assert(pre[k].id@ != pre[prev[i]].id@);
                }
            }
        }
    }
}

/// One call on the registry, with what it was given and what it returned.
pub enum Call<S> {
    Claim(Seq<char>, bool),
    Publish(Seq<DeviceConfig>, S),
    Poll(Result<(Vec<DeviceConfig>, S), String>, Seq<DeviceConfig>),
}

/// What a call does, by the contract of the function making it.
pub open spec fn call_post<S>(pre: Registry<S>, c: Call<S>, post: Registry<S>) -> bool {
    match c {
        Call::Claim(id, r) => claim_post(pre, id, post, r),
        Call::Publish(devices, settings) => publish_post(pre, devices, settings, post),
        Call::Poll(loaded, r) => poll_post(pre, loaded, post, r),
    }
}

/// `states[i + 1]` is what `calls[i]` left of `states[i]`.
pub open spec fn trace<S>(states: Seq<Registry<S>>, calls: Seq<Call<S>>) -> bool {
    &&& states.len() == calls.len() + 1
    &&& forall|i: int| 0 <= i < calls.len() ==> call_post(#[trigger] states[i], calls[i], states[i + 1])
}

/// How many of `calls` are polls that read the config successfully.
pub open spec fn reloads<S>(calls: Seq<Call<S>>) -> nat
    decreases calls.len(),
{
    if calls.len() == 0 {
        0
    } else {
        reloads(calls.drop_last()) + match calls.last() {
            Call::Poll(Ok(_), _) => 1nat,
            _ => 0nat,
        }
    }
}

/// The generation counts the successful reloads: across any sequence of
/// claims, publishes and polls it moves on by exactly the number of polls
/// that read the config (modulo 2^64, as the counter wraps); claims,
/// publishes and failed polls leave it as it was.
pub proof fn law_generation_counts_reloads<S>(states: Seq<Registry<S>>, calls: Seq<Call<S>>)
    requires
        trace(states, calls),
    ensures
        states.last().generation == (states[0].generation + reloads(calls)) % 0x1_0000_0000_0000_0000,
    decreases calls.len(),
{
    let m: int = 0x1_0000_0000_0000_0000;
    if calls.len() == 0 {
        assert(states[0].generation < m);
    } else {
        let n = calls.len() - 1;
        let ps = states.drop_last();
        let pc = calls.drop_last();
        assert forall|i: int| 0 <= i < pc.len() implies call_post(#[trigger] ps[i], pc[i], ps[i + 1]) by {
            assert(call_post(states[i], calls[i], states[i + 1]));
        }
        law_generation_counts_reloads(ps, pc);
        let before = states[n].generation;
        assert(ps.last() == states[n]);
        assert(call_post(states[n], calls[n], states[n + 1]));
        let a: int = states[0].generation + reloads(pc);
        assert(before == a % m);
        match calls[n] {
            Call::Poll(Ok(_), _) => {
                assert(reloads(calls) == reloads(pc) + 1);
                if before == u64::MAX {
                    assert((a + 1) % m == 0) by (nonlinear_arith)
                        requires a % m == m - 1, m > 0, a >= 0;
                } else {
                    assert((a + 1) % m == a % m + 1) by (nonlinear_arith)
                        requires a % m < m - 1, m > 0, a >= 0;
                }
            },
            Call::Poll(Err(_), _) => {
                assert(reloads(calls) == reloads(pc));
            },
            Call::Claim(..) => {
                assert(reloads(calls) == reloads(pc));
            },
            Call::Publish(..) => {
                assert(reloads(calls) == reloads(pc));
            },
        }
    }
}

} // verus!
