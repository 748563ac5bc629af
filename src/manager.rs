//! The authoritative volume cache: merging detection passes, tracking and
//! untracking, and the events each change emits.
use vstd::prelude::*;
use crate::fingerprint::{FingerprintView, VolumeFingerprint};
use crate::fs::common::FsProbe;
use crate::fs::handler::{enhanced, get_filesystem_handler};
use crate::types::{FilesystemMetadata, Volume, VolumeError, VolumeView};

verus! {

/// What a change to the cache announces.
#[derive(Debug)]
pub enum VolumeEvent {
    /// Detection found a volume the cache did not hold.
    VolumeAdded(VolumeFingerprint),
    /// Detection found a held volume with different properties.
    VolumeChanged(VolumeFingerprint),
    /// A volume left the cache, or its tracking ended.
    VolumeRemoved(VolumeFingerprint),
    /// For the interface: a volume became a tracked resource.
    ResourceAdded(VolumeFingerprint),
    /// For the interface: a resource changed but still exists.
    ResourceChanged(VolumeFingerprint),
}

pub ghost enum EventView {
    VolumeAdded(FingerprintView),
    VolumeChanged(FingerprintView),
    VolumeRemoved(FingerprintView),
    ResourceAdded(FingerprintView),
    ResourceChanged(FingerprintView),
}

impl View for VolumeEvent {
    type V = EventView;

    open spec fn view(&self) -> EventView {
        match self {
            VolumeEvent::VolumeAdded(f) => EventView::VolumeAdded(f@),
            VolumeEvent::VolumeChanged(f) => EventView::VolumeChanged(f@),
            VolumeEvent::VolumeRemoved(f) => EventView::VolumeRemoved(f@),
            VolumeEvent::ResourceAdded(f) => EventView::ResourceAdded(f@),
            VolumeEvent::ResourceChanged(f) => EventView::ResourceChanged(f@),
        }
    }
}

pub open spec fn events_view(e: Seq<VolumeEvent>) -> Seq<EventView> {
    e.map_values(|x: VolumeEvent| x@)
}

pub open spec fn volumes_view(s: Seq<Volume>) -> Seq<VolumeView> {
    s.map_values(|v: Volume| v@)
}

/// Some record in `s` has fingerprint `fp`.
pub open spec fn has_fp(s: Seq<VolumeView>, fp: FingerprintView) -> bool {
    exists|i: int| 0 <= i < s.len() && (#[trigger] s[i]).fingerprint == fp
}

/// No two records in `s` share a fingerprint.
pub open spec fn unique_fps(s: Seq<VolumeView>) -> bool {
    forall|i: int, j: int|
        0 <= i < s.len() && 0 <= j < s.len() && i != j ==> (#[trigger] s[i]).fingerprint != (
        #[trigger] s[j]).fingerprint
}

/// A fresh record with the tracking state of the one it replaces.
pub open spec fn with_tracking(d: VolumeView, o: VolumeView) -> VolumeView {
    VolumeView { is_tracked: o.is_tracked, library_id: o.library_id, ..d }
}

/// `n` is the detected record `d` as merged into the cache `old`: it keeps
/// the tracking state of the cached record with its fingerprint, if any.
pub open spec fn merged(n: VolumeView, d: VolumeView, old: Seq<VolumeView>) -> bool {
    &&& forall|j: int|
        0 <= j < old.len() && (#[trigger] old[j]).fingerprint == d.fingerprint ==> n == with_tracking(
            d,
            old[j],
        )
    &&& !has_fp(old, d.fingerprint) ==> n == d
}

/// `i` is the first record of `s` with fingerprint `fp`.
pub open spec fn first_with(s: Seq<VolumeView>, i: int, fp: FingerprintView) -> bool {
    &&& 0 <= i < s.len()
    &&& s[i].fingerprint == fp
    &&& forall|j: int| 0 <= j < i ==> (#[trigger] s[j]).fingerprint != fp
}

/// `new` is the cache after merging the detected records `det` into `old`:
/// one record per detected fingerprint (the first detected one), keeping its
/// tracking state; cached volumes that were not detected are gone.
pub open spec fn refresh_result(old: Seq<VolumeView>, det: Seq<VolumeView>, new: Seq<VolumeView>) -> bool {
    &&& unique_fps(new)
    &&& forall|fp: FingerprintView| has_fp(new, fp) <==> has_fp(det, fp)
    &&& forall|k: int|
        0 <= k < new.len() ==> exists|i: int|
            first_with(det, i, (#[trigger] new[k]).fingerprint) && merged(new[k], det[i], old)
}

/// The volume with fingerprint `fp` is held before and after, with different properties.
pub open spec fn changed_in(old: Seq<VolumeView>, new: Seq<VolumeView>, fp: FingerprintView) -> bool {
    exists|k: int, j: int|
        0 <= k < new.len() && 0 <= j < old.len() && (#[trigger] new[k]).fingerprint == fp && (
        #[trigger] old[j]).fingerprint == fp && new[k] != old[j]
}

pub open spec fn event_justified(
    e: EventView,
    old: Seq<VolumeView>,
    det: Seq<VolumeView>,
    new: Seq<VolumeView>,
) -> bool {
    match e {
        EventView::VolumeAdded(fp) => has_fp(det, fp) && !has_fp(old, fp),
        EventView::VolumeRemoved(fp) => has_fp(old, fp) && !has_fp(det, fp),
        EventView::VolumeChanged(fp) => changed_in(old, new, fp),
        _ => false,
    }
}

/// The volume an event is about.
pub open spec fn event_fp(e: EventView) -> FingerprintView {
    match e {
        EventView::VolumeAdded(fp) => fp,
        EventView::VolumeChanged(fp) => fp,
        EventView::VolumeRemoved(fp) => fp,
        EventView::ResourceAdded(fp) => fp,
        EventView::ResourceChanged(fp) => fp,
    }
}

proof fn lemma_push_distinct(e: Seq<EventView>, x: EventView)
    requires
        e.no_duplicates(),
        forall|k: int| 0 <= k < e.len() ==> #[trigger] e[k] != x,
    ensures
        e.push(x).no_duplicates(),
{
    let n = e.push(x);
    assert forall|a: int, b: int| 0 <= a < n.len() && 0 <= b < n.len() && a != b implies n[a] != n[b] by {
        if a < e.len() && b < e.len() {
            assert(n[a] == e[a] && n[b] == e[b]);
        } else if a < e.len() {
            assert(n[a] == e[a]);
        } else {
            assert(n[b] == e[b]);
        }
    }
}

/// The events of a detection pass: one per delta, and nothing else.
pub open spec fn refresh_events(
    old: Seq<VolumeView>,
    det: Seq<VolumeView>,
    new: Seq<VolumeView>,
    ev: Seq<EventView>,
) -> bool {
    &&& forall|k: int| 0 <= k < ev.len() ==> event_justified(#[trigger] ev[k], old, det, new)
    &&& forall|fp: FingerprintView|
        has_fp(det, fp) && !has_fp(old, fp) ==> ev.contains(EventView::VolumeAdded(fp))
    &&& forall|fp: FingerprintView|
        has_fp(old, fp) && !has_fp(det, fp) ==> ev.contains(EventView::VolumeRemoved(fp))
    &&& forall|fp: FingerprintView| changed_in(old, new, fp) ==> ev.contains(EventView::VolumeChanged(fp))
}

/// The probe result handed in for detected volume `i`.
pub open spec fn probe_at(probes: Seq<FsProbe>, i: int) -> FsProbe {
    if 0 <= i < probes.len() {
        probes[i]
    } else {
        FsProbe::Unavailable
    }
}

/// The detected records after their filesystem's handler enhanced them.
pub open spec fn enhanced_all(det: Seq<Volume>, probes: Seq<FsProbe>) -> Seq<VolumeView> {
    Seq::new(det.len(), |i: int| enhanced(det[i].file_system, det[i]@, probe_at(probes, i)))
}

proof fn lemma_has_fp_push(s: Seq<VolumeView>, x: VolumeView, fp: FingerprintView)
    ensures
        has_fp(s.push(x), fp) <==> (has_fp(s, fp) || x.fingerprint == fp),
{
    if has_fp(s, fp) {
        let i = choose|i: int| 0 <= i < s.len() && (#[trigger] s[i]).fingerprint == fp;
        assert(s.push(x)[i] == s[i]);
    }
    if x.fingerprint == fp {
        assert(s.push(x)[s.len() as int] == x);
    }
    if has_fp(s.push(x), fp) {
        let i = choose|i: int| 0 <= i < s.push(x).len() && (#[trigger] s.push(x)[i]).fingerprint == fp;
        if i < s.len() {
            assert(s[i] == s.push(x)[i]);
        }
    }
}

fn index_of(vols: &Vec<Volume>, fp: &VolumeFingerprint) -> (r: Option<usize>)
    ensures
        r is None ==> !has_fp(volumes_view(vols@), fp@),
        r matches Some(k) ==> k < vols@.len() && vols@[k as int].fingerprint@ == fp@,
{
    let mut i: usize = 0;
    while i < vols.len()
        invariant
            i <= vols@.len(),
            forall|j: int| 0 <= j < i ==> (#[trigger] vols@[j]).fingerprint@ != fp@,
        decreases vols@.len() - i,
    {
        if vols[i].fingerprint.same_as(fp) {
            return Some(i);
        }
        i = i + 1;
    }
    proof {
        if has_fp(volumes_view(vols@), fp@) {
            let j = choose|j: int|
                0 <= j < volumes_view(vols@).len() && (#[trigger] volumes_view(vols@)[j]).fingerprint
                    == fp@;
            assert(vols@[j].fingerprint@ == fp@);
        }
    }
    None
}

fn same_strings(a: &Vec<String>, b: &Vec<String>) -> (r: bool)
    ensures
        r == (crate::types::string_views(a@) == crate::types::string_views(b@)),
{
    if a.len() != b.len() {
        assert(crate::types::string_views(a@).len() != crate::types::string_views(b@).len());
        return false;
    }
    let mut i: usize = 0;
    while i < a.len()
        invariant
            a@.len() == b@.len(),
            i <= a@.len(),
            forall|j: int| 0 <= j < i ==> (#[trigger] a@[j])@ == b@[j]@,
        decreases a@.len() - i,
    {
        if !a[i].eq(&b[i]) {
            assert(crate::types::string_views(a@)[i as int] != crate::types::string_views(b@)[i as int]);
            return false;
        }
        i = i + 1;
    }
    assert(crate::types::string_views(a@) =~= crate::types::string_views(b@));
    true
}

fn same_option_string(a: &Option<String>, b: &Option<String>) -> (r: bool)
    ensures
        r == (match (a, b) {
            (Some(x), Some(y)) => x@ == y@,
            (None, None) => true,
            _ => false,
        }),
{
    match (a, b) {
        (Some(x), Some(y)) => x.eq(y),
        (None, None) => true,
        _ => false,
    }
}

fn same_option_u128(a: Option<u128>, b: Option<u128>) -> (r: bool)
    ensures
        r == (a == b),
{
    match (a, b) {
        (Some(x), Some(y)) => x == y,
        (None, None) => true,
        _ => false,
    }
}

fn same_metadata(a: Option<FilesystemMetadata>, b: Option<FilesystemMetadata>) -> (r: bool)
    ensures
        r == (a == b),
{
    match (a, b) {
        (Some(x), Some(y)) => x == y,
        (None, None) => true,
        _ => false,
    }
}

/// Whether two records hold the same properties.
pub fn same_volume(a: &Volume, b: &Volume) -> (r: bool)
    ensures
        r == (a@ == b@),
{
    let r = a.device_id == b.device_id && a.fingerprint.same_as(&b.fingerprint) && a.name.eq(&b.name)
        && a.mount_point.eq(&b.mount_point) && same_strings(&a.mount_points, &b.mount_points)
        && a.mount_type == b.mount_type && a.volume_type == b.volume_type && a.disk_type
        == b.disk_type && a.file_system == b.file_system && a.total_capacity == b.total_capacity
        && a.available_space == b.available_space && a.is_read_only == b.is_read_only
        && a.is_tracked == b.is_tracked && same_option_u128(a.library_id, b.library_id)
        && same_option_string(&a.hardware_id, &b.hardware_id) && same_metadata(
        a.filesystem_metadata,
        b.filesystem_metadata,
    );
    proof {
        if r {
            assert(a@.hardware_id == b@.hardware_id);
        }
    }
    r
}

/// The in-memory cache of the volumes of one device.
#[derive(Debug)]
pub struct VolumeManager {
    pub device_id: u128,
    pub volumes: Vec<Volume>,
}

impl VolumeManager {
    /// The cache's invariant: one record per fingerprint, each well formed.
    pub open spec fn wf(&self) -> bool {
        &&& unique_fps(self.view_volumes())
        &&& forall|k: int| 0 <= k < self.volumes@.len() ==> (#[trigger] self.volumes@[k]).wf()
    }

    pub open spec fn view_volumes(&self) -> Seq<VolumeView> {
        volumes_view(self.volumes@)
    }

    /// An empty cache for the given device.
    pub fn new(device_id: u128) -> (r: Self)
        ensures
            r.wf(),
            r.device_id == device_id,
            r.view_volumes() == Seq::<VolumeView>::empty(),
    {
        let r = VolumeManager { device_id, volumes: Vec::new() };
        assert(r.view_volumes() =~= Seq::<VolumeView>::empty());
        r
    }
}

impl VolumeManager {
    /// Merges a detection pass into the cache. Each detected volume is first
    /// enhanced by its filesystem's handler with `probes[i]` (a missing probe
    /// counts as failed); the cache then holds one record per detected
    /// fingerprint, keeping the tracking state of the record it replaces, and
    /// volumes no longer detected are evicted. One event is emitted per delta.
    pub fn refresh(&mut self, detected: Vec<Volume>, probes: &Vec<FsProbe>) -> (r: Vec<VolumeEvent>)
        requires
            old(self).wf(),
            forall|k: int| 0 <= k < detected@.len() ==> (#[trigger] detected@[k]).wf(),
        ensures
            final(self).wf(),
            final(self).device_id == old(self).device_id,
            refresh_result(
                old(self).view_volumes(),
                enhanced_all(detected@, probes@),
                final(self).view_volumes(),
            ),
            refresh_events(
                old(self).view_volumes(),
                enhanced_all(detected@, probes@),
                final(self).view_volumes(),
                events_view(r@),
            ),
            events_view(r@).no_duplicates(),
    {
        let ghost o = self.view_volumes();
        let ghost d = enhanced_all(detected@, probes@);
        let mut fresh: Vec<Volume> = Vec::new();
        let mut events: Vec<VolumeEvent> = Vec::new();
        let mut i: usize = 0;
        assert(volumes_view(fresh@) =~= Seq::<VolumeView>::empty());
        assert(events_view(events@) =~= Seq::<EventView>::empty());
        while i < detected.len()
            invariant
                self.wf(),
                self.view_volumes() == o,
                self.device_id == old(self).device_id,
                d == enhanced_all(detected@, probes@),
                i <= detected@.len(),
                forall|k: int| 0 <= k < detected@.len() ==> (#[trigger] detected@[k]).wf(),
                unique_fps(volumes_view(fresh@)),
                forall|k: int| 0 <= k < fresh@.len() ==> (#[trigger] fresh@[k]).wf(),
                forall|fp: FingerprintView|
                    has_fp(volumes_view(fresh@), fp) <==> has_fp(d.subrange(0, i as int), fp),
                forall|k: int|
                    0 <= k < fresh@.len() ==> exists|i2: int|
                        i2 < i && first_with(d, i2, (#[trigger] volumes_view(fresh@)[k]).fingerprint)
                            && merged(volumes_view(fresh@)[k], d[i2], o),
                forall|k: int|
                    0 <= k < events@.len() ==> !(events_view(events@)[k] is VolumeRemoved)
                        && event_justified(
                        #[trigger] events_view(events@)[k],
                        o,
                        d.subrange(0, i as int),
                        volumes_view(fresh@),
                    ),
                forall|fp: FingerprintView|
                    has_fp(d.subrange(0, i as int), fp) && !has_fp(o, fp) ==> events_view(
                        events@,
                    ).contains(EventView::VolumeAdded(fp)),
                forall|fp: FingerprintView|
                    changed_in(o, volumes_view(fresh@), fp) ==> events_view(events@).contains(
                        EventView::VolumeChanged(fp),
                    ),
                forall|k: int|
                    0 <= k < events@.len() ==> has_fp(
                        volumes_view(fresh@),
                        event_fp(#[trigger] events_view(events@)[k]),
                    ),
                events_view(events@).no_duplicates(),
            decreases detected@.len() - i,
        {
            let ghost f0 = volumes_view(fresh@);
            let ghost e0 = events_view(events@);
            let ghost dp = d.subrange(0, i as int);
            let ghost dq = d.subrange(0, i + 1);
            let mut v = detected[i].duplicate();
            let probe = if i < probes.len() {
                probes[i]
            } else {
                FsProbe::Unavailable
            };
            let handler = get_filesystem_handler(v.file_system);
            let _ = handler.enhance_volume(&mut v, probe);
            assert(v@ == d[i as int]);
            let ghost fp = v@.fingerprint;
            assert(dq =~= dp.push(d[i as int]));
            proof {
                assert forall|fp2: FingerprintView|
                    has_fp(dq, fp2) <==> (has_fp(dp, fp2) || fp == fp2) by {
                    lemma_has_fp_push(dp, d[i as int], fp2);
                }
            }
            match index_of(&fresh, &v.fingerprint) {
                Some(k) => {
                    proof {
                        assert(f0[k as int].fingerprint == fp);
                        assert(has_fp(f0, fp));
                        assert(has_fp(dp, fp));
                    }
                },
                None => {
                    proof {
                        assert forall|j2: int| 0 <= j2 < i implies (#[trigger] d[j2]).fingerprint != fp by {
                            assert(dp[j2] == d[j2]);
                            if d[j2].fingerprint == fp {
                                assert(has_fp(dp, fp));
                            }
                        }
                        assert(first_with(d, i as int, fp));
                    }
                    match index_of(&self.volumes, &v.fingerprint) {
                        Some(j) => {
                            v.is_tracked = self.volumes[j].is_tracked;
                            v.library_id = self.volumes[j].library_id;
                            assert(o[j as int].fingerprint == fp);
                            assert(v@ == with_tracking(d[i as int], o[j as int]));
                            assert(has_fp(o, fp));
                            assert(merged(v@, d[i as int], o));
                            if !same_volume(&v, &self.volumes[j]) {
                                events.push(VolumeEvent::VolumeChanged(v.fingerprint.duplicate()));
                                proof {
                                    assert(events_view(events@) =~= e0.push(EventView::VolumeChanged(fp)));
                                    assert forall|k: int| 0 <= k < e0.len() implies #[trigger] e0[k]
                                        != EventView::VolumeChanged(fp) by {
                                        assert(has_fp(f0, event_fp(e0[k])));
                                    }
                                    lemma_push_distinct(e0, EventView::VolumeChanged(fp));
                                }
                            } else {
                                proof {
                                    assert(events_view(events@) =~= e0);
                                }
                            }
                        },
                        None => {
                            assert(merged(v@, d[i as int], o));
                            events.push(VolumeEvent::VolumeAdded(v.fingerprint.duplicate()));
                            proof {
                                assert(events_view(events@) =~= e0.push(EventView::VolumeAdded(fp)));
                                assert forall|k: int| 0 <= k < e0.len() implies #[trigger] e0[k]
                                    != EventView::VolumeAdded(fp) by {
                                    assert(has_fp(f0, event_fp(e0[k])));
                                }
                                lemma_push_distinct(e0, EventView::VolumeAdded(fp));
                            }
                        },
                    }
                    let ghost nv = v@;
                    fresh.push(v);
                    proof {
                        let f1 = volumes_view(fresh@);
                        assert(f1 =~= f0.push(nv));
                        assert forall|fp2: FingerprintView| has_fp(f1, fp2) <==> (has_fp(f0, fp2) || fp == fp2) by {
                            lemma_has_fp_push(f0, nv, fp2);
                        }
                        assert(f1[f0.len() as int] == nv);
                    }
                },
            }
            proof {
                let f1 = volumes_view(fresh@);
                let e1 = events_view(events@);
                assert(f0.len() <= f1.len());
                assert(forall|k: int| 0 <= k < f0.len() ==> f1[k] == f0[k]);
                assert(e0.len() <= e1.len());
                assert(forall|k: int| 0 <= k < e0.len() ==> e1[k] == e0[k]);
                assert forall|fp2: FingerprintView| has_fp(f1, fp2) <==> has_fp(dq, fp2) by {
                    if f1.len() == f0.len() {
                        assert(f1 =~= f0);
                    }
                }
                assert forall|k: int| 0 <= k < f1.len() implies exists|i2: int|
                    i2 < i + 1 && first_with(d, i2, (#[trigger] f1[k]).fingerprint) && merged(f1[k], d[i2], o) by {
                    if k < f0.len() {
                        assert(f1[k] == f0[k]);
                        assert(volumes_view(fresh@)[k] == f1[k]);
                    } else {
                        assert(first_with(d, i as int, f1[k].fingerprint) && merged(f1[k], d[i as int], o));
                    }
                }
                assert forall|k: int| 0 <= k < e1.len() implies has_fp(f1, event_fp(#[trigger] e1[k])) by {
                    if k < e0.len() {
                        assert(e1[k] == e0[k]);
                        assert(has_fp(f0, event_fp(e0[k])));
                        if f1.len() == f0.len() {
                            assert(f1 =~= f0);
                        }
                    } else {
                        assert(f1[f0.len() as int].fingerprint == fp);
                    }
                }
                assert forall|fp2: FingerprintView| changed_in(o, f1, fp2) implies e1.contains(
                    EventView::VolumeChanged(fp2),
                ) by {
                    let (k, j) = choose|k: int, j: int|
                        0 <= k < f1.len() && 0 <= j < o.len() && (#[trigger] f1[k]).fingerprint == fp2 && (
                        #[trigger] o[j]).fingerprint == fp2 && f1[k] != o[j];
                    if k < f0.len() {
                        assert(f0[k] == f1[k]);
                        assert(changed_in(o, f0, fp2));
                        let m = choose|m: int| 0 <= m < e0.len() && e0[m] == EventView::VolumeChanged(fp2);
                        assert(e1[m] == e0[m]);
                    } else {
                        assert(e1.len() > e0.len());
                        assert(e1[e1.len() - 1] == EventView::VolumeChanged(fp2));
                    }
                }
                assert forall|fp2: FingerprintView|
                    has_fp(dq, fp2) && !has_fp(o, fp2) implies e1.contains(EventView::VolumeAdded(fp2)) by {
                    if has_fp(dp, fp2) {
                        let m = choose|m: int| 0 <= m < e0.len() && e0[m] == EventView::VolumeAdded(fp2);
                        assert(e1[m] == e0[m]);
                    } else {
                        assert(fp2 == fp);
                        assert(!has_fp(f0, fp));
                        assert(e1.len() > e0.len());
                        assert(e1[e1.len() - 1] == EventView::VolumeAdded(fp2));
                    }
                }
                assert forall|k: int| 0 <= k < e1.len() implies !(e1[k] is VolumeRemoved) && event_justified(
                    #[trigger] e1[k],
                    o,
                    dq,
                    f1,
                ) by {
                    if k < e0.len() {
                        assert(e1[k] == e0[k]);
                        assert(event_justified(e0[k], o, dp, f0));
                        if let EventView::VolumeChanged(fp2) = e0[k] {
                            let (k2, j2) = choose|k2: int, j2: int|
                                0 <= k2 < f0.len() && 0 <= j2 < o.len() && (#[trigger] f0[k2]).fingerprint
                                    == fp2 && (#[trigger] o[j2]).fingerprint == fp2 && f0[k2] != o[j2];
                            assert(f1[k2] == f0[k2]);
                        }
                    } else {
                        if let EventView::VolumeChanged(fp2) = e1[k] {
                            let j2 = choose|j2: int| 0 <= j2 < o.len() && (#[trigger] o[j2]).fingerprint == fp;
                            assert(f1[f0.len() as int].fingerprint == fp);
                            assert(f1[f0.len() as int] != o[j2]);
                        }
                    }
                }
            }
            i = i + 1;
        }
        assert(d.subrange(0, d.len() as int) =~= d);
        let mut j: usize = 0;
        while j < self.volumes.len()
            invariant
                self.wf(),
                self.view_volumes() == o,
                self.device_id == old(self).device_id,
                d == enhanced_all(detected@, probes@),
                j <= o.len(),
                unique_fps(volumes_view(fresh@)),
                forall|k: int| 0 <= k < fresh@.len() ==> (#[trigger] fresh@[k]).wf(),
                refresh_result(o, d, volumes_view(fresh@)),
                forall|k: int|
                    0 <= k < events@.len() ==> event_justified(
                        #[trigger] events_view(events@)[k],
                        o,
                        d,
                        volumes_view(fresh@),
                    ),
                forall|fp: FingerprintView|
                    has_fp(d, fp) && !has_fp(o, fp) ==> events_view(events@).contains(
                        EventView::VolumeAdded(fp),
                    ),
                forall|fp: FingerprintView|
                    changed_in(o, volumes_view(fresh@), fp) ==> events_view(events@).contains(
                        EventView::VolumeChanged(fp),
                    ),
                forall|j2: int|
                    0 <= j2 < j && !has_fp(d, #[trigger] o[j2].fingerprint) ==> events_view(
                        events@,
                    ).contains(EventView::VolumeRemoved(o[j2].fingerprint)),
                forall|k: int|
                    0 <= k < events@.len() ==> if events_view(events@)[k] is VolumeRemoved {
                        exists|j2: int|
                            0 <= j2 < j && (#[trigger] o[j2]).fingerprint == event_fp(
                                events_view(events@)[k],
                            )
                    } else {
                        has_fp(volumes_view(fresh@), event_fp(#[trigger] events_view(events@)[k]))
                    },
                events_view(events@).no_duplicates(),
            decreases o.len() - j,
        {
            let ghost e0 = events_view(events@);
            let ghost f = volumes_view(fresh@);
            let found = index_of(&fresh, &self.volumes[j].fingerprint);
            let ghost ofp = o[j as int].fingerprint;
            if found.is_none() {
                events.push(VolumeEvent::VolumeRemoved(self.volumes[j].fingerprint.duplicate()));
                proof {
                    assert(events_view(events@) =~= e0.push(EventView::VolumeRemoved(ofp)));
                    assert(has_fp(o, ofp));
                    assert forall|k: int| 0 <= k < e0.len() implies #[trigger] e0[k] != EventView::VolumeRemoved(ofp) by {
                        if e0[k] is VolumeRemoved {
                            let j2 = choose|j2: int| 0 <= j2 < j && (#[trigger] o[j2]).fingerprint == event_fp(e0[k]);
                            assert(o[j2].fingerprint != o[j as int].fingerprint);
                        } else {
                            assert(has_fp(f, event_fp(e0[k])));
                        }
                    }
                    lemma_push_distinct(e0, EventView::VolumeRemoved(ofp));
                }
            } else {
                proof {
                    assert(events_view(events@) =~= e0);
                    let k = found->Some_0;
                    assert(f[k as int].fingerprint == ofp);
                    assert(has_fp(f, ofp));
                }
            }
            proof {
                let e1 = events_view(events@);
                assert(e0.len() <= e1.len());
                assert(forall|k: int| 0 <= k < e0.len() ==> e1[k] == e0[k]);
                assert forall|fp: FingerprintView| has_fp(d, fp) && !has_fp(o, fp) implies e1.contains(
                    EventView::VolumeAdded(fp),
                ) by {
                    let m = choose|m: int| 0 <= m < e0.len() && e0[m] == EventView::VolumeAdded(fp);
                    assert(e1[m] == e0[m]);
                }
                assert forall|fp: FingerprintView| changed_in(o, f, fp) implies e1.contains(
                    EventView::VolumeChanged(fp),
                ) by {
                    let m = choose|m: int| 0 <= m < e0.len() && e0[m] == EventView::VolumeChanged(fp);
                    assert(e1[m] == e0[m]);
                }
                assert forall|j2: int|
                    0 <= j2 < j + 1 && !has_fp(d, #[trigger] o[j2].fingerprint) implies e1.contains(
                    EventView::VolumeRemoved(o[j2].fingerprint),
                ) by {
                    if j2 < j {
                        let m = choose|m: int|
                            0 <= m < e0.len() && e0[m] == EventView::VolumeRemoved(o[j2].fingerprint);
                        assert(e1[m] == e0[m]);
                    } else {
                        assert(!has_fp(f, ofp));
                        assert(e1[e1.len() - 1] == EventView::VolumeRemoved(o[j2].fingerprint));
                    }
                }
                assert forall|k: int| 0 <= k < e1.len() implies event_justified(#[trigger] e1[k], o, d, f) by {
                    if k < e0.len() {
                        assert(e1[k] == e0[k]);
                    }
                }
                assert forall|k: int| 0 <= k < e1.len() implies (if e1[k] is VolumeRemoved {
                    exists|j2: int| 0 <= j2 < j + 1 && (#[trigger] o[j2]).fingerprint == event_fp(e1[k])
                } else {
                    has_fp(f, event_fp(#[trigger] e1[k]))
                }) by {
                    if k < e0.len() {
                        assert(e1[k] == e0[k]);
                        if e0[k] is VolumeRemoved {
                            let j2 = choose|j2: int| 0 <= j2 < j && (#[trigger] o[j2]).fingerprint == event_fp(e0[k]);
                            assert(o[j2].fingerprint == event_fp(e1[k]));
                        }
                    } else {
                        assert(o[j as int].fingerprint == event_fp(e1[k]));
                    }
                }
            }
            j = j + 1;
        }
        proof {
            let e = events_view(events@);
            assert forall|fp: FingerprintView| has_fp(o, fp) && !has_fp(d, fp) implies e.contains(
                EventView::VolumeRemoved(fp),
            ) by {
                let j2 = choose|j2: int| 0 <= j2 < o.len() && (#[trigger] o[j2]).fingerprint == fp;
            }
        }
        self.volumes = fresh;
        events
    }
}

/// The cache with the tracking state of the volume `fp` set, all else kept.
pub open spec fn set_tracking(s: Seq<VolumeView>, fp: FingerprintView, tracking: bool, library: Option<u128>) -> Seq<
    VolumeView,
> {
    s.map_values(
        |v: VolumeView|
            if v.fingerprint == fp {
                VolumeView { is_tracked: tracking, library_id: library, ..v }
            } else {
                v
            },
    )
}

impl VolumeManager {
    /// A snapshot of the cache.
    pub fn get_all_volumes(&self) -> (r: Vec<Volume>)
        ensures
            volumes_view(r@) == self.view_volumes(),
    {
        let mut out: Vec<Volume> = Vec::new();
        let mut i: usize = 0;
        while i < self.volumes.len()
            invariant
                i <= self.volumes@.len(),
                volumes_view(out@) == volumes_view(self.volumes@).subrange(0, i as int),
            decreases self.volumes@.len() - i,
        {
            let ghost prev = volumes_view(out@);
            out.push(self.volumes[i].duplicate());
            assert(volumes_view(out@) =~= prev.push(self.volumes@[i as int]@));
            assert(volumes_view(out@) =~= volumes_view(self.volumes@).subrange(0, i + 1));
            i = i + 1;
        }
        assert(volumes_view(self.volumes@).subrange(0, i as int) =~= volumes_view(self.volumes@));
        out
    }

    /// The cached record of the volume `fp`, if there is one.
    pub fn get_volume(&self, fp: &VolumeFingerprint) -> (r: Option<Volume>)
        requires
            self.wf(),
        ensures
            r is None <==> !has_fp(self.view_volumes(), fp@),
            r matches Some(v) ==> exists|k: int|
                0 <= k < self.view_volumes().len() && #[trigger] self.view_volumes()[k] == v@
                    && v@.fingerprint == fp@,
    {
        match index_of(&self.volumes, fp) {
            Some(k) => {
                let v = self.volumes[k].duplicate();
                assert(self.view_volumes()[k as int] == v@);
                Some(v)
            },
            None => None,
        }
    }

    fn set_tracking_at(&mut self, k: usize, tracking: bool, library: Option<u128>)
        requires
            old(self).wf(),
            k < old(self).volumes@.len(),
        ensures
            final(self).wf(),
            final(self).device_id == old(self).device_id,
            final(self).view_volumes() == set_tracking(
                old(self).view_volumes(),
                old(self).view_volumes()[k as int].fingerprint,
                tracking,
                library,
            ),
    {
        let ghost o = self.view_volumes();
        let mut v = self.volumes[k].duplicate();
        v.is_tracked = tracking;
        v.library_id = library;
        self.volumes.set(k, v);
        proof {
            let fp = o[k as int].fingerprint;
            let n = self.view_volumes();
            assert forall|j: int| 0 <= j < n.len() implies #[trigger] n[j] == set_tracking(o, fp, tracking, library)[j] by {
                if j != k {
                    assert(o[j].fingerprint != fp);
                }
            }
            assert(n =~= set_tracking(o, fp, tracking, library));
            assert forall|i: int, j: int|
                0 <= i < n.len() && 0 <= j < n.len() && i != j implies (#[trigger] n[i]).fingerprint != (
                #[trigger] n[j]).fingerprint by {
                assert(n[i].fingerprint == o[i].fingerprint);
                assert(n[j].fingerprint == o[j].fingerprint);
            }
        }
    }

    /// Marks the volume `fp` tracked by `library_id`, once the store has
    /// persisted its record (`stored`). A volume the cache does not hold is not
    /// found; a store failure is returned as it is. Either way the cache is
    /// unchanged. On success a resource-added event is emitted.
    pub fn track_volume(&mut self, fp: &VolumeFingerprint, library_id: u128, stored: Result<(), String>) -> (r: Result<
        Vec<VolumeEvent>,
        VolumeError,
    >)
        requires
            old(self).wf(),
        ensures
            final(self).wf(),
            final(self).device_id == old(self).device_id,
            !has_fp(old(self).view_volumes(), fp@) ==> r matches Err(VolumeError::NotFound(_)),
            has_fp(old(self).view_volumes(), fp@) && stored is Err ==> (r matches Err(
                VolumeError::Database(m),
            ) && stored == Err::<(), String>(m)),
            r is Err ==> final(self).view_volumes() == old(self).view_volumes(),
            r is Ok <==> has_fp(old(self).view_volumes(), fp@) && stored is Ok,
            r matches Ok(ev) ==> events_view(ev@) == seq![EventView::ResourceAdded(fp@)]
                && final(self).view_volumes() == set_tracking(
                old(self).view_volumes(),
                fp@,
                true,
                Some(library_id),
            ),
    {
        match index_of(&self.volumes, fp) {
            None => Err(VolumeError::NotFound(fp.short_id())),
            Some(k) => {
                assert(self.view_volumes()[k as int].fingerprint == fp@);
                match stored {
                    Err(m) => Err(VolumeError::Database(m)),
                    Ok(()) => {
                        self.set_tracking_at(k, true, Some(library_id));
                        let mut ev: Vec<VolumeEvent> = Vec::new();
                        ev.push(VolumeEvent::ResourceAdded(fp.duplicate()));
                        assert(events_view(ev@) =~= seq![EventView::ResourceAdded(fp@)]);
                        Ok(ev)
                    },
                }
            },
        }
    }

    /// Ends the tracking of the volume `fp`, once the store has deleted its
    /// record (`deleted`). The volume stays in the cache, untracked and owned
    /// by no library; a volume-removed event is emitted for listeners of
    /// tracking state and a resource-changed event for the interface, since
    /// the volume itself still exists. A volume the cache does not hold is not
    /// found; a store failure is returned as it is; either way the cache is unchanged.
    pub fn untrack_volume_by_id(&mut self, fp: &VolumeFingerprint, deleted: Result<(), String>) -> (r: Result<
        Vec<VolumeEvent>,
        VolumeError,
    >)
        requires
            old(self).wf(),
        ensures
            final(self).wf(),
            final(self).device_id == old(self).device_id,
            !has_fp(old(self).view_volumes(), fp@) ==> r matches Err(VolumeError::NotFound(_)),
            has_fp(old(self).view_volumes(), fp@) && deleted is Err ==> (r matches Err(
                VolumeError::Database(m),
            ) && deleted == Err::<(), String>(m)),
            r is Err ==> final(self).view_volumes() == old(self).view_volumes(),
            r is Ok <==> has_fp(old(self).view_volumes(), fp@) && deleted is Ok,
            r matches Ok(ev) ==> events_view(ev@) == untrack_events(fp@) && final(self).view_volumes()
                == set_tracking(old(self).view_volumes(), fp@, false, None),
    {
        match index_of(&self.volumes, fp) {
            None => Err(VolumeError::NotFound(fp.short_id())),
            Some(k) => {
                assert(self.view_volumes()[k as int].fingerprint == fp@);
                match deleted {
                    Err(m) => Err(VolumeError::Database(m)),
                    Ok(()) => {
                        self.set_tracking_at(k, false, None);
                        let mut ev: Vec<VolumeEvent> = Vec::new();
                        ev.push(VolumeEvent::VolumeRemoved(fp.duplicate()));
                        ev.push(VolumeEvent::ResourceChanged(fp.duplicate()));
                        assert(events_view(ev@) =~= untrack_events(fp@));
                        Ok(ev)
                    },
                }
            },
        }
    }
}

/// The events of an untrack: tracking state changed, and the resource changed.
pub open spec fn untrack_events(fp: FingerprintView) -> Seq<EventView> {
    seq![EventView::VolumeRemoved(fp), EventView::ResourceChanged(fp)]
}

/// After an untrack the volume is still in the cache, no record with its
/// fingerprint is tracked or owned by a library, and the interface hears of a
/// change to the resource, not of its deletion.
pub proof fn law_untrack_keeps_volume_visible(s: Seq<VolumeView>, fp: FingerprintView)
    requires
        has_fp(s, fp),
    ensures
        has_fp(set_tracking(s, fp, false, None), fp),
        forall|k: int|
            0 <= k < set_tracking(s, fp, false, None).len() && (#[trigger] set_tracking(s, fp, false, None)[k]).fingerprint
                == fp ==> !set_tracking(s, fp, false, None)[k].is_tracked && set_tracking(
                s,
                fp,
                false,
                None,
            )[k].library_id is None,
        untrack_events(fp).contains(EventView::ResourceChanged(fp)),
        forall|k: int|
            0 <= k < untrack_events(fp).len() ==> !(#[trigger] untrack_events(fp)[k] is VolumeAdded)
                && !(untrack_events(fp)[k] is ResourceAdded),
{
    let i = choose|i: int| 0 <= i < s.len() && (#[trigger] s[i]).fingerprint == fp;
    assert(set_tracking(s, fp, false, None)[i].fingerprint == fp);
    assert(untrack_events(fp)[1] == EventView::ResourceChanged(fp));
}

proof fn lemma_first_unique(d: Seq<VolumeView>, i: int, i2: int, fp: FingerprintView)
    requires
        first_with(d, i, fp),
        first_with(d, i2, fp),
    ensures
        i == i2,
{
    if i < i2 {
        assert(d[i].fingerprint == fp);
    } else if i2 < i {
        assert(d[i2].fingerprint == fp);
    }
}

/// Two detection passes that find the same volumes change nothing the second
/// time: the second pass keeps the same fingerprints and emits no event.
pub proof fn law_repeated_detection_is_quiet(
    old: Seq<VolumeView>,
    det: Seq<VolumeView>,
    first: Seq<VolumeView>,
    second: Seq<VolumeView>,
    events: Seq<EventView>,
)
    requires
        refresh_result(old, det, first),
        refresh_result(first, det, second),
        refresh_events(first, det, second, events),
    ensures
        forall|fp: FingerprintView| has_fp(first, fp) <==> has_fp(second, fp),
        events.len() == 0,
{
    if events.len() > 0 {
        let e = events[0];
        assert(event_justified(e, first, det, second));
        if let EventView::VolumeChanged(fp) = e {
            let (k, j) = choose|k: int, j: int|
                0 <= k < second.len() && 0 <= j < first.len() && (#[trigger] second[k]).fingerprint == fp && (
                #[trigger] first[j]).fingerprint == fp && second[k] != first[j];
            let i = choose|i: int| first_with(det, i, second[k].fingerprint) && merged(second[k], det[i], first);
            let i2 = choose|i2: int| first_with(det, i2, first[j].fingerprint) && merged(first[j], det[i2], old);
            lemma_first_unique(det, i, i2, fp);
            assert(second[k] == with_tracking(det[i], first[j]));
            if has_fp(old, fp) {
                let x = choose|x: int| 0 <= x < old.len() && (#[trigger] old[x]).fingerprint == fp;
                assert(first[j] == with_tracking(det[i], old[x]));
            } else {
                assert(first[j] == det[i]);
            }
            assert(second[k] == first[j]);
        }
    }
}

} // verus!
