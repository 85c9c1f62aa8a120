//! The correlation engine: it takes what the frames show, keeps the model,
//! and buffers an event for each change.

use crate::events::model::{
    spec_events, spec_expected_beacons, spec_has_timer, AccessPointInfo, ConnectionType, Event,
    StoreView, Timer, BEACON_QUALITY_UPDATE_INTERVAL, RATE_EVENT_UPDATE_INTERVAL,
    SIGNAL_EVENT_TIMEOUT, SIGNAL_EVENT_UPDATE_INTERVAL,
};
use crate::events::table::MacTable;
use crate::ieee802_11::util::{hash_macs, is_broadcast, spec_hash_macs, MacAddress};
use std::time::{Duration, Instant};
use vstd::hash_map::StringHashMap;
use vstd::prelude::*;
use vstd::slice::slice_to_vec;

verus! {

/// A point of the machine's monotonic clock.
#[verifier::external_type_specification]
#[verifier::external_body]
pub struct ExInstant(Instant);

/// `std::time::Instant::now`: the present point of the monotonic clock.
/// Nothing is claimed of it.
#[verifier::external_body]
fn clock_start() -> Instant {
    Instant::now()
}

/// `std::time::Instant::elapsed`: the time that has passed since `start`.
/// It depends on when it is called, so nothing is claimed of it.
#[verifier::external_body]
fn clock_elapsed(start: &Instant) -> Duration {
    start.elapsed()
}

/// `std::time::Duration::as_micros`: the whole microseconds in a span of
/// time. A span is opaque here, so nothing is claimed of them.
#[verifier::external_body]
fn duration_micros(duration: &Duration) -> u128 {
    duration.as_micros()
}

/// The network names that a list of names holds.
pub open spec fn spec_ssid_set(list: Seq<Vec<u8>>) -> Set<Seq<u8>> {
    Set::new(|ssid: Seq<u8>| exists|i: int| 0 <= i < list.len() && (#[trigger] list[i])@ == ssid)
}

fn bytes_equal(a: &Vec<u8>, b: &Vec<u8>) -> (same: bool)
    ensures
        same == (a@ == b@),
{
    if a.len() != b.len() {
        return false;
    }
    let mut i: usize = 0;
    while i < a.len()
        invariant
            i <= a.len(),
            a.len() == b.len(),
            forall|j: int| 0 <= j < i ==> a@[j] == b@[j],
        decreases a.len() - i,
    {
        if a[i] != b[i] {
            return false;
        }
        i = i + 1;
    }
    assert(a@ =~= b@);
    true
}

fn list_contains(list: &Vec<Vec<u8>>, ssid: &Vec<u8>) -> (found: bool)
    ensures
        found == spec_ssid_set(list@).contains(ssid@),
{
    let mut i: usize = 0;
    while i < list.len()
        invariant
            i <= list.len(),
            forall|j: int| 0 <= j < i ==> (#[trigger] list@[j])@ != ssid@,
        decreases list.len() - i,
    {
        if bytes_equal(&list[i], ssid) {
            return true;
        }
        i = i + 1;
    }
    false
}

fn find_timer(timers: &Vec<Timer>, mac: &MacAddress) -> (found: bool)
    ensures
        found == spec_has_timer(timers@, *mac),
{
    let key = mac.to_u64();
    let mut i: usize = 0;
    while i < timers.len()
        invariant
            i <= timers.len(),
            key == mac.spec_to_u64(),
            forall|j: int| 0 <= j < i ==> (#[trigger] timers@[j]).mac != *mac,
        decreases timers.len() - i,
    {
        if timers[i].mac.to_u64() == key {
            proof {
                timers@[i as int].mac.lemma_number_injective(*mac);
            }
            return true;
        }
        i = i + 1;
    }
    false
}

/// How many beacons an access point should have sent by the time `now`, of
/// which the first came at `start` and which sends one every `interval`
/// microseconds.
pub fn expected_beacons(interval: u64, start: u64, now: u64) -> (expected: u64)
    ensures
        expected == spec_expected_beacons(interval, start, now),
{
    let elapsed = if now >= start {
        now - start
    } else {
        0
    };
    if interval == 0 {
        if elapsed == 0 {
            1
        } else {
            u64::MAX
        }
    } else {
        let whole = elapsed / interval;
        if whole < u64::MAX {
            whole + 1
        } else {
            u64::MAX
        }
    }
}

impl AccessPointInfo {
    /// A copy of the announcement.
    pub fn duplicate(&self) -> (copy: AccessPointInfo)
        ensures
            copy@ == self@,
    {
        AccessPointInfo { ssid: slice_to_vec(self.ssid.as_slice()), channel: self.channel }
    }
}

/// The correlation engine. Its state is the `StoreView` that `view` gives.
pub struct Store {
    buffer: Vec<Event>,
    started: Instant,
    addresses: MacTable<u64>,
    connections: StringHashMap<ConnectionType>,
    access_points: MacTable<AccessPointInfo>,
    probes: MacTable<Vec<Vec<u8>>>,
    frame_count: MacTable<u64>,
    beacon_count: MacTable<u64>,
    rate_last_frame_count: MacTable<u64>,
    beacon_quality_intervals: MacTable<(u64, u64)>,
    signals: MacTable<(i8, u64)>,
    next_signal_event_update: Vec<Timer>,
    next_rate_event_update: Vec<Timer>,
    next_beacon_quality_update: Vec<Timer>,
}

impl View for Store {
    type V = StoreView;

    closed spec fn view(&self) -> StoreView {
        StoreView {
            buffer: spec_events(self.buffer@),
            addresses: self.addresses@,
            connections: self.connections@,
            access_points: Map::new(
                |mac: MacAddress| self.access_points@.contains_key(mac),
                |mac: MacAddress| self.access_points@[mac]@,
            ),
            probes: Map::new(
                |mac: MacAddress| self.probes@.contains_key(mac),
                |mac: MacAddress| spec_ssid_set(self.probes@[mac]@),
            ),
            frame_count: self.frame_count@,
            beacon_count: self.beacon_count@,
            rate_last_frame_count: self.rate_last_frame_count@,
            beacon_quality_intervals: self.beacon_quality_intervals@,
            signals: self.signals@,
            next_signal_event_update: self.next_signal_event_update@,
            next_rate_event_update: self.next_rate_event_update@,
            next_beacon_quality_update: self.next_beacon_quality_update@,
        }
    }
}

impl Store {
    /// Whether the store is in a state that its operations reach.
    pub open spec fn wf(&self) -> bool {
        self@.inv()
    }

    /// A store that has seen nothing yet. Its clock starts now.
    pub fn new() -> (store: Self)
        ensures
            store@ == StoreView::empty(),
            store.wf(),
    {
        let store = Self {
            buffer: Vec::new(),
            started: clock_start(),
            addresses: MacTable::new(),
            connections: StringHashMap::new(),
            access_points: MacTable::new(),
            probes: MacTable::new(),
            frame_count: MacTable::new(),
            beacon_count: MacTable::new(),
            rate_last_frame_count: MacTable::new(),
            beacon_quality_intervals: MacTable::new(),
            signals: MacTable::new(),
            next_signal_event_update: Vec::new(),
            next_rate_event_update: Vec::new(),
            next_beacon_quality_update: Vec::new(),
        };
        assert(store@ =~= StoreView::empty());
        store
    }

    /// The time on the store's clock: the `clock_reading` for the time since
    /// the store was made. It depends on when it is asked for.
    pub fn now(&self) -> (now: u64) {
        let elapsed = clock_elapsed(&self.started);
        clock_reading(duration_micros(&elapsed))
    }

    fn emit(&mut self, event: Event)
        ensures
            final(self)@ == old(self)@.emit(event@),
    {
        self.buffer.push(event);
        assert(spec_events(self.buffer@) =~= spec_events(old(self).buffer@).push(event@));
    }

    /// Hands out the events that wait, oldest first, and leaves none.
    pub fn flush_buffer(&mut self) -> (events: Vec<Event>)
        requires
            old(self).wf(),
        ensures
            final(self).wf(),
            spec_events(events@) == old(self)@.buffer,
            final(self)@ == old(self)@.flush_buffer(),
    {
        proof {
            self@.lemma_flush_buffer_inv();
        }
        let mut events: Vec<Event> = Vec::new();
        std::mem::swap(&mut events, &mut self.buffer);
        assert(self@ =~= old(self)@.flush_buffer());
        events
    }

    /// Records that `mac` was seen at the time `now`.
    pub fn add_address_at(&mut self, mac: MacAddress, now: u64)
        requires
            old(self).wf(),
        ensures
            final(self).wf(),
            final(self)@ == old(self)@.add_address(mac, now),
    {
        proof {
            self@.lemma_add_address_inv(mac, now);
        }
        if is_broadcast(mac) {
            return ;
        }
        if self.addresses.insert(mac, now).is_none() {
            self.emit(Event::NewAddress(mac));
        }
    }

    /// Records that `mac` was seen now, by the store's clock.
    pub fn add_address(&mut self, mac: MacAddress)
        requires
            old(self).wf(),
        ensures
            final(self).wf(),
            exists|now: u64| final(self)@ == old(self)@.add_address(mac, now),
    {
        let now = self.now();
        self.add_address_at(mac, now);
    }

    /// Records the network that the access point `mac` announces.
    pub fn access_point(&mut self, mac: MacAddress, info: AccessPointInfo)
        requires
            old(self).wf(),
        ensures
            final(self).wf(),
            final(self)@ == old(self)@.access_point(mac, info@),
    {
        proof {
            self@.lemma_access_point_inv(mac, info@);
        }
        if self.access_points.contains_key(&mac) {
            return ;
        }
        self.access_points.insert(mac, info.duplicate());
        assert(self@.access_points =~= old(self)@.access_points.insert(mac, info@));
        self.emit(Event::AccessPoint(mac, info));
    }

    /// Records evidence of the kind `kind` for a relation between two
    /// addresses.
    pub fn change_connection(
        &mut self,
        transmitter_address: MacAddress,
        receiver_address: MacAddress,
        kind: ConnectionType,
    )
        requires
            old(self).wf(),
        ensures
            final(self).wf(),
            final(self)@ == old(self)@.change_connection(
                transmitter_address,
                receiver_address,
                kind,
            ),
    {
        proof {
            self@.lemma_change_connection_inv(transmitter_address, receiver_address, kind);
        }
        if is_broadcast(transmitter_address) || is_broadcast(receiver_address) {
            return ;
        }
        let hash = hash_macs(transmitter_address, receiver_address);
        match self.connections.get(hash.as_str()) {
            Some(old_kind) => {
                if kind == *old_kind {
                    return ;
                }
                match kind {
                    ConnectionType::Associated => {
                        if let ConnectionType::Authentication = old_kind {
                            return ;
                        }
                    },
                    ConnectionType::InRange => {
                        return ;
                    },
                    ConnectionType::Authentication | ConnectionType::Disassociated => {},
                }
            },
            None => {},
        }
        self.connections.insert(hash, kind);
        self.emit(Event::Connection(transmitter_address, receiver_address, kind));
    }

    /// Records that the station `mac` asked for the network `ssid`.
    pub fn probe_request(&mut self, mac: MacAddress, ssid: Vec<u8>)
        requires
            old(self).wf(),
        ensures
            final(self).wf(),
            final(self)@ == old(self)@.probe_request(mac, ssid@),
    {
        proof {
            self@.lemma_probe_request_inv(mac, ssid@);
        }
        if is_broadcast(mac) {
            return ;
        }
        let known = match self.probes.get(&mac) {
            Some(ssid_list) => list_contains(ssid_list, &ssid),
            None => false,
        };
        if known {
            return ;
        }
        let mut ssid_list = match self.probes.remove(&mac) {
            Some(ssid_list) => ssid_list,
            None => Vec::new(),
        };
        let ghost before = ssid_list@;
        ssid_list.push(slice_to_vec(ssid.as_slice()));
        proof {
            let asked = if old(self)@.probes.contains_key(mac) {
                old(self)@.probes[mac]
            } else {
                Set::empty()
            };
            assert(spec_ssid_set(before) =~= asked);
            assert forall|s: Seq<u8>| #[trigger]
                spec_ssid_set(ssid_list@).contains(s) == asked.insert(ssid@).contains(s) by {
                if spec_ssid_set(ssid_list@).contains(s) {
                    let i = choose|i: int|
                        0 <= i < ssid_list@.len() && (#[trigger] ssid_list@[i])@ == s;
                    if i < before.len() {
                        assert(before[i]@ == s);
                    }
                }
                if asked.contains(s) {
                    let i = choose|i: int| 0 <= i < before.len() && (#[trigger] before[i])@ == s;
                    assert(ssid_list@[i]@ == s);
                }
                if s == ssid@ {
                    assert(ssid_list@[before.len() as int]@ == s);
                }
            }
            assert(spec_ssid_set(ssid_list@) =~= asked.insert(ssid@));
        }
        self.probes.insert(mac, ssid_list);
        assert(self@.probes =~= old(self)@.probes.insert(
            mac,
            spec_ssid_set(ssid_list@),
        ));
        self.emit(Event::ProbeRequest(mac, ssid));
    }
    /// Records a measurement of the signal strength of
    /// `transmitter_address`, in dBm, taken at the time `now`.
    pub fn update_signal_at(&mut self, transmitter_address: MacAddress, signal: i8, now: u64)
        requires
            old(self).wf(),
        ensures
            final(self).wf(),
            final(self)@ == old(self)@.update_signal(transmitter_address, signal, now),
    {
        proof {
            self@.lemma_update_signal_inv(transmitter_address, signal, now);
        }
        self.signals.insert(transmitter_address, (signal, now));
        if !find_timer(&self.next_signal_event_update, &transmitter_address) {
            self.next_signal_event_update.push(
                Timer {
                    mac: transmitter_address,
                    due: now as u128 + SIGNAL_EVENT_UPDATE_INTERVAL as u128,
                },
            );
            self.emit(Event::Signal(transmitter_address, signal));
        }
    }

    /// Records a measurement of the signal strength of
    /// `transmitter_address`, in dBm, taken now, by the store's clock.
    pub fn update_signal(&mut self, transmitter_address: MacAddress, signal: i8)
        requires
            old(self).wf(),
        ensures
            final(self).wf(),
            exists|now: u64|
                final(self)@ == old(self)@.update_signal(transmitter_address, signal, now),
    {
        let now = self.now();
        self.update_signal_at(transmitter_address, signal, now);
    }

    /// Counts a frame that `transmitter_address` sent at the time `now`.
    pub fn update_rate_at(&mut self, transmitter_address: MacAddress, now: u64)
        requires
            old(self).wf(),
        ensures
            final(self).wf(),
            final(self)@ == old(self)@.update_rate(transmitter_address, now),
    {
        proof {
            self@.lemma_update_rate_inv(transmitter_address, now);
        }
        let count = match self.frame_count.get(&transmitter_address) {
            Some(count) => *count,
            None => 0,
        };
        let count = if count < u64::MAX {
            count + 1
        } else {
            count
        };
        self.frame_count.insert(transmitter_address, count);
        if !find_timer(&self.next_rate_event_update, &transmitter_address) {
            self.next_rate_event_update.push(
                Timer {
                    mac: transmitter_address,
                    due: now as u128 + RATE_EVENT_UPDATE_INTERVAL as u128,
                },
            );
            self.emit(Event::Rate(transmitter_address, 1));
        }
    }

    /// Counts a frame that `transmitter_address` sent now, by the store's
    /// clock.
    pub fn update_rate(&mut self, transmitter_address: MacAddress)
        requires
            old(self).wf(),
        ensures
            final(self).wf(),
            exists|now: u64| final(self)@ == old(self)@.update_rate(transmitter_address, now),
    {
        let now = self.now();
        self.update_rate_at(transmitter_address, now);
    }

    /// Counts a beacon that `transmitter_address` sent at the time `now`,
    /// and which announces a beacon every `interval` microseconds.
    pub fn update_beacon_quality_at(
        &mut self,
        transmitter_address: MacAddress,
        interval: u64,
        now: u64,
    )
        requires
            old(self).wf(),
        ensures
            final(self).wf(),
            final(self)@ == old(self)@.update_beacon_quality(transmitter_address, interval, now),
    {
        proof {
            self@.lemma_update_beacon_quality_inv(transmitter_address, interval, now);
        }
        let count = match self.beacon_count.get(&transmitter_address) {
            Some(count) => *count,
            None => 0,
        };
        let count = if count < u64::MAX {
            count + 1
        } else {
            count
        };
        self.beacon_count.insert(transmitter_address, count);
        if !self.beacon_quality_intervals.contains_key(&transmitter_address) {
            self.beacon_quality_intervals.insert(transmitter_address, (interval, now));
            self.next_beacon_quality_update.push(
                Timer {
                    mac: transmitter_address,
                    due: now as u128 + BEACON_QUALITY_UPDATE_INTERVAL as u128,
                },
            );
            self.emit(Event::BeaconQuality(transmitter_address, 1, 1));
        }
    }

    /// Counts a beacon that `transmitter_address` sent now, by the store's
    /// clock, and which announces a beacon every `interval` microseconds.
    pub fn update_beacon_quality(&mut self, transmitter_address: MacAddress, interval: u64)
        requires
            old(self).wf(),
        ensures
            final(self).wf(),
            exists|now: u64|
                final(self)@ == old(self)@.update_beacon_quality(
                    transmitter_address,
                    interval,
                    now,
                ),
    {
        let now = self.now();
        self.update_beacon_quality_at(transmitter_address, interval, now);
    }
    /// Looks at every beacon-quality timer, at the time `now`.
    fn check_beacon_quality_timers(&mut self, now: u64)
        requires
            old(self).wf(),
        ensures
            final(self).wf(),
            final(self)@ == old(self)@.check_beacon_quality_timers(now),
    {
        proof {
            self@.lemma_check_beacon_quality_timers_inv(now);
        }
        let mut timers: Vec<Timer> = Vec::new();
        std::mem::swap(&mut timers, &mut self.next_beacon_quality_update);
        let ghost start = self@;
        assert(start == StoreView { next_beacon_quality_update: Seq::empty(), ..old(self)@ });
        let mut i: usize = 0;
        while i < timers.len()
            invariant
                i <= timers.len(),
                timers@ == old(self)@.next_beacon_quality_update,
                old(self)@.inv(),
                self@ == start.beacon_quality_pass(timers@.take(i as int), now),
                self@.beacon_quality_intervals == old(self)@.beacon_quality_intervals,
                self@.beacon_count == old(self)@.beacon_count,
            decreases timers.len() - i,
        {
            let timer = timers[i];
            proof {
                assert(timers@.take(i + 1).drop_last() =~= timers@.take(i as int));
                assert(self@.beacon_quality_intervals.contains_key(timers@[i as int].mac));
            }
            if (now as u128) < timer.due {
                self.next_beacon_quality_update.push(timer);
            } else {
                let (interval, first) = match self.beacon_quality_intervals.get(&timer.mac) {
                    Some(entry) => *entry,
                    None => unreached(),
                };
                let received = match self.beacon_count.get(&timer.mac) {
                    Some(count) => *count,
                    None => unreached(),
                };
                self.next_beacon_quality_update.push(
                    Timer {
                        mac: timer.mac,
                        due: now as u128 + BEACON_QUALITY_UPDATE_INTERVAL as u128,
                    },
                );
                self.emit(
                    Event::BeaconQuality(timer.mac, received, expected_beacons(interval, first, now)),
                );
            }
            i = i + 1;
        }
        assert(timers@.take(timers@.len() as int) =~= timers@);
    }

    /// Looks at every rate timer, at the time `now`.
    fn check_rate_timers(&mut self, now: u64)
        requires
            old(self).wf(),
        ensures
            final(self).wf(),
            final(self)@ == old(self)@.check_rate_timers(now),
    {
        proof {
            self@.lemma_check_rate_timers_inv(now);
        }
        let mut timers: Vec<Timer> = Vec::new();
        std::mem::swap(&mut timers, &mut self.next_rate_event_update);
        let ghost start = self@;
        assert(start == StoreView { next_rate_event_update: Seq::empty(), ..old(self)@ });
        assert forall|mac: MacAddress| #[trigger]
            self.rate_last_frame_count@.contains_key(mac) implies self.frame_count@.contains_key(
            mac,
        ) && self.rate_last_frame_count@[mac] <= self.frame_count@[mac] by {
            assert(old(self)@.rate_last_frame_count.contains_key(mac));
        }
        let mut i: usize = 0;
        while i < timers.len()
            invariant
                i <= timers.len(),
                timers@ == old(self)@.next_rate_event_update,
                old(self)@.inv(),
                self@ == start.rate_pass(timers@.take(i as int), now),
                self@.frame_count == old(self)@.frame_count,
                forall|mac: MacAddress| #[trigger]
                    self.rate_last_frame_count@.contains_key(mac)
                        ==> self.frame_count@.contains_key(mac)
                        && self.rate_last_frame_count@[mac] <= self.frame_count@[mac],
            decreases timers.len() - i,
        {
            let timer = timers[i];
            proof {
                assert(timers@.take(i + 1).drop_last() =~= timers@.take(i as int));
                assert(self@.frame_count.contains_key(timers@[i as int].mac));
            }
            if (now as u128) < timer.due {
                self.next_rate_event_update.push(timer);
            } else {
                let frame_count = match self.frame_count.get(&timer.mac) {
                    Some(count) => *count,
                    None => unreached(),
                };
                let last_frame_count = match self.rate_last_frame_count.insert(
                    timer.mac,
                    frame_count,
                ) {
                    Some(last_frame_count) => last_frame_count,
                    None => 0,
                };
                let rate = frame_count - last_frame_count;
                if rate != 0 {
                    self.next_rate_event_update.push(
                        Timer {
                            mac: timer.mac,
                            due: now as u128 + RATE_EVENT_UPDATE_INTERVAL as u128,
                        },
                    );
                }
                self.emit(Event::Rate(timer.mac, rate));
            }
            i = i + 1;
        }
        assert(timers@.take(timers@.len() as int) =~= timers@);
    }

    /// Looks at every signal timer, at the time `now`.
    fn check_signal_timers(&mut self, now: u64)
        requires
            old(self).wf(),
        ensures
            final(self).wf(),
            final(self)@ == old(self)@.check_signal_timers(now),
    {
        proof {
            self@.lemma_check_signal_timers_inv(now);
        }
        let mut timers: Vec<Timer> = Vec::new();
        std::mem::swap(&mut timers, &mut self.next_signal_event_update);
        let ghost start = self@;
        assert(start == StoreView { next_signal_event_update: Seq::empty(), ..old(self)@ });
        let mut i: usize = 0;
        while i < timers.len()
            invariant
                i <= timers.len(),
                timers@ == old(self)@.next_signal_event_update,
                old(self)@.inv(),
                self@ == start.signal_pass(timers@.take(i as int), now),
                self@.signals == old(self)@.signals,
            decreases timers.len() - i,
        {
            let timer = timers[i];
            proof {
                assert(timers@.take(i + 1).drop_last() =~= timers@.take(i as int));
                assert(self@.signals.contains_key(timers@[i as int].mac));
            }
            if (now as u128) < timer.due {
                self.next_signal_event_update.push(timer);
            } else {
                let (signal, time) = match self.signals.get(&timer.mac) {
                    Some(entry) => *entry,
                    None => unreached(),
                };
                if now >= time && now - time >= SIGNAL_EVENT_TIMEOUT {
                    self.emit(Event::Signal(timer.mac, 0));
                } else {
                    self.next_signal_event_update.push(
                        Timer {
                            mac: timer.mac,
                            due: now as u128 + SIGNAL_EVENT_UPDATE_INTERVAL as u128,
                        },
                    );
                    self.emit(Event::Signal(timer.mac, signal));
                }
            }
            i = i + 1;
        }
        assert(timers@.take(timers@.len() as int) =~= timers@);
    }

    /// Looks at every timer, at the time `now`, and reports what is due.
    pub fn check_timers_at(&mut self, now: u64)
        requires
            old(self).wf(),
        ensures
            final(self).wf(),
            final(self)@ == old(self)@.check_timers(now),
    {
        self.check_beacon_quality_timers(now);
        self.check_rate_timers(now);
        self.check_signal_timers(now);
    }

    /// Looks at every timer now, by the store's clock, and reports what is
    /// due.
    pub fn check_timers(&mut self)
        requires
            old(self).wf(),
        ensures
            final(self).wf(),
            exists|now: u64| final(self)@ == old(self)@.check_timers(now),
    {
        let now = self.now();
        self.check_timers_at(now);
    }
    /// Whether `mac` has been seen.
    pub fn is_known(&self, mac: MacAddress) -> (known: bool)
        ensures
            known == self@.addresses.contains_key(mac),
    {
        self.addresses.contains_key(&mac)
    }

    /// When `mac` was last seen, by the store's clock, if it ever was.
    pub fn last_seen(&self, mac: MacAddress) -> (time: Option<u64>)
        ensures
            match time {
                Some(time) => self@.addresses.contains_key(mac) && self@.addresses[mac] == time,
                None => !self@.addresses.contains_key(mac),
            },
    {
        match self.addresses.get(&mac) {
            Some(time) => Some(*time),
            None => None,
        }
    }

    /// What is known of the relation between `mac1` and `mac2`, in whichever
    /// order the two are named.
    pub fn connection(&self, mac1: MacAddress, mac2: MacAddress) -> (kind: Option<ConnectionType>)
        ensures
            match kind {
                Some(kind) => self@.connections.contains_key(spec_hash_macs(mac1, mac2))
                    && self@.connections[spec_hash_macs(mac1, mac2)] == kind,
                None => !self@.connections.contains_key(spec_hash_macs(mac1, mac2)),
            },
    {
        let hash = hash_macs(mac1, mac2);
        match self.connections.get(hash.as_str()) {
            Some(kind) => Some(*kind),
            None => None,
        }
    }

    /// The network that the access point `mac` announced first, if it has
    /// announced any.
    pub fn access_point_info(&self, mac: MacAddress) -> (info: Option<AccessPointInfo>)
        ensures
            match info {
                Some(info) => self@.access_points.contains_key(mac) && self@.access_points[mac]
                    == info@,
                None => !self@.access_points.contains_key(mac),
            },
    {
        match self.access_points.get(&mac) {
            Some(info) => Some(info.duplicate()),
            None => None,
        }
    }

    /// Whether the station `mac` has asked for the network `ssid`.
    pub fn has_probed(&self, mac: MacAddress, ssid: &Vec<u8>) -> (asked: bool)
        ensures
            asked == self@.has_probed(mac, ssid@),
    {
        match self.probes.get(&mac) {
            Some(ssid_list) => list_contains(ssid_list, ssid),
            None => false,
        }
    }

    /// The number of frames counted for `mac`.
    pub fn frame_count(&self, mac: MacAddress) -> (count: u64)
        ensures
            count == self@.frames_of(mac),
    {
        match self.frame_count.get(&mac) {
            Some(count) => *count,
            None => 0,
        }
    }

    /// The number of beacons counted for `mac`.
    pub fn beacon_count(&self, mac: MacAddress) -> (count: u64)
        ensures
            count == self@.beacons_of(mac),
    {
        match self.beacon_count.get(&mac) {
            Some(count) => *count,
            None => 0,
        }
    }

    /// The number of events that wait to be handed out.
    pub fn pending(&self) -> (count: usize)
        ensures
            count == self@.buffer.len(),
    {
        self.buffer.len()
    }
}

/// The reading of a clock that has run for `micros` microseconds: that
/// number, and the largest that a reading can hold where the clock has run
/// for longer.
pub open spec fn spec_clock_reading(micros: u128) -> u64 {
    if micros > u64::MAX {
        u64::MAX
    } else {
        micros as u64
    }
}

/// The reading of a clock that has run for `micros` microseconds.
pub fn clock_reading(micros: u128) -> (reading: u64)
    ensures
        reading == spec_clock_reading(micros),
        reading <= micros,
        micros <= u64::MAX ==> reading == micros,
{
    if micros > u64::MAX as u128 {
        u64::MAX
    } else {
        micros as u64
    }
}

} // verus!
