//! What holds of the model whatever is done with it.

use crate::events::model::{
    spec_all_later, spec_distinct, spec_has_timer, AccessPointInfoView, ConnectionType, EventView,
    StoreView, Timer,
};
use crate::events::{
    spec_check_association, spec_handle_frame, spec_handle_transmitter, spec_record_announcement,
};
use crate::ieee802_11::FrameView;
use crate::ieee802_11::util::{
    lemma_hash_macs_injective, lemma_hash_macs_symmetric, spec_hash_macs, spec_is_broadcast,
    MacAddress,
};
use vstd::prelude::*;

verus! {

/// A timer for an address that has none keeps a list of timers free of
/// doubles.
pub proof fn lemma_push_distinct(timers: Seq<Timer>, timer: Timer)
    requires
        spec_distinct(timers),
        !spec_has_timer(timers, timer.mac),
    ensures
        spec_distinct(timers.push(timer)),
        forall|mac: MacAddress|
            spec_has_timer(timers.push(timer), mac) <==> (mac == timer.mac || spec_has_timer(
                timers,
                mac,
            )),
{
    let pushed = timers.push(timer);
    assert forall|i: int, j: int| 0 <= i < j < pushed.len() implies (#[trigger] pushed[i]).mac != (
    #[trigger] pushed[j]).mac by {
        if j == timers.len() {
            assert(timers[i].mac != timer.mac);
        } else {
            assert(timers[i].mac != timers[j].mac);
        }
    }
    assert forall|mac: MacAddress|
        spec_has_timer(pushed, mac) <==> (mac == timer.mac || spec_has_timer(timers, mac)) by {
        if spec_has_timer(pushed, mac) {
            let i = choose|i: int| 0 <= i < pushed.len() && (#[trigger] pushed[i]).mac == mac;
            if i < timers.len() {
                assert(timers[i].mac == mac);
            }
        }
        if spec_has_timer(timers, mac) {
            let i = choose|i: int| 0 <= i < timers.len() && (#[trigger] timers[i]).mac == mac;
            assert(pushed[i].mac == mac);
        }
        if mac == timer.mac {
            assert(pushed[timers.len() as int].mac == mac);
        }
    }
}

impl StoreView {
    /// Handing out the events keeps the state sound.
    pub proof fn lemma_flush_buffer_inv(self)
        requires
            self.inv(),
        ensures
            self.flush_buffer().inv(),
    {
    }

    /// Seeing an address keeps the state sound.
    pub proof fn lemma_add_address_inv(self, mac: MacAddress, now: u64)
        requires
            self.inv(),
        ensures
            self.add_address(mac, now).inv(),
    {
    }

    /// An announcement of an access point keeps the state sound.
    pub proof fn lemma_access_point_inv(self, mac: MacAddress, info: AccessPointInfoView)
        requires
            self.inv(),
        ensures
            self.access_point(mac, info).inv(),
    {
    }

    /// Evidence for a connection keeps the state sound.
    pub proof fn lemma_change_connection_inv(
        self,
        transmitter_address: MacAddress,
        receiver_address: MacAddress,
        kind: ConnectionType,
    )
        requires
            self.inv(),
        ensures
            self.change_connection(transmitter_address, receiver_address, kind).inv(),
    {
    }

    /// A probe request keeps the state sound.
    pub proof fn lemma_probe_request_inv(self, mac: MacAddress, ssid: Seq<u8>)
        requires
            self.inv(),
        ensures
            self.probe_request(mac, ssid).inv(),
    {
    }

    /// A signal measurement keeps the state sound.
    pub proof fn lemma_update_signal_inv(self, mac: MacAddress, signal: i8, now: u64)
        requires
            self.inv(),
        ensures
            self.update_signal(mac, signal, now).inv(),
    {
        let r = self.update_signal(mac, signal, now);
        if !spec_has_timer(self.next_signal_event_update, mac) {
            lemma_push_distinct(
                self.next_signal_event_update,
                r.next_signal_event_update.last(),
            );
        }
        assert forall|i: int|
            0 <= i < r.next_signal_event_update.len() implies r.signals.contains_key(
            (#[trigger] r.next_signal_event_update[i]).mac,
        ) by {
            if i < self.next_signal_event_update.len() {
                assert(self.signals.contains_key(self.next_signal_event_update[i].mac));
            }
        }
    }

    /// A counted frame keeps the state sound.
    pub proof fn lemma_update_rate_inv(self, mac: MacAddress, now: u64)
        requires
            self.inv(),
        ensures
            self.update_rate(mac, now).inv(),
    {
        let r = self.update_rate(mac, now);
        if !spec_has_timer(self.next_rate_event_update, mac) {
            lemma_push_distinct(self.next_rate_event_update, r.next_rate_event_update.last());
        }
        assert forall|i: int|
            0 <= i < r.next_rate_event_update.len() implies r.frame_count.contains_key(
            (#[trigger] r.next_rate_event_update[i]).mac,
        ) by {
            if i < self.next_rate_event_update.len() {
                assert(self.frame_count.contains_key(self.next_rate_event_update[i].mac));
            }
        }
        assert forall|other: MacAddress| #[trigger]
            r.rate_last_frame_count.contains_key(other) implies r.frame_count.contains_key(other)
            && r.rate_last_frame_count[other] <= r.frame_count[other] by {
            assert(self.rate_last_frame_count.contains_key(other));
        }
    }

    /// A counted beacon keeps the state sound.
    pub proof fn lemma_update_beacon_quality_inv(self, mac: MacAddress, interval: u64, now: u64)
        requires
            self.inv(),
        ensures
            self.update_beacon_quality(mac, interval, now).inv(),
    {
        let r = self.update_beacon_quality(mac, interval, now);
        if !self.beacon_quality_intervals.contains_key(mac) {
            if spec_has_timer(self.next_beacon_quality_update, mac) {
                let i = choose|i: int|
                    0 <= i < self.next_beacon_quality_update.len() && (
                    #[trigger] self.next_beacon_quality_update[i]).mac == mac;
                assert(self.beacon_quality_intervals.contains_key(
                    self.next_beacon_quality_update[i].mac,
                ));
            }
            lemma_push_distinct(
                self.next_beacon_quality_update,
                r.next_beacon_quality_update.last(),
            );
        }
        assert forall|i: int| 0 <= i < r.next_beacon_quality_update.len() implies {
            &&& r.beacon_quality_intervals.contains_key(
                (#[trigger] r.next_beacon_quality_update[i]).mac,
            )
            &&& r.beacon_count.contains_key(r.next_beacon_quality_update[i].mac)
        } by {
            if i < self.next_beacon_quality_update.len() {
                assert(self.beacon_quality_intervals.contains_key(
                    self.next_beacon_quality_update[i].mac,
                ));
            }
        }
    }

    /// Looking at beacon-quality timers changes nothing but the events that
    /// wait and the timers: each timer looked at is put behind those that
    /// were there, under its address and in its turn.
    pub proof fn lemma_beacon_quality_pass(self, timers: Seq<Timer>, now: u64)
        ensures
            ({
                let r = self.beacon_quality_pass(timers, now);
                &&& StoreView {
                    buffer: self.buffer,
                    next_beacon_quality_update: self.next_beacon_quality_update,
                    ..r
                } == self
                &&& r.next_beacon_quality_update.len() == self.next_beacon_quality_update.len()
                    + timers.len()
                &&& forall|j: int|
                    0 <= j < self.next_beacon_quality_update.len() ==> (
                    #[trigger] r.next_beacon_quality_update[j])
                        == self.next_beacon_quality_update[j]
                &&& forall|j: int|
                    0 <= j < timers.len() ==> (#[trigger] r.next_beacon_quality_update[self.next_beacon_quality_update.len()
                        + j]).mac == timers[j].mac
            }),
        decreases timers.len(),
    {
        if timers.len() > 0 {
            self.lemma_beacon_quality_pass(timers.drop_last(), now);
            let before = self.beacon_quality_pass(timers.drop_last(), now);
            let r = before.beacon_quality_step(timers.last(), now);
            assert(r == self.beacon_quality_pass(timers, now));
            assert forall|j: int| 0 <= j < timers.len() implies (
            #[trigger] r.next_beacon_quality_update[self.next_beacon_quality_update.len()
                + j]).mac == timers[j].mac by {
                if j < timers.len() - 1 {
                    assert(before.next_beacon_quality_update[self.next_beacon_quality_update.len()
                        + j].mac == timers.drop_last()[j].mac);
                }
            }
        }
    }

    /// Looking at rate timers changes nothing but the events that wait, the
    /// counts of the last reports and the timers. The timers that are kept
    /// are for addresses among those looked at, none twice, and no report
    /// has counted more frames than were seen.
    pub proof fn lemma_rate_pass(self, timers: Seq<Timer>, now: u64)
        requires
            self.next_rate_event_update.len() == 0,
            spec_distinct(timers),
            forall|j: int|
                0 <= j < timers.len() ==> self.frame_count.contains_key((#[trigger] timers[j]).mac),
            forall|mac: MacAddress| #[trigger]
                self.rate_last_frame_count.contains_key(mac) ==> self.frame_count.contains_key(mac)
                    && self.rate_last_frame_count[mac] <= self.frame_count[mac],
        ensures
            ({
                let r = self.rate_pass(timers, now);
                &&& StoreView {
                    buffer: self.buffer,
                    next_rate_event_update: self.next_rate_event_update,
                    rate_last_frame_count: self.rate_last_frame_count,
                    ..r
                } == self
                &&& spec_distinct(r.next_rate_event_update)
                &&& forall|j: int|
                    0 <= j < r.next_rate_event_update.len() ==> spec_has_timer(
                        timers,
                        (#[trigger] r.next_rate_event_update[j]).mac,
                    )
                &&& forall|mac: MacAddress| #[trigger]
                    r.rate_last_frame_count.contains_key(mac) ==> r.frame_count.contains_key(mac)
                        && r.rate_last_frame_count[mac] <= r.frame_count[mac]
            }),
        decreases timers.len(),
    {
        if timers.len() > 0 {
            let front = timers.drop_last();
            let timer = timers.last();
            assert forall|i: int, j: int| 0 <= i < j < front.len() implies (#[trigger] front[i]).mac
                != (#[trigger] front[j]).mac by {
                assert(timers[i].mac != timers[j].mac);
            }
            assert forall|j: int| 0 <= j < front.len() implies self.frame_count.contains_key(
                (#[trigger] front[j]).mac,
            ) by {
                assert(self.frame_count.contains_key(timers[j].mac));
            }
            self.lemma_rate_pass(front, now);
            let before = self.rate_pass(front, now);
            let r = before.rate_step(timer, now);
            assert(r == self.rate_pass(timers, now));
            assert(self.frame_count.contains_key(timers[timers.len() - 1].mac));
            if spec_has_timer(before.next_rate_event_update, timer.mac) {
                let j = choose|j: int|
                    0 <= j < before.next_rate_event_update.len() && (
                    #[trigger] before.next_rate_event_update[j]).mac == timer.mac;
                assert(spec_has_timer(front, before.next_rate_event_update[j].mac));
                let k = choose|k: int| 0 <= k < front.len() && (#[trigger] front[k]).mac == timer.mac;
                assert(timers[k].mac != timers[timers.len() - 1].mac);
            }
            if r.next_rate_event_update.len() > before.next_rate_event_update.len() {
                lemma_push_distinct(before.next_rate_event_update, r.next_rate_event_update.last());
            }
            assert forall|j: int| 0 <= j < r.next_rate_event_update.len() implies spec_has_timer(
                timers,
                (#[trigger] r.next_rate_event_update[j]).mac,
            ) by {
                if j < before.next_rate_event_update.len() {
                    assert(spec_has_timer(front, before.next_rate_event_update[j].mac));
                    let k = choose|k: int|
                        0 <= k < front.len() && (#[trigger] front[k]).mac
                            == before.next_rate_event_update[j].mac;
                    assert(timers[k].mac == r.next_rate_event_update[j].mac);
                } else {
                    assert(timers[timers.len() - 1].mac == r.next_rate_event_update[j].mac);
                }
            }
            assert forall|mac: MacAddress| #[trigger]
                r.rate_last_frame_count.contains_key(mac) implies r.frame_count.contains_key(mac)
                && r.rate_last_frame_count[mac] <= r.frame_count[mac] by {
                if mac != timer.mac {
                    assert(before.rate_last_frame_count.contains_key(mac));
                }
            }
        }
    }

    /// Looking at signal timers changes nothing but the events that wait and
    /// the timers. The timers that are kept are for addresses among those
    /// looked at, none twice.
    pub proof fn lemma_signal_pass(self, timers: Seq<Timer>, now: u64)
        requires
            self.next_signal_event_update.len() == 0,
            spec_distinct(timers),
        ensures
            ({
                let r = self.signal_pass(timers, now);
                &&& StoreView {
                    buffer: self.buffer,
                    next_signal_event_update: self.next_signal_event_update,
                    ..r
                } == self
                &&& spec_distinct(r.next_signal_event_update)
                &&& forall|j: int|
                    0 <= j < r.next_signal_event_update.len() ==> spec_has_timer(
                        timers,
                        (#[trigger] r.next_signal_event_update[j]).mac,
                    )
            }),
        decreases timers.len(),
    {
        if timers.len() > 0 {
            let front = timers.drop_last();
            let timer = timers.last();
            assert forall|i: int, j: int| 0 <= i < j < front.len() implies (#[trigger] front[i]).mac
                != (#[trigger] front[j]).mac by {
                assert(timers[i].mac != timers[j].mac);
            }
            self.lemma_signal_pass(front, now);
            let before = self.signal_pass(front, now);
            let r = before.signal_step(timer, now);
            assert(r == self.signal_pass(timers, now));
            if spec_has_timer(before.next_signal_event_update, timer.mac) {
                let j = choose|j: int|
                    0 <= j < before.next_signal_event_update.len() && (
                    #[trigger] before.next_signal_event_update[j]).mac == timer.mac;
                assert(spec_has_timer(front, before.next_signal_event_update[j].mac));
                let k = choose|k: int| 0 <= k < front.len() && (#[trigger] front[k]).mac == timer.mac;
                assert(timers[k].mac != timers[timers.len() - 1].mac);
            }
            if r.next_signal_event_update.len() > before.next_signal_event_update.len() {
                lemma_push_distinct(
                    before.next_signal_event_update,
                    r.next_signal_event_update.last(),
                );
            }
            assert forall|j: int| 0 <= j < r.next_signal_event_update.len() implies spec_has_timer(
                timers,
                (#[trigger] r.next_signal_event_update[j]).mac,
            ) by {
                if j < before.next_signal_event_update.len() {
                    assert(spec_has_timer(front, before.next_signal_event_update[j].mac));
                    let k = choose|k: int|
                        0 <= k < front.len() && (#[trigger] front[k]).mac
                            == before.next_signal_event_update[j].mac;
                    assert(timers[k].mac == r.next_signal_event_update[j].mac);
                } else {
                    assert(timers[timers.len() - 1].mac == r.next_signal_event_update[j].mac);
                }
            }
        }
    }

    /// Looking at the beacon-quality timers keeps the state sound.
    pub proof fn lemma_check_beacon_quality_timers_inv(self, now: u64)
        requires
            self.inv(),
        ensures
            self.check_beacon_quality_timers(now).inv(),
    {
        let start = StoreView { next_beacon_quality_update: Seq::empty(), ..self };
        start.lemma_beacon_quality_pass(self.next_beacon_quality_update, now);
        let beacons = start.beacon_quality_pass(self.next_beacon_quality_update, now);
        assert forall|i: int, j: int|
            0 <= i < j < beacons.next_beacon_quality_update.len() implies (
        #[trigger] beacons.next_beacon_quality_update[i]).mac != (
        #[trigger] beacons.next_beacon_quality_update[j]).mac by {
            assert(beacons.next_beacon_quality_update[0 + i].mac
                == self.next_beacon_quality_update[i].mac);
            assert(beacons.next_beacon_quality_update[0 + j].mac
                == self.next_beacon_quality_update[j].mac);
        }
        assert forall|i: int| 0 <= i < beacons.next_beacon_quality_update.len() implies {
            &&& beacons.beacon_quality_intervals.contains_key(
                (#[trigger] beacons.next_beacon_quality_update[i]).mac,
            )
            &&& beacons.beacon_count.contains_key(beacons.next_beacon_quality_update[i].mac)
        } by {
            assert(beacons.next_beacon_quality_update[0 + i].mac
                == self.next_beacon_quality_update[i].mac);
        }
    }

    /// Looking at the rate timers keeps the state sound.
    pub proof fn lemma_check_rate_timers_inv(self, now: u64)
        requires
            self.inv(),
        ensures
            self.check_rate_timers(now).inv(),
    {
        let emptied = StoreView { next_rate_event_update: Seq::empty(), ..self };
        emptied.lemma_rate_pass(self.next_rate_event_update, now);
        let rates = emptied.rate_pass(self.next_rate_event_update, now);
        assert forall|i: int|
            0 <= i < rates.next_rate_event_update.len() implies rates.frame_count.contains_key(
            (#[trigger] rates.next_rate_event_update[i]).mac,
        ) by {
            let mac = rates.next_rate_event_update[i].mac;
            assert(spec_has_timer(self.next_rate_event_update, mac));
            let k = choose|k: int|
                0 <= k < self.next_rate_event_update.len() && (
                #[trigger] self.next_rate_event_update[k]).mac == mac;
            assert(self.frame_count.contains_key(self.next_rate_event_update[k].mac));
        }
    }

    /// Looking at the signal timers keeps the state sound.
    pub proof fn lemma_check_signal_timers_inv(self, now: u64)
        requires
            self.inv(),
        ensures
            self.check_signal_timers(now).inv(),
    {
        let silenced = StoreView { next_signal_event_update: Seq::empty(), ..self };
        silenced.lemma_signal_pass(self.next_signal_event_update, now);
        let signals = silenced.signal_pass(self.next_signal_event_update, now);
        assert forall|i: int|
            0 <= i < signals.next_signal_event_update.len() implies signals.signals.contains_key(
            (#[trigger] signals.next_signal_event_update[i]).mac,
        ) by {
            let mac = signals.next_signal_event_update[i].mac;
            assert(spec_has_timer(self.next_signal_event_update, mac));
            let k = choose|k: int|
                0 <= k < self.next_signal_event_update.len() && (
                #[trigger] self.next_signal_event_update[k]).mac == mac;
            assert(self.signals.contains_key(self.next_signal_event_update[k].mac));
        }
    }

    /// Looking at the timers keeps the state sound.
    pub proof fn lemma_check_timers_inv(self, now: u64)
        requires
            self.inv(),
        ensures
            self.check_timers(now).inv(),
    {
        self.lemma_check_beacon_quality_timers_inv(now);
        let beacons = self.check_beacon_quality_timers(now);
        beacons.lemma_check_rate_timers_inv(now);
        beacons.check_rate_timers(now).lemma_check_signal_timers_inv(now);
    }
    /// An address is announced once. Seeing it again adds no event, whatever
    /// the times; seeing it first adds its announcement and nothing else; and
    /// a group address is never announced.
    pub proof fn lemma_add_address_once(self, mac: MacAddress, first: u64, second: u64)
        ensures
            self.add_address(mac, first).add_address(mac, second).buffer == self.add_address(
                mac,
                first,
            ).buffer,
            !spec_is_broadcast(mac) && !self.addresses.contains_key(mac) ==> self.add_address(
                mac,
                first,
            ).buffer == self.buffer.push(EventView::NewAddress(mac)),
            spec_is_broadcast(mac) || self.addresses.contains_key(mac) ==> self.add_address(
                mac,
                first,
            ).buffer == self.buffer,
    {
    }

    /// What an access point announced first stays: a second announcement
    /// changes nothing and adds no event.
    pub proof fn lemma_access_point_once(
        self,
        mac: MacAddress,
        first: AccessPointInfoView,
        second: AccessPointInfoView,
    )
        ensures
            self.access_point(mac, first).access_point(mac, second) == self.access_point(
                mac,
                first,
            ),
            self.access_point(mac, first).access_points[mac] == if self.access_points.contains_key(
                mac,
            ) {
                self.access_points[mac]
            } else {
                first
            },
    {
    }

    /// Once two stations are known to authenticate, weaker evidence changes
    /// nothing, in whichever order the two are named: neither that they are
    /// in range nor that they are associated. That they have parted is
    /// recorded and announced.
    pub proof fn lemma_authentication_stays(self, a: MacAddress, b: MacAddress)
        requires
            !spec_is_broadcast(a),
            !spec_is_broadcast(b),
            self.connections.contains_key(spec_hash_macs(a, b)),
            self.connections[spec_hash_macs(a, b)] == ConnectionType::Authentication,
        ensures
            self.change_connection(a, b, ConnectionType::InRange) == self,
            self.change_connection(b, a, ConnectionType::InRange) == self,
            self.change_connection(a, b, ConnectionType::Associated) == self,
            self.change_connection(b, a, ConnectionType::Associated) == self,
            self.change_connection(a, b, ConnectionType::Authentication) == self,
            self.change_connection(a, b, ConnectionType::Disassociated) == (StoreView {
                connections: self.connections.insert(
                    spec_hash_macs(a, b),
                    ConnectionType::Disassociated,
                ),
                buffer: self.buffer.push(
                    EventView::Connection(a, b, ConnectionType::Disassociated),
                ),
                ..self
            }),
    {
        lemma_hash_macs_symmetric(a, b);
    }

    /// Evidence that two stations are in range never replaces what is known
    /// of them, and evidence of the kind that is recorded changes nothing.
    pub proof fn lemma_no_regression(self, a: MacAddress, b: MacAddress, kind: ConnectionType)
        requires
            self.connections.contains_key(spec_hash_macs(a, b)),
        ensures
            self.change_connection(a, b, ConnectionType::InRange) == self,
            self.change_connection(a, b, self.connections[spec_hash_macs(a, b)]) == self,
            self.change_connection(a, b, kind).connections.contains_key(spec_hash_macs(a, b)),
            self.change_connection(a, b, kind).connections[spec_hash_macs(a, b)] == kind
                || self.change_connection(a, b, kind) == self,
    {
    }

    /// A connection is filed under the pair of its stations, not under their
    /// order: evidence for the pair named one way round does what it does
    /// for the pair named the other way round, but for the order in which
    /// the event names the two.
    pub proof fn lemma_connection_unordered(self, a: MacAddress, b: MacAddress, kind: ConnectionType)
        ensures
            self.change_connection(a, b, kind).connections == self.change_connection(
                b,
                a,
                kind,
            ).connections,
            self.change_connection(a, b, kind).buffer.len() == self.change_connection(
                b,
                a,
                kind,
            ).buffer.len(),
    {
        lemma_hash_macs_symmetric(a, b);
    }

    /// A probe request is announced once for each station and network name:
    /// the same request again changes nothing, the first one of a station
    /// that is no group address adds its announcement and nothing else.
    pub proof fn lemma_probe_request_once(self, mac: MacAddress, ssid: Seq<u8>)
        ensures
            self.probe_request(mac, ssid).probe_request(mac, ssid) == self.probe_request(
                mac,
                ssid,
            ),
            !spec_is_broadcast(mac) && !self.has_probed(mac, ssid) ==> self.probe_request(
                mac,
                ssid,
            ).buffer == self.buffer.push(EventView::ProbeRequest(mac, ssid)),
            !spec_is_broadcast(mac) ==> self.probe_request(mac, ssid).has_probed(mac, ssid),
    {
    }

    /// A request for another network, or of another station, does not make
    /// a request count as seen: what a station has asked for changes by the
    /// request at hand alone.
    pub proof fn lemma_probe_request_distinct(
        self,
        mac: MacAddress,
        ssid: Seq<u8>,
        other_mac: MacAddress,
        other_ssid: Seq<u8>,
    )
        requires
            mac != other_mac || ssid != other_ssid,
        ensures
            self.probe_request(mac, ssid).has_probed(other_mac, other_ssid) == self.has_probed(
                other_mac,
                other_ssid,
            ),
    {
    }

    /// A group address is not tracked: seen as a device, as an end of a
    /// connection or as asking for a network, it changes nothing.
    pub proof fn lemma_broadcast_untracked(
        self,
        group: MacAddress,
        other: MacAddress,
        kind: ConnectionType,
        ssid: Seq<u8>,
        now: u64,
    )
        requires
            spec_is_broadcast(group),
        ensures
            self.add_address(group, now) == self,
            self.change_connection(group, other, kind) == self,
            self.change_connection(other, group, kind) == self,
            self.probe_request(group, ssid) == self,
    {
    }

    /// No event without a change: where one of the operations that announce
    /// what is new adds an event, it has changed the state behind the
    /// events too.
    pub proof fn lemma_events_tell_changes(
        self,
        mac: MacAddress,
        other: MacAddress,
        info: AccessPointInfoView,
        kind: ConnectionType,
        ssid: Seq<u8>,
        now: u64,
    )
        ensures
            self.add_address(mac, now).buffer != self.buffer ==> !self.addresses.contains_key(mac)
                && self.add_address(mac, now).addresses.contains_key(mac),
            self.access_point(mac, info).buffer != self.buffer
                ==> !self.access_points.contains_key(mac) && self.access_point(
                mac,
                info,
            ).access_points.contains_key(mac),
            self.change_connection(mac, other, kind).buffer != self.buffer ==> self.change_connection(
                mac,
                other,
                kind,
            ).connections != self.connections,
            self.probe_request(mac, ssid).buffer != self.buffer ==> !self.has_probed(mac, ssid)
                && self.probe_request(mac, ssid).has_probed(mac, ssid),
    {
        let key = spec_hash_macs(mac, other);
        let changed = self.change_connection(mac, other, kind);
        if changed.buffer != self.buffer {
            assert(changed.connections[key] == kind);
            if self.connections.contains_key(key) {
                assert(self.connections[key] != kind);
            } else {
                assert(changed.connections.contains_key(key));
            }
        }
    }

    /// The first beacon of an access point is reported as one received of
    /// one expected; later beacons are counted and add no event.
    pub proof fn lemma_beacon_quality_first(self, mac: MacAddress, interval: u64, now: u64)
        ensures
            !self.beacon_quality_intervals.contains_key(mac) ==> self.update_beacon_quality(
                mac,
                interval,
                now,
            ).buffer == self.buffer.push(EventView::BeaconQuality(mac, 1, 1)),
            self.beacon_quality_intervals.contains_key(mac) ==> self.update_beacon_quality(
                mac,
                interval,
                now,
            ).buffer == self.buffer,
            self.update_beacon_quality(mac, interval, now).beacon_quality_intervals[mac]
                == if self.beacon_quality_intervals.contains_key(mac) {
                self.beacon_quality_intervals[mac]
            } else {
                (interval, now)
            },
    {
    }

    /// Signal and rate are reported by the timer, not by the frame: a frame
    /// of an address that has a report scheduled adds no event.
    pub proof fn lemma_reports_are_paced(self, mac: MacAddress, signal: i8, now: u64)
        ensures
            spec_has_timer(self.next_signal_event_update, mac) ==> self.update_signal(
                mac,
                signal,
                now,
            ).buffer == self.buffer,
            spec_has_timer(self.next_rate_event_update, mac) ==> self.update_rate(mac, now).buffer
                == self.buffer,
            spec_has_timer(self.update_signal(mac, signal, now).next_signal_event_update, mac),
            spec_has_timer(self.update_rate(mac, now).next_rate_event_update, mac),
    {
        if !spec_has_timer(self.next_signal_event_update, mac) {
            let timers = self.update_signal(mac, signal, now).next_signal_event_update;
            assert(timers[timers.len() - 1].mac == mac);
        }
        if !spec_has_timer(self.next_rate_event_update, mac) {
            let timers = self.update_rate(mac, now).next_rate_event_update;
            assert(timers[timers.len() - 1].mac == mac);
        }
    }
    /// Evidence for one pair of stations leaves what is known of every
    /// other pair as it is.
    pub proof fn lemma_connections_independent(
        self,
        a: MacAddress,
        b: MacAddress,
        kind: ConnectionType,
        c: MacAddress,
        d: MacAddress,
    )
        requires
            !((a == c && b == d) || (a == d && b == c)),
        ensures
            self.change_connection(a, b, kind).connections.contains_key(spec_hash_macs(c, d))
                == self.connections.contains_key(spec_hash_macs(c, d)),
            self.connections.contains_key(spec_hash_macs(c, d)) ==> self.change_connection(
                a,
                b,
                kind,
            ).connections[spec_hash_macs(c, d)] == self.connections[spec_hash_macs(c, d)],
    {
        if spec_hash_macs(a, b) == spec_hash_macs(c, d) {
            lemma_hash_macs_injective(a, b, c, d);
        }
    }
    /// Looking at beacon-quality timers of which none is due changes nothing:
    /// they are put behind those that were there.
    pub proof fn lemma_beacon_quality_pass_quiet(self, timers: Seq<Timer>, now: u64)
        requires
            spec_all_later(timers, now),
        ensures
            self.beacon_quality_pass(timers, now) == (StoreView {
                next_beacon_quality_update: self.next_beacon_quality_update + timers,
                ..self
            }),
        decreases timers.len(),
    {
        if timers.len() == 0 {
            assert(self.next_beacon_quality_update + timers =~= self.next_beacon_quality_update);
        } else {
            let front = timers.drop_last();
            assert forall|i: int| 0 <= i < front.len() implies (#[trigger] front[i]).due > now by {
                assert(timers[i].due > now);
            }
            self.lemma_beacon_quality_pass_quiet(front, now);
            assert(timers[timers.len() - 1].due > now);
            assert((self.next_beacon_quality_update + front).push(timers.last())
                =~= self.next_beacon_quality_update + timers);
        }
    }

    /// Looking at rate timers of which none is due changes nothing: they are
    /// put behind those that were there.
    pub proof fn lemma_rate_pass_quiet(self, timers: Seq<Timer>, now: u64)
        requires
            spec_all_later(timers, now),
        ensures
            self.rate_pass(timers, now) == (StoreView {
                next_rate_event_update: self.next_rate_event_update + timers,
                ..self
            }),
        decreases timers.len(),
    {
        if timers.len() == 0 {
            assert(self.next_rate_event_update + timers =~= self.next_rate_event_update);
        } else {
            let front = timers.drop_last();
            assert forall|i: int| 0 <= i < front.len() implies (#[trigger] front[i]).due > now by {
                assert(timers[i].due > now);
            }
            self.lemma_rate_pass_quiet(front, now);
            assert(timers[timers.len() - 1].due > now);
            assert((self.next_rate_event_update + front).push(timers.last())
                =~= self.next_rate_event_update + timers);
        }
    }

    /// Looking at signal timers of which none is due changes nothing: they
    /// are put behind those that were there.
    pub proof fn lemma_signal_pass_quiet(self, timers: Seq<Timer>, now: u64)
        requires
            spec_all_later(timers, now),
        ensures
            self.signal_pass(timers, now) == (StoreView {
                next_signal_event_update: self.next_signal_event_update + timers,
                ..self
            }),
        decreases timers.len(),
    {
        if timers.len() == 0 {
            assert(self.next_signal_event_update + timers =~= self.next_signal_event_update);
        } else {
            let front = timers.drop_last();
            assert forall|i: int| 0 <= i < front.len() implies (#[trigger] front[i]).due > now by {
                assert(timers[i].due > now);
            }
            self.lemma_signal_pass_quiet(front, now);
            assert(timers[timers.len() - 1].due > now);
            assert((self.next_signal_event_update + front).push(timers.last())
                =~= self.next_signal_event_update + timers);
        }
    }

    /// The beacon-quality timers that a look at the time `now` leaves are all
    /// due later; and the look changes nothing but these timers and the
    /// events that wait.
    pub proof fn lemma_beacon_quality_pass_later(self, timers: Seq<Timer>, now: u64)
        requires
            spec_all_later(self.next_beacon_quality_update, now),
        ensures
            spec_all_later(self.beacon_quality_pass(timers, now).next_beacon_quality_update, now),
            (StoreView {
                buffer: self.buffer,
                next_beacon_quality_update: self.next_beacon_quality_update,
                ..self.beacon_quality_pass(timers, now)
            }) == self,
        decreases timers.len(),
    {
        if timers.len() > 0 {
            self.lemma_beacon_quality_pass_later(timers.drop_last(), now);
            let before = self.beacon_quality_pass(timers.drop_last(), now);
            let r = before.beacon_quality_step(timers.last(), now);
            assert forall|i: int| 0 <= i < r.next_beacon_quality_update.len() implies (
            #[trigger] r.next_beacon_quality_update[i]).due > now by {
                if i < before.next_beacon_quality_update.len() {
                    assert(before.next_beacon_quality_update[i].due > now);
                }
            }
        }
    }

    /// The rate timers that a look at the time `now` leaves are all due
    /// later; and the look changes nothing but these timers, the counts of
    /// the last reports and the events that wait.
    pub proof fn lemma_rate_pass_later(self, timers: Seq<Timer>, now: u64)
        requires
            spec_all_later(self.next_rate_event_update, now),
        ensures
            spec_all_later(self.rate_pass(timers, now).next_rate_event_update, now),
            (StoreView {
                buffer: self.buffer,
                next_rate_event_update: self.next_rate_event_update,
                rate_last_frame_count: self.rate_last_frame_count,
                ..self.rate_pass(timers, now)
            }) == self,
        decreases timers.len(),
    {
        if timers.len() > 0 {
            self.lemma_rate_pass_later(timers.drop_last(), now);
            let before = self.rate_pass(timers.drop_last(), now);
            let r = before.rate_step(timers.last(), now);
            assert forall|i: int| 0 <= i < r.next_rate_event_update.len() implies (
            #[trigger] r.next_rate_event_update[i]).due > now by {
                if i < before.next_rate_event_update.len() {
                    assert(before.next_rate_event_update[i].due > now);
                }
            }
        }
    }

    /// The signal timers that a look at the time `now` leaves are all due
    /// later; and the look changes nothing but these timers and the events
    /// that wait.
    pub proof fn lemma_signal_pass_later(self, timers: Seq<Timer>, now: u64)
        requires
            spec_all_later(self.next_signal_event_update, now),
        ensures
            spec_all_later(self.signal_pass(timers, now).next_signal_event_update, now),
            (StoreView {
                buffer: self.buffer,
                next_signal_event_update: self.next_signal_event_update,
                ..self.signal_pass(timers, now)
            }) == self,
        decreases timers.len(),
    {
        if timers.len() > 0 {
            self.lemma_signal_pass_later(timers.drop_last(), now);
            let before = self.signal_pass(timers.drop_last(), now);
            let r = before.signal_step(timers.last(), now);
            assert forall|i: int| 0 <= i < r.next_signal_event_update.len() implies (
            #[trigger] r.next_signal_event_update[i]).due > now by {
                if i < before.next_signal_event_update.len() {
                    assert(before.next_signal_event_update[i].due > now);
                }
            }
        }
    }

    /// Once the timers were looked at, none is due any more at that time:
    /// every report is at least one interval away from the next of its kind
    /// and address.
    pub proof fn lemma_check_timers_settles(self, now: u64)
        ensures
            spec_all_later(self.check_timers(now).next_beacon_quality_update, now),
            spec_all_later(self.check_timers(now).next_rate_event_update, now),
            spec_all_later(self.check_timers(now).next_signal_event_update, now),
    {
        let start = StoreView { next_beacon_quality_update: Seq::empty(), ..self };
        start.lemma_beacon_quality_pass_later(self.next_beacon_quality_update, now);
        let beacons = self.check_beacon_quality_timers(now);
        let emptied = StoreView { next_rate_event_update: Seq::empty(), ..beacons };
        emptied.lemma_rate_pass_later(beacons.next_rate_event_update, now);
        let rates = beacons.check_rate_timers(now);
        assert(rates.next_beacon_quality_update == beacons.next_beacon_quality_update);
        let silenced = StoreView { next_signal_event_update: Seq::empty(), ..rates };
        silenced.lemma_signal_pass_later(rates.next_signal_event_update, now);
        let signals = rates.check_signal_timers(now);
        assert(signals.next_beacon_quality_update == beacons.next_beacon_quality_update);
        assert(signals.next_rate_event_update == rates.next_rate_event_update);
    }

    /// Where no timer is due, looking at the timers changes nothing.
    pub proof fn lemma_check_timers_quiet(self, now: u64)
        requires
            spec_all_later(self.next_beacon_quality_update, now),
            spec_all_later(self.next_rate_event_update, now),
            spec_all_later(self.next_signal_event_update, now),
        ensures
            self.check_timers(now) == self,
    {
        let start = StoreView { next_beacon_quality_update: Seq::empty(), ..self };
        start.lemma_beacon_quality_pass_quiet(self.next_beacon_quality_update, now);
        assert(Seq::<Timer>::empty() + self.next_beacon_quality_update
            =~= self.next_beacon_quality_update);
        assert(self.check_beacon_quality_timers(now) == self);
        let emptied = StoreView { next_rate_event_update: Seq::empty(), ..self };
        emptied.lemma_rate_pass_quiet(self.next_rate_event_update, now);
        assert(Seq::<Timer>::empty() + self.next_rate_event_update =~= self.next_rate_event_update);
        assert(self.check_rate_timers(now) == self);
        let silenced = StoreView { next_signal_event_update: Seq::empty(), ..self };
        silenced.lemma_signal_pass_quiet(self.next_signal_event_update, now);
        assert(Seq::<Timer>::empty() + self.next_signal_event_update
            =~= self.next_signal_event_update);
        assert(self.check_signal_timers(now) == self);
    }

    /// Looking at the timers twice at the same time reports nothing the
    /// second time.
    pub proof fn lemma_check_timers_idempotent(self, now: u64)
        ensures
            self.check_timers(now).check_timers(now) == self.check_timers(now),
    {
        self.lemma_check_timers_settles(now);
        self.check_timers(now).lemma_check_timers_quiet(now);
    }

    /// What is known stays known, whatever the operation: nothing is deleted.
    pub proof fn lemma_operations_keep(
        self,
        mac: MacAddress,
        other: MacAddress,
        info: AccessPointInfoView,
        kind: ConnectionType,
        ssid: Seq<u8>,
        signal: i8,
        interval: u64,
        now: u64,
    )
        ensures
            self.keeps(self),
            self.keeps(self.flush_buffer()),
            self.keeps(self.add_address(mac, now)),
            self.keeps(self.access_point(mac, info)),
            self.keeps(self.change_connection(mac, other, kind)),
            self.keeps(self.probe_request(mac, ssid)),
            self.keeps(self.update_signal(mac, signal, now)),
            self.keeps(self.update_rate(mac, now)),
            self.keeps(self.update_beacon_quality(mac, interval, now)),
            self.keeps(self.check_timers(now)),
    {
        let start = StoreView { next_beacon_quality_update: Seq::empty(), ..self };
        start.lemma_beacon_quality_pass(self.next_beacon_quality_update, now);
        let beacons = self.check_beacon_quality_timers(now);
        let emptied = StoreView { next_rate_event_update: Seq::empty(), ..beacons };
        emptied.lemma_rate_pass_later(beacons.next_rate_event_update, now);
        let rates = beacons.check_rate_timers(now);
        let silenced = StoreView { next_signal_event_update: Seq::empty(), ..rates };
        silenced.lemma_signal_pass_later(rates.next_signal_event_update, now);
        let signals = rates.check_signal_timers(now);
        assert(signals.addresses == self.addresses);
        assert(signals.connections == self.connections);
        assert(signals.access_points == self.access_points);
        assert(signals.probes == self.probes);
        let asked = self.probe_request(mac, ssid);
        assert forall|m: MacAddress, s: Seq<u8>| #[trigger]
            self.has_probed(m, s) implies asked.has_probed(m, s) by {}
    }

    /// What is known stays known through any number of steps.
    pub proof fn lemma_keeps_transitive(self, second: StoreView, third: StoreView)
        requires
            self.keeps(second),
            second.keeps(third),
        ensures
            self.keeps(third),
    {
        assert forall|mac: MacAddress, ssid: Seq<u8>| #[trigger]
            self.has_probed(mac, ssid) implies third.has_probed(mac, ssid) by {
            assert(second.has_probed(mac, ssid));
        }
        assert forall|mac: MacAddress| #[trigger]
            self.access_points.contains_key(mac) implies third.access_points.contains_key(mac)
            && third.access_points[mac] == self.access_points[mac] by {
            assert(second.access_points.contains_key(mac));
        }
        assert forall|mac: MacAddress| #[trigger]
            self.addresses.contains_key(mac) implies third.addresses.contains_key(mac) by {
            assert(second.addresses.contains_key(mac));
        }
        assert forall|key: Seq<char>| #[trigger]
            self.connections.contains_key(key) implies third.connections.contains_key(key) by {
            assert(second.connections.contains_key(key));
        }
    }
}

/// Taking in a frame keeps the state sound and deletes nothing that was
/// known: no address, no connection, no access point and no probe request.
pub proof fn lemma_handle_frame_sound(
    store: StoreView,
    frame: FrameView,
    signal: Option<i8>,
    now: u64,
)
    requires
        store.inv(),
    ensures
        spec_handle_frame(store, frame, signal, now).inv(),
        spec_handle_frame(store, frame, signal, now).flush_buffer().inv(),
        store.keeps(spec_handle_frame(store, frame, signal, now)),
        store.keeps(spec_handle_frame(store, frame, signal, now).flush_buffer()),
{
    let basic = frame.basic_frame();
    let mac = MacAddress::spec_new(Seq::empty());
    let info = AccessPointInfoView { ssid: Seq::empty(), channel: None };
    let received = match basic.receiver_address {
        Some(receiver_address) => store.add_address(receiver_address, now),
        None => store,
    };
    match basic.receiver_address {
        Some(receiver_address) => {
            store.lemma_add_address_inv(receiver_address, now);
            store.lemma_operations_keep(
                receiver_address,
                mac,
                info,
                ConnectionType::InRange,
                Seq::empty(),
                0,
                0,
                now,
            );
        },
        None => {
            store.lemma_operations_keep(
                mac,
                mac,
                info,
                ConnectionType::InRange,
                Seq::empty(),
                0,
                0,
                now,
            );
        },
    }
    let sent = match basic.transmitter_address {
        Some(transmitter_address) => {
            let added = received.add_address(transmitter_address, now);
            received.lemma_add_address_inv(transmitter_address, now);
            received.lemma_operations_keep(
                transmitter_address,
                mac,
                info,
                ConnectionType::InRange,
                Seq::empty(),
                0,
                0,
                now,
            );
            lemma_handle_transmitter_sound(added, frame, signal, transmitter_address, now);
            let handled = spec_handle_transmitter(added, frame, signal, transmitter_address, now);
            received.lemma_keeps_transitive(added, handled);
            handled
        },
        None => {
            received.lemma_operations_keep(
                mac,
                mac,
                info,
                ConnectionType::InRange,
                Seq::empty(),
                0,
                0,
                now,
            );
            received
        },
    };
    store.lemma_keeps_transitive(received, sent);
    sent.lemma_check_timers_inv(now);
    sent.lemma_operations_keep(
        mac,
        mac,
        info,
        ConnectionType::InRange,
        Seq::empty(),
        0,
        0,
        now,
    );
    let checked = sent.check_timers(now);
    store.lemma_keeps_transitive(sent, checked);
    checked.lemma_flush_buffer_inv();
    checked.lemma_operations_keep(
        mac,
        mac,
        info,
        ConnectionType::InRange,
        Seq::empty(),
        0,
        0,
        now,
    );
    store.lemma_keeps_transitive(checked, checked.flush_buffer());
}

/// Recording what a frame shows of its sender keeps the state sound and
/// deletes nothing that was known.
pub proof fn lemma_handle_transmitter_sound(
    store: StoreView,
    frame: FrameView,
    signal: Option<i8>,
    transmitter_address: MacAddress,
    now: u64,
)
    requires
        store.inv(),
    ensures
        spec_handle_transmitter(store, frame, signal, transmitter_address, now).inv(),
        store.keeps(spec_handle_transmitter(store, frame, signal, transmitter_address, now)),
{
    let t = transmitter_address;
    let info = AccessPointInfoView { ssid: Seq::empty(), channel: None };
    let associated = spec_check_association(store, frame, t);
    match frame.basic_frame().receiver_address {
        Some(receiver_address) => {
            let kind = crate::events::spec_classify(frame.basic_frame().type_);
            store.lemma_change_connection_inv(t, receiver_address, kind);
            store.lemma_operations_keep(t, receiver_address, info, kind, Seq::empty(), 0, 0, now);
        },
        None => {
            store.lemma_operations_keep(
                t,
                t,
                info,
                ConnectionType::InRange,
                Seq::empty(),
                0,
                0,
                now,
            );
        },
    }
    let announced = spec_record_announcement(associated, frame, t, now);
    match frame {
        FrameView::Beacon(beacon) => {
            let network = AccessPointInfoView {
                ssid: beacon.ssid,
                channel: crate::ieee802_11::management_frame::tagged_parameters::spec_channel(
                    beacon.tagged_parameters,
                ),
            };
            let interval = beacon.fixed_parameters.spec_beacon_interval_micros();
            associated.lemma_access_point_inv(t, network);
            associated.lemma_operations_keep(
                t,
                t,
                network,
                ConnectionType::InRange,
                Seq::empty(),
                0,
                0,
                now,
            );
            let known = associated.access_point(t, network);
            known.lemma_update_beacon_quality_inv(t, interval, now);
            known.lemma_operations_keep(
                t,
                t,
                network,
                ConnectionType::InRange,
                Seq::empty(),
                0,
                interval,
                now,
            );
            associated.lemma_keeps_transitive(known, announced);
        },
        FrameView::ProbeResponse(response) => {
            let network = AccessPointInfoView {
                ssid: response.ssid,
                channel: crate::ieee802_11::management_frame::tagged_parameters::spec_channel(
                    response.tagged_parameters,
                ),
            };
            associated.lemma_access_point_inv(t, network);
            associated.lemma_operations_keep(
                t,
                t,
                network,
                ConnectionType::InRange,
                Seq::empty(),
                0,
                0,
                now,
            );
        },
        FrameView::ProbeRequest(request) => {
            associated.lemma_probe_request_inv(t, request.ssid);
            associated.lemma_operations_keep(
                t,
                t,
                info,
                ConnectionType::InRange,
                request.ssid,
                0,
                0,
                now,
            );
        },
        _ => {
            associated.lemma_operations_keep(
                t,
                t,
                info,
                ConnectionType::InRange,
                Seq::empty(),
                0,
                0,
                now,
            );
        },
    }
    store.lemma_keeps_transitive(associated, announced);
    announced.lemma_update_rate_inv(t, now);
    let counted = announced.update_rate(t, now);
    match signal {
        Some(signal) => {
            announced.lemma_operations_keep(
                t,
                t,
                info,
                ConnectionType::InRange,
                Seq::empty(),
                signal,
                0,
                now,
            );
            counted.lemma_update_signal_inv(t, signal, now);
            counted.lemma_operations_keep(
                t,
                t,
                info,
                ConnectionType::InRange,
                Seq::empty(),
                signal,
                0,
                now,
            );
            let measured = counted.update_signal(t, signal, now);
            announced.lemma_keeps_transitive(counted, measured);
            store.lemma_keeps_transitive(announced, measured);
        },
        None => {
            announced.lemma_operations_keep(
                t,
                t,
                info,
                ConnectionType::InRange,
                Seq::empty(),
                0,
                0,
                now,
            );
            store.lemma_keeps_transitive(announced, counted);
        },
    }
}

} // verus!
