//! The correlation engine as mathematics: what the state is, and what each
//! operation makes of it.

use crate::ieee802_11::util::{spec_hash_macs, spec_is_broadcast, MacAddress};
use vstd::prelude::*;

verus! {

/// How often, in microseconds, the signal of an address is reported.
pub const SIGNAL_EVENT_UPDATE_INTERVAL: u64 = 1_000_000;

/// How long, in microseconds, an address may stay silent before its signal
/// is reported as lost.
pub const SIGNAL_EVENT_TIMEOUT: u64 = 5_000_000;

/// How often, in microseconds, the frame rate of an address is reported.
pub const RATE_EVENT_UPDATE_INTERVAL: u64 = 1_000_000;

/// How often, in microseconds, the beacon quality of an access point is
/// reported.
pub const BEACON_QUALITY_UPDATE_INTERVAL: u64 = 1_000_000;

/// What is known of the relation between two stations, by the strongest
/// evidence seen.
#[derive(Clone, Copy, Debug, PartialEq, Eq, Structural)]
pub enum ConnectionType {
    Associated,
    Authentication,
    Disassociated,
    InRange,
}

/// What an access point announces of its network.
#[derive(Clone, Debug, PartialEq, Eq)]
pub struct AccessPointInfo {
    pub ssid: Vec<u8>,
    pub channel: Option<u8>,
}

/// What an access point announces of its network, as a value of mathematics.
pub struct AccessPointInfoView {
    pub ssid: Seq<u8>,
    pub channel: Option<u8>,
}

impl View for AccessPointInfo {
    type V = AccessPointInfoView;

    open spec fn view(&self) -> AccessPointInfoView {
        AccessPointInfoView { ssid: self.ssid@, channel: self.channel }
    }
}

/// A change of the model, as a client is told of it.
#[derive(Clone, Debug, PartialEq, Eq)]
pub enum Event {
    /// An address was seen for the first time.
    NewAddress(MacAddress),
    /// An address turned out to be an access point.
    AccessPoint(MacAddress, AccessPointInfo),
    /// The relation between two addresses changed.
    Connection(MacAddress, MacAddress, ConnectionType),
    /// A station asked for a network by name.
    ProbeRequest(MacAddress, Vec<u8>),
    /// The signal strength of an address, in dBm; 0 once it is out of range.
    Signal(MacAddress, i8),
    /// The number of frames that an address sent since the last report.
    Rate(MacAddress, u64),
    /// The number of beacons received of an access point, and the number
    /// that it should have sent.
    BeaconQuality(MacAddress, u64, u64),
    /// A failure, in words. It ends the session.
    Error(String),
}

/// A change of the model, as a value of mathematics.
pub enum EventView {
    NewAddress(MacAddress),
    AccessPoint(MacAddress, AccessPointInfoView),
    Connection(MacAddress, MacAddress, ConnectionType),
    ProbeRequest(MacAddress, Seq<u8>),
    Signal(MacAddress, i8),
    Rate(MacAddress, u64),
    BeaconQuality(MacAddress, u64, u64),
    Error(Seq<char>),
}

impl View for Event {
    type V = EventView;

    open spec fn view(&self) -> EventView {
        match *self {
            Event::NewAddress(mac) => EventView::NewAddress(mac),
            Event::AccessPoint(mac, info) => EventView::AccessPoint(mac, info@),
            Event::Connection(mac1, mac2, kind) => EventView::Connection(mac1, mac2, kind),
            Event::ProbeRequest(mac, ssid) => EventView::ProbeRequest(mac, ssid@),
            Event::Signal(mac, signal) => EventView::Signal(mac, signal),
            Event::Rate(mac, rate) => EventView::Rate(mac, rate),
            Event::BeaconQuality(mac, received, expected) => EventView::BeaconQuality(
                mac,
                received,
                expected,
            ),
            Event::Error(text) => EventView::Error(text@),
        }
    }
}

/// The views of a list of events, in its order.
pub open spec fn spec_events(events: Seq<Event>) -> Seq<EventView> {
    Seq::new(events.len(), |i: int| events[i]@)
}

/// The next report that is due for an address. The time is held in more
/// bits than a clock reading has, so that no due time overflows.
#[derive(Clone, Copy, Debug, PartialEq, Eq)]
pub struct Timer {
    pub mac: MacAddress,
    /// The time from which on the report is due, in microseconds.
    pub due: u128,
}

/// Whether `timers` holds a timer for `mac`.
pub open spec fn spec_has_timer(timers: Seq<Timer>, mac: MacAddress) -> bool {
    exists|i: int| 0 <= i < timers.len() && (#[trigger] timers[i]).mac == mac
}

/// Whether no two of `timers` are for the same address.
pub open spec fn spec_distinct(timers: Seq<Timer>) -> bool {
    forall|i: int, j: int|
        0 <= i < j < timers.len() ==> (#[trigger] timers[i]).mac != (#[trigger] timers[j]).mac
}

/// Whether every one of `timers` is due later than at the time `now`.
pub open spec fn spec_all_later(timers: Seq<Timer>, now: u64) -> bool {
    forall|i: int| 0 <= i < timers.len() ==> (#[trigger] timers[i]).due > now
}

/// A counter one further, where it has not reached the largest number that
/// it can hold.
pub open spec fn spec_count_up(count: u64) -> u64 {
    if count < u64::MAX {
        (count + 1) as u64
    } else {
        count
    }
}

/// How many beacons an access point should have sent by the time `now`, of
/// which the first came at `start` and each next one `interval`
/// microseconds after the one before: one more than the number of whole
/// intervals that have passed. No time has passed where `now` is before
/// `start`.
///
/// Where `interval` is 0 the number is 1 as long as no time has passed, and
/// the largest that can be held from then on; that largest number also
/// stands for any that would exceed it.
pub open spec fn spec_expected_beacons(interval: u64, start: u64, now: u64) -> u64 {
    let elapsed = if now >= start {
        now - start
    } else {
        0
    };
    if interval == 0 {
        if elapsed == 0 {
            1
        } else {
            u64::MAX
        }
    } else if elapsed / (interval as int) + 1 > u64::MAX {
        u64::MAX
    } else {
        (elapsed / (interval as int) + 1) as u64
    }
}

/// The state of the correlation engine.
#[verifier::ext_equal]
pub struct StoreView {
    /// The events that wait to be handed out, oldest first.
    pub buffer: Seq<EventView>,
    /// When each known address was last seen.
    pub addresses: Map<MacAddress, u64>,
    /// The relation between two addresses, under the key of the pair.
    pub connections: Map<Seq<char>, ConnectionType>,
    /// What each known access point announced first.
    pub access_points: Map<MacAddress, AccessPointInfoView>,
    /// The network names that each station has asked for.
    pub probes: Map<MacAddress, Set<Seq<u8>>>,
    /// The number of frames that each address has sent.
    pub frame_count: Map<MacAddress, u64>,
    /// The number of beacons that each access point has sent.
    pub beacon_count: Map<MacAddress, u64>,
    /// The frame count of each address at its last rate report.
    pub rate_last_frame_count: Map<MacAddress, u64>,
    /// The beacon interval of each access point, and when its first beacon
    /// was seen.
    pub beacon_quality_intervals: Map<MacAddress, (u64, u64)>,
    /// The latest signal strength of each address, and when it was measured.
    pub signals: Map<MacAddress, (i8, u64)>,
    /// The signal reports that are scheduled, in the order in which their
    /// addresses were first scheduled.
    pub next_signal_event_update: Seq<Timer>,
    /// The rate reports that are scheduled, in the same order.
    pub next_rate_event_update: Seq<Timer>,
    /// The beacon-quality reports that are scheduled, in the same order.
    pub next_beacon_quality_update: Seq<Timer>,
}

impl StoreView {
    /// The state in which nothing has been seen yet.
    pub open spec fn empty() -> StoreView {
        StoreView {
            buffer: Seq::empty(),
            addresses: Map::empty(),
            connections: Map::empty(),
            access_points: Map::empty(),
            probes: Map::empty(),
            frame_count: Map::empty(),
            beacon_count: Map::empty(),
            rate_last_frame_count: Map::empty(),
            beacon_quality_intervals: Map::empty(),
            signals: Map::empty(),
            next_signal_event_update: Seq::empty(),
            next_rate_event_update: Seq::empty(),
            next_beacon_quality_update: Seq::empty(),
        }
    }

    /// What holds of every state that the operations reach: no group
    /// address is tracked as a device or as one that asks for networks; an
    /// address has at most one timer of each kind; every timer finds the
    /// data that its report reads; and no rate report has counted more
    /// frames than were seen.
    pub open spec fn inv(self) -> bool {
        &&& forall|mac: MacAddress| #[trigger]
            self.addresses.contains_key(mac) ==> !spec_is_broadcast(mac)
        &&& forall|mac: MacAddress| #[trigger]
            self.probes.contains_key(mac) ==> !spec_is_broadcast(mac)
        &&& spec_distinct(self.next_signal_event_update)
        &&& spec_distinct(self.next_rate_event_update)
        &&& spec_distinct(self.next_beacon_quality_update)
        &&& forall|i: int|
            0 <= i < self.next_signal_event_update.len() ==> self.signals.contains_key(
                (#[trigger] self.next_signal_event_update[i]).mac,
            )
        &&& forall|i: int|
            0 <= i < self.next_rate_event_update.len() ==> self.frame_count.contains_key(
                (#[trigger] self.next_rate_event_update[i]).mac,
            )
        &&& forall|i: int|
            0 <= i < self.next_beacon_quality_update.len() ==> {
                &&& self.beacon_quality_intervals.contains_key(
                    (#[trigger] self.next_beacon_quality_update[i]).mac,
                )
                &&& self.beacon_count.contains_key(self.next_beacon_quality_update[i].mac)
            }
        &&& forall|mac: MacAddress| #[trigger]
            self.rate_last_frame_count.contains_key(mac) ==> self.frame_count.contains_key(mac)
                && self.rate_last_frame_count[mac] <= self.frame_count[mac]
    }

    /// Whether `later` has kept what this state knows: every address, every
    /// connection, every access point with what it announced, and every
    /// network that a station has asked for.
    pub open spec fn keeps(self, later: StoreView) -> bool {
        &&& forall|mac: MacAddress| #[trigger]
            self.addresses.contains_key(mac) ==> later.addresses.contains_key(mac)
        &&& forall|key: Seq<char>| #[trigger]
            self.connections.contains_key(key) ==> later.connections.contains_key(key)
        &&& forall|mac: MacAddress| #[trigger]
            self.access_points.contains_key(mac) ==> later.access_points.contains_key(mac)
                && later.access_points[mac] == self.access_points[mac]
        &&& forall|mac: MacAddress, ssid: Seq<u8>| #[trigger]
            self.has_probed(mac, ssid) ==> later.has_probed(mac, ssid)
    }

    /// The state with `event` added to the events that wait.
    pub open spec fn emit(self, event: EventView) -> StoreView {
        StoreView { buffer: self.buffer.push(event), ..self }
    }

    /// The state after the waiting events have been handed out.
    pub open spec fn flush_buffer(self) -> StoreView {
        StoreView { buffer: Seq::empty(), ..self }
    }

    /// The state after `mac` was seen at the time `now`.
    ///
    /// A group address is not tracked. Any other has its time of last
    /// sighting set, and is announced if it was not known.
    pub open spec fn add_address(self, mac: MacAddress, now: u64) -> StoreView {
        if spec_is_broadcast(mac) {
            self
        } else {
            let seen = StoreView { addresses: self.addresses.insert(mac, now), ..self };
            if self.addresses.contains_key(mac) {
                seen
            } else {
                seen.emit(EventView::NewAddress(mac))
            }
        }
    }

    /// The state after `mac` announced the network `info`.
    ///
    /// What an access point announced first stays: later announcements
    /// change nothing.
    pub open spec fn access_point(self, mac: MacAddress, info: AccessPointInfoView) -> StoreView {
        if self.access_points.contains_key(mac) {
            self
        } else {
            StoreView { access_points: self.access_points.insert(mac, info), ..self }.emit(
                EventView::AccessPoint(mac, info),
            )
        }
    }

    /// Whether evidence of the kind `kind` replaces the recorded relation
    /// `old`: the same kind does not; `InRange`, the weakest evidence,
    /// replaces nothing; `Associated` replaces all but `Authentication`; and
    /// `Authentication` and `Disassociated` replace whatever differs.
    pub open spec fn spec_overwrites(old: ConnectionType, kind: ConnectionType) -> bool {
        &&& kind != old
        &&& kind != ConnectionType::InRange
        &&& !(kind == ConnectionType::Associated && old == ConnectionType::Authentication)
    }

    /// The state after evidence of the kind `kind` for a relation between
    /// `transmitter_address` and `receiver_address`.
    ///
    /// A pair with a group address in it is not tracked. The relation of a
    /// pair that was not known is recorded and announced; that of a known
    /// pair is replaced and announced where `spec_overwrites` says so.
    pub open spec fn change_connection(
        self,
        transmitter_address: MacAddress,
        receiver_address: MacAddress,
        kind: ConnectionType,
    ) -> StoreView {
        let key = spec_hash_macs(transmitter_address, receiver_address);
        if spec_is_broadcast(transmitter_address) || spec_is_broadcast(receiver_address) {
            self
        } else if self.connections.contains_key(key) && !Self::spec_overwrites(
            self.connections[key],
            kind,
        ) {
            self
        } else {
            StoreView { connections: self.connections.insert(key, kind), ..self }.emit(
                EventView::Connection(transmitter_address, receiver_address, kind),
            )
        }
    }

    /// Whether `mac` has asked for the network `ssid` before.
    pub open spec fn has_probed(self, mac: MacAddress, ssid: Seq<u8>) -> bool {
        self.probes.contains_key(mac) && self.probes[mac].contains(ssid)
    }

    /// The state after `mac` asked for the network `ssid`.
    ///
    /// A group address is not tracked. The name joins those that `mac` has
    /// asked for, and the request is announced, if it is the first of `mac`
    /// for this name.
    pub open spec fn probe_request(self, mac: MacAddress, ssid: Seq<u8>) -> StoreView {
        if spec_is_broadcast(mac) || self.has_probed(mac, ssid) {
            self
        } else {
            let asked = if self.probes.contains_key(mac) {
                self.probes[mac]
            } else {
                Set::empty()
            };
            StoreView { probes: self.probes.insert(mac, asked.insert(ssid)), ..self }.emit(
                EventView::ProbeRequest(mac, ssid),
            )
        }
    }

    /// The state after a frame of `transmitter_address` came in with the
    /// signal strength `signal` at the time `now`.
    ///
    /// The measurement is recorded. It is reported at once, and the next
    /// report scheduled one interval on, if no report was scheduled for the
    /// address.
    pub open spec fn update_signal(
        self,
        transmitter_address: MacAddress,
        signal: i8,
        now: u64,
    ) -> StoreView {
        let measured = StoreView {
            signals: self.signals.insert(transmitter_address, (signal, now)),
            ..self
        };
        if spec_has_timer(self.next_signal_event_update, transmitter_address) {
            measured
        } else {
            StoreView {
                next_signal_event_update: self.next_signal_event_update.push(
                    Timer {
                        mac: transmitter_address,
                        due: (now + SIGNAL_EVENT_UPDATE_INTERVAL) as u128,
                    },
                ),
                ..measured
            }.emit(EventView::Signal(transmitter_address, signal))
        }
    }

    /// The number of frames counted for `mac`, none where it is unknown.
    pub open spec fn frames_of(self, mac: MacAddress) -> u64 {
        if self.frame_count.contains_key(mac) {
            self.frame_count[mac]
        } else {
            0
        }
    }

    /// The number of beacons counted for `mac`, none where it is unknown.
    pub open spec fn beacons_of(self, mac: MacAddress) -> u64 {
        if self.beacon_count.contains_key(mac) {
            self.beacon_count[mac]
        } else {
            0
        }
    }

    /// The state after a frame of `transmitter_address` came in at the time
    /// `now`.
    ///
    /// The frame is counted. A rate of one frame is reported at once, and
    /// the next report scheduled one interval on, if no report was scheduled
    /// for the address.
    pub open spec fn update_rate(self, transmitter_address: MacAddress, now: u64) -> StoreView {
        let counted = StoreView {
            frame_count: self.frame_count.insert(
                transmitter_address,
                spec_count_up(self.frames_of(transmitter_address)),
            ),
            ..self
        };
        if spec_has_timer(self.next_rate_event_update, transmitter_address) {
            counted
        } else {
            StoreView {
                next_rate_event_update: self.next_rate_event_update.push(
                    Timer {
                        mac: transmitter_address,
                        due: (now + RATE_EVENT_UPDATE_INTERVAL) as u128,
                    },
                ),
                ..counted
            }.emit(EventView::Rate(transmitter_address, 1))
        }
    }

    /// The state after a beacon of `transmitter_address` came in at the time
    /// `now`, which announces a beacon every `interval` microseconds.
    ///
    /// The beacon is counted. The first beacon of an access point fixes its
    /// interval and the start of its count, is reported as one beacon
    /// received of one expected, and schedules the next report one interval
    /// on.
    pub open spec fn update_beacon_quality(
        self,
        transmitter_address: MacAddress,
        interval: u64,
        now: u64,
    ) -> StoreView {
        let counted = StoreView {
            beacon_count: self.beacon_count.insert(
                transmitter_address,
                spec_count_up(self.beacons_of(transmitter_address)),
            ),
            ..self
        };
        if self.beacon_quality_intervals.contains_key(transmitter_address) {
            counted
        } else {
            StoreView {
                beacon_quality_intervals: self.beacon_quality_intervals.insert(
                    transmitter_address,
                    (interval, now),
                ),
                next_beacon_quality_update: self.next_beacon_quality_update.push(
                    Timer {
                        mac: transmitter_address,
                        due: (now + BEACON_QUALITY_UPDATE_INTERVAL) as u128,
                    },
                ),
                ..counted
            }.emit(EventView::BeaconQuality(transmitter_address, 1, 1))
        }
    }

    /// The state after the beacon-quality timer `timer` was looked at, at the
    /// time `now`.
    ///
    /// A timer that is not due stays as it is. One that is due reports the
    /// beacons received and expected of its access point, and is set one
    /// interval on.
    pub open spec fn beacon_quality_step(self, timer: Timer, now: u64) -> StoreView {
        if now < timer.due {
            StoreView {
                next_beacon_quality_update: self.next_beacon_quality_update.push(timer),
                ..self
            }
        } else {
            let (interval, start) = self.beacon_quality_intervals[timer.mac];
            StoreView {
                next_beacon_quality_update: self.next_beacon_quality_update.push(
                    Timer { mac: timer.mac, due: (now + BEACON_QUALITY_UPDATE_INTERVAL) as u128 },
                ),
                ..self
            }.emit(
                EventView::BeaconQuality(
                    timer.mac,
                    self.beacon_count[timer.mac],
                    spec_expected_beacons(interval, start, now),
                ),
            )
        }
    }

    /// The state after the rate timer `timer` was looked at, at the time
    /// `now`.
    ///
    /// A timer that is not due stays as it is. One that is due reports the
    /// frames counted since the last report of its address. It is set one
    /// interval on if there were any, and dropped if there were none.
    pub open spec fn rate_step(self, timer: Timer, now: u64) -> StoreView {
        if now < timer.due {
            StoreView { next_rate_event_update: self.next_rate_event_update.push(timer), ..self }
        } else {
            let count = self.frame_count[timer.mac];
            let last = if self.rate_last_frame_count.contains_key(timer.mac) {
                self.rate_last_frame_count[timer.mac]
            } else {
                0
            };
            let rate = (count - last) as u64;
            let reported = StoreView {
                rate_last_frame_count: self.rate_last_frame_count.insert(timer.mac, count),
                ..self
            }.emit(EventView::Rate(timer.mac, rate));
            if rate == 0 {
                reported
            } else {
                StoreView {
                    next_rate_event_update: reported.next_rate_event_update.push(
                        Timer { mac: timer.mac, due: (now + RATE_EVENT_UPDATE_INTERVAL) as u128 },
                    ),
                    ..reported
                }
            }
        }
    }

    /// The state after the signal timer `timer` was looked at, at the time
    /// `now`.
    ///
    /// A timer that is not due stays as it is. One that is due reports the
    /// latest measurement of its address and is set one interval on, unless
    /// the measurement is as old as the timeout or older: then a signal of 0
    /// is reported and the timer dropped.
    pub open spec fn signal_step(self, timer: Timer, now: u64) -> StoreView {
        if now < timer.due {
            StoreView {
                next_signal_event_update: self.next_signal_event_update.push(timer),
                ..self
            }
        } else {
            let (signal, time) = self.signals[timer.mac];
            if now - time >= SIGNAL_EVENT_TIMEOUT {
                self.emit(EventView::Signal(timer.mac, 0))
            } else {
                StoreView {
                    next_signal_event_update: self.next_signal_event_update.push(
                        Timer { mac: timer.mac, due: (now + SIGNAL_EVENT_UPDATE_INTERVAL) as u128 },
                    ),
                    ..self
                }.emit(EventView::Signal(timer.mac, signal))
            }
        }
    }

    /// The state after the beacon-quality timers `timers` were looked at one
    /// after the other, first to last.
    pub open spec fn beacon_quality_pass(self, timers: Seq<Timer>, now: u64) -> StoreView
        decreases timers.len(),
    {
        if timers.len() == 0 {
            self
        } else {
            self.beacon_quality_pass(timers.drop_last(), now).beacon_quality_step(
                timers.last(),
                now,
            )
        }
    }

    /// The state after the rate timers `timers` were looked at one after the
    /// other, first to last.
    pub open spec fn rate_pass(self, timers: Seq<Timer>, now: u64) -> StoreView
        decreases timers.len(),
    {
        if timers.len() == 0 {
            self
        } else {
            self.rate_pass(timers.drop_last(), now).rate_step(timers.last(), now)
        }
    }

    /// The state after the signal timers `timers` were looked at one after
    /// the other, first to last.
    pub open spec fn signal_pass(self, timers: Seq<Timer>, now: u64) -> StoreView
        decreases timers.len(),
    {
        if timers.len() == 0 {
            self
        } else {
            self.signal_pass(timers.drop_last(), now).signal_step(timers.last(), now)
        }
    }

    /// The state after all beacon-quality timers were looked at, at the time
    /// `now`, in the order in which they are scheduled.
    pub open spec fn check_beacon_quality_timers(self, now: u64) -> StoreView {
        StoreView { next_beacon_quality_update: Seq::empty(), ..self }.beacon_quality_pass(
            self.next_beacon_quality_update,
            now,
        )
    }

    /// The state after all rate timers were looked at, at the time `now`, in
    /// the order in which they are scheduled.
    pub open spec fn check_rate_timers(self, now: u64) -> StoreView {
        StoreView { next_rate_event_update: Seq::empty(), ..self }.rate_pass(
            self.next_rate_event_update,
            now,
        )
    }

    /// The state after all signal timers were looked at, at the time `now`,
    /// in the order in which they are scheduled.
    pub open spec fn check_signal_timers(self, now: u64) -> StoreView {
        StoreView { next_signal_event_update: Seq::empty(), ..self }.signal_pass(
            self.next_signal_event_update,
            now,
        )
    }

    /// The state after all timers were looked at, at the time `now`: the
    /// beacon-quality timers first, then the rate timers, then the signal
    /// timers.
    pub open spec fn check_timers(self, now: u64) -> StoreView {
        self.check_beacon_quality_timers(now).check_rate_timers(now).check_signal_timers(now)
    }
}

} // verus!
