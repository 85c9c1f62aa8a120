//! The model of the wireless neighbourhood that the frames add up to, and
//! the events that tell a client how it changes.

pub mod laws;
pub mod loss;
pub mod model;
pub mod store;
pub mod table;
pub mod util;

pub use self::loss::get_loss;
pub use self::model::{
    AccessPointInfo, AccessPointInfoView, ConnectionType, Event, EventView, StoreView, Timer,
};
pub use self::store::Store;
pub use self::util::{hash_macs, is_broadcast};
use crate::events::model::spec_events;
use crate::ieee802_11::management_frame::tagged_parameters::spec_channel;
use crate::ieee802_11::{Frame, FrameType, FrameView, MacAddress, ManagementSubtype, Type};
use crate::packet_capture::{FrameWithRadiotap, RadiotapInfo};
use vstd::prelude::*;
use vstd::slice::slice_to_vec;

verus! {

/// The relation between sender and receiver that a frame of the type
/// `type_` is evidence of.
///
/// A step of authentication or (re)association shows an authentication; a
/// disassociation or deauthentication shows that the two have parted; any
/// data frame shows that they are associated; and every other frame only
/// that they are in range of each other.
pub open spec fn spec_classify(type_: FrameType) -> ConnectionType {
    match type_ {
        Type::Data(_) => ConnectionType::Associated,
        Type::Management(ManagementSubtype::Authentication)
        | Type::Management(ManagementSubtype::AssociationRequest)
        | Type::Management(ManagementSubtype::AssociationResponse)
        | Type::Management(ManagementSubtype::ReassociationRequest)
        | Type::Management(ManagementSubtype::ReassociationResponse) => {
            ConnectionType::Authentication
        },
        Type::Management(ManagementSubtype::Disassociation)
        | Type::Management(ManagementSubtype::Deauthentication) => ConnectionType::Disassociated,
        _ => ConnectionType::InRange,
    }
}

/// The relation between sender and receiver that a frame of the type
/// `type_` is evidence of.
pub fn classify(type_: &FrameType) -> (kind: ConnectionType)
    ensures
        kind == spec_classify(*type_),
{
    match type_ {
        Type::Data(_) => ConnectionType::Associated,
        Type::Management(ManagementSubtype::Authentication)
        | Type::Management(ManagementSubtype::AssociationRequest)
        | Type::Management(ManagementSubtype::AssociationResponse)
        | Type::Management(ManagementSubtype::ReassociationRequest)
        | Type::Management(ManagementSubtype::ReassociationResponse) => {
            ConnectionType::Authentication
        },
        Type::Management(ManagementSubtype::Disassociation)
        | Type::Management(ManagementSubtype::Deauthentication) => ConnectionType::Disassociated,
        _ => ConnectionType::InRange,
    }
}

/// The state after the connection that `frame` is evidence of, between its
/// sender `transmitter_address` and its receiver, was recorded. A frame
/// without a receiver is evidence of none.
pub open spec fn spec_check_association(
    store: StoreView,
    frame: FrameView,
    transmitter_address: MacAddress,
) -> StoreView {
    match frame.basic_frame().receiver_address {
        Some(receiver_address) => store.change_connection(
            transmitter_address,
            receiver_address,
            spec_classify(frame.basic_frame().type_),
        ),
        None => store,
    }
}

/// The state after what `frame` announces was recorded for its sender
/// `transmitter_address`, at the time `now`: the network of a beacon or a
/// probe response, the beacon itself, and the network that a probe request
/// asks for, unless its name is empty.
pub open spec fn spec_record_announcement(
    store: StoreView,
    frame: FrameView,
    transmitter_address: MacAddress,
    now: u64,
) -> StoreView {
    match frame {
        FrameView::Beacon(beacon) => store.access_point(
            transmitter_address,
            AccessPointInfoView {
                ssid: beacon.ssid,
                channel: spec_channel(beacon.tagged_parameters),
            },
        ).update_beacon_quality(
            transmitter_address,
            beacon.fixed_parameters.spec_beacon_interval_micros(),
            now,
        ),
        FrameView::ProbeResponse(response) => store.access_point(
            transmitter_address,
            AccessPointInfoView {
                ssid: response.ssid,
                channel: spec_channel(response.tagged_parameters),
            },
        ),
        FrameView::ProbeRequest(request) => if request.ssid.len() > 0 {
            store.probe_request(transmitter_address, request.ssid)
        } else {
            store
        },
        _ => store,
    }
}

/// The state after everything that `frame` shows of its sender
/// `transmitter_address` was recorded, at the time `now`: the connection
/// with the receiver, what the frame announces, one more frame sent, and
/// the signal strength `signal`, if there is one.
pub open spec fn spec_handle_transmitter(
    store: StoreView,
    frame: FrameView,
    signal: Option<i8>,
    transmitter_address: MacAddress,
    now: u64,
) -> StoreView {
    let counted = spec_record_announcement(
        spec_check_association(store, frame, transmitter_address),
        frame,
        transmitter_address,
        now,
    ).update_rate(transmitter_address, now);
    match signal {
        Some(signal) => counted.update_signal(transmitter_address, signal, now),
        None => counted,
    }
}

/// The state after `frame`, received with the signal strength `signal` at
/// the time `now`, was taken in, before the events are handed out.
///
/// The receiver is registered, then the sender, if the frame names one, and
/// all that the frame shows of it. Then the timers are looked at, whether
/// the frame names a sender or not.
pub open spec fn spec_handle_frame(
    store: StoreView,
    frame: FrameView,
    signal: Option<i8>,
    now: u64,
) -> StoreView {
    let received = match frame.basic_frame().receiver_address {
        Some(receiver_address) => store.add_address(receiver_address, now),
        None => store,
    };
    let sent = match frame.basic_frame().transmitter_address {
        Some(transmitter_address) => spec_handle_transmitter(
            received.add_address(transmitter_address, now),
            frame,
            signal,
            transmitter_address,
            now,
        ),
        None => received,
    };
    sent.check_timers(now)
}

fn check_association(store: &mut Store, frame: &Frame, transmitter_address: MacAddress)
    requires
        old(store).wf(),
    ensures
        final(store).wf(),
        final(store)@ == spec_check_association(old(store)@, frame@, transmitter_address),
{
    let basic_frame = frame.basic_frame();
    match basic_frame.receiver_address {
        Some(receiver_address) => {
            store.change_connection(
                transmitter_address,
                receiver_address,
                classify(&basic_frame.type_),
            );
        },
        None => {},
    }
}

fn handle_transmitter(
    store: &mut Store,
    frame_with_radiotap: &FrameWithRadiotap,
    transmitter_address: MacAddress,
    now: u64,
)
    requires
        old(store).wf(),
    ensures
        final(store).wf(),
        final(store)@ == spec_handle_transmitter(
            old(store)@,
            frame_with_radiotap.frame@,
            frame_with_radiotap.spec_signal(),
            transmitter_address,
            now,
        ),
{
    let frame = &frame_with_radiotap.frame;
    check_association(store, frame, transmitter_address);
    match frame {
        Frame::Beacon(beacon_frame) => {
            store.access_point(
                transmitter_address,
                AccessPointInfo {
                    ssid: slice_to_vec(beacon_frame.ssid.as_slice()),
                    channel: beacon_frame.tagged_parameters.channel(),
                },
            );
            store.update_beacon_quality_at(
                transmitter_address,
                beacon_frame.fixed_parameters.beacon_interval_micros(),
                now,
            );
        },
        Frame::ProbeResponse(probe_response_frame) => {
            store.access_point(
                transmitter_address,
                AccessPointInfo {
                    ssid: slice_to_vec(probe_response_frame.ssid.as_slice()),
                    channel: probe_response_frame.tagged_parameters.channel(),
                },
            );
        },
        Frame::ProbeRequest(probe_request_frame) => {
            if probe_request_frame.ssid.len() > 0 {
                store.probe_request(
                    transmitter_address,
                    slice_to_vec(probe_request_frame.ssid.as_slice()),
                );
            }
        },
        _ => {},
    }
    store.update_rate_at(transmitter_address, now);
    match frame_with_radiotap.signal() {
        Some(signal) => {
            store.update_signal_at(transmitter_address, signal, now);
        },
        None => {},
    }
}

/// Takes in one frame, received at the time `now`, and hands out the events
/// that it gives rise to, with any that were waiting before them.
pub fn handle_frame_at(store: &mut Store, frame_with_radiotap: &FrameWithRadiotap, now: u64) -> (events:
    Vec<Event>)
    requires
        old(store).wf(),
    ensures
        final(store).wf(),
        spec_events(events@) == spec_handle_frame(
            old(store)@,
            frame_with_radiotap.frame@,
            frame_with_radiotap.spec_signal(),
            now,
        ).buffer,
        final(store)@ == spec_handle_frame(
            old(store)@,
            frame_with_radiotap.frame@,
            frame_with_radiotap.spec_signal(),
            now,
        ).flush_buffer(),
{
    let basic_frame = frame_with_radiotap.frame.basic_frame();
    match basic_frame.receiver_address {
        Some(receiver_address) => {
            store.add_address_at(receiver_address, now);
        },
        None => {},
    }
    match basic_frame.transmitter_address {
        Some(transmitter_address) => {
            store.add_address_at(transmitter_address, now);
            handle_transmitter(store, frame_with_radiotap, transmitter_address, now);
        },
        None => {},
    }
    store.check_timers_at(now);
    store.flush_buffer()
}

/// Takes in one frame, received now by the store's clock, and hands out the
/// events that it gives rise to, with any that were waiting before them.
pub fn handle_frame(store: &mut Store, frame_with_radiotap: &FrameWithRadiotap) -> (events: Vec<
    Event,
>)
    requires
        old(store).wf(),
    ensures
        final(store).wf(),
        exists|now: u64|
            spec_events(events@) == spec_handle_frame(
                old(store)@,
                frame_with_radiotap.frame@,
                frame_with_radiotap.spec_signal(),
                now,
            ).buffer && final(store)@ == spec_handle_frame(
                old(store)@,
                frame_with_radiotap.frame@,
                frame_with_radiotap.spec_signal(),
                now,
            ).flush_buffer(),
{
    let now = store.now();
    handle_frame_at(store, frame_with_radiotap, now)
}

/// The signal strength in a radiotap header, where there is a header and it
/// has one.
pub open spec fn spec_signal_of(radiotap: Option<RadiotapInfo>) -> Option<i8> {
    match radiotap {
        Some(info) => info.antenna_signal,
        None => None,
    }
}

/// Takes in one captured packet, received at the time `now`: the `id`-th of
/// a capture that has radiotap headers or has none.
///
/// A packet that decodes is handled as `handle_frame_at` handles its frame.
/// One that does not changes nothing in the store, and a single event that
/// tells of the error is handed out.
pub fn handle_packet_at(
    store: &mut Store,
    id: u64,
    bytes: &[u8],
    is_radiotap: bool,
    now: u64,
) -> (events: Vec<Event>)
    requires
        old(store).wf(),
    ensures
        final(store).wf(),
        match FrameWithRadiotap::spec_decode(bytes@, is_radiotap) {
            Ok((frame, radiotap)) => spec_events(events@) == spec_handle_frame(
                old(store)@,
                frame,
                spec_signal_of(radiotap),
                now,
            ).buffer && final(store)@ == spec_handle_frame(
                old(store)@,
                frame,
                spec_signal_of(radiotap),
                now,
            ).flush_buffer(),
            Err(e) => final(store)@ == old(store)@ && spec_events(events@) == seq![
                EventView::Error(e.spec_message()),
            ],
        },
{
    match FrameWithRadiotap::decode(id, bytes, is_radiotap) {
        Ok(frame_with_radiotap) => handle_frame_at(store, &frame_with_radiotap, now),
        Err(e) => {
            let mut events: Vec<Event> = Vec::new();
            events.push(Event::Error(e.message()));
            assert(spec_events(events@) =~= seq![EventView::Error(e.spec_message())]);
            events
        },
    }
}

/// Takes in one captured packet, received now by the store's clock.
pub fn handle_packet(store: &mut Store, id: u64, bytes: &[u8], is_radiotap: bool) -> (events: Vec<
    Event,
>)
    requires
        old(store).wf(),
    ensures
        final(store).wf(),
        match FrameWithRadiotap::spec_decode(bytes@, is_radiotap) {
            Ok((frame, radiotap)) => exists|now: u64|
                spec_events(events@) == spec_handle_frame(
                    old(store)@,
                    frame,
                    spec_signal_of(radiotap),
                    now,
                ).buffer && final(store)@ == spec_handle_frame(
                    old(store)@,
                    frame,
                    spec_signal_of(radiotap),
                    now,
                ).flush_buffer(),
            Err(e) => final(store)@ == old(store)@ && spec_events(events@) == seq![
                EventView::Error(e.spec_message()),
            ],
        },
{
    let now = store.now();
    handle_packet_at(store, id, bytes, is_radiotap, now)
}

} // verus!
