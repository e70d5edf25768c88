//! The heat-pump controller: keeps the unit's reported state up to date from
//! incoming frames and decides which frame to send next.
//!
//! Time is a monotonic timestamp in nanoseconds, handed in by the caller;
//! only differences between timestamps matter.

use vstd::prelude::*;
use vstd::slice::slice_to_vec;

use crate::builder::{
    build_connect_packet, build_info_request_packet, build_remote_temp_packet,
    build_settings_packet, connect_frame, info_request_frame, remote_temp_frame, settings_frame,
};
use crate::parser::{Cn105Event, FrameParser};
use crate::types::{
    FanSpeed, HeatpumpSettings, HeatpumpStatus, Mode, Power, VanePosition, WantedSettings,
    WideVane,
};

verus! {

pub const NANOS_PER_SEC: i64 = 1_000_000_000;

/// Interval of the polling cycle; one query goes out every quarter of it.
pub const QUERY_INTERVAL_NANOS: i64 = 10_000_000_000;

/// A quarter of the query interval: the spacing of the polls.
pub const QUERY_STEP_NANOS: i64 = 2_500_000_000;

/// The remote temperature is repeated this often while it is set.
pub const REMOTE_TEMP_KEEPALIVE_NANOS: i64 = 20_000_000_000;

/// Handshakes are retried this often while the unit has not answered.
pub const CONNECT_TIMEOUT_NANOS: i64 = 5_000_000_000;

/// How long the timers are set back at start, so that all are due at once.
pub const STARTUP_BACKDATE_NANOS: i64 = 60_000_000_000;

/// Time elapsed from `earlier` to `now`, zero if `earlier` is later.
pub open spec fn elapsed(now: i64, earlier: i64) -> int {
    if now >= earlier {
        now - earlier
    } else {
        0
    }
}

fn elapsed_exceeds(now: i64, earlier: i64, limit: i64) -> (b: bool)
    requires
        limit >= 0,
    ensures
        b == (elapsed(now, earlier) > limit),
{
    if now >= earlier {
        (now as i128 - earlier as i128) > limit as i128
    } else {
        false
    }
}

/// The query codes of the polling cycle: settings, room temperature,
/// errors, operating status.
pub open spec fn query_code(index: u8) -> u8 {
    let i = index % 4;
    if i == 0 {
        0x02
    } else if i == 1 {
        0x03
    } else if i == 2 {
        0x04
    } else {
        0x06
    }
}

/// What decides the next outgoing frame.
pub struct Schedule {
    pub connected: bool,
    pub wanted: Option<WantedSettings>,
    pub remote: Option<i32>,
    pub last_query: i64,
    pub last_remote_temp_send: i64,
    pub last_connect_attempt: i64,
    pub query_index: u8,
}

/// The next outgoing frame and the schedule after it, in order of
/// priority: while not connected, a handshake once the connect timeout has
/// passed since the last attempt (nothing else); then queued wanted
/// settings, once; then the remote temperature once its keepalive interval
/// has passed; then the next query of the polling cycle once a quarter of
/// the query interval has passed; else nothing.
pub open spec fn next_outgoing(s: Schedule, now: i64) -> (Schedule, Option<Seq<u8>>) {
    if !s.connected {
        if elapsed(now, s.last_connect_attempt) > CONNECT_TIMEOUT_NANOS {
            (Schedule { last_connect_attempt: now, ..s }, Some(connect_frame(false)))
        } else {
            (s, None)
        }
    } else if s.wanted is Some {
        (Schedule { wanted: None, ..s }, Some(settings_frame(s.wanted->0)))
    } else if s.remote is Some && elapsed(now, s.last_remote_temp_send)
        > REMOTE_TEMP_KEEPALIVE_NANOS {
        (Schedule { last_remote_temp_send: now, ..s }, Some(remote_temp_frame(s.remote)))
    } else if elapsed(now, s.last_query) > QUERY_STEP_NANOS {
        (
            Schedule { last_query: now, query_index: ((s.query_index + 1) % 4) as u8, ..s },
            Some(info_request_frame(query_code(s.query_index))),
        )
    } else {
        (s, None)
    }
}

/// The state published to the outside: the unit's settings and readings
/// (temperatures in half degrees), whether a remote temperature is active,
/// and the whole seconds since the last state change.
#[derive(Debug, Clone, Copy, PartialEq, Eq, Structural)]
pub struct HvacPublishedState {
    pub connected: bool,
    pub power: Option<Power>,
    pub mode: Option<Mode>,
    pub target_temperature: Option<i64>,
    pub room_temperature: i64,
    pub outside_temperature: Option<i64>,
    pub fan_speed: Option<FanSpeed>,
    pub vane: Option<VanePosition>,
    pub wide_vane: Option<WideVane>,
    pub operating: bool,
    pub compressor_frequency: u8,
    pub input_power_watts: Option<u16>,
    pub energy_kwh_tenths: Option<u16>,
    pub runtime_minutes: Option<u32>,
    pub is_remote_temp_active: bool,
    pub last_updated_secs_ago: u64,
}

pub struct HvacController {
    pub settings: HeatpumpSettings,
    pub status: HeatpumpStatus,
    pub wanted_settings: Option<WantedSettings>,
    /// External room temperature in half degrees, if one is supplied.
    pub remote_temperature: Option<i32>,
    pub is_connected: bool,
    pub parser: FrameParser,
    pub last_query: i64,
    pub last_remote_temp_send: i64,
    pub last_connect_attempt: i64,
    pub last_state_change: i64,
    pub current_query_index: u8,
}

/// The status after a room temperature reading: the room temperature is
/// replaced, outside temperature and runtime only when reported.
pub open spec fn status_after_room_temp(
    st: HeatpumpStatus,
    room_temp: i64,
    outside_temp: Option<i64>,
    runtime_minutes: Option<u32>,
) -> HeatpumpStatus {
    HeatpumpStatus {
        room_temperature: room_temp,
        outside_temperature: if outside_temp is Some {
            outside_temp
        } else {
            st.outside_temperature
        },
        runtime_minutes: if runtime_minutes is Some {
            runtime_minutes
        } else {
            st.runtime_minutes
        },
        ..st
    }
}

/// The status after an operating status report: operation and compressor
/// frequency are replaced, power and energy only when reported.
pub open spec fn status_after_status(
    st: HeatpumpStatus,
    operating: bool,
    compressor_frequency: u8,
    input_power_w: Option<u16>,
    kwh_tenths: Option<u16>,
) -> HeatpumpStatus {
    HeatpumpStatus {
        operating,
        compressor_frequency,
        input_power_watts: if input_power_w is Some {
            input_power_w
        } else {
            st.input_power_watts
        },
        energy_kwh_tenths: if kwh_tenths is Some {
            kwh_tenths
        } else {
            st.energy_kwh_tenths
        },
        ..st
    }
}

impl HvacController {
    /// The part of the controller that decides what is sent next.
    pub open spec fn schedule(&self) -> Schedule {
        Schedule {
            connected: self.is_connected,
            wanted: self.wanted_settings,
            remote: self.remote_temperature,
            last_query: self.last_query,
            last_remote_temp_send: self.last_remote_temp_send,
            last_connect_attempt: self.last_connect_attempt,
            query_index: self.current_query_index,
        }
    }

    /// When the reported state last changed.
    pub open spec fn last_state_change(&self) -> i64 {
        self.last_state_change
    }

    pub open spec fn wf(&self) -> bool {
        &&& self.parser.wf()
        &&& self.schedule().query_index < 4
    }

    /// A controller that has not connected yet, with every timer already
    /// due at `now`.
    pub fn new(now: i64) -> (c: HvacController)
        requires
            now >= i64::MIN + STARTUP_BACKDATE_NANOS,
        ensures
            c.wf(),
            c.settings == HeatpumpSettings::empty(),
            c.status == HeatpumpStatus::empty(),
            c.wanted_settings is None,
            c.remote_temperature is None,
            !c.is_connected,
            c.parser.pending() is None,
            c.schedule() == (Schedule {
                connected: false,
                wanted: None,
                remote: None,
                last_query: (now - STARTUP_BACKDATE_NANOS) as i64,
                last_remote_temp_send: (now - STARTUP_BACKDATE_NANOS) as i64,
                last_connect_attempt: (now - STARTUP_BACKDATE_NANOS) as i64,
                query_index: 0,
            }),
            c.last_state_change() == now,
    {
        let past = now - STARTUP_BACKDATE_NANOS;
        HvacController {
            settings: HeatpumpSettings::default(),
            status: HeatpumpStatus::default(),
            wanted_settings: None,
            remote_temperature: None,
            is_connected: false,
            parser: FrameParser::new(),
            last_query: past,
            last_remote_temp_send: past,
            last_connect_attempt: past,
            last_state_change: now,
            current_query_index: 0,
        }
    }

    /// Processes one byte from the UART: returns the event of a frame it
    /// completes, after applying that event to the controller's state.
    /// Parse errors drop the frame and return `None`.
    pub fn on_uart_byte(&mut self, byte: u8, now: i64) -> (r: Option<Cn105Event>)
        requires
            old(self).wf(),
        ensures
            final(self).wf(),
            final(self).parser.pending() == crate::parser::next_pending(
                old(self).parser.pending(),
                byte,
            ),
            match r {
                Some(e) => {
                    &&& crate::parser::feed_result(
                        old(self).parser.pending(),
                        byte,
                        Ok::<Option<Cn105Event>, crate::parser::ParseError>(Some(e)),
                    )
                    &&& final(self).applied(old(self), e, now)
                },
                None => {
                    &&& forall|e: Cn105Event|
                        !#[trigger] crate::parser::feed_result(
                            old(self).parser.pending(),
                            byte,
                            Ok::<Option<Cn105Event>, crate::parser::ParseError>(Some(e)),
                        )
                    &&& final(self).unchanged_but_parser(old(self))
                },
            },
    {
        match self.parser.feed(byte) {
            Ok(Some(event)) => {
                self.handle_event(&event, now);
                Some(event)
            },
            Ok(None) => None,
            Err(_) => None,
        }
    }

    /// `self` is `old` apart from its parser.
    pub open spec fn unchanged_but_parser(&self, old: &HvacController) -> bool {
        &&& self.settings == old.settings
        &&& self.status == old.status
        &&& self.schedule() == old.schedule()
        &&& self.last_state_change() == old.last_state_change()
    }

    /// `self` is `old` (apart from its parser) with event `e`, received at
    /// `now`, applied: a connection reply marks the unit connected; a
    /// settings report replaces the settings and marks the unit connected;
    /// room temperature and status reports update the status; stage reports
    /// replace stage and sub-mode; the other events change nothing. Settings,
    /// room temperature and status reports stamp the state change time.
    pub open spec fn applied(&self, old: &HvacController, e: Cn105Event, now: i64) -> bool {
        let stamped = self.last_state_change() == now;
        let kept_stamp = self.last_state_change() == old.last_state_change();
        &&& self.wanted_settings == old.wanted_settings
        &&& self.remote_temperature == old.remote_temperature
        &&& self.schedule() == (Schedule { connected: self.is_connected, ..old.schedule() })
        &&& match e {
            Cn105Event::Connected { .. } => {
                &&& self.is_connected
                &&& self.settings == old.settings
                &&& self.status == old.status
                &&& kept_stamp
            },
            Cn105Event::Settings(s) => {
                &&& self.is_connected
                &&& self.settings == s
                &&& self.status == old.status
                &&& stamped
            },
            Cn105Event::RoomTemperature { room_temp, outside_temp, runtime_minutes } => {
                &&& self.is_connected == old.is_connected
                &&& self.settings == old.settings
                &&& self.status == status_after_room_temp(
                    old.status,
                    room_temp,
                    outside_temp,
                    runtime_minutes,
                )
                &&& stamped
            },
            Cn105Event::Status { operating, compressor_frequency, input_power_w, kwh_tenths } => {
                &&& self.is_connected == old.is_connected
                &&& self.settings == old.settings
                &&& self.status == status_after_status(
                    old.status,
                    operating,
                    compressor_frequency,
                    input_power_w,
                    kwh_tenths,
                )
                &&& stamped
            },
            Cn105Event::StagesAndModes { stage, sub_mode } => {
                &&& self.is_connected == old.is_connected
                &&& self.settings == old.settings
                &&& self.status == (HeatpumpStatus { stage, sub_mode, ..old.status })
                &&& kept_stamp
            },
            _ => {
                &&& self.is_connected == old.is_connected
                &&& self.settings == old.settings
                &&& self.status == old.status
                &&& kept_stamp
            },
        }
    }

    fn handle_event(&mut self, event: &Cn105Event, now: i64)
        requires
            old(self).wf(),
        ensures
            final(self).wf(),
            final(self).parser == old(self).parser,
            final(self).applied(old(self), *event, now),
    {
        match event {
            Cn105Event::Connected { installer: _ } => {
                self.is_connected = true;
            },
            Cn105Event::UpdateSuccess => {},
            Cn105Event::Settings(s) => {
                self.settings = *s;
                self.is_connected = true;
                self.last_state_change = now;
            },
            Cn105Event::RoomTemperature { room_temp, outside_temp, runtime_minutes } => {
                self.status.room_temperature = *room_temp;
                if outside_temp.is_some() {
                    self.status.outside_temperature = *outside_temp;
                }
                if runtime_minutes.is_some() {
                    self.status.runtime_minutes = *runtime_minutes;
                }
                self.last_state_change = now;
            },
            Cn105Event::Status { operating, compressor_frequency, input_power_w, kwh_tenths } => {
                self.status.operating = *operating;
                self.status.compressor_frequency = *compressor_frequency;
                if input_power_w.is_some() {
                    self.status.input_power_watts = *input_power_w;
                }
                if kwh_tenths.is_some() {
                    self.status.energy_kwh_tenths = *kwh_tenths;
                }
                self.last_state_change = now;
            },
            Cn105Event::StagesAndModes { stage, sub_mode } => {
                self.status.stage = *stage;
                self.status.sub_mode = *sub_mode;
            },
            Cn105Event::ErrorInfo { .. } => {},
            Cn105Event::Raw { .. } => {},
        }
    }

    /// Chooses the next frame to send at `now`, as `next_outgoing` says.
    pub fn get_next_outgoing_packet(&mut self, now: i64) -> (r: Option<Vec<u8>>)
        requires
            old(self).wf(),
        ensures
            final(self).wf(),
            (final(self).schedule(), match r {
                Some(v) => Some(v@),
                None => None,
            }) == next_outgoing(old(self).schedule(), now),
            final(self).settings == old(self).settings,
            final(self).status == old(self).status,
            final(self).parser == old(self).parser,
            final(self).last_state_change() == old(self).last_state_change(),
    {
        // While not connected, only handshakes go out.
        if !self.is_connected {
            if elapsed_exceeds(now, self.last_connect_attempt, CONNECT_TIMEOUT_NANOS) {
                self.last_connect_attempt = now;
                let p = build_connect_packet(false);
                return Some(slice_to_vec(p.as_slice()));
            }
            return None;
        }
        // Wanted settings first, and only once.
        if let Some(wanted) = self.wanted_settings.take() {
            let p = build_settings_packet(&wanted);
            return Some(slice_to_vec(p.as_slice()));
        }
        // Remote temperature keepalive.
        if self.remote_temperature.is_some() && elapsed_exceeds(
            now,
            self.last_remote_temp_send,
            REMOTE_TEMP_KEEPALIVE_NANOS,
        ) {
            self.last_remote_temp_send = now;
            let p = build_remote_temp_packet(self.remote_temperature);
            return Some(slice_to_vec(p.as_slice()));
        }
        // The polling cycle.
        if elapsed_exceeds(now, self.last_query, QUERY_STEP_NANOS) {
            self.last_query = now;
            let codes: [u8; 4] = [0x02, 0x03, 0x04, 0x06];
            let code = codes[(self.current_query_index % 4) as usize];
            self.current_query_index = (self.current_query_index + 1) % 4;
            let p = build_info_request_packet(code);
            return Some(slice_to_vec(p.as_slice()));
        }
        None
    }

    /// Queues wanted settings, replacing any still queued.
    pub fn queue_wanted_settings(&mut self, wanted: WantedSettings)
        requires
            old(self).wf(),
        ensures
            final(self).wf(),
            final(self).schedule() == (Schedule { wanted: Some(wanted), ..old(self).schedule() }),
            final(self).settings == old(self).settings,
            final(self).status == old(self).status,
            final(self).parser == old(self).parser,
            final(self).last_state_change() == old(self).last_state_change(),
    {
        self.wanted_settings = Some(wanted);
    }

    /// Sets or clears the remote temperature (half degrees) and makes its
    /// keepalive due at any time after `now`.
    pub fn set_remote_temperature(&mut self, temp: Option<i32>, now: i64)
        requires
            old(self).wf(),
            now >= i64::MIN + REMOTE_TEMP_KEEPALIVE_NANOS,
        ensures
            final(self).wf(),
            final(self).schedule() == (Schedule {
                remote: temp,
                last_remote_temp_send: (now - REMOTE_TEMP_KEEPALIVE_NANOS) as i64,
                ..old(self).schedule()
            }),
            final(self).settings == old(self).settings,
            final(self).status == old(self).status,
            final(self).parser == old(self).parser,
            final(self).last_state_change() == old(self).last_state_change(),
    {
        self.remote_temperature = temp;
        self.last_remote_temp_send = now - REMOTE_TEMP_KEEPALIVE_NANOS;
    }

    /// A snapshot of the controller for publishing.
    pub fn create_published_state(&self, now: i64) -> (p: HvacPublishedState)
        ensures
            p == (HvacPublishedState {
                connected: self.is_connected,
                power: self.settings.power,
                mode: self.settings.mode,
                target_temperature: self.settings.target_temperature,
                room_temperature: self.status.room_temperature,
                outside_temperature: self.status.outside_temperature,
                fan_speed: self.settings.fan_speed,
                vane: self.settings.vane,
                wide_vane: self.settings.wide_vane,
                operating: self.status.operating,
                compressor_frequency: self.status.compressor_frequency,
                input_power_watts: self.status.input_power_watts,
                energy_kwh_tenths: self.status.energy_kwh_tenths,
                runtime_minutes: self.status.runtime_minutes,
                is_remote_temp_active: self.remote_temperature is Some,
                last_updated_secs_ago: (elapsed(now, self.last_state_change()) / NANOS_PER_SEC as int) as u64,
            }),
    {
        let secs: u64 = if now >= self.last_state_change {
            ((now as i128 - self.last_state_change as i128) / (NANOS_PER_SEC as i128)) as u64
        } else {
            0
        };
        HvacPublishedState {
            connected: self.is_connected,
            power: self.settings.power,
            mode: self.settings.mode,
            target_temperature: self.settings.target_temperature,
            room_temperature: self.status.room_temperature,
            outside_temperature: self.status.outside_temperature,
            fan_speed: self.settings.fan_speed,
            vane: self.settings.vane,
            wide_vane: self.settings.wide_vane,
            operating: self.status.operating,
            compressor_frequency: self.status.compressor_frequency,
            input_power_watts: self.status.input_power_watts,
            energy_kwh_tenths: self.status.energy_kwh_tenths,
            runtime_minutes: self.status.runtime_minutes,
            is_remote_temp_active: self.remote_temperature.is_some(),
            last_updated_secs_ago: secs,
        }
    }
}

} // verus!

verus! {

/// Until the unit answers, only handshakes go out, at most one per connect
/// timeout, and sending never marks the controller connected.
pub proof fn lemma_handshake_first(s: Schedule, now: i64)
    requires
        !s.connected,
    ensures
        next_outgoing(s, now).1 is None || next_outgoing(s, now).1 == Some(connect_frame(false)),
        !next_outgoing(s, now).0.connected,
        next_outgoing(s, now).1 is Some ==> elapsed(now, s.last_connect_attempt)
            > CONNECT_TIMEOUT_NANOS,
        next_outgoing(s, now).1 is Some ==> next_outgoing(s, now).0.last_connect_attempt == now,
{
}

/// Queued wanted settings go out on the very next call once connected,
/// ahead of everything else, and only once.
pub proof fn lemma_wanted_settings_sent_once(s: Schedule, w: WantedSettings, now: i64, later: i64)
    requires
        s.connected,
        s.wanted == Some(w),
    ensures
        next_outgoing(s, now).1 == Some(settings_frame(w)),
        next_outgoing(s, now).0.wanted is None,
        is_settings_update(settings_frame(w)),
        next_outgoing(next_outgoing(s, now).0, later).1 matches Some(f) ==> !is_settings_update(f),
{
    let s1 = next_outgoing(s, now).0;
    assert(settings_frame(w)[1] == 0x41 && settings_frame(w)[5] == 0x01);
    assert(remote_temp_frame(s1.remote)[5] == 0x07);
    assert(info_request_frame(query_code(s1.query_index))[1] == 0x42);
}

/// A frame is a settings update command: SET (`0x41`) with code `0x01`.
pub open spec fn is_settings_update(f: Seq<u8>) -> bool {
    f.len() == 22 && f[1] == 0x41 && f[5] == 0x01
}

/// A remote temperature set at `now` goes out at any later time on a
/// connected controller with nothing queued.
pub proof fn lemma_remote_temperature_due(s: Schedule, h: i32, now: i64, later: i64)
    requires
        s.connected,
        s.wanted is None,
        s.remote == Some(h),
        now >= i64::MIN + REMOTE_TEMP_KEEPALIVE_NANOS,
        s.last_remote_temp_send == now - REMOTE_TEMP_KEEPALIVE_NANOS,
        later > now,
    ensures
        next_outgoing(s, later).1 == Some(remote_temp_frame(Some(h))),
        next_outgoing(s, later).0.last_remote_temp_send == later,
{
}

/// The polling cycle: on a connected controller with nothing queued and
/// no remote temperature, four polls spaced more than a quarter query
/// interval apart ask, in turn, for settings, room temperature, errors and
/// operating status, and the cycle starts over.
pub proof fn lemma_polling_cycle(s: Schedule, t1: i64, t2: i64, t3: i64, t4: i64)
    requires
        s.connected,
        s.wanted is None,
        s.remote is None,
        s.query_index == 0,
        t1 - s.last_query > QUERY_STEP_NANOS,
        t2 - t1 > QUERY_STEP_NANOS,
        t3 - t2 > QUERY_STEP_NANOS,
        t4 - t3 > QUERY_STEP_NANOS,
    ensures
        ({
            let (s1, p1) = next_outgoing(s, t1);
            let (s2, p2) = next_outgoing(s1, t2);
            let (s3, p3) = next_outgoing(s2, t3);
            let (s4, p4) = next_outgoing(s3, t4);
            &&& p1 == Some(info_request_frame(0x02))
            &&& p2 == Some(info_request_frame(0x03))
            &&& p3 == Some(info_request_frame(0x04))
            &&& p4 == Some(info_request_frame(0x06))
            &&& s4.query_index == 0
        }),
{
}

} // verus!

verus! {

/// Polling goes on whatever the remote temperature: on a connected
/// controller with nothing queued, when the remote temperature is unset or
/// its keepalive is not yet due (sent within the last 20 s), a poll is sent
/// as soon as more than 2.5 s have passed since the last query. Polls ask
/// in turn for settings (0x02), room temperature (0x03), errors (0x04) and
/// operating status (0x06), and move the cycle on by one.
pub proof fn lemma_polls_continue(s: Schedule, now: i64)
    requires
        s.connected,
        s.wanted is None,
        s.query_index < 4,
        s.remote is None || now - s.last_remote_temp_send <= REMOTE_TEMP_KEEPALIVE_NANOS,
        now - s.last_query > QUERY_STEP_NANOS,
    ensures
        next_outgoing(s, now).1 == Some(
            info_request_frame(
                if s.query_index == 0 {
                    0x02u8
                } else if s.query_index == 1 {
                    0x03u8
                } else if s.query_index == 2 {
                    0x04u8
                } else {
                    0x06u8
                },
            ),
        ),
        next_outgoing(s, now).0.last_query == now,
        next_outgoing(s, now).0.query_index == (s.query_index + 1) % 4,
        next_outgoing(s, now).0.remote == s.remote,
        next_outgoing(s, now).0.last_remote_temp_send == s.last_remote_temp_send,
{
}

/// Right after the remote temperature goes out, a due poll follows on the
/// next call: the keepalive never holds back the polling cycle.
pub proof fn lemma_remote_then_poll(s: Schedule, h: i32, t1: i64, t2: i64)
    requires
        s.connected,
        s.wanted is None,
        s.remote == Some(h),
        s.query_index < 4,
        t1 - s.last_remote_temp_send > REMOTE_TEMP_KEEPALIVE_NANOS,
        t1 <= t2,
        t2 - t1 <= REMOTE_TEMP_KEEPALIVE_NANOS,
        t2 - s.last_query > QUERY_STEP_NANOS,
    ensures
        next_outgoing(s, t1).1 == Some(remote_temp_frame(Some(h))),
        next_outgoing(next_outgoing(s, t1).0, t2).1 == Some(
            info_request_frame(query_code(s.query_index)),
        ),
{
}

} // verus!
