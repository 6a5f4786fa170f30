//! The device session: resolves battery features, reads and validates
//! battery reports, filters unsolicited events and keeps the last accepted
//! reading.
//!
//! The session performs no I/O. An operation is started with
//! [`LogitechDevice::get_battery`] or
//! [`LogitechDevice::enable_battery_notifications`]; each returned
//! [`Action::Exchange`] holds a long report the caller writes to the
//! transport, and the caller hands what it read back (within
//! [`EXCHANGE_TIMEOUT_MS`]) to [`LogitechDevice::on_response`], until an
//! [`Action::Done`] ends the operation.
use vstd::prelude::*;
use crate::hidpp::battery::{
    BatteryInfo, spec_unified, spec_status, spec_voltage, decipher_battery_unified,
    decipher_battery_status, decipher_battery_voltage, FEATURE_UNIFIED_BATTERY,
    FEATURE_BATTERY_STATUS, FEATURE_BATTERY_VOLTAGE, UNIFIED_BATTERY_GET_STATUS,
    HIDPP_LONG_REPORT,
};
use crate::hidpp::feature::{
    FeatureResolver, ResolveError, cache_key, discovery_frame, request_frame, response_view,
    spec_discovery_result, spec_feature_result, valid_feature_index, long_request,
    discovery_request, parse_feature_response, PAYLOAD_OFFSET, ROOT_FEATURE_INDEX,
};
use crate::hidpp::validation::{
    spec_plausible, spec_plausible_event, is_plausible, is_plausible_event,
};

verus! {

/// Timeout, in milliseconds, of the read that follows each request.
pub const EXCHANGE_TIMEOUT_MS: i32 = 1000;

/// Timeout, in milliseconds, of a passive event read.
pub const EVENT_TIMEOUT_MS: i32 = 10;

/// Shortest frame that can carry a battery event.
pub const MIN_EVENT_LEN: usize = 7;

/// Function of the status and voltage features that reads the battery.
pub const LEGACY_BATTERY_GET_STATUS: u8 = 0x00;

/// One of the three battery feature families, in order of preference.
#[derive(Debug, Clone, Copy, PartialEq, Eq, Structural)]
pub enum BatteryFamily {
    Unified,
    Status,
    Voltage,
}

pub open spec fn family_feature(f: BatteryFamily) -> u16 {
    match f {
        BatteryFamily::Unified => FEATURE_UNIFIED_BATTERY,
        BatteryFamily::Status => FEATURE_BATTERY_STATUS,
        BatteryFamily::Voltage => FEATURE_BATTERY_VOLTAGE,
    }
}

pub open spec fn family_function(f: BatteryFamily) -> u8 {
    match f {
        BatteryFamily::Unified => UNIFIED_BATTERY_GET_STATUS,
        _ => LEGACY_BATTERY_GET_STATUS,
    }
}

pub open spec fn family_decode(f: BatteryFamily, payload: Seq<u8>) -> Option<BatteryInfo> {
    match f {
        BatteryFamily::Unified => spec_unified(payload),
        BatteryFamily::Status => spec_status(payload),
        BatteryFamily::Voltage => spec_voltage(payload),
    }
}

impl BatteryFamily {
    /// Feature identifier of the family.
    pub fn feature_id(&self) -> (r: u16)
        ensures
            r == family_feature(*self),
    {
        match self {
            BatteryFamily::Unified => FEATURE_UNIFIED_BATTERY,
            BatteryFamily::Status => FEATURE_BATTERY_STATUS,
            BatteryFamily::Voltage => FEATURE_BATTERY_VOLTAGE,
        }
    }

    /// Function that reads the battery.
    pub fn function_id(&self) -> (r: u8)
        ensures
            r == family_function(*self),
    {
        match self {
            BatteryFamily::Unified => UNIFIED_BATTERY_GET_STATUS,
            _ => LEGACY_BATTERY_GET_STATUS,
        }
    }

    /// Decodes a payload in the family's report layout.
    pub fn decode(&self, payload: &[u8]) -> (r: Option<BatteryInfo>)
        ensures
            r == family_decode(*self, payload@),
    {
        match self {
            BatteryFamily::Unified => decipher_battery_unified(payload),
            BatteryFamily::Status => decipher_battery_status(payload),
            BatteryFamily::Voltage => decipher_battery_voltage(payload),
        }
    }
}

/// One attempt: a battery feature family on a device index.
#[derive(Debug, Clone, Copy, PartialEq, Eq, Structural)]
pub struct Probe {
    pub device_index: u8,
    pub family: BatteryFamily,
}

pub open spec fn probe_key(p: Probe) -> u32 {
    cache_key(p.device_index, family_feature(p.family))
}

/// The three probes of a device index, in order of preference.
pub open spec fn device_probes(d: u8) -> Seq<Probe> {
    seq![
        Probe { device_index: d, family: BatteryFamily::Unified },
        Probe { device_index: d, family: BatteryFamily::Status },
        Probe { device_index: d, family: BatteryFamily::Voltage },
    ]
}

/// Device indices tried by an active read, in order.
pub open spec fn candidate_devices() -> Seq<u8> {
    seq![0x01u8, 0xFFu8, 0x01u8, 0x02u8, 0x03u8, 0x04u8, 0x05u8, 0x06u8]
}

/// All probes of the candidate device indices.
pub open spec fn candidate_probes() -> Seq<Probe> {
    Seq::new(24, |i: int| device_probes(candidate_devices()[i / 3])[i % 3])
}

/// Probes of an active read: the known active device first, then the
/// candidates.
pub open spec fn read_plan(active: Option<u8>) -> Seq<Probe> {
    match active {
        Some(d) => device_probes(d) + candidate_probes(),
        None => candidate_probes(),
    }
}

/// Probes that enabling notifications tries: the unified feature, then
/// the status feature, each on the receiver's first slot and on the device
/// itself.
pub open spec fn enable_plan() -> Seq<Probe> {
    seq![
        Probe { device_index: 0x01, family: BatteryFamily::Unified },
        Probe { device_index: 0xFF, family: BatteryFamily::Unified },
        Probe { device_index: 0x01, family: BatteryFamily::Status },
        Probe { device_index: 0xFF, family: BatteryFamily::Status },
    ]
}

/// What an operation is for.
#[derive(Debug, Clone, Copy, PartialEq, Eq, Structural)]
pub enum Purpose {
    ReadBattery,
    EnableNotifications,
}

/// Where the current probe stands.
#[derive(Debug, Clone, Copy, PartialEq, Eq, Structural)]
pub enum Stage {
    /// Waiting for the answer to a GetFeature request.
    Resolving,
    /// Waiting for the answer to a battery request on this feature index.
    Requesting(u8),
}

/// Why an operation or a step failed.
#[derive(Debug, Clone, Copy, PartialEq, Eq, Structural)]
pub enum SessionError {
    /// No probe produced a reading and no reading was ever accepted.
    NoBatteryDevice,
    /// No battery feature answered.
    NoBatteryFeature,
    /// A response arrived while no operation was running.
    NothingPending,
}

/// How an operation ended.
#[derive(Debug, Clone, Copy, PartialEq, Eq, Structural)]
pub enum Outcome {
    /// A reading that decoded and passed validation; it is now the last
    /// accepted reading.
    Fresh(BatteryInfo),
    /// Every probe failed; this is the last accepted reading.
    Stale(BatteryInfo),
    /// A battery feature answered; its index now filters events.
    NotificationsEnabled,
    Failed(SessionError),
}

/// What the caller must do next.
#[derive(Debug, PartialEq, Eq)]
pub enum Action {
    /// Write this frame, read one response within [`EXCHANGE_TIMEOUT_MS`]
    /// and pass it to [`LogitechDevice::on_response`].
    Exchange(Vec<u8>),
    /// The operation is over.
    Done(Outcome),
}

pub enum ActionView {
    Exchange(Seq<u8>),
    Done(Outcome),
}

impl View for Action {
    type V = ActionView;

    open spec fn view(&self) -> ActionView {
        match self {
            Action::Exchange(f) => ActionView::Exchange(f@),
            Action::Done(o) => ActionView::Done(*o),
        }
    }
}

struct PendingOp {
    purpose: Purpose,
    plan: Vec<Probe>,
    pos: usize,
    stage: Stage,
}

/// A running operation.
pub struct PendingView {
    pub purpose: Purpose,
    pub plan: Seq<Probe>,
    pub pos: int,
    pub stage: Stage,
}

/// The session's state.
pub struct SessionView {
    /// Resolved feature indices by `cache_key`.
    pub cache: Map<u32, u8>,
    /// Device index that last produced an accepted reading.
    pub active: Option<u8>,
    /// Last accepted reading.
    pub last: Option<BatteryInfo>,
    /// When the last reading was accepted.
    pub last_time: Option<u64>,
    /// Feature index whose events carry battery reports.
    pub battery_index: Option<u8>,
    pub pending: Option<PendingView>,
}

/// How an operation ends once its probes are exhausted.
pub open spec fn give_up(s: SessionView, purpose: Purpose) -> Outcome {
    match purpose {
        Purpose::ReadBattery => match s.last {
            Some(b) => Outcome::Stale(b),
            None => Outcome::Failed(SessionError::NoBatteryDevice),
        },
        Purpose::EnableNotifications => Outcome::Failed(SessionError::NoBatteryFeature),
    }
}

/// Probe `pos` with a known feature index: send the battery request.
pub open spec fn request_probe(s: SessionView, purpose: Purpose, plan: Seq<Probe>, pos: int, fi: u8) -> (
    SessionView,
    ActionView,
) {
    let p = plan[pos];
    (
        SessionView {
            battery_index: if purpose == Purpose::EnableNotifications {
                Some(fi)
            } else {
                s.battery_index
            },
            pending: Some(PendingView { purpose, plan, pos, stage: Stage::Requesting(fi) }),
            ..s
        },
        ActionView::Exchange(request_frame(p.device_index, fi, family_function(p.family), seq![])),
    )
}

/// Move to probe `pos`: finish when none is left, skip discovery when the
/// feature index is cached.
pub open spec fn enter_probe(s: SessionView, purpose: Purpose, plan: Seq<Probe>, pos: int) -> (
    SessionView,
    ActionView,
) {
    if pos >= plan.len() {
        (SessionView { pending: None, ..s }, ActionView::Done(give_up(s, purpose)))
    } else {
        let p = plan[pos];
        if s.cache.contains_key(probe_key(p)) {
            request_probe(s, purpose, plan, pos, s.cache[probe_key(p)])
        } else {
            (
                SessionView {
                    pending: Some(PendingView { purpose, plan, pos, stage: Stage::Resolving }),
                    ..s
                },
                ActionView::Exchange(discovery_frame(p.device_index, family_feature(p.family))),
            )
        }
    }
}

/// The step a response causes.
pub open spec fn respond(s: SessionView, response: Option<Seq<u8>>, now: u64) -> (
    SessionView,
    ActionView,
) {
    match s.pending {
        None => (s, ActionView::Done(Outcome::Failed(SessionError::NothingPending))),
        Some(op) => {
            let p = op.plan[op.pos];
            match op.stage {
                Stage::Resolving => match spec_discovery_result(response) {
                    Ok(fi) => request_probe(
                        SessionView { cache: s.cache.insert(probe_key(p), fi), ..s },
                        op.purpose,
                        op.plan,
                        op.pos,
                        fi,
                    ),
                    Err(_) => enter_probe(s, op.purpose, op.plan, op.pos + 1),
                },
                Stage::Requesting(_) => match spec_feature_result(response) {
                    Err(_) => enter_probe(s, op.purpose, op.plan, op.pos + 1),
                    Ok(payload) => match op.purpose {
                        Purpose::EnableNotifications => (
                            SessionView { active: Some(p.device_index), pending: None, ..s },
                            ActionView::Done(Outcome::NotificationsEnabled),
                        ),
                        Purpose::ReadBattery => match family_decode(p.family, payload) {
                            Some(b) => if spec_plausible(b, s.last) {
                                (
                                    SessionView {
                                        active: Some(p.device_index),
                                        last: Some(b),
                                        last_time: Some(now),
                                        pending: None,
                                        ..s
                                    },
                                    ActionView::Done(Outcome::Fresh(b)),
                                )
                            } else {
                                enter_probe(s, op.purpose, op.plan, op.pos + 1)
                            },
                            None => enter_probe(s, op.purpose, op.plan, op.pos + 1),
                        },
                    },
                },
            }
        },
    }
}

/// The reading an unsolicited frame carries, if the event path accepts it:
/// a long report of at least [`MIN_EVENT_LEN`] bytes from the battery
/// feature index, whose payload decodes in the unified layout and passes
/// the event-path transition rule.
pub open spec fn event_reading(s: SessionView, frame: Seq<u8>) -> Option<BatteryInfo> {
    if frame.len() < MIN_EVENT_LEN || frame[0] != HIDPP_LONG_REPORT {
        None
    } else {
        match s.battery_index {
            None => None,
            Some(bi) => if frame[2] != bi {
                None
            } else {
                match spec_unified(frame.subrange(PAYLOAD_OFFSET as int, frame.len() as int)) {
                    Some(b) => if spec_plausible_event(b, s.last) {
                        Some(b)
                    } else {
                        None
                    },
                    None => None,
                }
            },
        }
    }
}

/// The session after the event path has seen `frame`.
pub open spec fn listen_step(s: SessionView, frame: Seq<u8>, now: u64) -> SessionView {
    match event_reading(s, frame) {
        Some(b) => SessionView { last: Some(b), last_time: Some(now), ..s },
        None => s,
    }
}

/// The session after the event path has seen each of `frames` in turn.
pub open spec fn listen_each(s: SessionView, frames: Seq<Seq<u8>>, now: u64) -> SessionView
    decreases frames.len(),
{
    if frames.len() == 0 {
        s
    } else {
        listen_each(listen_step(s, frames[0], now), frames.drop_first(), now)
    }
}

/// Whether the unified decoder rejects what a frame carries after its header.
pub open spec fn payload_rejected(frame: Seq<u8>) -> bool {
    frame.len() < PAYLOAD_OFFSET || spec_unified(frame.subrange(PAYLOAD_OFFSET as int, frame.len() as int))
        is None
}

/// Any number of frames whose payload the unified decoder rejects (255%
/// with status 0xFF, say) leave the session exactly as it was: in
/// particular the last accepted reading stays.
pub proof fn lemma_rejected_events_keep_state(s: SessionView, frames: Seq<Seq<u8>>, now: u64)
    requires
        forall|i: int| 0 <= i < frames.len() ==> payload_rejected(#[trigger] frames[i]),
    ensures
        listen_each(s, frames, now) == s,
        listen_each(s, frames, now).last == s.last,
    decreases frames.len(),
{
    if frames.len() > 0 {
        assert(payload_rejected(frames[0]));
        assert(event_reading(s, frames[0]) is None);
        let rest = frames.drop_first();
        assert forall|i: int| 0 <= i < rest.len() implies payload_rejected(#[trigger] rest[i]) by {
            assert(rest[i] == frames[i + 1]);
        }
        lemma_rejected_events_keep_state(s, rest, now);
    }
}

/// The last accepted reading only changes when a response yields a fresh
/// reading, which then decoded from the probe's payload and passed the
/// transition rule against the reading it replaces.
pub proof fn lemma_last_changes_only_on_fresh_reading(s: SessionView, response: Option<Seq<u8>>, now: u64)
    requires
        s.pending matches Some(op) ==> 0 <= op.pos < op.plan.len(),
    ensures
        respond(s, response, now).0.last != s.last ==> {
            &&& respond(s, response, now).1 matches ActionView::Done(Outcome::Fresh(b))
            &&& respond(s, response, now).0.last == Some(b)
            &&& spec_plausible(b, s.last)
        },
{
}

/// A probe whose (device index, feature) pair is already resolved goes
/// straight to the battery request on the cached index: no second
/// GetFeature exchange is made for the pair.
pub proof fn lemma_resolved_pair_skips_discovery(s: SessionView, purpose: Purpose, plan: Seq<Probe>, pos: int)
    requires
        0 <= pos < plan.len(),
        forall|k: u32| #[trigger] s.cache.contains_key(k) ==> valid_feature_index(s.cache[k]),
        s.cache.contains_key(probe_key(plan[pos])),
    ensures
        enter_probe(s, purpose, plan, pos).1 == ActionView::Exchange(
            request_frame(
                plan[pos].device_index,
                s.cache[probe_key(plan[pos])],
                family_function(plan[pos].family),
                seq![],
            ),
        ),
        enter_probe(s, purpose, plan, pos).1 != ActionView::Exchange(
            discovery_frame(plan[pos].device_index, family_feature(plan[pos].family)),
        ),
        enter_probe(s, purpose, plan, pos).0.cache == s.cache,
{
    let p = plan[pos];
    let fi = s.cache[probe_key(p)];
    let req = request_frame(p.device_index, fi, family_function(p.family), seq![]);
    let disc = discovery_frame(p.device_index, family_feature(p.family));
    assert(req[2] == fi);
    assert(disc[2] == ROOT_FEATURE_INDEX);
}

/// A successful GetFeature answer caches the pair's index, so every later
/// probe of the same pair skips discovery.
pub proof fn lemma_resolution_is_cached(s: SessionView, response: Option<Seq<u8>>, now: u64)
    requires
        s.pending matches Some(op) && 0 <= op.pos < op.plan.len() && op.stage == Stage::Resolving,
        spec_discovery_result(response) is Ok,
    ensures
        ({
            let op = s.pending->0;
            let k = probe_key(op.plan[op.pos]);
            &&& respond(s, response, now).0.cache.contains_key(k)
            &&& respond(s, response, now).0.cache[k] == spec_discovery_result(response)->Ok_0
        }),
{
}

/// The HID++ session with one opened receiver or device.
pub struct LogitechDevice {
    resolver: FeatureResolver,
    active_device_index: Option<u8>,
    last_valid_battery: Option<BatteryInfo>,
    last_update_time: Option<u64>,
    battery_feature_index: Option<u8>,
    pending: Option<PendingOp>,
}

impl View for LogitechDevice {
    type V = SessionView;

    closed spec fn view(&self) -> SessionView {
        SessionView {
            cache: self.resolver@,
            active: self.active_device_index,
            last: self.last_valid_battery,
            last_time: self.last_update_time,
            battery_index: self.battery_feature_index,
            pending: match self.pending {
                None => None,
                Some(op) => Some(
                    PendingView { purpose: op.purpose, plan: op.plan@, pos: op.pos as int, stage: op.stage },
                ),
            },
        }
    }
}

/// The longest plan an operation runs.
pub const MAX_PLAN_LEN: usize = 27;

impl LogitechDevice {
    /// The session's internal consistency: cached indices are valid and a
    /// running operation stands on one of its probes.
    pub closed spec fn wf(&self) -> bool {
        &&& self.resolver.wf()
        &&& match self.pending {
            None => true,
            Some(op) => op.pos < op.plan.len() && op.plan.len() <= MAX_PLAN_LEN,
        }
    }

    /// A session with nothing resolved and nothing read.
    pub fn new() -> (r: LogitechDevice)
        ensures
            r.wf(),
            r@.cache == Map::<u32, u8>::empty(),
            r@.active is None,
            r@.last is None,
            r@.last_time is None,
            r@.battery_index is None,
            r@.pending is None,
    {
        LogitechDevice {
            resolver: FeatureResolver::new(),
            active_device_index: None,
            last_valid_battery: None,
            last_update_time: None,
            battery_feature_index: None,
            pending: None,
        }
    }

    fn outcome_when_exhausted(&self, purpose: Purpose) -> (r: Outcome)
        ensures
            r == give_up(self@, purpose),
    {
        match purpose {
            Purpose::ReadBattery => match self.last_valid_battery {
                Some(b) => Outcome::Stale(b),
                None => Outcome::Failed(SessionError::NoBatteryDevice),
            },
            Purpose::EnableNotifications => Outcome::Failed(SessionError::NoBatteryFeature),
        }
    }

    fn request_probe(&mut self, purpose: Purpose, plan: Vec<Probe>, pos: usize, fi: u8) -> (a: Action)
        requires
            old(self).wf(),
            pos < plan.len(),
            plan.len() <= MAX_PLAN_LEN,
        ensures
            final(self).wf(),
            (final(self)@, a@) == request_probe(old(self)@, purpose, plan@, pos as int, fi),
    {
        let p = plan[pos];
        if purpose == Purpose::EnableNotifications {
            self.battery_feature_index = Some(fi);
        }
        let no_params: [u8; 0] = [];
        let frame = long_request(p.device_index, fi, p.family.function_id(), no_params.as_slice());
        assert(no_params@ =~= Seq::<u8>::empty());
        self.pending = Some(PendingOp { purpose, plan, pos, stage: Stage::Requesting(fi) });
        Action::Exchange(frame)
    }

    fn enter_probe(&mut self, purpose: Purpose, plan: Vec<Probe>, pos: usize) -> (a: Action)
        requires
            old(self).wf(),
            pos <= plan.len(),
            plan.len() <= MAX_PLAN_LEN,
        ensures
            final(self).wf(),
            (final(self)@, a@) == enter_probe(old(self)@, purpose, plan@, pos as int),
    {
        if pos >= plan.len() {
            self.pending = None;
            return Action::Done(self.outcome_when_exhausted(purpose));
        }
        let p = plan[pos];
        match self.resolver.cached(p.device_index, p.family.feature_id()) {
            Some(fi) => self.request_probe(purpose, plan, pos, fi),
            None => {
                let frame = discovery_request(p.device_index, p.family.feature_id());
                self.pending = Some(PendingOp { purpose, plan, pos, stage: Stage::Resolving });
                Action::Exchange(frame)
            },
        }
    }

    /// Starts an active battery read: the known active device first, then
    /// every candidate device index, each with the unified, status and
    /// voltage features in turn, until a reading decodes and passes the
    /// transition rule. A running operation is abandoned.
    pub fn get_battery(&mut self) -> (a: Action)
        requires
            old(self).wf(),
        ensures
            final(self).wf(),
            (final(self)@, a@) == enter_probe(
                old(self)@,
                Purpose::ReadBattery,
                read_plan(old(self)@.active),
                0,
            ),
    {
        let mut plan: Vec<Probe> = Vec::new();
        if let Some(d) = self.active_device_index {
            push_device_probes(&mut plan, d);
        }
        let ghost prefix = plan@;
        push_device_probes(&mut plan, 0x01);
        push_device_probes(&mut plan, 0xFF);
        push_device_probes(&mut plan, 0x01);
        push_device_probes(&mut plan, 0x02);
        push_device_probes(&mut plan, 0x03);
        push_device_probes(&mut plan, 0x04);
        push_device_probes(&mut plan, 0x05);
        push_device_probes(&mut plan, 0x06);
        assert(plan@.subrange(prefix.len() as int, plan@.len() as int) =~= candidate_probes());
        assert(plan@ =~= read_plan(self.active_device_index));
        self.enter_probe(Purpose::ReadBattery, plan, 0)
    }

    /// Starts resolving the battery feature whose events will be accepted:
    /// the unified feature on device indices 0x01 and 0xFF, then the status
    /// feature on the same two. The first one that answers a battery
    /// request becomes the event filter and the active device. A running
    /// operation is abandoned.
    pub fn enable_battery_notifications(&mut self) -> (a: Action)
        requires
            old(self).wf(),
        ensures
            final(self).wf(),
            (final(self)@, a@) == enter_probe(old(self)@, Purpose::EnableNotifications, enable_plan(), 0),
    {
        let mut plan: Vec<Probe> = Vec::new();
        plan.push(Probe { device_index: 0x01, family: BatteryFamily::Unified });
        plan.push(Probe { device_index: 0xFF, family: BatteryFamily::Unified });
        plan.push(Probe { device_index: 0x01, family: BatteryFamily::Status });
        plan.push(Probe { device_index: 0xFF, family: BatteryFamily::Status });
        assert(plan@ =~= enable_plan());
        self.enter_probe(Purpose::EnableNotifications, plan, 0)
    }

    /// Consumes the response to the last [`Action::Exchange`]: `None` when
    /// the write or the read failed, else the bytes read (empty on timeout).
    /// `now` stamps a reading accepted by this step.
    pub fn on_response(&mut self, response: Option<Vec<u8>>, now: u64) -> (a: Action)
        requires
            old(self).wf(),
        ensures
            final(self).wf(),
            (final(self)@, a@) == respond(old(self)@, response_view(response), now),
    {
        let ghost s0 = self@;
        let op = match self.pending.take() {
            None => return Action::Done(Outcome::Failed(SessionError::NothingPending)),
            Some(op) => op,
        };
        assert(self@ == SessionView { pending: None, ..s0 });
        let PendingOp { purpose, plan, pos, stage } = op;
        let p = plan[pos];
        match stage {
            Stage::Resolving => {
                match self.resolver.finish_resolve(p.device_index, p.family.feature_id(), &response) {
                    Ok(fi) => self.request_probe(purpose, plan, pos, fi),
                    Err(_) => self.enter_probe(purpose, plan, pos + 1),
                }
            },
            Stage::Requesting(_) => {
                let payload = match parse_feature_response(&response) {
                    Err(_) => return self.enter_probe(purpose, plan, pos + 1),
                    Ok(payload) => payload,
                };
                match purpose {
                    Purpose::EnableNotifications => {
                        self.active_device_index = Some(p.device_index);
                        Action::Done(Outcome::NotificationsEnabled)
                    },
                    Purpose::ReadBattery => {
                        match p.family.decode(payload.as_slice()) {
                            Some(b) => {
                                if is_plausible(&b, &self.last_valid_battery) {
                                    self.active_device_index = Some(p.device_index);
                                    self.last_valid_battery = Some(b);
                                    self.last_update_time = Some(now);
                                    Action::Done(Outcome::Fresh(b))
                                } else {
                                    self.enter_probe(purpose, plan, pos + 1)
                                }
                            },
                            None => self.enter_probe(purpose, plan, pos + 1),
                        }
                    },
                }
            },
        }
    }

    /// Passive listening: takes the frame one short read produced (empty
    /// when nothing arrived) and returns the battery reading it carries, if
    /// the event path accepts it; an accepted reading becomes the last
    /// accepted one, stamped with `now`. Without a known battery feature
    /// index every frame is ignored.
    pub fn listen_for_battery_events(&mut self, frame: &[u8], now: u64) -> (r: Option<BatteryInfo>)
        ensures
            r == event_reading(old(self)@, frame@),
            final(self)@ == listen_step(old(self)@, frame@, now),
            final(self).wf() == old(self).wf(),
    {
        if frame.len() < MIN_EVENT_LEN || frame[0] != HIDPP_LONG_REPORT {
            return None;
        }
        let bat_idx = match self.battery_feature_index {
            None => return None,
            Some(bi) => bi,
        };
        // Frames of other features (input, link status) are not battery data.
        if frame[2] != bat_idx {
            return None;
        }
        let payload = slice_from(frame, PAYLOAD_OFFSET);
        let battery = match decipher_battery_unified(payload.as_slice()) {
            None => return None,
            Some(b) => b,
        };
        if !is_plausible_event(&battery, &self.last_valid_battery) {
            return None;
        }
        self.last_valid_battery = Some(battery);
        self.last_update_time = Some(now);
        Some(battery)
    }

    /// Index of the battery feature whose events are accepted.
    pub fn get_battery_feature_index(&self) -> (r: Option<u8>)
        ensures
            r == self@.battery_index,
    {
        self.battery_feature_index
    }

    /// Same as [`LogitechDevice::get_battery_feature_index`].
    pub fn get_battery_feature_index_for_test(&self) -> (r: Option<u8>)
        ensures
            r == self@.battery_index,
    {
        self.battery_feature_index
    }

    /// The last accepted reading.
    pub fn get_last_valid_battery(&self) -> (r: Option<&BatteryInfo>)
        ensures
            match r {
                Some(b) => self@.last == Some(*b),
                None => self@.last is None,
            },
    {
        self.last_valid_battery.as_ref()
    }

    /// When the last reading was accepted, as passed by the caller.
    pub fn last_update_time(&self) -> (r: Option<u64>)
        ensures
            r == self@.last_time,
    {
        self.last_update_time
    }

    /// Device index that last produced an accepted reading.
    pub fn active_device_index(&self) -> (r: Option<u8>)
        ensures
            r == self@.active,
    {
        self.active_device_index
    }

    /// Whether `new_battery` may follow the last accepted reading on the
    /// active-read path.
    pub fn check_battery_change_validity(&self, new_battery: &BatteryInfo) -> (r: bool)
        ensures
            r == spec_plausible(*new_battery, self@.last),
    {
        is_plausible(new_battery, &self.last_valid_battery)
    }

    /// Replaces the last accepted reading.
    pub fn set_last_valid_battery(&mut self, battery: BatteryInfo)
        ensures
            final(self)@ == (SessionView { last: Some(battery), ..old(self)@ }),
            final(self).wf() == old(self).wf(),
    {
        self.last_valid_battery = Some(battery);
    }

    /// Whether a reading was ever accepted.
    pub fn has_cached_battery(&self) -> (r: bool)
        ensures
            r == self@.last is Some,
    {
        self.last_valid_battery.is_some()
    }
}

/// Appends the three probes of device index `d`.
fn push_device_probes(plan: &mut Vec<Probe>, d: u8)
    requires
        old(plan).len() + 3 <= MAX_PLAN_LEN,
    ensures
        final(plan)@ == old(plan)@ + device_probes(d),
{
    plan.push(Probe { device_index: d, family: BatteryFamily::Unified });
    plan.push(Probe { device_index: d, family: BatteryFamily::Status });
    plan.push(Probe { device_index: d, family: BatteryFamily::Voltage });
    assert(plan@ =~= old(plan)@ + device_probes(d));
}

/// Copies `s[from..]`.
fn slice_from(s: &[u8], from: usize) -> (r: Vec<u8>)
    requires
        from <= s.len(),
    ensures
        r@ == s@.subrange(from as int, s@.len() as int),
{
    let mut out: Vec<u8> = Vec::new();
    let mut i: usize = from;
    while i < s.len()
        invariant
            from <= i <= s.len(),
            out@ =~= s@.subrange(from as int, i as int),
        decreases s.len() - i,
    {
        out.push(s[i]);
        i = i + 1;
    }
    out
}

} // verus!
