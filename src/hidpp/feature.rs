//! Long-report framing and the memoized feature resolver.
use vstd::prelude::*;
use std::collections::HashMap;
use crate::hidpp::battery::HIDPP_LONG_REPORT;

verus! {

broadcast use vstd::std_specs::hash::group_hash_axioms;

/// Length in bytes of a long report.
pub const LONG_REPORT_LEN: usize = 20;

/// Offset of the first payload byte in a long report.
pub const PAYLOAD_OFFSET: usize = 4;

/// Feature index of the root feature; also the "absent" answer.
pub const ROOT_FEATURE_INDEX: u8 = 0x00;

/// Reserved feature index that no feature may take.
pub const NULL_FEATURE_INDEX: u8 = 0xFF;

/// Feature-index byte of an HID++ 2.0 error response.
pub const ERROR_SENTINEL: u8 = 0x8F;

/// Root feature function GetFeature.
pub const ROOT_GET_FEATURE: u8 = 0x00;

/// Shortest acceptable answer to a GetFeature request.
pub const MIN_DISCOVERY_RESPONSE: usize = 7;

/// Shortest acceptable answer to a feature request.
pub const MIN_FEATURE_RESPONSE: usize = 4;

/// Why a wire exchange produced no usable answer.
#[derive(Debug, Clone, Copy, PartialEq, Eq, Structural)]
pub enum ResolveError {
    /// The write or the read failed.
    NoResponse,
    /// Fewer bytes than the exchange needs; carries the count read.
    ShortResponse(usize),
    /// The device answered with an error frame; carries its error code.
    DeviceError(u8),
    /// The device named the root or the null index as the feature's index.
    InvalidIndex(u8),
}

/// Byte `i` of a long request frame.
pub open spec fn request_byte(device_idx: u8, feature_idx: u8, function: u8, params: Seq<u8>, i: int) -> u8 {
    if i == 0 {
        HIDPP_LONG_REPORT
    } else if i == 1 {
        device_idx
    } else if i == 2 {
        feature_idx
    } else if i == 3 {
        function
    } else if i - 4 < params.len() {
        params[i - 4]
    } else {
        0
    }
}

/// A long request frame: header, then `params` (cut to the frame), then zeros.
pub open spec fn request_frame(device_idx: u8, feature_idx: u8, function: u8, params: Seq<u8>) -> Seq<u8> {
    Seq::new(LONG_REPORT_LEN as nat, |i: int| request_byte(device_idx, feature_idx, function, params, i))
}

/// Big-endian bytes of a feature identifier.
pub open spec fn feature_id_bytes(feature: u16) -> Seq<u8> {
    seq![(feature / 256) as u8, (feature % 256) as u8]
}

/// The GetFeature request that asks `device_idx` for the index of `feature`.
pub open spec fn discovery_frame(device_idx: u8, feature: u16) -> Seq<u8> {
    request_frame(device_idx, ROOT_FEATURE_INDEX, ROOT_GET_FEATURE, feature_id_bytes(feature))
}

/// Whether a response's feature-index byte marks it as an error frame.
pub open spec fn is_error_frame(r: Seq<u8>) -> bool {
    r[2] == ERROR_SENTINEL || r[2] == NULL_FEATURE_INDEX
}

/// A feature index that a resolution may yield.
pub open spec fn valid_feature_index(fi: u8) -> bool {
    fi != ROOT_FEATURE_INDEX && fi != NULL_FEATURE_INDEX
}

/// Outcome of a GetFeature exchange (`None`: nothing was exchanged).
pub open spec fn spec_discovery_result(response: Option<Seq<u8>>) -> Result<u8, ResolveError> {
    match response {
        None => Err(ResolveError::NoResponse),
        Some(r) => if r.len() < MIN_DISCOVERY_RESPONSE {
            Err(ResolveError::ShortResponse(r.len() as usize))
        } else if is_error_frame(r) {
            Err(ResolveError::DeviceError(r[3]))
        } else if !valid_feature_index(r[4]) {
            Err(ResolveError::InvalidIndex(r[4]))
        } else {
            Ok(r[4])
        },
    }
}

/// Outcome of a feature request: the payload after the four header bytes.
pub open spec fn spec_feature_result(response: Option<Seq<u8>>) -> Result<Seq<u8>, ResolveError> {
    match response {
        None => Err(ResolveError::NoResponse),
        Some(r) => if r.len() < MIN_FEATURE_RESPONSE {
            Err(ResolveError::ShortResponse(r.len() as usize))
        } else if is_error_frame(r) {
            Err(ResolveError::DeviceError(r[3]))
        } else {
            Ok(r.subrange(PAYLOAD_OFFSET as int, r.len() as int))
        },
    }
}

/// The view of an optional response.
pub open spec fn response_view(response: Option<Vec<u8>>) -> Option<Seq<u8>> {
    match response {
        None => None,
        Some(v) => Some(v@),
    }
}

/// Builds a long request frame addressed to `device_idx`; parameters past
/// the end of the frame are dropped.
pub fn long_request(device_idx: u8, feature_idx: u8, function: u8, params: &[u8]) -> (r: Vec<u8>)
    ensures
        r@ == request_frame(device_idx, feature_idx, function, params@),
{
    let mut frame: Vec<u8> = Vec::new();
    let mut i: usize = 0;
    while i < LONG_REPORT_LEN
        invariant
            i <= LONG_REPORT_LEN,
            frame@ =~= Seq::new(i as nat, |j: int| request_byte(device_idx, feature_idx, function, params@, j)),
        decreases LONG_REPORT_LEN - i,
    {
        let byte = if i == 0 {
            HIDPP_LONG_REPORT
        } else if i == 1 {
            device_idx
        } else if i == 2 {
            feature_idx
        } else if i == 3 {
            function
        } else if i - 4 < params.len() {
            params[i - 4]
        } else {
            0
        };
        frame.push(byte);
        i = i + 1;
    }
    frame
}

/// Builds the GetFeature request for `feature` on `device_idx`: root
/// feature index, big-endian feature identifier as payload.
pub fn discovery_request(device_idx: u8, feature: u16) -> (r: Vec<u8>)
    ensures
        r@ == discovery_frame(device_idx, feature),
{
    let id = [(feature / 256) as u8, (feature % 256) as u8];
    assert(id@ =~= feature_id_bytes(feature));
    long_request(device_idx, ROOT_FEATURE_INDEX, ROOT_GET_FEATURE, id.as_slice())
}

/// Reads the feature index out of a GetFeature response.
pub fn parse_discovery_response(response: &Option<Vec<u8>>) -> (r: Result<u8, ResolveError>)
    ensures
        r == spec_discovery_result(response_view(*response)),
        r matches Ok(fi) ==> valid_feature_index(fi),
{
    match response {
        None => Err(ResolveError::NoResponse),
        Some(resp) => {
            if resp.len() < MIN_DISCOVERY_RESPONSE {
                return Err(ResolveError::ShortResponse(resp.len()));
            }
            if resp[2] == ERROR_SENTINEL || resp[2] == NULL_FEATURE_INDEX {
                return Err(ResolveError::DeviceError(resp[3]));
            }
            let feature_index = resp[4];
            if feature_index == ROOT_FEATURE_INDEX || feature_index == NULL_FEATURE_INDEX {
                return Err(ResolveError::InvalidIndex(feature_index));
            }
            Ok(feature_index)
        },
    }
}

/// Reads the payload out of a feature request's response.
pub fn parse_feature_response(response: &Option<Vec<u8>>) -> (r: Result<Vec<u8>, ResolveError>)
    ensures
        match r {
            Ok(payload) => spec_feature_result(response_view(*response)) == Ok::<Seq<u8>, ResolveError>(payload@),
            Err(e) => spec_feature_result(response_view(*response)) == Err::<Seq<u8>, ResolveError>(e),
        },
{
    match response {
        None => Err(ResolveError::NoResponse),
        Some(resp) => {
            if resp.len() < MIN_FEATURE_RESPONSE {
                return Err(ResolveError::ShortResponse(resp.len()));
            }
            if resp[2] == ERROR_SENTINEL || resp[2] == NULL_FEATURE_INDEX {
                return Err(ResolveError::DeviceError(resp[3]));
            }
            let mut payload: Vec<u8> = Vec::new();
            let mut i: usize = PAYLOAD_OFFSET;
            while i < resp.len()
                invariant
                    PAYLOAD_OFFSET <= i <= resp.len(),
                    payload@ =~= resp@.subrange(PAYLOAD_OFFSET as int, i as int),
                decreases resp.len() - i,
            {
                payload.push(resp[i]);
                i = i + 1;
            }
            Ok(payload)
        },
    }
}

/// Cache key of a (device index, feature identifier) pair.
pub open spec fn cache_key(device_idx: u8, feature: u16) -> u32 {
    (device_idx as int * 0x10000 + feature as int) as u32
}

/// What resolving a pair needs next.
#[derive(Debug, PartialEq, Eq)]
pub enum Lookup {
    /// The index is known; no wire traffic is needed.
    Cached(u8),
    /// This GetFeature frame must be exchanged.
    Query(Vec<u8>),
}

/// Maps (device index, feature identifier) pairs to the feature indices
/// the devices reported. Entries are added on first successful resolution
/// and never dropped.
pub struct FeatureResolver {
    cache: HashMap<u32, u8>,
}

impl View for FeatureResolver {
    type V = Map<u32, u8>;

    closed spec fn view(&self) -> Map<u32, u8> {
        self.cache@
    }
}

impl FeatureResolver {
    /// Every cached index is a valid feature index.
    pub closed spec fn wf(&self) -> bool {
        forall|k: u32| #[trigger] self.cache@.contains_key(k) ==> valid_feature_index(self.cache@[k])
    }

    pub fn new() -> (r: FeatureResolver)
        ensures
            r.wf(),
            r@ == Map::<u32, u8>::empty(),
    {
        FeatureResolver { cache: HashMap::new() }
    }

    fn key(device_idx: u8, feature: u16) -> (k: u32)
        ensures
            k == cache_key(device_idx, feature),
    {
        (device_idx as u32) * 0x10000 + (feature as u32)
    }

    /// The cached index of a pair, if it was resolved before.
    pub fn cached(&self, device_idx: u8, feature: u16) -> (r: Option<u8>)
        requires
            self.wf(),
        ensures
            r.is_some() == self@.contains_key(cache_key(device_idx, feature)),
            r matches Some(fi) ==> fi == self@[cache_key(device_idx, feature)] && valid_feature_index(fi),
    {
        let k = Self::key(device_idx, feature);
        match self.cache.get(&k) {
            Some(fi) => Some(*fi),
            None => None,
        }
    }

    /// First half of a resolution: the cached index, or the frame to send.
    pub fn begin_resolve(&self, device_idx: u8, feature: u16) -> (r: Lookup)
        requires
            self.wf(),
        ensures
            self@.contains_key(cache_key(device_idx, feature)) ==> r == Lookup::Cached(
                self@[cache_key(device_idx, feature)],
            ),
            !self@.contains_key(cache_key(device_idx, feature)) ==> (r matches Lookup::Query(frame)
                && frame@ == discovery_frame(device_idx, feature)),
    {
        match self.cached(device_idx, feature) {
            Some(fi) => Lookup::Cached(fi),
            None => Lookup::Query(discovery_request(device_idx, feature)),
        }
    }

    /// Second half of a resolution: reads the answer to the GetFeature
    /// frame and caches the index it carries.
    pub fn finish_resolve(&mut self, device_idx: u8, feature: u16, response: &Option<Vec<u8>>) -> (r:
        Result<u8, ResolveError>)
        requires
            old(self).wf(),
        ensures
            final(self).wf(),
            r == spec_discovery_result(response_view(*response)),
            r matches Ok(fi) ==> final(self)@ == old(self)@.insert(cache_key(device_idx, feature), fi),
            r is Err ==> final(self)@ == old(self)@,
    {
        let r = parse_discovery_response(response);
        if let Ok(fi) = r {
            self.remember(device_idx, feature, fi);
        }
        r
    }

    /// Records a resolved index.
    pub fn remember(&mut self, device_idx: u8, feature: u16, fi: u8)
        requires
            old(self).wf(),
            valid_feature_index(fi),
        ensures
            final(self).wf(),
            final(self)@ == old(self)@.insert(cache_key(device_idx, feature), fi),
    {
        let k = Self::key(device_idx, feature);
        self.cache.insert(k, fi);
    }
}

} // verus!
