//! Choosing which enumerated HID interface to open.
use vstd::prelude::*;
use crate::hidpp::battery::LOGITECH_VENDOR_ID;

verus! {

/// Vendor-defined usage page of HID++ interfaces.
pub const HIDPP_USAGE_PAGE: u16 = 0xFF00;

/// Usage of an HID++ 1.0 interface.
pub const HIDPP10_USAGE: u16 = 0x0001;

/// Usage of an HID++ 2.0 interface.
pub const HIDPP20_USAGE: u16 = 0x0002;

/// Kind of an HID++ interface.
#[derive(Debug, Clone, Copy, PartialEq, Eq, Structural)]
pub enum HidppInterface {
    /// HID++ 1.0 (register access only).
    V1,
    /// HID++ 2.0, which carries the battery features.
    V2,
    /// On the HID++ usage page, with an unknown usage.
    Unknown,
}

pub open spec fn spec_classify(vendor_id: u16, usage_page: u16, usage: u16) -> Option<HidppInterface> {
    if vendor_id != LOGITECH_VENDOR_ID || usage_page != HIDPP_USAGE_PAGE {
        None
    } else if usage == HIDPP10_USAGE {
        Some(HidppInterface::V1)
    } else if usage == HIDPP20_USAGE {
        Some(HidppInterface::V2)
    } else {
        Some(HidppInterface::Unknown)
    }
}

/// Which HID++ interface an enumerated HID interface is, if any. Mouse and
/// keyboard interfaces of the vendor are not HID++ interfaces.
pub fn classify_interface(vendor_id: u16, usage_page: u16, usage: u16) -> (r: Option<HidppInterface>)
    ensures
        r == spec_classify(vendor_id, usage_page, usage),
{
    if vendor_id != LOGITECH_VENDOR_ID || usage_page != HIDPP_USAGE_PAGE {
        None
    } else if usage == HIDPP10_USAGE {
        Some(HidppInterface::V1)
    } else if usage == HIDPP20_USAGE {
        Some(HidppInterface::V2)
    } else {
        Some(HidppInterface::Unknown)
    }
}

/// Positions in `kinds` that hold `k`, in increasing order.
pub open spec fn positions_of(kinds: Seq<HidppInterface>, k: HidppInterface) -> Seq<usize>
    decreases kinds.len(),
{
    if kinds.len() == 0 {
        Seq::empty()
    } else {
        let before = positions_of(kinds.drop_last(), k);
        if kinds.last() == k {
            before.push((kinds.len() - 1) as usize)
        } else {
            before
        }
    }
}

/// `0, 1, .., n - 1`.
pub open spec fn all_positions(n: nat) -> Seq<usize> {
    Seq::new(n, |i: int| i as usize)
}

/// The order in which to try opening the HID++ interfaces `kinds`: the
/// HID++ 2.0 ones first, then the HID++ 1.0 ones, then every interface
/// again, in enumeration order within each group.
pub open spec fn spec_open_order(kinds: Seq<HidppInterface>) -> Seq<usize> {
    positions_of(kinds, HidppInterface::V2) + positions_of(kinds, HidppInterface::V1) + all_positions(
        kinds.len(),
    )
}

fn push_positions_of(out: &mut Vec<usize>, kinds: &Vec<HidppInterface>, k: HidppInterface)
    ensures
        final(out)@ == old(out)@ + positions_of(kinds@, k),
{
    let ghost start = out@;
    let mut i: usize = 0;
    while i < kinds.len()
        invariant
            i <= kinds.len(),
            out@ == start + positions_of(kinds@.take(i as int), k),
        decreases kinds.len() - i,
    {
        assert(kinds@.take(i + 1).drop_last() =~= kinds@.take(i as int));
        if kinds[i] == k {
            out.push(i);
        }
        i = i + 1;
    }
    assert(kinds@.take(kinds.len() as int) =~= kinds@);
}

/// Indices into `kinds` (the HID++ interfaces found, in enumeration order)
/// in the order their opening should be attempted.
pub fn open_order(kinds: &Vec<HidppInterface>) -> (r: Vec<usize>)
    ensures
        r@ == spec_open_order(kinds@),
{
    let mut out: Vec<usize> = Vec::new();
    push_positions_of(&mut out, kinds, HidppInterface::V2);
    push_positions_of(&mut out, kinds, HidppInterface::V1);
    let ghost before = out@;
    let mut i: usize = 0;
    while i < kinds.len()
        invariant
            i <= kinds.len(),
            out@ =~= before + all_positions(i as nat),
        decreases kinds.len() - i,
    {
        out.push(i);
        i = i + 1;
    }
    out
}

} // verus!
