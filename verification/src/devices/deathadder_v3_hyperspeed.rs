//! Finding the control interface of a DeathAdder V3 HyperSpeed among the HID
//! interfaces that the host lists.

use vstd::prelude::*;

verus! {

pub const RAZER_VID: u16 = 0x1532;
pub const DEATHADDER_V3_HYPERSPEED_WIRED_PID: u16 = 0x00c4;
pub const DEATHADDER_V3_HYPERSPEED_WIRELESS_PID: u16 = 0x00c5;

/// What the host reports of one HID interface.
#[derive(Debug, Clone, Copy, PartialEq, Eq, Structural)]
pub struct HidInterfaceInfo {
    pub vendor_id: u16,
    pub product_id: u16,
    pub interface_number: i32,
    pub usage_page: u16,
    pub usage: u16,
}

/// The battery/control collection of the mouse: a Razer vendor id, one of the
/// two product ids, interface 0, usage page 0x0001 and usage 0x0002. It
/// carries the 90-byte feature report.
pub open spec fn spec_is_control_interface(info: HidInterfaceInfo) -> bool {
    &&& info.vendor_id == RAZER_VID
    &&& (info.product_id == DEATHADDER_V3_HYPERSPEED_WIRED_PID || info.product_id
        == DEATHADDER_V3_HYPERSPEED_WIRELESS_PID)
    &&& info.interface_number == 0
    &&& info.usage_page == 0x0001
    &&& info.usage == 0x0002
}

pub fn is_control_interface(info: &HidInterfaceInfo) -> (found: bool)
    ensures
        found == spec_is_control_interface(*info),
{
    if info.vendor_id != RAZER_VID {
        return false;
    }
    let pid: u16 = info.product_id;
    if pid != DEATHADDER_V3_HYPERSPEED_WIRED_PID && pid != DEATHADDER_V3_HYPERSPEED_WIRELESS_PID {
        return false;
    }
    if info.interface_number != 0 {
        return false;
    }
    if info.usage_page != 0x0001 {
        return false;
    }
    info.usage == 0x0002
}

/// True when the product id is the one of the 2.4 GHz receiver rather than the wired mouse.
pub fn is_wireless_product(product_id: u16) -> (wireless: bool)
    ensures
        wireless == (product_id == DEATHADDER_V3_HYPERSPEED_WIRELESS_PID),
{
    product_id == DEATHADDER_V3_HYPERSPEED_WIRELESS_PID
}

/// The first control interface in the list, by index, and whether it belongs
/// to the 2.4 GHz receiver; `None` when the list holds none.
pub fn find_control_interface(infos: &Vec<HidInterfaceInfo>) -> (found: Option<(usize, bool)>)
    ensures
        match found {
            Some((index, wireless)) => {
                &&& index < infos@.len()
                &&& spec_is_control_interface(infos@[index as int])
                &&& forall|j: int| 0 <= j < index ==> !spec_is_control_interface(#[trigger] infos@[j])
                &&& wireless == (infos@[index as int].product_id == DEATHADDER_V3_HYPERSPEED_WIRELESS_PID)
            },
            None => forall|j: int|
                0 <= j < infos@.len() ==> !spec_is_control_interface(#[trigger] infos@[j]),
        },
{
    let mut i: usize = 0;
    while i < infos.len()
        invariant
            i <= infos@.len(),
            forall|j: int| 0 <= j < i ==> !spec_is_control_interface(#[trigger] infos@[j]),
        decreases infos@.len() - i,
    {
        if is_control_interface(&infos[i]) {
            let wireless: bool = is_wireless_product(infos[i].product_id);
            return Some((i, wireless));
        }
        i = i + 1;
    }
    None
}

/// The control interface is the one with vendor 0x1532, product 0x00c4
/// (wired) or 0x00c5 (2.4 GHz receiver), interface 0, usage page 0x0001 and
/// usage 0x0002; no other interface is taken.
pub proof fn lemma_control_interface(info: HidInterfaceInfo)
    ensures
        spec_is_control_interface(info) <==> {
            &&& info.vendor_id == 0x1532
            &&& (info.product_id == 0x00c4 || info.product_id == 0x00c5)
            &&& info.interface_number == 0
            &&& info.usage_page == 0x0001
            &&& info.usage == 0x0002
        },
{
}

} // verus!
