//! Payload records carried by events across the game interface.

use vstd::prelude::*;
use vstd::string::StringSliceAdditionalSpecFns;
use vstd::utf8::valid_utf8;

verus! {

/// Payload of `ServerPowered`: `powered_on` is 1 for on, 0 for off.
#[derive(Debug, Clone, Copy, PartialEq, Eq)]
pub struct ServerPoweredData {
    pub powered_on: u32,
}

/// Payload of `DayEnded`.
#[derive(Debug, Clone, Copy, PartialEq, Eq)]
pub struct DayEndedData {
    pub day: u32,
}

/// Payload of `CustomerAccepted`.
#[derive(Debug, Clone, Copy, PartialEq, Eq)]
pub struct CustomerAcceptedData {
    pub customer_id: i32,
}

/// Payload of `CustomerSatisfied` and `CustomerUnsatisfied`.
#[derive(Debug, Clone, Copy, PartialEq, Eq)]
pub struct CustomerSatisfiedData {
    pub customer_base_id: i32,
}

/// Payload of `ServerCustomerChanged`.
#[derive(Debug, Clone, Copy, PartialEq, Eq)]
pub struct ServerCustomerChangedData {
    pub new_customer_id: i32,
}

/// Payload of `ServerAppChanged`.
#[derive(Debug, Clone, Copy, PartialEq, Eq)]
pub struct ServerAppChangedData {
    pub new_app_id: i32,
}

/// Payload of `MonthEnded`.
#[derive(Debug, Clone, Copy, PartialEq, Eq)]
pub struct MonthEndedData {
    pub month: i32,
}

/// Payload of `ShopItemAdded`; `item_type` is the game's item-in-hand code
/// (see [`super::event::item_type_name`]).
#[derive(Debug, Clone, Copy, PartialEq, Eq)]
pub struct ShopItemAddedData {
    pub item_id: i32,
    pub price: i32,
    pub item_type: i32,
}

/// Payload of `ShopItemRemoved`.
#[derive(Debug, Clone, Copy, PartialEq, Eq)]
pub struct ShopItemRemovedData {
    pub uid: i32,
}

/// Payload of `CustomEmployeeHired` and `CustomEmployeeFired`: the employee
/// identifier as a NUL-terminated string in a fixed buffer.
#[derive(Debug, Clone, Copy)]
pub struct CustomEmployeeEventData {
    pub employee_id: [u8; 64],
}

/// Payload of `ServerInstalled`: the server identifier as a NUL-terminated
/// string in a fixed buffer, its object type and its rack slot.
#[derive(Debug, Clone, Copy)]
pub struct ServerInstalledData {
    pub server_id: [u8; 64],
    pub object_type: u8,
    pub rack_position_uid: i32,
}

/// Index of the first NUL byte of `b`, or `b.len()` when there is none.
pub open spec fn nul_end(b: Seq<u8>) -> int {
    if exists|i: int| 0 <= i < b.len() && b[i] == 0 && (forall|j: int| 0 <= j < i ==> b[j] != 0) {
        choose|i: int| 0 <= i < b.len() && b[i] == 0 && (forall|j: int| 0 <= j < i ==> b[j] != 0)
    } else {
        b.len() as int
    }
}

/// The bytes of the text held in a NUL-terminated buffer: everything before
/// the first NUL, or nothing when that prefix is not valid UTF-8.
pub open spec fn buffer_text(b: Seq<u8>) -> Seq<u8> {
    let p = b.take(nul_end(b));
    if valid_utf8(p) {
        p
    } else {
        Seq::empty()
    }
}

/// Calls `std::str::from_utf8`, which std documents to succeed exactly when
/// the bytes are valid UTF-8, borrowing them unchanged as the string.
#[verifier::external_body]
fn str_from_utf8(bytes: &[u8]) -> (r: Option<&str>)
    ensures
        r is Some <==> valid_utf8(bytes@),
        r matches Some(s) ==> s.spec_bytes() == bytes@,
{
    std::str::from_utf8(bytes).ok()
}

/// Position of the first NUL byte in `b`, or its length.
fn find_nul(b: &[u8]) -> (end: usize)
    ensures
        end == nul_end(b@),
{
    let mut i: usize = 0;
    while i < b.len()
        invariant
            0 <= i <= b@.len(),
            forall|j: int| 0 <= j < i ==> b@[j] != 0,
        decreases b@.len() - i,
    {
        if b[i] == 0 {
            assert(b@[i as int] == 0 && forall|j: int| 0 <= j < i ==> b@[j] != 0);
            return i;
        }
        i = i + 1;
    }
    i
}

/// The text of a NUL-terminated buffer; empty when it is not valid UTF-8.
fn buffer_str(b: &[u8]) -> (s: &str)
    ensures
        s.spec_bytes() == buffer_text(b@),
{
    let end = find_nul(b);
    let prefix = vstd::slice::slice_subrange(b, 0, end);
    assert(prefix@ == b@.take(end as int));
    match str_from_utf8(prefix) {
        Some(s) => s,
        None => {
            proof {
                reveal_strlit("");
                vstd::string::is_ascii_spec_bytes("");
            }
            assert("".spec_bytes() =~= Seq::<u8>::empty());
            ""
        },
    }
}

impl CustomEmployeeEventData {
    /// The employee identifier: the buffer up to its first NUL, or `""` when
    /// that is not valid UTF-8.
    pub fn id(&self) -> (s: &str)
        ensures
            s.spec_bytes() == buffer_text(self.employee_id@),
    {
        buffer_str(self.employee_id.as_slice())
    }
}

impl ServerInstalledData {
    /// The server identifier: the buffer up to its first NUL, or `""` when
    /// that is not valid UTF-8.
    pub fn id(&self) -> (s: &str)
        ensures
            s.spec_bytes() == buffer_text(self.server_id@),
    {
        buffer_str(self.server_id.as_slice())
    }
}

} // verus!
