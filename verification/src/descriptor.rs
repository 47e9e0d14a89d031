use vstd::prelude::*;

verus! {

/// The number of bytes that the item with the prefix byte `prefix` takes,
/// the prefix included: its two lowest bits say how many bytes of data
/// follow, none, one, two or four.
pub open spec fn item_len(prefix: u8) -> nat {
    if prefix % 4 == 0 {
        1
    } else if prefix % 4 == 1 {
        2
    } else if prefix % 4 == 2 {
        3
    } else {
        5
    }
}

/// The tag and type of an item: its prefix byte without the two size bits.
pub open spec fn item_kind(prefix: u8) -> int {
    prefix - prefix % 4
}

/// The data of the item that starts at `at`, read as an unsigned number,
/// lowest byte first.
pub open spec fn item_value(descriptor: Seq<u8>, at: int) -> nat {
    let prefix = descriptor[at];
    if prefix % 4 == 0 {
        0
    } else if prefix % 4 == 1 {
        descriptor[at + 1] as nat
    } else if prefix % 4 == 2 {
        (descriptor[at + 1] + 256 * descriptor[at + 2]) as nat
    } else {
        (descriptor[at + 1] + 256 * descriptor[at + 2] + 65536 * descriptor[at + 3] + 16777216
            * descriptor[at + 4]) as nat
    }
}

/// The prefix of a long item.
pub const LONG_ITEM: u8 = 0xfe;

/// The global item that sets the size of a field in bits.
pub const REPORT_SIZE: u8 = 0x74;

/// The global item that sets the number of fields.
pub const REPORT_COUNT: u8 = 0x94;

/// The global item that names a report.
pub const REPORT_ID: u8 = 0x84;

/// The global item that saves the global state.
pub const PUSH: u8 = 0xa4;

/// The global item that brings the saved global state back.
pub const POP: u8 = 0xb4;

/// The main item that adds fields to the input report.
pub const INPUT: u8 = 0x80;

/// The number of bits that the items from `at` on add to the input
/// report, where fields of `size` bits and a count of `count` are in force.
///
/// Every input item adds as many fields as the count in force says, each
/// of the size in force. The count covers descriptors with one report and
/// short items only: a report id, a saved or restored global state, a long
/// item or an item that is cut off leave the length open.
pub open spec fn input_bits_from(descriptor: Seq<u8>, at: nat, size: nat, count: nat) -> Option<
    nat,
>
    decreases descriptor.len() - at,
{
    if at >= descriptor.len() {
        Some(0)
    } else {
        let prefix = descriptor[at as int];
        let kind = item_kind(prefix);
        let next = at + item_len(prefix);
        if prefix == LONG_ITEM || next > descriptor.len() || kind == REPORT_ID || kind == PUSH
            || kind == POP {
            None
        } else if kind == REPORT_SIZE {
            input_bits_from(descriptor, next, item_value(descriptor, at as int), count)
        } else if kind == REPORT_COUNT {
            input_bits_from(descriptor, next, size, item_value(descriptor, at as int))
        } else if kind == INPUT {
            match input_bits_from(descriptor, next, size, count) {
                Some(rest) => Some(size * count + rest),
                None => None,
            }
        } else {
            input_bits_from(descriptor, next, size, count)
        }
    }
}

/// The length in bits of the input report that `descriptor` declares, as
/// far as it is determined.
pub open spec fn input_bits(descriptor: Seq<u8>) -> Option<nat> {
    input_bits_from(descriptor, 0, 0, 0)
}

/// Whether `descriptor` declares an input report of exactly `report_size`
/// bytes.
pub open spec fn declares_report_size(descriptor: Seq<u8>, report_size: nat) -> bool {
    input_bits(descriptor) == Some(8 * report_size)
}

fn value_at(descriptor: &Vec<u8>, at: usize) -> (value: u64)
    requires
        at + item_len(descriptor@[at as int]) <= descriptor@.len(),
    ensures
        value == item_value(descriptor@, at as int),
        value < 0x1_0000_0000,
{
    let end = descriptor.len();
    let prefix = descriptor[at];
    if prefix % 4 == 0 {
        0
    } else if prefix % 4 == 1 {
        descriptor[at + 1] as u64
    } else if prefix % 4 == 2 {
        descriptor[at + 1] as u64 + 256 * (descriptor[at + 2] as u64)
    } else {
        descriptor[at + 1] as u64 + 256 * (descriptor[at + 2] as u64) + 65536 * (descriptor[at
            + 3] as u64) + 16777216 * (descriptor[at + 4] as u64)
    }
}

/// The sum of what was counted and what is still to come.
spec fn total(counted: nat, rest: Option<nat>) -> Option<nat> {
    match rest {
        Some(rest) => Some(counted + rest),
        None => None,
    }
}

/// The length in bits of the input report that `descriptor` declares, or
/// `None` where the descriptor leaves it open.
pub fn implied_input_bits(descriptor: &Vec<u8>) -> (bits: Option<u128>)
    ensures
        match bits {
            Some(bits) => input_bits(descriptor@) == Some(bits as nat),
            None => input_bits(descriptor@) is None,
        },
{
    let mut at: usize = 0;
    let mut size: u64 = 0;
    let mut count: u64 = 0;
    let mut counted: u128 = 0;
    while at < descriptor.len()
        invariant
            at <= descriptor@.len(),
            size < 0x1_0000_0000,
            count < 0x1_0000_0000,
            counted <= at * 0x1_0000_0000_0000_0000,
            input_bits(descriptor@) == total(
                counted as nat,
                input_bits_from(descriptor@, at as nat, size as nat, count as nat),
            ),
        decreases descriptor@.len() - at,
    {
        let prefix = descriptor[at];
        let kind = prefix - prefix % 4;
        let len: usize = if prefix % 4 == 0 {
            1
        } else if prefix % 4 == 1 {
            2
        } else if prefix % 4 == 2 {
            3
        } else {
            5
        };
        if prefix == LONG_ITEM || len > descriptor.len() - at || kind == REPORT_ID || kind == PUSH
            || kind == POP {
            return None;
        }
        if kind == REPORT_SIZE {
            size = value_at(descriptor, at);
        } else if kind == REPORT_COUNT {
            count = value_at(descriptor, at);
        } else if kind == INPUT {
            assert(size * count < 0x1_0000_0000_0000_0000) by (nonlinear_arith)
                requires
                    size < 0x1_0000_0000,
                    count < 0x1_0000_0000,
            ;
            counted = counted + (size * count) as u128;
        }
        at = at + len;
    }
    Some(counted)
}

/// Whether a report of `report_size` bytes is what `descriptor` declares.
pub fn descriptor_declares(descriptor: &Vec<u8>, report_size: usize) -> (consistent: bool)
    ensures
        consistent == declares_report_size(descriptor@, report_size as nat),
{
    match implied_input_bits(descriptor) {
        Some(bits) => bits == 8 * (report_size as u128),
        None => false,
    }
}

} // verus!
