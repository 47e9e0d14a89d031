use vstd::prelude::*;

use crate::error::GadgetError;

verus! {

/// The major number under which the kernel registers HID gadget devices.
pub const HIDG_MAJOR: [char; 3] = ['2', '3', '9'];

/// Whether `c` is white space as Unicode defines it (`White_Space`).
pub open spec fn is_space(c: char) -> bool {
    let u = c as u32;
    ||| 0x09 <= u <= 0x0d
    ||| u == 0x20
    ||| u == 0x85
    ||| u == 0xa0
    ||| u == 0x1680
    ||| 0x2000 <= u <= 0x200a
    ||| u == 0x2028
    ||| u == 0x2029
    ||| u == 0x202f
    ||| u == 0x205f
    ||| u == 0x3000
}

/// The length of `s` once the white space at its end is taken off.
pub open spec fn trimmed_len(s: Seq<char>) -> nat
    decreases s.len(),
{
    if s.len() > 0 && is_space(s.last()) {
        trimmed_len(s.drop_last())
    } else {
        s.len()
    }
}

/// Whether the first colon of `s` stands at `i`.
pub open spec fn first_colon_at(s: Seq<char>, i: int) -> bool {
    &&& 0 <= i < s.len()
    &&& s[i] == ':'
    &&& forall|j: int| 0 <= j < i ==> s[j] != ':'
}

/// The device node that belongs to the device number `dev`, which the
/// kernel gives as `major:minor` and a line end.
///
/// White space at the end does not count. What stands before the first
/// colon is the major number, what follows it the minor. Major 239 names
/// the node `/dev/hidg` followed by the minor; any other major is
/// unsupported, and a text without a colon is no device number at all.
pub open spec fn device_node(dev: Seq<char>) -> Result<Seq<char>, GadgetError> {
    let text = dev.take(trimmed_len(dev) as int);
    if exists|i: int| first_colon_at(text, i) {
        let i = choose|i: int| first_colon_at(text, i);
        if text.take(i) == HIDG_MAJOR@ {
            Ok("/dev/hidg"@ + text.skip(i + 1))
        } else {
            Err(GadgetError::UnsupportedDeviceMajor)
        }
    } else {
        Err(GadgetError::BadDeviceNumber)
    }
}

fn is_whitespace(c: char) -> (space: bool)
    ensures
        space == is_space(c),
{
    let u = c as u32;
    (0x09 <= u && u <= 0x0d) || u == 0x20 || u == 0x85 || u == 0xa0 || u == 0x1680 || (0x2000 <= u
        && u <= 0x200a) || u == 0x2028 || u == 0x2029 || u == 0x202f || u == 0x205f || u == 0x3000
}

/// The number of characters of `s` before its trailing white space.
fn trimmed_end(s: &str) -> (end: usize)
    ensures
        end == trimmed_len(s@),
        end <= s@.len(),
{
    let mut end = s.unicode_len();
    assert(s@.take(end as int) =~= s@);
    while end > 0
        invariant
            end <= s@.len(),
            trimmed_len(s@) == trimmed_len(s@.take(end as int)),
        ensures
            end <= s@.len(),
            end == trimmed_len(s@),
        decreases end,
    {
        let c = s.get_char(end - 1);
        if !is_whitespace(c) {
            break;
        }
        assert(s@.take(end as int).drop_last() =~= s@.take(end - 1));
        end = end - 1;
    }
    end
}

/// The path of the device node for the device number `dev_num`, as read
/// from a function's `dev` attribute.
pub fn hidg_path(dev_num: &str) -> (r: Result<String, GadgetError>)
    ensures
        match r {
            Ok(path) => device_node(dev_num@) == Ok::<Seq<char>, GadgetError>(path@),
            Err(e) => device_node(dev_num@) == Err::<Seq<char>, GadgetError>(e),
        },
{
    let end = trimmed_end(dev_num);
    let ghost text = dev_num@.take(end as int);
    let mut i: usize = 0;
    while i < end
        invariant
            i <= end <= dev_num@.len(),
            text == dev_num@.take(end as int),
            forall|j: int| 0 <= j < i ==> text[j] != ':',
        ensures
            i <= end <= dev_num@.len(),
            text == dev_num@.take(end as int),
            i < end ==> first_colon_at(text, i as int),
            i == end ==> forall|j: int| 0 <= j < end ==> text[j] != ':',
        decreases end - i,
    {
        if dev_num.get_char(i) == ':' {
            break;
        }
        i = i + 1;
    }
    if i == end {
        return Err(GadgetError::BadDeviceNumber);
    }
    let is_hidg = i == 3 && dev_num.get_char(0) == '2' && dev_num.get_char(1) == '3'
        && dev_num.get_char(2) == '9';
    if is_hidg {
        assert(text.take(i as int) =~= HIDG_MAJOR@);
        let mut path = String::from_str("/dev/hidg");
        path.append(dev_num.substring_char(i + 1, end));
        assert(path@ =~= "/dev/hidg"@ + text.skip(i + 1));
        Ok(path)
    } else {
        assert(text.take(i as int) != HIDG_MAJOR@) by {
            if text.take(i as int) == HIDG_MAJOR@ {
                assert(text.take(i as int).len() == 3);
            }
        }
        Err(GadgetError::UnsupportedDeviceMajor)
    }
}

} // verus!
