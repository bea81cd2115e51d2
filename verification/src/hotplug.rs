//! Parsing of the hotplug monitor's line-oriented output into connect and
//! disconnect notifications.  A line is relevant only when it begins with
//! the kernel-event marker and holds an add or remove action marker; the
//! vendor and product identifiers are read from the first path component of
//! the form `0003:<vendor-hex>:<product-hex>` that parses, and a configured
//! filter drops events of other devices.

use vstd::prelude::*;
use crate::bytes::contains_seq;
use crate::bytes::find_byte_in_range;
use crate::bytes::first_index_from;
use crate::bytes::lemma_first_index_char;
use crate::bytes::slice_contains;
use crate::bytes::slice_starts_with;
use crate::bytes::starts_with;
use crate::hex::parse_hex_u16;
use crate::hex::spec_parse_hex_u16;

verus! {

/// The byte `/`, separating the path components of a hotplug line.
pub const SLASH: u8 = 0x2F;

/// The byte `:`, separating the fields of a bus component.
pub const COLON: u8 = 0x3A;

/// The byte `.`, ending the product field of a bus component.
pub const DOT: u8 = 0x2E;

/// The marker `KERNEL[` that opens a relevant hotplug line.
pub open spec fn kernel_marker() -> Seq<u8> {
    seq![0x4Bu8, 0x45u8, 0x52u8, 0x4Eu8, 0x45u8, 0x4Cu8, 0x5Bu8]
}

/// The marker `] add ` of an attach action.
pub open spec fn add_marker() -> Seq<u8> {
    seq![0x5Du8, 0x20u8, 0x61u8, 0x64u8, 0x64u8, 0x20u8]
}

/// The marker `] remove ` of a removal action.
pub open spec fn remove_marker() -> Seq<u8> {
    seq![0x5Du8, 0x20u8, 0x72u8, 0x65u8, 0x6Du8, 0x6Fu8, 0x76u8, 0x65u8, 0x20u8]
}

/// The prefix `0003:` marking a component on the HID bus.
pub open spec fn bus_prefix() -> Seq<u8> {
    seq![0x30u8, 0x30u8, 0x30u8, 0x33u8, 0x3Au8]
}

fn kernel_marker_bytes() -> (v: Vec<u8>)
    ensures
        v@ == kernel_marker(),
{
    let mut v: Vec<u8> = Vec::new();
    v.push(0x4B);
    v.push(0x45);
    v.push(0x52);
    v.push(0x4E);
    v.push(0x45);
    v.push(0x4C);
    v.push(0x5B);
    assert(v@ =~= kernel_marker());
    v
}

fn add_marker_bytes() -> (v: Vec<u8>)
    ensures
        v@ == add_marker(),
{
    let mut v: Vec<u8> = Vec::new();
    v.push(0x5D);
    v.push(0x20);
    v.push(0x61);
    v.push(0x64);
    v.push(0x64);
    v.push(0x20);
    assert(v@ =~= add_marker());
    v
}

fn remove_marker_bytes() -> (v: Vec<u8>)
    ensures
        v@ == remove_marker(),
{
    let mut v: Vec<u8> = Vec::new();
    v.push(0x5D);
    v.push(0x20);
    v.push(0x72);
    v.push(0x65);
    v.push(0x6D);
    v.push(0x6F);
    v.push(0x76);
    v.push(0x65);
    v.push(0x20);
    assert(v@ =~= remove_marker());
    v
}

fn bus_prefix_bytes() -> (v: Vec<u8>)
    ensures
        v@ == bus_prefix(),
{
    let mut v: Vec<u8> = Vec::new();
    v.push(0x30);
    v.push(0x30);
    v.push(0x30);
    v.push(0x33);
    v.push(0x3A);
    assert(v@ =~= bus_prefix());
    v
}

/// A hotplug notification as published on the device channel.
#[derive(Clone, Copy, Debug, PartialEq, Eq, Structural)]
pub enum DeviceEvent {
    /// A matching device was attached.
    Connected,
    /// A matching device was removed.
    Disconnected,
}

/// The action a hotplug line reports: an attach when the add marker is
/// present, a removal when only the remove marker is, nothing when the line
/// does not begin with the kernel-event marker or carries neither action.
pub open spec fn spec_line_action(line: Seq<u8>) -> Option<DeviceEvent> {
    if !starts_with(line, kernel_marker()) {
        None
    } else if contains_seq(line, add_marker()) {
        Some(DeviceEvent::Connected)
    } else if contains_seq(line, remove_marker()) {
        Some(DeviceEvent::Disconnected)
    } else {
        None
    }
}

/// The identifiers a bus component denotes: the component must begin with
/// the bus prefix and have at least two further colon-delimited fields; the
/// first is the vendor id in hex, the second, up to a dot, the product id.
pub open spec fn component_ids(c: Seq<u8>) -> Option<(u16, u16)> {
    if !starts_with(c, bus_prefix()) {
        None
    } else {
        let i2 = first_index_from(c, COLON, 5);
        if i2 >= c.len() {
            None
        } else {
            let vid_field = c.subrange(5, i2);
            let i3 = first_index_from(c, COLON, i2 + 1);
            let raw = c.subrange(i2 + 1, i3);
            let pid_field = raw.subrange(0, first_index_from(raw, DOT, 0));
            match (spec_parse_hex_u16(vid_field), spec_parse_hex_u16(pid_field)) {
                (Some(v), Some(p)) => Some((v, p)),
                _ => None,
            }
        }
    }
}

/// A path component of `s` starts at `i`: at the very beginning, or right
/// after a separator.
pub open spec fn is_comp_start(s: Seq<u8>, i: int) -> bool {
    i == 0 || (0 < i <= s.len() && s[i - 1] == SLASH)
}

/// The component of `s` that starts at `i`: the bytes up to the next
/// separator or the end.
pub open spec fn comp_at(s: Seq<u8>, i: int) -> Seq<u8> {
    s.subrange(i, first_index_from(s, SLASH, i))
}

/// The identifiers the line denotes: those of the first path component that
/// begins with the bus prefix and parses; nothing when no component does.
pub open spec fn extract_ids_from(s: Seq<u8>, start: int) -> Option<(u16, u16)>
    decreases s.len() - start,
{
    if start < 0 || start >= s.len() {
        None
    } else if is_comp_start(s, start) && component_ids(comp_at(s, start)) is Some {
        component_ids(comp_at(s, start))
    } else {
        extract_ids_from(s, start + 1)
    }
}

/// The identifiers the line denotes, scanned from its beginning.
pub open spec fn extract_ids(s: Seq<u8>) -> Option<(u16, u16)> {
    extract_ids_from(s, 0)
}

proof fn lemma_extract_skip_non_starts(s: Seq<u8>, a: int, b: int)
    requires
        0 <= a <= b <= s.len(),
        forall|j: int| a <= j < b ==> !is_comp_start(s, j),
    ensures
        extract_ids_from(s, a) == extract_ids_from(s, b),
    decreases b - a,
{
    if a < b {
        lemma_extract_skip_non_starts(s, a + 1, b);
    }
}

/// Skipping a whole component whose identifiers do not parse: the scan
/// continues right after its separator, or ends with nothing at the end of
/// the line.
proof fn lemma_extract_advance(s: Seq<u8>, start: int, end: int)
    requires
        0 <= start <= end <= s.len(),
        forall|j: int| start <= j < end ==> s[j] != SLASH,
        end < s.len() ==> s[end] == SLASH,
        component_ids(s.subrange(start, end)) is None,
    ensures
        extract_ids_from(s, start) == if end < s.len() {
            extract_ids_from(s, end + 1)
        } else {
            Option::<(u16, u16)>::None
        },
{
    lemma_first_index_char(s, SLASH, start, end);
    if start == s.len() {
    } else {
        assert(comp_at(s, start) == s.subrange(start, end));
        assert(extract_ids_from(s, start) == extract_ids_from(s, start + 1));
        if end < s.len() {
            assert forall|j: int| start + 1 <= j < end + 1 implies !is_comp_start(s, j) by {
                assert(s[j - 1] != SLASH);
            }
            lemma_extract_skip_non_starts(s, start + 1, end + 1);
        } else {
            assert forall|j: int| start + 1 <= j < end implies !is_comp_start(s, j) by {
                assert(s[j - 1] != SLASH);
            }
            lemma_extract_skip_non_starts(s, start + 1, end);
        }
    }
}

/// Reads the identifiers of one component `line[start..end]`.
fn component_ids_exec(line: &[u8], start: usize, end: usize) -> (r: Option<(u16, u16)>)
    requires
        start <= end <= line@.len(),
    ensures
        r == component_ids(line@.subrange(start as int, end as int)),
{
    let ghost c = line@.subrange(start as int, end as int);
    let comp = vstd::slice::slice_subrange(line, start, end);
    let prefix = bus_prefix_bytes();
    if !slice_starts_with(comp, prefix.as_slice()) {
        return None;
    }
    let n = comp.len();
    let i2 = find_byte_in_range(comp, COLON, 5, n);
    proof {
        assert(comp@.subrange(0, n as int) =~= comp@);
    }
    if i2 >= n {
        return None;
    }
    let vid_field = vstd::slice::slice_subrange(comp, 5, i2);
    let i3 = find_byte_in_range(comp, COLON, i2 + 1, n);
    let raw = vstd::slice::slice_subrange(comp, i2 + 1, i3);
    let dot = find_byte_in_range(raw, DOT, 0, raw.len());
    proof {
        assert(raw@.subrange(0, raw@.len() as int) =~= raw@);
    }
    let pid_field = vstd::slice::slice_subrange(raw, 0, dot);
    let v = parse_hex_u16(vid_field);
    let p = parse_hex_u16(pid_field);
    match (v, p) {
        (Some(v), Some(p)) => Some((v, p)),
        _ => None,
    }
}

/// Reads the vendor and product identifiers a hotplug line carries: those
/// of its first path component that begins with the bus prefix and parses.
pub fn extract_ids_exec(line: &[u8]) -> (r: Option<(u16, u16)>)
    ensures
        r == extract_ids(line@),
{
    let len = line.len();
    let mut start: usize = 0;
    loop
        invariant
            start <= len,
            len == line@.len(),
            is_comp_start(line@, start as int),
            extract_ids_from(line@, 0) == extract_ids_from(line@, start as int),
        decreases len - start,
    {
        if start >= len {
            return None;
        }
        let end = find_byte_in_range(line, SLASH, start, len);
        proof {
            assert(line@.subrange(0, len as int) =~= line@);
        }
        let ids = component_ids_exec(line, start, end);
        if ids.is_some() {
            proof {
                lemma_first_index_char(line@, SLASH, start as int, end as int);
                assert(comp_at(line@, start as int) == line@.subrange(
                    start as int,
                    end as int,
                ));
            }
            return ids;
        }
        proof {
            lemma_extract_advance(line@, start as int, end as int);
        }
        if end >= len {
            return None;
        }
        start = end + 1;
    }
}

/// Whether the identifiers pass the configured filter: with no filter every
/// device passes; with one, exactly the configured pair does.
pub open spec fn spec_matches_filter(vid: u16, pid: u16, filter: Option<(u16, u16)>) -> bool {
    match filter {
        None => true,
        Some((fv, fp)) => vid == fv && pid == fp,
    }
}

/// The notification a hotplug line yields under a configured filter: its
/// action, provided the line carries identifiers that pass the filter.
pub open spec fn spec_parse_udev_line(line: Seq<u8>, filter: Option<(u16, u16)>) -> Option<
    DeviceEvent,
> {
    match spec_line_action(line) {
        None => None,
        Some(ev) => match extract_ids(line) {
            None => None,
            Some((v, p)) => if spec_matches_filter(v, p, filter) {
                Some(ev)
            } else {
                None
            },
        },
    }
}

/// Parses one line of the hotplug monitor's output.  Yields `Connected` or
/// `Disconnected` exactly when the line begins with the kernel-event
/// marker, carries an action marker, and names a device that parses and
/// passes the filter; yields nothing otherwise.
pub fn parse_udev_line(line: &[u8], filter: Option<(u16, u16)>) -> (r: Option<DeviceEvent>)
    ensures
        r == spec_parse_udev_line(line@, filter),
{
    let kernel = kernel_marker_bytes();
    if !slice_starts_with(line, kernel.as_slice()) {
        return None;
    }
    let add = add_marker_bytes();
    let remove = remove_marker_bytes();
    let is_add = slice_contains(line, add.as_slice());
    let is_remove = slice_contains(line, remove.as_slice());
    if !is_add && !is_remove {
        return None;
    }
    let ev = if is_add {
        DeviceEvent::Connected
    } else {
        DeviceEvent::Disconnected
    };
    match extract_ids_exec(line) {
        None => None,
        Some((v, p)) => {
            let pass = match filter {
                None => true,
                Some((fv, fp)) => v == fv && p == fp,
            };
            if pass {
                Some(ev)
            } else {
                None
            }
        },
    }
}

} // verus!
