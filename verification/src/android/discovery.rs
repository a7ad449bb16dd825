//! Parsing of the device listings printed by `emulator -list-avds` and
//! `adb devices -l`.
use vstd::prelude::*;

use crate::model::{opt_view, AvdInfo, DeviceTarget, TargetType};
use crate::text::{
    contains, has_prefix, has_substring, lines, slice_chars, split_lines, split_words,
    starts_with, string_from_chars, to_chars, trim, trim_bounds, words,
};

verus! {

/// The trimmed, non-blank lines of `ls`, in order.
pub open spec fn nonblank_trimmed(ls: Seq<Seq<char>>) -> Seq<Seq<char>>
    decreases ls.len(),
{
    if ls.len() == 0 {
        seq![]
    } else {
        let rest = nonblank_trimmed(ls.drop_last());
        let t = trim(ls.last());
        if t.len() > 0 {
            rest.push(t)
        } else {
            rest
        }
    }
}

/// The virtual device names listed in the output of `emulator -list-avds`:
/// one per non-blank line, trimmed.
pub open spec fn avd_names(output: Seq<char>) -> Seq<Seq<char>> {
    nonblank_trimmed(lines(output))
}

/// One virtual device per non-blank line of the output, none of them marked
/// as running.
pub fn parse_avd_output(output: &str) -> (avds: Vec<AvdInfo>)
    ensures
        avds@.len() == avd_names(output@).len(),
        forall|i: int|
            0 <= i < avds@.len() ==> (#[trigger] avds@[i]).name@ == avd_names(output@)[i]
                && !avds@[i].is_running,
{
    let chars = to_chars(output);
    let ls = split_lines(chars.as_slice());
    let ghost all = lines(output@);
    let mut avds: Vec<AvdInfo> = Vec::new();
    let n = ls.len();
    let mut i: usize = 0;
    while i < n
        invariant
            i <= n,
            n == ls@.len(),
            all.len() == n,
            all == lines(output@),
            forall|j: int| 0 <= j < n ==> #[trigger] ls@[j]@ == all[j],
            avds@.len() == nonblank_trimmed(all.take(i as int)).len(),
            forall|j: int|
                0 <= j < avds@.len() ==> (#[trigger] avds@[j]).name@ == nonblank_trimmed(
                    all.take(i as int),
                )[j] && !avds@[j].is_running,
        decreases n - i,
    {
        let line = &ls[i];
        let (a, b) = trim_bounds(line.as_slice());
        proof {
            assert(all.take(i + 1).drop_last() =~= all.take(i as int));
            assert(all.take(i + 1).last() == all[i as int]);
        }
        if a < b {
            let name_chars = slice_chars(line.as_slice(), a, b);
            let name = string_from_chars(name_chars.as_slice());
            avds.push(AvdInfo { name, is_running: false });
        }
        i = i + 1;
    }
    assert(all.take(n as int) =~= all);
    avds
}

/// The value of the last word that starts with `tag`, without the tag.
pub open spec fn tagged_value(parts: Seq<Seq<char>>, tag: Seq<char>) -> Option<Seq<char>>
    decreases parts.len(),
{
    if parts.len() == 0 {
        None
    } else if has_prefix(parts.last(), tag) {
        Some(parts.last().skip(tag.len() as int))
    } else {
        tagged_value(parts.drop_last(), tag)
    }
}

/// Some word starts with `tag`.
pub open spec fn has_tagged(parts: Seq<Seq<char>>, tag: Seq<char>) -> bool {
    exists|i: int| 0 <= i < parts.len() && has_prefix(#[trigger] parts[i], tag)
}

pub open spec fn is_ascii_letter(c: char) -> bool {
    ('a' as u32 <= c as u32 <= 'z' as u32) || ('A' as u32 <= c as u32 <= 'Z' as u32)
}

/// Every character is an ASCII letter (`is_ascii_alphanumeric() && !is_numeric()`).
pub open spec fn all_ascii_letters(s: Seq<char>) -> bool {
    forall|i: int| 0 <= i < s.len() ==> is_ascii_letter(#[trigger] s[i])
}

/// A product name of the Android emulator images.
pub open spec fn emulator_product(p: Seq<char>) -> bool {
    has_substring(p, "sdk"@) || has_substring(p, "goldfish"@) || has_substring(p, "ranchu"@)
}

/// A listed target counts as an emulator when its serial says so, when its
/// product is an emulator image, or when it is not attached over USB and its
/// serial is not made of letters alone.
pub open spec fn looks_like_emulator(
    serial: Seq<char>,
    product: Option<Seq<char>>,
    has_usb: bool,
) -> bool {
    ||| has_prefix(serial, "emulator-"@)
    ||| (product matches Some(p) && emulator_product(p))
    ||| (!has_usb && !all_ascii_letters(serial))
}

/// Lines of the `adb devices -l` listing that describe no device.
pub open spec fn adb_line_skipped(line: Seq<char>) -> bool {
    let t = trim(line);
    ||| t.len() == 0
    ||| has_prefix(t, "List of devices attached"@)
    ||| has_prefix(t, "* daemon"@)
    ||| words(t).len() < 2
}

/// The words of a device line after the serial and the state.
pub open spec fn adb_extra_words(line: Seq<char>) -> Seq<Seq<char>> {
    words(trim(line)).skip(2)
}

pub open spec fn describes_device(line: Seq<char>, d: DeviceTarget) -> bool {
    let parts = words(trim(line));
    let extra = adb_extra_words(line);
    &&& d.serial@ == parts[0]
    &&& d.state@ == parts[1]
    &&& opt_view(d.product) == tagged_value(extra, "product:"@)
    &&& opt_view(d.model) == tagged_value(extra, "model:"@)
    &&& opt_view(d.device) == tagged_value(extra, "device:"@)
    &&& opt_view(d.transport_id) == tagged_value(extra, "transport_id:"@)
    &&& d.target_type == (if looks_like_emulator(
        parts[0],
        tagged_value(extra, "product:"@),
        has_tagged(extra, "usb:"@),
    ) {
        TargetType::Emulator
    } else {
        TargetType::UsbPhone
    })
    &&& !d.boot_completed
}

fn is_ascii_letter_exec(c: char) -> (b: bool)
    ensures
        b == is_ascii_letter(c),
{
    let u = c as u32;
    (97 <= u && u <= 122) || (65 <= u && u <= 90)
}

fn all_letters(s: &[char]) -> (b: bool)
    ensures
        b == all_ascii_letters(s@),
{
    let n = s.len();
    let mut i: usize = 0;
    while i < n
        invariant
            i <= n,
            n == s@.len(),
            forall|j: int| 0 <= j < i ==> is_ascii_letter(#[trigger] s@[j]),
        decreases n - i,
    {
        if !is_ascii_letter_exec(s[i]) {
            return false;
        }
        i = i + 1;
    }
    true
}

/// The value after `tag` of the last word in `parts[from..]` that starts with it.
fn find_tagged(parts: &Vec<Vec<char>>, from: usize, tag: &[char]) -> (r: Option<Vec<char>>)
    requires
        from <= parts@.len(),
    ensures
        (match r {
            Some(v) => Some(v@),
            None => None,
        }) == tagged_value(parts@.skip(from as int).map_values(|w: Vec<char>| w@), tag@),
{
    let ghost ws = parts@.skip(from as int).map_values(|w: Vec<char>| w@);
    let mut i: usize = parts.len();
    assert(ws.take(i - from) =~= ws);
    while i > from
        invariant
            from <= i <= parts@.len(),
            ws == parts@.skip(from as int).map_values(|w: Vec<char>| w@),
            tagged_value(ws, tag@) == tagged_value(ws.take(i - from), tag@),
        decreases i,
    {
        let w = &parts[i - 1];
        let ghost pre = ws.take(i - from);
        proof {
            assert(pre.last() == w@);
            assert(pre.drop_last() =~= ws.take(i - 1 - from));
        }
        if starts_with(w.as_slice(), tag) {
            let v = slice_chars(w.as_slice(), tag.len(), w.len());
            assert(v@ =~= w@.skip(tag@.len() as int));
            return Some(v);
        }
        i = i - 1;
    }
    proof {
        assert(ws.take(0).len() == 0);
    }
    None
}

fn any_tagged(parts: &Vec<Vec<char>>, from: usize, tag: &[char]) -> (b: bool)
    requires
        from <= parts@.len(),
    ensures
        b == has_tagged(parts@.skip(from as int).map_values(|w: Vec<char>| w@), tag@),
{
    let ghost ws = parts@.skip(from as int).map_values(|w: Vec<char>| w@);
    let n = parts.len();
    let mut i: usize = from;
    while i < n
        invariant
            from <= i <= n,
            n == parts@.len(),
            ws == parts@.skip(from as int).map_values(|w: Vec<char>| w@),
            forall|j: int| 0 <= j < i - from ==> !has_prefix(#[trigger] ws[j], tag@),
        decreases n - i,
    {
        if starts_with(parts[i].as_slice(), tag) {
            assert(ws[i - from] == parts@[i as int]@);
            return true;
        }
        i = i + 1;
    }
    false
}

fn opt_string(v: Option<Vec<char>>) -> (r: Option<String>)
    ensures
        opt_view(r) == (match v {
            Some(w) => Some(w@),
            None => None,
        }),
{
    match v {
        Some(w) => Some(string_from_chars(w.as_slice())),
        None => None,
    }
}

/// Parses one line of `adb devices -l` into a device target.
pub fn parse_adb_device_line(line: &str) -> (r: Option<DeviceTarget>)
    ensures
        r is None <==> adb_line_skipped(line@),
        r matches Some(d) ==> describes_device(line@, d),
{
    let chars = to_chars(line);
    let (a, b) = trim_bounds(chars.as_slice());
    let t = slice_chars(chars.as_slice(), a, b);
    if t.len() == 0 {
        return None;
    }
    let header = to_chars("List of devices attached");
    let daemon = to_chars("* daemon");
    if starts_with(t.as_slice(), header.as_slice()) || starts_with(t.as_slice(), daemon.as_slice()) {
        return None;
    }
    let parts = split_words(t.as_slice());
    if parts.len() < 2 {
        return None;
    }
    let ghost ws = words(t@);
    proof {
        assert(parts@.skip(2).map_values(|w: Vec<char>| w@) =~= ws.skip(2));
    }
    let serial_chars = &parts[0];
    let serial = string_from_chars(serial_chars.as_slice());
    let state = string_from_chars(parts[1].as_slice());

    let product_tag = to_chars("product:");
    let model_tag = to_chars("model:");
    let device_tag = to_chars("device:");
    let transport_tag = to_chars("transport_id:");
    let usb_tag = to_chars("usb:");

    let product_v = find_tagged(&parts, 2, product_tag.as_slice());
    let model_v = find_tagged(&parts, 2, model_tag.as_slice());
    let device_v = find_tagged(&parts, 2, device_tag.as_slice());
    let transport_v = find_tagged(&parts, 2, transport_tag.as_slice());
    let has_usb = any_tagged(&parts, 2, usb_tag.as_slice());

    let emulator_prefix = to_chars("emulator-");
    let mut is_emulator = starts_with(serial_chars.as_slice(), emulator_prefix.as_slice());
    if !is_emulator {
        match &product_v {
            Some(p) => {
                let sdk = to_chars("sdk");
                let goldfish = to_chars("goldfish");
                let ranchu = to_chars("ranchu");
                is_emulator = contains(p.as_slice(), sdk.as_slice()) || contains(
                    p.as_slice(),
                    goldfish.as_slice(),
                ) || contains(p.as_slice(), ranchu.as_slice());
            },
            None => {},
        }
    }
    if !is_emulator {
        is_emulator = !has_usb && !all_letters(serial_chars.as_slice());
    }
    let target_type = if is_emulator {
        TargetType::Emulator
    } else {
        TargetType::UsbPhone
    };

    Some(
        DeviceTarget {
            serial,
            state,
            target_type,
            product: opt_string(product_v),
            model: opt_string(model_v),
            device: opt_string(device_v),
            transport_id: opt_string(transport_v),
            boot_completed: false,
        },
    )
}

/// `getprop sys.boot_completed` printed `1` (surrounding whitespace aside).
pub open spec fn boot_completed_output(text: Seq<char>) -> bool {
    trim(text) == "1"@
}

/// Whether the output of `getprop sys.boot_completed` says the device has
/// finished booting.
pub fn is_boot_completed_output(text: &str) -> (b: bool)
    ensures
        b == boot_completed_output(text@),
{
    let t = crate::text::trimmed(text);
    let one = "1".to_owned();
    t == one
}

} // verus!
