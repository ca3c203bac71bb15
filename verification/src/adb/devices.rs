//! Lists of devices as the adb server sends them: a line for each device,
//! with its serial, a tab, and its state.

use crate::bytes::{decode_lossy, encoded_text_decodes_to_itself, utf8_lossy};
use crate::text::{
    chars_of, is_empty, is_white_space, lemma_lines_concat, lemma_position_bound, line_at, lines,
    position, position_in, trim_end, trim_range, trim_start, trimmed,
};
use vstd::prelude::*;
use vstd::utf8::{decode_utf8, encode_utf8, valid_utf8};

verus! {

/// A device in a list.
#[derive(Debug, Clone, PartialEq, Eq)]
pub struct Device {
    pub serial: String,
    /// What adb calls the state of the device, as it is: "device" for one
    /// that can be used, and others for those that cannot.
    pub state: String,
}

/// A device as the characters it is written with.
pub struct Entry {
    pub serial: Seq<char>,
    pub state: Seq<char>,
}

impl Device {
    /// The characters of a device.
    pub open spec fn entry(self) -> Entry {
        Entry { serial: self.serial@, state: self.state@ }
    }
}

/// The characters of several devices.
pub open spec fn entries(devices: Seq<Device>) -> Seq<Entry> {
    devices.map_values(|d: Device| d.entry())
}

/// What a line lists: what stands before the first tab and what stands after
/// it, both without white space around them. A line without a tab, or with
/// nothing before it, lists nothing.
pub open spec fn entry_of(line: Seq<char>) -> Option<Entry> {
    let tab = position(line, '\t') as int;
    if tab >= line.len() {
        None
    } else {
        let serial = trimmed(line.take(tab));
        if serial.len() == 0 {
            None
        } else {
            Some(Entry { serial, state: trimmed(line.skip(tab + 1)) })
        }
    }
}

/// What several lines list, in order.
pub open spec fn listed(lines: Seq<Seq<char>>) -> Seq<Entry>
    decreases lines.len(),
{
    if lines.len() == 0 {
        Seq::empty()
    } else {
        match entry_of(lines.first()) {
            Some(entry) => seq![entry] + listed(lines.drop_first()),
            None => listed(lines.drop_first()),
        }
    }
}

/// Reads the line `chars[from..to]`.
fn parse_line(chars: &[char], from: usize, to: usize) -> (device: Option<Device>)
    requires
        from <= to <= chars.len(),
    ensures
        match device {
            Some(device) => entry_of(chars@.subrange(from as int, to as int)) == Some(
                device.entry(),
            ),
            None => entry_of(chars@.subrange(from as int, to as int)) is None,
        },
{
    let ghost line = chars@.subrange(from as int, to as int);
    let tab: usize = position_in(chars, from, to, '\t');
    if tab == to {
        return None;
    }
    proof {
        assert(line.take(tab - from) == chars@.subrange(from as int, tab as int));
        assert(line.skip(tab - from + 1) == chars@.subrange(tab + 1, to as int));
    }
    let serial = trim_range(chars, from, tab);
    if is_empty(serial.as_str()) {
        return None;
    }
    let state = trim_range(chars, tab + 1, to);
    Some(Device { serial, state })
}

/// Reads a list of devices from text.
pub fn parse_device_text(text: &str) -> (devices: Vec<Device>)
    ensures
        entries(devices@) == listed(lines(text@)),
{
    let chars = chars_of(text);
    let mut devices: Vec<Device> = Vec::new();
    let mut start: usize = 0;
    proof {
        assert(chars@.skip(0) == chars@);
        assert(entries(devices@) + listed(lines(text@)) == listed(lines(text@)));
    }
    while start < chars.len()
        invariant
            start <= chars.len(),
            entries(devices@) + listed(lines(chars@.skip(start as int))) == listed(lines(text@)),
        decreases chars.len() - start,
    {
        let ghost rest = lines(chars@.skip(start as int));
        let ghost before = entries(devices@);
        let (end, next) = line_at(chars.as_slice(), start);
        let ghost line = chars@.subrange(start as int, end as int);
        proof {
            assert(rest.first() == line);
            assert(rest.drop_first() == lines(chars@.skip(next as int)));
        }
        match parse_line(chars.as_slice(), start, end) {
            Some(device) => {
                let ghost entry = device.entry();
                devices.push(device);
                proof {
                    assert(entries(devices@) == before.push(entry));
                    assert(before + (seq![entry] + listed(rest.drop_first())) == before.push(entry)
                        + listed(rest.drop_first()));
                }
            },
            None => {},
        }
        start = next;
    }
    proof {
        assert(chars@.skip(start as int) == Seq::<char>::empty());
        assert(listed(lines(Seq::<char>::empty())) == Seq::<Entry>::empty());
        assert(entries(devices@) + Seq::<Entry>::empty() == entries(devices@));
    }
    devices
}

/// Reads a list of devices as it was sent.
pub fn parse_device_list(payload: &[u8]) -> (devices: Vec<Device>)
    ensures
        entries(devices@) == listed(lines(utf8_lossy(payload@))),
        valid_utf8(payload@) ==> entries(devices@) == listed(lines(decode_utf8(payload@))),
{
    let text = decode_lossy(payload);
    parse_device_text(text.as_str())
}

proof fn lemma_listed_concat(a: Seq<Seq<char>>, b: Seq<Seq<char>>)
    ensures
        listed(a + b) == listed(a) + listed(b),
    decreases a.len(),
{
    if a.len() == 0 {
        assert(a + b == b);
        assert(listed(a) + listed(b) == listed(b));
    } else {
        lemma_listed_concat(a.drop_first(), b);
        assert((a + b).drop_first() == a.drop_first() + b);
        assert((a + b).first() == a.first());
        match entry_of(a.first()) {
            Some(entry) => {
                assert(seq![entry] + (listed(a.drop_first()) + listed(b)) == (seq![entry] + listed(
                    a.drop_first(),
                )) + listed(b));
            },
            None => {},
        }
    }
}

/// Two lists, one after the other, list what the one lists and then what the
/// other does.
pub proof fn lists_add_up(a: Seq<char>, b: Seq<char>)
    ensures
        listed(lines(a.push('\n') + b)) == listed(lines(a.push('\n'))) + listed(lines(b)),
{
    lemma_lines_concat(a, b);
    lemma_listed_concat(lines(a.push('\n')), lines(b));
}

/// Every device that is listed has a serial.
pub proof fn every_listed_device_has_a_serial(lines: Seq<Seq<char>>, i: int)
    requires
        0 <= i < listed(lines).len(),
    ensures
        listed(lines)[i].serial.len() > 0,
    decreases lines.len(),
{
    match entry_of(lines.first()) {
        Some(entry) => {
            if i > 0 {
                every_listed_device_has_a_serial(lines.drop_first(), i - 1);
            }
        },
        None => {
            every_listed_device_has_a_serial(lines.drop_first(), i);
        },
    }
}

/// Whether a text comes through a list unchanged: it must have no white
/// space at its ends and hold neither a tab nor a line feed.
pub open spec fn plain(text: Seq<char>) -> bool {
    &&& trimmed(text) == text
    &&& !text.contains('\t')
    &&& !text.contains('\n')
}

/// The line for a device.
pub open spec fn line_for(entry: Entry) -> Seq<char> {
    entry.serial + seq!['\t'] + entry.state + seq!['\n']
}

/// A device whose serial and state are plain is read back from its line as
/// it was.
pub proof fn a_listed_device_reads_back(entry: Entry)
    requires
        entry.serial.len() > 0,
        plain(entry.serial),
        plain(entry.state),
    ensures
        listed(lines(line_for(entry))) == seq![entry],
{
    let line = line_for(entry);
    let n = entry.serial.len() as int;
    let inner = line.drop_last();
    lemma_position_bound(line, '\n');
    let end = position(line, '\n') as int;
    assert(line[line.len() - 1] == '\n');
    assert(end == line.len() - 1) by {
        if end < line.len() - 1 {
            if end < n {
                assert(entry.serial.contains(entry.serial[end]));
            } else if end > n {
                assert(entry.state.contains(entry.state[end - n - 1]));
            }
        }
    }
    assert(line.take(end) == inner);
    assert(line.skip(end + 1) == Seq::<char>::empty());
    lemma_position_bound(inner, '\t');
    let tab = position(inner, '\t') as int;
    assert(inner[n] == '\t');
    assert(tab == n) by {
        if tab < n {
            assert(entry.serial.contains(entry.serial[tab]));
        }
    }
    assert(inner.last() != '\r') by {
        if entry.state.len() > 0 {
            lemma_trimmed_ends(entry.state);
            assert(inner.last() == entry.state.last());
        }
    }
    assert(inner.take(tab) == entry.serial);
    assert(inner.skip(tab + 1) == entry.state);
    let single = lines(line);
    assert(single == seq![inner] + lines(Seq::<char>::empty()));
    assert(single == seq![inner]);
    assert(single.drop_first() == Seq::<Seq<char>>::empty());
    assert(listed(single) == seq![entry] + listed(Seq::<Seq<char>>::empty()));
    assert(seq![entry] + Seq::<Entry>::empty() == seq![entry]);
}

/// The list of several devices.
pub open spec fn list_for(entries: Seq<Entry>) -> Seq<char>
    decreases entries.len(),
{
    if entries.len() == 0 {
        Seq::empty()
    } else {
        line_for(entries.first()) + list_for(entries.drop_first())
    }
}

/// Whether devices come through a list unchanged.
pub open spec fn all_plain(entries: Seq<Entry>) -> bool {
    forall|i: int|
        0 <= i < entries.len() ==> {
            &&& (#[trigger] entries[i]).serial.len() > 0
            &&& plain(entries[i].serial)
            &&& plain(entries[i].state)
        }
}

proof fn lemma_list_reads_back(entries: Seq<Entry>)
    requires
        all_plain(entries),
    ensures
        listed(lines(list_for(entries))) == entries,
    decreases entries.len(),
{
    if entries.len() > 0 {
        let first = entries.first();
        let rest = entries.drop_first();
        assert(entries[0] == first);
        assert forall|i: int| 0 <= i < rest.len() implies {
            &&& (#[trigger] rest[i]).serial.len() > 0
            &&& plain(rest[i].serial)
            &&& plain(rest[i].state)
        } by {
            assert(rest[i] == entries[i + 1]);
        }
        lemma_list_reads_back(rest);
        a_listed_device_reads_back(first);
        let inner = first.serial + seq!['\t'] + first.state;
        assert(line_for(first) == inner.push('\n'));
        lists_add_up(inner, list_for(rest));
        assert(seq![first] + rest == entries);
    }
}

/// A list of devices whose serials and states are plain is read back as it
/// was sent.
pub proof fn a_sent_list_reads_back(entries: Seq<Entry>)
    requires
        all_plain(entries),
    ensures
        valid_utf8(encode_utf8(list_for(entries))),
        listed(lines(decode_utf8(encode_utf8(list_for(entries))))) == entries,
{
    encoded_text_decodes_to_itself(list_for(entries));
    lemma_list_reads_back(entries);
}

proof fn lemma_trim_end_shrinks(s: Seq<char>)
    ensures
        trim_end(s).len() <= s.len(),
        trim_end(s).len() == s.len() ==> s.len() == 0 || !is_white_space(s.last()),
    decreases s.len(),
{
    if s.len() > 0 && is_white_space(s.last()) {
        lemma_trim_end_shrinks(s.drop_last());
    }
}

proof fn lemma_trim_start_shrinks(s: Seq<char>)
    ensures
        trim_start(s).len() <= s.len(),
        trim_start(s).len() == s.len() ==> trim_start(s) == s,
    decreases s.len(),
{
    if s.len() > 0 && is_white_space(s.first()) {
        lemma_trim_start_shrinks(s.drop_first());
    }
}

/// A text that trimming leaves alone does not end in white space.
proof fn lemma_trimmed_ends(s: Seq<char>)
    requires
        trimmed(s) == s,
        s.len() > 0,
    ensures
        !is_white_space(s.last()),
{
    lemma_trim_start_shrinks(s);
    lemma_trim_end_shrinks(trim_start(s));
}

} // verus!
