use vstd::prelude::*;

use crate::target::Registry;
use vstd::string::*;

use crate::target::views;

verus! {

/// A connected device as reported by the platform's enumeration tool.
#[derive(Debug)]
pub struct Device {
    pub name: String,
    /// The architecture the device runs.
    pub arch: String,
}

/// Why no device could be chosen.
#[derive(Debug)]
pub enum SelectError {
    NoDevicesDetected,
    /// The operator's answer could not be read, or named no listed device.
    PromptFailed(String),
}

/// The outcome of choosing among the listed devices.
#[derive(Debug)]
pub enum Choice {
    /// The device at this position was chosen.
    Device(usize),
    /// Several devices are connected: the operator must pick one.
    AskOperator,
}

/// Picks the device to use: the only one when exactly one is connected;
/// the operator is asked when there are several; none is a failure.
pub fn select_device(devices: &Vec<Device>) -> (r: Result<Choice, SelectError>)
    ensures
        devices@.len() == 0 <==> r matches Err(SelectError::NoDevicesDetected),
        devices@.len() == 1 <==> r matches Ok(Choice::Device(0)),
        devices@.len() > 1 <==> r matches Ok(Choice::AskOperator),
{
    if devices.len() == 0 {
        Err(SelectError::NoDevicesDetected)
    } else if devices.len() == 1 {
        Ok(Choice::Device(0))
    } else {
        Ok(Choice::AskOperator)
    }
}

/// Takes the operator's answer: a position among the listed devices, or the
/// reason none could be read.
pub fn answer_prompt(devices: &Vec<Device>, answer: Result<usize, String>) -> (r: Result<usize, SelectError>)
    ensures
        match answer {
            Ok(i) => if i < devices@.len() {
                r == Ok::<usize, SelectError>(i)
            } else {
                r matches Err(SelectError::PromptFailed(m)) && m@ == "the chosen device is not among those listed"@
            },
            Err(msg) => r matches Err(SelectError::PromptFailed(m)) && m@ == msg@,
        },
{
    match answer {
        Ok(i) => if i < devices.len() {
            Ok(i)
        } else {
            Err(SelectError::PromptFailed(String::from_str("the chosen device is not among those listed")))
        },
        Err(msg) => Err(SelectError::PromptFailed(msg)),
    }
}

/// The target a device runs, found by its architecture.
pub fn device_target(reg: &Registry, device: &Device) -> (r: Option<usize>)
    ensures
        r is Some <==> exists|k: int| 0 <= k < reg@.len() && reg@[k].arch@ == device.arch@,
        r matches Some(i) ==> i < reg@.len() && reg@[i as int].arch@ == device.arch@
            && forall|k: int| 0 <= k < i ==> reg@[k].arch@ != device.arch@,
{
    reg.for_arch(&device.arch)
}

/// The lines of `s`, split at each newline; a trailing newline leaves an
/// empty last line.
pub open spec fn split_lines(s: Seq<char>) -> Seq<Seq<char>>
    decreases s.len(),
{
    if s.len() == 0 {
        seq![Seq::empty()]
    } else {
        let p = split_lines(s.drop_last());
        if s.last() == '\n' {
            p.push(Seq::empty())
        } else {
            p.update(p.len() - 1, p.last().push(s.last()))
        }
    }
}

/// The serial number on a line of `adb devices` output, when the line
/// reports an attached, usable device (`SERIAL<tab>device`).
pub open spec fn attached_serial(line: Seq<char>) -> Option<Seq<char>> {
    if line.len() > 7 && line.subrange(line.len() - 7, line.len() as int) == "\tdevice"@ {
        Some(line.take(line.len() - 7))
    } else {
        None
    }
}

/// The serial numbers reported on `lines`, in order.
pub open spec fn serials_of(lines: Seq<Seq<char>>) -> Seq<Seq<char>>
    decreases lines.len(),
{
    if lines.len() == 0 {
        Seq::empty()
    } else {
        serials_of(lines.drop_last()) + match attached_serial(lines.last()) {
            Some(x) => seq![x],
            None => Seq::empty(),
        }
    }
}

/// The devices `adb devices` reports, in its order: every line after the
/// heading that names an attached device.
pub open spec fn adb_serials(text: Seq<char>) -> Seq<Seq<char>> {
    serials_of(split_lines(text).drop_first())
}

fn attached_serial_at(s: &str, start: usize, end: usize) -> (r: Option<String>)
    requires
        start <= end <= s@.len(),
    ensures
        match attached_serial(s@.subrange(start as int, end as int)) {
            Some(x) => r matches Some(y) && y@ == x,
            None => r is None,
        },
{
    proof {
        reveal_strlit("\tdevice");
    }
    let ghost line = s@.subrange(start as int, end as int);
    if end - start <= 7 {
        return None;
    }
    let e = end - 7;
    let tagged = s.get_char(e) == '\t' && s.get_char(e + 1) == 'd' && s.get_char(e + 2) == 'e'
        && s.get_char(e + 3) == 'v' && s.get_char(e + 4) == 'i' && s.get_char(e + 5) == 'c'
        && s.get_char(e + 6) == 'e';
    let ghost tail = line.subrange(line.len() - 7, line.len() as int);
    if tagged {
        assert(tail =~= "\tdevice"@);
        let serial = String::from_str(s.substring_char(start, e));
        assert(serial@ =~= line.take(line.len() - 7));
        Some(serial)
    } else {
        assert(tail != "\tdevice"@) by {
            if tail == "\tdevice"@ {
                assert(tail[0] == s@[e as int]);
                assert(tail[1] == s@[e + 1]);
                assert(tail[2] == s@[e + 2]);
                assert(tail[3] == s@[e + 3]);
                assert(tail[4] == s@[e + 4]);
                assert(tail[5] == s@[e + 5]);
                assert(tail[6] == s@[e + 6]);
            }
        }
        None
    }
}

proof fn lemma_serials_push(lines: Seq<Seq<char>>, x: Seq<char>)
    ensures
        serials_of(lines.push(x)) == serials_of(lines) + match attached_serial(x) {
            Some(y) => seq![y],
            None => Seq::<Seq<char>>::empty(),
        },
{
    assert(lines.push(x).drop_last() =~= lines);
}

/// Parses `adb devices` output into the serial numbers of the attached
/// devices, in the order reported.
pub fn parse_adb_devices(text: &String) -> (r: Vec<String>)
    ensures
        views(r@) == adb_serials(text@),
{
    let s = text.as_str();
    let n = s.unicode_len();
    let mut out: Vec<String> = Vec::new();
    let mut start: usize = 0;
    let mut i: usize = 0;
    let mut heading = true;
    let ghost mut done: Seq<Seq<char>> = Seq::empty();
    assert(s@.take(0) =~= Seq::<char>::empty());
    assert(split_lines(s@.take(0)) =~= done.push(s@.subrange(0, 0)));
    while i < n
        invariant
            n == s@.len(),
            s@ == text@,
            start <= i <= n,
            split_lines(s@.take(i as int)) == done.push(s@.subrange(start as int, i as int)),
            heading <==> done.len() == 0,
            heading ==> out@.len() == 0,
            !heading ==> views(out@) == serials_of(done.drop_first()),
        decreases n - i,
    {
        let c = s.get_char(i);
        assert(s@.take(i + 1).drop_last() =~= s@.take(i as int));
        if c == '\n' {
            let ghost line = s@.subrange(start as int, i as int);
            if !heading {
                let found = attached_serial_at(s, start, i);
                proof {
                    lemma_serials_push(done.drop_first(), line);
                    assert(done.push(line).drop_first() =~= done.drop_first().push(line));
                }
                match found {
                    Some(serial) => {
                        let ghost before = out@;
                        out.push(serial);
                        assert(views(out@) =~= views(before) + seq![line.take(line.len() - 7)]);
                    },
                    None => {},
                }
            } else {
                assert(done.push(line).drop_first() =~= Seq::<Seq<char>>::empty());
            }
            proof {
                done = done.push(line);
            }
            heading = false;
            start = i + 1;
            assert(s@.subrange(start as int, i + 1) =~= Seq::<char>::empty());
        } else {
            assert(s@.subrange(start as int, i + 1) =~= s@.subrange(start as int, i as int).push(c));
        }
        i = i + 1;
    }
    assert(s@.take(n as int) =~= s@);
    let ghost last = s@.subrange(start as int, n as int);
    if !heading {
        let found = attached_serial_at(s, start, n);
        proof {
            lemma_serials_push(done.drop_first(), last);
            assert(done.push(last).drop_first() =~= done.drop_first().push(last));
        }
        match found {
            Some(serial) => {
                let ghost before = out@;
                out.push(serial);
                assert(views(out@) =~= views(before) + seq![last.take(last.len() - 7)]);
            },
            None => {},
        }
    } else {
        assert(done.push(last).drop_first() =~= Seq::<Seq<char>>::empty());
        assert(views(out@) =~= Seq::<Seq<char>>::empty());
    }
    out
}

} // verus!
