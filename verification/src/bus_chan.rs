//! Extractor for the bus/channel topology encoded in a device directory's
//! own name.

use vstd::prelude::*;
use crate::UsbError;
use crate::device::{DeviceModel, USBDevice};
use crate::text;

verus! {

/// Split a name at its first `-`: the part before it and everything after
/// it. `None` when the name holds no `-` at all.
pub open spec fn split_dash(s: Seq<char>) -> Option<(Seq<char>, Seq<char>)>
    decreases s.len(),
{
    if s.len() == 0 {
        None
    } else if s[0] == '-' {
        Some((Seq::empty(), s.drop_first()))
    } else {
        match split_dash(s.drop_first()) {
            None => None,
            Some(p) => Some((seq![s[0]] + p.0, p.1)),
        }
    }
}

/// What a device directory's name yields. The literal name `port` marks an
/// unpopulated port slot: no topology, not an error. Every other name must
/// split at its first `-` into two whitespace-trimmed decimal numbers that
/// fit in eight bits, the bus and the channel; everything else is a
/// malformed directory.
pub open spec fn spec_topology(name: Seq<char>) -> Result<Option<(u8, u8)>, UsbError> {
    if name == "port"@ {
        Ok(None)
    } else {
        match split_dash(name) {
            None => Err(UsbError::MalformedTopology),
            Some(p) => match text::parse_u8_spec(text::trim_spec(p.0)) {
                None => Err(UsbError::MalformedTopology),
                Some(bus) => match text::parse_u8_spec(text::trim_spec(p.1)) {
                    None => Err(UsbError::MalformedTopology),
                    Some(chan) => Ok(Some((bus, chan))),
                },
            },
        }
    }
}

proof fn lemma_split_dash_none(s: Seq<char>)
    requires
        forall|j: int| 0 <= j < s.len() ==> s[j] != '-',
    ensures
        split_dash(s) == None::<(Seq<char>, Seq<char>)>,
    decreases s.len(),
{
    if s.len() > 0 {
        lemma_split_dash_none(s.drop_first());
    }
}

proof fn lemma_split_dash_at(s: Seq<char>, i: int)
    requires
        0 <= i < s.len(),
        s[i] == '-',
        forall|j: int| 0 <= j < i ==> s[j] != '-',
    ensures
        split_dash(s) == Some((s.take(i), s.skip(i + 1))),
    decreases i,
{
    if i == 0 {
        assert(s.take(0) =~= Seq::<char>::empty());
        assert(s.skip(1) =~= s.drop_first());
    } else {
        lemma_split_dash_at(s.drop_first(), i - 1);
        assert(seq![s[0]] + s.drop_first().take(i - 1) =~= s.take(i));
        assert(s.drop_first().skip(i) =~= s.skip(i + 1));
    }
}

/// Round trip over all well-formed device names: for every bus and
/// channel value, the name `<bus>-<chan>` (each part rendered in decimal)
/// yields exactly the single mapping from that bus to that channel; and
/// the literal name `port` yields no topology at all.
pub proof fn lemma_topology_round_trip(bus: u8, chan: u8)
    ensures
        spec_topology(text::dec_of(bus) + seq!['-'] + text::dec_of(chan)) == Ok::<
            Option<(u8, u8)>,
            UsbError,
        >(Some((bus, chan))),
        spec_topology("port"@) == Ok::<Option<(u8, u8)>, UsbError>(None),
{
    let a = text::dec_of(bus);
    let b = text::dec_of(chan);
    let name = a + seq!['-'] + b;
    text::lemma_parse_dec_of(bus);
    text::lemma_parse_dec_of(chan);
    reveal_strlit("port");
    assert(text::is_digit(a[0]));
    assert(name[0] == a[0]);
    assert(!text::is_digit('p'));
    assert(name != "port"@) by {
        if name == "port"@ {
            assert(name[0] == 'p');
        }
    }
    let i = a.len() as int;
    assert(name[i] == '-');
    assert forall|j: int| 0 <= j < i implies name[j] != '-' by {
        assert(name[j] == a[j]);
        assert(text::is_digit(a[j]));
    }
    lemma_split_dash_at(name, i);
    assert(name.take(i) =~= a);
    assert(name.skip(i + 1) =~= b);
}

/// Fill the record's topology field from the directory's own name; on a
/// malformed name the record is untouched.
pub fn write(name: &str, dev: &mut USBDevice) -> (r: Result<(), UsbError>)
    ensures
        (match spec_topology(name@) {
            Ok(t) => r is Ok && final(dev)@ == (DeviceModel { bus_chan: t, ..old(dev)@ }),
            Err(e) => r == Err::<(), UsbError>(e) && final(dev)@ == old(dev)@,
        }),
{
    let v = text::chars_of(name);
    if v.len() == 4 && v[0] == 'p' && v[1] == 'o' && v[2] == 'r' && v[3] == 't' {
        proof {
            reveal_strlit("port");
            assert(v@ =~= "port"@);
        }
        dev.bus_chan = None;
        return Ok(());
    }
    proof {
        reveal_strlit("port");
        assert(name@ != "port"@);
    }
    let n = v.len();
    let mut i: usize = 0;
    while i < n && v[i] != '-'
        invariant
            n == v@.len(),
            i <= n,
            forall|j: int| 0 <= j < i ==> v@[j] != '-',
        decreases n - i,
    {
        i = i + 1;
    }
    if i == n {
        proof {
            lemma_split_dash_none(v@);
        }
        return Err(UsbError::MalformedTopology);
    }
    proof {
        lemma_split_dash_at(v@, i as int);
    }
    let head = text::sub_chars(&v, 0, i);
    let tail = text::sub_chars(&v, i + 1, n);
    proof {
        assert(head@ =~= v@.take(i as int));
        assert(tail@ =~= v@.skip(i as int + 1));
    }
    let th = text::trim(&head);
    let tt = text::trim(&tail);
    let bus = match text::parse_u8(&th) {
        Some(b) => b,
        None => {
            return Err(UsbError::MalformedTopology);
        },
    };
    let chan = match text::parse_u8(&tt) {
        Some(c) => c,
        None => {
            return Err(UsbError::MalformedTopology);
        },
    };
    dev.bus_chan = Some((bus, chan));
    Ok(())
}

} // verus!
