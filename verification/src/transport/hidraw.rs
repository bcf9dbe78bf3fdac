//! HID frames: the reports in which a dongle on USB hands over its bytes.
use crate::text;
use vstd::prelude::*;
use vstd::string::*;

verus! {

/// The protocol bytes in a HID frame. Its first byte counts those that follow, 63
/// at most; what stands behind them is left over from earlier frames. A frame
/// that starts with a magic byte has no count and is taken whole.
pub open spec fn frame_data(raw: Seq<u8>) -> Seq<u8> {
    if raw.len() == 0 {
        Seq::empty()
    } else if raw[0] == 0x55 || raw[0] == 0xAA {
        raw
    } else {
        let stated: int = if raw[0] > 0x3F {
            0x3F
        } else {
            raw[0] as int
        };
        let n = if stated < raw.len() - 1 {
            stated
        } else {
            raw.len() - 1
        };
        raw.subrange(1, 1 + n)
    }
}

/// Puts the protocol bytes of a HID frame into `output`, as many as fit, and says
/// how many they are.
pub fn extract_hid_frame(raw: &[u8], output: &mut [u8]) -> (r: usize)
    ensures
        r == (if frame_data(raw@).len() <= old(output)@.len() {
            frame_data(raw@).len()
        } else {
            old(output)@.len()
        }),
        final(output)@ == frame_data(raw@).subrange(0, r as int) + old(output)@.subrange(
            r as int,
            old(output)@.len() as int,
        ),
{
    if raw.len() == 0 {
        proof {
            assert(frame_data(raw@).subrange(0, 0) + output@.subrange(0, output@.len() as int)
                =~= output@);
        }
        return 0;
    }
    let first = raw[0];
    let start: usize;
    let length: usize;
    if first != 0x55 && first != 0xAA {
        let stated: usize = if first > 0x3F {
            0x3F
        } else {
            first as usize
        };
        start = 1;
        length = if stated < raw.len() - 1 {
            stated
        } else {
            raw.len() - 1
        };
    } else {
        start = 0;
        length = raw.len();
    }
    let n: usize = if length < output.len() {
        length
    } else {
        output.len()
    };
    let ghost frame = frame_data(raw@);
    proof {
        assert(frame =~= raw@.subrange(start as int, start + length));
    }
    copy_into(raw, start, n, output);
    proof {
        assert(raw@.subrange(start as int, start + n) =~= frame.subrange(0, n as int));
    }
    n
}

/// Copies `n` bytes of `src` from `start` on to the front of `dst`.
pub(crate) fn copy_into(src: &[u8], start: usize, n: usize, dst: &mut [u8])
    requires
        start + n <= src@.len(),
        n <= old(dst)@.len(),
    ensures
        final(dst)@ == src@.subrange(start as int, start + n) + old(dst)@.subrange(
            n as int,
            old(dst)@.len() as int,
        ),
{
    let total: usize = src.len();
    let ghost before = dst@;
    let mut i: usize = 0;
    while i < n
        invariant
            i <= n,
            total == src@.len(),
            start + n <= total,
            n <= dst@.len(),
            before == old(dst)@,
            dst@.len() == before.len(),
            forall|j: int| 0 <= j < i ==> dst@[j] == src@[start + j],
            forall|j: int| i <= j < before.len() ==> dst@[j] == before[j],
        decreases n - i,
    {
        dst[i] = src[start + i];
        i += 1;
    }
    proof {
        assert(dst@ =~= src@.subrange(start as int, start + n) + before.subrange(
            n as int,
            before.len() as int,
        ));
    }
}

/// Whether a sysfs link in lower case leads to the dongle: vendor 1a86, product e024.
pub open spec fn holds_dongle_id(lower: Seq<char>) -> bool {
    text::has_part(lower, "1a86:e024"@) || (text::has_part(lower, "1a86"@) && text::has_part(
        lower,
        "e024"@,
    ))
}

/// Whether a sysfs link leads to the dongle.
pub open spec fn names_dongle(link: Seq<char>) -> bool {
    holds_dongle_id(text::lowercase(link))
}

/// The device node of a directory entry whose link leads to the dongle.
pub open spec fn device_node(name: Seq<char>) -> Seq<char> {
    "/dev/"@ + name
}

/// Names with the targets of their links.
pub open spec fn links(entries: Seq<(String, String)>) -> Seq<(Seq<char>, Seq<char>)> {
    Seq::new(entries.len(), |i: int| (entries[i].0@, entries[i].1@))
}

/// The device nodes of all dongles, in the order of the directory.
pub open spec fn dongle_nodes(entries: Seq<(Seq<char>, Seq<char>)>) -> Seq<Seq<char>>
    decreases entries.len(),
{
    if entries.len() == 0 {
        Seq::empty()
    } else if names_dongle(entries.last().1) {
        dongle_nodes(entries.drop_last()).push(device_node(entries.last().0))
    } else {
        dongle_nodes(entries.drop_last())
    }
}

/// Whether a sysfs link in lower case leads to the dongle.
pub fn is_dongle_link(lower: &str) -> (r: bool)
    ensures
        r == holds_dongle_id(lower@),
{
    text::contains(lower, "1a86:e024") || (text::contains(lower, "1a86") && text::contains(
        lower,
        "e024",
    ))
}

fn leads_to_dongle(link: &str) -> (r: bool)
    ensures
        r == names_dongle(link@),
{
    is_dongle_link(text::to_lowercase(link).as_str())
}

fn make_device_node(name: &str) -> (r: String)
    ensures
        r@ == device_node(name@),
{
    let mut path = "/dev/".to_owned();
    path.append(name);
    path
}

/// Picks the device node of the dongle from the entries of the hidraw class
/// directory, each a name with the target of its link: the first that matches.
pub fn discover_dongle_device(entries: &[(String, String)]) -> (r: Option<String>)
    ensures
        match r {
            Some(path) => exists|i: int|
                #![trigger entries@[i]]
                0 <= i < entries@.len() && names_dongle(entries@[i].1@) && path@ == device_node(
                    entries@[i].0@,
                ) && forall|j: int|
                    0 <= j < i ==> !names_dongle((#[trigger] entries@[j]).1@),
            None => forall|j: int|
                0 <= j < entries@.len() ==> !names_dongle((#[trigger] entries@[j]).1@),
        },
        text::option_view(r) == first_of(dongle_nodes(links(entries@))),
{
    let ghost all = links(entries@);
    let mut i: usize = 0;
    while i < entries.len()
        invariant
            i <= entries@.len(),
            all == links(entries@),
            forall|j: int| 0 <= j < i ==> !names_dongle((#[trigger] entries@[j]).1@),
        decreases entries@.len() - i,
    {
        if leads_to_dongle(entries[i].1.as_str()) {
            proof {
                assert forall|j: int| 0 <= j < i implies !names_dongle((#[trigger] all[j]).1) by {
                    assert(all[j].1 == entries@[j].1@);
                }
                lemma_first_node(all, i as int);
            }
            return Some(make_device_node(entries[i].0.as_str()));
        }
        i += 1;
    }
    proof {
        assert forall|j: int| 0 <= j < all.len() implies !names_dongle((#[trigger] all[j]).1) by {
            assert(all[j].1 == entries@[j].1@);
        }
        lemma_no_node(all);
    }
    None
}

/// The first of some texts, if there is one.
pub open spec fn first_of(s: Seq<Seq<char>>) -> Option<Seq<char>> {
    if s.len() > 0 {
        Some(s[0])
    } else {
        None
    }
}

proof fn lemma_no_node(entries: Seq<(Seq<char>, Seq<char>)>)
    requires
        forall|j: int| 0 <= j < entries.len() ==> !names_dongle((#[trigger] entries[j]).1),
    ensures
        dongle_nodes(entries).len() == 0,
    decreases entries.len(),
{
    if entries.len() > 0 {
        let d = entries.drop_last();
        assert(entries.last() == entries[entries.len() - 1]);
        assert forall|j: int| 0 <= j < d.len() implies !names_dongle((#[trigger] d[j]).1) by {
            assert(d[j] == entries[j]);
        }
        lemma_no_node(d);
    }
}

proof fn lemma_first_node(entries: Seq<(Seq<char>, Seq<char>)>, i: int)
    requires
        0 <= i < entries.len(),
        names_dongle(entries[i].1),
        forall|j: int| 0 <= j < i ==> !names_dongle((#[trigger] entries[j]).1),
    ensures
        dongle_nodes(entries).len() > 0,
        dongle_nodes(entries)[0] == device_node(entries[i].0),
    decreases entries.len(),
{
    let d = entries.drop_last();
    assert(entries.last() == entries[entries.len() - 1]);
    assert forall|j: int| 0 <= j < i && j < d.len() implies !names_dongle((#[trigger] d[j]).1) by {
        assert(d[j] == entries[j]);
    }
    if i < d.len() {
        assert(d[i] == entries[i]);
        lemma_first_node(d, i);
    } else {
        lemma_no_node(d);
    }
}

/// Picks the device nodes of all dongles from the entries of the hidraw class
/// directory.
pub fn discover_all_dongle_devices(entries: &[(String, String)]) -> (r: Vec<String>)
    ensures
        text::views(r@) == dongle_nodes(links(entries@)),
{
    let ghost all = links(entries@);
    let mut found: Vec<String> = Vec::new();
    proof {
        assert(text::views(found@) =~= Seq::empty());
    }
    let mut i: usize = 0;
    while i < entries.len()
        invariant
            i <= entries@.len(),
            all == links(entries@),
            text::views(found@) == dongle_nodes(all.subrange(0, i as int)),
        decreases entries@.len() - i,
    {
        proof {
            let w = all.subrange(0, i + 1);
            assert(w.drop_last() =~= all.subrange(0, i as int));
            assert(w.last() == all[i as int]);
        }
        if leads_to_dongle(entries[i].1.as_str()) {
            let node = make_device_node(entries[i].0.as_str());
            let ghost before = found@;
            found.push(node);
            proof {
                assert(text::views(found@) =~= text::views(before).push(node@));
            }
        }
        i += 1;
    }
    proof {
        assert(all.subrange(0, all.len() as int) =~= all);
    }
    found
}

/// Every dongle is found, and nothing but dongles.
pub proof fn law_all_dongles_are_found(entries: Seq<(Seq<char>, Seq<char>)>, node: Seq<char>)
    ensures
        dongle_nodes(entries).contains(node) <==> exists|i: int|
            0 <= i < entries.len() && names_dongle((#[trigger] entries[i]).1) && device_node(
                entries[i].0,
            ) == node,
    decreases entries.len(),
{
    if entries.len() > 0 {
        let d = entries.drop_last();
        let n = dongle_nodes(d);
        let last = entries.last();
        law_all_dongles_are_found(d, node);
        if n.contains(node) {
            let i = choose|i: int|
                0 <= i < d.len() && names_dongle((#[trigger] d[i]).1) && device_node(d[i].0)
                    == node;
            assert(entries[i] == d[i]);
            assert(n.push(device_node(last.0))[n.index_of(node)] == node);
        }
        assert(n.push(device_node(last.0))[n.len() as int] == device_node(last.0));
        assert(entries[entries.len() - 1] == last);
        if exists|i: int|
            0 <= i < entries.len() && names_dongle((#[trigger] entries[i]).1) && device_node(
                entries[i].0,
            ) == node {
            let i = choose|i: int|
                0 <= i < entries.len() && names_dongle((#[trigger] entries[i]).1) && device_node(
                    entries[i].0,
                ) == node;
            if i < d.len() {
                assert(d[i] == entries[i]);
            }
        }
    }
}

/// What a frame leaves over from earlier frames is never handed on: frames that
/// agree in their count and in the bytes it counts give the same data.
pub proof fn law_stale_bytes_are_dropped(data: Seq<u8>, a: Seq<u8>, b: Seq<u8>)
    requires
        data.len() <= 63,
    ensures
        ({
            let count = seq![data.len() as u8];
            frame_data(count + data + a) == data && frame_data(count + data + a) == frame_data(
                count + data + b,
            )
        }),
{
    let count = seq![data.len() as u8];
    assert((count + data + a).subrange(1, data.len() as int + 1) =~= data);
    assert((count + data + b).subrange(1, data.len() as int + 1) =~= data);
    assert((count + data + a)[0] == data.len() as u8);
    assert((count + data + b)[0] == data.len() as u8);
}

/// No frame hands over more than it holds.
pub proof fn law_frame_data_fits(raw: Seq<u8>)
    ensures
        frame_data(raw).len() <= raw.len(),
        raw.len() > 0 && raw[0] != 0x55 && raw[0] != 0xAA ==> frame_data(raw).len() <= 63,
{
}

/// A link leads to the dongle exactly where it holds both the vendor and the product, in any
/// place and any order.
pub proof fn law_links_to_the_dongle(lower: Seq<char>)
    ensures
        holds_dongle_id(lower) <==> text::has_part(lower, "1a86"@) && text::has_part(
            lower,
            "e024"@,
        ),
{
    reveal_strlit("1a86:e024");
    reveal_strlit("1a86");
    reveal_strlit("e024");
    let both = "1a86:e024"@;
    if text::has_part(lower, both) {
        let i = choose|i: int|
            0 <= i <= lower.len() - both.len() && #[trigger] lower.subrange(i, i + both.len())
                == both;
        let w = lower.subrange(i, i + both.len());
        let vendor = "1a86"@;
        let product = "e024"@;
        assert(both.subrange(0, 4) =~= vendor);
        assert(both.subrange(5, 9) =~= product);
        assert(lower.subrange(i, i + vendor.len()) =~= w.subrange(0, 4));
        let j = i + 5;
        assert(lower.subrange(j, j + product.len()) =~= w.subrange(5, 9));
    }
}

/// The device of an entry stands under `/dev/` by the entry's own name, and entries that do
/// not lead to a dongle have none.
pub proof fn law_devices_of_entries(
    entries: Seq<(Seq<char>, Seq<char>)>,
    name: Seq<char>,
    link: Seq<char>,
)
    ensures
        holds_dongle_id(text::lowercase(link)) ==> dongle_nodes(entries.push((name, link)))
            == dongle_nodes(entries).push("/dev/"@ + name),
        !holds_dongle_id(text::lowercase(link)) ==> dongle_nodes(entries.push((name, link)))
            == dongle_nodes(entries),
{
    assert(entries.push((name, link)).drop_last() =~= entries);
}

/// How a frame is read: one that starts with a magic byte is taken whole; any other hands over
/// as many bytes behind its first as that says, but never more than 63 nor more than there
/// are.
pub proof fn law_frame_is_read(raw: Seq<u8>)
    requires
        raw.len() > 0,
    ensures
        raw[0] == 0x55 || raw[0] == 0xAA ==> frame_data(raw) == raw,
        raw[0] != 0x55 && raw[0] != 0xAA ==> {
            let d = frame_data(raw);
            &&& d.len() <= raw[0] && d.len() <= 63 && d.len() <= raw.len() - 1
            &&& d.len() == raw[0] || d.len() == 63 || d.len() == raw.len() - 1
            &&& forall|i: int| 0 <= i < d.len() ==> #[trigger] d[i] == raw[i + 1]
        },
{
}

/// Of several dongles the one whose entry comes first is picked; without any there is none.
pub proof fn law_first_dongle_is_picked(first: Seq<char>, rest: Seq<Seq<char>>)
    ensures
        first_of(seq![first] + rest) == Some(first),
        first_of(Seq::empty()) is None,
{
}

} // verus!
