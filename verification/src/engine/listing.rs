//! The list of sensors that are bound to a dongle, as it comes in one by one.
use crate::engine::command;
use crate::engine::command::Request;
use crate::engine::Engine;
use crate::protocol::packet::commands;
use crate::text;
use vstd::prelude::*;
use vstd::string::*;

verus! {

/// A listing: how many sensors there should be, and those that came in.
#[derive(Debug, PartialEq, Eq)]
pub struct Listing {
    count: u8,
    found: Vec<String>,
}

/// The model of a listing.
pub struct ListingView {
    pub count: u8,
    pub found: Seq<Seq<char>>,
}

impl View for Listing {
    type V = ListingView;

    closed spec fn view(&self) -> ListingView {
        ListingView { count: self.count, found: text::views(self.found@) }
    }
}

impl ListingView {
    pub open spec fn start(count: u8) -> ListingView {
        ListingView { count, found: Seq::empty() }
    }

    /// As many sensors came in as there should be.
    pub open spec fn complete(self) -> bool {
        self.found.len() >= self.count
    }

    /// A sensor came in. One that came before counts once, and what comes behind the
    /// last one that is expected does not count.
    pub open spec fn with(self, mac: Seq<char>) -> ListingView {
        if self.complete() || self.found.contains(mac) {
            self
        } else {
            ListingView { found: self.found.push(mac), ..self }
        }
    }

    /// Sensors came in.
    pub open spec fn with_all(self, macs: Seq<Seq<char>>) -> ListingView
        decreases macs.len(),
    {
        if macs.len() == 0 {
            self
        } else {
            self.with_all(macs.drop_last()).with(macs.last())
        }
    }
}

impl Listing {
    /// A listing of as many sensors as the dongle counts.
    pub fn new(count: u8) -> (r: Self)
        ensures
            r@ == ListingView::start(count),
    {
        let r = Listing { count, found: Vec::new() };
        proof {
            assert(r@.found =~= Seq::<Seq<char>>::empty());
        }
        r
    }

    /// What to ask the dongle; nothing where it counts no sensors.
    pub fn request(&self) -> (r: Option<Request>)
        ensures
            match r {
                Some(q) => self@.count > 0 && q@ == command::request_of(
                    commands::CMD_GET_SENSOR_LIST,
                    seq![self@.count],
                    commands::CMD_GET_SENSOR_LIST,
                ),
                None => self@.count == 0,
            },
    {
        if self.count == 0 {
            None
        } else {
            Some(Engine::get_sensor_list(self.count))
        }
    }

    /// Whether as many sensors came in as there should be.
    pub fn is_complete(&self) -> (r: bool)
        ensures
            r == self@.complete(),
    {
        self.found.len() >= self.count as usize
    }

    /// A sensor came in. Says whether the listing is complete.
    pub fn take(&mut self, mac: String) -> (r: bool)
        ensures
            final(self)@ == old(self)@.with(mac@),
            r == final(self)@.complete(),
    {
        if self.is_complete() {
            return true;
        }
        let ghost found = self@.found;
        let mut i: usize = 0;
        while i < self.found.len()
            invariant
                i <= self.found@.len(),
                found == text::views(self.found@),
                forall|j: int| 0 <= j < i ==> found[j] != mac@,
                *self == *old(self),
                !self@.complete(),
            decreases self.found@.len() - i,
        {
            if text::same(self.found[i].as_str(), mac.as_str()) {
                proof {
                    assert(found[i as int] == mac@);
                }
                return false;
            }
            i += 1;
        }
        let ghost v = mac@;
        self.found.push(mac);
        proof {
            assert(!found.contains(v));
            assert(self@.found =~= found.push(v));
        }
        self.is_complete()
    }

    /// The sensors that came in, in that order.
    pub fn found(&self) -> (r: &Vec<String>)
        ensures
            text::views(r@) == self@.found,
    {
        &self.found
    }
}

// ---------------------------------------------------------------------------
// Ghosts
// ---------------------------------------------------------------------------

/// An address of letters and digits only.
pub open spec fn is_plain(mac: Seq<char>) -> bool {
    forall|i: int| 0 <= i < mac.len() ==> text::is_alphanumeric_char(#[trigger] mac[i])
}

/// An entry of a listing that is no sensor, by whether its address is one of letters and
/// digits only: it is not, or it is all zeroes, or empty.
pub open spec fn ghost_given(mac: Seq<char>, plain: bool) -> bool {
    ||| !plain
    ||| mac.len() == 0
    ||| mac == "00000000"@
    ||| mac == "\0\0\0\0\0\0\0\0"@
}

/// An entry of a listing that is no sensor.
pub open spec fn ghost_mac(mac: Seq<char>) -> bool {
    ghost_given(mac, is_plain(mac))
}

/// Whether an entry of a listing is no sensor, by whether its address is one of letters
/// and digits only.
pub fn is_ghost_given(mac: &str, plain: bool) -> (r: bool)
    ensures
        r == ghost_given(mac@, plain),
{
    proof {
        reveal_strlit("");
        assert(mac@.len() == 0 ==> mac@ =~= ""@);
    }
    !plain || text::same(mac, "") || text::same(mac, "00000000") || text::same(
        mac,
        "\0\0\0\0\0\0\0\0",
    )
}

fn has_only_plain(mac: &str) -> (r: bool)
    ensures
        r == is_plain(mac@),
{
    let c = text::chars_of(mac);
    let mut i: usize = 0;
    while i < c.len()
        invariant
            i <= c@.len(),
            c@ == mac@,
            forall|j: int| 0 <= j < i ==> text::is_alphanumeric_char(#[trigger] mac@[j]),
        decreases c@.len() - i,
    {
        if !text::is_alphanumeric(c[i]) {
            proof {
                assert(!text::is_alphanumeric_char(mac@[i as int]));
            }
            return false;
        }
        i += 1;
    }
    true
}

/// Whether an entry of a listing is no sensor.
pub fn is_ghost(mac: &str) -> (r: bool)
    ensures
        r == ghost_mac(mac@),
{
    is_ghost_given(mac, has_only_plain(mac))
}

/// Those of the addresses that are no sensors.
pub open spec fn ghosts_of(macs: Seq<Seq<char>>) -> Seq<Seq<char>>
    decreases macs.len(),
{
    if macs.len() == 0 {
        Seq::empty()
    } else if ghost_mac(macs.last()) {
        ghosts_of(macs.drop_last()).push(macs.last())
    } else {
        ghosts_of(macs.drop_last())
    }
}

/// Those of the addresses that are no sensors, in their order.
pub fn ghosts(macs: &[String]) -> (r: Vec<String>)
    ensures
        text::views(r@) == ghosts_of(text::views(macs@)),
{
    let ghost v = text::views(macs@);
    let mut out: Vec<String> = Vec::new();
    proof {
        assert(text::views(out@) =~= Seq::empty());
    }
    let mut i: usize = 0;
    while i < macs.len()
        invariant
            i <= macs@.len(),
            v == text::views(macs@),
            text::views(out@) == ghosts_of(v.subrange(0, i as int)),
        decreases macs@.len() - i,
    {
        let mac = macs[i].as_str();
        proof {
            let w = v.subrange(0, i + 1);
            assert(w.drop_last() =~= v.subrange(0, i as int));
            assert(w.last() == mac@);
        }
        if is_ghost(mac) {
            let ghost before = out@;
            out.push(mac.to_owned());
            proof {
                assert(text::views(out@) =~= text::views(before).push(mac@));
            }
        }
        i += 1;
    }
    proof {
        assert(v.subrange(0, v.len() as int) =~= v);
    }
    out
}

// ---------------------------------------------------------------------------
// Laws
// ---------------------------------------------------------------------------

/// A listing holds each sensor once, no more of them than the dongle counts, and only
/// such as came in.
pub proof fn law_listing_is_a_set(count: u8, macs: Seq<Seq<char>>)
    ensures
        ListingView::start(count).with_all(macs).count == count,
        ListingView::start(count).with_all(macs).found.no_duplicates(),
        ListingView::start(count).with_all(macs).found.len() <= count,
        forall|k: Seq<char>|
            #![auto]
            ListingView::start(count).with_all(macs).found.contains(k) ==> macs.contains(k),
    decreases macs.len(),
{
    if macs.len() > 0 {
        let d = macs.drop_last();
        law_listing_is_a_set(count, d);
        let before = ListingView::start(count).with_all(d);
        let after = before.with(macs.last());
        assert(after == ListingView::start(count).with_all(macs));
        assert(macs[macs.len() - 1] == macs.last());
        assert forall|k: Seq<char>| #![auto] after.found.contains(k) implies macs.contains(k) by {
            if before.found.contains(k) {
                assert(d.contains(k));
                assert(macs[d.index_of(k)] == k);
            } else {
                let j = after.found.index_of(k);
                if j < before.found.len() {
                    assert(before.found[j] == k);
                }
            }
        }
        assert(after.found.no_duplicates()) by {
            assert forall|i: int, j: int|
                0 <= i < after.found.len() && 0 <= j < after.found.len() && i
                    != j implies after.found[i] != after.found[j] by {
                if after.found.len() > before.found.len() {
                    let n = before.found.len() as int;
                    if i == n && j < n {
                        assert(before.found[j] == after.found[j]);
                    } else if j == n && i < n {
                        assert(before.found[i] == after.found[i]);
                    }
                }
            }
        }
    }
}

/// A dongle that lists as many different sensors as it counts is listed whole and in
/// its order.
pub proof fn law_listing_is_whole(macs: Seq<Seq<char>>)
    requires
        macs.no_duplicates(),
        macs.len() <= 255,
    ensures
        ListingView::start(macs.len() as u8).with_all(macs).found == macs,
        ListingView::start(macs.len() as u8).with_all(macs).complete(),
{
    lemma_listing_prefix(macs, macs.len() as int);
    assert(macs.subrange(0, macs.len() as int) =~= macs);
}

proof fn lemma_listing_prefix(macs: Seq<Seq<char>>, n: int)
    requires
        macs.no_duplicates(),
        macs.len() <= 255,
        0 <= n <= macs.len(),
    ensures
        ListingView::start(macs.len() as u8).with_all(macs.subrange(0, n)) == (ListingView {
            count: macs.len() as u8,
            found: macs.subrange(0, n),
        }),
    decreases n,
{
    let w = macs.subrange(0, n);
    if n > 0 {
        lemma_listing_prefix(macs, n - 1);
        assert(w.drop_last() =~= macs.subrange(0, n - 1));
        let before = macs.subrange(0, n - 1);
        if before.contains(w.last()) {
            let j = before.index_of(w.last());
            assert(macs[j] == macs[n - 1]);
        }
        assert(before.push(w.last()) =~= w);
    } else {
        assert(w =~= Seq::<Seq<char>>::empty());
    }
}

/// What counts as no sensor: an address that holds anything but letters and digits, that is
/// empty, or that is eight zeros, as characters or as bytes.
pub proof fn law_what_is_no_sensor(mac: Seq<char>)
    ensures
        ghost_mac(mac) <==> {
            ||| mac.len() == 0
            ||| exists|i: int| 0 <= i < mac.len() && !text::is_alphanumeric_char(#[trigger] mac[i])
            ||| mac == seq!['0', '0', '0', '0', '0', '0', '0', '0']
            ||| mac == seq!['\0', '\0', '\0', '\0', '\0', '\0', '\0', '\0']
        },
        ghost_given(mac, false),
        ghost_given("00000000"@, true),
{
    reveal_strlit("00000000");
    reveal_strlit("\0\0\0\0\0\0\0\0");
    assert("00000000"@ =~= seq!['0', '0', '0', '0', '0', '0', '0', '0']);
    assert("\0\0\0\0\0\0\0\0"@ =~= seq!['\0', '\0', '\0', '\0', '\0', '\0', '\0', '\0']);
}

/// Exactly those entries of a listing are found that are no sensors.
pub proof fn law_ghosts_are_found(macs: Seq<Seq<char>>, mac: Seq<char>)
    ensures
        ghosts_of(macs).contains(mac) <==> macs.contains(mac) && ghost_mac(mac),
    decreases macs.len(),
{
    if macs.len() > 0 {
        let d = macs.drop_last();
        law_ghosts_are_found(d, mac);
        let g = ghosts_of(d);
        assert(macs.contains(mac) <==> d.contains(mac) || mac == macs.last()) by {
            if d.contains(mac) {
                assert(macs[d.index_of(mac)] == mac);
            }
            if macs.contains(mac) && mac != macs.last() {
                assert(d[macs.index_of(mac)] == mac);
            }
            assert(macs[macs.len() - 1] == macs.last());
        }
        assert(g.push(macs.last()).contains(mac) <==> g.contains(mac) || mac == macs.last()) by {
            if g.contains(mac) {
                assert(g.push(macs.last())[g.index_of(mac)] == mac);
            }
            assert(g.push(macs.last())[g.len() as int] == macs.last());
        }
    }
}

/// A listing is complete exactly when as many sensors came in as the dongle counts; a sensor
/// that is new is added behind the others until then, and nothing after.
pub proof fn law_listing_takes_what_is_new(l: ListingView, mac: Seq<char>)
    ensures
        l.complete() <==> l.found.len() >= l.count,
        l.found.len() >= l.count ==> l.with(mac) == l,
        l.found.contains(mac) ==> l.with(mac) == l,
        l.found.len() < l.count && !l.found.contains(mac) ==> l.with(mac).found == l.found.push(mac),
        l.with(mac).count == l.count,
{
}

} // verus!
