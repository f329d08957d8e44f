use vstd::prelude::*;
use vstd::string::*;

verus! {

/// One execution venue that the quoting service may route through.
#[derive(Clone, Copy, Debug, PartialEq, Eq, Structural)]
pub enum Venue {
    Raydium,
    MeteoraDlmm,
    Meteora,
    Whirlpool,
    Phoenix,
}

/// The name under which the quoting service knows a venue.
pub open spec fn venue_name(v: Venue) -> Seq<char> {
    match v {
        Venue::Raydium => "Raydium"@,
        Venue::MeteoraDlmm => "Meteora DLMM"@,
        Venue::Meteora => "Meteora"@,
        Venue::Whirlpool => "Whirlpool"@,
        Venue::Phoenix => "Phoenix"@,
    }
}

/// The fixed order in which venues are listed: `venue_at(0)`, ..., `venue_at(4)`.
pub open spec fn venue_at(i: int) -> Venue {
    if i == 0 {
        Venue::Raydium
    } else if i == 1 {
        Venue::MeteoraDlmm
    } else if i == 2 {
        Venue::Meteora
    } else if i == 3 {
        Venue::Whirlpool
    } else {
        Venue::Phoenix
    }
}

pub const VENUE_COUNT: usize = 5;

/// A set of venues (a venue filter).
#[derive(Clone, Copy, Debug, PartialEq, Eq, Structural)]
pub struct Dex {
    pub raydium: bool,
    pub meteora_dlmm: bool,
    pub meteora: bool,
    pub whirlpool: bool,
    pub phoenix: bool,
}

impl Dex {
    pub open spec fn has(self, v: Venue) -> bool {
        match v {
            Venue::Raydium => self.raydium,
            Venue::MeteoraDlmm => self.meteora_dlmm,
            Venue::Meteora => self.meteora,
            Venue::Whirlpool => self.whirlpool,
            Venue::Phoenix => self.phoenix,
        }
    }
}

impl View for Dex {
    type V = Set<Venue>;

    open spec fn view(&self) -> Set<Venue> {
        Set::new(|v: Venue| self.has(v))
    }
}

/// The venues of `d` in listing order, among the first `n` of that order.
pub open spec fn listed_upto(d: Set<Venue>, n: nat) -> Seq<Venue>
    decreases n,
{
    if n == 0 {
        Seq::empty()
    } else {
        let prev = listed_upto(d, (n - 1) as nat);
        let v = venue_at(n - 1);
        if d.contains(v) {
            prev.push(v)
        } else {
            prev
        }
    }
}

/// The names of `vs`, separated by commas.
pub open spec fn joined_names(vs: Seq<Venue>) -> Seq<char>
    decreases vs.len(),
{
    if vs.len() == 0 {
        Seq::empty()
    } else if vs.len() == 1 {
        venue_name(vs[0])
    } else {
        joined_names(vs.drop_last()) + ","@ + venue_name(vs.last())
    }
}

/// The text form of a venue filter: its names in listing order, comma separated.
pub open spec fn dex_text(d: Set<Venue>) -> Seq<char> {
    joined_names(listed_upto(d, VENUE_COUNT as nat))
}

fn venue_at_exec(i: usize) -> (v: Venue)
    ensures
        v == venue_at(i as int),
{
    if i == 0 {
        Venue::Raydium
    } else if i == 1 {
        Venue::MeteoraDlmm
    } else if i == 2 {
        Venue::Meteora
    } else if i == 3 {
        Venue::Whirlpool
    } else {
        Venue::Phoenix
    }
}

/// The name of one venue.
pub fn venue_label(v: Venue) -> (r: &'static str)
    ensures
        r@ == venue_name(v),
{
    match v {
        Venue::Raydium => "Raydium",
        Venue::MeteoraDlmm => "Meteora DLMM",
        Venue::Meteora => "Meteora",
        Venue::Whirlpool => "Whirlpool",
        Venue::Phoenix => "Phoenix",
    }
}

/// Character-wise equality of two strings.
pub fn str_equal(a: &str, b: &str) -> (r: bool)
    ensures
        r == (a@ == b@),
{
    let n = a.unicode_len();
    if n != b.unicode_len() {
        return false;
    }
    let mut i: usize = 0;
    while i < n
        invariant
            n == a@.len(),
            n == b@.len(),
            i <= n,
            a@.subrange(0, i as int) == b@.subrange(0, i as int),
        decreases n - i,
    {
        if a.get_char(i) != b.get_char(i) {
            return false;
        }
        assert(a@.subrange(0, i + 1) == a@.subrange(0, i as int).push(a@[i as int]));
        assert(b@.subrange(0, i + 1) == b@.subrange(0, i as int).push(b@[i as int]));
        i = i + 1;
    }
    assert(a@ == a@.subrange(0, n as int));
    assert(b@ == b@.subrange(0, n as int));
    true
}

impl Dex {
    /// The empty venue filter.
    pub fn empty() -> (r: Dex)
        ensures
            r@ == Set::<Venue>::empty(),
    {
        let r = Dex { raydium: false, meteora_dlmm: false, meteora: false, whirlpool: false, phoenix: false };
        assert(r@ =~= Set::<Venue>::empty());
        r
    }

    /// The default venue filter used for arbitrage: every venue but Meteora.
    pub fn all() -> (r: Dex)
        ensures
            r@ == set![Venue::Raydium, Venue::MeteoraDlmm, Venue::Whirlpool, Venue::Phoenix],
    {
        let r = Dex { raydium: true, meteora_dlmm: true, meteora: false, whirlpool: true, phoenix: true };
        assert(r@ =~= set![Venue::Raydium, Venue::MeteoraDlmm, Venue::Whirlpool, Venue::Phoenix]);
        r
    }

    /// The filter that holds one venue.
    pub fn single(v: Venue) -> (r: Dex)
        ensures
            r@ == set![v],
    {
        let r = Dex {
            raydium: v == Venue::Raydium,
            meteora_dlmm: v == Venue::MeteoraDlmm,
            meteora: v == Venue::Meteora,
            whirlpool: v == Venue::Whirlpool,
            phoenix: v == Venue::Phoenix,
        };
        assert(r@ =~= set![v]);
        r
    }

    pub fn contains(&self, v: Venue) -> (r: bool)
        ensures
            r == self@.contains(v),
    {
        match v {
            Venue::Raydium => self.raydium,
            Venue::MeteoraDlmm => self.meteora_dlmm,
            Venue::Meteora => self.meteora,
            Venue::Whirlpool => self.whirlpool,
            Venue::Phoenix => self.phoenix,
        }
    }

    /// The venues of either filter.
    pub fn union(&self, other: &Dex) -> (r: Dex)
        ensures
            r@ == self@.union(other@),
    {
        let r = Dex {
            raydium: self.raydium || other.raydium,
            meteora_dlmm: self.meteora_dlmm || other.meteora_dlmm,
            meteora: self.meteora || other.meteora,
            whirlpool: self.whirlpool || other.whirlpool,
            phoenix: self.phoenix || other.phoenix,
        };
        assert(r@ =~= self@.union(other@));
        r
    }

    /// The venues of `self` that are not in `other`.
    pub fn exclude(&self, other: &Dex) -> (r: Dex)
        ensures
            r@ == self@.difference(other@),
    {
        let r = Dex {
            raydium: self.raydium && !other.raydium,
            meteora_dlmm: self.meteora_dlmm && !other.meteora_dlmm,
            meteora: self.meteora && !other.meteora,
            whirlpool: self.whirlpool && !other.whirlpool,
            phoenix: self.phoenix && !other.phoenix,
        };
        assert(r@ =~= self@.difference(other@));
        r
    }

    /// The filter of the venues named in `v`; unknown names are ignored.
    pub fn from_vec(v: Vec<&str>) -> (r: Dex)
        ensures
            forall|x: Venue|
                r@.contains(x) <==> exists|i: int| 0 <= i < v@.len() && #[trigger] v@[i]@ == venue_name(x),
    {
        let mut dex = Dex::empty();
        let mut i: usize = 0;
        while i < v.len()
            invariant
                i <= v@.len(),
                forall|x: Venue|
                    dex@.contains(x) <==> exists|j: int| 0 <= j < i && #[trigger] v@[j]@ == venue_name(x),
            decreases v@.len() - i,
        {
            let name: &str = v[i];
            let mut k: usize = 0;
            let ghost before = dex;
            while k < VENUE_COUNT
                invariant
                    k <= VENUE_COUNT,
                    name@ == v@[i as int]@,
                    forall|x: Venue|
                        dex@.contains(x) <==> (before@.contains(x) || exists|m: int|
                            0 <= m < k && x == venue_at(m) && name@ == venue_name(x)),
                decreases VENUE_COUNT - k,
            {
                let venue = venue_at_exec(k);
                if str_equal(name, venue_label(venue)) {
                    dex = dex.union(&Dex::single(venue));
                }
                k = k + 1;
            }
            assert forall|x: Venue|
                dex@.contains(x) <==> exists|j: int| 0 <= j < i + 1 && #[trigger] v@[j]@ == venue_name(x) by {
                let m: int = match x {
                    Venue::Raydium => 0,
                    Venue::MeteoraDlmm => 1,
                    Venue::Meteora => 2,
                    Venue::Whirlpool => 3,
                    Venue::Phoenix => 4,
                };
                assert(x == venue_at(m));
                if v@[i as int]@ == venue_name(x) {
                    assert(dex@.contains(x));
                }
                if exists|j: int| 0 <= j < i && #[trigger] v@[j]@ == venue_name(x) {
                    assert(before@.contains(x));
                }
            }
            i = i + 1;
        }
        dex
    }

    /// The names of the venues in the filter, in listing order, comma separated.
    pub fn to_string(&self) -> (r: String)
        ensures
            r@ == dex_text(self@),
    {
        let mut out = String::new();
        let mut first = true;
        let mut i: usize = 0;
        while i < VENUE_COUNT
            invariant
                i <= VENUE_COUNT,
                out@ == joined_names(listed_upto(self@, i as nat)),
                first == (listed_upto(self@, i as nat).len() == 0),
            decreases VENUE_COUNT - i,
        {
            let venue = venue_at_exec(i);
            let ghost prev = listed_upto(self@, i as nat);
            if self.contains(venue) {
                let ghost next = prev.push(venue);
                assert(next.drop_last() == prev);
                if !first {
                    out.append(",");
                }
                out.append(venue_label(venue));
                first = false;
            }
            i = i + 1;
        }
        out
    }
}

} // verus!
