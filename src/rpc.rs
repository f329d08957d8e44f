use vstd::prelude::*;
use vstd::string::*;
use rand::seq::SliceRandom;

verus! {

/// `s` cut at every occurrence of `sep` (an empty text gives one empty piece).
pub open spec fn split_on(s: Seq<char>, sep: char) -> Seq<Seq<char>>
    decreases s.len(),
{
    if s.len() == 0 {
        seq![Seq::empty()]
    } else {
        let prev = split_on(s.drop_last(), sep);
        if s.last() == sep {
            prev.push(Seq::empty())
        } else {
            prev.update(prev.len() - 1, prev.last().push(s.last()))
        }
    }
}

pub proof fn lemma_split_on_nonempty(s: Seq<char>, sep: char)
    ensures
        split_on(s, sep).len() >= 1,
    decreases s.len(),
{
    if s.len() > 0 {
        lemma_split_on_nonempty(s.drop_last(), sep);
    }
}

/// `c` has the Unicode White_Space property.
pub open spec fn is_white_space(c: char) -> bool {
    let u = c as u32;
    ||| 0x9 <= u <= 0xd
    ||| u == 0x20
    ||| u == 0x85
    ||| u == 0xa0
    ||| u == 0x1680
    ||| 0x2000 <= u <= 0x200a
    ||| u == 0x2028
    ||| u == 0x2029
    ||| u == 0x202f
    ||| u == 0x205f
    ||| u == 0x3000
}

/// `s` without its leading white space.
pub open spec fn trimmed_start(s: Seq<char>) -> Seq<char>
    decreases s.len(),
{
    if s.len() > 0 && is_white_space(s[0]) {
        trimmed_start(s.drop_first())
    } else {
        s
    }
}

/// `s` without its trailing white space.
pub open spec fn trimmed_end(s: Seq<char>) -> Seq<char>
    decreases s.len(),
{
    if s.len() > 0 && is_white_space(s.last()) {
        trimmed_end(s.drop_last())
    } else {
        s
    }
}

/// `s` without leading and trailing white space.
pub open spec fn trimmed(s: Seq<char>) -> Seq<char> {
    trimmed_end(trimmed_start(s))
}

/// Relies on `str::trim`: it removes the leading and trailing characters
/// that have the Unicode White_Space property.
#[verifier::external_body]
fn trim_text(s: &str) -> (r: String)
    ensures
        r@ == trimmed(s@),
{
    s.trim().to_string()
}

/// Relies on `SliceRandom::choose`: one element picked at random, or nothing
/// from an empty list.
#[verifier::external_body]
fn choose_endpoint(urls: &Vec<String>) -> (r: Option<String>)
    ensures
        r is None <==> urls@.len() == 0,
        r is Some ==> exists|i: int| 0 <= i < urls@.len() && urls@[i]@ == r->0@,
{
    urls.choose(&mut rand::thread_rng()).cloned()
}

/// The endpoints listed in a comma-separated configuration value, each trimmed.
pub open spec fn endpoint_list(s: Seq<char>) -> Seq<Seq<char>> {
    split_on(s, ',').map_values(|p: Seq<char>| trimmed(p))
}

/// Splits a comma-separated list of endpoints, trimming each.
pub fn parse_rpc_endpoints(s: &str) -> (r: Vec<String>)
    ensures
        r@.len() == endpoint_list(s@).len(),
        forall|i: int| 0 <= i < r@.len() ==> #[trigger] r@[i]@ == endpoint_list(s@)[i],
{
    let n = s.unicode_len();
    let mut done: Vec<String> = Vec::new();
    let ghost mut raw: Seq<Seq<char>> = Seq::empty();
    let mut start: usize = 0;
    let mut i: usize = 0;
    assert(s@.subrange(0, 0) =~= Seq::<char>::empty());
    assert(raw.push(s@.subrange(0, 0)) =~= seq![Seq::<char>::empty()]);
    while i < n
        invariant
            n == s@.len(),
            start <= i <= n,
            split_on(s@.subrange(0, i as int), ',') == raw.push(s@.subrange(start as int, i as int)),
            done@.len() == raw.len(),
            forall|k: int| 0 <= k < raw.len() ==> #[trigger] done@[k]@ == trimmed(raw[k]),
        decreases n - i,
    {
        let c = s.get_char(i);
        let ghost pre = s@.subrange(0, i as int);
        assert(s@.subrange(0, i + 1).drop_last() == pre);
        if c == ',' {
            let piece = s.substring_char(start, i);
            let t = trim_text(piece);
            proof {
                raw = raw.push(s@.subrange(start as int, i as int));
            }
            done.push(t);
            start = i + 1;
            assert(s@.subrange(start as int, i + 1) == Seq::<char>::empty());
        } else {
            assert(s@.subrange(start as int, i + 1) == s@.subrange(start as int, i as int).push(c));
        }
        i = i + 1;
    }
    let last = s.substring_char(start, n);
    let t = trim_text(last);
    proof {
        assert(s@.subrange(0, n as int) == s@);
        raw = raw.push(s@.subrange(start as int, n as int));
    }
    done.push(t);
    done
}

/// One of the configured endpoints, picked at random.
pub fn get_random_rpc_url(endpoints: &str) -> (r: String)
    ensures
        exists|i: int| 0 <= i < endpoint_list(endpoints@).len() && r@ == endpoint_list(endpoints@)[i],
{
    let urls = parse_rpc_endpoints(endpoints);
    proof {
        lemma_split_on_nonempty(endpoints@, ',');
    }
    match choose_endpoint(&urls) {
        Some(url) => url,
        None => {
            assert(false);
            String::new()
        },
    }
}

} // verus!
