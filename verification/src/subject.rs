//! Control-interface subjects.
//!
//! A control subject has the shape `{prefix}.v1.{lattice}.<tail>`, where the
//! default prefix `wasmbus.ctl` is two tokens long. This module splits a
//! subject into its dot-separated tokens, hands the dispatcher the tail after
//! the prefix, version and lattice tokens, and builds the host's subscription
//! plan: the subjects a host listens on and the queue group, if any, each one
//! joins.

use vstd::prelude::*;

verus! {

/// Index of the first occurrence of `sep`, or the length where there is none.
pub open spec fn first_sep(s: Seq<char>, sep: char) -> int
    decreases s.len(),
{
    if s.len() == 0 {
        0
    } else if s[0] == sep {
        0
    } else {
        1 + first_sep(s.skip(1), sep)
    }
}

/// The first separator is inside the sequence or right past its end, none
/// stands before it, and it points at one whenever it is inside.
pub proof fn lemma_first_sep(s: Seq<char>, sep: char)
    ensures
        0 <= first_sep(s, sep) <= s.len(),
        forall|j: int| 0 <= j < first_sep(s, sep) ==> s[j] != sep,
        first_sep(s, sep) < s.len() ==> s[first_sep(s, sep)] == sep,
    decreases s.len(),
{
    if s.len() > 0 && s[0] != sep {
        lemma_first_sep(s.skip(1), sep);
        assert(forall|j: int| 0 <= j < first_sep(s.skip(1), sep) ==> s.skip(1)[j] != sep);
        assert(forall|j: int| 1 <= j < first_sep(s, sep) ==> s[j] == s.skip(1)[j - 1]);
    }
}

/// The position of the first separator is pinned by what stands before it.
pub proof fn lemma_first_sep_at(s: Seq<char>, sep: char, k: int)
    requires
        0 <= k <= s.len(),
        forall|j: int| 0 <= j < k ==> s[j] != sep,
        k < s.len() ==> s[k] == sep,
    ensures
        first_sep(s, sep) == k,
    decreases s.len(),
{
    if s.len() > 0 && s[0] != sep {
        assert(k > 0);
        assert(forall|j: int| 0 <= j < k - 1 ==> s.skip(1)[j] != sep);
        assert(k - 1 < s.skip(1).len() ==> s.skip(1)[k - 1] == sep);
        lemma_first_sep_at(s.skip(1), sep, k - 1);
    }
}

#[via_fn]
proof fn split_dots_chars_via(s: Seq<char>) {
    lemma_first_sep(s, '.');
}

/// The dot-separated tokens of a subject. A subject with no dot is one token;
/// every dot separates two tokens, so `n` dots give `n + 1` tokens, empty ones
/// included.
pub open spec fn split_dots_chars(s: Seq<char>) -> Seq<Seq<char>>
    decreases s.len(),
    via split_dots_chars_via
{
    if first_sep(s, '.') == s.len() {
        seq![s]
    } else {
        seq![s.take(first_sep(s, '.'))] + split_dots_chars(s.skip(first_sep(s, '.') + 1))
    }
}

/// Splits a subject into its dot-separated tokens.
pub fn split_dots(s: &str) -> (r: Vec<String>)
    ensures
        r.deep_view() == split_dots_chars(s@),
{
    let n = s.unicode_len();
    let mut r: Vec<String> = Vec::new();
    let mut start: usize = 0;
    let mut i: usize = 0;
    proof {
        assert(s@.skip(0) =~= s@);
        assert(r.deep_view() + split_dots_chars(s@) =~= split_dots_chars(s@));
    }
    while i < n
        invariant
            start <= i <= n,
            n == s@.len(),
            forall|j: int| start <= j < i ==> s@[j] != '.',
            split_dots_chars(s@) =~= r.deep_view() + split_dots_chars(s@.skip(start as int)),
        decreases n - i,
    {
        if s.get_char(i) == '.' {
            let ghost rest = s@.skip(start as int);
            proof {
                assert(forall|j: int| 0 <= j < i - start ==> rest[j] != '.');
                assert(rest[i - start] == '.');
                lemma_first_sep_at(rest, '.', i - start);
                assert(rest.take(i - start) =~= s@.subrange(start as int, i as int));
                assert(rest.skip(i - start + 1) =~= s@.skip(i as int + 1));
            }
            let ghost before = r.deep_view();
            r.push(s.substring_char(start, i).to_owned());
            proof {
                assert(r.deep_view() =~= before.push(s@.subrange(start as int, i as int)));
                assert(split_dots_chars(rest) == seq![s@.subrange(start as int, i as int)]
                    + split_dots_chars(s@.skip(i as int + 1)));
            }
            start = i + 1;
        }
        i = i + 1;
    }
    let ghost rest = s@.skip(start as int);
    proof {
        lemma_first_sep_at(rest, '.', rest.len() as int);
        assert(rest =~= s@.subrange(start as int, n as int));
    }
    let ghost before = r.deep_view();
    r.push(s.substring_char(start, n).to_owned());
    proof {
        assert(r.deep_view() =~= before.push(rest));
    }
    r
}

/// The tokens of a control subject after the two prefix tokens, the version
/// token and the lattice token; empty where the subject is too short.
pub open spec fn ctl_tail(s: Seq<char>) -> Seq<Seq<char>> {
    if split_dots_chars(s).len() >= 4 {
        split_dots_chars(s).skip(4)
    } else {
        Seq::empty()
    }
}

/// Drops the prefix, version and lattice tokens from a control subject and
/// hands back what the dispatcher routes on.
pub fn subject_tail(s: &str) -> (r: Vec<String>)
    ensures
        r.deep_view() == ctl_tail(s@),
{
    let toks = split_dots(s);
    let mut r: Vec<String> = Vec::new();
    if toks.len() < 4 {
        return r;
    }
    let mut i: usize = 4;
    while i < toks.len()
        invariant
            4 <= i <= toks.len(),
            toks.deep_view() == split_dots_chars(s@),
            toks.deep_view().len() >= 4,
            r.deep_view() =~= toks.deep_view().subrange(4, i as int),
        decreases toks.len() - i,
    {
        let ghost before = r.deep_view();
        r.push(toks[i].clone());
        proof {
            assert(r.deep_view() =~= before.push(toks.deep_view()[i as int]));
        }
        i = i + 1;
    }
    proof {
        assert(toks.deep_view().subrange(4, toks.deep_view().len() as int) =~= toks.deep_view()
            .skip(4));
    }
    r
}

/// A subscription the host makes: the subject and, where every message must
/// reach exactly one host of the lattice, the queue group it joins.
pub type Subscription = (String, Option<String>);

/// The leading tokens every control subject of a lattice shares.
pub open spec fn ctl_base(p: Seq<char>, l: Seq<char>) -> Seq<char> {
    p + ".v1."@ + l
}

/// The subjects a host subscribes to, in order. Broadcast subjects carry no
/// queue group and fan out to every host; the link, claims and config subjects
/// join a queue group, so each message on them is served by exactly one host
/// of the group. The two auction subjects are subscribed only where the host
/// takes part in that auction.
pub open spec fn subscription_plan_spec(
    p: Seq<char>,
    l: Seq<char>,
    h: Seq<char>,
    component_auction: bool,
    provider_auction: bool,
) -> Seq<(Seq<char>, Option<Seq<char>>)> {
    let base = ctl_base(p, l);
    let fixed = seq![
        (base + ".registry.put"@, Option::<Seq<char>>::None),
        (base + ".host.ping"@, Option::<Seq<char>>::None),
        (base + ".link.*"@, Option::Some(base + ".link"@)),
        (base + ".claims.get"@, Option::Some(base + ".claims"@)),
        (base + ".component.*."@ + h, Option::<Seq<char>>::None),
        (base + ".provider.*."@ + h, Option::<Seq<char>>::None),
        (base + ".label.*."@ + h, Option::<Seq<char>>::None),
        (base + ".host.*."@ + h, Option::<Seq<char>>::None),
        (base + ".config.>"@, Option::Some(base + ".config"@)),
    ];
    let with_ca = if component_auction {
        fixed.push((base + ".component.auction"@, Option::<Seq<char>>::None))
    } else {
        fixed
    };
    if provider_auction {
        with_ca.push((base + ".provider.auction"@, Option::<Seq<char>>::None))
    } else {
        with_ca
    }
}

/// Builds the host's subscription plan over a topic prefix, a lattice name and
/// the host's public key.
pub fn subscription_plan(
    topic_prefix: &String,
    lattice: &String,
    host_id: &String,
    component_auction: bool,
    provider_auction: bool,
) -> (r: Vec<Subscription>)
    ensures
        r.deep_view() == subscription_plan_spec(
            topic_prefix@,
            lattice@,
            host_id@,
            component_auction,
            provider_auction,
        ),
{
    let base = topic_prefix.clone().concat(".v1.").concat(lattice.as_str());
    let mut r: Vec<Subscription> = Vec::new();
    r.push((base.clone().concat(".registry.put"), None));
    r.push((base.clone().concat(".host.ping"), None));
    r.push((base.clone().concat(".link.*"), Some(base.clone().concat(".link"))));
    r.push((base.clone().concat(".claims.get"), Some(base.clone().concat(".claims"))));
    r.push((base.clone().concat(".component.*.").concat(host_id.as_str()), None));
    r.push((base.clone().concat(".provider.*.").concat(host_id.as_str()), None));
    r.push((base.clone().concat(".label.*.").concat(host_id.as_str()), None));
    r.push((base.clone().concat(".host.*.").concat(host_id.as_str()), None));
    r.push((base.clone().concat(".config.>"), Some(base.clone().concat(".config"))));
    if component_auction {
        r.push((base.clone().concat(".component.auction"), None));
    }
    if provider_auction {
        r.push((base.clone().concat(".provider.auction"), None));
    }
    proof {
        assert(r.deep_view() =~= subscription_plan_spec(
            topic_prefix@,
            lattice@,
            host_id@,
            component_auction,
            provider_auction,
        ));
    }
    r
}

} // verus!
