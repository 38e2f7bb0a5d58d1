use vstd::prelude::*;

verus! {

/// How many `.` characters a hostname holds.
pub open spec fn dot_count(d: Seq<char>) -> nat
    decreases d.len(),
{
    if d.len() == 0 {
        0
    } else {
        (if d[0] == '.' {
            1nat
        } else {
            0nat
        }) + dot_count(d.drop_first())
    }
}

/// The second-level (registrable) domain of a hostname: characters are
/// dropped from the front until at most one `.` remains, leaving the last
/// two dot-separated labels.
pub open spec fn sld_of(d: Seq<char>) -> Seq<char>
    decreases d.len(),
{
    if d.len() == 0 || dot_count(d) <= 1 {
        d
    } else {
        sld_of(d.drop_first())
    }
}

/// The suffix of `d` that starts at position `k`.
pub open spec fn suffix_from(d: Seq<char>, k: int) -> Seq<char> {
    d.subrange(k, d.len() as int)
}

/// Dropping one character from the front of a suffix drops one dot when that
/// character is a dot, and none otherwise.
proof fn lemma_dot_count_step(d: Seq<char>, k: int)
    requires
        0 <= k < d.len(),
    ensures
        dot_count(suffix_from(d, k)) == dot_count(suffix_from(d, k + 1)) + (if d[k] == '.' {
            1nat
        } else {
            0nat
        }),
{
    assert(suffix_from(d, k).drop_first() =~= suffix_from(d, k + 1));
    assert(suffix_from(d, k)[0] == d[k]);
}

/// A longer suffix never holds fewer dots.
proof fn lemma_dot_count_mono(d: Seq<char>, j: int, k: int)
    requires
        0 <= j <= k <= d.len(),
    ensures
        dot_count(suffix_from(d, j)) >= dot_count(suffix_from(d, k)),
    decreases k - j,
{
    if j < k {
        lemma_dot_count_step(d, j);
        lemma_dot_count_mono(d, j + 1, k);
    }
}

/// The suffix that starts right after the second-to-last dot — at most one
/// dot in it, at least two from one position earlier — is the second-level
/// domain.
proof fn lemma_sld_at_cut(d: Seq<char>, k: int)
    requires
        0 <= k <= d.len(),
        dot_count(suffix_from(d, k)) <= 1,
        k > 0 ==> dot_count(suffix_from(d, k - 1)) >= 2,
    ensures
        sld_of(d) == suffix_from(d, k),
    decreases k,
{
    if k == 0 {
        assert(suffix_from(d, 0) =~= d);
    } else {
        lemma_dot_count_mono(d, 0, k - 1);
        assert(suffix_from(d, 0) =~= d);
        assert(dot_count(d) >= 2);
        let t = d.drop_first();
        assert(suffix_from(t, k - 1) =~= suffix_from(d, k));
        if k - 1 > 0 {
            assert(suffix_from(t, k - 2) =~= suffix_from(d, k - 1));
        }
        lemma_sld_at_cut(t, k - 1);
    }
}

/// The second-level domain of a hostname: the last two dot-separated labels,
/// or `None` when the hostname holds no dot at all.
pub fn second_level_domain_str(domain: &str) -> (r: Option<String>)
    ensures
        r is Some <==> dot_count(domain@) >= 1,
        r is Some ==> r->0@ == sld_of(domain@),
{
    let n = domain.unicode_len();
    let mut i: usize = n;
    let mut seen: usize = 0;
    proof {
        assert(suffix_from(domain@, n as int) =~= Seq::<char>::empty());
    }
    while i > 0 && seen < 2
        invariant
            0 <= i <= n,
            n == domain@.len(),
            seen == dot_count(suffix_from(domain@, i as int)),
            seen <= 2,
            seen == 2 ==> i < n && domain@[i as int] == '.',
        decreases i,
    {
        i = i - 1;
        proof {
            lemma_dot_count_step(domain@, i as int);
        }
        if domain.get_char(i) == '.' {
            seen = seen + 1;
        }
    }
    if seen == 2 {
        proof {
            lemma_dot_count_step(domain@, i as int);
            lemma_sld_at_cut(domain@, i as int + 1);
            lemma_dot_count_mono(domain@, 0, i as int);
            assert(suffix_from(domain@, 0) =~= domain@);
        }
        Some(domain.substring_char(i + 1, n).to_owned())
    } else {
        proof {
            assert(suffix_from(domain@, 0) =~= domain@);
        }
        if seen >= 1 {
            proof {
                lemma_sld_at_cut(domain@, 0);
            }
            Some(domain.to_owned())
        } else {
            None
        }
    }
}

#[verifier::external_type_specification]
#[verifier::external_body]
pub struct ExUrl(url::Url);

/// The domain-name host a parsed URL value carries: `None` when the URL has
/// no host, or its host is an address rather than a domain name.
pub uninterp spec fn url_domain_of(u: url::Url) -> Option<Seq<char>>;

/// Relies on `url::Url::domain`: the URL's host when that host is a domain
/// name, `None` when the URL has no host or the host is an address. The
/// result is a function of the URL value alone.
#[verifier::external_body]
fn url_domain(u: &url::Url) -> (r: Option<String>)
    ensures
        crate::opt_string_view(r) == url_domain_of(*u),
{
    u.domain().map(|d| d.to_owned())
}

/// A URL's registrable domain: the domain of the URL without the subdomain.
pub trait SecondLevelDomain {
    /// The domain-name host of the value, if it has one.
    spec fn spec_domain(&self) -> Option<Seq<char>>;

    /// Returns the domain of the URL without the subdomain: the last two
    /// dot-separated labels of the host, when the value has a domain-name
    /// host that holds a dot.
    fn second_level_domain(&self) -> (r: Option<String>)
        ensures
            r is Some <==> (self.spec_domain() is Some && dot_count(self.spec_domain()->0) >= 1),
            r is Some ==> r->0@ == sld_of(self.spec_domain()->0),
    ;
}

impl SecondLevelDomain for url::Url {
    open spec fn spec_domain(&self) -> Option<Seq<char>> {
        url_domain_of(*self)
    }

    fn second_level_domain(&self) -> (r: Option<String>) {
        match url_domain(self) {
            Some(d) => second_level_domain_str(d.as_str()),
            None => None,
        }
    }
}

} // verus!
