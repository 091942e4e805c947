//! The cross-origin policy of the gateway: which origins may call it, with
//! which method and which headers.
use vstd::prelude::*;
use hyper::http::HeaderValue;

verus! {

/// The origins that may call the gateway.
#[derive(Clone, Debug, PartialEq, Eq)]
pub enum AllowOrigin {
    /// Every origin.
    Any,
    /// The listed origins and no other.
    List(Vec<String>),
}

/// The one request method that is let through.
#[derive(Clone, Copy, Debug, PartialEq, Eq, Structural)]
pub enum Method {
    Post,
}

/// The request headers that are let through.
#[derive(Clone, Copy, Debug, PartialEq, Eq, Structural)]
pub enum AllowHeaders {
    Any,
}

/// A cross-origin policy.
#[derive(Clone, Debug, PartialEq, Eq)]
pub struct CorsPolicy {
    pub allow_origin: AllowOrigin,
    pub allow_methods: Method,
    pub allow_headers: AllowHeaders,
}

/// Whether a character may stand in a header value: anything but a control
/// character, the tab excepted.
pub open spec fn header_char(c: char) -> bool {
    (c as u32 >= 32 && c as u32 != 127) || c == '\t'
}

/// Whether a string can be a header value.
pub open spec fn header_value(s: Seq<char>) -> bool {
    forall|i: int| 0 <= i < s.len() ==> header_char(#[trigger] s[i])
}

/// The texts of a sequence of strings.
pub open spec fn texts(strings: Seq<String>) -> Seq<Seq<char>> {
    strings.map_values(|s: String| s@)
}

/// The origins that a list of configured domains allows: every origin where
/// `*` is among them, else those of the domains that can be header values,
/// in their order.
pub open spec fn allowed_origins(domains: Seq<Seq<char>>) -> Option<Seq<Seq<char>>> {
    if domains.contains(seq!['*']) {
        None
    } else {
        Some(domains.filter(|d: Seq<char>| header_value(d)))
    }
}

/// Tells whether `http::HeaderValue` takes a string, by parsing it as the
/// header value. It does so exactly when no byte of the string is a control
/// character other than the tab; bytes of characters beyond ASCII pass.
#[verifier::external_body]
fn is_header_value(s: &str) -> (ok: bool)
    ensures
        ok == header_value(s@),
{
    s.parse::<HeaderValue>().is_ok()
}

/// Whether `wanted` is among `list`.
fn contains_text(list: &Vec<String>, wanted: &str) -> (found: bool)
    ensures
        found == texts(list@).contains(wanted@),
{
    let wanted_owned: String = wanted.to_owned();
    let mut i: usize = 0;
    while i < list.len()
        invariant
            i <= list.len(),
            wanted_owned@ == wanted@,
            forall|j: int| 0 <= j < i ==> texts(list@)[j] != wanted@,
        decreases list.len() - i,
    {
        if list[i] == wanted_owned {
            assert(texts(list@)[i as int] == wanted@);
            return true;
        }
        i += 1;
    }
    false
}

impl AllowOrigin {
    /// The allowed origins as plain values: `None` for every origin.
    pub open spec fn origins(&self) -> Option<Seq<Seq<char>>> {
        match self {
            AllowOrigin::Any => None,
            AllowOrigin::List(list) => Some(texts(list@)),
        }
    }
}

impl CorsPolicy {
    /// Whether the policy lets a request from `origin` through.
    pub open spec fn allows(&self, origin: Seq<char>) -> bool {
        match self.allow_origin.origins() {
            None => true,
            Some(list) => list.contains(origin),
        }
    }

    /// The policy for a list of configured domains. Only `POST` is let
    /// through, with any headers.
    pub fn new(cors_domain: &Vec<String>) -> (policy: CorsPolicy)
        ensures
            policy.allow_origin.origins() == allowed_origins(texts(cors_domain@)),
            policy.allow_methods == Method::Post,
            policy.allow_headers == AllowHeaders::Any,
    {
        let star: String = "*".to_owned();
        proof {
            reveal_strlit("*");
            assert(star@ =~= seq!['*']);
        }
        let ghost domains = texts(cors_domain@);
        let ghost valid = |d: Seq<char>| header_value(d);
        let mut origins: Vec<String> = Vec::new();
        let mut any: bool = false;
        let mut i: usize = 0;
        while i < cors_domain.len()
            invariant
                i <= cors_domain.len(),
                domains == texts(cors_domain@),
                valid == |d: Seq<char>| header_value(d),
                star@ == seq!['*'],
                any == domains.take(i as int).contains(seq!['*']),
                texts(origins@) == domains.take(i as int).filter(valid),
            decreases cors_domain.len() - i,
        {
            let domain = &cors_domain[i];
            let ghost before = domains.take(i as int);
            let ghost after = domains.take(i as int + 1);
            proof {
                assert(after =~= before.push(domain@));
                assert(after.drop_last() =~= before);
                reveal(Seq::filter);
                assert(after.contains(seq!['*']) <==> before.contains(seq!['*']) || domain@
                    == seq!['*']) by {
                    if before.contains(seq!['*']) {
                        let k = choose|k: int| 0 <= k < before.len() && before[k] == seq!['*'];
                        assert(after[k] == seq!['*']);
                    }
                    if domain@ == seq!['*'] {
                        assert(after[i as int] == seq!['*']);
                    }
                }
            }
            if *domain == star {
                any = true;
            }
            if is_header_value(domain.as_str()) {
                origins.push(domain.clone());
                assert(texts(origins@) =~= before.filter(valid).push(domain@));
            }
            i += 1;
        }
        assert(domains.take(i as int) =~= domains);
        let allow_origin = if any {
            AllowOrigin::Any
        } else {
            AllowOrigin::List(origins)
        };
        CorsPolicy { allow_origin, allow_methods: Method::Post, allow_headers: AllowHeaders::Any }
    }

    /// Whether the policy lets a request from `origin` through.
    pub fn allows_origin(&self, origin: &str) -> (ok: bool)
        ensures
            ok == self.allows(origin@),
    {
        match &self.allow_origin {
            AllowOrigin::Any => true,
            AllowOrigin::List(list) => contains_text(list, origin),
        }
    }
}

/// A policy made from a list that holds `*` lets every origin through.
pub proof fn lemma_wildcard_allows_all(policy: CorsPolicy, domains: Seq<Seq<char>>, origin: Seq<
    char,
>)
    requires
        domains.contains(seq!['*']),
        policy.allow_origin.origins() == allowed_origins(domains),
    ensures
        policy.allows(origin),
{
}

/// A policy made from a list without `*` lets through only origins that are
/// on the list.
pub proof fn lemma_list_rejects_others(
    policy: CorsPolicy,
    domains: Seq<Seq<char>>,
    origin: Seq<char>,
)
    requires
        !domains.contains(seq!['*']),
        policy.allow_origin.origins() == allowed_origins(domains),
    ensures
        policy.allows(origin) ==> domains.contains(origin) && header_value(origin),
{
    if policy.allows(origin) {
        let valid = |d: Seq<char>| header_value(d);
        let kept = domains.filter(valid);
        let k = choose|k: int| 0 <= k < kept.len() && kept[k] == origin;
        domains.lemma_filter_pred(valid, k);
        domains.lemma_filter_contains_rev(valid, origin);
    }
}

} // verus!
