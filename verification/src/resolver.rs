//! Expansion of one job's port list into probe attempts and candidate URLs.
//! Port tokens are compared literally: "80" is probed over http only, "443"
//! over https only, and any other token over https and then http. An attempt
//! becomes a candidate only where the name lookup (made by the caller, who owns
//! the network) returned at least one IPv4 address.
use vstd::prelude::*;

use crate::split::split_commas;
use crate::split::split_commas_view;

verus! {

#[derive(Clone, Copy, PartialEq, Eq, Structural, Debug)]
pub enum Scheme {
    Http,
    Https,
}

/// One planned probe: a scheme to try for one port token.
#[derive(Clone, Debug)]
pub struct Attempt {
    pub scheme: Scheme,
    pub port: String,
}

impl View for Attempt {
    type V = (Scheme, Seq<char>);

    open spec fn view(&self) -> (Scheme, Seq<char>) {
        (self.scheme, self.port@)
    }
}

pub open spec fn attempt_views(v: Seq<Attempt>) -> Seq<(Scheme, Seq<char>)> {
    v.map_values(|a: Attempt| a@)
}

/// The schemes attempted for one port token, in order.
pub open spec fn token_plan(tok: Seq<char>) -> Seq<(Scheme, Seq<char>)> {
    if tok == "80"@ {
        seq![(Scheme::Http, tok)]
    } else if tok == "443"@ {
        seq![(Scheme::Https, tok)]
    } else {
        seq![(Scheme::Https, tok), (Scheme::Http, tok)]
    }
}

/// The attempts for a whole token list, token by token.
pub open spec fn plan_of_tokens(toks: Seq<Seq<char>>) -> Seq<(Scheme, Seq<char>)>
    decreases toks.len(),
{
    if toks.len() == 0 {
        Seq::empty()
    } else {
        plan_of_tokens(toks.drop_last()) + token_plan(toks.last())
    }
}

/// The attempts for a comma-separated port list.
pub open spec fn spec_plan(ports: Seq<char>) -> Seq<(Scheme, Seq<char>)> {
    plan_of_tokens(split_commas_view(ports))
}

/// A port token of exactly "80" is attempted over http alone: one candidate,
/// never an https twin.
pub proof fn lemma_port_80_http_only(tok: Seq<char>)
    requires
        tok == "80"@,
    ensures
        token_plan(tok) == seq![(Scheme::Http, tok)],
{
}

/// A port token of exactly "443" is attempted over https alone: one candidate,
/// never an http twin.
pub proof fn lemma_port_443_https_only(tok: Seq<char>)
    requires
        tok == "443"@,
    ensures
        token_plan(tok) == seq![(Scheme::Https, tok)],
{
    reveal_strlit("80");
    reveal_strlit("443");
    assert("443"@.len() != "80"@.len());
}

/// Any other port token is attempted over both schemes, https first.
pub proof fn lemma_other_port_both_schemes(tok: Seq<char>)
    requires
        tok != "80"@,
        tok != "443"@,
    ensures
        token_plan(tok) == seq![(Scheme::Https, tok), (Scheme::Http, tok)],
{
}

/// Expand a comma-separated port list into the ordered probe attempts.
pub fn attempt_plan(ports: &str) -> (r: Vec<Attempt>)
    ensures
        attempt_views(r@) == spec_plan(ports@),
{
    let toks = split_commas(ports);
    let p80 = String::from_str("80");
    let p443 = String::from_str("443");
    let mut out: Vec<Attempt> = Vec::new();
    let ghost tvs = crate::text::views(toks@);
    let mut i: usize = 0;
    while i < toks.len()
        invariant
            0 <= i <= toks@.len(),
            tvs == crate::text::views(toks@),
            tvs == split_commas_view(ports@),
            p80@ == "80"@,
            p443@ == "443"@,
            attempt_views(out@) == plan_of_tokens(tvs.take(i as int)),
        decreases toks@.len() - i,
    {
        let tok = &toks[i];
        let ghost before = attempt_views(out@);
        if *tok == p80 {
            out.push(Attempt { scheme: Scheme::Http, port: tok.clone() });
        } else if *tok == p443 {
            out.push(Attempt { scheme: Scheme::Https, port: tok.clone() });
        } else {
            out.push(Attempt { scheme: Scheme::Https, port: tok.clone() });
            out.push(Attempt { scheme: Scheme::Http, port: tok.clone() });
        }
        proof {
            assert(tvs.take(i + 1).drop_last() =~= tvs.take(i as int));
            assert(tvs.take(i + 1).last() == tvs[i as int]);
            assert(attempt_views(out@) =~= before + token_plan(tvs[i as int]));
            assert(attempt_views(out@) =~= plan_of_tokens(tvs.take(i + 1)));
        }
        i = i + 1;
    }
    proof {
        assert(tvs.take(toks@.len() as int) =~= tvs);
    }
    out
}

/// Whether a lookup's answers contain an IPv4-capable entry: one flag per
/// returned address, true where that address is IPv4. Only such an attempt
/// yields a candidate.
pub fn any_ipv4(flags: &Vec<bool>) -> (r: bool)
    ensures
        r == exists|i: int| 0 <= i < flags@.len() && flags@[i],
{
    let mut i: usize = 0;
    while i < flags.len()
        invariant
            0 <= i <= flags@.len(),
            forall|k: int| 0 <= k < i ==> !flags@[k],
        decreases flags@.len() - i,
    {
        if flags[i] {
            return true;
        }
        i = i + 1;
    }
    false
}

/// The URL a candidate is probed and reported under: the candidate itself,
/// with the configured path appended.
pub fn probe_target(candidate: &str, path: &str) -> (r: String)
    ensures
        r@ == candidate@ + path@,
{
    let mut r = candidate.to_owned();
    r.append(path);
    r
}

/// The scheme prefix as it appears in a candidate URL.
pub open spec fn scheme_prefix(s: Scheme) -> Seq<char> {
    match s {
        Scheme::Http => "http://"@,
        Scheme::Https => "https://"@,
    }
}

/// The candidate URL for one resolved attempt.
pub open spec fn spec_candidate(s: Scheme, host: Seq<char>, port: Seq<char>) -> Seq<char> {
    scheme_prefix(s) + host + ":"@ + port
}

/// Build the candidate URL `scheme://host:port`.
pub fn candidate_url(scheme: Scheme, host: &str, port: &str) -> (r: String)
    ensures
        r@ == spec_candidate(scheme, host@, port@),
{
    let mut r = match scheme {
        Scheme::Http => String::from_str("http://"),
        Scheme::Https => String::from_str("https://"),
    };
    r.append(host);
    r.append(":");
    r.append(port);
    proof {
        assert(r@ =~= spec_candidate(scheme, host@, port@));
    }
    r
}

/// The candidate URLs of the attempts whose lookup yielded an IPv4 address,
/// in plan order.
pub open spec fn spec_resolved(
    host: Seq<char>,
    plan: Seq<(Scheme, Seq<char>)>,
    ok: Seq<bool>,
) -> Seq<Seq<char>>
    decreases plan.len(),
{
    if plan.len() == 0 {
        Seq::empty()
    } else {
        let head = spec_resolved(host, plan.drop_last(), ok.drop_last());
        if ok.last() {
            head + seq![spec_candidate(plan.last().0, host, plan.last().1)]
        } else {
            head
        }
    }
}

/// Keep the candidates of the attempts whose name lookup succeeded with at
/// least one IPv4 address (`ok[i]`); a failed lookup yields no candidate and
/// no error.
pub fn resolved_candidates(host: &str, plan: &Vec<Attempt>, ok: &Vec<bool>) -> (r: Vec<String>)
    requires
        ok@.len() == plan@.len(),
    ensures
        crate::text::views(r@) == spec_resolved(host@, attempt_views(plan@), ok@),
{
    let mut out: Vec<String> = Vec::new();
    let ghost pvs = attempt_views(plan@);
    let mut i: usize = 0;
    while i < plan.len()
        invariant
            0 <= i <= plan@.len(),
            ok@.len() == plan@.len(),
            pvs == attempt_views(plan@),
            crate::text::views(out@) == spec_resolved(host@, pvs.take(i as int), ok@.take(i as int)),
        decreases plan@.len() - i,
    {
        let ghost before = crate::text::views(out@);
        if ok[i] {
            let url = candidate_url(plan[i].scheme, host, plan[i].port.as_str());
            out.push(url);
        }
        proof {
            assert(pvs.take(i + 1).drop_last() =~= pvs.take(i as int));
            assert(ok@.take(i + 1).drop_last() =~= ok@.take(i as int));
            if ok@[i as int] {
                assert(crate::text::views(out@) =~= before + seq![
                    spec_candidate(pvs[i as int].0, host@, pvs[i as int].1),
                ]);
            }
            assert(crate::text::views(out@) =~= spec_resolved(
                host@,
                pvs.take(i + 1),
                ok@.take(i + 1),
            ));
        }
        i = i + 1;
    }
    proof {
        assert(pvs.take(plan@.len() as int) =~= pvs);
        assert(ok@.take(plan@.len() as int) =~= ok@);
    }
    out
}

} // verus!
