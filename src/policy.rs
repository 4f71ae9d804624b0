use vstd::prelude::*;

verus! {

/// `t` ends with `s`.
pub open spec fn is_suffix(s: Seq<char>, t: Seq<char>) -> bool {
    s.len() <= t.len() && t.subrange(t.len() - s.len(), t.len() as int) == s
}

/// A configured entry matches a domain when the domain is the entry itself or
/// one of its sub-domains (`sub.example.com` against `example.com`).
pub open spec fn domain_matches(entry: Seq<char>, domain: Seq<char>) -> bool {
    domain == entry || is_suffix(seq!['.'] + entry, domain)
}

/// Some entry of the list matches the domain.
pub open spec fn matches_any(entries: Seq<String>, domain: Seq<char>) -> bool {
    exists|i: int| 0 <= i < entries.len() && domain_matches(#[trigger] entries[i]@, domain)
}

/// The rejection rule: a banned match always rejects; the allow list is only
/// consulted while the ban list is empty.
pub open spec fn rejects(allowed: Seq<String>, banned: Seq<String>, domain: Seq<char>) -> bool {
    matches_any(banned, domain) || (banned.len() == 0 && !matches_any(allowed, domain))
}

/// Per-guild allow and ban lists of link domains.
#[derive(Clone, Debug)]
pub struct DomainPolicy {
    pub allowed_domains: Vec<String>,
    pub banned_domains: Vec<String>,
}

/// Outcome of evaluating a domain against a policy.
#[derive(Debug)]
pub enum PolicyDecision {
    Allow,
    Reject(String),
}

/// Exact or sub-domain match of `domain` against the configured `entry`.
pub fn compare_domains(entry: &str, domain: &str) -> (r: bool)
    ensures
        r == domain_matches(entry@, domain@),
{
    let el = entry.unicode_len();
    let dl = domain.unicode_len();
    if dl < el {
        assert(domain@ != entry@);
        return false;
    }
    let off = dl - el;
    let mut i: usize = 0;
    while i < el
        invariant
            el == entry@.len(),
            dl == domain@.len(),
            off == dl - el,
            i <= el,
            forall|j: int| 0 <= j < i ==> domain@[off + j] == entry@[j],
        decreases el - i,
    {
        if domain.get_char(off + i) != entry.get_char(i) {
            assert(domain@.subrange(off as int, dl as int)[i as int] != entry@[i as int]);
            assert(domain@ != entry@);
            proof {
                let pat = seq!['.'] + entry@;
                if is_suffix(pat, domain@) {
                    assert(domain@.subrange(dl - pat.len(), dl as int)[i + 1] == pat[i + 1]);
                }
            }
            return false;
        }
        i += 1;
    }
    assert(domain@.subrange(off as int, dl as int) =~= entry@);
    if off == 0 {
        assert(domain@ =~= entry@);
        true
    } else {
        let dot = domain.get_char(off - 1) == '.';
        let ghost pat = seq!['.'] + entry@;
        if dot {
            assert(domain@.subrange(dl - pat.len(), dl as int) =~= pat);
        } else {
            assert(domain@.subrange(dl - pat.len(), dl as int)[0] != pat[0]);
        }
        dot
    }
}

/// Whether any entry of `entries` matches `domain`.
pub fn matches_any_entry(entries: &Vec<String>, domain: &str) -> (r: bool)
    ensures
        r == matches_any(entries@, domain@),
{
    let mut i: usize = 0;
    while i < entries.len()
        invariant
            i <= entries@.len(),
            forall|j: int| 0 <= j < i ==> !domain_matches(#[trigger] entries@[j]@, domain@),
        decreases entries@.len() - i,
    {
        if compare_domains(entries[i].as_str(), domain) {
            return true;
        }
        i += 1;
    }
    false
}

impl DomainPolicy {
    /// A policy with no allowed and no banned domains.
    pub fn new() -> (r: DomainPolicy)
        ensures
            r.allowed_domains@.len() == 0,
            r.banned_domains@.len() == 0,
    {
        DomainPolicy { allowed_domains: Vec::new(), banned_domains: Vec::new() }
    }

    pub open spec fn rejects_domain(&self, domain: Seq<char>) -> bool {
        rejects(self.allowed_domains@, self.banned_domains@, domain)
    }

    /// Evaluates `domain`: rejected iff it matches a banned entry, or the ban
    /// list is empty and it matches no allowed entry.
    pub fn evaluate(&self, domain: &str) -> (r: PolicyDecision)
        ensures
            match r {
                PolicyDecision::Allow => !self.rejects_domain(domain@),
                PolicyDecision::Reject(d) => self.rejects_domain(domain@) && d@ == domain@,
            },
    {
        let is_allowed = matches_any_entry(&self.allowed_domains, domain);
        let is_banned = matches_any_entry(&self.banned_domains, domain);
        if is_banned || (self.banned_domains.len() == 0 && !is_allowed) {
            PolicyDecision::Reject(domain.to_owned())
        } else {
            PolicyDecision::Allow
        }
    }
}

/// A domain that matches a banned entry is rejected, whatever the allow list holds.
pub proof fn lemma_banned_domain_rejected(policy: &DomainPolicy, i: int, domain: Seq<char>)
    requires
        0 <= i < policy.banned_domains@.len(),
        domain_matches(policy.banned_domains@[i]@, domain),
    ensures
        policy.rejects_domain(domain),
{
}

/// While the ban list is empty, a domain that matches no allowed entry is
/// rejected; with both lists empty every domain is rejected.
pub proof fn lemma_default_deny(policy: &DomainPolicy, domain: Seq<char>)
    requires
        policy.banned_domains@.len() == 0,
    ensures
        !matches_any(policy.allowed_domains@, domain) ==> policy.rejects_domain(domain),
        policy.allowed_domains@.len() == 0 ==> policy.rejects_domain(domain),
{
}

} // verus!
