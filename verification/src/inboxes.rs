use vstd::prelude::*;
use crate::cleanup::{strictly_sorted, texts};
use crate::order::{Precedence, compare_text, lemma_lex_asymmetric, lemma_lex_transitive, lex_lt};

verus! {

/// The domain recorded for `inbox` among sorted inboxes and their domains, if it is present.
pub open spec fn lookup_domain(keys: Seq<Seq<char>>, domains: Seq<Seq<char>>, inbox: Seq<char>) -> Option<Seq<char>> {
    if exists|i: int| 0 <= i < keys.len() && keys[i] == inbox {
        Some(domains[choose|i: int| 0 <= i < keys.len() && keys[i] == inbox])
    } else {
        None
    }
}

/// In strictly sorted inboxes, each inbox finds its own domain.
pub proof fn lemma_lookup_at(keys: Seq<Seq<char>>, domains: Seq<Seq<char>>, i: int)
    requires
        strictly_sorted(keys),
        0 <= i < keys.len(),
    ensures
        lookup_domain(keys, domains, keys[i]) == Some(domains[i]),
{
    let c = choose|c: int| 0 <= c < keys.len() && keys[c] == keys[i];
    assert(0 <= c < keys.len() && keys[c] == keys[i]);
    if c < i {
        lemma_lex_asymmetric(keys[c], keys[i]);
    } else if i < c {
        lemma_lex_asymmetric(keys[i], keys[c]);
    }
}

/// The inboxes a delivery goes to, each with the domain whose policy governs it, kept in
/// inbox order.
#[derive(Debug)]
pub struct DeliveryInboxes {
    inboxes: Vec<String>,
    domains: Vec<String>,
}

/// The inbox a recipient is delivered at: its personal inbox for a personal delivery or
/// when it has no shared inbox, else its shared inbox.
pub open spec fn recipient_inbox(inbox_url: Seq<char>, shared_inbox_url: Seq<char>, personal: bool) -> Seq<char> {
    if personal || shared_inbox_url.len() == 0 { inbox_url } else { shared_inbox_url }
}

impl DeliveryInboxes {
    /// Inboxes and domains pair up, and the inboxes are strictly sorted.
    pub closed spec fn wf(self) -> bool {
        &&& self.inboxes@.len() == self.domains@.len()
        &&& strictly_sorted(texts(self.inboxes@))
    }

    /// The inboxes, in order.
    pub closed spec fn inbox_list(self) -> Seq<Seq<char>> {
        texts(self.inboxes@)
    }

    /// The domain recorded for an inbox.
    pub closed spec fn domain_of(self, inbox: Seq<char>) -> Option<Seq<char>> {
        lookup_domain(texts(self.inboxes@), texts(self.domains@), inbox)
    }

    /// The listed inboxes are exactly those with a domain, each once, in strictly
    /// increasing order.
    pub proof fn lemma_inbox_list(self)
        requires
            self.wf(),
        ensures
            strictly_sorted(self.inbox_list()),
            forall|inbox: Seq<char>| #[trigger] self.domain_of(inbox) is Some <==> self.inbox_list().contains(inbox),
    {
        assert forall|inbox: Seq<char>| #[trigger] self.domain_of(inbox) is Some <==> self.inbox_list().contains(inbox) by {
            if self.inbox_list().contains(inbox) {
                let i = choose|i: int| 0 <= i < self.inbox_list().len() && self.inbox_list()[i] == inbox;
                assert(texts(self.inboxes@)[i] == inbox);
            }
        }
    }

    /// No inboxes.
    pub fn new() -> (inboxes: DeliveryInboxes)
        ensures
            inboxes.wf(),
            inboxes.inbox_list().len() == 0,
            forall|inbox: Seq<char>| #[trigger] inboxes.domain_of(inbox) is None,
    {
        DeliveryInboxes { inboxes: Vec::new(), domains: Vec::new() }
    }

    /// Where `inbox` is or belongs: all inboxes before `j` sort before it; `found` says
    /// whether the inbox at `j` is it; otherwise any inbox at `j` sorts after it.
    fn locate(&self, inbox: &str) -> (r: (usize, bool))
        requires
            self.wf(),
        ensures
            r.0 <= self.inbox_list().len(),
            forall|k: int| 0 <= k < r.0 ==> lex_lt(#[trigger] self.inbox_list()[k], inbox@),
            r.1 ==> r.0 < self.inbox_list().len() && self.inbox_list()[r.0 as int] == inbox@,
            !r.1 ==> (r.0 < self.inbox_list().len() ==> lex_lt(inbox@, self.inbox_list()[r.0 as int])),
    {
        let mut j: usize = 0;
        while j < self.inboxes.len()
            invariant
                self.wf(),
                j <= self.inboxes@.len(),
                forall|k: int| 0 <= k < j ==> lex_lt(#[trigger] texts(self.inboxes@)[k], inbox@),
            decreases self.inboxes@.len() - j,
        {
            match compare_text(self.inboxes[j].as_str(), inbox) {
                Precedence::Before => {
                    j = j + 1;
                },
                Precedence::Same => {
                    return (j, true);
                },
                Precedence::After => {
                    return (j, false);
                },
            }
        }
        (j, false)
    }

    /// Adds an inbox with its domain before position `j`, where it sorts.
    fn insert_at(&mut self, j: usize, inbox: &str, domain: &str)
        requires
            old(self).wf(),
            j <= old(self).inbox_list().len(),
            forall|k: int| 0 <= k < j ==> lex_lt(#[trigger] old(self).inbox_list()[k], inbox@),
            j < old(self).inbox_list().len() ==> lex_lt(inbox@, old(self).inbox_list()[j as int]),
        ensures
            final(self).wf(),
            final(self).inbox_list() == old(self).inbox_list().take(j as int).push(inbox@) + old(self).inbox_list().skip(j as int),
            forall|x: Seq<char>| #[trigger] final(self).domain_of(x) == (if x == inbox@ {
                Some(domain@)
            } else {
                old(self).domain_of(x)
            }),
    {
        let ghost keys = texts(self.inboxes@);
        let ghost doms = texts(self.domains@);
        self.inboxes.insert(j, inbox.to_owned());
        self.domains.insert(j, domain.to_owned());
        proof {
            let new_keys = texts(self.inboxes@);
            let new_doms = texts(self.domains@);
            assert(new_keys =~= keys.take(j as int).push(inbox@) + keys.skip(j as int));
            assert(new_doms =~= doms.take(j as int).push(domain@) + doms.skip(j as int));
            assert forall|a: int, b: int| 0 <= a < b < new_keys.len() implies lex_lt(new_keys[a], new_keys[b]) by {
                if a < j && b < j {
                    assert(new_keys[a] == keys[a] && new_keys[b] == keys[b]);
                } else if a < j && b == j {
                    assert(new_keys[a] == keys[a]);
                } else if a < j {
                    assert(new_keys[a] == keys[a] && new_keys[b] == keys[b - 1]);
                    lemma_lex_transitive(keys[a], inbox@, keys[j as int]);
                    if b - 1 > j {
                        lemma_lex_transitive(keys[a], keys[j as int], keys[b - 1]);
                    }
                } else if a == j {
                    assert(new_keys[b] == keys[b - 1]);
                    if b - 1 > j {
                        lemma_lex_transitive(inbox@, keys[j as int], keys[b - 1]);
                    }
                } else {
                    assert(new_keys[a] == keys[a - 1] && new_keys[b] == keys[b - 1]);
                }
            }
            assert forall|x: Seq<char>| #[trigger] lookup_domain(new_keys, new_doms, x) == (if x == inbox@ {
                Some(domain@)
            } else {
                lookup_domain(keys, doms, x)
            }) by {
                if x == inbox@ {
                    assert(new_keys[j as int] == x);
                    lemma_lookup_at(new_keys, new_doms, j as int);
                } else if exists|i: int| 0 <= i < keys.len() && keys[i] == x {
                    let i = choose|i: int| 0 <= i < keys.len() && keys[i] == x;
                    lemma_lookup_at(keys, doms, i);
                    if i < j {
                        assert(new_keys[i] == x && new_doms[i] == doms[i]);
                        lemma_lookup_at(new_keys, new_doms, i);
                    } else {
                        assert(new_keys[i + 1] == x && new_doms[i + 1] == doms[i]);
                        lemma_lookup_at(new_keys, new_doms, i + 1);
                    }
                } else {
                    assert forall|i: int| 0 <= i < new_keys.len() implies new_keys[i] != x by {
                        if i < j {
                            assert(new_keys[i] == keys[i]);
                        } else if i > j {
                            assert(new_keys[i] == keys[i - 1]);
                        }
                    }
                }
            }
        }
    }

    /// Records an inbox with its domain unless the inbox is empty or already recorded: the
    /// first domain recorded for an inbox stays.
    pub fn add_if_absent(&mut self, inbox_url: &str, domain: &str)
        requires
            old(self).wf(),
        ensures
            final(self).wf(),
            forall|x: Seq<char>| #[trigger] final(self).domain_of(x) == (if x == inbox_url@ && inbox_url@.len() > 0
                && old(self).domain_of(x) is None {
                Some(domain@)
            } else {
                old(self).domain_of(x)
            }),
    {
        if inbox_url.is_empty() {
            return;
        }
        let (j, found) = self.locate(inbox_url);
        if found {
            proof {
                lemma_lookup_at(texts(self.inboxes@), texts(self.domains@), j as int);
            }
            return;
        }
        proof {
            assert forall|i: int| 0 <= i < self.inbox_list().len() implies self.inbox_list()[i] != inbox_url@ by {
                if i < j {
                    lemma_lex_asymmetric(self.inbox_list()[i], inbox_url@);
                } else {
                    lemma_lex_asymmetric(inbox_url@, self.inbox_list()[j as int]);
                    if i > j {
                        lemma_lex_transitive(inbox_url@, self.inbox_list()[j as int], self.inbox_list()[i]);
                        lemma_lex_asymmetric(inbox_url@, self.inbox_list()[i]);
                    }
                }
            }
        }
        self.insert_at(j, inbox_url, domain);
    }

    /// Records a recipient's inbox (see [`recipient_inbox`]) with its domain, unless the
    /// inbox is empty or already recorded: the first domain recorded for an inbox stays.
    pub fn add_recipient(&mut self, inbox_url: &str, shared_inbox_url: &str, personal: bool, domain: &str)
        requires
            old(self).wf(),
        ensures
            final(self).wf(),
            forall|x: Seq<char>| #[trigger] final(self).domain_of(x) == ({
                let chosen = recipient_inbox(inbox_url@, shared_inbox_url@, personal);
                if x == chosen && chosen.len() > 0 && old(self).domain_of(x) is None {
                    Some(domain@)
                } else {
                    old(self).domain_of(x)
                }
            }),
    {
        let chosen = if personal || shared_inbox_url.is_empty() { inbox_url } else { shared_inbox_url };
        self.add_if_absent(chosen, domain);
    }

    /// Records a relay's inbox with its domain; a relay's domain replaces one recorded
    /// before.
    pub fn add_relay(&mut self, inbox_url: &str, domain: &str)
        requires
            old(self).wf(),
        ensures
            final(self).wf(),
            forall|x: Seq<char>| #[trigger] final(self).domain_of(x) == (if x == inbox_url@ {
                Some(domain@)
            } else {
                old(self).domain_of(x)
            }),
    {
        let (j, found) = self.locate(inbox_url);
        if found {
            let ghost keys = texts(self.inboxes@);
            let ghost doms = texts(self.domains@);
            self.domains.set(j, domain.to_owned());
            proof {
                let new_doms = texts(self.domains@);
                assert(texts(self.inboxes@) == keys);
                assert(new_doms =~= doms.update(j as int, domain@));
                assert forall|x: Seq<char>| #[trigger] lookup_domain(keys, new_doms, x) == (if x == inbox_url@ {
                    Some(domain@)
                } else {
                    lookup_domain(keys, doms, x)
                }) by {
                    if x == inbox_url@ {
                        lemma_lookup_at(keys, new_doms, j as int);
                    } else if exists|i: int| 0 <= i < keys.len() && keys[i] == x {
                        let i = choose|i: int| 0 <= i < keys.len() && keys[i] == x;
                        lemma_lookup_at(keys, doms, i);
                        lemma_lookup_at(keys, new_doms, i);
                    }
                }
            }
            return;
        }
        self.insert_at(j, inbox_url, domain);
    }

    /// The number of inboxes.
    pub fn len(&self) -> (n: usize)
        requires
            self.wf(),
        ensures
            n == self.inbox_list().len(),
    {
        self.inboxes.len()
    }

    /// Whether no inbox is recorded.
    pub fn is_empty(&self) -> (r: bool)
        requires
            self.wf(),
        ensures
            r == (self.inbox_list().len() == 0),
    {
        self.inboxes.len() == 0
    }

    /// The `i`-th inbox in order and its domain.
    pub fn entry(&self, i: usize) -> (e: (&str, &str))
        requires
            self.wf(),
            i < self.inbox_list().len(),
        ensures
            e.0@ == self.inbox_list()[i as int],
            self.domain_of(e.0@) == Some(e.1@),
    {
        proof {
            lemma_lookup_at(texts(self.inboxes@), texts(self.domains@), i as int);
        }
        (self.inboxes[i].as_str(), self.domains[i].as_str())
    }
}

/// Whether a recipient account can be delivered to: a remote account of the ActivityPub
/// protocol, not suspended unless the delivery may reach suspended accounts.
pub fn recipient_reachable(remote: bool, activitypub_protocol: bool, suspended: bool, include_suspended: bool) -> (r: bool)
    ensures
        r == (remote && activitypub_protocol && (!suspended || include_suspended)),
{
    remote && activitypub_protocol && (!suspended || include_suspended)
}

/// A recipient gets a personal delivery at its own inbox; any other delivery goes to its
/// shared inbox when it has one, and to its own inbox otherwise.
pub proof fn lemma_recipient_inbox(inbox_url: Seq<char>, shared_inbox_url: Seq<char>, personal: bool)
    ensures
        personal ==> recipient_inbox(inbox_url, shared_inbox_url, personal) == inbox_url,
        !personal && shared_inbox_url.len() > 0 ==> recipient_inbox(inbox_url, shared_inbox_url, personal)
            == shared_inbox_url,
        shared_inbox_url.len() == 0 ==> recipient_inbox(inbox_url, shared_inbox_url, personal) == inbox_url,
{
}

} // verus!
