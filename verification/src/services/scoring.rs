use vstd::prelude::*;

verus! {

use crate::text::{
    contains_substring,
    find_char,
    first_index_of,
    is_substring,
    lower_of,
    lowercase,
    str_eq,
};

/// The fixed subject keywords that mark a message urgent.
pub open spec fn urgent_keyword_list() -> Seq<Seq<char>> {
    seq!["urgent"@, "important"@, "asap"@, "action required"@, "critical"@]
}

/// The fixed sender-address fragments that mark a message as bulk mail.
pub open spec fn spam_indicator_list() -> Seq<Seq<char>> {
    seq!["noreply"@, "newsletter"@, "marketing"@, "promo"@, "unsubscribe"@]
}

/// Whether any entry of `keys` occurs inside `text`.
pub open spec fn contains_any(keys: Seq<Seq<char>>, text: Seq<char>) -> bool {
    exists|k: int| 0 <= k < keys.len() && is_substring(#[trigger] keys[k], text)
}

/// The domain of an address: what follows the first `@`, if there is one.
pub open spec fn domain_of(address: Seq<char>) -> Option<Seq<char>> {
    match first_index_of(address, '@') {
        Some(i) => Some(address.subrange(i + 1, address.len() as int)),
        None => None,
    }
}

/// The importance score of a message, decided by the first rule that applies:
/// a spam or promotional label scores 1; a bulk-mail fragment in the
/// lowercased sender scores 1; a sender domain in the trusted set scores 3; an
/// urgent keyword in the lowercased subject scores 3; the provider's important
/// label scores 3; anything else scores 2.
pub open spec fn classify(
    trusted: Set<Seq<char>>,
    sender: Seq<char>,
    subject: Seq<char>,
    labels: Seq<Seq<char>>,
) -> u8 {
    if labels.contains("SPAM"@) || labels.contains("PROMOTIONS"@) {
        1
    } else if contains_any(spam_indicator_list(), lower_of(sender)) {
        1
    } else if domain_of(sender) matches Some(d) && trusted.contains(d) {
        3
    } else if contains_any(urgent_keyword_list(), lower_of(subject)) {
        3
    } else if labels.contains("IMPORTANT"@) {
        3
    } else {
        2
    }
}

/// A spam or promotional label always scores a message 1, whatever the
/// trusted domains, the sender, and the subject say.
pub proof fn lemma_spam_label_scores_low(
    trusted: Set<Seq<char>>,
    sender: Seq<char>,
    subject: Seq<char>,
    labels: Seq<Seq<char>>,
)
    requires
        labels.contains("SPAM"@) || labels.contains("PROMOTIONS"@),
    ensures
        classify(trusted, sender, subject, labels) == 1,
{
}

/// A score is always one of exactly three values: 1, 2 or 3.
pub proof fn lemma_score_in_range(
    trusted: Set<Seq<char>>,
    sender: Seq<char>,
    subject: Seq<char>,
    labels: Seq<Seq<char>>,
)
    ensures
        1 <= classify(trusted, sender, subject, labels) <= 3,
{
}

/// Registering a trusted domain twice builds the same trusted set as
/// registering it once.
pub proof fn lemma_register_twice_is_once(trusted: Set<Seq<char>>, domain: Seq<char>)
    ensures
        trusted.insert(domain).insert(domain) == trusted.insert(domain),
{
    assert(trusted.insert(domain).insert(domain) =~= trusted.insert(domain));
}

/// Whether one of the entries of `labels` reads exactly `name`.
fn labels_contain(labels: &[&str], name: &str) -> (r: bool)
    ensures
        r == labels.deep_view().contains(name@),
{
    let mut i: usize = 0;
    while i < labels.len()
        invariant
            0 <= i <= labels@.len(),
            forall|j: int| 0 <= j < i ==> #[trigger] labels.deep_view()[j] != name@,
        decreases labels@.len() - i,
    {
        if str_eq(labels[i], name) {
            proof {
                assert(labels.deep_view()[i as int] == name@);
            }
            return true;
        }
        i = i + 1;
    }
    false
}

/// Whether one of the strings in `v` reads exactly `s`.
fn vec_contains_str(v: &Vec<String>, s: &str) -> (r: bool)
    ensures
        r == exists|i: int| 0 <= i < v@.len() && #[trigger] v@[i]@ == s@,
{
    let mut i: usize = 0;
    while i < v.len()
        invariant
            0 <= i <= v@.len(),
            forall|j: int| 0 <= j < i ==> #[trigger] v@[j]@ != s@,
        decreases v@.len() - i,
    {
        if str_eq(v[i].as_str(), s) {
            return true;
        }
        i = i + 1;
    }
    false
}

/// Whether any entry of `keys` occurs inside `text`.
fn any_key_in(keys: &Vec<String>, text: &str) -> (r: bool)
    ensures
        r == contains_any(keys.deep_view(), text@),
{
    let mut k: usize = 0;
    while k < keys.len()
        invariant
            0 <= k <= keys@.len(),
            forall|j: int| 0 <= j < k ==> !is_substring(#[trigger] keys.deep_view()[j], text@),
        decreases keys@.len() - k,
    {
        if contains_substring(text, keys[k].as_str()) {
            proof {
                assert(is_substring(keys.deep_view()[k as int], text@));
            }
            return true;
        }
        k = k + 1;
    }
    false
}

/// Assigns each message an importance score from its sender, subject and
/// labels, against a registry of trusted sender domains and two fixed keyword
/// lists.
pub struct EmailScorer {
    important_domains: Vec<String>,
    urgent_keywords: Vec<String>,
    spam_indicators: Vec<String>,
}

impl EmailScorer {
    /// The set of registered trusted domains.
    pub closed spec fn domains(self) -> Set<Seq<char>> {
        Set::new(
            |d: Seq<char>|
                exists|i: int|
                    0 <= i < self.important_domains@.len()
                        && #[trigger] self.important_domains@[i]@ == d,
        )
    }

    /// A well-formed scorer holds the two fixed keyword lists and no duplicate
    /// trusted domain.
    pub closed spec fn wf(self) -> bool {
        &&& self.urgent_keywords.deep_view() == urgent_keyword_list()
        &&& self.spam_indicators.deep_view() == spam_indicator_list()
        &&& forall|i: int, j: int|
            0 <= i < j < self.important_domains@.len() ==> #[trigger] self.important_domains@[i]@
                != #[trigger] self.important_domains@[j]@
    }

    /// A fresh scorer: the fixed keyword lists and no trusted domain.
    pub fn new() -> (r: Self)
        ensures
            r.wf(),
            r.domains() == Set::<Seq<char>>::empty(),
    {
        let mut urgent_keywords: Vec<String> = Vec::new();
        urgent_keywords.push("urgent".to_owned());
        urgent_keywords.push("important".to_owned());
        urgent_keywords.push("asap".to_owned());
        urgent_keywords.push("action required".to_owned());
        urgent_keywords.push("critical".to_owned());
        let mut spam_indicators: Vec<String> = Vec::new();
        spam_indicators.push("noreply".to_owned());
        spam_indicators.push("newsletter".to_owned());
        spam_indicators.push("marketing".to_owned());
        spam_indicators.push("promo".to_owned());
        spam_indicators.push("unsubscribe".to_owned());
        let r = EmailScorer { important_domains: Vec::new(), urgent_keywords, spam_indicators };
        proof {
            assert(r.urgent_keywords.deep_view() =~= urgent_keyword_list());
            assert(r.spam_indicators.deep_view() =~= spam_indicator_list());
            assert(r.domains() =~= Set::<Seq<char>>::empty());
        }
        r
    }

    /// Registers `domain` as trusted. Registering a domain that is already
    /// trusted changes nothing.
    pub fn add_important_domain(&mut self, domain: &str)
        requires
            old(self).wf(),
        ensures
            final(self).wf(),
            final(self).domains() == old(self).domains().insert(domain@),
            old(self).domains().contains(domain@) ==> *final(self) == *old(self),
    {
        if !vec_contains_str(&self.important_domains, domain) {
            self.important_domains.push(domain.to_owned());
            proof {
                let v = self.important_domains@;
                let w = old(self).important_domains@;
                assert forall|i: int, j: int| 0 <= i < j < v.len() implies v[i]@ != v[j]@ by {
                    if j == w.len() {
                        assert(v[i]@ == w[i]@);
                        assert(v[j]@ == domain@);
                    }
                }
                assert forall|d: Seq<char>|
                    self.domains().contains(d) == old(self).domains().insert(
                        domain@,
                    ).contains(d) by {
                    if self.domains().contains(d) {
                        let i = choose|i: int| 0 <= i < v.len() && v[i]@ == d;
                        if i < w.len() {
                            assert(w[i]@ == d);
                        }
                    }
                    if old(self).domains().insert(domain@).contains(d) {
                        if d == domain@ {
                            assert(v[v.len() - 1]@ == d);
                        } else {
                            let i = choose|i: int| 0 <= i < w.len() && w[i]@ == d;
                            assert(v[i]@ == d);
                        }
                    }
                }
                assert(self.domains() =~= old(self).domains().insert(domain@));
            }
        } else {
            proof {
                assert(old(self).domains().insert(domain@) =~= old(self).domains());
            }
        }
    }

    /// The importance score of a message: 1, 2 or 3, as `classify` states it
    /// over this scorer's trusted domains.
    pub fn calculate_score(&self, sender_email: &str, subject: &str, labels: &[&str]) -> (r: u8)
        requires
            self.wf(),
        ensures
            r == classify(self.domains(), sender_email@, subject@, labels.deep_view()),
    {
        let sender_lower = lowercase(sender_email);
        let subject_lower = lowercase(subject);

        if labels_contain(labels, "SPAM") || labels_contain(labels, "PROMOTIONS") {
            return 1;
        }
        if any_key_in(&self.spam_indicators, sender_lower.as_str()) {
            return 1;
        }
        if let Some(at) = find_char(sender_email, '@') {
            let n = sender_email.unicode_len();
            let domain = sender_email.substring_char(at + 1, n);
            if vec_contains_str(&self.important_domains, domain) {
                proof {
                    assert(self.domains().contains(domain@));
                }
                return 3;
            }
        }
        if any_key_in(&self.urgent_keywords, subject_lower.as_str()) {
            return 3;
        }
        if labels_contain(labels, "IMPORTANT") {
            return 3;
        }
        2
    }
}

impl Default for EmailScorer {
    /// The default scorer is a fresh one.
    fn default() -> (r: Self)
        ensures
            r.wf(),
            r.domains() == Set::<Seq<char>>::empty(),
    {
        Self::new()
    }
}

} // verus!
