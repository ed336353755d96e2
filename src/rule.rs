use vstd::prelude::*;

use charabia::Language;

use crate::locale::{Locale, from_language, lemma_bijection, to_language};

verus! {

/// A rule as the indexing pipeline holds it: attribute patterns and the
/// tokenizer languages that apply to the attributes they match.
#[derive(Debug, Clone, PartialEq, Eq)]
pub struct LocalizedAttributesRule {
    pub attribute_patterns: Vec<String>,
    pub locales: Vec<Language>,
}

/// A rule as users write it: attribute patterns and the locales that apply
/// to the attributes they match. Order and repeats are kept in both lists.
#[derive(Debug, Clone, PartialEq, Eq)]
pub struct LocalizedAttributesRuleView {
    pub attribute_patterns: Vec<String>,
    pub locales: Vec<Locale>,
}

/// Each locale of `ls` replaced by its tokenizer language, in order.
pub open spec fn to_languages(ls: Seq<Locale>) -> Seq<Language> {
    ls.map_values(|l: Locale| to_language(l))
}

/// Each tokenizer language of `ls` replaced by its locale, in order.
pub open spec fn to_locales(ls: Seq<Language>) -> Seq<Locale> {
    ls.map_values(|l: Language| from_language(l))
}

/// Turning a rule's locales into languages and back gives the list one
/// started from, with its order and repeats, and the same holds from the
/// other side; the patterns are carried unchanged both ways.
pub proof fn lemma_rule_round_trip(locales: Seq<Locale>, languages: Seq<Language>)
    ensures
        to_locales(to_languages(locales)) == locales,
        to_languages(to_locales(languages)) == languages,
{
    lemma_bijection();
    assert(to_locales(to_languages(locales)) =~= locales);
    assert(to_languages(to_locales(languages)) =~= languages);
}

impl LocalizedAttributesRuleView {
    /// The rule in the form the indexing pipeline uses.
    pub fn into_rule(self) -> (r: LocalizedAttributesRule)
        ensures
            r.attribute_patterns@ == self.attribute_patterns@,
            r.locales@ == to_languages(self.locales@),
    {
        let mut locales: Vec<Language> = Vec::new();
        let mut i: usize = 0;
        while i < self.locales.len()
            invariant
                i <= self.locales@.len(),
                locales@ == to_languages(self.locales@.take(i as int)),
            decreases self.locales@.len() - i,
        {
            locales.push(Language::from(self.locales[i]));
            i = i + 1;
            assert(locales@ =~= to_languages(self.locales@.take(i as int)));
        }
        assert(self.locales@.take(i as int) =~= self.locales@);
        LocalizedAttributesRule { attribute_patterns: self.attribute_patterns, locales }
    }

    /// The view of a rule that the indexing pipeline holds.
    pub fn from_rule(rule: LocalizedAttributesRule) -> (r: LocalizedAttributesRuleView)
        ensures
            r.attribute_patterns@ == rule.attribute_patterns@,
            r.locales@ == to_locales(rule.locales@),
    {
        let mut locales: Vec<Locale> = Vec::new();
        let mut i: usize = 0;
        while i < rule.locales.len()
            invariant
                i <= rule.locales@.len(),
                locales@ == to_locales(rule.locales@.take(i as int)),
            decreases rule.locales@.len() - i,
        {
            locales.push(Locale::from(rule.locales[i]));
            i = i + 1;
            assert(locales@ =~= to_locales(rule.locales@.take(i as int)));
        }
        assert(rule.locales@.take(i as int) =~= rule.locales@);
        LocalizedAttributesRuleView { attribute_patterns: rule.attribute_patterns, locales }
    }
}

} // verus!
