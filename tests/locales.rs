use charabia::Language;
use locales::{Locale, LocaleFormatError, LocalizedAttributesRule, LocalizedAttributesRuleView, LOCALE_COUNT};

fn strings(items: &[&str]) -> Vec<String> {
    items.iter().map(|s| s.to_string()).collect()
}

#[test]
fn parse_eng_and_write_it_back() {
    let l = Locale::parse("eng").ok().unwrap();
    assert_eq!(l, Locale::Eng);
    assert_eq!(l.code(), "eng");
}

#[test]
fn parse_through_from_str() {
    let l: Locale = "deu".parse().ok().unwrap();
    assert_eq!(l, Locale::Deu);
    assert_eq!("zho".parse::<Locale>().ok(), Some(Locale::Zho));
}

#[test]
fn parse_unknown_code_reports_valid_codes() {
    let e = Locale::parse("xx").err().unwrap();
    assert_eq!(e.invalid_locale, "xx");
    let m = e.message();
    assert!(m.starts_with("Unsupported locale"));
    assert!(m.starts_with("Unsupported locale \"xx\", expected one of \"epo\", \"eng\", "));
    assert!(m.contains("\"eng\""));
    assert!(m.ends_with(", \"hye\", \"zho\""));
}

#[test]
fn message_lists_every_code_once_in_order() {
    let e = Locale::parse("not-a-real-code").err().unwrap();
    let m = e.message();
    let mut last = 0;
    for l in Locale::all() {
        let q = format!("\"{}\"", l.code());
        assert_eq!(m.matches(q.as_str()).count(), 1);
        let at = m.find(q.as_str()).unwrap();
        assert!(at > last);
        last = at;
    }
}

#[test]
fn message_is_exact_for_a_small_input() {
    let e = LocaleFormatError { invalid_locale: "q".to_string() };
    let codes: Vec<String> = Locale::all().iter().map(|l| format!("\"{}\"", l.code())).collect();
    let expected = format!("Unsupported locale \"q\", expected one of {}", codes.join(", "));
    assert_eq!(e.message(), expected);
}

#[test]
fn parse_rejects_empty_and_unnormalised_codes() {
    for s in ["", "ENG", "Eng", " eng", "eng ", "en", "engl", "zh"] {
        let e = Locale::parse(s).err().unwrap();
        assert_eq!(e.invalid_locale, s);
    }
}

#[test]
fn every_code_parses_back_to_its_locale() {
    for l in Locale::all() {
        assert_eq!(Locale::parse(l.code()).ok(), Some(l));
    }
}

#[test]
fn registry_is_complete_and_codes_are_unique() {
    let all = Locale::all();
    assert_eq!(all.len(), LOCALE_COUNT);
    assert_eq!(all[0], Locale::Epo);
    assert_eq!(all[1], Locale::Eng);
    for i in 0..all.len() {
        for j in 0..all.len() {
            if i != j {
                assert_ne!(all[i], all[j]);
                assert_ne!(all[i].code(), all[j].code());
            }
        }
    }
}

#[test]
fn conversions_are_inverse() {
    let mut seen: Vec<Language> = Vec::new();
    for l in Locale::all() {
        let lang = Language::from(l);
        assert_eq!(Locale::from(lang), l);
        assert_eq!(lang.code(), l.code());
        assert!(!seen.contains(&lang));
        seen.push(lang);
    }
    assert_eq!(Locale::from(Language::Cmn), Locale::Cmn);
    assert_eq!(Language::from(Locale::Zho), Language::Zho);
    assert_eq!(Language::from(Locale::Hye), Language::Hye);
}

#[test]
fn rule_with_repeated_locale_round_trips() {
    let view = LocalizedAttributesRuleView {
        attribute_patterns: strings(&["title", "description.*"]),
        locales: vec![Locale::parse("eng").ok().unwrap(), Locale::parse("fra").ok().unwrap(), Locale::parse("eng").ok().unwrap()],
    };
    let rule = view.clone().into_rule();
    assert_eq!(rule.attribute_patterns, strings(&["title", "description.*"]));
    assert_eq!(rule.locales, vec![Language::Eng, Language::Fra, Language::Eng]);
    let back = LocalizedAttributesRuleView::from_rule(rule);
    assert_eq!(back, view);
}

#[test]
fn empty_rule_round_trips() {
    let view = LocalizedAttributesRuleView { attribute_patterns: Vec::new(), locales: Vec::new() };
    let rule = view.clone().into_rule();
    assert!(rule.attribute_patterns.is_empty());
    assert!(rule.locales.is_empty());
    assert_eq!(LocalizedAttributesRuleView::from_rule(rule), view);
}

#[test]
fn internal_rule_round_trips() {
    let rule = LocalizedAttributesRule {
        attribute_patterns: strings(&["*", "body", "*"]),
        locales: vec![Language::Jpn, Language::Zho, Language::Jpn, Language::Cmn],
    };
    let view = LocalizedAttributesRuleView::from_rule(rule.clone());
    assert_eq!(view.attribute_patterns, strings(&["*", "body", "*"]));
    assert_eq!(view.locales, vec![Locale::Jpn, Locale::Zho, Locale::Jpn, Locale::Cmn]);
    assert_eq!(view.into_rule(), rule);
}
