//! A registry of the locales that the tokenizer understands, their codes and
//! their one-to-one pairing with the tokenizer's own languages, and the rules
//! that attach locales to attribute patterns.

pub mod locale;
pub mod rule;

pub use locale::{Locale, LocaleFormatError, LOCALE_COUNT};
pub use rule::{LocalizedAttributesRule, LocalizedAttributesRuleView};
