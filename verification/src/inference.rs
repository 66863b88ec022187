//! Date inference: the capture date of a file, from its embedded metadata
//! first and from its path second.

use crate::date::{metadata_date, parse_date_text, parse_metadata_date, text_date, CaptureDate};
use vstd::prelude::*;

verus! {

/// The texts of the two date-time fields of a file's embedded metadata, as
/// the bytes the file holds for them. A field that the metadata lacks, or
/// that is not text, is absent.
#[derive(Clone, Debug, PartialEq, Eq)]
pub struct EmbeddedDates {
    /// The field for the moment the picture was taken.
    pub original: Option<Vec<u8>>,
    /// The general date-time field.
    pub generic: Option<Vec<u8>>,
}

/// What `EmbeddedDates` holds, as mathematical sequences.
pub struct EmbeddedDatesView {
    pub original: Option<Seq<u8>>,
    pub generic: Option<Seq<u8>>,
}

impl View for EmbeddedDates {
    type V = EmbeddedDatesView;

    open spec fn view(&self) -> EmbeddedDatesView {
        EmbeddedDatesView {
            original: match self.original {
                Some(text) => Some(text@),
                None => None,
            },
            generic: match self.generic {
                Some(text) => Some(text@),
                None => None,
            },
        }
    }
}

/// A rule that reads a date off a relative path: a regular expression with
/// named capture groups, and a template that refers to them and expands to
/// the text of a date.
#[derive(Clone, Debug, PartialEq, Eq)]
pub struct DatePath {
    /// The regular expression that the relative path is searched for.
    pub path: String,
    /// The template of the date text, with `$name` or `${name}` for a group.
    pub date: String,
}

/// What a match of the regular expression `pattern` in `haystack` makes of
/// `template`: the result of `regex::Regex::new`, `Regex::captures` and
/// `Captures::expand` in turn, absent where the pattern does not compile or
/// does not match.
pub uninterp spec fn capture_expansion(
    pattern: Seq<char>,
    template: Seq<char>,
    haystack: Seq<char>,
) -> Option<Seq<char>>;

/// The view of optional metadata.
pub open spec fn optional_view(exif: Option<&EmbeddedDates>) -> Option<EmbeddedDatesView> {
    match exif {
        Some(dates) => Some(dates@),
        None => None,
    }
}

/// The date that one metadata field gives, if the field is present and its
/// text parses into a moment of the calendar.
pub open spec fn field_date(field: Option<Seq<u8>>) -> Option<CaptureDate> {
    match field {
        Some(text) => metadata_date(text),
        None => None,
    }
}

/// The date that embedded metadata gives: that of the original-capture field
/// if it gives one, else that of the general field.
pub open spec fn embedded_date(dates: EmbeddedDatesView) -> Option<CaptureDate> {
    if field_date(dates.original) is Some {
        field_date(dates.original)
    } else {
        field_date(dates.generic)
    }
}

/// The date that one rule reads off a relative path: the parsed expansion of
/// its template, if its pattern matches and the expansion is the text of a
/// date.
pub open spec fn rule_date(rule: DatePath, relative_path: Seq<char>) -> Option<CaptureDate> {
    match capture_expansion(rule.path@, rule.date@, relative_path) {
        Some(text) => text_date(text),
        None => None,
    }
}

/// The date of the first rule, from index `from` on, that gives one.
pub open spec fn first_rule_date(rules: Seq<DatePath>, relative_path: Seq<char>, from: int) -> Option<
    CaptureDate,
>
    decreases rules.len() - from,
{
    if 0 <= from < rules.len() {
        if rule_date(rules[from], relative_path) is Some {
            rule_date(rules[from], relative_path)
        } else {
            first_rule_date(rules, relative_path, from + 1)
        }
    } else {
        None
    }
}

/// The capture date of a file: what its embedded metadata gives, and only if
/// that gives nothing, what the first successful rule reads off its path.
pub open spec fn deduced_date(
    exif: Option<EmbeddedDatesView>,
    relative_path: Seq<char>,
    rules: Seq<DatePath>,
) -> Option<CaptureDate> {
    let embedded = match exif {
        Some(dates) => embedded_date(dates),
        None => None,
    };
    if embedded is Some {
        embedded
    } else {
        first_rule_date(rules, relative_path, 0)
    }
}

/// Compiles `pattern` with `regex::Regex::new`, searches `haystack` with
/// `Regex::captures` and expands `template` with `Captures::expand`.
/// Trusted: the outcome is a function of the three texts alone, here named
/// `capture_expansion`; it is absent where the pattern does not compile or
/// matches nowhere.
#[verifier::external_body]
fn expand_captures(pattern: &str, template: &str, haystack: &str) -> (expansion: Option<String>)
    ensures
        expansion matches Some(text) ==> capture_expansion(pattern@, template@, haystack@) == Some(
            text@,
        ),
        expansion is None ==> capture_expansion(pattern@, template@, haystack@) is None,
{
    let captures = regex::Regex::new(pattern).ok()?.captures(haystack)?;
    let mut text = String::new();
    captures.expand(template, &mut text);
    Some(text)
}

/// Reads a date off a relative path with one rule.
pub fn apply_date_path(rule: &DatePath, relative_path: &str) -> (date: Option<CaptureDate>)
    ensures
        date == rule_date(*rule, relative_path@),
{
    match expand_captures(rule.path.as_str(), rule.date.as_str(), relative_path) {
        Some(text) => parse_date_text(text.as_str()),
        None => None,
    }
}

/// Parses one metadata field, if it is present.
fn parse_field(field: &Option<Vec<u8>>) -> (date: Option<CaptureDate>)
    ensures
        date == field_date(
            match *field {
                Some(text) => Some(text@),
                None => None,
            },
        ),
{
    match field {
        Some(text) => parse_metadata_date(text.as_slice()),
        None => None,
    }
}

/// Finds the capture date of a file, from its embedded metadata or from its
/// path relative to the tree's root.
///
/// The sources are tried in a fixed order and the first date wins: the
/// original-capture field of the metadata, then its general date-time field,
/// then the rules in the order given. A field that is absent or does not
/// parse into a moment of the calendar, and a rule that does not match or
/// whose expansion is not the text of a date, give nothing and the next
/// source is tried. No date at all is an ordinary outcome.
pub fn try_deduce_date(
    exif: Option<&EmbeddedDates>,
    relative_path: &str,
    date_paths: &Vec<DatePath>,
) -> (date: Option<CaptureDate>)
    ensures
        date == deduced_date(optional_view(exif), relative_path@, date_paths@),
        date matches Some(found) ==> found.is_calendar(),
{
    if let Some(dates) = exif {
        if let Some(found) = parse_field(&dates.original) {
            return Some(found);
        }
        if let Some(found) = parse_field(&dates.generic) {
            return Some(found);
        }
    }
    let mut next: usize = 0;
    while next < date_paths.len()
        invariant
            next <= date_paths.len(),
            deduced_date(optional_view(exif), relative_path@, date_paths@) == first_rule_date(
                date_paths@,
                relative_path@,
                0,
            ),
            first_rule_date(date_paths@, relative_path@, 0) == first_rule_date(
                date_paths@,
                relative_path@,
                next as int,
            ),
        decreases date_paths.len() - next,
    {
        if let Some(found) = apply_date_path(&date_paths[next], relative_path) {
            return Some(found);
        }
        next = next + 1;
    }
    None
}

/// Date precedence: where the metadata's original-capture field parses into a
/// moment of the calendar, that moment is the capture date, whatever the
/// general field holds and whatever the rules would read off the path.
pub proof fn lemma_original_field_wins(
    dates: EmbeddedDatesView,
    relative_path: Seq<char>,
    rules: Seq<DatePath>,
)
    requires
        field_date(dates.original) is Some,
    ensures
        deduced_date(Some(dates), relative_path, rules) == field_date(dates.original),
{
}

/// Where the original-capture field gives nothing and the general field
/// parses into a moment of the calendar, that moment is the capture date,
/// whatever the rules would read off the path.
pub proof fn lemma_generic_field_is_second(
    dates: EmbeddedDatesView,
    relative_path: Seq<char>,
    rules: Seq<DatePath>,
)
    requires
        field_date(dates.original) is None,
        field_date(dates.generic) is Some,
    ensures
        deduced_date(Some(dates), relative_path, rules) == field_date(dates.generic),
{
}

/// The rules are tried in order: if the rule at `at` reads a date off the
/// path and no rule from `from` up to it does, its date is the first.
pub proof fn lemma_first_rule_date(
    rules: Seq<DatePath>,
    relative_path: Seq<char>,
    from: int,
    at: int,
)
    requires
        0 <= from <= at < rules.len(),
        rule_date(rules[at], relative_path) is Some,
        forall|earlier: int| from <= earlier < at ==> rule_date(
            #[trigger] rules[earlier],
            relative_path,
        ) is None,
    ensures
        first_rule_date(rules, relative_path, from) == rule_date(rules[at], relative_path),
    decreases at - from,
{
    if from < at {
        assert(rule_date(rules[from], relative_path) is None);
        lemma_first_rule_date(rules, relative_path, from + 1, at);
    }
}

/// Where no rule from `from` on reads a date off the path, there is none.
pub proof fn lemma_no_rule_date(rules: Seq<DatePath>, relative_path: Seq<char>, from: int)
    requires
        0 <= from,
        forall|i: int| from <= i < rules.len() ==> rule_date(#[trigger] rules[i], relative_path)
            is None,
    ensures
        first_rule_date(rules, relative_path, from) is None,
    decreases rules.len() - from,
{
    if from < rules.len() {
        assert(rule_date(rules[from], relative_path) is None);
        lemma_no_rule_date(rules, relative_path, from + 1);
    }
}

/// Path-pattern fallback: for a file whose metadata is absent or gives no
/// date, the capture date is the parsed expansion of the first rule whose
/// pattern matches the relative path with an expansion that is the text of a
/// date.
pub proof fn lemma_path_fallback(
    exif: Option<EmbeddedDatesView>,
    relative_path: Seq<char>,
    rules: Seq<DatePath>,
    at: int,
)
    requires
        exif matches Some(dates) ==> embedded_date(dates) is None,
        0 <= at < rules.len(),
        rule_date(rules[at], relative_path) is Some,
        forall|earlier: int| 0 <= earlier < at ==> rule_date(
            #[trigger] rules[earlier],
            relative_path,
        ) is None,
    ensures
        deduced_date(exif, relative_path, rules) == rule_date(rules[at], relative_path),
        capture_expansion(rules[at].path@, rules[at].date@, relative_path) matches Some(text)
            && deduced_date(exif, relative_path, rules) == text_date(text),
{
    lemma_first_rule_date(rules, relative_path, 0, at);
}

/// Where neither the metadata nor any rule gives a date, there is none.
pub proof fn lemma_no_source_no_date(
    exif: Option<EmbeddedDatesView>,
    relative_path: Seq<char>,
    rules: Seq<DatePath>,
)
    requires
        exif matches Some(dates) ==> embedded_date(dates) is None,
        forall|i: int| 0 <= i < rules.len() ==> rule_date(#[trigger] rules[i], relative_path)
            is None,
    ensures
        deduced_date(exif, relative_path, rules) is None,
{
    lemma_no_rule_date(rules, relative_path, 0);
}

} // verus!
