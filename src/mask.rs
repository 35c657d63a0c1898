//! The ignore mask: operator-supplied regular expressions whose matches are blanked
//! out of fetched content before it is compared.

use vstd::prelude::*;

verus! {

/// What every match of an ignore pattern is replaced by.
pub const IGNORED_TOKEN: &'static str = "__ignored__";

/// Whether the regex crate accepts `pattern` (valid syntax, within the default size limit).
pub uninterp spec fn pattern_compiles(pattern: Seq<char>) -> bool;

/// Whether `pattern` matches somewhere in `text`.
pub uninterp spec fn pattern_matches(pattern: Seq<char>, text: Seq<char>) -> bool;

/// `text` with every leftmost-first, non-overlapping match of `pattern` replaced by
/// `token` (read as a regex replacement string).
pub uninterp spec fn masked_text(pattern: Seq<char>, text: Seq<char>, token: Seq<char>) -> Seq<char>;

#[verifier::external_type_specification]
#[verifier::external_body]
pub struct ExRegex(regex::Regex);

#[verifier::external_type_specification]
#[verifier::external_body]
pub struct ExRegexError(regex::Error);

/// A compiled ignore pattern together with the source it was compiled from.
///
/// Only `compile` builds one, so `regex` is always the compilation of `source`.
pub struct IgnoreMask {
    source: String,
    regex: regex::Regex,
}

impl View for IgnoreMask {
    type V = Seq<char>;

    closed spec fn view(&self) -> Seq<char> {
        self.source@
    }
}

/// Relies on regex::Regex::new: it compiles `source`, and fails on exactly the
/// patterns that the regex crate rejects.
#[verifier::external_body]
fn compile(source: String) -> (r: Result<IgnoreMask, regex::Error>)
    ensures
        r is Ok <==> pattern_compiles(source@),
        r matches Ok(m) ==> m@ == source@,
{
    regex::Regex::new(&source).map(|regex| IgnoreMask { source, regex })
}

/// Relies on regex::Regex::is_match: whether the pattern matches anywhere in `text`.
#[verifier::external_body]
fn finds_match(mask: &IgnoreMask, text: &str) -> (r: bool)
    ensures
        r == pattern_matches(mask@, text@),
{
    mask.regex.is_match(text)
}

/// Relies on regex::Regex::replace_all: every match is replaced by `token`, and a
/// text in which the pattern has no match comes back unchanged.
#[verifier::external_body]
fn replace_matches(mask: &IgnoreMask, text: &str, token: &str) -> (r: String)
    ensures
        r@ == masked_text(mask@, text@, token@),
        !pattern_matches(mask@, text@) ==> r@ == text@,
        !pattern_matches(mask@, r@) ==> masked_text(mask@, r@, token@) == r@,
{
    mask.regex.replace_all(text, token).into_owned()
}

/// The patterns separated by `|`.
pub open spec fn alternatives(patterns: Seq<Seq<char>>) -> Seq<char>
    decreases patterns.len(),
{
    if patterns.len() == 0 {
        Seq::empty()
    } else if patterns.len() == 1 {
        patterns[0]
    } else {
        alternatives(patterns.drop_last()) + "|"@ + patterns.last()
    }
}

/// The single pattern that matches wherever one of `patterns` matches: their
/// alternation inside a non-capturing group.
pub open spec fn combined_pattern(patterns: Seq<Seq<char>>) -> Seq<char> {
    "(?:"@ + alternatives(patterns) + ")"@
}

/// The mask that a list of ignore patterns yields: none for an empty list.
pub open spec fn mask_for(patterns: Seq<Seq<char>>) -> Option<Seq<char>> {
    if patterns.len() == 0 {
        None
    } else {
        Some(combined_pattern(patterns))
    }
}

/// Whether a list of ignore patterns can be built into a mask: each pattern
/// compiles on its own, and so does their alternation.
pub open spec fn patterns_compile(patterns: Seq<Seq<char>>) -> bool {
    patterns.len() == 0 || ((forall|i: int| 0 <= i < patterns.len() ==> pattern_compiles(#[trigger] patterns[i]))
        && pattern_compiles(combined_pattern(patterns)))
}

/// `text` normalised by an optional mask: unchanged without one.
pub open spec fn apply_mask(mask: Option<Seq<char>>, text: Seq<char>) -> Seq<char> {
    match mask {
        None => text,
        Some(p) => masked_text(p, text, IGNORED_TOKEN@),
    }
}

/// Whether an optional mask finds something to replace in `text`.
pub open spec fn mask_matches(mask: Option<Seq<char>>, text: Seq<char>) -> bool {
    match mask {
        None => false,
        Some(p) => pattern_matches(p, text),
    }
}

/// The source of an optional compiled mask.
pub open spec fn mask_source(mask: Option<IgnoreMask>) -> Option<Seq<char>> {
    match mask {
        None => None,
        Some(m) => Some(m@),
    }
}

/// Joins the ignore patterns into one alternation.
pub fn join_patterns(patterns: &Vec<String>) -> (r: String)
    requires
        patterns.len() > 0,
    ensures
        r@ == combined_pattern(patterns.deep_view()),
{
    let mut joined = String::from_str("(?:");
    let mut i: usize = 0;
    while i < patterns.len()
        invariant
            0 <= i <= patterns.len(),
            patterns.len() > 0,
            joined@ == "(?:"@ + alternatives(patterns.deep_view().take(i as int)),
        decreases patterns.len() - i,
    {
        let ghost before = joined@;
        if i > 0 {
            joined.append("|");
        }
        joined.append(patterns[i].as_str());
        proof {
            let taken = patterns.deep_view().take(i as int + 1);
            assert(taken.drop_last() =~= patterns.deep_view().take(i as int));
            assert(taken.last() == patterns[i as int]@);
            if i == 0 {
                assert(alternatives(taken) == taken[0]);
                assert(joined@ =~= "(?:"@ + alternatives(taken));
            } else {
                assert(joined@ =~= "(?:"@ + alternatives(taken));
            }
        }
        i = i + 1;
    }
    joined.append(")");
    assert(patterns.deep_view().take(patterns.len() as int) =~= patterns.deep_view());
    assert(joined@ =~= combined_pattern(patterns.deep_view()));
    joined
}

/// Builds the mask for a list of ignore patterns: none for an empty list, else the
/// compiled alternation of all of them. Fails with the regex crate's error when it
/// rejects one of the patterns, or their alternation.
pub fn build_mask(patterns: &Vec<String>) -> (r: Result<Option<IgnoreMask>, regex::Error>)
    ensures
        r is Ok <==> patterns_compile(patterns.deep_view()),
        r matches Ok(m) ==> mask_source(m) == mask_for(patterns.deep_view()),
{
    if patterns.len() == 0 {
        return Ok(None);
    }
    let mut i: usize = 0;
    while i < patterns.len()
        invariant
            0 <= i <= patterns.len(),
            forall|k: int| 0 <= k < i ==> pattern_compiles(#[trigger] patterns.deep_view()[k]),
        decreases patterns.len() - i,
    {
        match compile(patterns[i].clone()) {
            Ok(_) => {},
            Err(e) => {
                assert(!pattern_compiles(patterns.deep_view()[i as int]));
                return Err(e);
            },
        }
        i = i + 1;
    }
    match compile(join_patterns(patterns)) {
        Ok(m) => Ok(Some(m)),
        Err(e) => Err(e),
    }
}

/// Whether the mask finds something to replace in `text`.
pub fn mask_finds_match(mask: &Option<IgnoreMask>, text: &str) -> (r: bool)
    ensures
        r == mask_matches(mask_source(*mask), text@),
{
    match mask {
        None => false,
        Some(m) => finds_match(m, text),
    }
}

/// Masks `value`: every match of the mask's pattern becomes the ignore token.
///
/// Content in which the mask finds nothing comes back unchanged, and masking is
/// idempotent whenever the masked result holds no further match.
pub fn mask_value(mask: &Option<IgnoreMask>, value: String) -> (r: String)
    ensures
        r@ == apply_mask(mask_source(*mask), value@),
        !mask_matches(mask_source(*mask), value@) ==> r@ == value@,
        !mask_matches(mask_source(*mask), r@) ==> apply_mask(mask_source(*mask), r@) == r@,
{
    match mask {
        None => value,
        Some(m) => replace_matches(m, value.as_str(), IGNORED_TOKEN),
    }
}

} // verus!
