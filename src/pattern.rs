//! Compiled regular expressions and whole-text substitution, backed by the
//! `regex` crate.
use vstd::prelude::*;
use vstd::string::StringExecFns;
use crate::failure::Failure;

verus! {

#[verifier::external_type_specification]
#[verifier::external_body]
pub struct ExRegex(regex::Regex);

/// Whether `regex::Regex::new` accepts `pattern`.
pub uninterp spec fn pattern_compiles(pattern: Seq<char>) -> bool;

/// The engine's explanation of why `regex::Regex::new` rejects `pattern`.
pub uninterp spec fn compile_diagnostic(pattern: Seq<char>) -> Seq<char>;

/// The edits that `regex::Regex::replace_all` makes to `text`: one for each
/// non-overlapping match of `pattern`, left to right, holding the match's
/// start and end (in characters) and `template` expanded for that match.
pub uninterp spec fn replace_all_edits(
    pattern: Seq<char>,
    template: Seq<char>,
    text: Seq<char>,
) -> Seq<(int, int, Seq<char>)>;

/// Each edit covers a span of `text`, and the spans come in order without
/// overlapping, each starting strictly after the one before.
pub open spec fn edits_well_formed(text: Seq<char>, edits: Seq<(int, int, Seq<char>)>) -> bool {
    &&& forall|i: int|
        0 <= i < edits.len() ==> 0 <= #[trigger] edits[i].0 <= edits[i].1 <= text.len()
    &&& forall|i: int, j: int|
        0 <= i < j < edits.len() ==> #[trigger] edits[i].1 <= #[trigger] edits[j].0
    &&& forall|i: int, j: int|
        0 <= i < j < edits.len() ==> #[trigger] edits[i].0 < #[trigger] edits[j].0
}

/// `text` with the span of each edit replaced by the edit's text.
pub open spec fn splice(text: Seq<char>, edits: Seq<(int, int, Seq<char>)>) -> Seq<char>
    decreases edits.len(),
{
    if edits.len() == 0 {
        text
    } else {
        let last = edits.last();
        splice(text.subrange(0, last.0), edits.drop_last()) + last.2 + text.subrange(
            last.1,
            text.len() as int,
        )
    }
}

/// `result` is `text` with the well-formed `edits` made.
pub open spec fn is_splice_of(
    result: Seq<char>,
    text: Seq<char>,
    edits: Seq<(int, int, Seq<char>)>,
) -> bool {
    edits_well_formed(text, edits) && result == splice(text, edits)
}

/// What substituting `template` for every match of `pattern` makes of `text`.
pub open spec fn substitution(pattern: Seq<char>, template: Seq<char>, text: Seq<char>) -> Seq<
    char,
> {
    splice(text, replace_all_edits(pattern, template, text))
}

/// Whether substituting `template` for `pattern` finds any match in `text`.
pub open spec fn occurs(pattern: Seq<char>, template: Seq<char>, text: Seq<char>) -> bool {
    replace_all_edits(pattern, template, text).len() > 0
}

/// A regular expression together with the pattern text it was built from.
pub struct CompiledPattern {
    regex: regex::Regex,
    pattern: Ghost<Seq<char>>,
}

/// Relies on `regex::Regex::new`: it builds a regex exactly when it accepts
/// the pattern, and otherwise its error, as displayed, explains why; both
/// depend on the pattern alone.
#[verifier::external_body]
fn new_regex(pattern: &str) -> (r: Result<regex::Regex, String>)
    ensures
        r is Ok <==> pattern_compiles(pattern@),
        r matches Err(d) ==> d@ == compile_diagnostic(pattern@),
{
    match regex::Regex::new(pattern) {
        Ok(re) => Ok(re),
        Err(e) => Err(e.to_string()),
    }
}

/// Relies on `regex::Regex::replace_all`, which copies the text between
/// successive non-overlapping matches and puts the expanded template in place
/// of each match; after an empty match the next match starts further on.
#[verifier::external_body]
fn regex_replace_all(c: &CompiledPattern, template: &str, text: &str) -> (r: String)
    ensures
        is_splice_of(r@, text@, replace_all_edits(c.source(), template@, text@)),
{
    c.regex.replace_all(text, template).into_owned()
}

impl CompiledPattern {
    /// The pattern text this regular expression was built from.
    pub closed spec fn source(&self) -> Seq<char> {
        self.pattern@
    }

    /// Builds the regular expression for `target`, or says why it is not a
    /// valid pattern.
    pub fn compile(target: &str) -> (r: Result<CompiledPattern, Failure>)
        ensures
            r is Ok <==> pattern_compiles(target@),
            r matches Ok(c) ==> c.source() == target@,
            r matches Err(f) ==> (f matches Failure::Pattern { target: t, diagnostic: d } && t@
                == target@ && d@ == compile_diagnostic(target@)),
    {
        match new_regex(target) {
            Ok(regex) => Ok(CompiledPattern { regex, pattern: Ghost(target@) }),
            Err(d) => Err(Failure::Pattern { target: String::from_str(target), diagnostic: d }),
        }
    }

    /// Replaces every non-overlapping match in `text`, left to right, by
    /// `template` with its `$n` references expanded for that match.
    pub fn substitute_all(&self, template: &str, text: &str) -> (r: String)
        ensures
            r@ == substitution(self.source(), template@, text@),
            edits_well_formed(text@, replace_all_edits(self.source(), template@, text@)),
    {
        regex_replace_all(self, template, text)
    }
}

/// Compiles `target` and substitutes `replacement` for each of its matches in
/// `text`.
pub fn replace(target: &str, replacement: &str, text: &str) -> (r: Result<String, Failure>)
    ensures
        r is Ok <==> pattern_compiles(target@),
        r matches Ok(s) ==> s@ == substitution(target@, replacement@, text@),
        r is Ok ==> edits_well_formed(text@, replace_all_edits(target@, replacement@, text@)),
        r matches Err(f) ==> (f matches Failure::Pattern { target: t, diagnostic: d } && t@
            == target@ && d@ == compile_diagnostic(target@)),
{
    let c = CompiledPattern::compile(target)?;
    Ok(c.substitute_all(replacement, text))
}

/// Where a pattern does not occur in a text, substitution gives the text back
/// unchanged, whatever the template.
pub proof fn lemma_no_match_leaves_text(pattern: Seq<char>, template: Seq<char>, text: Seq<char>)
    requires
        !occurs(pattern, template, text),
    ensures
        substitution(pattern, template, text) == text,
{
}

/// Splicing well-formed edits replaces every edited span: the result begins
/// with the edits before edit `i` made to the text before its span, followed
/// at once by the text of edit `i`.
pub proof fn lemma_splice_replaces_each_span(
    text: Seq<char>,
    edits: Seq<(int, int, Seq<char>)>,
    i: int,
)
    requires
        edits_well_formed(text, edits),
        0 <= i < edits.len(),
    ensures
        ({
            let before = splice(text.subrange(0, edits[i].0), edits.take(i));
            &&& before.len() + edits[i].2.len() <= splice(text, edits).len()
            &&& splice(text, edits).subrange(0, (before.len() + edits[i].2.len()) as int) == before
                + edits[i].2
        }),
    decreases edits.len(),
{
    let last = edits.last();
    let n = edits.len() - 1;
    let head = splice(text.subrange(0, last.0), edits.drop_last());
    assert(splice(text, edits) == head + last.2 + text.subrange(last.1, text.len() as int));
    if i == n {
        assert(edits.take(i) =~= edits.drop_last());
        let both = head + last.2;
        assert(splice(text, edits).subrange(0, both.len() as int) =~= both);
    } else {
        let shorter = text.subrange(0, last.0);
        let rest = edits.drop_last();
        assert(edits[i].1 <= edits[n].0);
        assert forall|k: int| 0 <= k < rest.len() implies 0 <= #[trigger] rest[k].0 <= rest[k].1
            <= shorter.len() by {
            if k < n {
                assert(edits[k].1 <= edits[n].0);
            }
        }
        assert forall|k: int, j: int| 0 <= k < j < rest.len() implies #[trigger] rest[k].1
            <= #[trigger] rest[j].0 by {
            assert(edits[k].1 <= edits[j].0);
        }
        lemma_splice_replaces_each_span(shorter, rest, i);
        assert(rest.take(i) =~= edits.take(i));
        assert(shorter.subrange(0, edits[i].0) =~= text.subrange(0, edits[i].0));
        let before = splice(text.subrange(0, edits[i].0), edits.take(i));
        let len = (before.len() + edits[i].2.len()) as int;
        assert(head.subrange(0, len) == before + edits[i].2);
        assert(splice(text, edits).subrange(0, len) =~= head.subrange(0, len));
    }
}

/// Substitution replaces every match: after the earlier matches have been
/// substituted in the text before match `i`, the template as expanded for
/// match `i` follows in the output.
pub proof fn lemma_every_match_replaced(
    pattern: Seq<char>,
    template: Seq<char>,
    text: Seq<char>,
    i: int,
)
    requires
        edits_well_formed(text, replace_all_edits(pattern, template, text)),
        0 <= i < replace_all_edits(pattern, template, text).len(),
    ensures
        ({
            let edits = replace_all_edits(pattern, template, text);
            let before = splice(text.subrange(0, edits[i].0), edits.take(i));
            substitution(pattern, template, text).subrange(0, (before.len() + edits[i].2.len()) as int)
                == before + edits[i].2
        }),
{
    lemma_splice_replaces_each_span(text, replace_all_edits(pattern, template, text), i);
}

/// Strictly increasing starts within `0..=bound` number at most `bound + 1`.
proof fn lemma_increasing_starts_bounded(edits: Seq<(int, int, Seq<char>)>, bound: int)
    requires
        bound >= -1,
        forall|i: int| 0 <= i < edits.len() ==> 0 <= #[trigger] edits[i].0 <= bound,
        forall|i: int, j: int|
            0 <= i < j < edits.len() ==> #[trigger] edits[i].0 < #[trigger] edits[j].0,
    ensures
        edits.len() <= bound + 1,
    decreases edits.len(),
{
    if edits.len() > 0 {
        let rest = edits.drop_last();
        let n = edits.len() - 1;
        assert(0 <= edits[n].0 <= bound);
        assert forall|i: int| 0 <= i < rest.len() implies 0 <= #[trigger] rest[i].0 <= edits[n].0
            - 1 by {
            assert(edits[i].0 < edits[n].0);
        }
        assert forall|i: int, j: int| 0 <= i < j < rest.len() implies #[trigger] rest[i].0
            < #[trigger] rest[j].0 by {
            assert(edits[i].0 < edits[j].0);
        }
        lemma_increasing_starts_bounded(rest, edits[n].0 - 1);
    }
}

/// Substitution always makes progress: even a pattern that matches the empty
/// string matches at most once per position of the text, so there are at most
/// one more matches than characters, each starting after the one before.
pub proof fn lemma_matches_bounded_by_length(
    pattern: Seq<char>,
    template: Seq<char>,
    text: Seq<char>,
)
    requires
        edits_well_formed(text, replace_all_edits(pattern, template, text)),
    ensures
        replace_all_edits(pattern, template, text).len() <= text.len() + 1,
{
    lemma_increasing_starts_bounded(replace_all_edits(pattern, template, text), text.len() as int);
}

} // verus!
