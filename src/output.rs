//! Classification of what the package manager prints: warnings apart from
//! the summary of what was added, and the one line that explains a failure.
use vstd::prelude::*;
use crate::text::{
    has_prefix, is_space_spec, line_end, line_text, lines_from, lines_spec, split_lines, trim,
    trim_end, trim_end_spec, trim_spec, trim_start_spec, views,
};

verus! {

/// A line whose trimmed text begins with `Warning`.
pub open spec fn is_warning_line(l: Seq<char>) -> bool {
    "Warning"@.is_prefix_of(trim_spec(l))
}

/// A line whose trimmed text begins with `Adding`.
pub open spec fn is_adding_line(l: Seq<char>) -> bool {
    "Adding"@.is_prefix_of(trim_spec(l))
}

/// The warnings block of `ls`: each warning line, in order, after a line feed.
pub open spec fn warnings_block(ls: Seq<Seq<char>>) -> Seq<char>
    decreases ls.len(),
{
    if ls.len() == 0 {
        Seq::empty()
    } else if is_warning_line(ls.last()) {
        warnings_block(ls.drop_last()) + seq!['\n'] + ls.last()
    } else {
        warnings_block(ls.drop_last())
    }
}

/// The summary block of `ls`: from the first `Adding` line on, every line
/// followed by a space.
pub open spec fn summary_block(ls: Seq<Seq<char>>) -> Seq<char>
    decreases ls.len(),
{
    if ls.len() == 0 {
        Seq::empty()
    } else {
        let before = summary_block(ls.drop_last());
        if before.len() > 0 || is_adding_line(ls.last()) {
            before + ls.last() + seq![' ']
        } else {
            before
        }
    }
}

/// The warnings that the output `text` of a successful `add` holds.
pub open spec fn warnings_spec(text: Seq<char>) -> Seq<char> {
    warnings_block(lines_spec(text))
}

/// The summary of the output `text` of a successful `add`, without trailing whitespace.
pub open spec fn summary_spec(text: Seq<char>) -> Seq<char> {
    trim_end_spec(summary_block(lines_spec(text)))
}

/// The last line of `text`, or nothing when it has no line.
pub open spec fn last_line_spec(text: Seq<char>) -> Seq<char> {
    let ls = lines_spec(text);
    if ls.len() == 0 {
        Seq::empty()
    } else {
        ls.last()
    }
}

/// What a failed run reports: the last line of its output, trimmed.
pub open spec fn failure_spec(text: Seq<char>) -> Seq<char> {
    trim_spec(last_line_spec(text))
}

/// The output of a successful `add`, split into warnings and summary.
#[derive(Clone, Debug, PartialEq, Eq)]
pub struct Classified {
    /// Every warning line, each after a line feed; empty when there is none.
    pub warnings: String,
    /// What was added, on one line.
    pub summary: String,
}

/// Splits the output of a successful `add` into warnings and summary.
pub fn classify_added(text: &str) -> (r: Classified)
    ensures
        r.warnings@ == warnings_spec(text@),
        r.summary@ == summary_spec(text@),
{
    let lines = split_lines(text);
    let ghost ls = views(lines@);
    let mut warnings = String::new();
    let mut summary = String::new();
    let mut i: usize = 0;
    while i < lines.len()
        invariant
            ls == views(lines@),
            ls == lines_spec(text@),
            i <= lines@.len(),
            warnings@ == warnings_block(ls.subrange(0, i as int)),
            summary@ == summary_block(ls.subrange(0, i as int)),
        decreases lines.len() - i,
    {
        let line = lines[i].as_str();
        let t = trim(line);
        let ghost pre = ls.subrange(0, i as int);
        let ghost now = ls.subrange(0, i + 1);
        let ghost w0 = warnings@;
        let ghost s0 = summary@;
        proof {
            assert(now.drop_last() =~= pre);
            assert(now.last() == line@);
            reveal_strlit("\n");
            reveal_strlit(" ");
            assert("\n"@ =~= seq!['\n']);
            assert(" "@ =~= seq![' ']);
        }
        if has_prefix(t, "Warning") {
            warnings.append("\n");
            warnings.append(line);
            assert(warnings@ =~= w0 + seq!['\n'] + line@);
        }
        if summary.unicode_len() > 0 || has_prefix(t, "Adding") {
            summary.append(line);
            summary.append(" ");
            assert(summary@ =~= s0 + line@ + seq![' ']);
        }
        i = i + 1;
    }
    assert(ls.subrange(0, i as int) =~= ls);
    let summary = String::from_str(trim_end(summary.as_str()));
    Classified { warnings, summary }
}

/// What a failed run reports of its output `text`.
pub fn failure_report(text: &str) -> (r: String)
    ensures
        r@ == failure_spec(text@),
{
    let lines = split_lines(text);
    if lines.len() == 0 {
        String::new()
    } else {
        String::from_str(trim(lines[lines.len() - 1].as_str()))
    }
}

/// Whether `l` holds no line feed.
spec fn no_newline(l: Seq<char>) -> bool {
    forall|c: int| 0 <= c < l.len() ==> l[c] != '\n'
}

/// The number of whitespace characters that `s` begins with.
spec fn leading_spaces(s: Seq<char>) -> nat
    decreases s.len(),
{
    if s.len() > 0 && is_space_spec(s[0]) {
        1 + leading_spaces(s.drop_first())
    } else {
        0
    }
}

proof fn lemma_trim_start_skips(s: Seq<char>)
    ensures
        leading_spaces(s) <= s.len(),
        trim_start_spec(s) == s.skip(leading_spaces(s) as int),
        leading_spaces(s) < s.len() ==> !is_space_spec(s[leading_spaces(s) as int]),
    decreases s.len(),
{
    if s.len() > 0 && is_space_spec(s[0]) {
        lemma_trim_start_skips(s.drop_first());
        assert(s.drop_first().skip(leading_spaces(s.drop_first()) as int) =~= s.skip(
            leading_spaces(s) as int,
        ));
    } else {
        assert(s.skip(0) =~= s);
    }
}

proof fn lemma_leading_spaces_exact(s: Seq<char>, k: int)
    requires
        0 <= k < s.len(),
        forall|m: int| 0 <= m < k ==> is_space_spec(#[trigger] s[m]),
        !is_space_spec(s[k]),
    ensures
        leading_spaces(s) == k,
    decreases k,
{
    if k > 0 {
        let d = s.drop_first();
        assert forall|m: int| 0 <= m < k - 1 implies is_space_spec(#[trigger] d[m]) by {
            assert(d[m] == s[m + 1]);
        }
        assert(d[k - 1] == s[k]);
        lemma_leading_spaces_exact(d, k - 1);
    }
}

proof fn lemma_trim_end_prefix(s: Seq<char>)
    ensures
        trim_end_spec(s).len() <= s.len(),
        trim_end_spec(s) == s.take(trim_end_spec(s).len() as int),
    decreases s.len(),
{
    if s.len() > 0 && is_space_spec(s.last()) {
        lemma_trim_end_prefix(s.drop_last());
        assert(s.drop_last().take(trim_end_spec(s).len() as int) =~= s.take(
            trim_end_spec(s).len() as int,
        ));
    } else {
        assert(s.take(s.len() as int) =~= s);
    }
}

proof fn lemma_trim_end_keeps(s: Seq<char>, k: int)
    requires
        0 <= k < s.len(),
        !is_space_spec(s[k]),
    ensures
        k < trim_end_spec(s).len(),
    decreases s.len(),
{
    if is_space_spec(s.last()) {
        lemma_trim_end_keeps(s.drop_last(), k);
    }
}

/// Where `s` begins with `k` whitespace characters and then a solid one,
/// its trimmed text begins with that character.
proof fn lemma_trim_first(s: Seq<char>, k: int)
    requires
        0 <= k < s.len(),
        forall|m: int| 0 <= m < k ==> is_space_spec(#[trigger] s[m]),
        !is_space_spec(s[k]),
    ensures
        trim_spec(s).len() > 0,
        trim_spec(s)[0] == s[k],
{
    lemma_leading_spaces_exact(s, k);
    lemma_trim_start_skips(s);
    let t = trim_start_spec(s);
    assert(t[0] == s[k]);
    lemma_trim_end_keeps(t, 0);
    lemma_trim_end_prefix(t);
    assert(trim_spec(s)[0] == t.take(trim_end_spec(t).len() as int)[0]);
}

proof fn lemma_line_end_clear(s: Seq<char>, i: int)
    requires
        0 <= i <= s.len(),
    ensures
        i <= line_end(s, i) <= s.len(),
        forall|k: int| i <= k < line_end(s, i) ==> s[k] != '\n',
    decreases s.len() - i,
{
    if i < s.len() && s[i] != '\n' {
        lemma_line_end_clear(s, i + 1);
    }
}

proof fn lemma_lines_no_newline(s: Seq<char>, i: int)
    requires
        0 <= i,
    ensures
        forall|k: int| 0 <= k < lines_from(s, i).len() ==> no_newline(#[trigger] lines_from(s, i)[k]),
    decreases s.len() - i,
{
    if i < s.len() {
        let j = line_end(s, i);
        lemma_line_end_clear(s, i);
        let l = line_text(s, i, j);
        assert(no_newline(l));
        if j < s.len() {
            lemma_lines_no_newline(s, j + 1);
            assert forall|k: int| 0 <= k < lines_from(s, i).len() implies no_newline(
                #[trigger] lines_from(s, i)[k],
            ) by {
                if k > 0 {
                    assert(lines_from(s, i)[k] == lines_from(s, j + 1)[k - 1]);
                }
            }
        }
    }
}

proof fn lemma_summary_no_newline(ls: Seq<Seq<char>>)
    requires
        forall|k: int| 0 <= k < ls.len() ==> no_newline(#[trigger] ls[k]),
    ensures
        no_newline(summary_block(ls)),
    decreases ls.len(),
{
    if ls.len() > 0 {
        let d = ls.drop_last();
        assert forall|k: int| 0 <= k < d.len() implies no_newline(#[trigger] d[k]) by {
            assert(d[k] == ls[k]);
        }
        lemma_summary_no_newline(d);
        assert(no_newline(ls.last()));
    }
}

proof fn lemma_summary_starts_adding(ls: Seq<Seq<char>>)
    ensures
        summary_block(ls).len() > 0 ==> exists|j: int|
            0 <= j < ls.len() && is_adding_line(#[trigger] ls[j]) && ls[j].is_prefix_of(
                summary_block(ls),
            ),
    decreases ls.len(),
{
    if ls.len() > 0 {
        let d = ls.drop_last();
        let before = summary_block(d);
        let s = summary_block(ls);
        lemma_summary_starts_adding(d);
        if before.len() > 0 {
            let j = choose|j: int|
                0 <= j < d.len() && is_adding_line(#[trigger] d[j]) && d[j].is_prefix_of(before);
            assert(d[j] == ls[j]);
            assert(s.subrange(0, ls[j].len() as int) =~= before.subrange(0, ls[j].len() as int));
            assert(ls[j].is_prefix_of(s));
        } else if is_adding_line(ls.last()) {
            let j = ls.len() - 1;
            assert(s.subrange(0, ls[j].len() as int) =~= ls[j]);
            assert(ls[j].is_prefix_of(s));
        }
    }
}

proof fn lemma_single_line(s: Seq<char>)
    requires
        s.len() > 0,
        no_newline(s),
    ensures
        lines_spec(s) == seq![s],
{
    assert forall|i: int| 0 <= i <= s.len() implies line_end(s, i) == s.len() by {
        lemma_line_end_to_end(s, i);
    }
    assert(line_text(s, 0, s.len() as int) =~= s);
}

proof fn lemma_line_end_to_end(s: Seq<char>, i: int)
    requires
        0 <= i <= s.len(),
        no_newline(s),
    ensures
        line_end(s, i) == s.len(),
    decreases s.len() - i,
{
    if i < s.len() {
        lemma_line_end_to_end(s, i + 1);
    }
}

/// Classifying the summary of an `add` again finds no warning in it: the
/// summary is one line, and when it is not empty its trimmed text begins
/// with `Adding`.
pub proof fn law_summary_has_no_warnings(text: Seq<char>)
    ensures
        warnings_spec(summary_spec(text)) == Seq::<char>::empty(),
{
    let ls = lines_spec(text);
    let s = summary_block(ls);
    let t = summary_spec(text);
    lemma_lines_no_newline(text, 0);
    lemma_summary_no_newline(ls);
    lemma_trim_end_prefix(s);
    if s.len() == 0 {
        assert(t.len() == 0);
        assert(lines_spec(t) =~= Seq::<Seq<char>>::empty());
        assert(warnings_block(Seq::<Seq<char>>::empty()) == Seq::<char>::empty());
    } else {
        lemma_summary_starts_adding(ls);
        let j = choose|j: int|
            0 <= j < ls.len() && is_adding_line(#[trigger] ls[j]) && ls[j].is_prefix_of(s);
        let l = ls[j];
        reveal_strlit("Adding");
        reveal_strlit("Warning");
        lemma_trim_start_skips(l);
        let k = leading_spaces(l) as int;
        if k == l.len() {
            assert(trim_start_spec(l) =~= Seq::<char>::empty());
            assert(trim_spec(l).len() == 0);
        }
        assert forall|m: int| 0 <= m < k implies is_space_spec(#[trigger] l[m]) by {
            lemma_prefix_spaces(l, m);
        }
        lemma_trim_first(l, k);
        assert(trim_spec(l)[0] == "Adding"@[0]);
        assert(l[k] == 'A');
        assert forall|m: int| 0 <= m <= k implies #[trigger] s[m] == l[m] by {
            assert(s.subrange(0, l.len() as int)[m] == s[m]);
        }
        lemma_trim_end_keeps(s, k);
        assert forall|m: int| 0 <= m <= k implies #[trigger] t[m] == l[m] by {
            assert(t[m] == s.take(t.len() as int)[m]);
        }
        lemma_trim_first(t, k);
        assert(no_newline(t)) by {
            assert forall|c: int| 0 <= c < t.len() implies t[c] != '\n' by {
                assert(t[c] == s.take(t.len() as int)[c]);
            }
        }
        lemma_single_line(t);
        assert(seq![t].drop_last() =~= Seq::<Seq<char>>::empty());
        assert(trim_spec(t)[0] == 'A');
        assert("Warning"@[0] == 'W');
        if is_warning_line(t) {
            assert(trim_spec(t).subrange(0, "Warning"@.len() as int)[0] == trim_spec(t)[0]);
        }
        assert(!is_warning_line(t));
        assert(seq![t].last() == t);
        assert(warnings_block(seq![t]) == warnings_block(Seq::<Seq<char>>::empty()));
        assert(warnings_block(Seq::<Seq<char>>::empty()) == Seq::<char>::empty());
    }
}

proof fn lemma_prefix_spaces(s: Seq<char>, m: int)
    requires
        0 <= m < leading_spaces(s),
    ensures
        is_space_spec(s[m]),
    decreases m,
{
    lemma_trim_start_skips(s);
    assert(s.len() > 0 && is_space_spec(s[0]));
    if m > 0 {
        lemma_prefix_spaces(s.drop_first(), m - 1);
        assert(s[m] == s.drop_first()[m - 1]);
    }
}

} // verus!
