//! Correction of known typos at the start of a command line.
use vstd::prelude::*;
use crate::text::{is_prefix, starts_with};

verus! {

/// The known typos, each with its correction, in the order they are tried.
pub open spec fn typo_table() -> Seq<(Seq<char>, Seq<char>)> {
    seq![
        ("gitp ush"@, "git push"@),
        ("git psuh"@, "git push"@),
        ("git puhs"@, "git push"@),
        ("git pus"@, "git push"@),
        ("gi tpush"@, "git push"@),
        ("gti push"@, "git push"@),
    ]
}

/// The result of trying the entries of `table` from index `i` on: the first
/// whose pattern starts `s` replaces that prefix; with none, `s` stays.
pub open spec fn correct_from(s: Seq<char>, table: Seq<(Seq<char>, Seq<char>)>, i: int) -> Seq<
    char,
>
    decreases table.len() - i,
{
    if i < 0 || i >= table.len() {
        s
    } else if is_prefix(table[i].0, s) {
        table[i].1 + s.skip(table[i].0.len() as int)
    } else {
        correct_from(s, table, i + 1)
    }
}

/// The command line `s` with at most one known typo corrected.
pub open spec fn corrected(s: Seq<char>) -> Seq<char> {
    correct_from(s, typo_table(), 0)
}

proof fn lemma_none_from(s: Seq<char>, table: Seq<(Seq<char>, Seq<char>)>, i: int)
    requires
        0 <= i,
        forall|j: int| i <= j < table.len() ==> !is_prefix(#[trigger] table[j].0, s),
    ensures
        correct_from(s, table, i) == s,
    decreases table.len() - i,
{
    if i < table.len() {
        lemma_none_from(s, table, i + 1);
    }
}

proof fn lemma_first_from(s: Seq<char>, table: Seq<(Seq<char>, Seq<char>)>, i: int, k: int)
    requires
        0 <= i <= k < table.len(),
        is_prefix(table[k].0, s),
        forall|j: int| i <= j < k ==> !is_prefix(#[trigger] table[j].0, s),
    ensures
        correct_from(s, table, i) == table[k].1 + s.skip(table[k].0.len() as int),
    decreases k - i,
{
    if i < k {
        lemma_first_from(s, table, i + 1, k);
    }
}

/// A command line that starts with none of the known typos is left as it is.
pub proof fn lemma_no_typo_unchanged(s: Seq<char>)
    requires
        forall|j: int| 0 <= j < typo_table().len() ==> !is_prefix(#[trigger] typo_table()[j].0, s),
    ensures
        corrected(s) == s,
{
    lemma_none_from(s, typo_table(), 0);
}

/// A command line made of a known typo followed by any text becomes that
/// typo's correction followed by the same text.
pub proof fn lemma_typo_replaced(k: int, suffix: Seq<char>)
    requires
        0 <= k < typo_table().len(),
    ensures
        corrected(typo_table()[k].0 + suffix) == typo_table()[k].1 + suffix,
{
    reveal_strlit("gitp ush");
    reveal_strlit("git psuh");
    reveal_strlit("git puhs");
    reveal_strlit("git pus");
    reveal_strlit("gi tpush");
    reveal_strlit("gti push");
    reveal_strlit("git push");
    let t = typo_table();
    let s = t[k].0 + suffix;
    assert(s.take(t[k].0.len() as int) =~= t[k].0);
    assert(s.skip(t[k].0.len() as int) =~= suffix);
    assert forall|j: int| 0 <= j < k implies !is_prefix(#[trigger] t[j].0, s) by {
        let d: int = if k == 4 {
            2
        } else if k == 5 {
            1
        } else if j == 0 {
            3
        } else if j == 1 {
            5
        } else {
            6
        };
        assert(s[d] == t[k].0[d]);
        assert(t[j].0[d] != t[k].0[d]);
        if t[j].0.len() <= s.len() {
            assert(s.take(t[j].0.len() as int)[d] != t[j].0[d]);
        }
    }
    lemma_first_from(s, t, 0, k);
}

/// Replaces the first known typo that starts `input` by its correction,
/// keeping the rest of `input` as it is; returns `input` unchanged when no
/// typo matches.
pub fn autocorrect_typo(input: &str) -> (r: String)
    ensures
        r@ == corrected(input@),
{
    let typos = vec![
        ("gitp ush", "git push"),
        ("git psuh", "git push"),
        ("git puhs", "git push"),
        ("git pus", "git push"),
        ("gi tpush", "git push"),
        ("gti push", "git push"),
    ];
    assert(typos@.map_values(|e: (&str, &str)| (e.0@, e.1@)) =~= typo_table());
    let mut i: usize = 0;
    while i < typos.len()
        invariant
            0 <= i <= typos@.len(),
            typos@.map_values(|e: (&str, &str)| (e.0@, e.1@)) == typo_table(),
            correct_from(input@, typo_table(), 0) == correct_from(input@, typo_table(), i as int),
        decreases typos@.len() - i,
    {
        let (typo, correction) = typos[i];
        assert((typo@, correction@) == typo_table()[i as int]);
        if starts_with(input, typo) {
            let rest = input.substring_char(typo.unicode_len(), input.unicode_len());
            assert(rest@ =~= input@.skip(typo@.len() as int));
            return String::from_str(correction).concat(rest);
        }
        i = i + 1;
    }
    String::from_str(input)
}

} // verus!
