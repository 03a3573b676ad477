//! Resolution of named parameters from an ordered list of command-line
//! tokens.
//!
//! A parameter is given as a flag token followed by its value. Each parameter
//! has several accepted spellings of its flag. When a parameter is given more
//! than once, under one spelling or several, the occurrence that stands last
//! in the token list decides. A flag that stands as the final token has no
//! value and is passed over.

use crate::text::str_eq;
use vstd::prelude::*;

verus! {

/// The token at `at` is one of the accepted spellings and a value follows it.
pub open spec fn flag_at(tokens: Seq<Seq<char>>, spellings: Seq<Seq<char>>, at: int) -> bool {
    &&& 0 <= at
    &&& at + 1 < tokens.len()
    &&& spellings.contains(tokens[at])
}

/// The greatest position below `end` at which a flag with a value stands, or
/// -1 when there is none.
pub open spec fn last_flag_before(
    tokens: Seq<Seq<char>>,
    spellings: Seq<Seq<char>>,
    end: int,
) -> int
    decreases end,
{
    if end <= 0 {
        -1
    } else if flag_at(tokens, spellings, end - 1) {
        end - 1
    } else {
        last_flag_before(tokens, spellings, end - 1)
    }
}

/// The value that `tokens` give to the parameter with the accepted
/// `spellings`: the token that follows the last flag with a value.
pub open spec fn resolved(tokens: Seq<Seq<char>>, spellings: Seq<Seq<char>>) -> Option<
    Seq<char>,
> {
    let at = last_flag_before(tokens, spellings, tokens.len() as int);
    if at < 0 {
        None
    } else {
        Some(tokens[at + 1])
    }
}

/// `last_flag_before` is a flag position below `end` with no flag position
/// between it and `end`, or -1 when no flag position lies below `end`.
pub proof fn lemma_last_flag_before(tokens: Seq<Seq<char>>, spellings: Seq<Seq<char>>, end: int)
    ensures
        -1 <= last_flag_before(tokens, spellings, end),
        last_flag_before(tokens, spellings, end) < end || end < 0,
        last_flag_before(tokens, spellings, end) >= 0 ==> flag_at(
            tokens,
            spellings,
            last_flag_before(tokens, spellings, end),
        ),
        forall|j: int|
            last_flag_before(tokens, spellings, end) < j < end ==> !flag_at(tokens, spellings, j),
    decreases end,
{
    if end > 0 && !flag_at(tokens, spellings, end - 1) {
        lemma_last_flag_before(tokens, spellings, end - 1);
    }
}

/// Last occurrence wins: when a flag with a value stands at `at` and none
/// stands after it, the parameter resolves to the token that follows `at`.
pub proof fn lemma_last_occurrence_wins(
    tokens: Seq<Seq<char>>,
    spellings: Seq<Seq<char>>,
    at: int,
)
    requires
        flag_at(tokens, spellings, at),
        forall|j: int| at < j ==> !flag_at(tokens, spellings, j),
    ensures
        resolved(tokens, spellings) == Some(tokens[at + 1]),
{
    lemma_last_flag_before(tokens, spellings, tokens.len() as int);
}

/// A parameter resolves to nothing exactly when no flag with a value stands
/// anywhere in the token list.
pub proof fn lemma_absent_iff_no_flag(tokens: Seq<Seq<char>>, spellings: Seq<Seq<char>>)
    ensures
        resolved(tokens, spellings) is None <==> forall|j: int| !flag_at(tokens, spellings, j),
{
    lemma_last_flag_before(tokens, spellings, tokens.len() as int);
}

/// A flag as the final token is absent: when no accepted spelling stands
/// before the final token, nothing is resolved, whatever the final token is.
pub proof fn lemma_trailing_flag_is_absent(tokens: Seq<Seq<char>>, spellings: Seq<Seq<char>>)
    requires
        forall|i: int| 0 <= i < tokens.len() - 1 ==> !spellings.contains(tokens[i]),
    ensures
        resolved(tokens, spellings) is None,
{
    lemma_absent_iff_no_flag(tokens, spellings);
}

/// Whether `token` is one of the accepted `flags`.
pub fn is_spelling(token: &str, flags: &[&str]) -> (hit: bool)
    ensures
        hit == flags.deep_view().contains(token@),
{
    let mut j: usize = 0;
    while j < flags.len()
        invariant
            j <= flags.len(),
            forall|k: int| 0 <= k < j ==> flags.deep_view()[k] != token@,
        decreases flags.len() - j,
    {
        if str_eq(token, flags[j]) {
            assert(flags.deep_view()[j as int] == token@);
            return true;
        }
        j = j + 1;
    }
    false
}

/// The value of the parameter whose flag is spelled as one of `flags`, taken
/// from the token list `cmds`.
pub fn find_parameter(cmds: &[String], flags: &[&str]) -> (parameter: Option<String>)
    ensures
        parameter.deep_view() == resolved(cmds.deep_view(), flags.deep_view()),
{
    let mut parameter: Option<String> = None;
    let mut i: usize = 0;
    while i < cmds.len()
        invariant
            i <= cmds.len(),
            parameter.deep_view() == (if last_flag_before(
                cmds.deep_view(),
                flags.deep_view(),
                i as int,
            ) < 0 {
                None
            } else {
                Some(
                    cmds.deep_view()[last_flag_before(
                        cmds.deep_view(),
                        flags.deep_view(),
                        i as int,
                    ) + 1],
                )
            }),
        decreases cmds.len() - i,
    {
        if i < cmds.len() - 1 && is_spelling(cmds[i].as_str(), flags) {
            parameter = Some(cmds[i + 1].clone());
        }
        i = i + 1;
    }
    parameter
}

} // verus!
