//! Extraction of the description that the process was started with.
//!
//! The description is the value of the flag `--description`, or of its short
//! form `-d`: the token that follows the first such flag that any token
//! follows. A flag at the very end of the arguments introduces nothing.

use vstd::prelude::*;
use crate::text::text_equals;

verus! {

/// Whether a token is the description flag, in its long or its short form.
pub open spec fn names_description(token: Seq<char>) -> bool {
    token == "--description"@ || token == "-d"@
}

/// Whether the token at `at` is a description flag that another token follows.
pub open spec fn introduces_value(tokens: Seq<Seq<char>>, at: int) -> bool {
    &&& 0 <= at
    &&& at + 1 < tokens.len()
    &&& names_description(tokens[at])
}

/// Whether `at` is the first place at which a description flag introduces a
/// value.
pub open spec fn is_first_introduction(tokens: Seq<Seq<char>>, at: int) -> bool {
    &&& introduces_value(tokens, at)
    &&& forall|earlier: int| 0 <= earlier < at ==> !introduces_value(tokens, earlier)
}

/// The description that the tokens carry: the token after the first
/// description flag that has one, and the empty text where there is none.
pub open spec fn description_of(tokens: Seq<Seq<char>>) -> Seq<char> {
    if exists|at: int| is_first_introduction(tokens, at) {
        tokens[(choose|at: int| is_first_introduction(tokens, at)) + 1]
    } else {
        Seq::empty()
    }
}

/// The description is the token after the first flag that introduces a value.
pub proof fn lemma_description_follows_first_flag(tokens: Seq<Seq<char>>, at: int)
    requires
        is_first_introduction(tokens, at),
    ensures
        description_of(tokens) == tokens[at + 1],
{
    let chosen = choose|at: int| is_first_introduction(tokens, at);
    assert(is_first_introduction(tokens, chosen));
    assert(chosen == at) by {
        if chosen < at {
            assert(!introduces_value(tokens, chosen));
        }
        if at < chosen {
            assert(!introduces_value(tokens, at));
        }
    }
}

/// Where no flag introduces a value, the description is empty.
pub proof fn lemma_description_empty_without_flag(tokens: Seq<Seq<char>>)
    requires
        forall|at: int| 0 <= at < tokens.len() ==> !introduces_value(tokens, at),
    ensures
        description_of(tokens) == Seq::<char>::empty(),
{
    assert forall|at: int| !is_first_introduction(tokens, at) by {
        if introduces_value(tokens, at) {
            assert(0 <= at < tokens.len());
        }
    }
}

/// Whether a token is the description flag, in its long or its short form.
pub fn is_description_flag(token: &str) -> (named: bool)
    ensures
        named == names_description(token@),
{
    text_equals(token, "--description") || text_equals(token, "-d")
}

/// Returns the description among the arguments that the process was started
/// with: the argument after the first `--description` or `-d` that has one.
/// Returns the empty text where no such flag is followed by an argument.
pub fn get_description_from_args(args: &[String]) -> (description: String)
    ensures
        description@ == description_of(args.deep_view()),
{
    let ghost tokens = args.deep_view();
    let mut at: usize = 0;
    while at < args.len()
        invariant
            tokens == args.deep_view(),
            tokens.len() == args@.len(),
            at <= args@.len(),
            forall|earlier: int| 0 <= earlier < at ==> !introduces_value(tokens, earlier),
        decreases args@.len() - at,
    {
        assert(tokens[at as int] == args@[at as int]@);
        if args.len() - at > 1 && is_description_flag(args[at].as_str()) {
            proof {
                assert(tokens[at + 1] == args@[at + 1]@);
                lemma_description_follows_first_flag(tokens, at as int);
            }
            return args[at + 1].clone();
        }
        at += 1;
    }
    proof {
        lemma_description_empty_without_flag(tokens);
    }
    String::new()
}

/// Extraction is repeatable: whatever two calls of
/// `get_description_from_args` return for argument lists of the same length
/// that agree token by token is the same text. So it is, in particular, for
/// two calls on the same arguments.
pub proof fn lemma_extraction_is_repeatable(
    first_args: &[String],
    second_args: &[String],
    first: String,
    second: String,
)
    requires
        first_args@.len() == second_args@.len(),
        forall|at: int| 0 <= at < first_args@.len() ==> first_args@[at]@ == second_args@[at]@,
        call_ensures(get_description_from_args, (first_args,), first),
        call_ensures(get_description_from_args, (second_args,), second),
    ensures
        first@ == second@,
{
    assert(first_args.deep_view() =~= second_args.deep_view());
}

} // verus!
