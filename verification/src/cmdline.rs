//! Turning a single command line into a spawn request.
//!
//! The convenience form of process creation takes one byte string and splits
//! it on ASCII whitespace — no shell quoting or escaping, so an argument
//! cannot contain a space through this form. The first token names the
//! program, the remaining tokens are its arguments, and a command line with
//! no tokens at all is rejected.
use crate::lifecycle::ProcessError;
use vstd::prelude::*;
use vstd::slice::{slice_index_get, slice_subrange, slice_to_vec};

verus! {

/// The ASCII whitespace bytes: space, tab, line feed, form feed, carriage
/// return.
pub open spec fn is_ascii_whitespace(b: u8) -> bool {
    b == 32 || b == 9 || b == 10 || b == 12 || b == 13
}

/// Length of the maximal whitespace-free prefix of `s`.
pub open spec fn word_len(s: Seq<u8>) -> int
    decreases s.len(),
{
    if s.len() == 0 || is_ascii_whitespace(s[0]) {
        0
    } else {
        1 + word_len(s.skip(1))
    }
}

/// The whitespace-separated tokens of `s`, in order: leading whitespace is
/// dropped, and otherwise the maximal whitespace-free prefix is the first
/// token.
pub open spec fn tokens_of(s: Seq<u8>) -> Seq<Seq<u8>>
    decreases s.len(),
    via tokens_of_decreases
{
    if s.len() == 0 {
        Seq::empty()
    } else if is_ascii_whitespace(s[0]) {
        tokens_of(s.skip(1))
    } else {
        seq![s.take(word_len(s))] + tokens_of(s.skip(word_len(s)))
    }
}

#[via_fn]
proof fn tokens_of_decreases(s: Seq<u8>) {
    lemma_word_len_bounds(s);
}

/// The maximal whitespace-free prefix never overruns `s`, and is non-trivial
/// exactly when `s` starts with a non-whitespace byte.
pub proof fn lemma_word_len_bounds(s: Seq<u8>)
    ensures
        0 <= word_len(s) <= s.len(),
        s.len() > 0 && !is_ascii_whitespace(s[0]) ==> word_len(s) >= 1,
    decreases s.len(),
{
    if s.len() > 0 && !is_ascii_whitespace(s[0]) {
        lemma_word_len_bounds(s.skip(1));
    }
}

/// The maximal whitespace-free prefix ends exactly at the first whitespace
/// byte (or at the end of `s`, if there is none).
proof fn lemma_word_len_is(s: Seq<u8>, k: int)
    requires
        0 <= k <= s.len(),
        forall|j: int| 0 <= j < k ==> !is_ascii_whitespace(s[j]),
        k == s.len() || is_ascii_whitespace(s[k]),
    ensures
        word_len(s) == k,
    decreases k,
{
    if k > 0 {
        assert(!is_ascii_whitespace(s[0]));
        lemma_word_len_is(s.skip(1), k - 1);
    }
}

/// Every token is non-empty: splitting never produces an empty program name
/// or an empty argument.
pub proof fn lemma_tokens_nonempty(s: Seq<u8>)
    ensures
        forall|i: int| 0 <= i < tokens_of(s).len() ==> #[trigger] tokens_of(s)[i].len() > 0,
    decreases s.len(),
{
    if s.len() == 0 {
    } else if is_ascii_whitespace(s[0]) {
        lemma_tokens_nonempty(s.skip(1));
        assert forall|i: int| 0 <= i < tokens_of(s).len() implies #[trigger] tokens_of(
            s,
        )[i].len() > 0 by {
            assert(tokens_of(s)[i] == tokens_of(s.skip(1))[i]);
        }
    } else {
        lemma_word_len_bounds(s);
        lemma_tokens_nonempty(s.skip(word_len(s)));
        assert forall|i: int| 0 <= i < tokens_of(s).len() implies #[trigger] tokens_of(
            s,
        )[i].len() > 0 by {
            if i == 0 {
                assert(tokens_of(s)[0] == s.take(word_len(s)));
            } else {
                assert(tokens_of(s)[i] == tokens_of(s.skip(word_len(s)))[i - 1]);
            }
        }
    }
}

/// No token contains a whitespace byte: the separators themselves never
/// appear in what splitting produces.
pub proof fn lemma_tokens_no_whitespace(s: Seq<u8>)
    ensures
        forall|i: int, j: int|
            0 <= i < tokens_of(s).len() && 0 <= j < tokens_of(s)[i].len()
                ==> !is_ascii_whitespace(#[trigger] tokens_of(s)[i][j]),
    decreases s.len(),
{
    if s.len() == 0 {
    } else if is_ascii_whitespace(s[0]) {
        lemma_tokens_no_whitespace(s.skip(1));
        assert forall|i: int, j: int|
            0 <= i < tokens_of(s).len() && 0 <= j < tokens_of(s)[i].len() implies !is_ascii_whitespace(
            #[trigger] tokens_of(s)[i][j],
        ) by {
            assert(tokens_of(s)[i][j] == tokens_of(s.skip(1))[i][j]);
        }
    } else {
        lemma_word_len_bounds(s);
        lemma_word_in_word_len(s, word_len(s));
        lemma_tokens_no_whitespace(s.skip(word_len(s)));
        assert forall|i: int, j: int|
            0 <= i < tokens_of(s).len() && 0 <= j < tokens_of(s)[i].len() implies !is_ascii_whitespace(
            #[trigger] tokens_of(s)[i][j],
        ) by {
            if i == 0 {
                assert(tokens_of(s)[0] == s.take(word_len(s)));
            } else {
                assert(tokens_of(s)[i][j] == tokens_of(s.skip(word_len(s)))[i - 1][j]);
            }
        }
    }
}

/// Within the maximal whitespace-free prefix there is, indeed, no whitespace.
proof fn lemma_word_in_word_len(s: Seq<u8>, k: int)
    requires
        0 <= k <= word_len(s),
        word_len(s) <= s.len(),
    ensures
        forall|j: int| 0 <= j < k ==> !is_ascii_whitespace(s[j]),
    decreases k,
{
    if k > 0 {
        lemma_word_len_bounds(s.skip(1));
        lemma_word_in_word_len(s.skip(1), k - 1);
        assert forall|j: int| 0 <= j < k implies !is_ascii_whitespace(s[j]) by {
            if j > 0 {
                assert(s[j] == s.skip(1)[j - 1]);
            }
        }
    }
}

/// Whether `b` is one of the ASCII whitespace bytes that separate tokens.
pub fn is_token_separator(b: u8) -> (r: bool)
    ensures
        r == is_ascii_whitespace(b),
{
    b == 32 || b == 9 || b == 10 || b == 12 || b == 13
}

/// Splits `cmd` into its whitespace-separated tokens, in order.
pub fn tokenize(cmd: &[u8]) -> (tokens: Vec<Vec<u8>>)
    ensures
        tokens.deep_view() == tokens_of(cmd@),
{
    let n: usize = cmd.len();
    let mut tokens: Vec<Vec<u8>> = Vec::new();
    let mut i: usize = 0;
    proof {
        assert(cmd@.skip(0) =~= cmd@);
        assert(tokens.deep_view() =~~= Seq::<Seq<u8>>::empty());
        assert(tokens.deep_view() + tokens_of(cmd@.skip(0)) =~~= tokens_of(cmd@));
    }
    while i < n
        invariant
            i <= n,
            n == cmd@.len(),
            tokens.deep_view() + tokens_of(cmd@.skip(i as int)) == tokens_of(cmd@),
        decreases n - i,
    {
        let b = *slice_index_get(cmd, i);
        if is_token_separator(b) {
            proof {
                assert(cmd@.skip(i as int).skip(1) =~= cmd@.skip(i as int + 1));
            }
            i = i + 1;
        } else {
            let start = i;
            i = i + 1;
            while i < n && !is_token_separator(*slice_index_get(cmd, i))
                invariant
                    start < i <= n,
                    n == cmd@.len(),
                    forall|j: int| start <= j < i ==> !is_ascii_whitespace(cmd@[j]),
                decreases n - i,
            {
                i = i + 1;
            }
            let ghost pre = tokens.deep_view();
            let ghost t = cmd@.skip(start as int);
            proof {
                lemma_word_len_is(t, i - start);
                assert(t.take(i - start) =~= cmd@.subrange(start as int, i as int));
                assert(t.skip(i - start) =~= cmd@.skip(i as int));
            }
            let word = slice_to_vec(slice_subrange(cmd, start, i));
            tokens.push(word);
            proof {
                assert(tokens.deep_view() =~~= pre.push(word@));
                assert(pre.push(word@) + tokens_of(cmd@.skip(i as int)) =~~= pre + tokens_of(
                    cmd@.skip(start as int),
                ));
            }
        }
    }
    proof {
        assert(cmd@.skip(n as int) =~= Seq::<u8>::empty());
        assert(tokens.deep_view() + tokens_of(Seq::<u8>::empty()) =~~= tokens.deep_view());
    }
    tokens
}

/// A validated request to spawn a program with an argument list, ready to be
/// handed to the OS.
#[derive(Debug)]
pub struct SpawnRequest {
    pub program: Vec<u8>,
    pub args: Vec<Vec<u8>>,
}

impl SpawnRequest {
    /// Validates the list form of process creation: the program name must be
    /// non-empty; the arguments may be anything, including none.
    pub fn new(program: Vec<u8>, args: Vec<Vec<u8>>) -> (r: Result<SpawnRequest, ProcessError>)
        ensures
            program@.len() == 0 ==> r == Err::<SpawnRequest, _>(ProcessError::InvalidState),
            program@.len() > 0 ==> (r matches Ok(req) && req.program == program && req.args
                == args),
    {
        if program.len() == 0 {
            Err(ProcessError::InvalidState)
        } else {
            Ok(SpawnRequest { program, args })
        }
    }
}

/// Validates the single-string form of process creation: the command line is
/// split on ASCII whitespace; a command line with no tokens (empty, or all
/// whitespace) is rejected, and otherwise the first token names the program
/// and the remaining tokens are its arguments.
pub fn parse_command(cmd: &[u8]) -> (r: Result<SpawnRequest, ProcessError>)
    ensures
        tokens_of(cmd@).len() == 0 ==> r == Err::<SpawnRequest, _>(ProcessError::InvalidState),
        tokens_of(cmd@).len() > 0 ==> (r matches Ok(req) && req.program@ == tokens_of(cmd@)[0]
            && req.args.deep_view() == tokens_of(cmd@).skip(1)),
{
    let mut tokens = tokenize(cmd);
    if tokens.len() == 0 {
        Err(ProcessError::InvalidState)
    } else {
        let ghost pre = tokens.deep_view();
        let program = tokens.remove(0);
        proof {
            assert(tokens.deep_view() =~~= pre.skip(1));
        }
        Ok(SpawnRequest { program, args: tokens })
    }
}

} // verus!
