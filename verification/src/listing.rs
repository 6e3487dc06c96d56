//! Text listings of a program: a line is a sequence of tokens, set apart by
//! spaces and commas.

use vstd::prelude::*;

verus! {

/// Whether `byte` sets tokens apart: a space or a comma.
pub open spec fn is_separator(byte: u8) -> bool {
    byte == 0x20 || byte == 0x2c
}

/// The number of bytes at the start of `line` before the first separator.
pub open spec fn token_length(line: Seq<u8>) -> nat
    decreases line.len(),
{
    if line.len() == 0 || is_separator(line[0]) {
        0
    } else {
        1 + token_length(line.skip(1))
    }
}

/// The tokens of `line`, in order: the longest runs of bytes that hold no
/// separator. No token is empty, however many separators stand together.
pub open spec fn tokens_of(line: Seq<u8>) -> Seq<Seq<u8>>
    decreases line.len(),
    via tokens_of_terminates
{
    if line.len() == 0 {
        Seq::empty()
    } else if is_separator(line[0]) {
        tokens_of(line.skip(1))
    } else {
        seq![line.take(token_length(line) as int)] + tokens_of(
            line.skip(token_length(line) as int),
        )
    }
}

#[via_fn]
proof fn tokens_of_terminates(line: Seq<u8>) {
    lemma_token_prefix(line);
}

/// A run of `n` bytes without a separator, which ends the line or stands
/// before a separator, is the first token.
proof fn lemma_token_length(line: Seq<u8>, n: nat)
    requires
        n <= line.len(),
        forall|k: int| 0 <= k < n ==> !is_separator(line[k]),
        n == line.len() || is_separator(line[n as int]),
    ensures
        token_length(line) == n,
    decreases n,
{
    if n > 0 {
        lemma_token_length(line.skip(1), (n - 1) as nat);
    }
}

/// A token is at least one byte long and holds no separator.
pub proof fn lemma_tokens_hold_no_separator(line: Seq<u8>, i: int)
    requires
        0 <= i < tokens_of(line).len(),
    ensures
        tokens_of(line)[i].len() > 0,
        forall|k: int| 0 <= k < tokens_of(line)[i].len() ==> !is_separator(tokens_of(line)[i][k]),
    decreases line.len(),
{
    if line.len() == 0 {
    } else if is_separator(line[0]) {
        lemma_tokens_hold_no_separator(line.skip(1), i);
    } else {
        let n = token_length(line);
        lemma_token_prefix(line);
        if i > 0 {
            lemma_tokens_hold_no_separator(line.skip(n as int), i - 1);
        }
    }
}

/// The first `token_length` bytes of a line hold no separator.
proof fn lemma_token_prefix(line: Seq<u8>)
    ensures
        token_length(line) <= line.len(),
        forall|k: int| 0 <= k < token_length(line) ==> !is_separator(line[k]),
        line.len() > 0 && !is_separator(line[0]) ==> token_length(line) > 0,
    decreases line.len(),
{
    if line.len() > 0 && !is_separator(line[0]) {
        lemma_token_prefix(line.skip(1));
        assert forall|k: int| 0 <= k < token_length(line) implies !is_separator(line[k]) by {
            if k > 0 {
                assert(line[k] == line.skip(1)[k - 1]);
            }
        }
    }
}

/// Tells a separator from the bytes of a token.
fn separates(byte: u8) -> (r: bool)
    ensures
        r == is_separator(byte),
{
    byte == 0x20 || byte == 0x2c
}

/// Splits a line into its tokens.
pub fn split_line(line: &[u8]) -> (tokens: Vec<Vec<u8>>)
    ensures
        tokens.deep_view() == tokens_of(line@),
{
    let mut tokens: Vec<Vec<u8>> = Vec::new();
    let mut i: usize = 0;
    assert(tokens.deep_view() =~= Seq::<Seq<u8>>::empty());
    assert(line@.skip(0) =~= line@);
    while i < line.len()
        invariant
            i <= line@.len(),
            tokens.deep_view() + tokens_of(line@.skip(i as int)) == tokens_of(line@),
        decreases line@.len() - i,
    {
        let ghost rest = line@.skip(i as int);
        if separates(line[i]) {
            assert(rest.skip(1) =~= line@.skip(i + 1));
            i += 1;
        } else {
            let start: usize = i;
            let mut token: Vec<u8> = Vec::new();
            while i < line.len() && !separates(line[i])
                invariant
                    start <= i <= line@.len(),
                    token@ == line@.subrange(start as int, i as int),
                    forall|k: int| start <= k < i ==> !is_separator(line@[k]),
                decreases line@.len() - i,
            {
                token.push(line[i]);
                i += 1;
                assert(token@ =~= line@.subrange(start as int, i as int));
            }
            proof {
                lemma_token_length(rest, (i - start) as nat);
                assert(rest.take(i - start) =~= token@);
                assert(rest.skip(i - start) =~= line@.skip(i as int));
            }
            let ghost before = tokens.deep_view();
            let ghost run = token@;
            tokens.push(token);
            assert(tokens.deep_view() =~~= before + seq![run]);
            assert(tokens.deep_view() + tokens_of(line@.skip(i as int)) =~= before + tokens_of(
                rest,
            ));
        }
    }
    assert(line@.skip(i as int) =~= Seq::<u8>::empty());
    assert(tokens.deep_view() + Seq::<Seq<u8>>::empty() =~= tokens.deep_view());
    tokens
}

} // verus!
