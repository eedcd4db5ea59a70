//! Laws of tokenizing: the token sequence of a text ends with its end
//! marker, and every token carries a line and a column counted from 1.

use vstd::prelude::*;
use crate::lexer::{
    lemma_scans_advance, lemma_token_advances, lex, next_token, scan_digits, scan_string,
    scan_word, skip_blanks, skip_comment, tokens_from, Cursor, Tok, TokenKind,
};

verus! {

/// Whether a cursor stands on a line and a column counted from 1.
pub open spec fn one_based(c: Cursor) -> bool {
    c.line >= 1 && c.column >= 1
}

/// Whether every token of a sequence carries a line and a column counted
/// from 1.
pub open spec fn placed_from_one(tokens: Seq<Tok>) -> bool {
    forall|i: int| 0 <= i < tokens.len() ==> (#[trigger] tokens[i]).line >= 1 && tokens[i].column >= 1
}

/// Scanning leaves a cursor whose line and column are counted from 1 as
/// such.
pub proof fn law_scans_stay_one_based(input: Seq<char>, c: Cursor)
    requires
        one_based(c),
    ensures
        one_based(skip_blanks(input, c)),
        one_based(skip_comment(input, c)),
        one_based(scan_string(input, c)),
        one_based(scan_digits(input, c)),
        one_based(scan_word(input, c)),
    decreases input.len() - c.position,
{
    if !c.at_end(input) {
        law_scans_stay_one_based(input, c.step());
        law_scans_stay_one_based(input, c.next_line().step());
    }
}

/// A token that is read carries a place counted from 1, and so does the
/// cursor after it.
pub proof fn law_token_is_one_based(input: Seq<char>, c: Cursor)
    requires
        one_based(c),
        0 <= c.position <= input.len(),
    ensures
        one_based(next_token(input, c).cursor),
        next_token(input, c).token matches Ok(token) ==> token.line >= 1 && token.column >= 1,
    decreases input.len() - c.position,
{
    let at = skip_blanks(input, c);
    law_scans_stay_one_based(input, c);
    lemma_scans_advance(input, c);
    if !at.at_end(input) {
        let after = at.step();
        law_scans_stay_one_based(input, after);
        lemma_scans_advance(input, after);
        if input[at.position] == '#' && after.peek(input) != '{' {
            law_token_is_one_based(input, skip_comment(input, after));
        }
    }
}

/// The tokens of the rest of a text, if it has no lexical error, end with
/// the end marker, and those that were read carry places counted from 1.
pub proof fn law_tokens_end_with_eof(input: Seq<char>, c: Cursor, acc: Seq<Tok>)
    requires
        one_based(c),
        0 <= c.position <= input.len(),
        placed_from_one(acc),
    ensures
        tokens_from(input, c, acc) matches Ok(tokens) ==> {
            &&& tokens.len() > acc.len()
            &&& tokens.last().kind == TokenKind::Eof
            &&& tokens.subrange(0, acc.len() as int) == acc
            &&& placed_from_one(tokens)
        },
    decreases input.len() - c.position,
{
    if c.at_end(input) {
        let tokens = acc.push(Tok { kind: TokenKind::Eof, line: c.line, column: c.column });
        assert(tokens.subrange(0, acc.len() as int) =~= acc);
    } else {
        let scan = next_token(input, c);
        lemma_token_advances(input, c);
        law_token_is_one_based(input, c);
        match scan.token {
            Err(_) => {},
            Ok(token) => {
                let more = acc.push(token);
                law_tokens_end_with_eof(input, scan.cursor, more);
                match tokens_from(input, scan.cursor, more) {
                    Ok(tokens) => {
                        assert(tokens.subrange(0, acc.len() as int) =~= tokens.subrange(
                            0,
                            more.len() as int,
                        ).subrange(0, acc.len() as int));
                        assert(more.subrange(0, acc.len() as int) =~= acc);
                    },
                    Err(_) => {},
                }
            },
        }
    }
}

/// The tokens of a text, if it has no lexical error, are at least one, end
/// with the end marker, and all carry a line and a column counted from 1.
pub proof fn law_lex_is_well_formed(input: Seq<char>)
    ensures
        lex(input) matches Ok(tokens) ==> {
            &&& tokens.len() >= 1
            &&& tokens.last().kind == TokenKind::Eof
            &&& placed_from_one(tokens)
        },
{
    law_tokens_end_with_eof(input, Cursor::start(), Seq::empty());
}

} // verus!
