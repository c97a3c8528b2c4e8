//! The command line: one string built from a list of argument tokens.

use vstd::prelude::*;
use crate::text::white_space;

verus! {

/// Whether `c` gets a backslash in front of it.
pub open spec fn needs_backslash(c: char) -> bool {
    c == '\\' || c == '"'
}

/// What one character of a token turns into.
pub open spec fn escaped_char(c: char) -> Seq<char> {
    if needs_backslash(c) {
        seq!['\\', c]
    } else {
        seq![c]
    }
}

/// A token with every backslash and every double quote preceded by a backslash.
pub open spec fn escaped(token: Seq<char>) -> Seq<char>
    decreases token.len(),
{
    if token.len() == 0 {
        Seq::empty()
    } else {
        escaped(token.drop_last()) + escaped_char(token.last())
    }
}

/// Whether some character of the token is white space.
pub open spec fn has_white_space(token: Seq<char>) -> bool {
    exists|i: int| 0 <= i < token.len() && white_space(#[trigger] token[i])
}

/// `piece` between two double quotes where `quotes` is set, else `piece` itself.
pub open spec fn enclosed(piece: Seq<char>, quotes: bool) -> Seq<char> {
    if quotes {
        seq!['"'] + piece + seq!['"']
    } else {
        piece
    }
}

/// The form in which one token stands in the command line.
pub open spec fn quoted(token: Seq<char>) -> Seq<char> {
    enclosed(escaped(token), has_white_space(token))
}

/// The pieces one after another, with a single space between neighbours.
pub open spec fn joined(pieces: Seq<Seq<char>>) -> Seq<char>
    decreases pieces.len(),
{
    if pieces.len() == 0 {
        Seq::empty()
    } else if pieces.len() == 1 {
        pieces[0]
    } else {
        joined(pieces.drop_last()) + seq![' '] + pieces.last()
    }
}

/// The command line for a list of tokens: each token quoted, the results joined
/// by single spaces.
pub open spec fn command_line(args: Seq<Seq<char>>) -> Seq<char> {
    joined(args.map_values(|token: Seq<char>| quoted(token)))
}

/// Whether no character of the token gets a backslash.
pub open spec fn has_no_escapes(token: Seq<char>) -> bool {
    forall|i: int| 0 <= i < token.len() ==> !needs_backslash(#[trigger] token[i])
}

/// Escaping goes character by character: the escaped form of two tokens put
/// together is their escaped forms put together.
pub proof fn lemma_escaped_concat(front: Seq<char>, back: Seq<char>)
    ensures
        escaped(front + back) == escaped(front) + escaped(back),
    decreases back.len(),
{
    if back.len() == 0 {
        assert(front + back == front);
    } else {
        lemma_escaped_concat(front, back.drop_last());
        assert((front + back).drop_last() == front + back.drop_last());
        assert((front + back).last() == back.last());
    }
}

/// A token without backslash and double quote is its own escaped form.
pub proof fn lemma_escaped_without_escapes(token: Seq<char>)
    requires
        has_no_escapes(token),
    ensures
        escaped(token) == token,
    decreases token.len(),
{
    if token.len() > 0 {
        lemma_escaped_without_escapes(token.drop_last());
        assert(token.drop_last().push(token.last()) == token);
    }
}

/// A token with no white space, no double quote and no backslash stands in the
/// command line unchanged.
pub proof fn lemma_plain_token_unchanged(token: Seq<char>)
    requires
        !has_white_space(token),
        has_no_escapes(token),
    ensures
        quoted(token) == token,
{
    lemma_escaped_without_escapes(token);
}

/// A token that holds white space stands between two double quotes; where it
/// holds no double quote and no backslash, nothing else is changed.
pub proof fn lemma_white_space_token_enclosed(token: Seq<char>)
    requires
        has_white_space(token),
    ensures
        quoted(token) == seq!['"'] + escaped(token) + seq!['"'],
        has_no_escapes(token) ==> quoted(token) == seq!['"'] + token + seq!['"'],
{
    if has_no_escapes(token) {
        lemma_escaped_without_escapes(token);
    }
}

/// A double quote inside a token without white space comes out with one
/// backslash in front of it, between the escaped forms of what stands before
/// and after it.
pub proof fn lemma_quote_gets_backslash(before: Seq<char>, after: Seq<char>)
    requires
        !has_white_space(before + seq!['"'] + after),
    ensures
        quoted(before + seq!['"'] + after) == escaped(before) + seq!['\\', '"'] + escaped(after),
{
    lemma_escaped_concat(before + seq!['"'], after);
    lemma_escaped_concat(before, seq!['"']);
    assert(seq!['"'].drop_last() == Seq::<char>::empty());
    assert(escaped(seq!['"']) == seq!['\\', '"']) by {
        assert(escaped(Seq::<char>::empty()) == Seq::<char>::empty());
        assert(Seq::<char>::empty() + seq!['\\', '"'] == seq!['\\', '"']);
    }
}

/// Appends `c` to `out`, with a backslash in front where `c` is a backslash or a
/// double quote.
pub fn push_escaped(out: &mut String, c: char)
    ensures
        final(out)@ == old(out)@ + escaped_char(c),
{
    if c == '\\' || c == '"' {
        out.push('\\');
    }
    out.push(c);
}

/// Puts `piece` between double quotes where `quotes` is set.
pub fn enclose(piece: String, quotes: bool) -> (out: String)
    ensures
        out@ == enclosed(piece@, quotes),
{
    if quotes {
        let mut out = String::new();
        out.push('"');
        out.append(piece.as_str());
        out.push('"');
        out
    } else {
        piece
    }
}

/// Quotes one token.
pub fn quote_arg(token: &str) -> (piece: String)
    ensures
        piece@ == quoted(token@),
{
    let mut need_quotes = false;
    let mut piece = String::new();
    for c in it: token.chars()
        invariant
            it.seq() == token@,
            piece@ == escaped(token@.take(it.index())),
            need_quotes == has_white_space(token@.take(it.index())),
    {
        proof {
            let seen = token@.take(it.index() + 1);
            assert(seen.drop_last() == token@.take(it.index()));
            assert(seen.last() == c);
            if has_white_space(seen.drop_last()) {
                let i = choose|i: int| 0 <= i < seen.len() - 1 && white_space(seen.drop_last()[i]);
                assert(white_space(seen[i]));
            }
        }
        if c.is_whitespace() {
            need_quotes = true;
        }
        push_escaped(&mut piece, c);
    }
    assert(token@.take(token@.len() as int) == token@);
    enclose(piece, need_quotes)
}

/// Joins the pieces by single spaces.
pub fn join_pieces(pieces: &[String]) -> (line: String)
    ensures
        line@ == joined(pieces.deep_view()),
{
    let mut line = String::new();
    for i in 0..pieces.len()
        invariant
            line@ == joined(pieces.deep_view().take(i as int)),
    {
        proof {
            let done = pieces.deep_view().take(i + 1);
            assert(done.drop_last() == pieces.deep_view().take(i as int));
            assert(done.last() == pieces[i as int]@);
        }
        if i > 0 {
            line.push(' ');
        }
        line.append(pieces[i].as_str());
    }
    assert(pieces.deep_view().take(pieces.len() as int) == pieces.deep_view());
    line
}

/// Builds the command line for `args`: the program's path and its arguments.
pub fn collect_arg_string(args: &[String]) -> (line: String)
    ensures
        line@ == command_line(args.deep_view()),
{
    let mut pieces: Vec<String> = Vec::new();
    for i in 0..args.len()
        invariant
            pieces.len() == i,
            forall|j: int| 0 <= j < i ==> (#[trigger] pieces[j])@ == quoted(args[j]@),
    {
        pieces.push(quote_arg(args[i].as_str()));
    }
    assert(pieces.deep_view() =~= args.deep_view().map_values(|token: Seq<char>| quoted(token)));
    join_pieces(pieces.as_slice())
}

} // verus!
