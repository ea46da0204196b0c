//! Text helpers: appending characters and the quote fix-up applied to
//! everything the worker prints.

use vstd::prelude::*;
use vstd::string::*;

verus! {

/// `String::push` of the standard library: the character is appended at the
/// end and nothing else changes. Trusted, not proved.
pub assume_specification[ String::push ](s: &mut String, ch: char)
    ensures
        final(s)@ == old(s)@.push(ch),
;

/// The single-quote character that the worker prints around its strings.
pub open spec fn single_quote() -> char {
    '\''
}

/// The double-quote character that replaces it.
pub open spec fn double_quote() -> char {
    '"'
}

/// One character after the fix-up.
pub open spec fn normalized_char(c: char) -> char {
    if c == single_quote() {
        double_quote()
    } else {
        c
    }
}

/// A text after the fix-up: every single quote has become a double quote,
/// every other character stays where it was.
pub open spec fn normalized(text: Seq<char>) -> Seq<char> {
    Seq::new(text.len(), |i: int| normalized_char(text[i]))
}

/// Replaces every single quote in `text` by a double quote.
pub fn normalize_quotes(text: &str) -> (out: String)
    ensures
        out@ == normalized(text@),
{
    broadcast use group_string_axioms;

    let mut out = String::new();
    for c in it: text.chars()
        invariant
            it.seq() == text@,
            out@ == normalized(text@.take(it.index() as int)),
    {
        if c == '\'' {
            out.push('"');
        } else {
            out.push(c);
        }
    }
    out
}

/// The fix-up touches nothing but single quotes: the text keeps its length,
/// a double quote stands wherever a single quote stood, every other
/// character stands where it stood, and no single quote is left.
pub proof fn lemma_normalized_replaces_quotes(text: Seq<char>)
    ensures
        normalized(text).len() == text.len(),
        forall|i: int|
            0 <= i < text.len() && text[i] == single_quote() ==> #[trigger] normalized(text)[i]
                == double_quote(),
        forall|i: int|
            0 <= i < text.len() && text[i] != single_quote() ==> #[trigger] normalized(text)[i]
                == text[i],
        forall|i: int| 0 <= i < text.len() ==> #[trigger] normalized(text)[i] != single_quote(),
{
}

/// A text without single quotes comes out of the fix-up as it went in.
pub proof fn lemma_normalized_keeps_quote_free(text: Seq<char>)
    requires
        forall|i: int| 0 <= i < text.len() ==> text[i] != single_quote(),
    ensures
        normalized(text) == text,
{
}

/// Fixing up twice is fixing up once.
pub proof fn lemma_normalized_twice(text: Seq<char>)
    ensures
        normalized(normalized(text)) == normalized(text),
{
    lemma_normalized_replaces_quotes(text);
    lemma_normalized_keeps_quote_free(normalized(text));
}

} // verus!
