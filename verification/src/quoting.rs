//! Text between single quotes, as PowerShell writes and reads it.
//!
//! PowerShell reads a single-quoted text letter for letter up to the first
//! quote mark that no quote mark follows; two quote marks in a row stand for
//! one. Besides the apostrophe it takes four typographic marks for quote
//! marks. A text is therefore written between quotes with each of its quote
//! marks doubled, and then reads back as itself.

use vstd::prelude::*;
use vstd::string::*;

verus! {

/// Whether PowerShell takes `c` for a single quote: the apostrophe, the left
/// and right single quotation marks, the low one and the reversed one.
pub open spec fn is_quote_mark(c: char) -> bool {
    c == '\'' || c == '\u{2018}' || c == '\u{2019}' || c == '\u{201a}' || c == '\u{201b}'
}

/// One character as it is written between quotes: a quote mark twice, any
/// other character once.
pub open spec fn quoted_char(c: char) -> Seq<char> {
    if is_quote_mark(c) {
        seq![c, c]
    } else {
        seq![c]
    }
}

/// A text as it is written between quotes: each character in turn, the quote
/// marks doubled.
pub open spec fn quoted(text: Seq<char>) -> Seq<char>
    decreases text.len(),
{
    if text.len() == 0 {
        Seq::empty()
    } else {
        quoted_char(text[0]) + quoted(text.drop_first())
    }
}

/// What stands between quotes, read from just behind the opening quote: the
/// text that the quotes hold, and what follows the closing quote. `None` when
/// the closing quote is missing.
pub open spec fn read_quoted(source: Seq<char>) -> Option<(Seq<char>, Seq<char>)>
    decreases source.len(),
{
    if source.len() == 0 {
        None
    } else if !is_quote_mark(source[0]) {
        match read_quoted(source.skip(1)) {
            Some((held, rest)) => Some((seq![source[0]] + held, rest)),
            None => None,
        }
    } else if source.len() >= 2 && is_quote_mark(source[1]) {
        match read_quoted(source.skip(2)) {
            Some((held, rest)) => Some((seq![source[1]] + held, rest)),
            None => None,
        }
    } else {
        Some((Seq::empty(), source.skip(1)))
    }
}

/// Writing a text that ends in `c` is writing the text before it and then
/// `c`.
pub proof fn lemma_quoted_push(text: Seq<char>, c: char)
    ensures
        quoted(text.push(c)) == quoted(text) + quoted_char(c),
    decreases text.len(),
{
    if text.len() == 0 {
        assert(text.push(c).drop_first() =~= Seq::<char>::empty());
        assert(quoted(Seq::<char>::empty()) =~= Seq::<char>::empty());
        assert(text =~= Seq::<char>::empty());
        assert(quoted(text.push(c)) =~= quoted_char(c));
        assert(quoted(text) + quoted_char(c) =~= quoted_char(c));
    } else {
        lemma_quoted_push(text.drop_first(), c);
        assert(text.push(c).drop_first() =~= text.drop_first().push(c));
        assert(quoted(text.push(c)) =~= quoted(text) + quoted_char(c));
    }
}

/// A text without a quote mark is written between quotes as it is.
pub proof fn lemma_quoted_plain(text: Seq<char>)
    requires
        forall|i: int| 0 <= i < text.len() ==> !is_quote_mark(#[trigger] text[i]),
    ensures
        quoted(text) == text,
    decreases text.len(),
{
    if text.len() > 0 {
        lemma_quoted_plain(text.drop_first());
        assert(quoted(text) =~= text);
    }
}

/// Every text reads back as itself: written between quotes, closed by an
/// apostrophe and followed by anything that does not start with a quote
/// mark, it is read as that text, and what followed it is left over.
pub proof fn lemma_quoted_reads_back(text: Seq<char>, rest: Seq<char>)
    requires
        rest.len() > 0 ==> !is_quote_mark(rest[0]),
    ensures
        read_quoted(quoted(text) + seq!['\''] + rest) == Some((text, rest)),
    decreases text.len(),
{
    let source = quoted(text) + seq!['\''] + rest;
    if text.len() == 0 {
        assert(source =~= seq!['\''] + rest);
        assert(source.skip(1) =~= rest);
    } else {
        let c = text[0];
        let tail = text.drop_first();
        lemma_quoted_reads_back(tail, rest);
        let after = quoted(tail) + seq!['\''] + rest;
        if is_quote_mark(c) {
            assert(source =~= seq![c, c] + after);
            assert(source.skip(2) =~= after);
        } else {
            assert(source =~= seq![c] + after);
            assert(source.skip(1) =~= after);
        }
        assert(seq![c] + tail =~= text);
    }
}

/// Tells whether PowerShell takes `c` for a single quote.
pub fn is_quote(c: char) -> (mark: bool)
    ensures
        mark == is_quote_mark(c),
{
    c == '\'' || c == '\u{2018}' || c == '\u{2019}' || c == '\u{201a}' || c == '\u{201b}'
}

/// Writes a text as it stands between quotes, the quote marks doubled.
pub fn quote(text: &str) -> (written: String)
    ensures
        written@ == quoted(text@),
{
    let length = text.unicode_len();
    let mut written = String::new();
    let mut i: usize = 0;
    while i < length
        invariant
            length == text@.len(),
            i <= length,
            written@ == quoted(text@.take(i as int)),
        decreases length - i,
    {
        let c = text.get_char(i);
        let piece = text.substring_char(i, i + 1);
        proof {
            lemma_quoted_push(text@.take(i as int), c);
            assert(text@.take(i as int + 1) =~= text@.take(i as int).push(c));
            assert(piece@ =~= seq![c]);
        }
        written.append(piece);
        if is_quote(c) {
            written.append(piece);
        }
        assert(written@ =~= quoted(text@.take(i as int)) + quoted_char(c));
        i += 1;
    }
    assert(text@.take(length as int) =~= text@);
    written
}

} // verus!
