//! String encoding for the script boundary.
//!
//! Diagram text is embedded into a page script as a single-quoted literal;
//! the renderer's reply comes back as a quoted, backslash-escaped value.
//! This module holds the escape/unescape/percent-encode calls behind trusted
//! wrappers and builds the script source and data URLs from them in verified
//! code.

use vstd::prelude::*;

verus! {

/// The characters `escape_string::escape` replaces with a backslash form:
/// the seven control characters it knows, the space, and the backslash.
pub open spec fn is_script_escaped(c: char) -> bool {
    ||| c == '\u{7}'
    ||| c == '\u{8}'
    ||| c == '\t'
    ||| c == '\n'
    ||| c == '\u{b}'
    ||| c == '\u{c}'
    ||| c == '\r'
    ||| c == ' '
    ||| c == '\\'
}

/// The letter that stands for an escaped character: `\t` becomes `t`, and
/// the space and the backslash stand for themselves.
pub open spec fn escape_code(c: char) -> char {
    if c == '\u{7}' {
        'a'
    } else if c == '\u{8}' {
        'b'
    } else if c == '\t' {
        't'
    } else if c == '\n' {
        'n'
    } else if c == '\u{b}' {
        'v'
    } else if c == '\u{c}' {
        'f'
    } else if c == '\r' {
        'r'
    } else {
        c
    }
}

/// What one character of the text becomes under the backslash escaping:
/// a backslash pair for the escaped set, the character itself otherwise.
pub open spec fn escaped_char(c: char) -> Seq<char> {
    if is_script_escaped(c) {
        seq!['\\', escape_code(c)]
    } else {
        seq![c]
    }
}

/// What `escape_string::escape` returns for a given text: each character of
/// the escaped set replaced by its backslash pair, every other character —
/// quotes included — passed through verbatim.
pub open spec fn escaped_of(s: Seq<char>) -> Seq<char>
    decreases s.len(),
{
    if s.len() == 0 {
        Seq::empty()
    } else {
        escaped_char(s[0]) + escaped_of(s.skip(1))
    }
}

/// Relies on `escape_string::escape`: backslash-escapes its nine special
/// characters byte by byte and passes every other byte through, which on
/// characters is exactly [`escaped_of`] (the special bytes are all ASCII, so
/// no byte of a multi-byte character is touched).
#[verifier::external_body]
fn backslash_escape(s: &str) -> (r: String)
    ensures
        r@ == escaped_of(s@),
{
    escape_string::escape(s).into_owned()
}

/// What `unescape::unescape` returns for a given text: the text with its
/// backslash escape sequences decoded, or nothing when a sequence is
/// malformed. A pure function of the characters alone.
pub uninterp spec fn unescaped_of(s: Seq<char>) -> Option<Seq<char>>;

/// Relies on `unescape::unescape`: decodes backslash escape sequences, and
/// returns `None` on a malformed sequence.
#[verifier::external_body]
fn backslash_unescape(s: &str) -> (r: Option<String>)
    ensures
        match r {
            Some(u) => unescaped_of(s@) == Some(u@),
            None => unescaped_of(s@) is None,
        },
{
    unescape::unescape(s)
}

/// What `urlencoding::encode` returns for a given text: the text with every
/// byte outside the unreserved set percent-encoded. A pure function of the
/// characters alone.
pub uninterp spec fn percent_encoded_of(s: Seq<char>) -> Seq<char>;

/// Relies on `urlencoding::encode`: percent-encodes every byte except
/// alphanumerics and `-`, `_`, `.`, `~`.
#[verifier::external_body]
fn percent_encode(s: &str) -> (r: String)
    ensures
        r@ == percent_encoded_of(s@),
{
    urlencoding::encode(s).into_owned()
}

/// One enclosing layer of double quotes removed, when present.
pub open spec fn strip_quotes_spec(s: Seq<char>) -> Seq<char> {
    if s.len() >= 2 && s[0] == '"' && s[s.len() - 1] == '"' {
        s.subrange(1, s.len() - 1)
    } else {
        s
    }
}

/// Removes a single layer of enclosing double quotes, if both ends carry one.
pub fn strip_quotes(s: &str) -> (r: &str)
    ensures
        r@ == strip_quotes_spec(s@),
{
    let n = s.unicode_len();
    if n >= 2 && s.get_char(0) == '"' && s.get_char(n - 1) == '"' {
        s.substring_char(1, n - 1)
    } else {
        s
    }
}

/// The markup carried by the renderer's raw reply: the reply with one quote
/// layer stripped and its escapes decoded; empty when decoding fails or the
/// renderer signalled failure with the `null` sentinel.
pub open spec fn decoded_markup(v: Seq<char>) -> Seq<char> {
    match unescaped_of(strip_quotes_spec(v)) {
        Some(u) => if u == "null"@ {
            Seq::empty()
        } else {
            u
        },
        None => Seq::empty(),
    }
}

/// Decodes the renderer's raw reply into the markup it carries; the empty
/// string stands for the renderer's own failure signal.
pub fn decode_markup(v: &str) -> (r: String)
    ensures
        r@ == decoded_markup(v@),
{
    let stripped = strip_quotes(v);
    match backslash_unescape(stripped) {
        Some(u) => {
            let sentinel = String::from_str("null");
            if u == sentinel {
                proof {
                    assert(decoded_markup(v@) =~= Seq::<char>::empty());
                }
                String::new()
            } else {
                u
            }
        },
        None => {
            proof {
                assert(decoded_markup(v@) =~= Seq::<char>::empty());
            }
            String::new()
        },
    }
}

/// The inline data URL that loads a page document without a network fetch.
pub open spec fn html_page_url(page: Seq<char>) -> Seq<char> {
    "data:text/html;charset=utf-8,"@ + page
}

/// Builds the inline data URL for a page document.
pub fn html_data_url(page: &str) -> (r: String)
    ensures
        r@ == html_page_url(page@),
{
    let r = String::from_str("data:text/html;charset=utf-8,").concat(page);
    proof {
        assert(r@ =~= html_page_url(page@));
    }
    r
}

/// What one character becomes under the quote neutralization: a quote gains
/// a backslash, everything else passes through.
pub open spec fn quote_escaped_char(c: char) -> Seq<char> {
    if c == '\'' || c == '"' {
        seq!['\\', c]
    } else {
        seq![c]
    }
}

/// The text with every single and double quote backslash-escaped. The
/// backslash escaping leaves quotes untouched, so this second layer is what
/// keeps a quote in the diagram text from ending the script literal early.
pub open spec fn quote_escaped_of(s: Seq<char>) -> Seq<char>
    decreases s.len(),
{
    if s.len() == 0 {
        Seq::empty()
    } else {
        quote_escaped_char(s[0]) + quote_escaped_of(s.skip(1))
    }
}

/// Quote escaping maps each character independently, so it distributes over
/// concatenation.
proof fn lemma_quote_escaped_concat(a: Seq<char>, b: Seq<char>)
    ensures
        quote_escaped_of(a + b) == quote_escaped_of(a) + quote_escaped_of(b),
    decreases a.len(),
{
    if a.len() == 0 {
        assert(a + b =~= b);
        assert(quote_escaped_of(a) + quote_escaped_of(b) =~= quote_escaped_of(b));
    } else {
        lemma_quote_escaped_concat(a.skip(1), b);
        assert((a + b).skip(1) =~= a.skip(1) + b);
        assert(quote_escaped_char(a[0]) + (quote_escaped_of(a.skip(1)) + quote_escaped_of(b))
            =~= (quote_escaped_char(a[0]) + quote_escaped_of(a.skip(1))) + quote_escaped_of(b));
    }
}

/// Quote escaping of a single character is that character's contribution.
proof fn lemma_quote_escaped_single(c: char)
    ensures
        quote_escaped_of(seq![c]) == quote_escaped_char(c),
{
    assert(seq![c].skip(1) =~= Seq::<char>::empty());
    assert(quote_escaped_of(Seq::<char>::empty()) == Seq::<char>::empty());
    assert(quote_escaped_of(seq![c]) == quote_escaped_char(c) + Seq::<char>::empty());
    assert(quote_escaped_char(c) + Seq::<char>::empty() =~= quote_escaped_char(c));
}

/// A backslash pair whose second character is no quote passes through the
/// quote escaping unchanged.
proof fn lemma_quote_escaped_pair(c: char)
    requires
        c != '\'',
        c != '"',
    ensures
        quote_escaped_of(seq!['\\', c]) == seq!['\\', c],
{
    let u = seq!['\\', c];
    assert(u.skip(1) =~= seq![c]);
    lemma_quote_escaped_single(c);
    assert(quote_escaped_of(u) =~= u);
}

/// Backslash-escapes every quote in the text, leaving the rest as it is.
pub fn escape_quotes(s: &str) -> (r: String)
    ensures
        r@ == quote_escaped_of(s@),
{
    let n = s.unicode_len();
    let mut out = String::new();
    let mut start: usize = 0;
    let mut i: usize = 0;
    while i < n
        invariant
            start <= i <= n,
            n == s@.len(),
            out@ + s@.subrange(start as int, i as int) == quote_escaped_of(s@.take(i as int)),
            forall|j: int| start <= j < i ==> s@[j] != '\'' && s@[j] != '"',
        decreases n - i,
    {
        let c = s.get_char(i);
        proof {
            assert(s@.take(i as int + 1) =~= s@.take(i as int) + seq![s@[i as int]]);
            lemma_quote_escaped_concat(s@.take(i as int), seq![s@[i as int]]);
            lemma_quote_escaped_single(s@[i as int]);
        }
        if c == '\'' || c == '"' {
            out.append(s.substring_char(start, i));
            if c == '\'' {
                out.append("\\'");
                proof {
                    reveal_strlit("\\'");
                }
            } else {
                out.append("\\\"");
                proof {
                    reveal_strlit("\\\"");
                }
            }
            proof {
                assert(out@ =~= quote_escaped_of(s@.take(i as int + 1)));
            }
            start = i + 1;
        }
        i = i + 1;
        proof {
            assert(out@ + s@.subrange(start as int, i as int) =~= quote_escaped_of(
                s@.take(i as int),
            ));
        }
    }
    out.append(s.substring_char(start, n));
    proof {
        assert(s@.take(n as int) =~= s@);
    }
    out
}

/// What the diagram text becomes inside the script literal: the backslash
/// escaping first, then the quote neutralization on its output.
pub open spec fn embedded_text(text: Seq<char>) -> Seq<char> {
    quote_escaped_of(escaped_of(text))
}

/// The script source that calls the page's render function on the diagram
/// text, passed as a single-quoted string literal whose control characters,
/// backslashes and quotes are all backslash-escaped.
pub open spec fn render_call(text: Seq<char>) -> Seq<char> {
    "render('"@ + embedded_text(text) + "')"@
}

/// Builds the render-call script for a diagram text.
pub fn render_script(text: &str) -> (r: String)
    ensures
        r@ == render_call(text@),
{
    let escaped = backslash_escape(text);
    let quoted = escape_quotes(escaped.as_str());
    let r = String::from_str("render('").concat(quoted.as_str()).concat("')");
    proof {
        assert(r@ =~= render_call(text@));
    }
    r
}

/// What one character of the text contributes to the embedded literal: its
/// escape pair where the backslash escaping acts, a backslash-guarded quote
/// where the quote layer acts, and the character itself otherwise.
pub open spec fn embedded_char(c: char) -> Seq<char> {
    if is_script_escaped(c) {
        seq!['\\', escape_code(c)]
    } else if c == '\'' || c == '"' {
        seq!['\\', c]
    } else {
        seq![c]
    }
}

/// The two escaping layers act on each character independently: the
/// embedded literal is the concatenation of each character's contribution.
pub proof fn lemma_embedding_per_char(s: Seq<char>)
    ensures
        embedded_text(s) == (if s.len() == 0 {
            Seq::<char>::empty()
        } else {
            embedded_char(s[0]) + embedded_text(s.skip(1))
        }),
    decreases s.len(),
{
    if s.len() == 0 {
        assert(embedded_text(s) =~= Seq::<char>::empty());
    } else {
        lemma_quote_escaped_concat(escaped_char(s[0]), escaped_of(s.skip(1)));
        if is_script_escaped(s[0]) {
            assert(escape_code(s[0]) != '\'' && escape_code(s[0]) != '"');
            lemma_quote_escaped_pair(escape_code(s[0]));
        } else {
            lemma_quote_escaped_single(s[0]);
            assert(quote_escaped_char(s[0]) == embedded_char(s[0]));
        }
    }
}

/// How a script engine reads one backslash escape inside a string literal:
/// the named control escapes map back to their control characters, and any
/// other escaped character stands for itself.
pub open spec fn literal_code(c: char) -> char {
    if c == 'b' {
        '\u{8}'
    } else if c == 'f' {
        '\u{c}'
    } else if c == 'n' {
        '\n'
    } else if c == 'r' {
        '\r'
    } else if c == 't' {
        '\t'
    } else if c == 'v' {
        '\u{b}'
    } else {
        c
    }
}

/// How a script engine reads the body of a string literal: a backslash
/// consumes the next character through [`literal_code`], everything else
/// stands for itself.
pub open spec fn literal_decode(s: Seq<char>) -> Seq<char>
    decreases s.len(),
{
    if s.len() == 0 {
        Seq::empty()
    } else if s[0] == '\\' && s.len() >= 2 {
        seq![literal_code(s[1])] + literal_decode(s.skip(2))
    } else {
        seq![s[0]] + literal_decode(s.skip(1))
    }
}

/// One embedded character decodes back to itself in front of any rest.
/// The one exception in the whole character set is `'\u{7}'`: the escaping
/// writes it as `\a`, which a script engine reads as a plain `a`.
proof fn lemma_embedded_char_decodes(c: char, rest: Seq<char>)
    requires
        c != '\u{7}',
    ensures
        literal_decode(embedded_char(c) + rest) == seq![c] + literal_decode(rest),
{
    let u = embedded_char(c) + rest;
    if is_script_escaped(c) {
        assert(u[0] == '\\');
        assert(u[1] == escape_code(c));
        assert(literal_code(escape_code(c)) == c);
        assert(u.skip(2) =~= rest);
    } else if c == '\'' || c == '"' {
        assert(u[0] == '\\');
        assert(u[1] == c);
        assert(literal_code(c) == c);
        assert(u.skip(2) =~= rest);
    } else {
        assert(u[0] == c);
        assert(c != '\\');
        assert(u.skip(1) =~= rest);
    }
}

/// Law: the embedding round-trips. For every diagram text over the accepted
/// character set — everything but `'\u{7}'`, whose escape form a script
/// engine reads differently — decoding the embedded literal as a script
/// engine does yields exactly the original text: quotes, newlines, control
/// characters and all survive the crossing into script source.
pub proof fn lemma_embedding_round_trip(s: Seq<char>)
    requires
        forall|i: int| 0 <= i < s.len() ==> s[i] != '\u{7}',
    ensures
        literal_decode(embedded_text(s)) == s,
    decreases s.len(),
{
    lemma_embedding_per_char(s);
    if s.len() == 0 {
    } else {
        lemma_embedded_char_decodes(s[0], embedded_text(s.skip(1)));
        assert(forall|i: int| 0 <= i < s.skip(1).len() ==> s.skip(1)[i] != '\u{7}');
        lemma_embedding_round_trip(s.skip(1));
        assert(seq![s[0]] + s.skip(1) =~= s);
    }
}

/// The inline data URL that re-loads validated vector markup for capture,
/// with the markup percent-encoded and the media type set to the vector
/// format.
pub open spec fn svg_page_url(markup: Seq<char>) -> Seq<char> {
    "data:image/svg+xml,"@ + percent_encoded_of(markup)
}

/// Builds the inline data URL for validated vector markup.
pub fn svg_data_url(markup: &str) -> (r: String)
    ensures
        r@ == svg_page_url(markup@),
{
    let encoded = percent_encode(markup);
    let r = String::from_str("data:image/svg+xml,").concat(encoded.as_str());
    proof {
        assert(r@ =~= svg_page_url(markup@));
    }
    r
}

} // verus!
