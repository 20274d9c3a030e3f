//! Anchor slug generation: turning heading text into a stable, HTML- and
//! URL-safe in-page identifier.
//!
//! The transform lowercases the text, replaces spaces with underscores and
//! strips a fixed set of rejected characters. A transform that strips
//! everything falls back to the fixed sentinel identifier `sect1`, so a slug
//! is never empty.

use vstd::prelude::*;
use crate::strbuf::push_char;

verus! {

/// A character the slug generator strips from heading text: angle brackets,
/// quotes, and the punctuation that is unsafe in a URL fragment or an HTML
/// `id` attribute.
pub open spec fn is_rejected_char(c: char) -> bool {
    ||| c == '<'
    ||| c == '>'
    ||| c == '"'
    ||| c == '$'
    ||| c == '#'
    ||| c == '%'
    ||| c == '&'
    ||| c == '+'
    ||| c == ','
    ||| c == '/'
    ||| c == ':'
    ||| c == ';'
    ||| c == '='
    ||| c == '?'
    ||| c == '@'
    ||| c == '['
    ||| c == ']'
    ||| c == '^'
    ||| c == '`'
    ||| c == '{'
    ||| c == '|'
    ||| c == '}'
    ||| c == '~'
    ||| c == '\''
    ||| c == '('
    ||| c == ')'
    ||| c == '\\'
}

/// Runtime test for [`is_rejected_char`].
fn char_is_rejected(c: char) -> (b: bool)
    ensures
        b == is_rejected_char(c),
{
    c == '<' || c == '>' || c == '"' || c == '$' || c == '#' || c == '%' || c == '&' || c == '+'
        || c == ',' || c == '/' || c == ':' || c == ';' || c == '=' || c == '?' || c == '@'
        || c == '[' || c == ']' || c == '^' || c == '`' || c == '{' || c == '|' || c == '}'
        || c == '~' || c == '\'' || c == '(' || c == ')' || c == '\\'
}

/// The space-to-underscore replacement and rejected-character strip, applied
/// left to right over already-lowercased text.
pub open spec fn cleaned(s: Seq<char>) -> Seq<char>
    decreases s.len(),
{
    if s.len() == 0 {
        Seq::empty()
    } else {
        let c = if s.last() == ' ' {
            '_'
        } else {
            s.last()
        };
        if is_rejected_char(c) {
            cleaned(s.drop_last())
        } else {
            cleaned(s.drop_last()).push(c)
        }
    }
}

/// The slug of already-lowercased text: the cleaned text, or the sentinel
/// identifier when cleaning strips every character.
pub open spec fn slug_of(s: Seq<char>) -> Seq<char> {
    if cleaned(s).len() == 0 {
        "sect1"@
    } else {
        cleaned(s)
    }
}

/// An ASCII character that Unicode lowercasing leaves unchanged: any ASCII
/// character other than `'A'..='Z'`.
pub open spec fn is_ascii_non_uppercase(c: char) -> bool {
    (c as u32) < 128 && !(65 <= (c as u32) && (c as u32) <= 90)
}

/// What `str::to_lowercase` returns for a given character sequence.
pub uninterp spec fn lower_of(s: Seq<char>) -> Seq<char>;

/// Relies on `str::to_lowercase`: the result is the Unicode lowercase
/// equivalent of the input and depends on the input characters alone; an
/// ASCII character other than `'A'..='Z'` has no lowercase mapping and is
/// returned unchanged.
#[verifier::external_body]
fn lowercase(s: &str) -> (r: String)
    ensures
        r@ == lower_of(s@),
        (forall|i: int| 0 <= i < s@.len() ==> is_ascii_non_uppercase(#[trigger] s@[i])) ==> r@
            == s@,
{
    s.to_lowercase()
}

/// Converts heading text into an anchor slug: lowercase, spaces to
/// underscores, rejected characters stripped, with the sentinel `sect1`
/// replacing an empty result. Never returns an empty string, and leaves an
/// already-clean slug unchanged.
pub fn anchorize(content: &str) -> (r: String)
    ensures
        r@ == slug_of(lower_of(content@)),
        r@.len() > 0,
        (forall|i: int| 0 <= i < content@.len() ==> is_ascii_non_uppercase(
            #[trigger] content@[i],
        )) ==> r@ == slug_of(content@),
{
    let low = lowercase(content);
    let n = low.as_str().unicode_len();
    let mut out = String::new();
    let mut i: usize = 0;
    while i < n
        invariant
            n == low@.len(),
            i <= n,
            out@ == cleaned(low@.subrange(0, i as int)),
        decreases n - i,
    {
        let c = low.as_str().get_char(i);
        let replaced = if c == ' ' {
            '_'
        } else {
            c
        };
        if !char_is_rejected(replaced) {
            push_char(&mut out, replaced);
        }
        proof {
            let pre = low@.subrange(0, i as int);
            let cur = low@.subrange(0, i + 1);
            assert(cur.drop_last() =~= pre);
            assert(cur.last() == low@[i as int]);
        }
        i = i + 1;
    }
    proof {
        assert(low@.subrange(0, n as int) =~= low@);
    }
    if out.as_str().is_empty() {
        proof {
            reveal_strlit("sect1");
        }
        String::from_str("sect1")
    } else {
        out
    }
}

/// Cleaning is the identity on text with no spaces and no rejected
/// characters.
pub proof fn lemma_cleaned_identity(s: Seq<char>)
    requires
        forall|i: int| 0 <= i < s.len() ==> #[trigger] s[i] != ' ' && !is_rejected_char(s[i]),
    ensures
        cleaned(s) == s,
    decreases s.len(),
{
    if s.len() == 0 {
        assert(cleaned(s) =~= s);
    } else {
        lemma_cleaned_identity(s.drop_last());
        assert(cleaned(s) =~= s);
    }
}

/// Idempotence of slug generation: a nonempty slug that is already clean —
/// no spaces and no rejected characters — is its own slug. Together with the
/// lowercase-pass-through clause of [`anchorize`], an already-clean ASCII
/// lowercase slug comes back from `anchorize` unchanged.
pub proof fn lemma_slug_idempotent(s: Seq<char>)
    requires
        s.len() > 0,
        forall|i: int| 0 <= i < s.len() ==> #[trigger] s[i] != ' ' && !is_rejected_char(s[i]),
    ensures
        slug_of(s) == s,
{
    lemma_cleaned_identity(s);
}

} // verus!
