//! Model file names: cleaning a user-supplied name and deriving one from a URL.
use vstd::prelude::*;
use crate::text::{is_white_space, push_char, trim, trim_end, trim_start, trimmed};

verus! {

/// ASCII letters and digits, as `char::is_ascii_alphanumeric` accepts them.
pub open spec fn is_ascii_alphanumeric(c: char) -> bool {
    ('0' <= c && c <= '9') || ('A' <= c && c <= 'Z') || ('a' <= c && c <= 'z')
}

/// Characters that may stay in a model file name.
pub open spec fn is_filename_char(c: char) -> bool {
    is_ascii_alphanumeric(c) || c == '.' || c == '_' || c == '-' || c == '+'
}

/// Every character outside the allowed set replaced by `_`.
pub open spec fn replace_disallowed(s: Seq<char>) -> Seq<char> {
    s.map_values(|c: char| if is_filename_char(c) { c } else { '_' })
}

/// The name used when nothing is left of the given one.
pub open spec fn default_model_name() -> Seq<char> {
    seq!['m', 'o', 'd', 'e', 'l', '.', 'l', 'i', 't', 'e', 'r', 't', 'l', 'm']
}

/// The cleaned file name: the trimmed text with disallowed characters replaced,
/// or the default name when the trimmed text is empty.
pub open spec fn sanitized(name: Seq<char>) -> Seq<char> {
    if trimmed(name).len() == 0 {
        default_model_name()
    } else {
        replace_disallowed(trimmed(name))
    }
}

/// The text before the first occurrence of `sep`, or all of it when `sep` does not occur
/// (the first item of `str::split`).
pub open spec fn before_first(s: Seq<char>, sep: char) -> Seq<char>
    decreases s.len(),
{
    if s.len() == 0 {
        s
    } else if s[0] == sep {
        Seq::empty()
    } else {
        seq![s[0]] + before_first(s.drop_first(), sep)
    }
}

/// The text after the last occurrence of `sep`, or all of it when `sep` does not occur
/// (the first item of `str::rsplit`).
pub open spec fn after_last(s: Seq<char>, sep: char) -> Seq<char>
    decreases s.len(),
{
    if s.len() == 0 {
        s
    } else if s.last() == sep {
        Seq::empty()
    } else {
        after_last(s.drop_last(), sep).push(s.last())
    }
}

/// The file name a download URL points at: its path's last segment, with the query
/// and the fragment cut off, then cleaned.
pub open spec fn url_filename(url: Seq<char>) -> Seq<char> {
    sanitized(after_last(before_first(before_first(url, '?'), '#'), '/'))
}

fn is_filename_char_exec(c: char) -> (r: bool)
    ensures
        r == is_filename_char(c),
{
    ('0' <= c && c <= '9') || ('A' <= c && c <= 'Z') || ('a' <= c && c <= 'z') || c == '.' || c
        == '_' || c == '-' || c == '+'
}

fn default_model_name_exec() -> (r: String)
    ensures
        r@ == default_model_name(),
{
    let mut r = String::new();
    push_char(&mut r, 'm');
    push_char(&mut r, 'o');
    push_char(&mut r, 'd');
    push_char(&mut r, 'e');
    push_char(&mut r, 'l');
    push_char(&mut r, '.');
    push_char(&mut r, 'l');
    push_char(&mut r, 'i');
    push_char(&mut r, 't');
    push_char(&mut r, 'e');
    push_char(&mut r, 'r');
    push_char(&mut r, 't');
    push_char(&mut r, 'l');
    push_char(&mut r, 'm');
    assert(r@ =~= default_model_name());
    r
}

/// Cleans a file name: trims it, replaces every character other than ASCII letters,
/// digits, `.`, `_`, `-` and `+` by `_`, and falls back to `model.litertlm` when
/// nothing is left.
pub fn sanitize_filename(name: &str) -> (r: String)
    ensures
        r@ == sanitized(name@),
        r@.len() > 0,
        forall|i: int| 0 <= i < r@.len() ==> is_filename_char(#[trigger] r@[i]),
{
    let t = trim(name);
    let mut out = String::new();
    let ghost mut k: int = 0;
    for ch in it: t.chars()
        invariant
            it.seq() == t@,
            k == it.index(),
            out@ == replace_disallowed(t@.take(k)),
    {
        let ok = is_filename_char_exec(ch);
        push_char(&mut out, if ok { ch } else { '_' });
        proof {
            assert(ch == t@[k]);
            assert(replace_disallowed(t@.take(k + 1)) =~= replace_disallowed(t@.take(k)).push(
                if is_filename_char(ch) { ch } else { '_' },
            ));
            k = k + 1;
        }
    }
    proof {
        assert(t@.take(k) =~= t@);
    }
    if out.as_str().is_empty() {
        default_model_name_exec()
    } else {
        out
    }
}

/// Index of the first `sep` in the text, or its length.
fn first_index_of(s: &str, sep: char) -> (r: usize)
    ensures
        r <= s@.len(),
        s@.take(r as int) == before_first(s@, sep),
{
    let n = s.unicode_len();
    let mut i: usize = 0;
    while i < n && s.get_char(i) != sep
        invariant
            n == s@.len(),
            i <= n,
            forall|j: int| 0 <= j < i ==> s@[j] != sep,
        decreases n - i,
    {
        i = i + 1;
    }
    proof {
        lemma_before_first(s@, sep, i as int);
    }
    i
}

proof fn lemma_before_first(s: Seq<char>, sep: char, i: int)
    requires
        0 <= i <= s.len(),
        forall|j: int| 0 <= j < i ==> s[j] != sep,
        i < s.len() ==> s[i] == sep,
    ensures
        s.take(i) == before_first(s, sep),
    decreases s.len(),
{
    if s.len() == 0 {
        assert(s.take(i) =~= s);
    } else if s[0] == sep {
        assert(s.take(i) =~= Seq::<char>::empty());
    } else {
        lemma_before_first(s.drop_first(), sep, i - 1);
        assert(s.take(i) =~= seq![s[0]] + s.drop_first().take(i - 1));
    }
}

proof fn lemma_after_last(s: Seq<char>, sep: char, i: int)
    requires
        0 <= i <= s.len(),
        forall|j: int| i <= j < s.len() ==> s[j] != sep,
        i > 0 ==> s[i - 1] == sep,
    ensures
        s.skip(i) == after_last(s, sep),
    decreases s.len(),
{
    if s.len() == 0 {
        assert(s.skip(i) =~= s);
    } else if s.last() == sep {
        assert(s.skip(i) =~= Seq::<char>::empty());
    } else {
        lemma_after_last(s.drop_last(), sep, i);
        assert(s.skip(i) =~= s.drop_last().skip(i).push(s.last()));
    }
}

/// The text before the first `sep` (the first item of `str::split`).
fn split_first<'a>(s: &'a str, sep: char) -> (r: &'a str)
    ensures
        r@ == before_first(s@, sep),
{
    let i = first_index_of(s, sep);
    s.substring_char(0, i)
}

/// The text after the last `sep` (the first item of `str::rsplit`).
fn rsplit_first<'a>(s: &'a str, sep: char) -> (r: &'a str)
    ensures
        r@ == after_last(s@, sep),
{
    let n = s.unicode_len();
    let mut i: usize = n;
    while i > 0 && s.get_char(i - 1) != sep
        invariant
            n == s@.len(),
            i <= n,
            forall|j: int| i <= j < n ==> s@[j] != sep,
        decreases i,
    {
        i = i - 1;
    }
    proof {
        lemma_after_last(s@, sep, i as int);
        assert(s@.subrange(i as int, n as int) =~= s@.skip(i as int));
    }
    s.substring_char(i, n)
}

/// The file name a model URL points at: the last path segment, without query or
/// fragment, cleaned as `sanitize_filename` does.
pub fn filename_from_url(url: &str) -> (r: String)
    ensures
        r@ == url_filename(url@),
        r@.len() > 0,
        forall|i: int| 0 <= i < r@.len() ==> is_filename_char(#[trigger] r@[i]),
{
    let no_query = split_first(url, '?');
    let no_hash = split_first(no_query, '#');
    let last = rsplit_first(no_hash, '/');
    sanitize_filename(last)
}

/// Cleaning a name that is already clean leaves it unchanged: `sanitize_filename`
/// is idempotent, so a cleaned name can be cleaned again without harm.
pub proof fn lemma_sanitize_idempotent(name: Seq<char>)
    ensures
        sanitized(sanitized(name)) == sanitized(name),
{
    let r = sanitized(name);
    lemma_sanitized_chars(name);
    assert(!is_white_space(r[0]));
    assert(!is_white_space(r.last()));
    assert(trim_start(r) == r);
    assert(trim_end(r) == r);
    assert(replace_disallowed(r) =~= r);
}

/// A cleaned name is never empty and holds only allowed characters.
pub proof fn lemma_sanitized_chars(name: Seq<char>)
    ensures
        sanitized(name).len() > 0,
        forall|i: int| 0 <= i < sanitized(name).len() ==> is_filename_char(#[trigger] sanitized(name)[i]),
{
}

/// The name derived from a URL is a clean name: cleaning it again changes nothing,
/// and it holds no `/`, `?` or `#`.
pub proof fn lemma_url_filename_clean(url: Seq<char>)
    ensures
        sanitized(url_filename(url)) == url_filename(url),
        !url_filename(url).contains('/'),
        !url_filename(url).contains('?'),
        !url_filename(url).contains('#'),
{
    let inner = after_last(before_first(before_first(url, '?'), '#'), '/');
    lemma_sanitize_idempotent(inner);
    lemma_sanitized_chars(inner);
}

} // verus!
