//! Verified string utilities: URL and filename sanitization, substring
//! search, and filename generation.

use vstd::prelude::*;
use vstd::string::*;

verus! {

/// Relies on `String::push`: appends exactly one character.
#[verifier::external_body]
fn push_char(s: &mut String, c: char)
    ensures
        final(s)@ == old(s)@ + seq![c],
{
    s.push(c);
}

/// Relies on chrono's `Local::now` and its rendering into text for the
/// timestamp.  The result depends on the wall clock, so nothing is claimed
/// of its value.
#[verifier::external_body]
fn local_now_string() -> String {
    format!("{}", chrono::offset::Local::now())
}

/// Concatenation of `f` applied to each element of `s` in order.
pub open spec fn concat_map<A>(s: Seq<A>, f: spec_fn(A) -> Seq<char>) -> Seq<char>
    decreases s.len(),
{
    if s.len() == 0 {
        Seq::empty()
    } else {
        f(s.first()) + concat_map(s.drop_first(), f)
    }
}

/// Appending one element on the right extends the concatenation on the
/// right.
pub proof fn lemma_concat_map_snoc<A>(s: Seq<A>, f: spec_fn(A) -> Seq<char>, x: A)
    ensures
        concat_map(s.push(x), f) == concat_map(s, f) + f(x),
    decreases s.len(),
{
    if s.len() == 0 {
        assert(s.push(x).first() == x);
        assert(s.push(x).drop_first() =~= Seq::<A>::empty());
        assert(concat_map(s.push(x), f) == f(x) + concat_map(Seq::<A>::empty(), f));
        assert(concat_map(s.push(x), f) =~= concat_map(s, f) + f(x));
    } else {
        assert(s.push(x).drop_first() =~= s.drop_first().push(x));
        lemma_concat_map_snoc(s.drop_first(), f, x);
        assert(concat_map(s.push(x), f) =~= concat_map(s, f) + f(x));
    }
}

/// How URL sanitization rewrites one character: spaces are percent-encoded,
/// quote characters are stripped, everything else is kept.
pub open spec fn url_char_rewrite(c: char) -> Seq<char> {
    if c == ' ' {
        seq!['%', '2', '0']
    } else if c == '"' || c == '\'' {
        Seq::empty()
    } else {
        seq![c]
    }
}

/// The sanitized form of a URL: every character rewritten by
/// [`url_char_rewrite`].
pub open spec fn spec_sanitize_url(s: Seq<char>) -> Seq<char> {
    concat_map(s, |c: char| url_char_rewrite(c))
}

/// How filename sanitization rewrites one character: double quotes are
/// stripped, spaces become underscores, everything else is kept.
pub open spec fn filename_char_rewrite(c: char) -> Seq<char> {
    if c == '"' {
        Seq::empty()
    } else if c == ' ' {
        seq!['_']
    } else {
        seq![c]
    }
}

/// The sanitized form of a filename: every character rewritten by
/// [`filename_char_rewrite`].
pub open spec fn spec_sanitize_filename(s: Seq<char>) -> Seq<char> {
    concat_map(s, |c: char| filename_char_rewrite(c))
}

/// Percent-encodes spaces and strips single and double quotes, so that the
/// result can stand in an HTTP request line.
pub fn sanitize_url(url: String) -> (r: String)
    ensures
        r@ == spec_sanitize_url(url@),
{
    let s = url.as_str();
    let n = s.unicode_len();
    let mut out = String::new();
    let mut i: usize = 0;
    while i < n
        invariant
            n == url@.len(),
            i <= n,
            s@ == url@,
            out@ == spec_sanitize_url(url@.take(i as int)),
        decreases n - i,
    {
        let c = s.get_char(i);
        if c == ' ' {
            proof {
                reveal_strlit("%20");
            }
            out.append("%20");
        } else if c == '"' || c == '\'' {
        } else {
            push_char(&mut out, c);
        }
        proof {
            lemma_concat_map_snoc(url@.take(i as int), |ch: char| url_char_rewrite(ch), url@[i as int]);
            assert(url@.take(i as int).push(url@[i as int]) =~= url@.take(i + 1));
        }
        i = i + 1;
    }
    proof {
        assert(url@.take(n as int) =~= url@);
    }
    out
}

/// Strips double quotes and replaces spaces with underscores.
pub fn sanitize_filename(name: String) -> (r: String)
    ensures
        r@ == spec_sanitize_filename(name@),
{
    let s = name.as_str();
    let n = s.unicode_len();
    let mut out = String::new();
    let mut i: usize = 0;
    while i < n
        invariant
            n == name@.len(),
            i <= n,
            s@ == name@,
            out@ == spec_sanitize_filename(name@.take(i as int)),
        decreases n - i,
    {
        let c = s.get_char(i);
        if c == '"' {
        } else if c == ' ' {
            push_char(&mut out, '_');
        } else {
            push_char(&mut out, c);
        }
        proof {
            lemma_concat_map_snoc(name@.take(i as int), |ch: char| filename_char_rewrite(ch), name@[i as int]);
            assert(name@.take(i as int).push(name@[i as int]) =~= name@.take(i + 1));
        }
        i = i + 1;
    }
    proof {
        assert(name@.take(n as int) =~= name@);
    }
    out
}

/// A sanitized URL can stand in an HTTP request line: no character of it
/// is a space or a quote.
pub proof fn lemma_sanitize_url_clean(s: Seq<char>)
    ensures
        forall|i: int|
            0 <= i < spec_sanitize_url(s).len() ==> #[trigger] spec_sanitize_url(s)[i] != ' '
                && spec_sanitize_url(s)[i] != '"' && spec_sanitize_url(s)[i] != '\'',
    decreases s.len(),
{
    if s.len() > 0 {
        lemma_sanitize_url_clean(s.drop_first());
        let head = url_char_rewrite(s.first());
        let tail = spec_sanitize_url(s.drop_first());
        assert(spec_sanitize_url(s) == head + tail);
        assert forall|i: int|
            0 <= i < spec_sanitize_url(s).len() implies #[trigger] spec_sanitize_url(s)[i] != ' '
            && spec_sanitize_url(s)[i] != '"' && spec_sanitize_url(s)[i] != '\'' by {
            if i < head.len() {
                assert(spec_sanitize_url(s)[i] == head[i]);
            } else {
                assert(spec_sanitize_url(s)[i] == tail[i - head.len()]);
            }
        }
    }
}

/// A sanitized filename carries no spaces and no double quotes.
pub proof fn lemma_sanitize_filename_clean(s: Seq<char>)
    ensures
        forall|i: int|
            0 <= i < spec_sanitize_filename(s).len() ==> #[trigger] spec_sanitize_filename(s)[i]
                != ' ' && spec_sanitize_filename(s)[i] != '"',
    decreases s.len(),
{
    if s.len() > 0 {
        lemma_sanitize_filename_clean(s.drop_first());
        let head = filename_char_rewrite(s.first());
        let tail = spec_sanitize_filename(s.drop_first());
        assert(spec_sanitize_filename(s) == head + tail);
        assert forall|i: int|
            0 <= i < spec_sanitize_filename(s).len() implies #[trigger] spec_sanitize_filename(
            s,
        )[i] != ' ' && spec_sanitize_filename(s)[i] != '"' by {
            if i < head.len() {
                assert(spec_sanitize_filename(s)[i] == head[i]);
            } else {
                assert(spec_sanitize_filename(s)[i] == tail[i - head.len()]);
            }
        }
    }
}

/// A string without its final character; the empty string stays empty.
pub open spec fn spec_trim_last(s: Seq<char>) -> Seq<char> {
    if s.len() == 0 {
        s
    } else {
        s.drop_last()
    }
}

/// Drops the last character of a string, if there is one.  The upstream
/// manifest field carries one trailing character that is not part of its
/// base64 payload, which this removes.
pub fn trim_last_char(value: &str) -> (r: &str)
    ensures
        r@ == spec_trim_last(value@),
{
    let n = value.unicode_len();
    if n == 0 {
        value
    } else {
        let r = value.substring_char(0, n - 1);
        proof {
            assert(value@.subrange(0, n - 1) =~= value@.drop_last());
        }
        r
    }
}

/// Whether `needle` occurs contiguously inside `hay`.
pub open spec fn spec_contains_sub(hay: Seq<char>, needle: Seq<char>) -> bool {
    exists|i: int|
        0 <= i && i + needle.len() <= hay.len() && #[trigger] hay.subrange(i, i + needle.len())
            == needle
}

/// Substring search by scanning every start position.
pub fn contains_sub(hay: &str, needle: &str) -> (r: bool)
    ensures
        r == spec_contains_sub(hay@, needle@),
{
    let hn = hay.unicode_len();
    let nn = needle.unicode_len();
    if nn > hn {
        return false;
    }
    let mut i: usize = 0;
    while i <= hn - nn
        invariant
            nn <= hn,
            hn == hay@.len(),
            nn == needle@.len(),
            i <= hn - nn + 1,
            forall|s: int|
                0 <= s < i ==> #[trigger] hay@.subrange(s, s + nn as int) != needle@,
        decreases hn - nn + 1 - i,
    {
        let mut matches_here = true;
        let mut j: usize = 0;
        while j < nn
            invariant
                nn <= hn,
                hn == hay@.len(),
                nn == needle@.len(),
                i + nn <= hn,
                j <= nn,
                matches_here <==> (forall|k: int| 0 <= k < j ==> hay@[i + k] == needle@[k]),
            decreases nn - j,
        {
            if hay.get_char(i + j) != needle.get_char(j) {
                matches_here = false;
            }
            j = j + 1;
        }
        if matches_here {
            proof {
                assert forall|k: int| 0 <= k < nn implies hay@.subrange(
                    i as int,
                    i + nn as int,
                )[k] == needle@[k] by {
                    assert(hay@.subrange(i as int, i + nn as int)[k] == hay@[i + k]);
                }
                assert(hay@.subrange(i as int, i + nn as int) =~= needle@);
            }
            return true;
        }
        proof {
            if hay@.subrange(i as int, i + nn as int) == needle@ {
                assert forall|k: int| 0 <= k < nn implies hay@[i + k] == needle@[k] by {
                    assert(hay@.subrange(i as int, i + nn as int)[k] == hay@[i + k]);
                }
            }
        }
        i = i + 1;
    }
    false
}

/// Picks the filetype suffix for a resolved media URL: `flac` when the URL
/// mentions it, then `mp4`; anything else falls back to `.mp4`.
pub fn which_filetype(url: String) -> (r: String)
    ensures
        spec_contains_sub(url@, "flac"@) ==> r@ == "flac"@,
        !spec_contains_sub(url@, "flac"@) && spec_contains_sub(url@, "mp4"@) ==> r@ == "mp4"@,
        !spec_contains_sub(url@, "flac"@) && !spec_contains_sub(url@, "mp4"@) ==> r@ == ".mp4"@,
{
    if contains_sub(url.as_str(), "flac") {
        String::from_str("flac")
    } else if contains_sub(url.as_str(), "mp4") {
        String::from_str("mp4")
    } else {
        String::from_str(".mp4")
    }
}

/// Builds `{query}_{timestamp}.{filetype}` from the wall clock and
/// sanitizes it as a filename.
pub fn generate_filename(query: String, filetype: String) -> (r: String)
    ensures
        exists|stamp: Seq<char>|
            r@ == spec_sanitize_filename(query@ + "_"@ + stamp + "."@ + filetype@),
{
    let ghost q0 = query@;
    let stamp = local_now_string();
    let mut name = query;
    name.append("_");
    name.append(stamp.as_str());
    name.append(".");
    name.append(filetype.as_str());
    let r = sanitize_filename(name);
    proof {
        assert(r@ == spec_sanitize_filename(q0 + "_"@ + stamp@ + "."@ + filetype@));
    }
    r
}

} // verus!
