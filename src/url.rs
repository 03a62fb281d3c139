//! Recognition of video URLs on the supported hosts.
//!
//! A URL is accepted when it has the shape
//! `(scheme)? (www.)? host / path`, where the scheme is `http://` or
//! `https://`, the host is one of `youtube.com`, `youtu.be` and
//! `music.youtube.com` (matched case-sensitively), and the path holds at least
//! one character and no line feed.
use vstd::prelude::*;

verus! {

/// The optional scheme: none, `http://` or `https://`.
pub open spec fn scheme_options() -> Seq<Seq<char>> {
    seq![""@, "http://"@, "https://"@]
}

/// The optional `www.` label.
pub open spec fn www_options() -> Seq<Seq<char>> {
    seq![""@, "www."@]
}

/// The recognized hosts.
pub open spec fn host_options() -> Seq<Seq<char>> {
    seq!["youtube.com"@, "youtu.be"@, "music.youtube.com"@]
}

/// A path after the host's `/`: at least one character, none of them a line feed.
pub open spec fn is_path(p: Seq<char>) -> bool {
    p.len() > 0 && forall|i: int| 0 <= i < p.len() ==> p[i] != '\n'
}

/// `s` is `scheme + www + host + "/" + path` for a recognized choice of each part.
pub open spec fn is_youtube_url(s: Seq<char>) -> bool {
    exists|sc: Seq<char>, w: Seq<char>, h: Seq<char>, p: Seq<char>|
        #![trigger scheme_options().contains(sc), www_options().contains(w), host_options().contains(h), is_path(p)]
        scheme_options().contains(sc) && www_options().contains(w) && host_options().contains(h)
            && is_path(p) && s == sc + w + h + seq!['/'] + p
}

/// `s` starts with `pre` and the rest of it is a path.
pub open spec fn prefixed_path(s: Seq<char>, pre: Seq<char>) -> bool {
    pre.len() < s.len() && s.subrange(0, pre.len() as int) == pre && is_path(
        s.subrange(pre.len() as int, s.len() as int),
    )
}

/// The prefix `scheme + www + host + "/"` for the given choice of parts.
pub open spec fn url_prefix(i: int, j: int, k: int) -> Seq<char> {
    scheme_options()[i] + www_options()[j] + host_options()[k] + seq!['/']
}

proof fn lemma_split(s: Seq<char>, pre: Seq<char>, p: Seq<char>)
    requires
        s == pre + p,
    ensures
        s.subrange(0, pre.len() as int) == pre,
        s.subrange(pre.len() as int, s.len() as int) == p,
{
    assert(s.subrange(0, pre.len() as int) =~= pre);
    assert(s.subrange(pre.len() as int, s.len() as int) =~= p);
}

/// A URL is recognized exactly when it has a path after one of the
/// enumerated prefixes.
proof fn lemma_url_by_prefix(s: Seq<char>)
    ensures
        is_youtube_url(s) <==> exists|i: int, j: int, k: int|
            0 <= i < 3 && 0 <= j < 2 && 0 <= k < 3 && #[trigger] prefixed_path(s, url_prefix(i, j, k)),
{
    if is_youtube_url(s) {
        let (sc, w, h, p) = choose|sc: Seq<char>, w: Seq<char>, h: Seq<char>, p: Seq<char>|
            scheme_options().contains(sc) && www_options().contains(w) && host_options().contains(h)
                && is_path(p) && s == sc + w + h + seq!['/'] + p;
        let i = choose|i: int| 0 <= i < 3 && scheme_options()[i] == sc;
        let j = choose|j: int| 0 <= j < 2 && www_options()[j] == w;
        let k = choose|k: int| 0 <= k < 3 && host_options()[k] == h;
        lemma_split(s, url_prefix(i, j, k), p);
        assert(prefixed_path(s, url_prefix(i, j, k)));
    }
    if exists|i: int, j: int, k: int|
        0 <= i < 3 && 0 <= j < 2 && 0 <= k < 3 && #[trigger] prefixed_path(s, url_prefix(i, j, k)) {
        let (i, j, k) = choose|i: int, j: int, k: int|
            0 <= i < 3 && 0 <= j < 2 && 0 <= k < 3 && #[trigger] prefixed_path(s, url_prefix(i, j, k));
        let pre = url_prefix(i, j, k);
        let p = s.subrange(pre.len() as int, s.len() as int);
        assert(s =~= scheme_options()[i] + www_options()[j] + host_options()[k] + seq!['/'] + p);
        assert(scheme_options().contains(scheme_options()[i]));
        assert(www_options().contains(www_options()[j]));
        assert(host_options().contains(host_options()[k]));
    }
}


/// Every string built from a recognized scheme, `www.` label and host,
/// followed by `/` and a path, is a recognized URL.
pub proof fn lemma_recognized_forms_are_valid(
    scheme: Seq<char>,
    www: Seq<char>,
    host: Seq<char>,
    path: Seq<char>,
)
    requires
        scheme_options().contains(scheme),
        www_options().contains(www),
        host_options().contains(host),
        is_path(path),
    ensures
        is_youtube_url(scheme + www + host + seq!['/'] + path),
{
}

/// A recognized scheme, `www.` label and host followed by `/` and nothing
/// else is not a recognized URL: the path may not be empty.
pub proof fn lemma_empty_path_is_invalid(scheme: Seq<char>, www: Seq<char>, host: Seq<char>)
    requires
        scheme_options().contains(scheme),
        www_options().contains(www),
        host_options().contains(host),
    ensures
        !is_youtube_url(scheme + www + host + seq!['/']),
{
    let s = scheme + www + host + seq!['/'];
    lemma_url_by_prefix(s);
    reveal_strlit("");
    reveal_strlit("http://");
    reveal_strlit("https://");
    reveal_strlit("www.");
    reveal_strlit("youtube.com");
    reveal_strlit("youtu.be");
    reveal_strlit("music.youtube.com");
    assert forall|a: int, b: int, c: int|
        0 <= a < 3 && 0 <= b < 2 && 0 <= c < 3 implies !#[trigger] prefixed_path(
        s,
        url_prefix(a, b, c),
    ) by {
        let pre = url_prefix(a, b, c);
        let n = pre.len() as int;
        if prefixed_path(s, pre) {
            assert(s[n - 1] == pre[n - 1]);
            assert(s[n - 2] == pre[n - 2]);
            assert(pre[n - 1] == '/');
            assert(pre[n - 2] == 'm' || pre[n - 2] == 'e');
            assert(false);
        }
    }
}

/// The characters of `s`, in order.
fn chars_of(s: &str) -> (r: Vec<char>)
    ensures
        r@ == s@,
{
    let n = s.unicode_len();
    let mut r: Vec<char> = Vec::new();
    let mut i: usize = 0;
    while i < n
        invariant
            n == s@.len(),
            i <= n,
            r@ == s@.subrange(0, i as int),
        decreases n - i,
    {
        r.push(s.get_char(i));
        i = i + 1;
        assert(r@ =~= s@.subrange(0, i as int));
    }
    assert(r@ =~= s@);
    r
}

/// Appends the characters of `s` to `v`.
fn push_chars(v: &mut Vec<char>, s: &str)
    ensures
        final(v)@ == old(v)@ + s@,
{
    let n = s.unicode_len();
    let mut i: usize = 0;
    while i < n
        invariant
            n == s@.len(),
            i <= n,
            v@ == old(v)@ + s@.subrange(0, i as int),
        decreases n - i,
    {
        v.push(s.get_char(i));
        i = i + 1;
        assert(v@ =~= old(v)@ + s@.subrange(0, i as int));
    }
    assert(s@.subrange(0, n as int) =~= s@);
}

fn scheme_at(i: usize) -> (r: &'static str)
    requires
        i < 3,
    ensures
        r@ == scheme_options()[i as int],
{
    if i == 0 {
        ""
    } else if i == 1 {
        "http://"
    } else {
        "https://"
    }
}

fn www_at(j: usize) -> (r: &'static str)
    requires
        j < 2,
    ensures
        r@ == www_options()[j as int],
{
    if j == 0 {
        ""
    } else {
        "www."
    }
}

fn host_at(k: usize) -> (r: &'static str)
    requires
        k < 3,
    ensures
        r@ == host_options()[k as int],
{
    if k == 0 {
        "youtube.com"
    } else if k == 1 {
        "youtu.be"
    } else {
        "music.youtube.com"
    }
}

/// Whether `s` starts with `pre` and continues with a path.
fn has_prefixed_path(s: &Vec<char>, pre: &Vec<char>) -> (r: bool)
    ensures
        r == prefixed_path(s@, pre@),
{
    if pre.len() >= s.len() {
        return false;
    }
    let mut i: usize = 0;
    while i < pre.len()
        invariant
            pre@.len() < s@.len(),
            i <= pre@.len(),
            forall|m: int| 0 <= m < i ==> s@[m] == pre@[m],
        decreases pre.len() - i,
    {
        if s[i] != pre[i] {
            assert(s@.subrange(0, pre@.len() as int)[i as int] != pre@[i as int]);
            return false;
        }
        i = i + 1;
    }
    assert(s@.subrange(0, pre@.len() as int) =~= pre@);
    let ghost rest = s@.subrange(pre@.len() as int, s@.len() as int);
    let mut m: usize = pre.len();
    while m < s.len()
        invariant
            pre@.len() <= m <= s@.len(),
            rest == s@.subrange(pre@.len() as int, s@.len() as int),
            forall|x: int| pre@.len() <= x < m ==> s@[x] != '\n',
        decreases s.len() - m,
    {
        if s[m] == '\n' {
            assert(rest[m - pre@.len()] == '\n');
            return false;
        }
        m = m + 1;
    }
    assert forall|x: int| 0 <= x < rest.len() implies rest[x] != '\n' by {
        assert(rest[x] == s@[x + pre@.len()]);
    }
    true
}

/// Whether `url` is a video URL on one of the recognized hosts: an optional
/// `http://` or `https://`, an optional `www.`, then `youtube.com`,
/// `youtu.be` or `music.youtube.com`, then `/` and a non-empty path without
/// line feeds. Host names are matched case-sensitively.
pub fn is_valid_youtube_url(url: &str) -> (r: bool)
    ensures
        r == is_youtube_url(url@),
{
    proof {
        lemma_url_by_prefix(url@);
    }
    let s = chars_of(url);
    let mut i: usize = 0;
    while i < 3
        invariant
            s@ == url@,
            i <= 3,
            forall|a: int, b: int, c: int|
                0 <= a < i && 0 <= b < 2 && 0 <= c < 3 ==> !#[trigger] prefixed_path(
                    url@,
                    url_prefix(a, b, c),
                ),
        decreases 3 - i,
    {
        let mut j: usize = 0;
        while j < 2
            invariant
                s@ == url@,
                i < 3,
                j <= 2,
                forall|a: int, b: int, c: int|
                    0 <= a < i && 0 <= b < 2 && 0 <= c < 3 ==> !#[trigger] prefixed_path(
                        url@,
                        url_prefix(a, b, c),
                    ),
                forall|b: int, c: int|
                    0 <= b < j && 0 <= c < 3 ==> !#[trigger] prefixed_path(
                        url@,
                        url_prefix(i as int, b, c),
                    ),
            decreases 2 - j,
        {
            let mut k: usize = 0;
            while k < 3
                invariant
                    s@ == url@,
                    i < 3,
                    j < 2,
                    k <= 3,
                    forall|a: int, b: int, c: int|
                        0 <= a < i && 0 <= b < 2 && 0 <= c < 3 ==> !#[trigger] prefixed_path(
                            url@,
                            url_prefix(a, b, c),
                        ),
                    forall|b: int, c: int|
                        0 <= b < j && 0 <= c < 3 ==> !#[trigger] prefixed_path(
                            url@,
                            url_prefix(i as int, b, c),
                        ),
                    forall|c: int|
                        0 <= c < k ==> !#[trigger] prefixed_path(
                            url@,
                            url_prefix(i as int, j as int, c),
                        ),
                decreases 3 - k,
            {
                let mut pre: Vec<char> = Vec::new();
                push_chars(&mut pre, scheme_at(i));
                push_chars(&mut pre, www_at(j));
                push_chars(&mut pre, host_at(k));
                pre.push('/');
                assert(pre@ =~= url_prefix(i as int, j as int, k as int));
                if has_prefixed_path(&s, &pre) {
                    proof {
                        lemma_url_by_prefix(url@);
                        assert(prefixed_path(url@, url_prefix(i as int, j as int, k as int)));
                    }
                    return true;
                }
                k = k + 1;
            }
            j = j + 1;
        }
        i = i + 1;
    }
    false
}

} // verus!
