//! Path handling for static serving: percent-encoding of URL path
//! segments, lossy percent-decoding, and the traversal-safe normalization
//! that drops empty, `.` and `..` segments.

use vstd::prelude::*;

verus! {

/// A character that separates path segments for normalization purposes.
pub open spec fn is_path_sep(c: char) -> bool {
    c == '/' || c == '\\'
}

/// A forward slash, the only separator URL encoding splits on.
pub open spec fn is_slash(c: char) -> bool {
    c == '/'
}

/// Split `s` at every character satisfying `sep`, accumulating the
/// current segment in `cur` and the finished segments in `acc`. Adjacent
/// separators yield empty segments, as `str::split` does.
pub open spec fn split_by(
    s: Seq<char>,
    sep: spec_fn(char) -> bool,
    cur: Seq<char>,
    acc: Seq<Seq<char>>,
) -> Seq<Seq<char>>
    decreases s.len(),
{
    if s.len() == 0 {
        acc.push(cur)
    } else if sep(s[0]) {
        split_by(s.drop_first(), sep, Seq::empty(), acc.push(cur))
    } else {
        split_by(s.drop_first(), sep, cur.push(s[0]), acc)
    }
}

/// The segments of a path split at `/` and `\`.
pub open spec fn split_path(s: Seq<char>) -> Seq<Seq<char>> {
    split_by(s, |c: char| is_path_sep(c), Seq::empty(), Seq::empty())
}

/// The segments of a path split at `/` only.
pub open spec fn split_slash(s: Seq<char>) -> Seq<Seq<char>> {
    split_by(s, |c: char| is_slash(c), Seq::empty(), Seq::empty())
}

/// The views of a sequence of borrowed strings.
pub open spec fn views_of(v: Seq<&str>) -> Seq<Seq<char>> {
    Seq::new(v.len(), |i: int| v[i]@)
}

/// One step of traversal-safe normalization: empty and `.` segments are
/// dropped, `..` removes the segment before it (or nothing at the root),
/// anything else is kept.
pub open spec fn norm_step(acc: Seq<Seq<char>>, part: Seq<char>) -> Seq<Seq<char>> {
    if part.len() == 0 || part == "."@ {
        acc
    } else if part == ".."@ {
        if acc.len() > 0 {
            acc.drop_last()
        } else {
            acc
        }
    } else {
        acc.push(part)
    }
}

/// Traversal-safe normalization of a segment list, left to right.
pub open spec fn normalized(parts: Seq<Seq<char>>) -> Seq<Seq<char>>
    decreases parts.len(),
{
    if parts.len() == 0 {
        Seq::empty()
    } else {
        norm_step(normalized(parts.drop_last()), parts.last())
    }
}

/// Segments joined with `/`.
pub open spec fn join_slash(parts: Seq<Seq<char>>) -> Seq<char>
    decreases parts.len(),
{
    if parts.len() == 0 {
        Seq::empty()
    } else if parts.len() == 1 {
        parts[0]
    } else {
        join_slash(parts.drop_last()) + "/"@ + parts.last()
    }
}

/// What percent-encoding a path segment with the control-character set
/// returns; a function of the segment alone.
pub uninterp spec fn percent_encode_controls(s: Seq<char>) -> Seq<char>;

/// What lossy percent-decoding returns: every `%` followed by two hex
/// digits decoded, invalid UTF-8 replaced; a function of the input alone.
pub uninterp spec fn percent_decoded_lossy(s: Seq<char>) -> Seq<char>;

/// Relies on percent_encoding::utf8_percent_encode with the CONTROLS set:
/// the result depends on the input string alone.
#[verifier::external_body]
fn encode_controls(s: &str) -> (r: String)
    ensures
        r@ == percent_encode_controls(s@),
{
    percent_encoding::utf8_percent_encode(s, percent_encoding::CONTROLS).to_string()
}

/// Relies on percent_encoding::percent_decode_str and its
/// decode_utf8_lossy: the result depends on the input string alone, and
/// only `%` sequences are rewritten, so an input without `%` comes back
/// unchanged.
#[verifier::external_body]
fn decode_lossy(s: &str) -> (r: String)
    ensures
        r@ == percent_decoded_lossy(s@),
        (forall|i: int| 0 <= i < s@.len() ==> s@[i] != '%') ==> r@ == s@,
{
    percent_encoding::percent_decode_str(s).decode_utf8_lossy().to_string()
}

/// Lossily percent-decode a URL path. A path without `%` is returned
/// unchanged.
pub fn decode_url_path_safely(path: &str) -> (r: String)
    ensures
        r@ == percent_decoded_lossy(path@),
        (forall|i: int| 0 <= i < path@.len() ==> path@[i] != '%') ==> r@ == path@,
{
    decode_lossy(path)
}

/// The separator predicate the split helper works under.
pub open spec fn sep_of(backslash_too: bool) -> spec_fn(char) -> bool {
    if backslash_too {
        |c: char| is_path_sep(c)
    } else {
        |c: char| is_slash(c)
    }
}

fn split_str<'a>(path: &'a str, backslash_too: bool) -> (parts: Vec<&'a str>)
    ensures
        views_of(parts@) == split_by(path@, sep_of(backslash_too), Seq::empty(), Seq::empty()),
{
    let n = path.unicode_len();
    let mut parts: Vec<&'a str> = Vec::new();
    let mut start: usize = 0;
    let mut i: usize = 0;
    proof {
        assert(path@.skip(0) =~= path@);
        assert(path@.subrange(0, 0) =~= Seq::<char>::empty());
        assert(views_of(parts@) =~= Seq::<Seq<char>>::empty());
    }
    while i < n
        invariant
            start <= i <= n,
            n == path@.len(),
            split_by(
                path@.skip(i as int),
                sep_of(backslash_too),
                path@.subrange(start as int, i as int),
                views_of(parts@),
            ) == split_by(path@, sep_of(backslash_too), Seq::empty(), Seq::empty()),
        decreases n - i,
    {
        let c = path.get_char(i);
        let hit: bool = c == '/' || (backslash_too && c == '\\');
        proof {
            assert(hit == sep_of(backslash_too)(path@[i as int]));
            assert(path@.skip(i as int)[0] == path@[i as int]);
            assert(path@.skip(i as int).drop_first() =~= path@.skip(i + 1));
        }
        if hit {
            let seg = path.substring_char(start, i);
            let ghost p0 = parts@;
            parts.push(seg);
            proof {
                assert(views_of(parts@) =~= views_of(p0).push(seg@));
                assert(path@.subrange(i + 1, i + 1) =~= Seq::<char>::empty());
            }
            start = i + 1;
        } else {
            proof {
                assert(path@.subrange(start as int, i as int).push(path@[i as int])
                    =~= path@.subrange(start as int, i + 1));
            }
        }
        i += 1;
    }
    let seg = path.substring_char(start, n);
    let ghost p0 = parts@;
    parts.push(seg);
    proof {
        assert(path@.skip(n as int) =~= Seq::<char>::empty());
        assert(views_of(parts@) =~= views_of(p0).push(seg@));
    }
    parts
}

fn seg_is_empty(seg: &str) -> (b: bool)
    ensures
        b == (seg@.len() == 0),
{
    seg.unicode_len() == 0
}

fn seg_is_dot(seg: &str) -> (b: bool)
    ensures
        b == (seg@ == "."@),
{
    proof {
        reveal_strlit(".");
    }
    let n = seg.unicode_len();
    if n == 1 {
        let c = seg.get_char(0);
        proof {
            if c == '.' {
                assert(seg@ =~= "."@);
            }
        }
        c == '.'
    } else {
        false
    }
}

fn seg_is_dotdot(seg: &str) -> (b: bool)
    ensures
        b == (seg@ == ".."@),
{
    proof {
        reveal_strlit("..");
    }
    let n = seg.unicode_len();
    if n == 2 {
        let c0 = seg.get_char(0);
        let c1 = seg.get_char(1);
        proof {
            if c0 == '.' && c1 == '.' {
                assert(seg@ =~= ".."@);
            }
        }
        c0 == '.' && c1 == '.'
    } else {
        false
    }
}

/// Normalize a URL path so that it cannot escape the served root: split
/// at `/` and `\`, drop empty and `.` segments, let `..` remove the
/// segment before it (and nothing at the root), and join what is kept
/// with `/`.
pub fn format_url_path_safely(path: &str) -> (r: String)
    ensures
        r@ == join_slash(normalized(split_path(path@))),
{
    let parts = split_str(path, true);
    let ghost pv = views_of(parts@);
    let mut used: Vec<&str> = Vec::new();
    let mut j: usize = 0;
    proof {
        assert(pv.take(0) =~= Seq::<Seq<char>>::empty());
        assert(views_of(used@) =~= Seq::<Seq<char>>::empty());
        assert(pv == split_path(path@));
    }
    while j < parts.len()
        invariant
            j <= parts.len(),
            pv == views_of(parts@),
            views_of(used@) == normalized(pv.take(j as int)),
        decreases parts.len() - j,
    {
        let seg = parts[j];
        proof {
            assert(pv.take(j + 1).drop_last() =~= pv.take(j as int));
            assert(pv.take(j + 1).last() == seg@);
        }
        if seg_is_empty(seg) || seg_is_dot(seg) {
        } else if seg_is_dotdot(seg) {
            let ghost u0 = used@;
            let _popped = used.pop();
            proof {
                if u0.len() > 0 {
                    assert(views_of(used@) =~= views_of(u0).drop_last());
                } else {
                    assert(views_of(used@) =~= views_of(u0));
                }
            }
        } else {
            let ghost u0 = used@;
            used.push(seg);
            proof {
                assert(views_of(used@) =~= views_of(u0).push(seg@));
            }
        }
        j += 1;
    }
    proof {
        assert(pv.take(parts@.len() as int) =~= pv);
    }
    join_parts(&used)
}

fn join_parts(parts: &Vec<&str>) -> (r: String)
    ensures
        r@ == join_slash(views_of(parts@)),
{
    let ghost pv = views_of(parts@);
    let mut s = String::new();
    let mut j: usize = 0;
    while j < parts.len()
        invariant
            j <= parts.len(),
            pv == views_of(parts@),
            s@ == join_slash(pv.take(j as int)),
        decreases parts.len() - j,
    {
        if j > 0 {
            s.append("/");
        }
        s.append(parts[j]);
        proof {
            assert(pv.take(j + 1).drop_last() =~= pv.take(j as int));
            assert(pv.take(j + 1).last() == pv[j as int]);
            if j == 0 {
                assert(s@ =~= join_slash(pv.take(1)));
            }
        }
        j += 1;
    }
    proof {
        assert(pv.take(parts@.len() as int) =~= pv);
    }
    s
}

/// Each segment percent-encoded with the control-character set.
pub open spec fn encode_each(parts: Seq<Seq<char>>) -> Seq<Seq<char>> {
    Seq::new(parts.len(), |i: int| percent_encode_controls(parts[i]))
}

/// Percent-encode a URL path: split at `/`, encode every control
/// character of each segment, and join with `/` again.
pub fn encode_url_path(path: &str) -> (r: String)
    ensures
        r@ == join_slash(encode_each(split_slash(path@))),
{
    let parts = split_str(path, false);
    let ghost ev = encode_each(views_of(parts@));
    proof {
        assert(ev == encode_each(split_slash(path@)));
    }
    let mut s = String::new();
    let mut j: usize = 0;
    while j < parts.len()
        invariant
            j <= parts.len(),
            ev == encode_each(views_of(parts@)),
            ev.len() == parts@.len(),
            s@ == join_slash(ev.take(j as int)),
        decreases parts.len() - j,
    {
        if j > 0 {
            s.append("/");
        }
        let e = encode_controls(parts[j]);
        s.append(e.as_str());
        proof {
            assert(ev.take(j + 1).drop_last() =~= ev.take(j as int));
            assert(ev.take(j + 1).last() == ev[j as int]);
            if j == 0 {
                assert(s@ =~= join_slash(ev.take(1)));
            }
        }
        j += 1;
    }
    proof {
        assert(ev.take(parts@.len() as int) =~= ev);
    }
    s
}

} // verus!
