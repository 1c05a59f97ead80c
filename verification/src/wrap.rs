//! Display-width-aware wrapping of long storage paths into dialog lines.
//!
//! A path is broken into lines no wider than a given number of terminal
//! columns. Paths carrying the bucket-URI scheme keep their `/`-separated
//! segments intact across breaks whenever a segment fits; other strings are
//! cut strictly at the column limit.

use vstd::prelude::*;
use vstd::seq_lib::lemma_flatten_concat;

use crate::text::{
    char_display_width, display_width_of_char, display_width_of_str, is_char_prefix,
    lemma_seq_width_concat, lemma_seq_width_push, seq_width, str_starts_with,
};

verus! {

/// Every character of `s` fits alone within `m` columns.
pub open spec fn all_chars_fit(s: Seq<char>, m: nat) -> bool {
    forall|j: int| 0 <= j < s.len() ==> char_display_width(#[trigger] s[j]) <= m
}

/// Every line is at most `m` columns wide.
pub open spec fn all_lines_fit(ls: Seq<Seq<char>>, m: nat) -> bool {
    forall|i: int| 0 <= i < ls.len() ==> seq_width(#[trigger] ls[i]) <= m
}

/// No line is empty.
pub open spec fn no_empty_lines(ls: Seq<Seq<char>>) -> bool {
    forall|i: int| 0 <= i < ls.len() ==> (#[trigger] ls[i]).len() > 0
}

/// Split `s` into a prefix whose display width is at most `max_width` and the
/// remaining suffix; the prefix is as long as the width budget allows.
pub fn split_by_display_width(s: &str, max_width: usize) -> (r: (String, String))
    ensures
        r.0@ + r.1@ == s@,
        r.0@ == s@.take(r.0@.len() as int),
        seq_width(r.0@) <= max_width,
        max_width > 0 && r.1@.len() > 0 ==> seq_width(r.0@) + char_display_width(r.1@[0])
            > max_width,
{
    let n = s.unicode_len();
    if max_width == 0 {
        let pre = String::new();
        let suf = s.to_owned();
        proof {
            assert(pre@ + suf@ =~= s@);
            assert(pre@ =~= s@.take(0));
        }
        return (pre, suf);
    }
    let mut i: usize = 0;
    let mut w: u128 = 0;
    while i < n
        invariant
            n == s@.len(),
            i <= n,
            w == seq_width(s@.take(i as int)),
            w <= max_width as u128,
        decreases n - i,
    {
        let c = s.get_char(i);
        let cw = display_width_of_char(c) as u128;
        proof {
            assert(s@.take(i + 1) =~= s@.take(i as int).push(s@[i as int]));
            lemma_seq_width_push(s@.take(i as int), s@[i as int]);
        }
        if w + cw > max_width as u128 {
            let pre = s.substring_char(0, i).to_owned();
            let suf = s.substring_char(i, n).to_owned();
            proof {
                assert(pre@ =~= s@.take(i as int));
                assert(pre@ + suf@ =~= s@);
                assert(suf@[0] == s@[i as int]);
            }
            return (pre, suf);
        }
        w = w + cw;
        i = i + 1;
    }
    let pre = s.to_owned();
    let suf = String::new();
    proof {
        assert(pre@ + suf@ =~= s@);
        assert(pre@ =~= s@.take(n as int));
    }
    (pre, suf)
}

/// Wrap `s` strictly at the column limit: characters accumulate on a line
/// while its running width stays within `max_width`; the line is cut the
/// moment the next character would exceed it. Nothing is dropped, so the
/// lines concatenate back to `s` exactly.
pub fn wrap_strict_by_char_width(s: &str, max_width: usize) -> (r: Vec<String>)
    ensures
        r.deep_view().flatten() == s@,
        no_empty_lines(r.deep_view()),
        all_chars_fit(s@, max_width as nat) ==> all_lines_fit(r.deep_view(), max_width as nat),
        seq_width(s@) <= max_width && s@.len() > 0 ==> r.deep_view() == seq![s@],
        s@.len() == 0 ==> r@.len() == 0,
        s@.len() > 0 ==> r@.len() > 0,
{
    broadcast use Seq::group_seq_flatten;

    let n = s.unicode_len();
    let mut lines: Vec<String> = Vec::new();
    let mut start: usize = 0;
    let mut w: u128 = 0;
    let mut i: usize = 0;
    proof {
        assert(lines.deep_view() =~= Seq::<Seq<char>>::empty());
        assert(lines.deep_view().flatten() =~= s@.take(0));
        assert(s@.subrange(0, 0) =~= Seq::<char>::empty());
    }
    while i < n
        invariant
            n == s@.len(),
            start <= i <= n,
            w == seq_width(s@.subrange(start as int, i as int)),
            w <= 3 * ((i - start) as u128),
            lines.deep_view().flatten() == s@.take(start as int),
            no_empty_lines(lines.deep_view()),
            all_chars_fit(s@, max_width as nat) ==> all_lines_fit(
                lines.deep_view(),
                max_width as nat,
            ) && w <= max_width as u128,
            seq_width(s@) <= max_width ==> lines@.len() == 0 && start == 0,
            start == 0 || lines@.len() > 0,
        decreases n - i,
    {
        let c = s.get_char(i);
        let cw = display_width_of_char(c) as u128;
        if w + cw > max_width as u128 {
            proof {
                if seq_width(s@) <= max_width as nat {
                    assert(start == 0);
                    assert(s@.take(i + 1) =~= s@.subrange(0, i as int).push(s@[i as int]));
                    lemma_seq_width_push(s@.subrange(0, i as int), s@[i as int]);
                    assert(s@.take(i + 1) + s@.skip(i + 1) =~= s@);
                    lemma_seq_width_concat(s@.take(i + 1), s@.skip(i + 1));
                    assert(false);
                }
            }
            if i > start {
                let piece = s.substring_char(start, i).to_owned();
                let ghost old_dv = lines.deep_view();
                lines.push(piece);
                proof {
                    assert(lines.deep_view() =~= old_dv.push(piece@));
                    old_dv.lemma_flatten_push(piece@);
                    assert(old_dv.push(piece@).flatten() == old_dv.flatten() + piece@);
                    assert(s@.take(start as int) + s@.subrange(start as int, i as int) =~= s@.take(
                        i as int,
                    ));
                }
                start = i;
            }
            w = 0;
            proof {
                assert(s@.subrange(start as int, start as int) =~= Seq::<char>::empty());
            }
        }
        proof {
            assert(s@.subrange(start as int, i + 1) =~= s@.subrange(start as int, i as int).push(
                s@[i as int],
            ));
            lemma_seq_width_push(s@.subrange(start as int, i as int), s@[i as int]);
        }
        w = w + cw;
        i = i + 1;
    }
    if start < n {
        let piece = s.substring_char(start, n).to_owned();
        let ghost old_dv = lines.deep_view();
        lines.push(piece);
        proof {
            assert(lines.deep_view() =~= old_dv.push(piece@));
            old_dv.lemma_flatten_push(piece@);
            assert(old_dv.push(piece@).flatten() == old_dv.flatten() + piece@);
            assert(s@.take(start as int) + s@.subrange(start as int, n as int) =~= s@);
            if seq_width(s@) <= max_width && s@.len() > 0 {
                assert(piece@ =~= s@);
                assert(lines.deep_view() =~= seq![s@]);
            }
        }
    } else {
        proof {
            assert(s@.take(start as int) =~= s@);
        }
    }
    lines
}

/// `t` with every run of separators collapsed to a single `/` and trailing
/// separators dropped: the path the prefix-aware wrapper reassembles after
/// skipping empty segments.
pub open spec fn squash(t: Seq<char>) -> Seq<char>
    decreases t.len(),
{
    if t.len() == 0 {
        Seq::empty()
    } else if t[0] != '/' {
        seq![t[0]] + squash(t.drop_first())
    } else {
        let rest = squash(t.drop_first());
        if rest.len() == 0 {
            Seq::empty()
        } else if t.len() > 1 && t[1] == '/' {
            rest
        } else {
            seq!['/'] + rest
        }
    }
}

/// A squashed-stable path piece: no doubled separator and no trailing one.
pub open spec fn path_rest_clean(t: Seq<char>) -> bool {
    (forall|j: int| 0 <= j < t.len() - 1 ==> !(#[trigger] t[j] == '/' && t[j + 1] == '/')) && (
    t.len() > 0 ==> t.last() != '/')
}

/// A nonempty sequence that does not begin with a separator squashes to
/// something beginning with the same character.
proof fn lemma_squash_head(t: Seq<char>)
    requires
        t.len() > 0,
        t[0] != '/',
    ensures
        squash(t).len() > 0,
        squash(t)[0] == t[0],
{
}

/// Splitting off a separator-free prefix commutes with squashing.
proof fn lemma_squash_seg(t: Seq<char>, k: int)
    requires
        0 <= k <= t.len(),
        forall|j: int| 0 <= j < k ==> t[j] != '/',
    ensures
        squash(t) == t.take(k) + squash(t.skip(k)),
    decreases k,
{
    if k == 0 {
        assert(t.skip(0) =~= t);
        assert(t.take(0) + squash(t) =~= squash(t));
    } else {
        lemma_squash_seg(t.drop_first(), k - 1);
        assert(t.drop_first().take(k - 1) =~= t.take(k).drop_first());
        assert(t.drop_first().skip(k - 1) =~= t.skip(k));
        assert(seq![t[0]] + (t.take(k).drop_first() + squash(t.skip(k))) =~= t.take(k) + squash(
            t.skip(k),
        ));
    }
}

/// A leading run of separators squashes to one separator before the rest,
/// or to nothing when nothing follows it.
proof fn lemma_squash_slashes(t: Seq<char>, k: int)
    requires
        1 <= k <= t.len(),
        forall|j: int| 0 <= j < k ==> t[j] == '/',
        k < t.len() ==> t[k] != '/',
    ensures
        k == t.len() ==> squash(t) == Seq::<char>::empty(),
        k < t.len() ==> squash(t) == seq!['/'] + squash(t.skip(k)),
    decreases k,
{
    reveal_with_fuel(squash, 2);
    if k == 1 {
        if k == t.len() {
            assert(t.drop_first().len() == 0);
        } else {
            assert(t.drop_first() =~= t.skip(1));
            lemma_squash_head(t.skip(1));
            assert(t[1] != '/');
        }
    } else {
        lemma_squash_slashes(t.drop_first(), k - 1);
        assert(t.drop_first().skip(k - 1) =~= t.skip(k));
        assert(t[1] == '/');
        if k == t.len() {
            assert(squash(t.drop_first()).len() == 0);
        } else {
            lemma_squash_head(t.skip(k));
        }
    }
}

/// A sequence of separators only squashes to nothing.
proof fn lemma_squash_all_slashes(t: Seq<char>)
    requires
        forall|j: int| 0 <= j < t.len() ==> t[j] == '/',
    ensures
        squash(t) == Seq::<char>::empty(),
    decreases t.len(),
{
    if t.len() > 0 {
        lemma_squash_all_slashes(t.drop_first());
    }
}

/// Squashing never changes a path without doubled or trailing separators.
pub proof fn lemma_squash_clean_identity(t: Seq<char>)
    requires
        path_rest_clean(t),
    ensures
        squash(t) == t,
    decreases t.len(),
{
    if t.len() == 0 {
    } else if t[0] != '/' {
        assert(path_rest_clean(t.drop_first())) by {
            assert(forall|j: int|
                0 <= j < t.drop_first().len() ==> t.drop_first()[j] == t[j + 1]);
        }
        lemma_squash_clean_identity(t.drop_first());
        assert(seq![t[0]] + t.drop_first() =~= t);
    } else {
        assert(t.len() >= 2) by {
            assert(t.last() != '/');
        }
        assert(t[1] != '/');
        assert(path_rest_clean(t.drop_first())) by {
            assert(forall|j: int|
                0 <= j < t.drop_first().len() ==> t.drop_first()[j] == t[j + 1]);
        }
        lemma_squash_clean_identity(t.drop_first());
        assert(seq!['/'] + t.drop_first() =~= t);
    }
}

proof fn lemma_chars_fit_parts(c: Seq<char>, a: Seq<char>, b: Seq<char>, m: nat)
    requires
        c == a + b,
        all_chars_fit(c, m),
    ensures
        all_chars_fit(a, m),
        all_chars_fit(b, m),
{
    assert forall|j: int| 0 <= j < a.len() implies char_display_width(#[trigger] a[j]) <= m by {
        assert(a[j] == c[j]);
    }
    assert forall|j: int| 0 <= j < b.len() implies char_display_width(#[trigger] b[j]) <= m by {
        assert(b[j] == c[a.len() + j]);
    }
}

/// Wrap `text` and append the result: every chunk but the last becomes a
/// finished line; the last is left in `current` so later segments can extend
/// it.
fn append_wrapped_chunks(
    lines: &mut Vec<String>,
    current: &mut String,
    text: &str,
    max_width: usize,
)
    requires
        old(current)@.len() == 0,
    ensures
        final(lines).deep_view().flatten() + final(current)@ == old(lines).deep_view().flatten()
            + text@,
        old(lines)@.len() <= final(lines)@.len(),
        final(lines).deep_view().take(old(lines)@.len() as int) == old(lines).deep_view(),
        no_empty_lines(old(lines).deep_view()) ==> no_empty_lines(final(lines).deep_view()),
        text@.len() > 0 ==> final(current)@.len() > 0,
        all_chars_fit(text@, max_width as nat) ==> seq_width(final(current)@) <= max_width,
        all_chars_fit(text@, max_width as nat) && all_lines_fit(
            old(lines).deep_view(),
            max_width as nat,
        ) ==> all_lines_fit(final(lines).deep_view(), max_width as nat),
{
    broadcast use Seq::group_seq_flatten;

    let ghost base = old(lines).deep_view();
    let mut chunks = wrap_strict_by_char_width(text, max_width);
    let ghost chunks_dv = chunks.deep_view();
    if chunks.len() == 0 {
        proof {
            assert(chunks_dv =~= Seq::<Seq<char>>::empty());
            assert(chunks_dv.flatten() =~= Seq::<char>::empty());
            assert(lines.deep_view().flatten() + current@ =~= base.flatten() + text@);
            assert(lines.deep_view().take(base.len() as int) =~= base);
        }
        return ;
    }
    let last = match chunks.pop() {
        Some(p) => p,
        None => {
            proof {
                assert(false);
            }
            String::new()
        },
    };
    proof {
        assert(chunks_dv =~= chunks.deep_view().push(last@));
        chunks.deep_view().lemma_flatten_push(last@);
        assert(last@ == chunks_dv[chunks_dv.len() - 1]);
    }
    let ghost pre_dv = chunks.deep_view();
    let mut idx: usize = 0;
    proof {
        assert(lines.deep_view() + pre_dv.take(0) =~= lines.deep_view());
    }
    while idx < chunks.len()
        invariant
            idx <= chunks@.len(),
            chunks.deep_view() == pre_dv,
            lines.deep_view() == base + pre_dv.take(idx as int),
            forall|k: int|
                0 <= k < pre_dv.len() ==> #[trigger] pre_dv[k] == chunks_dv[k],
            no_empty_lines(chunks_dv),
            all_chars_fit(text@, max_width as nat) ==> all_lines_fit(chunks_dv, max_width as nat),
        decreases chunks@.len() - idx,
    {
        let piece = chunks[idx].clone();
        proof {
            assert(piece@ == pre_dv[idx as int]);
        }
        let ghost old_dv = lines.deep_view();
        lines.push(piece);
        proof {
            assert(lines.deep_view() =~= old_dv.push(piece@));
            assert(lines.deep_view() =~= base + pre_dv.take(idx + 1));
        }
        idx = idx + 1;
    }
    proof {
        assert(pre_dv.take(chunks@.len() as int) =~= pre_dv);
    }
    *current = last;
    proof {
        lemma_flatten_concat(base, pre_dv);
        assert((base + pre_dv).flatten() == base.flatten() + pre_dv.flatten());
        assert(lines.deep_view().flatten() + current@ =~= base.flatten() + text@);
        assert(lines.deep_view().take(base.len() as int) =~= base);
        assert(no_empty_lines(chunks_dv) ==> last@.len() > 0);
        assert forall|i: int|
            0 <= i < lines.deep_view().len() && no_empty_lines(base) implies (
        #[trigger] lines.deep_view()[i]).len() > 0 by {
            if i >= base.len() {
                assert(lines.deep_view()[i] == pre_dv[i - base.len()]);
            }
        }
        if all_chars_fit(text@, max_width as nat) && all_lines_fit(base, max_width as nat) {
            assert forall|i: int| 0 <= i < lines.deep_view().len() implies seq_width(
                #[trigger] lines.deep_view()[i],
            ) <= max_width by {
                if i >= base.len() {
                    assert(lines.deep_view()[i] == pre_dv[i - base.len()]);
                    assert(pre_dv[i - base.len()] == chunks_dv[i - base.len()]);
                }
            }
        }
    }
}

/// The first line of `ls` (or the line being built, when none is finished
/// yet) starts with the scheme prefix `p`.
pub open spec fn first_line_keeps_prefix(ls: Seq<Seq<char>>, cur: Seq<char>, p: Seq<char>) -> bool {
    if ls.len() == 0 {
        is_char_prefix(cur, p)
    } else {
        is_char_prefix(ls[0], p)
    }
}

/// The piece of text a segment contributes to the wrapped output: the
/// segment itself right after the prefix, otherwise one separator and the
/// segment.
pub open spec fn seg_app(s: Seq<char>, plen: int, a: int, b: int) -> Seq<char> {
    if a == plen {
        s.subrange(a, b)
    } else {
        seq!['/'] + s.subrange(a, b)
    }
}

/// Squashing the unprocessed tail peels off exactly the next segment's
/// contribution.
proof fn lemma_squash_peel(s: Seq<char>, plen: int, pos: int, seg_start: int, e: int)
    requires
        0 <= plen <= pos <= seg_start < e <= s.len(),
        forall|j: int| pos <= j < seg_start ==> s[j] == '/',
        forall|j: int| seg_start <= j < e ==> s[j] != '/',
        pos == seg_start ==> pos == plen,
    ensures
        squash(s.subrange(pos, s.len() as int)) == seg_app(s, plen, seg_start, e) + squash(
            s.subrange(e, s.len() as int),
        ),
{
    let n = s.len() as int;
    let rem = s.subrange(pos, n);
    let seg = s.subrange(seg_start, e);
    let k = seg_start - pos;
    if k > 0 {
        assert(forall|j: int| 0 <= j < k ==> #[trigger] rem[j] == '/');
        assert(rem[k] != '/');
        lemma_squash_slashes(rem, k);
        assert(rem.skip(k) =~= s.subrange(seg_start, n));
    }
    let seg_rem = s.subrange(seg_start, n);
    assert(forall|j: int| 0 <= j < e - seg_start ==> #[trigger] seg_rem[j] != '/');
    lemma_squash_seg(seg_rem, e - seg_start);
    assert(seg_rem.take(e - seg_start) =~= seg);
    assert(seg_rem.skip(e - seg_start) =~= s.subrange(e, n));
    if k > 0 {
        assert(squash(rem) =~= (seq!['/'] + seg) + squash(s.subrange(e, n)));
        assert(seg_start != plen);
    } else {
        assert(seg_start == plen);
        assert(squash(rem) =~= seg + squash(s.subrange(e, n)));
    }
}

/// Push the line being built, if any, and start an empty one.
fn flush_current(lines: &mut Vec<String>, current: &mut String)
    ensures
        final(current)@.len() == 0,
        old(current)@.len() > 0 ==> final(lines).deep_view() == old(lines).deep_view().push(
            old(current)@,
        ),
        old(current)@.len() == 0 ==> final(lines).deep_view() == old(lines).deep_view(),
        final(lines).deep_view().flatten() == old(lines).deep_view().flatten() + old(current)@,
{
    broadcast use Seq::group_seq_flatten;

    if current.as_str().unicode_len() > 0 {
        let mut tmp = String::new();
        core::mem::swap(&mut tmp, current);
        let ghost pushed = tmp@;
        let ghost old_dv = lines.deep_view();
        lines.push(tmp);
        proof {
            assert(lines.deep_view() =~= old_dv.push(pushed));
            old_dv.lemma_flatten_push(pushed);
        }
    } else {
        proof {
            assert(current@ =~= Seq::<char>::empty());
            assert(lines.deep_view().flatten() + current@ =~= lines.deep_view().flatten());
        }
    }
}

/// Lay the segment `s[seg_start..e]` (with its separator when it is not the
/// first) into the wrapped output: appended to the line being built when it
/// fits, otherwise on lines of its own, filling the first line after the
/// prefix before falling back to a strict split.
#[verifier::rlimit(100)]
fn wrap_append_segment(
    lines: &mut Vec<String>,
    current: &mut String,
    s: &str,
    prefix: &str,
    seg_start: usize,
    e: usize,
    max_width: usize,
)
    requires
        prefix@.len() <= seg_start < e <= s@.len(),
        forall|j: int| seg_start <= j < e ==> s@[j] != '/',
        seg_start == prefix@.len() ==> old(current)@ == prefix@ && old(lines)@.len() == 0,
        seg_start > prefix@.len() ==> s@[seg_start - 1] == '/',
    ensures
        final(lines).deep_view().flatten() + final(current)@ == old(lines).deep_view().flatten()
            + old(current)@ + seg_app(s@, prefix@.len() as int, seg_start as int, e as int),
        no_empty_lines(old(lines).deep_view()) ==> no_empty_lines(final(lines).deep_view()),
        (all_chars_fit(s@, max_width as nat) && seq_width(prefix@) <= max_width && all_lines_fit(
            old(lines).deep_view(),
            max_width as nat,
        ) && seq_width(old(current)@) <= max_width) ==> (all_lines_fit(
            final(lines).deep_view(),
            max_width as nat,
        ) && seq_width(final(current)@) <= max_width),
        prefix@.len() > 0 && first_line_keeps_prefix(
            old(lines).deep_view(),
            old(current)@,
            prefix@,
        ) ==> first_line_keeps_prefix(final(lines).deep_view(), final(current)@, prefix@),
{
    let plen = prefix.unicode_len();
    let is_first = seg_start == plen;
    let ghost seg = s@.subrange(seg_start as int, e as int);
    let ghost app = seg_app(s@, plen as int, seg_start as int, e as int);
    let ghost fit_hyp = all_chars_fit(s@, max_width as nat) && seq_width(prefix@) <= max_width
        && all_lines_fit(old(lines).deep_view(), max_width as nat) && seq_width(old(current)@)
        <= max_width;
    let to_append: String = if is_first {
        s.substring_char(seg_start, e).to_owned()
    } else {
        s.substring_char(seg_start - 1, e).to_owned()
    };
    proof {
        if !is_first {
            assert(s@.subrange(seg_start - 1, e as int) =~= app);
        } else {
            assert(s@.subrange(seg_start as int, e as int) =~= app);
        }
        assert(to_append@ == app);
        if all_chars_fit(s@, max_width as nat) {
            assert(s@ =~= s@.take(seg_start as int) + s@.skip(seg_start as int));
            lemma_chars_fit_parts(
                s@,
                s@.take(seg_start as int),
                s@.skip(seg_start as int),
                max_width as nat,
            );
            assert(s@.skip(seg_start as int) =~= seg + s@.skip(seg_start as int).skip(
                e - seg_start,
            ));
            lemma_chars_fit_parts(
                s@.skip(seg_start as int),
                seg,
                s@.skip(seg_start as int).skip(e - seg_start),
                max_width as nat,
            );
            assert(all_chars_fit(seg, max_width as nat));
        }
    }
    let cur_w = display_width_of_str(current.as_str());
    let app_w = display_width_of_str(to_append.as_str());
    if cur_w + app_w <= max_width as u128 {
        let ghost cur_old = current@;
        current.append(to_append.as_str());
        proof {
            lemma_seq_width_concat(cur_old, app);
            if plen > 0 && old(lines)@.len() == 0 && is_char_prefix(cur_old, prefix@) {
                assert(current@.take(plen as int) =~= cur_old.take(plen as int));
            }
        }
    } else if is_first {
        let remain: usize = if cur_w >= max_width as u128 {
            0
        } else {
            max_width - (cur_w as usize)
        };
        if remain == 0 {
            flush_current(lines, current);
            let seg_str = s.substring_char(seg_start, e);
            append_wrapped_chunks(lines, current, seg_str, max_width);
            proof {
                assert(lines.deep_view().flatten() + current@ =~= old(lines).deep_view().flatten()
                    + old(current)@ + app);
            }
        } else {
            let seg_str = s.substring_char(seg_start, e);
            let hd_tl = split_by_display_width(seg_str, remain);
            let head = hd_tl.0;
            let tail = hd_tl.1;
            let ghost cur_old = current@;
            current.append(head.as_str());
            proof {
                lemma_seq_width_concat(cur_old, head@);
                if plen > 0 {
                    assert(current@.take(plen as int) =~= cur_old.take(plen as int));
                }
            }
            let ghost filled = current@;
            flush_current(lines, current);
            if tail.as_str().unicode_len() > 0 {
                proof {
                    if fit_hyp {
                        lemma_chars_fit_parts(seg, head@, tail@, max_width as nat);
                    }
                }
                append_wrapped_chunks(lines, current, tail.as_str(), max_width);
            }
            proof {
                assert(head@ + tail@ == seg);
                assert(lines.deep_view().flatten() + current@ =~= old(lines).deep_view().flatten()
                    + old(current)@ + app);
                if plen > 0 && filled.len() > 0 {
                    assert(lines.deep_view()[old(lines)@.len() as int] == filled);
                }
            }
        }
    } else {
        flush_current(lines, current);
        append_wrapped_chunks(lines, current, to_append.as_str(), max_width);
        proof {
            assert(lines.deep_view().flatten() + current@ =~= old(lines).deep_view().flatten()
                + old(current)@ + app);
        }
    }
}

/// Wrap a path that begins with a known scheme prefix, keeping `/`-separated
/// segments intact whenever they fit: the first line starts with the prefix
/// and takes as many following segments as fit; later lines carry the
/// remaining segments, splitting a segment strictly only when it alone is too
/// wide. Empty segments are dropped, so the concatenation of the lines is the
/// prefix followed by the rest of the path with separator runs collapsed and
/// trailing separators removed.
#[verifier::rlimit(100)]
pub fn wrap_path_with_prefix(s: &str, prefix: &str, max_width: usize) -> (r: Vec<String>)
    requires
        is_char_prefix(s@, prefix@),
    ensures
        r.deep_view().flatten() == prefix@ + squash(s@.skip(prefix@.len() as int)),
        no_empty_lines(r.deep_view()),
        all_chars_fit(s@, max_width as nat) && seq_width(prefix@) <= max_width ==> all_lines_fit(
            r.deep_view(),
            max_width as nat,
        ),
        prefix@.len() > 0 ==> r@.len() > 0 && is_char_prefix(r.deep_view()[0], prefix@),
{
    broadcast use Seq::group_seq_flatten;

    let n = s.unicode_len();
    let plen = prefix.unicode_len();
    let ghost target = prefix@ + squash(s@.skip(plen as int));
    let ghost fit_hyp = all_chars_fit(s@, max_width as nat) && seq_width(prefix@) <= max_width;
    let mut lines: Vec<String> = Vec::new();
    let mut current: String = prefix.to_owned();
    let mut pos: usize = plen;
    proof {
        assert(lines.deep_view() =~= Seq::<Seq<char>>::empty());
        assert(lines.deep_view().flatten() =~= Seq::<char>::empty());
        assert(s@.subrange(pos as int, n as int) =~= s@.skip(plen as int));
        assert(Seq::<char>::empty() + current@ + squash(s@.skip(plen as int)) =~= target);
        assert(current@.take(plen as int) =~= prefix@);
    }
    while pos < n
        invariant
            n == s@.len(),
            plen == prefix@.len(),
            plen <= pos <= n,
            is_char_prefix(s@, prefix@),
            target == prefix@ + squash(s@.skip(plen as int)),
            fit_hyp == (all_chars_fit(s@, max_width as nat) && seq_width(prefix@) <= max_width),
            lines.deep_view().flatten() + current@ + squash(s@.subrange(pos as int, n as int))
                == target,
            no_empty_lines(lines.deep_view()),
            fit_hyp ==> all_lines_fit(lines.deep_view(), max_width as nat) && seq_width(current@)
                <= max_width,
            pos == plen ==> current@ == prefix@ && lines@.len() == 0,
            pos == plen || pos == n || s@[pos as int] == '/',
            plen > 0 ==> first_line_keeps_prefix(lines.deep_view(), current@, prefix@),
        decreases n - pos,
    {
        // skip runs of separators
        let mut p: usize = pos;
        while p < n && s.get_char(p) == '/'
            invariant
                n == s@.len(),
                pos <= p <= n,
                forall|j: int| pos <= j < p ==> s@[j] == '/',
            decreases n - p,
        {
            p = p + 1;
        }
        if p == n {
            proof {
                if pos < n {
                    lemma_squash_all_slashes(s@.subrange(pos as int, n as int));
                } else {
                    assert(s@.subrange(pos as int, n as int) =~= Seq::<char>::empty());
                }
                assert(squash(s@.subrange(pos as int, n as int)) =~= Seq::<char>::empty());
                assert(s@.subrange(n as int, n as int) =~= Seq::<char>::empty());
            }
            pos = n;
        } else {
            let seg_start = p;
            let mut e: usize = p;
            while e < n && s.get_char(e) != '/'
                invariant
                    n == s@.len(),
                    seg_start <= e <= n,
                    forall|j: int| seg_start <= j < e ==> s@[j] != '/',
                decreases n - e,
            {
                e = e + 1;
            }
            proof {
                assert(s@[seg_start as int] != '/');
                if pos == seg_start && pos != plen {
                    assert(s@[pos as int] == '/');
                    assert(false);
                }
                lemma_squash_peel(s@, plen as int, pos as int, seg_start as int, e as int);
            }
            let ghost pre_flat = lines.deep_view().flatten();
            let ghost pre_cur = current@;
            wrap_append_segment(&mut lines, &mut current, s, prefix, seg_start, e, max_width);
            proof {
                assert(lines.deep_view().flatten() + current@ + squash(
                    s@.subrange(e as int, n as int),
                ) =~= target);
            }
            pos = e;
        }
    }
    proof {
        assert(s@.subrange(n as int, n as int) =~= Seq::<char>::empty());
        assert(lines.deep_view().flatten() + current@ == target);
    }
    let ghost pre_cur = current@;
    let ghost pre_dv = lines.deep_view();
    flush_current(&mut lines, &mut current);
    proof {
        if plen > 0 {
            assert(target.len() >= plen);
            if lines.deep_view().len() == 0 {
                assert(lines.deep_view().flatten() =~= Seq::<char>::empty());
                assert(false);
            }
            if pre_dv.len() == 0 {
                assert(pre_cur.len() > 0);
                assert(lines.deep_view()[0] == pre_cur);
            }
        }
    }
    lines
}

/// The scheme prefix the dialog wrapper recognizes.
pub open spec fn s3_uri_prefix() -> Seq<char> {
    "s3://"@
}

/// Wrap a storage path for a fixed-width dialog. A path that already fits
/// stays a single line; a too-wide path with the bucket-URI scheme is wrapped
/// segment-aware; any other too-wide string is cut strictly at the column
/// limit.
pub fn wrap_s3_path_for_dialog(s: &str, max_width: usize) -> (r: Vec<String>)
    ensures
        seq_width(s@) <= max_width ==> r.deep_view() == seq![s@],
        seq_width(s@) > max_width && !is_char_prefix(s@, s3_uri_prefix()) ==> r.deep_view().flatten()
            == s@,
        seq_width(s@) > max_width && is_char_prefix(s@, s3_uri_prefix()) ==> r.deep_view().flatten()
            == s3_uri_prefix() + squash(s@.skip(s3_uri_prefix().len() as int)),
        s@.len() > 0 ==> no_empty_lines(r.deep_view()),
        all_chars_fit(s@, max_width as nat) && (is_char_prefix(s@, s3_uri_prefix()) ==> seq_width(
            s3_uri_prefix(),
        ) <= max_width) ==> all_lines_fit(r.deep_view(), max_width as nat),
{
    let w = display_width_of_str(s);
    if w <= max_width as u128 {
        let mut lines: Vec<String> = Vec::new();
        let line = s.to_owned();
        let ghost lv = line@;
        lines.push(line);
        proof {
            assert(lines.deep_view() =~= seq![s@]);
        }
        return lines;
    }
    let pref = "s3://";
    proof {
        assert(pref@ == s3_uri_prefix());
    }
    if str_starts_with(s, pref) {
        wrap_path_with_prefix(s, pref, max_width)
    } else {
        let r = wrap_strict_by_char_width(s, max_width);
        proof {
            assert(s@.len() > 0) by {
                if s@.len() == 0 {
                    assert(seq_width(s@) == 0);
                }
            }
        }
        r
    }
}

/// Wrapping loses nothing: when the rest of a scheme-prefixed path has no
/// doubled and no trailing separator, the prefix followed by its squashed
/// rest is the path itself — so by the wrapper's contract the produced lines
/// concatenate back to the original string exactly; for strings without the
/// scheme prefix they always do.
pub proof fn lemma_wrap_path_round_trip(s: Seq<char>)
    requires
        is_char_prefix(s, s3_uri_prefix()),
        path_rest_clean(s.skip(s3_uri_prefix().len() as int)),
    ensures
        s3_uri_prefix() + squash(s.skip(s3_uri_prefix().len() as int)) == s,
{
    let plen = s3_uri_prefix().len() as int;
    lemma_squash_clean_identity(s.skip(plen));
    assert(s.take(plen) + s.skip(plen) =~= s);
}

} // verus!
