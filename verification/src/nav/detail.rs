//! The hover detail card's content: which blocks it draws, in which order,
//! and the words of each — the title, the quoted ask, the reply line or the
//! attention box that replaces it, the meta row and the path footer.
use vstd::prelude::*;

use crate::ink::InkRole;
use crate::nav::rows::status_sentence;
use crate::nav::types::{RowStatus, RowStatusKind};
use crate::text::{
    chars_of, decimal, decimal_chars, extend_chars, extend_str, is_blank, is_space,
    lemma_lines_hold_no_line_feed, lemma_trim_is_trimmed, line_ranges, lines, slice_chars, string_from, trim, trim_end,
    trim_end_at, trim_range, trim_start, trimmed,
};

verus! {

broadcast use vstd::string::group_string_axioms;

/// How many newline-separated lines the quoted ask keeps; further lines are
/// dropped with an ellipsis.
pub const SESSION_DETAIL_ASK_LINES: usize = 2;

/// How many newline-separated lines the attention box keeps; further lines
/// are dropped with an ellipsis.
pub const SESSION_DETAIL_ATTENTION_LINES: usize = 3;

/// The lines of `ls` that still hold something once their trailing white
/// space is cut, cut so, in order.
pub open spec fn kept_lines(ls: Seq<Seq<char>>) -> Seq<Seq<char>>
    decreases ls.len(),
{
    if ls.len() == 0 {
        seq![]
    } else {
        let rest = kept_lines(ls.drop_last());
        let l = trim_end(ls.last());
        if l.len() > 0 {
            rest.push(l)
        } else {
            rest
        }
    }
}

/// `ls` joined with line feeds.
pub open spec fn join_lines(ls: Seq<Seq<char>>) -> Seq<char>
    decreases ls.len(),
{
    if ls.len() == 0 {
        seq![]
    } else if ls.len() == 1 {
        ls[0]
    } else {
        join_lines(ls.drop_last()) + seq!['\n'] + ls.last()
    }
}

/// The first `max` non-blank lines of `s`, joined and trimmed; an ellipsis
/// marks lines dropped past the budget.
pub open spec fn excerpt(s: Seq<char>, max: nat) -> Seq<char> {
    let kept = kept_lines(lines(s));
    let n = if max < kept.len() {
        max as int
    } else {
        kept.len() as int
    };
    let out = trim(join_lines(kept.take(n)));
    if kept.len() > max && out.len() > 0 {
        out.push('…')
    } else {
        out
    }
}

/// The first line of `s`, trimmed; empty when `s` has no line.
pub open spec fn first_line_of(s: Seq<char>) -> Seq<char> {
    if lines(s).len() == 0 {
        seq![]
    } else {
        trim(lines(s)[0])
    }
}

/// The reply line is one line: it holds no line feed, neither starts nor
/// ends in white space, and is the text's first line once trimmed (empty
/// only when that line is blank or there is none).
pub proof fn lemma_first_line_is_one_trimmed_line(s: Seq<char>)
    ensures
        forall|j: int| 0 <= j < first_line_of(s).len() ==> first_line_of(s)[j] != '\n',
        first_line_of(s).len() > 0 ==> !is_space(first_line_of(s)[0]) && !is_space(first_line_of(s).last()),
        lines(s).len() > 0 ==> first_line_of(s) == trim(lines(s)[0]),
{
    lemma_lines_hold_no_line_feed(s);
    if lines(s).len() > 0 {
        let l = lines(s)[0];
        lemma_trim_is_trimmed(l);
        let t = trim(l);
        let a = trim_start(l);
        lemma_trim_start_keeps_the_end(l);
        lemma_trim_end_prefix(a);
        assert forall|j: int| 0 <= j < t.len() implies t[j] != '\n' by {
            assert(t[j] == a[j]);
            assert(a[j] == l[l.len() - a.len() + j]);
            assert(l[l.len() - a.len() + j] == lines(s)[0][l.len() - a.len() + j]);
        }
    }
}

proof fn lemma_trim_start_keeps_the_end(l: Seq<char>)
    ensures
        trim_start(l) == l.skip(l.len() - trim_start(l).len()),
        trim_start(l).len() <= l.len(),
    decreases l.len(),
{
    if l.len() > 0 && is_space(l[0]) {
        lemma_trim_start_keeps_the_end(l.drop_first());
        assert(l.drop_first().skip(l.len() - 1 - trim_start(l).len()) == l.skip(l.len() - trim_start(l).len()));
    } else {
        assert(l.skip(0) == l);
    }
}

/// The first line of `text`, trimmed — the reply line never wraps.
pub fn first_line(text: &str) -> (out: String)
    ensures
        out@ == first_line_of(text@),
{
    let c = chars_of(text);
    let ranges = line_ranges(&c);
    if ranges.len() == 0 {
        return string_from(&Vec::new());
    }
    let (a, b) = ranges[0];
    assert(lines(c@)[0] == c@.subrange(a as int, b as int));
    let (lo, hi) = trim_range(&c, a, b);
    let t = slice_chars(&c, lo, hi);
    string_from(&t)
}

/// The first `max` newline-separated lines of `text`, trimmed at the ends;
/// an ellipsis marks lines dropped past the budget.
pub fn first_lines(text: &str, max: usize) -> (out: String)
    ensures
        out@ == excerpt(text@, max as nat),
{
    let c = chars_of(text);
    let ranges = line_ranges(&c);
    let mut kept: Vec<(usize, usize)> = Vec::new();
    assert(kept@.map_values(|r: (usize, usize)| c@.subrange(r.0 as int, r.1 as int)) == kept_lines(
        lines(c@).take(0),
    ));
    assert forall|k: int| 0 <= k < ranges@.len() implies #[trigger] ranges@[k].0 <= ranges@[k].1 <= c@.len() by {
        assert(lines(c@)[k] == c@.subrange(ranges@[k].0 as int, ranges@[k].1 as int));
    }
    assert forall|k: int| 0 <= k < ranges@.len() implies #[trigger] lines(c@)[k] == c@.subrange(ranges@[k].0 as int, ranges@[k].1 as int) by {
    }
    for i in 0..ranges.len()
        invariant
            ranges@.len() == lines(c@).len(),
            forall|k: int|
                0 <= k < ranges@.len() ==> {
                    &&& ranges@[k].0 <= ranges@[k].1 <= c@.len()
                    &&& #[trigger] lines(c@)[k] == c@.subrange(ranges@[k].0 as int, ranges@[k].1 as int)
                },
            kept@.map_values(|r: (usize, usize)| c@.subrange(r.0 as int, r.1 as int)) == kept_lines(
                lines(c@).take(i as int),
            ),
            forall|k: int| #![trigger kept@[k]] 0 <= k < kept@.len() ==> kept@[k].0 <= kept@[k].1 <= c@.len(),
    {
        let ghost ls = lines(c@);
        let (a, b) = ranges[i];
        assert(ls[i as int] == c@.subrange(a as int, b as int));
        let e = trim_end_at(&c, a, b);
        let ghost before = kept@;
        assert(ls.take(i + 1).drop_last() == ls.take(i as int));
        assert(ls.take(i + 1).last() == ls[i as int]);
        if e > a {
            kept.push((a, e));
            assert(kept@.map_values(|r: (usize, usize)| c@.subrange(r.0 as int, r.1 as int))
                == before.map_values(|r: (usize, usize)| c@.subrange(r.0 as int, r.1 as int)).push(
                c@.subrange(a as int, e as int),
            ));
        }
    }
    let ghost ls = lines(c@);
    assert(ls.take(ranges@.len() as int) == ls);
    let ghost kl = kept_lines(ls);
    let ghost kv = kept@.map_values(|r: (usize, usize)| c@.subrange(r.0 as int, r.1 as int));
    assert(kv == kl);
    let take = if max < kept.len() {
        max
    } else {
        kept.len()
    };
    let mut out: Vec<char> = Vec::new();
    for j in 0..take
        invariant
            take <= kept@.len(),
            kv == kl,
            kv == kept@.map_values(|r: (usize, usize)| c@.subrange(r.0 as int, r.1 as int)),
            forall|k: int| #![trigger kept@[k]] 0 <= k < kept@.len() ==> kept@[k].0 <= kept@[k].1 <= c@.len(),
            out@ == join_lines(kl.take(j as int)),
    {
        if j > 0 {
            out.push('\n');
        }
        let (a, e) = kept[j];
        let piece = slice_chars(&c, a, e);
        let ghost prev = out@;
        extend_chars(&mut out, &piece);
        assert(kv[j as int] == c@.subrange(a as int, e as int));
        assert(kl.take(j + 1).drop_last() == kl.take(j as int));
        assert(kl.take(j + 1).last() == kl[j as int]);
        if j == 0 {
            assert(kl.take(1) == seq![kl[0]]);
            assert(out@ == prev + piece@);
        }
    }
    let (lo, hi) = trim_range(&out, 0, out.len());
    assert(out@.subrange(0, out@.len() as int) == out@);
    let mut res = slice_chars(&out, lo, hi);
    if kept.len() > max && res.len() > 0 {
        res.push('…');
    }
    string_from(&res)
}

/// Whether `l` is a line the card can show: not empty, and without a line
/// feed.
pub open spec fn plain_line(l: Seq<char>) -> bool {
    l.len() > 0 && forall|j: int| 0 <= j < l.len() ==> l[j] != '\n'
}

/// A plain line that ends in something other than white space.
spec fn kept_line(l: Seq<char>) -> bool {
    plain_line(l) && !is_space(l.last())
}

proof fn lemma_trim_end_prefix(x: Seq<char>)
    ensures
        trim_end(x) == x.take(trim_end(x).len() as int),
        trim_end(x).len() <= x.len(),
        trim_end(x).len() > 0 ==> !is_space(trim_end(x).last()),
    decreases x.len(),
{
    if x.len() > 0 && is_space(x.last()) {
        lemma_trim_end_prefix(x.drop_last());
        assert(x.drop_last().take(trim_end(x).len() as int) == x.take(trim_end(x).len() as int));
    } else {
        assert(x.take(x.len() as int) == x);
    }
}

proof fn lemma_trim_end_of_kept(x: Seq<char>)
    requires
        x.len() > 0,
        !is_space(x.last()),
    ensures
        trim_end(x) == x,
{
}

proof fn lemma_trim_start_suffix(a: Seq<char>)
    requires
        a.len() > 0,
        !is_space(a.last()),
    ensures
        0 < trim_start(a).len() <= a.len(),
        trim_start(a) == a.skip(a.len() - trim_start(a).len()),
        trim_start(a).last() == a.last(),
    decreases a.len(),
{
    if is_space(a[0]) {
        lemma_trim_start_suffix(a.drop_first());
        assert(a.drop_first().skip(a.len() - 1 - trim_start(a).len()) == a.skip(a.len() - trim_start(a).len()));
    } else {
        assert(a.skip(0) == a);
    }
}

proof fn lemma_trim_start_concat(a: Seq<char>, b: Seq<char>)
    requires
        a.len() > 0,
        !is_space(a.last()),
    ensures
        trim_start(a + b) == trim_start(a) + b,
    decreases a.len(),
{
    if is_space(a[0]) {
        assert((a + b)[0] == a[0]);
        assert((a + b).drop_first() == a.drop_first() + b);
        lemma_trim_start_concat(a.drop_first(), b);
    } else {
        assert((a + b)[0] == a[0]);
    }
}

proof fn lemma_kept_lines_kept(ls: Seq<Seq<char>>)
    requires
        forall|k: int, j: int| 0 <= k < ls.len() && 0 <= j < ls[k].len() ==> #[trigger] ls[k][j] != '\n',
    ensures
        forall|i: int| 0 <= i < kept_lines(ls).len() ==> kept_line(#[trigger] kept_lines(ls)[i]),
        kept_lines(ls).len() <= ls.len(),
    decreases ls.len(),
{
    if ls.len() > 0 {
        let rest = ls.drop_last();
        assert forall|k: int, j: int| 0 <= k < rest.len() && 0 <= j < rest[k].len() implies #[trigger] rest[k][j]
            != '\n' by {
            assert(rest[k] == ls[k]);
        }
        lemma_kept_lines_kept(rest);
        let x = ls.last();
        lemma_trim_end_prefix(x);
        let l = trim_end(x);
        if l.len() > 0 {
            assert forall|j: int| 0 <= j < l.len() implies l[j] != '\n' by {
                assert(l[j] == ls[ls.len() - 1][j]);
            }
            let kr = kept_lines(rest);
            assert forall|i: int| 0 <= i < kept_lines(ls).len() implies kept_line(#[trigger] kept_lines(ls)[i]) by {
                if i < kr.len() {
                    assert(kept_lines(ls)[i] == kr[i]);
                }
            }
        }
    }
}

proof fn lemma_join_head(ks: Seq<Seq<char>>, x: Seq<char>)
    requires
        ks.len() > 0,
    ensures
        join_lines(ks) == ks[0] + join_lines(ks).skip(ks[0].len() as int),
        join_lines(ks.update(0, x)) == x + join_lines(ks).skip(ks[0].len() as int),
    decreases ks.len(),
{
    if ks.len() == 1 {
        assert(ks[0].skip(ks[0].len() as int) == Seq::<char>::empty());
    } else {
        let d = ks.drop_last();
        lemma_join_head(d, x);
        assert(ks.update(0, x).drop_last() == d.update(0, x));
        assert(ks.update(0, x).last() == ks.last());
        let jd = join_lines(d);
        assert(join_lines(ks) == jd + seq!['\n'] + ks.last());
        assert((jd + seq!['\n'] + ks.last()).skip(ks[0].len() as int) == jd.skip(ks[0].len() as int) + seq!['\n']
            + ks.last());
    }
}

proof fn lemma_join_last(ks: Seq<Seq<char>>, c: char)
    requires
        ks.len() > 0,
    ensures
        join_lines(ks.update(ks.len() - 1, ks.last().push(c))) == join_lines(ks).push(c),
{
    let u = ks.update(ks.len() - 1, ks.last().push(c));
    if ks.len() > 1 {
        assert(u.drop_last() == ks.drop_last());
    }
}

proof fn lemma_join_ends(ks: Seq<Seq<char>>)
    requires
        ks.len() > 0,
        ks.last().len() > 0,
    ensures
        join_lines(ks).len() > 0,
        join_lines(ks).last() == ks.last().last(),
{
}

/// The quoted ask and the attention box never show an empty line, nor more
/// lines than their budget: the excerpt is at most `max` non-empty lines
/// without line feeds, joined by line feeds (the ellipsis, when there is one,
/// closes the last of them).
pub proof fn lemma_excerpt_lines(s: Seq<char>, max: nat)
    ensures
        exists|ms: Seq<Seq<char>>|
            {
                &&& ms.len() <= max
                &&& forall|i: int| 0 <= i < ms.len() ==> plain_line(#[trigger] ms[i])
                &&& excerpt(s, max) == join_lines(ms)
            },
{
    let ls = lines(s);
    lemma_lines_hold_no_line_feed(s);
    lemma_kept_lines_kept(ls);
    let kl = kept_lines(ls);
    let n = if max < kl.len() {
        max as int
    } else {
        kl.len() as int
    };
    let ks = kl.take(n);
    assert forall|i: int| 0 <= i < ks.len() implies kept_line(#[trigger] ks[i]) by {
        assert(ks[i] == kl[i]);
    }
    if n == 0 {
        assert(ks == Seq::<Seq<char>>::empty());
        let ms = Seq::<Seq<char>>::empty();
        assert(excerpt(s, max) == join_lines(ms));
        assert(ms.len() <= max);
    } else {
        let f = trim_start(ks[0]);
        assert(kept_line(ks[0]));
        lemma_trim_start_suffix(ks[0]);
        lemma_trim_start_concat(ks[0], join_lines(ks).skip(ks[0].len() as int));
        lemma_join_head(ks, f);
        let ms0 = ks.update(0, f);
        assert(trim_start(join_lines(ks)) == join_lines(ms0));
        assert forall|i: int| 0 <= i < ms0.len() implies kept_line(#[trigger] ms0[i]) by {
            if i == 0 {
                assert forall|j: int| 0 <= j < f.len() implies f[j] != '\n' by {
                    assert(f[j] == ks[0][ks[0].len() - f.len() + j]);
                }
            } else {
                assert(ms0[i] == ks[i]);
            }
        }
        assert(kept_line(ms0.last()));
        lemma_join_ends(ms0);
        lemma_trim_end_of_kept(join_lines(ms0));
        let out = trim(join_lines(ks));
        assert(out == join_lines(ms0));
        if kl.len() > max && out.len() > 0 {
            let ms = ms0.update(ms0.len() - 1, ms0.last().push('…'));
            lemma_join_last(ms0, '…');
            assert forall|i: int| 0 <= i < ms.len() implies plain_line(#[trigger] ms[i]) by {
                if i == ms.len() - 1 {
                    let l = ms0.last();
                    assert forall|j: int| 0 <= j < ms[i].len() implies ms[i][j] != '\n' by {
                        if j < l.len() {
                            assert(ms[i][j] == l[j]);
                        }
                    }
                } else {
                    assert(ms[i] == ms0[i]);
                }
            }
            assert(excerpt(s, max) == join_lines(ms));
        } else {
            assert forall|i: int| 0 <= i < ms0.len() implies plain_line(#[trigger] ms0[i]) by {
                assert(kept_line(ms0[i]));
            }
            assert(excerpt(s, max) == join_lines(ms0));
        }
    }
}

/// The header's age from the caller's `updated` words: `12m ago` reads
/// `12m`, anything without the trailing ` ago` stays as it is.
pub open spec fn age_of(updated: Seq<char>) -> Seq<char> {
    if updated.len() >= 4 && updated.skip(updated.len() - 4) == " ago"@ {
        updated.take(updated.len() - 4)
    } else {
        updated
    }
}

/// The header's age drops a trailing ` ago` and nothing else: put back, the
/// words are the caller's again; words without it stand as they are.
pub proof fn lemma_age_drops_only_ago(updated: Seq<char>)
    ensures
        (updated.len() >= 4 && updated.skip(updated.len() - 4) == " ago"@) ==> age_of(updated) + " ago"@
            == updated,
        !(updated.len() >= 4 && updated.skip(updated.len() - 4) == " ago"@) ==> age_of(updated) == updated,
        age_of(updated).len() <= updated.len(),
        age_of(updated) == updated.take(age_of(updated).len() as int),
{
    reveal_strlit(" ago");
    if updated.len() >= 4 && updated.skip(updated.len() - 4) == " ago"@ {
        let a = age_of(updated);
        assert(a + " ago"@ == updated);
        assert(updated.take(a.len() as int) == a);
    } else {
        assert(updated.take(updated.len() as int) == updated);
    }
}

/// The header's age from the caller's `updated` words (`str::strip_suffix`
/// of ` ago`).
pub fn age_text(updated: &str) -> (out: String)
    ensures
        out@ == age_of(updated@),
{
    let c = chars_of(updated);
    let suffix = chars_of(" ago");
    proof {
        reveal_strlit(" ago");
    }
    let n = c.len();
    if n >= 4 {
        let tail = slice_chars(&c, n - 4, n);
        if tail[0] == ' ' && tail[1] == 'a' && tail[2] == 'g' && tail[3] == 'o' {
            assert(tail@ == suffix@);
            assert(c@.skip(n - 4) == tail@);
            let head = slice_chars(&c, 0, n - 4);
            assert(c@.take(n - 4) == head@);
            return string_from(&head);
        }
        assert(c@.skip(n - 4) == tail@);
        assert(tail@ != suffix@) by {
            if tail@ == suffix@ {
                assert(tail@[0] == suffix@[0]);
                assert(tail@[1] == suffix@[1]);
                assert(tail@[2] == suffix@[2]);
                assert(tail@[3] == suffix@[3]);
            }
        }
    }
    string_from(&c)
}

/// The hover detail's caller-supplied content. Every field is optional, and
/// only set fields draw.
#[derive(Debug, PartialEq)]
pub struct SessionDetailData {
    /// Full title, wrapping, never truncated.
    pub title: Option<String>,
    /// The owner's last message, quoted and muted, up to two lines.
    pub ask: Option<String>,
    /// The latest reply: its first line draws in the state colour — unless
    /// the session waits on the owner, when the attention box replaces it.
    pub reply: Option<String>,
    /// Status with its detail; picks the reply line's colour and, when the
    /// session waits on the owner, the attention box's label.
    pub status: Option<RowStatus>,
    /// Project name: merges with [`Self::workspace`] into the footer.
    pub project: Option<String>,
    /// Branch name, on the meta row.
    pub branch: Option<String>,
    /// Turn count, on the meta row as a bare number.
    pub turns: Option<usize>,
    /// When it last changed, in the caller's words (`12m ago`).
    pub updated: Option<String>,
    /// Workspace path: merges with [`Self::project`] into the footer.
    pub workspace: Option<String>,
    /// The pending question's prompt.
    pub pending_question: Option<String>,
    /// The pending approval's exact command; wins over the question.
    pub pending_approval: Option<String>,
}

/// The hover detail card. Build with [`session_detail`].
#[derive(Debug, PartialEq)]
pub struct SessionDetail {
    /// The card's element id.
    pub id: String,
    /// The content.
    pub data: SessionDetailData,
}

/// Empty detail content; fill with the builder methods on
/// [`SessionDetail`].
pub fn session_detail(id: &str) -> (d: SessionDetail)
    ensures
        d.id@ == id@,
        d.data.title is None,
        d.data.ask is None,
        d.data.reply is None,
        d.data.status is None,
        d.data.project is None,
        d.data.branch is None,
        d.data.turns is None,
        d.data.updated is None,
        d.data.workspace is None,
        d.data.pending_question is None,
        d.data.pending_approval is None,
{
    SessionDetail {
        id: id.to_string(),
        data: SessionDetailData {
            title: None,
            ask: None,
            reply: None,
            status: None,
            project: None,
            branch: None,
            turns: None,
            updated: None,
            workspace: None,
            pending_question: None,
            pending_approval: None,
        },
    }
}

/// `s` as an owned string, wrapped.
fn some_text(s: &str) -> (o: Option<String>)
    ensures
        o matches Some(t) && t@ == s@,
{
    Some(s.to_string())
}

impl SessionDetail {
    /// The full title.
    pub fn title(self, title: &str) -> (d: Self)
        ensures
            d.id == self.id,
            d.data == (SessionDetailData { title: d.data.title, ..self.data }),
            d.data.title matches Some(t) && t@ == title@,
    {
        SessionDetail { data: SessionDetailData { title: some_text(title), ..self.data }, ..self }
    }

    /// The owner's last message.
    pub fn ask(self, ask: &str) -> (d: Self)
        ensures
            d.id == self.id,
            d.data == (SessionDetailData { ask: d.data.ask, ..self.data }),
            d.data.ask matches Some(t) && t@ == ask@,
    {
        SessionDetail { data: SessionDetailData { ask: some_text(ask), ..self.data }, ..self }
    }

    /// The latest reply.
    pub fn reply(self, reply: &str) -> (d: Self)
        ensures
            d.id == self.id,
            d.data == (SessionDetailData { reply: d.data.reply, ..self.data }),
            d.data.reply matches Some(t) && t@ == reply@,
    {
        SessionDetail { data: SessionDetailData { reply: some_text(reply), ..self.data }, ..self }
    }

    /// The status with its detail.
    pub fn status(self, kind: RowStatusKind, detail: &str) -> (d: Self)
        ensures
            d.id == self.id,
            d.data == (SessionDetailData { status: d.data.status, ..self.data }),
            d.data.status matches Some(st) && st.kind == kind && st.detail@ == detail@,
    {
        SessionDetail {
            data: SessionDetailData { status: Some(RowStatus::new(kind, detail)), ..self.data },
            ..self
        }
    }

    /// The project name.
    pub fn project(self, project: &str) -> (d: Self)
        ensures
            d.id == self.id,
            d.data == (SessionDetailData { project: d.data.project, ..self.data }),
            d.data.project matches Some(t) && t@ == project@,
    {
        SessionDetail { data: SessionDetailData { project: some_text(project), ..self.data }, ..self }
    }

    /// The branch name.
    pub fn branch(self, branch: &str) -> (d: Self)
        ensures
            d.id == self.id,
            d.data == (SessionDetailData { branch: d.data.branch, ..self.data }),
            d.data.branch matches Some(t) && t@ == branch@,
    {
        SessionDetail { data: SessionDetailData { branch: some_text(branch), ..self.data }, ..self }
    }

    /// The turn count.
    pub fn turns(self, turns: usize) -> (d: Self)
        ensures
            d.id == self.id,
            d.data == (SessionDetailData { turns: Some(turns), ..self.data }),
    {
        SessionDetail { data: SessionDetailData { turns: Some(turns), ..self.data }, ..self }
    }

    /// When it last changed, in the caller's words (`12m ago`).
    pub fn updated(self, updated: &str) -> (d: Self)
        ensures
            d.id == self.id,
            d.data == (SessionDetailData { updated: d.data.updated, ..self.data }),
            d.data.updated matches Some(t) && t@ == updated@,
    {
        SessionDetail { data: SessionDetailData { updated: some_text(updated), ..self.data }, ..self }
    }

    /// The workspace path.
    pub fn workspace(self, workspace: &str) -> (d: Self)
        ensures
            d.id == self.id,
            d.data == (SessionDetailData { workspace: d.data.workspace, ..self.data }),
            d.data.workspace matches Some(t) && t@ == workspace@,
    {
        SessionDetail {
            data: SessionDetailData { workspace: some_text(workspace), ..self.data },
            ..self
        }
    }

    /// The pending question's prompt.
    pub fn pending_question(self, question: &str) -> (d: Self)
        ensures
            d.id == self.id,
            d.data == (SessionDetailData { pending_question: d.data.pending_question, ..self.data }),
            d.data.pending_question matches Some(t) && t@ == question@,
    {
        SessionDetail {
            data: SessionDetailData { pending_question: some_text(question), ..self.data },
            ..self
        }
    }

    /// The pending approval's exact command.
    pub fn pending_approval(self, command: &str) -> (d: Self)
        ensures
            d.id == self.id,
            d.data == (SessionDetailData { pending_approval: d.data.pending_approval, ..self.data }),
            d.data.pending_approval matches Some(t) && t@ == command@,
    {
        SessionDetail {
            data: SessionDetailData { pending_approval: some_text(command), ..self.data },
            ..self
        }
    }

    /// The data behind this card.
    pub fn data(self) -> (d: SessionDetailData)
        ensures
            d == self.data,
    {
        self.data
    }
}

/// Whether `text` is worth a row: present and non-blank.
pub open spec fn has_text(text: Option<String>) -> bool {
    text matches Some(t) && !is_blank(t@)
}

fn text_present(text: &Option<String>) -> (b: bool)
    ensures
        b == has_text(*text),
{
    match text {
        Some(t) => !crate::text::blank(t.as_str()),
        None => false,
    }
}

/// Whether a status kind waits on the owner.
pub open spec fn waits(kind: RowStatusKind) -> bool {
    kind == RowStatusKind::Asked || kind == RowStatusKind::NeedsApproval
}

/// The pending words the attention box would carry: for an approval, the
/// approval command (else the question); for a question, the question
/// (else the command); nothing for any other status.
pub open spec fn explicit_words(d: SessionDetailData) -> Option<String> {
    match d.status {
        Some(st) => match st.kind {
            RowStatusKind::NeedsApproval => if d.pending_approval is Some {
                d.pending_approval
            } else {
                d.pending_question
            },
            RowStatusKind::Asked => if d.pending_question is Some {
                d.pending_question
            } else {
                d.pending_approval
            },
            _ => None,
        },
        None => None,
    }
}

/// The attention box's words: the explicit pending words, trimmed, when
/// they hold something; else, for a waiting status, its trimmed detail when
/// that holds something.
pub open spec fn attention_words(d: SessionDetailData) -> Option<Seq<char>> {
    match d.status {
        None => None,
        Some(st) => match explicit_words(d) {
            Some(w) if trim(w@).len() > 0 => Some(trim(w@)),
            _ => if waits(st.kind) && trim(st.detail@).len() > 0 {
                Some(trim(st.detail@))
            } else {
                None
            },
        },
    }
}

/// The attention box's label for a status kind.
pub open spec fn attention_label(kind: RowStatusKind) -> Seq<char> {
    if kind == RowStatusKind::NeedsApproval {
        "Needs approval:"@
    } else {
        "Asked:"@
    }
}

/// Which waiting state the card is in, if any: the box's label and its
/// words. The explicit pending fields win over the status detail; approval
/// wins over the question.
pub fn attention_for(data: &SessionDetailData) -> (a: Option<(&'static str, String)>)
    ensures
        match attention_words(*data) {
            Some(w) => a matches Some((label, words)) && words@ == w && label@ == attention_label(
                data.status.unwrap().kind,
            ),
            None => a is None,
        },
{
    let status = match &data.status {
        Some(st) => st,
        None => return None,
    };
    let explicit: Option<&String> = match status.kind {
        RowStatusKind::NeedsApproval => if data.pending_approval.is_some() {
            data.pending_approval.as_ref()
        } else {
            data.pending_question.as_ref()
        },
        RowStatusKind::Asked => if data.pending_question.is_some() {
            data.pending_question.as_ref()
        } else {
            data.pending_approval.as_ref()
        },
        _ => None,
    };
    let mut words: Option<Vec<char>> = None;
    if let Some(w) = explicit {
        let t = trimmed(w.as_str());
        if t.len() > 0 {
            words = Some(t);
        }
    }
    if words.is_none() {
        match status.kind {
            RowStatusKind::Asked | RowStatusKind::NeedsApproval => {
                let t = trimmed(status.detail.as_str());
                if t.len() > 0 {
                    words = Some(t);
                }
            },
            _ => {},
        }
    }
    match words {
        Some(w) => {
            let label = match status.kind {
                RowStatusKind::NeedsApproval => "Needs approval:",
                _ => "Asked:",
            };
            Some((label, string_from(&w)))
        },
        None => None,
    }
}

proof fn lemma_contains_concat(a: Seq<Seq<char>>, b: Seq<Seq<char>>, x: Seq<char>)
    requires
        (a + b).contains(x),
    ensures
        a.contains(x) || b.contains(x),
{
    let i = choose|i: int| 0 <= i < (a + b).len() && (a + b)[i] == x;
    if i < a.len() {
        assert(a[i] == x);
    } else {
        assert(b[i - a.len()] == x);
    }
}

/// The key a card block may be named by, when `cond` holds.
spec fn key_when(cond: bool, key: Seq<char>) -> Seq<Seq<char>> {
    if cond {
        seq![key]
    } else {
        seq![]
    }
}

proof fn lemma_key_when(cond: bool, key: Seq<char>, x: Seq<char>)
    requires
        key_when(cond, key).contains(x),
    ensures
        x == key,
{
}

proof fn lemma_in_two(a: Seq<char>, ca: bool, b: Seq<char>, cb: bool, x: Seq<char>)
    requires
        (key_when(ca, a) + key_when(cb, b)).contains(x),
    ensures
        x == a || x == b,
{
    lemma_contains_concat(key_when(ca, a), key_when(cb, b), x);
    if key_when(ca, a).contains(x) {
        lemma_key_when(ca, a, x);
    } else {
        lemma_key_when(cb, b, x);
    }
}

/// A waiting session is the only one that draws the attention box.
pub proof fn lemma_only_waiting_sessions_draw_the_box(d: SessionDetailData)
    ensures
        attention_words(d) is Some ==> (d.status matches Some(st) && waits(st.kind)),
{
}

/// What the attention box says is always meaningful: its words are
/// trimmed and not empty, it belongs to a waiting session, and its label is
/// `Needs approval:` exactly for an approval (else `Asked:`). Explicit
/// pending words that hold something win over the status detail.
pub proof fn lemma_attention_words_are_trimmed(d: SessionDetailData)
    ensures
        attention_words(d) matches Some(w) ==> {
            &&& w.len() > 0
            &&& trim(w) == w
            &&& d.status matches Some(st) && waits(st.kind)
        },
        d.status matches Some(st) ==> ((attention_label(st.kind) == "Needs approval:"@) <==> (st.kind
            == RowStatusKind::NeedsApproval)),
        explicit_words(d) matches Some(w) ==> (trim(w@).len() > 0 ==> attention_words(d) == Some(trim(w@))),
{
    reveal_strlit("Needs approval:");
    reveal_strlit("Asked:");
    if let Some(st) = d.status {
        if let Some(w) = explicit_words(d) {
            lemma_trim_is_trimmed(w@);
        }
        lemma_trim_is_trimmed(st.detail@);
        if st.kind != RowStatusKind::NeedsApproval {
            assert("Asked:"@.len() != "Needs approval:"@.len());
        }
    }
}

/// The card's keys over the eight decisions that pick them.
spec fn keys_of(
    title: bool,
    ask: bool,
    attention: bool,
    reply: bool,
    branch: bool,
    turns: bool,
    updated: bool,
    path: bool,
) -> Seq<Seq<char>> {
    key_when(title, "Title"@) + key_when(ask, "Ask"@) + (if attention {
        seq!["Attention"@]
    } else {
        key_when(reply, "Reply"@)
    }) + key_when(branch, "Branch"@) + key_when(turns, "Turns"@) + key_when(updated, "Updated"@) + key_when(
        path,
        "Path"@,
    )
}

proof fn lemma_keys_distinct()
    ensures
        "Attention"@ != "Title"@,
        "Attention"@ != "Ask"@,
        "Attention"@ != "Branch"@,
        "Attention"@ != "Turns"@,
        "Attention"@ != "Updated"@,
        "Attention"@ != "Path"@,
        "Attention"@ != "Reply"@,
        "Reply"@ != "Title"@,
        "Reply"@ != "Ask"@,
        "Reply"@ != "Branch"@,
        "Reply"@ != "Turns"@,
        "Reply"@ != "Updated"@,
        "Reply"@ != "Path"@,
{
    reveal_strlit("Attention");
    reveal_strlit("Reply");
    reveal_strlit("Title");
    reveal_strlit("Ask");
    reveal_strlit("Branch");
    reveal_strlit("Turns");
    reveal_strlit("Updated");
    reveal_strlit("Path");
    assert("Attention"@.len() != "Title"@.len());
    assert("Attention"@.len() != "Ask"@.len());
    assert("Attention"@.len() != "Branch"@.len());
    assert("Attention"@.len() != "Turns"@.len());
    assert("Attention"@.len() != "Updated"@.len());
    assert("Attention"@.len() != "Path"@.len());
    assert("Attention"@.len() != "Reply"@.len());
    assert("Reply"@[0] != "Title"@[0]);
    assert("Reply"@.len() != "Ask"@.len());
    assert("Reply"@.len() != "Branch"@.len());
    assert("Reply"@[0] != "Turns"@[0]);
    assert("Reply"@.len() != "Updated"@.len());
    assert("Reply"@.len() != "Path"@.len());
}

/// The middle block of the card: the attention box, or the reply line.
spec fn middle_key(attention: bool, reply: bool) -> Seq<Seq<char>> {
    if attention {
        seq!["Attention"@]
    } else {
        key_when(reply, "Reply"@)
    }
}

proof fn lemma_only_the_middle(
    title: bool,
    ask: bool,
    attention: bool,
    reply: bool,
    branch: bool,
    turns: bool,
    updated: bool,
    path: bool,
    x: Seq<char>,
)
    requires
        x == "Attention"@ || x == "Reply"@,
        keys_of(title, ask, attention, reply, branch, turns, updated, path).contains(x),
    ensures
        middle_key(attention, reply).contains(x),
{
    lemma_keys_distinct();
    let a = key_when(title, "Title"@);
    let b = key_when(ask, "Ask"@);
    let m = middle_key(attention, reply);
    let c = key_when(branch, "Branch"@);
    let d = key_when(turns, "Turns"@);
    let e = key_when(updated, "Updated"@);
    let f = key_when(path, "Path"@);
    assert(keys_of(title, ask, attention, reply, branch, turns, updated, path) == a + b + m + c + d + e + f);
    lemma_contains_concat(a + b + m + c + d + e, f, x);
    if f.contains(x) {
        lemma_key_when(path, "Path"@, x);
    }
    lemma_contains_concat(a + b + m + c + d, e, x);
    if e.contains(x) {
        lemma_key_when(updated, "Updated"@, x);
    }
    lemma_contains_concat(a + b + m + c, d, x);
    if d.contains(x) {
        lemma_key_when(turns, "Turns"@, x);
    }
    lemma_contains_concat(a + b + m, c, x);
    if c.contains(x) {
        lemma_key_when(branch, "Branch"@, x);
    }
    lemma_contains_concat(a + b, m, x);
    if (a + b).contains(x) {
        lemma_in_two("Title"@, title, "Ask"@, ask, x);
    }
}

/// The attention box replaces the reply line: a card never lists both.
pub proof fn lemma_the_box_replaces_the_reply(d: SessionDetailData)
    ensures
        !(spec_detail_keys(d).contains("Attention"@) && spec_detail_keys(d).contains("Reply"@)),
{
    let attention = attention_words(d) is Some;
    let reply = has_text(d.reply) || d.status is Some;
    let path = has_text(d.project) || has_text(d.workspace);
    let keys = keys_of(
        has_text(d.title),
        has_text(d.ask),
        attention,
        reply,
        has_text(d.branch),
        d.turns is Some,
        has_text(d.updated),
        path,
    );
    assert(spec_detail_keys(d) =~= keys);
    if keys.contains("Attention"@) && keys.contains("Reply"@) {
        lemma_only_the_middle(
            has_text(d.title),
            has_text(d.ask),
            attention,
            reply,
            has_text(d.branch),
            d.turns is Some,
            has_text(d.updated),
            path,
            "Attention"@,
        );
        lemma_only_the_middle(
            has_text(d.title),
            has_text(d.ask),
            attention,
            reply,
            has_text(d.branch),
            d.turns is Some,
            has_text(d.updated),
            path,
            "Reply"@,
        );
        lemma_keys_distinct();
        if !attention {
            lemma_key_when(reply, "Reply"@, "Attention"@);
        }
    }
}

proof fn lemma_in_concat(a: Seq<Seq<char>>, b: Seq<Seq<char>>, x: Seq<char>)
    ensures
        (a + b).contains(x) == (a.contains(x) || b.contains(x)),
{
    if (a + b).contains(x) {
        lemma_contains_concat(a, b, x);
    }
    if a.contains(x) {
        let i = choose|i: int| 0 <= i < a.len() && a[i] == x;
        assert((a + b)[i] == x);
    }
    if b.contains(x) {
        let i = choose|i: int| 0 <= i < b.len() && b[i] == x;
        assert((a + b)[a.len() + i] == x);
    }
}

proof fn lemma_in_key_when(cond: bool, key: Seq<char>, x: Seq<char>)
    ensures
        key_when(cond, key).contains(x) == (cond && x == key),
{
    if cond && x == key {
        assert(key_when(cond, key)[0] == x);
    }
}

proof fn lemma_title_and_path_distinct()
    ensures
        "Title"@ != "Ask"@ && "Title"@ != "Branch"@ && "Title"@ != "Turns"@ && "Title"@ != "Updated"@
            && "Title"@ != "Path"@ && "Title"@ != "Attention"@ && "Title"@ != "Reply"@,
        "Path"@ != "Ask"@ && "Path"@ != "Branch"@ && "Path"@ != "Turns"@ && "Path"@ != "Updated"@
            && "Path"@ != "Attention"@ && "Path"@ != "Reply"@,
{
    reveal_strlit("Attention");
    reveal_strlit("Reply");
    reveal_strlit("Title");
    reveal_strlit("Ask");
    reveal_strlit("Branch");
    reveal_strlit("Turns");
    reveal_strlit("Updated");
    reveal_strlit("Path");
    lemma_keys_distinct();
    assert("Title"@[0] != "Ask"@[0] && "Title"@[0] != "Branch"@[0] && "Title"@[1] != "Turns"@[1]
        && "Title"@[0] != "Updated"@[0] && "Title"@[0] != "Path"@[0]);
    assert("Path"@[0] != "Ask"@[0] && "Path"@[0] != "Branch"@[0] && "Path"@[0] != "Turns"@[0]
        && "Path"@[0] != "Updated"@[0]);
}

/// Whether no block of `keys` is `k`.
spec fn lacks(keys: Seq<Seq<char>>, k: Seq<char>) -> bool {
    forall|i: int| 0 <= i < keys.len() ==> keys[i] != k
}

proof fn lemma_lacks_concat(x: Seq<Seq<char>>, y: Seq<Seq<char>>, k: Seq<char>)
    requires
        lacks(x, k),
        lacks(y, k),
    ensures
        lacks(x + y, k),
{
    assert forall|i: int| 0 <= i < (x + y).len() implies (x + y)[i] != k by {
        if i < x.len() {
            assert((x + y)[i] == x[i]);
        } else {
            assert((x + y)[i] == y[i - x.len()]);
        }
    }
}

proof fn lemma_lacks_other(cond: bool, key: Seq<char>, k: Seq<char>)
    requires
        key != k,
    ensures
        lacks(key_when(cond, key), k),
{
}

proof fn lemma_title_leads(
    title: bool,
    ask: bool,
    attention: bool,
    reply: bool,
    branch: bool,
    turns: bool,
    updated: bool,
    path: bool,
)
    ensures
        ({
            let keys = keys_of(title, ask, attention, reply, branch, turns, updated, path);
            (keys.len() > 0 && keys[0] == "Title"@) == title
        }),
{
    lemma_keys_distinct();
    lemma_title_and_path_distinct();
    let a = key_when(title, "Title"@);
    let b = key_when(ask, "Ask"@);
    let m = middle_key(attention, reply);
    let c = key_when(branch, "Branch"@);
    let e1 = key_when(turns, "Turns"@);
    let e2 = key_when(updated, "Updated"@);
    let f = key_when(path, "Path"@);
    let keys = keys_of(title, ask, attention, reply, branch, turns, updated, path);
    assert(keys == a + b + m + c + e1 + e2 + f);
    if title {
        assert((a + b)[0] == "Title"@);
        assert((a + b + m)[0] == "Title"@);
        assert((a + b + m + c)[0] == "Title"@);
        assert((a + b + m + c + e1)[0] == "Title"@);
        assert((a + b + m + c + e1 + e2)[0] == "Title"@);
        assert((a + b + m + c + e1 + e2 + f)[0] == "Title"@);
    } else {
        assert(lacks(a, "Title"@));
        assert(lacks(m, "Title"@));
        lemma_lacks_other(ask, "Ask"@, "Title"@);
        lemma_lacks_other(branch, "Branch"@, "Title"@);
        lemma_lacks_other(turns, "Turns"@, "Title"@);
        lemma_lacks_other(updated, "Updated"@, "Title"@);
        lemma_lacks_other(path, "Path"@, "Title"@);
        lemma_lacks_concat(a, b, "Title"@);
        lemma_lacks_concat(a + b, m, "Title"@);
        lemma_lacks_concat(a + b + m, c, "Title"@);
        lemma_lacks_concat(a + b + m + c, e1, "Title"@);
        lemma_lacks_concat(a + b + m + c + e1, e2, "Title"@);
        lemma_lacks_concat(a + b + m + c + e1 + e2, f, "Title"@);
    }
}

proof fn lemma_path_closes(
    title: bool,
    ask: bool,
    attention: bool,
    reply: bool,
    branch: bool,
    turns: bool,
    updated: bool,
    path: bool,
)
    ensures
        ({
            let keys = keys_of(title, ask, attention, reply, branch, turns, updated, path);
            (keys.len() > 0 && keys.last() == "Path"@) == path
        }),
{
    lemma_keys_distinct();
    lemma_title_and_path_distinct();
    let a = key_when(title, "Title"@);
    let b = key_when(ask, "Ask"@);
    let m = middle_key(attention, reply);
    let c = key_when(branch, "Branch"@);
    let e1 = key_when(turns, "Turns"@);
    let e2 = key_when(updated, "Updated"@);
    let f = key_when(path, "Path"@);
    let keys = keys_of(title, ask, attention, reply, branch, turns, updated, path);
    assert(lacks(m, "Path"@));
    lemma_lacks_other(title, "Title"@, "Path"@);
    lemma_lacks_other(ask, "Ask"@, "Path"@);
    lemma_lacks_other(branch, "Branch"@, "Path"@);
    lemma_lacks_other(turns, "Turns"@, "Path"@);
    lemma_lacks_other(updated, "Updated"@, "Path"@);
    lemma_lacks_concat(a, b, "Path"@);
    lemma_lacks_concat(a + b, m, "Path"@);
    lemma_lacks_concat(a + b + m, c, "Path"@);
    lemma_lacks_concat(a + b + m + c, e1, "Path"@);
    lemma_lacks_concat(a + b + m + c + e1, e2, "Path"@);
    let init = a + b + m + c + e1 + e2;
    assert(keys =~= init + f);
    if !path && keys.len() > 0 {
        assert(keys.last() == init[init.len() - 1]);
    }
    if path {
        assert(keys.last() == "Path"@);
    }
}

proof fn lemma_middle_is_alone(
    title: bool,
    ask: bool,
    attention: bool,
    reply: bool,
    branch: bool,
    turns: bool,
    updated: bool,
    path: bool,
    x: Seq<char>,
)
    requires
        x == "Attention"@ || x == "Reply"@,
    ensures
        keys_of(title, ask, attention, reply, branch, turns, updated, path).contains(x) == middle_key(attention, reply).contains(x),
{
    lemma_keys_distinct();
    lemma_title_and_path_distinct();
    let a = key_when(title, "Title"@);
    let b = key_when(ask, "Ask"@);
    let m = middle_key(attention, reply);
    let c = key_when(branch, "Branch"@);
    let e1 = key_when(turns, "Turns"@);
    let e2 = key_when(updated, "Updated"@);
    let f = key_when(path, "Path"@);
    let keys = keys_of(title, ask, attention, reply, branch, turns, updated, path);
    assert(keys == a + b + m + c + e1 + e2 + f);
    lemma_in_key_when(title, "Title"@, x);
    lemma_in_key_when(ask, "Ask"@, x);
    lemma_in_key_when(branch, "Branch"@, x);
    lemma_in_key_when(turns, "Turns"@, x);
    lemma_in_key_when(updated, "Updated"@, x);
    lemma_in_key_when(path, "Path"@, x);
    lemma_in_concat(a, b, x);
    lemma_in_concat(a + b, m, x);
    lemma_in_concat(a + b + m, c, x);
    lemma_in_concat(a + b + m + c, e1, x);
    lemma_in_concat(a + b + m + c + e1, e2, x);
    lemma_in_concat(a + b + m + c + e1 + e2, f, x);
}

proof fn lemma_keys_of_layout(
    title: bool,
    ask: bool,
    attention: bool,
    reply: bool,
    branch: bool,
    turns: bool,
    updated: bool,
    path: bool,
)
    ensures
        ({
            let keys = keys_of(title, ask, attention, reply, branch, turns, updated, path);
            &&& (keys.len() > 0 && keys[0] == "Title"@) == title
            &&& (keys.len() > 0 && keys.last() == "Path"@) == path
            &&& keys.contains("Attention"@) == attention
            &&& keys.contains("Reply"@) == (!attention && reply)
        }),
{
    lemma_keys_distinct();
    lemma_title_leads(title, ask, attention, reply, branch, turns, updated, path);
    lemma_path_closes(title, ask, attention, reply, branch, turns, updated, path);
    lemma_middle_is_alone(title, ask, attention, reply, branch, turns, updated, path, "Attention"@);
    lemma_middle_is_alone(title, ask, attention, reply, branch, turns, updated, path, "Reply"@);
    let m = middle_key(attention, reply);
    if attention {
        assert(m[0] == "Attention"@);
        assert(m.len() == 1);
    } else {
        lemma_in_key_when(reply, "Reply"@, "Attention"@);
        lemma_in_key_when(reply, "Reply"@, "Reply"@);
    }
}

/// The card's blocks follow its data: it leads with the title exactly when
/// the title holds words and closes with the path footer exactly when the
/// project or the workspace does; it lists the attention box exactly when
/// the session waits with words to show, and otherwise the reply line
/// exactly when there is a reply or a status to draw.
pub proof fn lemma_the_blocks_follow_the_data(d: SessionDetailData)
    ensures
        (spec_detail_keys(d).len() > 0 && spec_detail_keys(d)[0] == "Title"@) == has_text(d.title),
        (spec_detail_keys(d).len() > 0 && spec_detail_keys(d).last() == "Path"@) == (has_text(d.project)
            || has_text(d.workspace)),
        spec_detail_keys(d).contains("Attention"@) == (attention_words(d) is Some),
        spec_detail_keys(d).contains("Reply"@) == (attention_words(d) is None && (has_text(d.reply)
            || d.status is Some)),
{
    let attention = attention_words(d) is Some;
    let reply = has_text(d.reply) || d.status is Some;
    let path = has_text(d.project) || has_text(d.workspace);
    lemma_keys_of_layout(
        has_text(d.title),
        has_text(d.ask),
        attention,
        reply,
        has_text(d.branch),
        d.turns is Some,
        has_text(d.updated),
        path,
    );
    assert(spec_detail_keys(d) =~= keys_of(
        has_text(d.title),
        has_text(d.ask),
        attention,
        reply,
        has_text(d.branch),
        d.turns is Some,
        has_text(d.updated),
        path,
    ));
}

/// Approval wins over the question: a session waiting for approval with a
/// non-blank pending command shows that command, whatever question is
/// pending too.
pub proof fn lemma_approval_wins(d: SessionDetailData)
    requires
        d.status matches Some(st) && st.kind == RowStatusKind::NeedsApproval,
        d.pending_approval matches Some(c) && trim(c@).len() > 0,
    ensures
        attention_words(d) == Some(trim(d.pending_approval.unwrap()@)),
{
}

/// Ink for the reply line, from the status: settled green, working accent,
/// failed danger, waiting warning, everything else muted.
pub open spec fn spec_reply_ink(status: Option<RowStatus>) -> InkRole {
    match status {
        Some(st) => match st.kind {
            RowStatusKind::Settled => InkRole::Success,
            RowStatusKind::Working => InkRole::AccentInk,
            RowStatusKind::Failed => InkRole::Danger,
            RowStatusKind::Asked | RowStatusKind::NeedsApproval => InkRole::Warning,
            RowStatusKind::NoReply => InkRole::Ink3,
        },
        None => InkRole::Ink3,
    }
}

/// Ink for the reply line, from the status.
pub fn reply_ink(status: Option<&RowStatus>) -> (i: InkRole)
    ensures
        i == match status {
            Some(st) => spec_reply_ink(Some(*st)),
            None => spec_reply_ink(None),
        },
{
    match status {
        Some(st) => match st.kind {
            RowStatusKind::Settled => InkRole::Success,
            RowStatusKind::Working => InkRole::AccentInk,
            RowStatusKind::Failed => InkRole::Danger,
            RowStatusKind::Asked | RowStatusKind::NeedsApproval => InkRole::Warning,
            RowStatusKind::NoReply => InkRole::Ink3,
        },
        None => InkRole::Ink3,
    }
}

/// The blocks the card draws, in order: title first when set, then the
/// ask, then either the attention box (waiting with pending words) or the
/// reply line, then each set meta field, then the path footer.
pub open spec fn spec_detail_keys(d: SessionDetailData) -> Seq<Seq<char>> {
    (if has_text(d.title) { seq!["Title"@] } else { seq![] })
        + (if has_text(d.ask) { seq!["Ask"@] } else { seq![] })
        + (if attention_words(d) is Some {
        seq!["Attention"@]
    } else if has_text(d.reply) || d.status is Some {
        seq!["Reply"@]
    } else {
        seq![]
    }) + (if has_text(d.branch) { seq!["Branch"@] } else { seq![] })
        + (if d.turns is Some { seq!["Turns"@] } else { seq![] })
        + (if has_text(d.updated) { seq!["Updated"@] } else { seq![] })
        + (if has_text(d.project) || has_text(d.workspace) { seq!["Path"@] } else { seq![] })
}

fn push_key(keys: &mut Vec<&'static str>, key: &'static str)
    ensures
        final(keys)@.map_values(|k: &str| k@) == old(keys)@.map_values(|k: &str| k@).push(key@),
{
    let ghost before = keys@;
    keys.push(key);
    assert(keys@.map_values(|k: &str| k@) == before.map_values(|k: &str| k@).push(key@));
}

fn key_if(keys: &mut Vec<&'static str>, cond: bool, key: &'static str)
    ensures
        final(keys)@.map_values(|k: &str| k@) == old(keys)@.map_values(|k: &str| k@) + if cond {
            seq![key@]
        } else {
            seq![]
        },
{
    if cond {
        push_key(keys, key);
    } else {
        assert(keys@.map_values(|k: &str| k@) == keys@.map_values(|k: &str| k@) + Seq::<Seq<char>>::empty());
    }
}

fn has_attention(data: &SessionDetailData) -> (b: bool)
    ensures
        b == (attention_words(*data) is Some),
{
    attention_for(data).is_some()
}

/// The blocks this card would draw, in order, for `data`.
pub fn detail_keys(data: &SessionDetailData) -> (keys: Vec<&'static str>)
    ensures
        keys@.map_values(|k: &str| k@) == spec_detail_keys(*data),
{
    let title = text_present(&data.title);
    let ask = text_present(&data.ask);
    let attention = has_attention(data);
    let reply = text_present(&data.reply) || data.status.is_some();
    let branch = text_present(&data.branch);
    let turns = data.turns.is_some();
    let updated = text_present(&data.updated);
    let path = text_present(&data.project) || text_present(&data.workspace);
    let mut keys: Vec<&'static str> = Vec::new();
    key_if(&mut keys, title, "Title");
    key_if(&mut keys, ask, "Ask");
    if attention {
        key_if(&mut keys, true, "Attention");
    } else {
        key_if(&mut keys, reply, "Reply");
    }
    key_if(&mut keys, branch, "Branch");
    key_if(&mut keys, turns, "Turns");
    key_if(&mut keys, updated, "Updated");
    key_if(&mut keys, path, "Path");
    keys
}

/// The attention box: the waiting state's label in semibold, then its words.
#[derive(Debug, PartialEq)]
pub struct AttentionBox {
    /// `Asked:` or `Needs approval:`, the highlighted head of the text.
    pub label: String,
    /// The whole sentence: the label, then the words — quoted for a
    /// question, verbatim for a command.
    pub text: String,
    /// A question (question glyph) rather than a command (shield glyph).
    pub question: bool,
}

/// Everything the hover detail card draws, block by block; a `None` block
/// leaves no row behind.
#[derive(Debug, PartialEq)]
pub struct DetailCard {
    /// The full title.
    pub title: Option<String>,
    /// The age beside the title.
    pub age: Option<String>,
    /// The ask excerpt, drawn between curly quotes.
    pub ask: Option<String>,
    /// The reply line and its ink.
    pub reply: Option<(String, InkRole)>,
    /// The attention box that replaces the reply line.
    pub attention: Option<AttentionBox>,
    /// The branch on the meta row.
    pub branch: Option<String>,
    /// The turn count on the meta row.
    pub turns: Option<String>,
    /// The updated words on the meta row.
    pub updated: Option<String>,
    /// `project · workspace`, mono and muted.
    pub footer: Option<String>,
}

/// Whether `o` holds exactly the text `v` (both absent, or both present
/// and equal).
pub open spec fn holds(o: Option<String>, v: Option<Seq<char>>) -> bool {
    match v {
        Some(t) => o matches Some(s) && s@ == t,
        None => o is None,
    }
}

/// `t` trimmed, when it holds something.
pub open spec fn trimmed_text(t: Option<String>) -> Option<Seq<char>> {
    if has_text(t) {
        Some(trim(t.unwrap()@))
    } else {
        None
    }
}

/// The reply line's words: none while the attention box stands; else the
/// reply's first line when it holds something, else the status sentence.
pub open spec fn reply_words(d: SessionDetailData) -> Option<Seq<char>> {
    if attention_words(d) is Some {
        None
    } else if d.reply is Some && first_line_of(d.reply.unwrap()@).len() > 0 {
        Some(first_line_of(d.reply.unwrap()@))
    } else if d.status is Some {
        Some(status_sentence(d.status.unwrap().kind, trim(d.status.unwrap().detail@)))
    } else {
        None
    }
}

/// The attention box's sentence for `label` and its (already excerpted)
/// words.
pub open spec fn attention_sentence(label: Seq<char>, question: bool, shown: Seq<char>) -> Seq<char> {
    if question {
        label + " “"@ + shown + "”"@
    } else {
        label + " "@ + shown
    }
}

/// The footer: the trimmed project and workspace, whichever hold
/// something, joined with a middot.
pub open spec fn footer_text(d: SessionDetailData) -> Option<Seq<char>> {
    match (trimmed_text(d.project), trimmed_text(d.workspace)) {
        (Some(p), Some(w)) => Some(p + " · "@ + w),
        (Some(p), None) => Some(p),
        (None, Some(w)) => Some(w),
        (None, None) => None,
    }
}

/// Whether `d`'s status is of `kind`.
pub open spec fn status_is(d: SessionDetailData, kind: RowStatusKind) -> bool {
    d.status matches Some(st) && st.kind == kind
}

/// The reply line's colour tells the session's state: danger exactly for a
/// failure, success exactly once settled, accent exactly while working,
/// warning exactly while waiting on the person, and muted when nothing was
/// answered or there is no status.
pub proof fn lemma_reply_ink_follows_the_status(d: SessionDetailData, card: DetailCard)
    requires
        card_of(d, card),
    ensures
        card.reply is Some ==> {
            let ink = card.reply.unwrap().1;
            &&& (ink == InkRole::Danger) == status_is(d, RowStatusKind::Failed)
            &&& (ink == InkRole::Success) == status_is(d, RowStatusKind::Settled)
            &&& (ink == InkRole::AccentInk) == status_is(d, RowStatusKind::Working)
            &&& (ink == InkRole::Warning) == (status_is(d, RowStatusKind::Asked) || status_is(
                d,
                RowStatusKind::NeedsApproval,
            ))
            &&& (ink == InkRole::Ink3) == (d.status is None || status_is(d, RowStatusKind::NoReply))
        },
{
}

/// The footer holds exactly the path parts the caller gave words for: it is
/// there exactly when the project or the workspace holds something, it
/// leads with the trimmed project and ends with the trimmed workspace, and
/// with both it joins them with a middot.
pub proof fn lemma_footer_holds_the_given_parts(d: SessionDetailData, card: DetailCard)
    requires
        card_of(d, card),
    ensures
        (card.footer is Some) == (has_text(d.project) || has_text(d.workspace)),
        card.footer matches Some(f) ==> {
            &&& has_text(d.project) ==> f@.take(trim(d.project.unwrap()@).len() as int) == trim(d.project.unwrap()@)
            &&& has_text(d.workspace) ==> f@.skip(f@.len() - trim(d.workspace.unwrap()@).len())
                == trim(d.workspace.unwrap()@)
            &&& (has_text(d.project) && has_text(d.workspace)) ==> f@.len() == trim(d.project.unwrap()@).len()
                + 3 + trim(d.workspace.unwrap()@).len() && f@[trim(d.project.unwrap()@).len() as int + 1] == '·'
        },
{
    reveal_strlit(" · ");
    if card.footer is Some {
        let f = card.footer.unwrap()@;
        if has_text(d.project) && has_text(d.workspace) {
            let p = trim(d.project.unwrap()@);
            let w = trim(d.workspace.unwrap()@);
            assert(f == p + " · "@ + w);
            assert(f.take(p.len() as int) == p);
            assert(f.skip(f.len() - w.len()) == w);
            assert(f[p.len() as int + 1] == (" · "@)[1]);
        } else if has_text(d.project) {
            assert(f.take(f.len() as int) == f);
        } else {
            assert(f.skip(0) == f);
        }
    }
}

/// Whether `card` is exactly what `d` draws.
pub open spec fn card_of(d: SessionDetailData, card: DetailCard) -> bool {
    &&& holds(card.title, if has_text(d.title) { Some(d.title.unwrap()@) } else { None })
    &&& holds(
        card.age,
        if has_text(d.title) && has_text(d.updated) {
            Some(age_of(trim(d.updated.unwrap()@)))
        } else {
            None
        },
    )
    &&& holds(
        card.ask,
        if d.ask is Some && excerpt(d.ask.unwrap()@, 2).len() > 0 {
            Some(excerpt(d.ask.unwrap()@, 2))
        } else {
            None
        },
    )
    &&& match reply_words(d) {
        Some(w) => card.reply matches Some((t, ink)) && t@ == w && ink == spec_reply_ink(d.status),
        None => card.reply is None,
    }
    &&& match attention_words(d) {
        Some(w) => card.attention matches Some(b) && {
            let label = attention_label(d.status.unwrap().kind);
            let question = d.status.unwrap().kind != RowStatusKind::NeedsApproval;
            &&& b.label@ == label
            &&& b.question == question
            &&& b.text@ == attention_sentence(label, question, excerpt(w, 3))
        },
        None => card.attention is None,
    }
    &&& holds(card.branch, trimmed_text(d.branch))
    &&& holds(
        card.turns,
        match d.turns {
            Some(n) => Some(decimal(n as nat)),
            None => None,
        },
    )
    &&& holds(card.updated, trimmed_text(d.updated))
    &&& holds(card.footer, footer_text(d))
}

fn trimmed_field(t: &Option<String>) -> (o: Option<String>)
    ensures
        holds(o, trimmed_text(*t)),
{
    match t {
        Some(s) => {
            let v = trimmed(s.as_str());
            if v.len() > 0 {
                Some(string_from(&v))
            } else {
                None
            }
        },
        None => None,
    }
}

fn concat3(a: &String, mid: &str, b: &String) -> (out: String)
    ensures
        out@ == a@ + mid@ + b@,
{
    let mut v = chars_of(a.as_str());
    extend_str(&mut v, mid);
    extend_str(&mut v, b.as_str());
    string_from(&v)
}

fn clone_opt(o: &Option<String>) -> (c: Option<String>)
    ensures
        c == *o,
{
    match o {
        Some(s) => Some(s.clone()),
        None => None,
    }
}

/// What the hover detail card draws for `data`, block by block.
pub fn detail_card(data: &SessionDetailData) -> (card: DetailCard)
    ensures
        card_of(*data, card),
{
    let has_title = text_present(&data.title);
    let title = if has_title {
        clone_opt(&data.title)
    } else {
        None
    };
    let updated = trimmed_field(&data.updated);
    let age = match (&updated, has_title) {
        (Some(u), true) => Some(age_text(u.as_str())),
        _ => None,
    };
    let ask = match &data.ask {
        Some(a) => {
            let e = first_lines(a.as_str(), SESSION_DETAIL_ASK_LINES);
            if e.as_str().is_empty() {
                None
            } else {
                Some(e)
            }
        },
        None => None,
    };
    let attention_words = attention_for(data);
    let reply = match &attention_words {
        Some(_) => None,
        None => {
            let own = match &data.reply {
                Some(r) => {
                    let l = first_line(r.as_str());
                    if l.as_str().is_empty() {
                        None
                    } else {
                        Some(l)
                    }
                },
                None => None,
            };
            let ink = reply_ink(data.status.as_ref());
            match own {
                Some(l) => Some((l, ink)),
                None => match &data.status {
                    Some(st) => Some((st.text(), ink)),
                    None => None,
                },
            }
        },
    };
    let attention = match attention_words {
        Some((label, words)) => {
            let question = match &data.status {
                Some(st) => st.kind != RowStatusKind::NeedsApproval,
                None => true,
            };
            let shown = first_lines(words.as_str(), SESSION_DETAIL_ATTENTION_LINES);
            let mut text = chars_of(label);
            if question {
                extend_str(&mut text, " “");
                extend_str(&mut text, shown.as_str());
                extend_str(&mut text, "”");
            } else {
                extend_str(&mut text, " ");
                extend_str(&mut text, shown.as_str());
            }
            Some(AttentionBox { label: label.to_string(), text: string_from(&text), question })
        },
        None => None,
    };
    let branch = trimmed_field(&data.branch);
    let turns = match data.turns {
        Some(n) => {
            let d = decimal_chars(n as u64);
            Some(string_from(&d))
        },
        None => None,
    };
    let project = trimmed_field(&data.project);
    let workspace = trimmed_field(&data.workspace);
    let footer = match (&project, &workspace) {
        (Some(p), Some(w)) => Some(concat3(p, " · ", w)),
        (Some(p), None) => Some(p.clone()),
        (None, Some(w)) => Some(w.clone()),
        (None, None) => None,
    };
    DetailCard { title, age, ask, reply, attention, branch, turns, updated, footer }
}

} // verus!
