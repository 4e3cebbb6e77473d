//! Where a grouping puts each group and session once it is flattened: a
//! status or project grouping draws every header and every session of an
//! open group; a date grouping draws every session exactly once, pinned ones
//! in the leading `Pinned` section and the rest under their bucket's header,
//! each section in source order, and the bucket headers numbered among the
//! buckets that still have rows.
use vstd::prelude::*;

use crate::nav::views::{
    bucket_rows, date_rows, dated_count, has_unpinned, pinned_in, pinned_rows, project_rows,
    session_rows, spec_flatten, status_rows, unpinned_in, DateGroup, Grouping, ProjectGroup,
    SessionScope, SidebarRow, StatusGroup,
};

verus! {

/// The group a bucket header or a session row belongs to.
pub open spec fn row_group(row: SidebarRow) -> int {
    match row {
        SidebarRow::DateHeader { group, .. } => group as int,
        SidebarRow::Session { group, .. } => group as int,
        _ => 0,
    }
}

/// Where a row sits inside its group: the header first, then the sessions
/// in their source order.
pub open spec fn row_place(row: SidebarRow) -> int {
    match row {
        SidebarRow::Session { session, .. } => session + 1,
        _ => 0,
    }
}

/// Whether `a` comes before `b` in group-then-place order.
pub open spec fn row_before(a: SidebarRow, b: SidebarRow) -> bool {
    row_group(a) < row_group(b) || (row_group(a) == row_group(b) && row_place(a) < row_place(b))
}

/// Whether `rows` run in group-then-place order.
pub open spec fn in_order(rows: Seq<SidebarRow>) -> bool {
    forall|i: int, j: int| 0 <= i < j < rows.len() ==> row_before(#[trigger] rows[i], #[trigger] rows[j])
}

/// The row a date grouping gives session `s` of bucket `g`: in the
/// `Pinned` section when it is pinned, else under its bucket, numbered
/// among the buckets before it that still have rows.
pub open spec fn session_row_for(gs: Seq<DateGroup>, g: int, s: int) -> SidebarRow {
    SidebarRow::Session {
        scope: if gs[g].sessions@[s].pinned {
            SessionScope::Pinned
        } else {
            SessionScope::Date { dated: dated_count(gs, g) as usize }
        },
        group: g as usize,
        session: s as usize,
    }
}

/// Whether `row` is the row of an existing session of `gs`.
pub open spec fn is_session_row_of(gs: Seq<DateGroup>, row: SidebarRow) -> bool {
    row matches SidebarRow::Session { group, session, .. } && group < gs.len() && session
        < gs[group as int].sessions@.len() && row == session_row_for(gs, group as int, session as int)
}

/// Whether `row` is the header of bucket `row.group`, numbered right.
pub open spec fn is_header_of(gs: Seq<DateGroup>, row: SidebarRow) -> bool {
    row matches SidebarRow::DateHeader { group, dated } && group < gs.len() && has_unpinned(
        gs[group as int],
    ) && dated == dated_count(gs, group as int)
}

proof fn lemma_in_order_concat(x: Seq<SidebarRow>, y: Seq<SidebarRow>)
    requires
        in_order(x),
        in_order(y),
        forall|i: int, j: int|
            0 <= i < x.len() && 0 <= j < y.len() ==> row_before(#[trigger] x[i], #[trigger] y[j]),
    ensures
        in_order(x + y),
{
    let z = x + y;
    assert forall|i: int, j: int| 0 <= i < j < z.len() implies row_before(#[trigger] z[i], #[trigger] z[j]) by {
        if j < x.len() {
            assert(z[i] == x[i] && z[j] == x[j]);
        } else if i < x.len() {
            assert(z[i] == x[i] && z[j] == y[j - x.len()]);
        } else {
            assert(z[i] == y[i - x.len()] && z[j] == y[j - x.len()]);
        }
    }
}

proof fn lemma_contains_concat(x: Seq<SidebarRow>, y: Seq<SidebarRow>, r: SidebarRow)
    ensures
        x.contains(r) ==> (x + y).contains(r),
        y.contains(r) ==> (x + y).contains(r),
{
    if x.contains(r) {
        let i = choose|i: int| 0 <= i < x.len() && x[i] == r;
        assert((x + y)[i] == r);
    }
    if y.contains(r) {
        let i = choose|i: int| 0 <= i < y.len() && y[i] == r;
        assert((x + y)[x.len() + i] == r);
    }
}

proof fn lemma_dated_count_bounds(gs: Seq<DateGroup>, k: int)
    requires
        0 <= k,
    ensures
        0 <= dated_count(gs, k) <= k,
    decreases k,
{
    if k > 0 {
        lemma_dated_count_bounds(gs, k - 1);
    }
}

proof fn lemma_pinned_in_placed(gs: Seq<DateGroup>, g: int, m: int)
    requires
        0 <= g < gs.len() <= usize::MAX,
        0 <= m <= gs[g].sessions@.len(),
    ensures
        in_order(pinned_in(gs[g].sessions@, g, m)),
        forall|i: int|
            0 <= i < pinned_in(gs[g].sessions@, g, m).len() ==> {
                let row = #[trigger] pinned_in(gs[g].sessions@, g, m)[i];
                &&& is_session_row_of(gs, row)
                &&& row->Session_scope == SessionScope::Pinned
                &&& row_group(row) == g
                &&& row_place(row) <= m
            },
        forall|s: int|
            0 <= s < m && gs[g].sessions@[s].pinned ==> pinned_in(gs[g].sessions@, g, m).contains(
                #[trigger] session_row_for(gs, g, s),
            ),
    decreases m,
{
    assert(gs[g].sessions@.len() == gs[g].sessions.len());
    let ss = gs[g].sessions@;
    if m > 0 {
        lemma_pinned_in_placed(gs, g, m - 1);
        let a = pinned_in(ss, g, m - 1);
        let all = pinned_in(ss, g, m);
        if ss[m - 1].pinned {
            let r = session_row_for(gs, g, m - 1);
            let t = seq![r];
            assert(all == a + t);
            assert(in_order(t));
            lemma_in_order_concat(a, t);
            assert forall|s: int| 0 <= s < m && ss[s].pinned implies all.contains(
                #[trigger] session_row_for(gs, g, s),
            ) by {
                lemma_contains_concat(a, t, session_row_for(gs, g, s));
                if s == m - 1 {
                    assert(t[0] == r);
                }
            }
            assert forall|i: int| 0 <= i < all.len() implies {
                let row = #[trigger] all[i];
                &&& is_session_row_of(gs, row)
                &&& row->Session_scope == SessionScope::Pinned
                &&& row_group(row) == g
                &&& row_place(row) <= m
            } by {
                if i < a.len() {
                    assert(all[i] == a[i]);
                } else {
                    assert(all[i] == r);
                }
            }
        } else {
            assert(all == a);
        }
    }
}

proof fn lemma_unpinned_in_placed(gs: Seq<DateGroup>, g: int, m: int)
    requires
        0 <= g < gs.len() <= usize::MAX,
        0 <= m <= gs[g].sessions@.len(),
    ensures
        in_order(unpinned_in(gs[g].sessions@, g, dated_count(gs, g), m)),
        forall|i: int|
            0 <= i < unpinned_in(gs[g].sessions@, g, dated_count(gs, g), m).len() ==> {
                let row = #[trigger] unpinned_in(gs[g].sessions@, g, dated_count(gs, g), m)[i];
                &&& is_session_row_of(gs, row)
                &&& row->Session_scope is Date
                &&& row_group(row) == g
                &&& 0 < row_place(row) <= m
            },
        forall|s: int|
            0 <= s < m && !gs[g].sessions@[s].pinned ==> unpinned_in(
                gs[g].sessions@,
                g,
                dated_count(gs, g),
                m,
            ).contains(#[trigger] session_row_for(gs, g, s)),
    decreases m,
{
    assert(gs[g].sessions@.len() == gs[g].sessions.len());
    let ss = gs[g].sessions@;
    let d = dated_count(gs, g);
    lemma_dated_count_bounds(gs, g);
    if m > 0 {
        lemma_unpinned_in_placed(gs, g, m - 1);
        let a = unpinned_in(ss, g, d, m - 1);
        let all = unpinned_in(ss, g, d, m);
        if !ss[m - 1].pinned {
            let r = session_row_for(gs, g, m - 1);
            let t = seq![r];
            assert(all == a + t);
            assert(in_order(t));
            lemma_in_order_concat(a, t);
            assert forall|s: int| 0 <= s < m && !ss[s].pinned implies all.contains(
                #[trigger] session_row_for(gs, g, s),
            ) by {
                lemma_contains_concat(a, t, session_row_for(gs, g, s));
                if s == m - 1 {
                    assert(t[0] == r);
                }
            }
            assert forall|i: int| 0 <= i < all.len() implies {
                let row = #[trigger] all[i];
                &&& is_session_row_of(gs, row)
                &&& row->Session_scope is Date
                &&& row_group(row) == g
                &&& 0 < row_place(row) <= m
            } by {
                if i < a.len() {
                    assert(all[i] == a[i]);
                } else {
                    assert(all[i] == r);
                }
            }
        } else {
            assert(all == a);
        }
    }
}

proof fn lemma_pinned_rows_placed(gs: Seq<DateGroup>, k: int)
    requires
        0 <= k <= gs.len() <= usize::MAX,
    ensures
        in_order(pinned_rows(gs, k)),
        forall|i: int|
            0 <= i < pinned_rows(gs, k).len() ==> {
                let row = #[trigger] pinned_rows(gs, k)[i];
                &&& is_session_row_of(gs, row)
                &&& row->Session_scope == SessionScope::Pinned
                &&& row_group(row) < k
            },
        forall|g: int, s: int|
            0 <= g < k && 0 <= s < gs[g].sessions@.len() && gs[g].sessions@[s].pinned ==> pinned_rows(
                gs,
                k,
            ).contains(#[trigger] session_row_for(gs, g, s)),
    decreases k,
{
    if k > 0 {
        lemma_pinned_rows_placed(gs, k - 1);
        let ss = gs[k - 1].sessions@;
        lemma_pinned_in_placed(gs, k - 1, ss.len() as int);
        let a = pinned_rows(gs, k - 1);
        let b = pinned_in(ss, k - 1, ss.len() as int);
        let all = pinned_rows(gs, k);
        assert(all == a + b);
        assert forall|i: int, j: int| 0 <= i < a.len() && 0 <= j < b.len() implies row_before(
            #[trigger] a[i],
            #[trigger] b[j],
        ) by {}
        lemma_in_order_concat(a, b);
        assert forall|i: int| 0 <= i < all.len() implies {
            let row = #[trigger] all[i];
            &&& is_session_row_of(gs, row)
            &&& row->Session_scope == SessionScope::Pinned
            &&& row_group(row) < k
        } by {
            if i < a.len() {
                assert(all[i] == a[i]);
            } else {
                assert(all[i] == b[i - a.len()]);
            }
        }
        assert forall|g: int, s: int|
            0 <= g < k && 0 <= s < gs[g].sessions@.len() && gs[g].sessions@[s].pinned implies all.contains(
                #[trigger] session_row_for(gs, g, s),
            ) by {
            lemma_contains_concat(a, b, session_row_for(gs, g, s));
        }
    }
}

proof fn lemma_bucket_rows_placed(gs: Seq<DateGroup>, k: int)
    requires
        0 <= k <= gs.len() <= usize::MAX,
    ensures
        in_order(bucket_rows(gs, k)),
        forall|i: int|
            0 <= i < bucket_rows(gs, k).len() ==> {
                let row = #[trigger] bucket_rows(gs, k)[i];
                &&& (is_header_of(gs, row) || (is_session_row_of(gs, row) && row->Session_scope is Date))
                &&& row_group(row) < k
            },
        forall|g: int, s: int|
            0 <= g < k && 0 <= s < gs[g].sessions@.len() && !gs[g].sessions@[s].pinned ==> bucket_rows(
                gs,
                k,
            ).contains(#[trigger] session_row_for(gs, g, s)),
        forall|g: int|
            0 <= g < k && #[trigger] has_unpinned(gs[g]) ==> bucket_rows(gs, k).contains(
                SidebarRow::DateHeader { group: g as usize, dated: dated_count(gs, g) as usize },
            ),
    decreases k,
{
    if k > 0 {
        lemma_bucket_rows_placed(gs, k - 1);
        let g = k - 1;
        let ss = gs[g].sessions@;
        let d = dated_count(gs, g);
        lemma_dated_count_bounds(gs, g);
        lemma_unpinned_in_placed(gs, g, ss.len() as int);
        let a = bucket_rows(gs, g);
        let all = bucket_rows(gs, k);
        if has_unpinned(gs[g]) {
            let h = seq![SidebarRow::DateHeader { group: g as usize, dated: d as usize }];
            let b = unpinned_in(ss, g, d, ss.len() as int);
            assert(all == a + (h + b));
            assert forall|i: int, j: int| 0 <= i < h.len() && 0 <= j < b.len() implies row_before(
                #[trigger] h[i],
                #[trigger] b[j],
            ) by {}
            assert(in_order(h));
            lemma_in_order_concat(h, b);
            let hb = h + b;
            assert forall|i: int| 0 <= i < hb.len() implies {
                let row = #[trigger] hb[i];
                &&& (is_header_of(gs, row) || (is_session_row_of(gs, row) && row->Session_scope is Date))
                &&& row_group(row) == g
            } by {
                if i == 0 {
                    assert(hb[i] == h[0]);
                } else {
                    assert(hb[i] == b[i - 1]);
                }
            }
            assert forall|i: int, j: int| 0 <= i < a.len() && 0 <= j < hb.len() implies row_before(
                #[trigger] a[i],
                #[trigger] hb[j],
            ) by {}
            lemma_in_order_concat(a, hb);
            assert forall|i: int| 0 <= i < all.len() implies {
                let row = #[trigger] all[i];
                &&& (is_header_of(gs, row) || (is_session_row_of(gs, row) && row->Session_scope is Date))
                &&& row_group(row) < k
            } by {
                if i < a.len() {
                    assert(all[i] == a[i]);
                } else {
                    assert(all[i] == hb[i - a.len()]);
                }
            }
            assert forall|g2: int, s: int|
                0 <= g2 < k && 0 <= s < gs[g2].sessions@.len() && !gs[g2].sessions@[s].pinned implies all.contains(
                    #[trigger] session_row_for(gs, g2, s),
                ) by {
                lemma_contains_concat(h, b, session_row_for(gs, g2, s));
                lemma_contains_concat(a, hb, session_row_for(gs, g2, s));
            }
            assert forall|g2: int| 0 <= g2 < k && #[trigger] has_unpinned(gs[g2]) implies all.contains(
                SidebarRow::DateHeader { group: g2 as usize, dated: dated_count(gs, g2) as usize },
            ) by {
                let r = SidebarRow::DateHeader { group: g2 as usize, dated: dated_count(gs, g2) as usize };
                if g2 == g {
                    assert(hb[0] == r);
                }
                lemma_contains_concat(a, hb, r);
            }
        } else {
            assert(all == a);
            assert forall|g2: int, s: int|
                0 <= g2 < k && 0 <= s < gs[g2].sessions@.len() && !gs[g2].sessions@[s].pinned implies all.contains(
                    #[trigger] session_row_for(gs, g2, s),
                ) by {
                if g2 == g {
                    assert(!has_unpinned(gs[g]));
                    assert(!gs[g].sessions@[s].pinned);
                }
            }
        }
    }
}

/// The header of status group `g`.
pub open spec fn status_header(g: int) -> SidebarRow {
    SidebarRow::StatusHeader { group: g as usize }
}

/// The head of project group `g`.
pub open spec fn project_head(g: int) -> SidebarRow {
    SidebarRow::ProjectHead { group: g as usize }
}

/// The fold row of project group `g`.
pub open spec fn fold_row(g: int) -> SidebarRow {
    SidebarRow::Fold { group: g as usize }
}

/// The row of session `s` of group `g` in `scope`.
pub open spec fn open_session_row(scope: SessionScope, g: int, s: int) -> SidebarRow {
    SidebarRow::Session { scope, group: g as usize, session: s as usize }
}

proof fn lemma_status_rows_cover(gs: Seq<StatusGroup>, k: int)
    requires
        0 <= k <= gs.len() <= usize::MAX,
    ensures
        forall|g: int| 0 <= g < k ==> status_rows(gs, k).contains(#[trigger] status_header(g)),
        forall|g: int, s: int|
            0 <= g < k && gs[g].open && 0 <= s < gs[g].sessions@.len() ==> status_rows(gs, k).contains(
                #[trigger] open_session_row(SessionScope::Status, g, s),
            ),
    decreases k,
{
    if k > 0 {
        lemma_status_rows_cover(gs, k - 1);
        let a = status_rows(gs, k - 1);
        let h = seq![SidebarRow::StatusHeader { group: (k - 1) as usize }];
        let n = gs[k - 1].sessions@.len() as int;
        let b = if gs[k - 1].open {
            session_rows(SessionScope::Status, k - 1, n)
        } else {
            seq![]
        };
        assert(status_rows(gs, k) == a + h + b);
        assert forall|g: int| 0 <= g < k implies status_rows(gs, k).contains(
            #[trigger] status_header(g),
        ) by {
            let r = SidebarRow::StatusHeader { group: g as usize };
            lemma_contains_concat(a, h, r);
            if g == k - 1 {
                assert(h[0] == r);
            }
            lemma_contains_concat(a + h, b, r);
        }
        assert forall|g: int, s: int|
            0 <= g < k && gs[g].open && 0 <= s < gs[g].sessions@.len() implies status_rows(gs, k).contains(
                #[trigger] open_session_row(SessionScope::Status, g, s),
            ) by {
            let r = SidebarRow::Session { scope: SessionScope::Status, group: g as usize, session: s as usize };
            lemma_contains_concat(a, h, r);
            lemma_contains_concat(a + h, b, r);
            if g == k - 1 {
                assert(b[s] == r);
            }
        }
    }
}

proof fn lemma_project_rows_cover(gs: Seq<ProjectGroup>, k: int)
    requires
        0 <= k <= gs.len() <= usize::MAX,
    ensures
        forall|g: int| 0 <= g < k ==> project_rows(gs, k).contains(#[trigger] project_head(g)),
        forall|g: int, s: int|
            0 <= g < k && gs[g].open && 0 <= s < gs[g].sessions@.len() ==> project_rows(gs, k).contains(
                #[trigger] open_session_row(SessionScope::Project, g, s),
            ),
        forall|g: int|
            0 <= g < k && gs[g].open && (gs[g].fold matches Some((hidden, _)) && hidden > 0) ==> project_rows(gs, k).contains(
                #[trigger] fold_row(g),
            ),
    decreases k,
{
    if k > 0 {
        lemma_project_rows_cover(gs, k - 1);
        let a = project_rows(gs, k - 1);
        let h = seq![SidebarRow::ProjectHead { group: (k - 1) as usize }];
        let n = gs[k - 1].sessions@.len() as int;
        let b = if gs[k - 1].open {
            session_rows(SessionScope::Project, k - 1, n)
        } else {
            seq![]
        };
        let f = if gs[k - 1].open && (gs[k - 1].fold matches Some((hidden, _)) && hidden > 0) {
            seq![SidebarRow::Fold { group: (k - 1) as usize }]
        } else {
            seq![]
        };
        assert(project_rows(gs, k) == a + h + b + f);
        assert forall|g: int| 0 <= g < k implies project_rows(gs, k).contains(
            #[trigger] project_head(g),
        ) by {
            let r = SidebarRow::ProjectHead { group: g as usize };
            lemma_contains_concat(a, h, r);
            if g == k - 1 {
                assert(h[0] == r);
            }
            lemma_contains_concat(a + h, b, r);
            lemma_contains_concat(a + h + b, f, r);
        }
        assert forall|g: int, s: int|
            0 <= g < k && gs[g].open && 0 <= s < gs[g].sessions@.len() implies project_rows(gs, k).contains(
                #[trigger] open_session_row(SessionScope::Project, g, s),
            ) by {
            let r = SidebarRow::Session { scope: SessionScope::Project, group: g as usize, session: s as usize };
            lemma_contains_concat(a, h, r);
            lemma_contains_concat(a + h, b, r);
            lemma_contains_concat(a + h + b, f, r);
            if g == k - 1 {
                assert(b[s] == r);
            }
        }
        assert forall|g: int|
            0 <= g < k && gs[g].open && (gs[g].fold matches Some((hidden, _)) && hidden > 0) implies project_rows(gs, k).contains(
                #[trigger] fold_row(g),
            ) by {
            let r = SidebarRow::Fold { group: g as usize };
            lemma_contains_concat(a, h, r);
            lemma_contains_concat(a + h, b, r);
            lemma_contains_concat(a + h + b, f, r);
            if g == k - 1 {
                assert(f[0] == r);
            }
        }
    }
}

/// A status or project grouping draws every group's header, and under an
/// open group every one of its sessions; an open project that holds rows
/// back draws its fold row.
pub proof fn lemma_every_group_and_open_session_is_drawn(grouping: Grouping, caption: bool)
    ensures
        grouping matches Grouping::Status(gs) ==> {
            &&& forall|g: int| 0 <= g < gs@.len() ==> spec_flatten(grouping, caption).contains(
                #[trigger] status_header(g),
            )
            &&& forall|g: int, s: int|
                0 <= g < gs@.len() && gs@[g].open && 0 <= s < gs@[g].sessions@.len() ==> spec_flatten(
                    grouping,
                    caption,
                ).contains(
                    #[trigger] open_session_row(SessionScope::Status, g, s),
                )
        },
        grouping matches Grouping::Project(gs) ==> {
            &&& forall|g: int| 0 <= g < gs@.len() ==> spec_flatten(grouping, caption).contains(
                #[trigger] project_head(g),
            )
            &&& forall|g: int, s: int|
                0 <= g < gs@.len() && gs@[g].open && 0 <= s < gs@[g].sessions@.len() ==> spec_flatten(
                    grouping,
                    caption,
                ).contains(
                    #[trigger] open_session_row(SessionScope::Project, g, s),
                )
            &&& forall|g: int|
                0 <= g < gs@.len() && gs@[g].open && (gs@[g].fold matches Some((hidden, _)) && hidden > 0) ==> spec_flatten(
                    grouping,
                    caption,
                ).contains(#[trigger] fold_row(g))
        },
{
    let c: Seq<SidebarRow> = if caption {
        seq![SidebarRow::Caption]
    } else {
        seq![]
    };
    match grouping {
        Grouping::Status(gs) => {
            assert(gs@.len() == gs.len());
            lemma_status_rows_cover(gs@, gs@.len() as int);
            let body = status_rows(gs@, gs@.len() as int);
            assert(spec_flatten(grouping, caption) == c + body);
            assert forall|r: SidebarRow| body.contains(r) implies spec_flatten(grouping, caption).contains(r) by {
                lemma_contains_concat(c, body, r);
            }
        },
        Grouping::Project(gs) => {
            assert(gs@.len() == gs.len());
            lemma_project_rows_cover(gs@, gs@.len() as int);
            let body = project_rows(gs@, gs@.len() as int);
            assert(spec_flatten(grouping, caption) == c + body);
            assert forall|r: SidebarRow| body.contains(r) implies spec_flatten(grouping, caption).contains(r) by {
                lemma_contains_concat(c, body, r);
            }
        },
        Grouping::Date(_) => {},
    }
}

/// A date grouping places every session exactly once, and nothing else:
/// a pinned session in the leading `Pinned` section, any other under its
/// bucket, numbered among the buckets before it that still have rows; each
/// section keeps the sessions in source order (bucket by bucket, then as
/// listed). The `Pinned` header leads exactly when a session is pinned,
/// and a bucket draws its header exactly when it still has an unpinned
/// session, numbered by that rank.
pub proof fn lemma_date_grouping_places_each_session(grouping: Grouping)
    requires
        grouping is Date,
    ensures
        ({
            let gs = grouping->Date_0@;
            let rows = spec_flatten(grouping, false);
            &&& forall|g: int, s: int|
                0 <= g < gs.len() && 0 <= s < gs[g].sessions@.len() ==> rows.contains(
                    #[trigger] session_row_for(gs, g, s),
                )
            &&& forall|i: int|
                0 <= i < rows.len() && (#[trigger] rows[i] is Session) ==> is_session_row_of(gs, rows[i])
            &&& forall|i: int, j: int|
                0 <= i < j < rows.len() && (#[trigger] rows[i] is Session) && (#[trigger] rows[j] is Session)
                    && (rows[i]->Session_scope is Pinned) == (rows[j]->Session_scope is Pinned) ==> row_before(
                    rows[i],
                    rows[j],
                )
            &&& forall|i: int, j: int|
                0 <= i < rows.len() && 0 <= j < rows.len() && (#[trigger] rows[i] is Session) && (
                #[trigger] rows[j] is Session) && rows[i]->Session_group == rows[j]->Session_group
                    && rows[i]->Session_session == rows[j]->Session_session ==> i == j
            &&& (rows.len() > 0 && rows[0] is PinnedHeader) <==> exists|g: int, s: int|
                0 <= g < gs.len() && 0 <= s < gs[g].sessions@.len() && #[trigger] gs[g].sessions@[s].pinned
            &&& forall|i: int| 0 <= i < rows.len() && (#[trigger] rows[i] is PinnedHeader) ==> i == 0
            &&& forall|i: int|
                0 <= i < rows.len() && (#[trigger] rows[i] is DateHeader) ==> is_header_of(gs, rows[i])
            &&& forall|g: int|
                0 <= g < gs.len() && #[trigger] has_unpinned(gs[g]) ==> rows.contains(
                    SidebarRow::DateHeader { group: g as usize, dated: dated_count(gs, g) as usize },
                )
        }),
{
    let gs = grouping->Date_0@;
    assert(gs.len() == grouping->Date_0.len());
    let n = gs.len() as int;
    let rows = spec_flatten(grouping, false);
    lemma_pinned_rows_placed(gs, n);
    lemma_bucket_rows_placed(gs, n);
    let pinned = pinned_rows(gs, n);
    let p: Seq<SidebarRow> = if pinned.len() > 0 {
        seq![SidebarRow::PinnedHeader] + pinned
    } else {
        seq![]
    };
    let b = bucket_rows(gs, n);
    assert(rows == date_rows(gs));
    assert(rows == p + b);
    // Which part of the rows each index falls in.
    assert forall|i: int| 0 <= i < rows.len() implies {
        &&& i < p.len() ==> (if i == 0 {
            rows[i] is PinnedHeader
        } else {
            rows[i] == pinned[i - 1]
        })
        &&& i >= p.len() ==> rows[i] == b[i - p.len()]
    } by {
        if i < p.len() {
            if i == 0 {
                assert(rows[i] == p[0]);
            } else {
                assert(rows[i] == p[i]);
                assert(p[i] == pinned[i - 1]);
            }
        } else {
            assert(rows[i] == b[i - p.len()]);
        }
    }
    assert forall|g: int, s: int| 0 <= g < gs.len() && 0 <= s < gs[g].sessions@.len() implies rows.contains(
        #[trigger] session_row_for(gs, g, s),
    ) by {
        let r = session_row_for(gs, g, s);
        if gs[g].sessions@[s].pinned {
            assert(pinned.contains(r));
            let k = choose|k: int| 0 <= k < pinned.len() && pinned[k] == r;
            assert(rows[k + 1] == r);
        } else {
            lemma_contains_concat(p, b, r);
        }
    }
    assert forall|i: int, j: int|
        0 <= i < j < rows.len() && (#[trigger] rows[i] is Session) && (#[trigger] rows[j] is Session) && (
        rows[i]->Session_scope is Pinned) == (rows[j]->Session_scope is Pinned) implies row_before(
        rows[i],
        rows[j],
    ) by {
        if j < p.len() {
            assert(pinned[i - 1] == rows[i] && pinned[j - 1] == rows[j]);
        } else if i >= p.len() {
            assert(b[i - p.len()] == rows[i] && b[j - p.len()] == rows[j]);
        } else {
            assert(pinned[i - 1] == rows[i]);
            assert(b[j - p.len()] == rows[j]);
        }
    }
    assert forall|i: int, j: int|
        0 <= i < rows.len() && 0 <= j < rows.len() && (#[trigger] rows[i] is Session) && (
        #[trigger] rows[j] is Session) && rows[i]->Session_group == rows[j]->Session_group
            && rows[i]->Session_session == rows[j]->Session_session implies i == j by {
        if i < p.len() && j < p.len() {
            assert(pinned[i - 1] == rows[i] && pinned[j - 1] == rows[j]);
        } else if i >= p.len() && j >= p.len() {
            assert(b[i - p.len()] == rows[i] && b[j - p.len()] == rows[j]);
        } else if i < p.len() {
            assert(pinned[i - 1] == rows[i]);
            assert(b[j - p.len()] == rows[j]);
        } else {
            assert(pinned[j - 1] == rows[j]);
            assert(b[i - p.len()] == rows[i]);
        }
    }
    assert forall|i: int| 0 <= i < rows.len() && (#[trigger] rows[i] is Session) implies is_session_row_of(
        gs,
        rows[i],
    ) by {
        if i < p.len() {
            assert(pinned[i - 1] == rows[i]);
        } else {
            assert(b[i - p.len()] == rows[i]);
        }
    }
    assert forall|i: int| 0 <= i < rows.len() && (#[trigger] rows[i] is PinnedHeader) implies i == 0 by {
        if i >= p.len() {
            assert(b[i - p.len()] == rows[i]);
        } else if i > 0 {
            assert(pinned[i - 1] == rows[i]);
        }
    }
    assert forall|i: int| 0 <= i < rows.len() && (#[trigger] rows[i] is DateHeader) implies is_header_of(
        gs,
        rows[i],
    ) by {
        if i >= p.len() {
            assert(b[i - p.len()] == rows[i]);
        } else if i > 0 {
            assert(pinned[i - 1] == rows[i]);
        }
    }
    assert forall|g: int| 0 <= g < gs.len() && #[trigger] has_unpinned(gs[g]) implies rows.contains(
        SidebarRow::DateHeader { group: g as usize, dated: dated_count(gs, g) as usize },
    ) by {
        lemma_contains_concat(p, b, SidebarRow::DateHeader { group: g as usize, dated: dated_count(gs, g) as usize });
    }
    if exists|g: int, s: int|
        0 <= g < gs.len() && 0 <= s < gs[g].sessions@.len() && #[trigger] gs[g].sessions@[s].pinned {
        let (g, s) = choose|g: int, s: int|
            0 <= g < gs.len() && 0 <= s < gs[g].sessions@.len() && #[trigger] gs[g].sessions@[s].pinned;
        assert(pinned.contains(session_row_for(gs, g, s)));
        assert(rows[0] is PinnedHeader);
    } else if pinned.len() > 0 {
        let row = pinned[0];
        assert(is_session_row_of(gs, row));
        assert(gs[row->Session_group as int].sessions@[row->Session_session as int].pinned);
    }
}

} // verus!
