//! The open issues of the overview: newest first, and how each one is shown.

use vstd::prelude::*;

use crate::pages::IssueTemplate;

verus! {

/// A recorded failure as the store holds it: when it happened (seconds since
/// the epoch and the nanoseconds within that second), its outcome and status
/// code, and the monitor it concerns.
pub struct IssueRecord {
    pub occurred_secs: i64,
    pub occurred_nanos: u32,
    pub success: bool,
    pub http_code: Option<i64>,
    pub name: String,
    pub target: String,
}

/// `a` happened strictly after `b`.
pub open spec fn strictly_newer(a: IssueRecord, b: IssueRecord) -> bool {
    a.occurred_secs > b.occurred_secs || (a.occurred_secs == b.occurred_secs
        && a.occurred_nanos > b.occurred_nanos)
}

/// `a` and `b` happened at the same instant.
pub open spec fn same_instant(a: IssueRecord, b: IssueRecord) -> bool {
    a.occurred_secs == b.occurred_secs && a.occurred_nanos == b.occurred_nanos
}

/// The issues are ordered newest first.
pub open spec fn newest_first(s: Seq<IssueRecord>) -> bool {
    forall|a: int, b: int| 0 <= a < b < s.len() ==> !strictly_newer(#[trigger] s[b], #[trigger] s[a])
}

/// `p` lists each index below `n` exactly once.
pub open spec fn is_permutation(p: Seq<int>, n: nat) -> bool {
    &&& p.len() == n
    &&& forall|k: int| 0 <= k < n ==> 0 <= #[trigger] p[k] < n
    &&& forall|a: int, b: int| 0 <= a < b < n ==> #[trigger] p[a] != #[trigger] p[b]
}

/// `sorted` is `original` reordered newest first by the permutation `p`,
/// keeping issues of the same instant in their original order.
pub open spec fn stable_newest_first_by(
    original: Seq<IssueRecord>,
    sorted: Seq<IssueRecord>,
    p: Seq<int>,
) -> bool {
    &&& is_permutation(p, original.len())
    &&& sorted.len() == original.len()
    &&& forall|k: int| 0 <= k < sorted.len() ==> #[trigger] sorted[k] == original[p[k]]
    &&& newest_first(sorted)
    &&& forall|a: int, b: int|
        0 <= a < b < sorted.len() && same_instant(#[trigger] sorted[a], #[trigger] sorted[b])
            ==> p[a] < p[b]
}

fn newer_than(a: &IssueRecord, b: &IssueRecord) -> (newer: bool)
    ensures
        newer == strictly_newer(*a, *b),
{
    a.occurred_secs > b.occurred_secs || (a.occurred_secs == b.occurred_secs
        && a.occurred_nanos > b.occurred_nanos)
}

/// Orders the issues newest first; issues of the same instant keep the order
/// in which they came (a stable sort, as `sort_by` is).
pub fn sort_newest_first(issues: Vec<IssueRecord>) -> (sorted: Vec<IssueRecord>)
    ensures
        exists|p: Seq<int>| stable_newest_first_by(issues@, sorted@, p),
{
    let ghost original = issues@;
    let ghost n = issues@.len();
    let mut rest = issues;
    let mut sorted: Vec<IssueRecord> = Vec::new();
    let ghost mut p: Seq<int> = Seq::empty();
    while rest.len() > 0
        invariant
            rest@ == original.take(rest.len() as int),
            rest.len() <= n,
            n == original.len(),
            sorted.len() + rest.len() == n,
            p.len() == sorted.len(),
            forall|k: int| 0 <= k < sorted.len() ==> rest.len() <= #[trigger] p[k] < n,
            forall|a: int, b: int| 0 <= a < b < sorted.len() ==> #[trigger] p[a] != #[trigger] p[b],
            forall|k: int| 0 <= k < sorted.len() ==> #[trigger] sorted@[k] == original[p[k]],
            newest_first(sorted@),
            forall|a: int, b: int|
                0 <= a < b < sorted.len() && same_instant(#[trigger] sorted@[a], #[trigger] sorted@[b])
                    ==> p[a] < p[b],
        decreases rest.len(),
    {
        let ghost i = (rest.len() - 1) as int;
        let item = rest.pop().unwrap();
        assert(item == original[i]);
        assert(rest@ =~= original.take(i));
        let mut pos: usize = 0;
        while pos < sorted.len() && newer_than(&sorted[pos], &item)
            invariant
                pos <= sorted.len(),
                forall|k: int| 0 <= k < pos ==> strictly_newer(#[trigger] sorted@[k], item),
            decreases sorted.len() - pos,
        {
            pos = pos + 1;
        }
        let ghost old_sorted = sorted@;
        let ghost old_p = p;
        assert(forall|k: int| pos <= k < old_sorted.len() ==> !strictly_newer(#[trigger] old_sorted[k], item)) by {
            if pos < old_sorted.len() {
                assert(!strictly_newer(old_sorted[pos as int], item));
                assert forall|k: int| pos <= k < old_sorted.len() implies !strictly_newer(#[trigger] old_sorted[k], item) by {
                    if k > pos {
                        assert(!strictly_newer(old_sorted[k], old_sorted[pos as int]));
                    }
                }
            }
        }
        sorted.insert(pos, item);
        proof {
            p = old_p.insert(pos as int, i);
            assert forall|k: int| 0 <= k < sorted.len() implies #[trigger] sorted@[k] == original[p[k]] by {
                if k < pos {
                    assert(sorted@[k] == old_sorted[k]);
                } else if k > pos {
                    assert(sorted@[k] == old_sorted[k - 1]);
                }
            }
            assert forall|k: int| 0 <= k < sorted.len() implies rest.len() <= #[trigger] p[k] < n by {
                if k < pos {
                    assert(p[k] == old_p[k]);
                } else if k > pos {
                    assert(p[k] == old_p[k - 1]);
                }
            }
            assert forall|a: int, b: int| 0 <= a < b < sorted.len() implies #[trigger] p[a] != #[trigger] p[b] by {
                if a < pos && b < pos {
                    assert(p[a] == old_p[a] && p[b] == old_p[b]);
                } else if a < pos && b > pos {
                    assert(p[a] == old_p[a] && p[b] == old_p[b - 1]);
                } else if a > pos && b > pos {
                    assert(p[a] == old_p[a - 1] && p[b] == old_p[b - 1]);
                } else if a == pos {
                    assert(p[b] == old_p[b - 1]);
                } else {
                    assert(p[a] == old_p[a]);
                }
            }
            assert forall|a: int, b: int| 0 <= a < b < sorted.len() implies !strictly_newer(#[trigger] sorted@[b], #[trigger] sorted@[a]) by {
                if a < pos && b < pos {
                    assert(sorted@[a] == old_sorted[a] && sorted@[b] == old_sorted[b]);
                } else if a < pos && b > pos {
                    assert(sorted@[a] == old_sorted[a] && sorted@[b] == old_sorted[b - 1]);
                } else if a > pos && b > pos {
                    assert(sorted@[a] == old_sorted[a - 1] && sorted@[b] == old_sorted[b - 1]);
                } else if a == pos {
                    assert(sorted@[b] == old_sorted[b - 1]);
                } else {
                    assert(sorted@[a] == old_sorted[a]);
                }
            }
            assert forall|a: int, b: int|
                0 <= a < b < sorted.len() && same_instant(#[trigger] sorted@[a], #[trigger] sorted@[b])
                    implies p[a] < p[b] by {
                if a < pos && b < pos {
                    assert(sorted@[a] == old_sorted[a] && sorted@[b] == old_sorted[b]);
                    assert(p[a] == old_p[a] && p[b] == old_p[b]);
                } else if a < pos && b > pos {
                    assert(sorted@[a] == old_sorted[a] && sorted@[b] == old_sorted[b - 1]);
                    assert(p[a] == old_p[a] && p[b] == old_p[b - 1]);
                } else if a > pos && b > pos {
                    assert(sorted@[a] == old_sorted[a - 1] && sorted@[b] == old_sorted[b - 1]);
                    assert(p[a] == old_p[a - 1] && p[b] == old_p[b - 1]);
                } else if a == pos {
                    assert(p[b] == old_p[b - 1]);
                } else {
                    assert(sorted@[a] == old_sorted[a]);
                }
            }
        }
    }
    assert(stable_newest_first_by(original, sorted@, p));
    sorted
}

/// The status code as the issue line shows it: truncated to 16 bits, as
/// `code as u16` does.
pub open spec fn shown_http_code(code: Option<i64>) -> Option<u16> {
    match code {
        Some(c) => Some(c as u16),
        None => None,
    }
}

/// The line of an issue, given the text of its time stamp.
pub fn issue_view(record: IssueRecord, timestamp: String) -> (line: IssueTemplate)
    ensures
        line.timestamp == timestamp,
        line.success == record.success,
        line.http_code == shown_http_code(record.http_code),
        record.http_code matches Some(c) ==> line.http_code == Some(c as u16),
        record.http_code is None ==> line.http_code is None,
        line.name == record.name,
        line.target == record.target,
{
    let http_code = match record.http_code {
        Some(c) => Some(c as u16),
        None => None,
    };
    IssueTemplate {
        timestamp,
        success: record.success,
        http_code,
        name: record.name,
        target: record.target,
    }
}


/// The issue line shows the recorded status code, truncated to 16 bits; a
/// code that fits is shown as it is; no code shows as none.
pub proof fn lemma_issue_shows_recorded_code(code: i64)
    ensures
        shown_http_code(Some(code)) == Some(code as u16),
        0 <= code <= 65535 ==> (shown_http_code(Some(code)) matches Some(shown) && shown as int
            == code as int),
        shown_http_code(None) is None,
{
}

} // verus!
