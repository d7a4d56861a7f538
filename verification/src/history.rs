//! History Ledger: the append-only record of every completed operation.
//!
//! A record is one newline-terminated line of four ` | `-separated fields:
//! timestamp, command kind, target label, outcome token.  The ledger file
//! is the concatenation of such lines; it is appended to on every
//! operation attempt and read back for display.  Reading tolerates foreign
//! or malformed lines by skipping them, so files written by older or newer
//! layouts can coexist.
//!
//! The timestamp and kind fields never contain a bar, so they are found by
//! scanning separators from the left; the outcome token is found by the
//! last separator from the right, which keeps a label containing ` | `
//! intact.

use vstd::prelude::*;
use crate::clock::clean_text;
use crate::text::{match_at, push_all};
use crate::words::{
    w_failed_token, w_failed_token_bytes, w_field_sep, w_field_sep_bytes, w_success_token,
    w_success_token_bytes,
};

verus! {

/// One ledger record.
#[derive(Debug, PartialEq, Eq)]
pub struct HistoryRecord {
    /// The rendered timestamp of the attempt.
    pub timestamp: Vec<u8>,
    /// The command kind token (`tickle`, `start`, `stop`).
    pub kind: Vec<u8>,
    /// The target's label: a service name or a compose-stack label.
    pub label: Vec<u8>,
    /// Whether the operation succeeded.
    pub success: bool,
}

/// The mathematical shape of one record.
pub struct RecordData {
    pub timestamp: Seq<u8>,
    pub kind: Seq<u8>,
    pub label: Seq<u8>,
    pub success: bool,
}

impl View for HistoryRecord {
    type V = RecordData;

    open spec fn view(&self) -> RecordData {
        RecordData {
            timestamp: self.timestamp@,
            kind: self.kind@,
            label: self.label@,
            success: self.success,
        }
    }
}

impl DeepView for HistoryRecord {
    type V = RecordData;

    open spec fn deep_view(&self) -> RecordData {
        self.view()
    }
}

/// A record that serializes into one well-formed line: the left fields
/// carry neither line feeds nor bars, the label no line feeds.
pub open spec fn record_wf(r: RecordData) -> bool {
    &&& clean_text(r.timestamp)
    &&& clean_text(r.kind)
    &&& forall|i: int| 0 <= i < r.label.len() ==> r.label[i] != 10
}

/// The outcome token of a result.
pub open spec fn outcome_token(success: bool) -> Seq<u8> {
    if success {
        w_success_token()
    } else {
        w_failed_token()
    }
}

/// One record's line, without its terminating line feed.
pub open spec fn line_body_of(r: RecordData) -> Seq<u8> {
    r.timestamp + w_field_sep() + r.kind + w_field_sep() + r.label + w_field_sep() + outcome_token(
        r.success,
    )
}

/// One record's full line, line feed included.
pub open spec fn line_of(r: RecordData) -> Seq<u8> {
    line_body_of(r) + seq![10u8]
}

/// The whole ledger that a run of records serializes to.
pub open spec fn ledger_of(rs: Seq<RecordData>) -> Seq<u8>
    decreases rs.len(),
{
    if rs.len() == 0 {
        Seq::empty()
    } else {
        line_of(rs[0]) + ledger_of(rs.drop_first())
    }
}

/// Renders one record as its ledger line.
pub fn render_record(r: &HistoryRecord) -> (line: Vec<u8>)
    ensures
        line@ == line_of(r@),
{
    let mut line: Vec<u8> = Vec::new();
    push_all(&mut line, r.timestamp.as_slice());
    push_all(&mut line, w_field_sep_bytes().as_slice());
    push_all(&mut line, r.kind.as_slice());
    push_all(&mut line, w_field_sep_bytes().as_slice());
    push_all(&mut line, r.label.as_slice());
    push_all(&mut line, w_field_sep_bytes().as_slice());
    if r.success {
        push_all(&mut line, w_success_token_bytes().as_slice());
    } else {
        push_all(&mut line, w_failed_token_bytes().as_slice());
    }
    line.push(10);
    assert(line@ =~= line_of(r@));
    line
}

/// The first position of `b` in `s`; the length when `b` does not occur.
pub open spec fn find_byte(s: Seq<u8>, b: u8) -> nat
    decreases s.len(),
{
    if s.len() == 0 {
        0
    } else if s[0] == b {
        0
    } else {
        1 + find_byte(s.drop_first(), b)
    }
}

/// What [`find_byte`] finds: the first occurrence, or the length.
pub proof fn lemma_find_byte(s: Seq<u8>, b: u8)
    ensures
        0 <= find_byte(s, b) <= s.len(),
        find_byte(s, b) < s.len() ==> s[find_byte(s, b) as int] == b,
        forall|k: int| 0 <= k < find_byte(s, b) ==> s[k] != b,
    decreases s.len(),
{
    if s.len() > 0 && s[0] != b {
        lemma_find_byte(s.drop_first(), b);
        assert forall|k: int| 0 <= k < find_byte(s, b) implies s[k] != b by {
            if k > 0 {
                assert(s.drop_first()[k - 1] != b);
            }
        };
    }
}

/// The first position where the needle `n` matches in `s`; `-1` when it
/// never matches.
pub open spec fn first_match(s: Seq<u8>, n: Seq<u8>) -> int
    decreases s.len(),
{
    if n.len() == 0 {
        0
    } else if s.len() < n.len() {
        -1
    } else if s.subrange(0, n.len() as int) == n {
        0
    } else {
        let r = first_match(s.drop_first(), n);
        if r < 0 {
            -1
        } else {
            r + 1
        }
    }
}

/// The last position where the needle `n` matches in `s`; `-1` when it
/// never matches.
pub open spec fn last_match(s: Seq<u8>, n: Seq<u8>) -> int
    decreases s.len(),
{
    if n.len() == 0 {
        s.len() as int
    } else if s.len() < n.len() {
        -1
    } else if s.subrange(s.len() - n.len(), s.len() as int) == n {
        s.len() - n.len()
    } else {
        last_match(s.drop_last(), n)
    }
}

proof fn lemma_match_at_drop_first(s: Seq<u8>, n: Seq<u8>, i: int)
    requires
        s.len() >= 1,
    ensures
        match_at(s.drop_first(), n, i) <==> (match_at(s, n, i + 1) && i >= 0),
{
    if 0 <= i && i + n.len() <= s.drop_first().len() {
        assert(s.drop_first().subrange(i, i + n.len() as int) =~= s.subrange(
            i + 1,
            i + 1 + n.len() as int,
        ));
    }
}

/// What [`first_match`] finds: the least match position, or `-1` when the
/// needle matches nowhere.
pub proof fn lemma_first_match(s: Seq<u8>, n: Seq<u8>)
    ensures
        first_match(s, n) >= -1,
        first_match(s, n) == -1 ==> forall|i: int| !match_at(s, n, i),
        first_match(s, n) >= 0 ==> match_at(s, n, first_match(s, n)),
        forall|k: int| 0 <= k < first_match(s, n) ==> !match_at(s, n, k),
        first_match(s, n) >= 0 ==> first_match(s, n) + n.len() <= s.len(),
    decreases s.len(),
{
    if n.len() == 0 {
        assert(s.subrange(0, 0) =~= n);
        assert(match_at(s, n, 0));
    } else if s.len() < n.len() {
        assert(forall|i: int| !match_at(s, n, i));
    } else if s.subrange(0, n.len() as int) == n {
        assert(match_at(s, n, 0));
    } else {
        lemma_first_match(s.drop_first(), n);
        assert(!match_at(s, n, 0));
        assert forall|i: int| 0 <= i implies (match_at(s, n, i + 1) <==> match_at(
            s.drop_first(),
            n,
            i,
        )) by {
            lemma_match_at_drop_first(s, n, i);
        };
        let r = first_match(s.drop_first(), n);
        if r == -1 {
            assert forall|i: int| true implies !match_at(s, n, i) by {
                if i >= 1 {
                    lemma_match_at_drop_first(s, n, i - 1);
                }
            };
        } else {
            lemma_match_at_drop_first(s, n, r);
            assert forall|k: int| 0 <= k < r + 1 implies !match_at(s, n, k) by {
                if k >= 1 {
                    lemma_match_at_drop_first(s, n, k - 1);
                }
            };
        }
    }
}

proof fn lemma_match_at_drop_last(s: Seq<u8>, n: Seq<u8>, i: int)
    requires
        s.len() >= 1,
    ensures
        match_at(s.drop_last(), n, i) <==> (match_at(s, n, i) && i + n.len() <= s.len() - 1),
{
    if 0 <= i && i + n.len() <= s.len() - 1 {
        assert(s.drop_last().subrange(i, i + n.len() as int) =~= s.subrange(
            i,
            i + n.len() as int,
        ));
    }
}

/// What [`last_match`] finds: the greatest match position, or `-1` when
/// the needle matches nowhere.
pub proof fn lemma_last_match(s: Seq<u8>, n: Seq<u8>)
    ensures
        last_match(s, n) >= -1,
        last_match(s, n) == -1 ==> forall|i: int| !match_at(s, n, i),
        last_match(s, n) >= 0 ==> match_at(s, n, last_match(s, n)),
        forall|k: int| k > last_match(s, n) ==> !match_at(s, n, k),
        last_match(s, n) >= 0 ==> last_match(s, n) + n.len() <= s.len(),
    decreases s.len(),
{
    if n.len() == 0 {
        assert(s.subrange(s.len() as int, s.len() as int) =~= n);
        assert(match_at(s, n, s.len() as int));
    } else if s.len() < n.len() {
        assert(forall|i: int| !match_at(s, n, i));
    } else if s.subrange(s.len() - n.len(), s.len() as int) == n {
        assert(match_at(s, n, s.len() - n.len()));
        assert(forall|k: int| k > s.len() - n.len() ==> !match_at(s, n, k));
    } else {
        lemma_last_match(s.drop_last(), n);
        assert(!match_at(s, n, s.len() - n.len()));
        let r = last_match(s.drop_last(), n);
        assert forall|k: int| k > r implies !match_at(s, n, k) by {
            lemma_match_at_drop_last(s, n, k);
            if k != s.len() - n.len() && match_at(s, n, k) {
                assert(k + n.len() <= s.len() - 1);
                assert(match_at(s.drop_last(), n, k));
            }
        };
        if r >= 0 {
            lemma_match_at_drop_last(s, n, r);
        }
    }
}

/// What one ledger line parses to, if anything: the timestamp and kind cut
/// at the first separators from the left, the outcome token at the last
/// separator from the right, the label in between.
pub open spec fn parse_line_spec(line: Seq<u8>) -> Option<RecordData> {
    let i1 = first_match(line, w_field_sep());
    if i1 < 0 {
        None
    } else {
        let rest = line.subrange(i1 + 3, line.len() as int);
        let i2 = first_match(rest, w_field_sep());
        if i2 < 0 {
            None
        } else {
            let mid = rest.subrange(i2 + 3, rest.len() as int);
            let j = last_match(mid, w_field_sep());
            if j < 0 {
                None
            } else {
                let token = mid.subrange(j + 3, mid.len() as int);
                if token == w_success_token() || token == w_failed_token() {
                    Some(
                        RecordData {
                            timestamp: line.subrange(0, i1),
                            kind: rest.subrange(0, i2),
                            label: mid.subrange(0, j),
                            success: token == w_success_token(),
                        },
                    )
                } else {
                    None
                }
            }
        }
    }
}

/// The records that a whole ledger parses to, malformed lines skipped.
pub open spec fn parse_ledger_spec(s: Seq<u8>) -> Seq<RecordData>
    decreases s.len(),
{
    if s.len() == 0 {
        Seq::empty()
    } else {
        let e = find_byte(s, 10);
        let line = s.subrange(0, e as int);
        let rest = if e < s.len() {
            s.subrange(e + 1 as int, s.len() as int)
        } else {
            Seq::<u8>::empty()
        };
        let head = match parse_line_spec(line) {
            Some(r) => seq![r],
            None => Seq::<RecordData>::empty(),
        };
        head + parse_ledger_spec(rest)
    }
}

/// Finds the first position of `b` in `s`, or the length of `s`.
fn find_byte_in(s: &[u8], b: u8) -> (r: usize)
    ensures
        r == find_byte(s@, b),
        r <= s@.len(),
{
    proof {
        lemma_find_byte(s@, b);
    }
    let n = s.len();
    let mut i: usize = 0;
    while i < n
        invariant
            i <= n,
            n == s@.len(),
            forall|k: int| 0 <= k < i ==> s@[k] != b,
            0 <= find_byte(s@, b) <= s@.len(),
            find_byte(s@, b) < s@.len() ==> s@[find_byte(s@, b) as int] == b,
            forall|k: int| 0 <= k < find_byte(s@, b) ==> s@[k] != b,
        decreases n - i,
    {
        if s[i] == b {
            assert(i == find_byte(s@, b)) by {
                if i < find_byte(s@, b) {
                    assert(s@[i as int] != b);
                }
            };
            return i;
        }
        i += 1;
    }
    assert(find_byte(s@, b) == s@.len()) by {
        if find_byte(s@, b) < s@.len() {
            assert(s@[find_byte(s@, b) as int] != b);
        }
    };
    n
}

/// Finds the first match of `n` in `s`.
fn find_first_match(s: &[u8], n: &[u8]) -> (r: Option<usize>)
    ensures
        (match r {
            Some(i) => i == first_match(s@, n@) && i >= 0,
            None => first_match(s@, n@) == -1,
        }),
{
    proof {
        lemma_first_match(s@, n@);
    }
    let sn = s.len();
    let nn = n.len();
    if nn > sn {
        assert(forall|i: int| !match_at(s@, n@, i));
        assert(first_match(s@, n@) == -1) by {
            if first_match(s@, n@) >= 0 {
                assert(match_at(s@, n@, first_match(s@, n@)));
            }
        };
        return None;
    }
    let mut i: usize = 0;
    while i <= sn - nn
        invariant
            i <= sn - nn + 1,
            nn <= sn,
            sn == s@.len(),
            nn == n@.len(),
            forall|k: int| 0 <= k < i ==> !match_at(s@, n@, k),
            first_match(s@, n@) >= -1,
            first_match(s@, n@) >= 0 ==> match_at(s@, n@, first_match(s@, n@)),
            first_match(s@, n@) == -1 ==> forall|k: int| !match_at(s@, n@, k),
            forall|k: int| 0 <= k < first_match(s@, n@) ==> !match_at(s@, n@, k),
        decreases sn + 1 - nn - i,
    {
        let mut j: usize = 0;
        while j < nn && s[i + j] == n[j]
            invariant
                j <= nn,
                i + nn <= sn,
                sn == s@.len(),
                nn == n@.len(),
                forall|t: int| 0 <= t < j ==> s@[i + t] == n@[t],
            decreases nn - j,
        {
            j += 1;
        }
        if j == nn {
            assert(s@.subrange(i as int, i + nn as int) =~= n@);
            assert(match_at(s@, n@, i as int));
            assert(i == first_match(s@, n@)) by {
                if i < first_match(s@, n@) {
                    assert(!match_at(s@, n@, i as int));
                }
                if first_match(s@, n@) == -1 {
                    assert(!match_at(s@, n@, i as int));
                }
            };
            return Some(i);
        }
        assert(!match_at(s@, n@, i as int)) by {
            if match_at(s@, n@, i as int) {
                assert(s@.subrange(i as int, i + nn as int)[j as int] == n@[j as int]);
            }
        };
        i += 1;
    }
    assert(first_match(s@, n@) == -1) by {
        if first_match(s@, n@) >= 0 {
            assert(match_at(s@, n@, first_match(s@, n@)));
            assert(first_match(s@, n@) + nn <= sn);
        }
    };
    None
}

/// Finds the last match of `n` in `s`.
fn find_last_match(s: &[u8], n: &[u8]) -> (r: Option<usize>)
    ensures
        (match r {
            Some(i) => i == last_match(s@, n@) && i >= 0,
            None => last_match(s@, n@) == -1,
        }),
{
    proof {
        lemma_last_match(s@, n@);
    }
    let sn = s.len();
    let nn = n.len();
    if nn == 0 {
        return Some(sn);
    }
    if nn > sn {
        assert(last_match(s@, n@) == -1) by {
            if last_match(s@, n@) >= 0 {
                assert(match_at(s@, n@, last_match(s@, n@)));
            }
        };
        return None;
    }
    let mut i: usize = sn - nn + 1;
    while i > 0
        invariant
            i <= sn - nn + 1,
            nn <= sn,
            sn == s@.len(),
            nn == n@.len(),
            forall|k: int| k >= i ==> !match_at(s@, n@, k),
            last_match(s@, n@) >= -1,
            last_match(s@, n@) >= 0 ==> match_at(s@, n@, last_match(s@, n@)),
            last_match(s@, n@) == -1 ==> forall|k: int| !match_at(s@, n@, k),
            forall|k: int| k > last_match(s@, n@) ==> !match_at(s@, n@, k),
        decreases i,
    {
        let p = i - 1;
        let mut j: usize = 0;
        while j < nn && s[p + j] == n[j]
            invariant
                j <= nn,
                p + nn <= sn,
                sn == s@.len(),
                nn == n@.len(),
                forall|t: int| 0 <= t < j ==> s@[p + t] == n@[t],
            decreases nn - j,
        {
            j += 1;
        }
        if j == nn {
            assert(s@.subrange(p as int, p + nn as int) =~= n@);
            assert(match_at(s@, n@, p as int));
            assert(p == last_match(s@, n@)) by {
                if p > last_match(s@, n@) {
                    assert(!match_at(s@, n@, p as int));
                }
                if last_match(s@, n@) > p {
                    assert(!match_at(s@, n@, last_match(s@, n@)));
                }
            };
            return Some(p);
        }
        assert(!match_at(s@, n@, p as int)) by {
            if match_at(s@, n@, p as int) {
                assert(s@.subrange(p as int, p + nn as int)[j as int] == n@[j as int]);
            }
        };
        i -= 1;
    }
    assert(last_match(s@, n@) == -1) by {
        if last_match(s@, n@) >= 0 {
            assert(match_at(s@, n@, last_match(s@, n@)));
        }
    };
    None
}

/// Parses one ledger line; `None` for a line this layout does not know.
pub fn parse_line(line: &[u8]) -> (r: Option<HistoryRecord>)
    ensures
        (match parse_line_spec(line@) {
            Some(rd) => r matches Some(rec) && rec@ == rd,
            None => r is None,
        }),
{
    let sep = w_field_sep_bytes();
    let i1 = match find_first_match(line, sep.as_slice()) {
        Some(i) => i,
        None => {
            return None;
        },
    };
    proof {
        lemma_first_match(line@, sep@);
        assert(sep@.len() == 3);
        assert(i1 + 3 <= line@.len());
    }
    let line_len = line.len();
    let rest = vstd::slice::slice_subrange(line, i1 + 3, line_len);
    let i2 = match find_first_match(rest, sep.as_slice()) {
        Some(i) => i,
        None => {
            return None;
        },
    };
    proof {
        lemma_first_match(rest@, sep@);
        assert(i2 + 3 <= rest@.len());
    }
    let rest_len = rest.len();
    let mid = vstd::slice::slice_subrange(rest, i2 + 3, rest_len);
    let j = match find_last_match(mid, sep.as_slice()) {
        Some(i) => i,
        None => {
            return None;
        },
    };
    proof {
        lemma_last_match(mid@, sep@);
        assert(j + 3 <= mid@.len());
    }
    let mid_len = mid.len();
    let token = vstd::slice::slice_subrange(mid, j + 3, mid_len);
    let is_success = crate::text::bytes_eq(token, w_success_token_bytes().as_slice());
    let is_failed = crate::text::bytes_eq(token, w_failed_token_bytes().as_slice());
    if !is_success && !is_failed {
        return None;
    }
    let timestamp = vstd::slice::slice_to_vec(vstd::slice::slice_subrange(line, 0, i1));
    let kind = vstd::slice::slice_to_vec(vstd::slice::slice_subrange(rest, 0, i2));
    let label = vstd::slice::slice_to_vec(vstd::slice::slice_subrange(mid, 0, j));
    Some(HistoryRecord { timestamp, kind, label, success: is_success })
}

/// Parses a whole ledger, skipping lines this layout does not know.
pub fn parse_ledger(s: &[u8]) -> (r: Vec<HistoryRecord>)
    ensures
        r.deep_view() == parse_ledger_spec(s@),
{
    let mut r: Vec<HistoryRecord> = Vec::new();
    let n = s.len();
    let mut pos: usize = 0;
    assert(s@.subrange(0, n as int) =~= s@);
    assert(r.deep_view() =~= Seq::<RecordData>::empty());
    assert(Seq::<RecordData>::empty() + parse_ledger_spec(s@) =~= parse_ledger_spec(s@));
    while pos < n
        invariant
            pos <= n,
            n == s@.len(),
            parse_ledger_spec(s@) == r.deep_view() + parse_ledger_spec(
                s@.subrange(pos as int, n as int),
            ),
        decreases n - pos,
    {
        let ghost suffix = s@.subrange(pos as int, n as int);
        let tail = vstd::slice::slice_subrange(s, pos, n);
        let e = find_byte_in(tail, 10);
        let line = vstd::slice::slice_subrange(tail, 0, e);
        assert(line@ =~= suffix.subrange(0, e as int));
        let ghost head = (match parse_line_spec(line@) {
            Some(rd) => seq![rd],
            None => Seq::<RecordData>::empty(),
        });
        let ghost rest = (if e < suffix.len() {
            suffix.subrange(e + 1, suffix.len() as int)
        } else {
            Seq::<u8>::empty()
        });
        assert(parse_ledger_spec(suffix) == head + parse_ledger_spec(rest));
        let ghost prev = r.deep_view();
        match parse_line(line) {
            Some(rec) => {
                let ghost rv = rec@;
                r.push(rec);
                assert(r.deep_view() =~= prev + seq![rv]);
            },
            None => {},
        }
        assert(r.deep_view() == prev + head);
        if e == tail.len() {
            assert(rest =~= s@.subrange(n as int, n as int));
            pos = n;
        } else {
            assert(rest =~= s@.subrange(pos + e + 1, n as int));
            pos = pos + e + 1;
        }
    }
    assert(s@.subrange(n as int, n as int) =~= Seq::<u8>::empty());
    assert(r.deep_view() =~= r.deep_view() + parse_ledger_spec(Seq::empty()));
    r
}

/// Where the displayed window starts: `show` renders either every record
/// or only the most recent `limit`.
pub open spec fn show_start_spec(n: int, limit: Option<u64>) -> int {
    match limit {
        None => 0,
        Some(k) => if k < n {
            n - k
        } else {
            0
        },
    }
}

/// The index of the first record to display, given the record count and
/// the requested limit.
pub fn show_start(n: usize, limit: Option<u64>) -> (s: usize)
    ensures
        s == show_start_spec(n as int, limit),
        s <= n,
{
    match limit {
        None => 0,
        Some(k) => {
            if k < n as u64 {
                n - (k as usize)
            } else {
                0
            }
        },
    }
}

/// No byte of `s` is a line feed.
pub open spec fn no_newline(s: Seq<u8>) -> bool {
    forall|i: int| 0 <= i < s.len() ==> s[i] != 10
}

proof fn lemma_token_facts(success: bool)
    ensures
        forall|i: int|
            0 <= i < outcome_token(success).len() ==> outcome_token(success)[i] != 124
                && outcome_token(success)[i] != 32 && outcome_token(success)[i] != 10,
        outcome_token(success).len() >= 1,
        w_success_token() != w_failed_token(),
{
    let t = outcome_token(success);
    assert forall|i: int| 0 <= i < t.len() implies t[i] != 124 && t[i] != 32 && t[i] != 10 by {
        if success {
            if i == 0 {
                assert(t[0] == 83);
            } else if i == 1 {
                assert(t[1] == 85);
            } else if i == 2 {
                assert(t[2] == 67);
            } else if i == 3 {
                assert(t[3] == 67);
            } else if i == 4 {
                assert(t[4] == 69);
            } else if i == 5 {
                assert(t[5] == 83);
            } else {
                assert(t[6] == 83);
            }
        } else {
            if i == 0 {
                assert(t[0] == 70);
            } else if i == 1 {
                assert(t[1] == 65);
            } else if i == 2 {
                assert(t[2] == 73);
            } else if i == 3 {
                assert(t[3] == 76);
            } else if i == 4 {
                assert(t[4] == 69);
            } else {
                assert(t[5] == 68);
            }
        }
    };
    assert(w_success_token().len() == 7);
    assert(w_failed_token().len() == 6);
}

/// In `a ++ sep ++ tail`, with no bar anywhere in `a`, the first separator
/// match sits exactly at the end of `a`.
proof fn lemma_first_sep(a: Seq<u8>, tail: Seq<u8>)
    requires
        forall|i: int| 0 <= i < a.len() ==> a[i] != 124,
    ensures
        first_match(a + w_field_sep() + tail, w_field_sep()) == a.len(),
{
    let sep = w_field_sep();
    let s = a + sep + tail;
    assert(sep.len() == 3);
    assert(sep[0] == 32 && sep[1] == 124 && sep[2] == 32);
    lemma_first_match(s, sep);
    assert(s.subrange(a.len() as int, a.len() as int + 3) =~= sep);
    assert(match_at(s, sep, a.len() as int));
    assert forall|k: int| 0 <= k < a.len() implies !match_at(s, sep, k) by {
        if match_at(s, sep, k) {
            assert(s.subrange(k, k + 3)[1] == sep[1]);
            assert(s[k + 1] == 124);
            if k + 1 < a.len() {
                assert(s[k + 1] == a[k + 1]);
            } else {
                assert(k + 1 == a.len());
                assert(s[k + 1] == sep[0]);
            }
        }
    };
    let fm = first_match(s, sep);
    if fm == -1 {
        assert(!match_at(s, sep, a.len() as int));
        assert(false);
    } else if fm < a.len() {
        assert(match_at(s, sep, fm));
        assert(false);
    } else if fm > a.len() {
        assert(!match_at(s, sep, a.len() as int));
        assert(false);
    }
}

/// In `label ++ sep ++ token`, with a token free of bars and blanks, the
/// last separator match sits exactly at the end of the label.
proof fn lemma_last_sep(label: Seq<u8>, token: Seq<u8>)
    requires
        forall|i: int| 0 <= i < token.len() ==> token[i] != 124 && token[i] != 32,
    ensures
        last_match(label + w_field_sep() + token, w_field_sep()) == label.len(),
{
    let sep = w_field_sep();
    let s = label + sep + token;
    assert(sep.len() == 3);
    assert(sep[0] == 32 && sep[1] == 124 && sep[2] == 32);
    lemma_last_match(s, sep);
    assert(s.subrange(label.len() as int, label.len() as int + 3) =~= sep);
    assert(match_at(s, sep, label.len() as int));
    assert forall|k: int| k > label.len() implies !match_at(s, sep, k) by {
        if match_at(s, sep, k) {
            assert(s.subrange(k, k + 3)[0] == sep[0]);
            assert(s.subrange(k, k + 3)[1] == sep[1]);
            assert(s[k] == 32 && s[k + 1] == 124);
            if k == label.len() + 1 {
                assert(s[k] == sep[1]);
            } else if k == label.len() + 2 {
                assert(s[k + 1] == token[0]);
            } else {
                assert(s[k] == token[k - label.len() - 3]);
            }
        }
    };
    let lm = last_match(s, sep);
    if lm == -1 {
        assert(!match_at(s, sep, label.len() as int));
        assert(false);
    } else if lm < label.len() {
        assert(!match_at(s, sep, label.len() as int));
        assert(false);
    } else if lm > label.len() {
        assert(match_at(s, sep, lm));
        assert(false);
    }
}

/// A well-formed record's line body holds no line feed.
proof fn lemma_line_body_no_newline(r: RecordData)
    requires
        record_wf(r),
    ensures
        no_newline(line_body_of(r)),
{
    let sep = w_field_sep();
    assert(sep[0] == 32 && sep[1] == 124 && sep[2] == 32);
    lemma_token_facts(r.success);
    let b = line_body_of(r);
    let t1 = r.timestamp.len() as int;
    let t2 = t1 + 3 + r.kind.len();
    let t3 = t2 + 3 + r.label.len();
    assert forall|i: int| 0 <= i < b.len() implies b[i] != 10 by {
        if i < t1 {
            assert(b[i] == r.timestamp[i]);
        } else if i < t1 + 3 {
            assert(b[i] == sep[i - t1]);
            assert(sep[0] != 10 && sep[1] != 10 && sep[2] != 10);
        } else if i < t2 {
            assert(b[i] == r.kind[i - t1 - 3]);
        } else if i < t2 + 3 {
            assert(b[i] == sep[i - t2]);
            assert(sep[0] != 10 && sep[1] != 10 && sep[2] != 10);
        } else if i < t3 {
            assert(b[i] == r.label[i - t2 - 3]);
        } else if i < t3 + 3 {
            assert(b[i] == sep[i - t3]);
            assert(sep[0] != 10 && sep[1] != 10 && sep[2] != 10);
        } else {
            assert(b[i] == outcome_token(r.success)[i - t3 - 3]);
        }
    };
}

/// Parsing inverts rendering on one well-formed record's line body.
pub proof fn lemma_parse_render(r: RecordData)
    requires
        record_wf(r),
    ensures
        parse_line_spec(line_body_of(r)) == Some(r),
{
    let sep = w_field_sep();
    let token = outcome_token(r.success);
    lemma_token_facts(r.success);
    let body = line_body_of(r);
    let tail1 = r.kind + sep + r.label + sep + token;
    assert(body =~= r.timestamp + sep + tail1);
    lemma_first_sep(r.timestamp, tail1);
    let i1 = first_match(body, sep);
    assert(i1 == r.timestamp.len());
    assert(body.subrange(0, i1) =~= r.timestamp);
    let rest = body.subrange(i1 + 3, body.len() as int);
    let tail2 = r.label + sep + token;
    assert(rest =~= r.kind + sep + tail2);
    lemma_first_sep(r.kind, tail2);
    let i2 = first_match(rest, sep);
    assert(i2 == r.kind.len());
    assert(rest.subrange(0, i2) =~= r.kind);
    let mid = rest.subrange(i2 + 3, rest.len() as int);
    assert(mid =~= tail2);
    lemma_last_sep(r.label, token);
    assert(last_match(tail2, sep) == r.label.len());
    let j = last_match(mid, sep);
    assert(j == r.label.len());
    assert(mid.subrange(0, j) =~= r.label);
    assert(mid.subrange(j + 3, mid.len() as int) =~= token);
    if r.success {
        assert(token == w_success_token());
    } else {
        assert(token != w_success_token());
        assert(token == w_failed_token());
    }
    let parsed = parse_line_spec(body);
    assert(parsed matches Some(p) && p.timestamp == r.timestamp && p.kind == r.kind && p.label
        == r.label && p.success == r.success);
}

/// The append-only ledger reads back as it was written: parsing the
/// serialized form of any run of well-formed records yields exactly those
/// records, in insertion order.
pub proof fn lemma_ledger_round_trip(rs: Seq<RecordData>)
    requires
        forall|i: int| 0 <= i < rs.len() ==> record_wf(#[trigger] rs[i]),
    ensures
        parse_ledger_spec(ledger_of(rs)) == rs,
    decreases rs.len(),
{
    if rs.len() == 0 {
        assert(parse_ledger_spec(ledger_of(rs)) =~= rs);
    } else {
        let r0 = rs[0];
        let rest_records = rs.drop_first();
        let body = line_body_of(r0);
        let ledger = ledger_of(rs);
        let tail_ledger = ledger_of(rest_records);
        assert(ledger =~= body + seq![10u8] + tail_ledger);
        lemma_line_body_no_newline(r0);
        lemma_find_byte(ledger, 10);
        let e = find_byte(ledger, 10);
        assert(ledger[body.len() as int] == 10);
        assert(e == body.len()) by {
            if e > body.len() {
                assert(ledger[body.len() as int] != 10);
            } else if e < body.len() {
                assert(ledger[e as int] == body[e as int]);
                assert(ledger[e as int] != 10);
            }
        };
        assert(ledger.len() > body.len());
        assert(ledger.subrange(0, e as int) =~= body);
        assert(ledger.subrange(e + 1 as int, ledger.len() as int) =~= tail_ledger);
        lemma_parse_render(r0);
        lemma_ledger_round_trip(rest_records);
        assert(parse_ledger_spec(ledger) == seq![r0] + rest_records);
        assert(seq![r0] + rest_records =~= rs);
    }
}

/// What `show` displays of a ledger that holds exactly the records `rs`:
/// with no limit, all of them in insertion order; with a limit smaller
/// than the count, exactly the most recent `limit` of them.
pub proof fn lemma_show_window(rs: Seq<RecordData>, limit: Option<u64>)
    requires
        forall|i: int| 0 <= i < rs.len() ==> record_wf(#[trigger] rs[i]),
    ensures
        parse_ledger_spec(ledger_of(rs)) == rs,
        limit is None ==> show_start_spec(rs.len() as int, limit) == 0,
        (match limit {
            Some(k) => k < rs.len() ==> rs.subrange(
                show_start_spec(rs.len() as int, limit),
                rs.len() as int,
            ).len() == k,
            None => true,
        }),
{
    lemma_ledger_round_trip(rs);
}

} // verus!
