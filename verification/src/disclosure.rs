//! Disclosure selection: picking the smallest byte ranges of the transcript
//! that support the claim, and the redaction they induce on every byte
//! outside them.

use vstd::prelude::*;

use crate::bytes::{contains_seq, find_pattern, match_at};
use crate::markers::{
    appid_marker, game_count_marker, host_header_marker, lemma_dec_digits_are_ascii,
    spec_appid_marker, spec_appid_prefix, spec_dec, spec_false_marker, spec_host_header_marker,
    spec_true_marker,
};

verus! {

/// The placeholder written over every transcript position outside a reveal
/// range: ASCII `X`.
pub const SENTINEL: u8 = 88;

/// Which transcript byte sequence a reveal range selects from.
#[derive(Debug, Clone, Copy, PartialEq, Eq, Structural)]
pub enum Direction {
    Sent,
    Received,
}

/// A half-open byte interval `[start, end)` selected for disclosure within
/// the sent or received transcript.  Revealing overlapping ranges is
/// idempotent: a byte is plaintext as soon as one range covers it.
#[derive(Debug, Clone, Copy, PartialEq, Eq, Structural)]
pub struct RevealRange {
    pub direction: Direction,
    pub start: usize,
    pub end: usize,
}

impl RevealRange {
    /// A well-formed range is ordered and a subset of a transcript of
    /// length `len`.
    pub open spec fn wf(self, len: nat) -> bool {
        self.start <= self.end && self.end <= len
    }
}

/// Failure of disclosure selection.
#[derive(Debug, Clone, Copy, PartialEq, Eq, Structural)]
pub enum DisclosureError {
    /// The marker supporting the claim is absent from the plaintext; the
    /// claim cannot be honestly presented.
    PatternNotFound,
    /// The attestation collaborator rejected the selected ranges.
    AssemblyFailed,
}

/// Position `i` lies inside some range of `ranges` tagged `dir`.
pub open spec fn spec_in_ranges(ranges: Seq<RevealRange>, dir: Direction, i: int) -> bool {
    exists|k: int|
        0 <= k < ranges.len() && (#[trigger] ranges[k]).direction == dir && ranges[k].start <= i
            < ranges[k].end
}

/// The redacted image of `data`: bytes inside a range tagged `dir` are kept,
/// every other byte is replaced by the sentinel.
pub open spec fn spec_redacted(data: Seq<u8>, ranges: Seq<RevealRange>, dir: Direction) -> Seq<u8> {
    Seq::new(
        data.len(),
        |i: int|
            if spec_in_ranges(ranges, dir, i) {
                data[i]
            } else {
                SENTINEL
            },
    )
}

/// Whether position `i` is covered by a range of `ranges` tagged `dir`.
pub fn in_ranges(ranges: &Vec<RevealRange>, dir: Direction, i: usize) -> (r: bool)
    ensures
        r == spec_in_ranges(ranges@, dir, i as int),
{
    let mut k: usize = 0;
    while k < ranges.len()
        invariant
            0 <= k <= ranges@.len(),
            forall|j: int|
                0 <= j < k ==> !((#[trigger] ranges@[j]).direction == dir && ranges@[j].start <= i
                    < ranges@[j].end),
        decreases ranges@.len() - k,
    {
        let r = ranges[k];
        if r.direction == dir && r.start <= i && i < r.end {
            return true;
        }
        k += 1;
    }
    false
}

/// Build the redacted transcript: each byte inside a reveal range tagged
/// `dir` is kept as plaintext, and every other byte becomes the sentinel.
pub fn redact(data: &[u8], ranges: &Vec<RevealRange>, dir: Direction) -> (out: Vec<u8>)
    ensures
        out@.len() == data@.len(),
        forall|i: int|
            0 <= i < data@.len() ==> out@[i] == (if spec_in_ranges(ranges@, dir, i) {
                data@[i]
            } else {
                SENTINEL
            }),
        out@ == spec_redacted(data@, ranges@, dir),
{
    let len: usize = data.len();
    let mut out: Vec<u8> = Vec::new();
    let mut i: usize = 0;
    while i < len
        invariant
            len == data@.len(),
            0 <= i <= len,
            out@.len() == i,
            forall|j: int|
                0 <= j < i ==> out@[j] == (if spec_in_ranges(ranges@, dir, j) {
                    data@[j]
                } else {
                    SENTINEL
                }),
        decreases len - i,
    {
        if in_ranges(ranges, dir, i) {
            out.push(data[i]);
        } else {
            out.push(SENTINEL);
        }
        i += 1;
    }
    assert(out@ =~= spec_redacted(data@, ranges@, dir));
    out
}

/// Disclosure minimality: the redacted transcript has exactly the requested
/// reveal ranges as plaintext — a covered position keeps its byte, and every
/// other position carries the sentinel value.
pub proof fn lemma_disclosure_minimality(
    data: Seq<u8>,
    ranges: Seq<RevealRange>,
    dir: Direction,
    i: int,
)
    requires
        0 <= i < data.len(),
    ensures
        spec_in_ranges(ranges, dir, i) ==> spec_redacted(data, ranges, dir)[i] == data[i],
        !spec_in_ranges(ranges, dir, i) ==> spec_redacted(data, ranges, dir)[i] == SENTINEL,
{
}

/// Locate the minimal received-side reveal range proving the `"appid":<id>`
/// marker is present: the first occurrence of the marker, and nothing more.
pub fn find_fact_range(recv: &[u8], app_id: u32) -> (r: Result<RevealRange, DisclosureError>)
    ensures
        match r {
            Ok(rr) => {
                &&& rr.direction == Direction::Received
                &&& match_at(recv@, spec_appid_marker(app_id as nat), rr.start as int)
                &&& forall|j: int|
                    0 <= j < rr.start ==> !match_at(recv@, spec_appid_marker(app_id as nat), j)
                &&& rr.end == rr.start + spec_appid_marker(app_id as nat).len()
                &&& rr.wf(recv@.len())
            },
            Err(e) => {
                &&& e == DisclosureError::PatternNotFound
                &&& !contains_seq(recv@, spec_appid_marker(app_id as nat))
            },
        },
{
    let marker = appid_marker(app_id);
    let rlen: usize = recv.len();
    match find_pattern(recv, marker.as_slice()) {
        Some(start) => {
            assert(start + marker@.len() <= rlen);
            let end: usize = start + marker.len();
            Ok(RevealRange { direction: Direction::Received, start, end })
        },
        None => Err(DisclosureError::PatternNotFound),
    }
}

/// Locate the sent-side reveal range holding the `Host` header line, which
/// proves which API the request went to without revealing the query string.
pub fn find_host_range(sent: &[u8]) -> (r: Result<RevealRange, DisclosureError>)
    ensures
        match r {
            Ok(rr) => {
                &&& rr.direction == Direction::Sent
                &&& match_at(sent@, spec_host_header_marker(), rr.start as int)
                &&& forall|j: int| 0 <= j < rr.start ==> !match_at(sent@, spec_host_header_marker(), j)
                &&& rr.end == rr.start + spec_host_header_marker().len()
                &&& rr.wf(sent@.len())
            },
            Err(e) => {
                &&& e == DisclosureError::PatternNotFound
                &&& !contains_seq(sent@, spec_host_header_marker())
            },
        },
{
    let marker = host_header_marker();
    let slen: usize = sent.len();
    match find_pattern(sent, marker.as_slice()) {
        Some(start) => {
            assert(start + marker@.len() <= slen);
            let end: usize = start + marker.len();
            Ok(RevealRange { direction: Direction::Sent, start, end })
        },
        None => Err(DisclosureError::PatternNotFound),
    }
}

/// Locate the received-side range revealing the outcome marker: the first
/// occurrence of the "true" marker when present, otherwise of the "false"
/// marker.  The markers are mutually exclusive in the source data, and a
/// transcript holding neither cannot honestly support any claim.
pub fn find_outcome_range(recv: &[u8]) -> (r: Result<RevealRange, DisclosureError>)
    ensures
        match r {
            Ok(rr) => {
                &&& rr.direction == Direction::Received
                &&& rr.wf(recv@.len())
                &&& if contains_seq(recv@, spec_true_marker()) {
                    match_at(recv@, spec_true_marker(), rr.start as int) && rr.end == rr.start
                        + spec_true_marker().len()
                } else {
                    match_at(recv@, spec_false_marker(), rr.start as int) && rr.end == rr.start
                        + spec_false_marker().len()
                }
            },
            Err(e) => {
                &&& e == DisclosureError::PatternNotFound
                &&& !contains_seq(recv@, spec_true_marker())
                &&& !contains_seq(recv@, spec_false_marker())
            },
        },
{
    let rlen: usize = recv.len();
    let t = game_count_marker(true);
    if let Some(start) = find_pattern(recv, t.as_slice()) {
        assert(start + t@.len() <= rlen);
        let end: usize = start + t.len();
        return Ok(RevealRange { direction: Direction::Received, start, end });
    }
    let f = game_count_marker(false);
    if let Some(start) = find_pattern(recv, f.as_slice()) {
        assert(start + f@.len() <= rlen);
        let end: usize = start + f.len();
        return Ok(RevealRange { direction: Direction::Received, start, end });
    }
    Err(DisclosureError::PatternNotFound)
}

/// Neither outcome marker holds a sentinel byte, so neither can be conjured
/// up by redaction.
pub proof fn lemma_markers_hold_no_sentinel()
    ensures
        forall|k: int|
            0 <= k < spec_true_marker().len() ==> #[trigger] spec_true_marker()[k] != SENTINEL,
        forall|k: int|
            0 <= k < spec_false_marker().len() ==> #[trigger] spec_false_marker()[k] != SENTINEL,
{
    assert forall|k: int| 0 <= k < spec_true_marker().len() implies #[trigger] spec_true_marker()[k]
        != SENTINEL by {
        assert(spec_true_marker()[k] != SENTINEL);
    }
    assert forall|k: int|
        0 <= k < spec_false_marker().len() implies #[trigger] spec_false_marker()[k]
        != SENTINEL by {
        assert(spec_false_marker()[k] != SENTINEL);
    }
}

/// The `"appid":<id>` marker holds no sentinel byte either: its prefix is
/// fixed punctuation and letters, and its tail is ASCII digits.
pub proof fn lemma_appid_marker_holds_no_sentinel(app_id: nat)
    ensures
        forall|k: int|
            0 <= k < spec_appid_marker(app_id).len() ==> #[trigger] spec_appid_marker(app_id)[k]
                != SENTINEL,
{
    lemma_dec_digits_are_ascii(app_id);
    assert forall|k: int|
        0 <= k < spec_appid_marker(app_id).len() implies #[trigger] spec_appid_marker(app_id)[k]
        != SENTINEL by {
        if k < spec_appid_prefix().len() {
            assert(spec_appid_marker(app_id)[k] == spec_appid_prefix()[k]);
        } else {
            assert(spec_appid_marker(app_id)[k] == spec_dec(app_id)[k
                - spec_appid_prefix().len()]);
        }
    }
}

/// Identifier integrity: redaction cannot fabricate the `"appid":<id>`
/// marker.  When the plaintext nowhere holds a game's marker, no choice of
/// reveal ranges makes the redacted transcript reveal it, so a verifier's
/// identifier check reflects the plaintext.
pub proof fn lemma_no_spurious_identifier(
    data: Seq<u8>,
    ranges: Seq<RevealRange>,
    dir: Direction,
    app_id: nat,
)
    requires
        !contains_seq(data, spec_appid_marker(app_id)),
    ensures
        !contains_seq(spec_redacted(data, ranges, dir), spec_appid_marker(app_id)),
{
    lemma_appid_marker_holds_no_sentinel(app_id);
    lemma_no_spurious_match(data, ranges, dir, spec_appid_marker(app_id));
}

/// Select the reveal ranges supporting a claim about `app_id`: the `Host`
/// header line on the sent side, the outcome marker on the received side,
/// and — with `fine` granularity — only the `"appid":<id>` marker beside
/// it; with coarse granularity, the entire received transcript.  The
/// selected ranges always classify: the redacted transcript they induce
/// reveals the "true" marker exactly when the plaintext holds it, and the
/// "false" marker otherwise.
pub fn select_reveal_ranges(sent: &[u8], recv: &[u8], app_id: u32, fine: bool) -> (r: Result<
    Vec<RevealRange>,
    DisclosureError,
>)
    ensures
        match r {
            Ok(v) => {
                let red = spec_redacted(recv@, v@, Direction::Received);
                &&& v@.len() == 3
                &&& v@[0].direction == Direction::Sent
                &&& match_at(sent@, spec_host_header_marker(), v@[0].start as int)
                &&& v@[0].end == v@[0].start + spec_host_header_marker().len()
                &&& v@[0].wf(sent@.len())
                &&& v@[1].direction == Direction::Received
                &&& v@[1].wf(recv@.len())
                &&& v@[2].direction == Direction::Received
                &&& v@[2].wf(recv@.len())
                &&& if fine {
                    match_at(recv@, spec_appid_marker(app_id as nat), v@[2].start as int)
                        && v@[2].end == v@[2].start + spec_appid_marker(app_id as nat).len()
                } else {
                    v@[2].start == 0 && v@[2].end == recv@.len()
                }
                &&& (contains_seq(recv@, spec_true_marker()) ==> contains_seq(
                    red,
                    spec_true_marker(),
                ))
                &&& (!contains_seq(recv@, spec_true_marker()) ==> !contains_seq(
                    red,
                    spec_true_marker(),
                ) && contains_seq(red, spec_false_marker()))
                &&& (fine ==> contains_seq(red, spec_appid_marker(app_id as nat)))
            },
            Err(e) => {
                &&& e == DisclosureError::PatternNotFound
                &&& {
                    ||| !contains_seq(sent@, spec_host_header_marker())
                    ||| (!contains_seq(recv@, spec_true_marker()) && !contains_seq(
                        recv@,
                        spec_false_marker(),
                    ))
                    ||| (fine && !contains_seq(recv@, spec_appid_marker(app_id as nat)))
                }
            },
        },
{
    let host_range = match find_host_range(sent) {
        Ok(rr) => rr,
        Err(e) => {
            return Err(e);
        },
    };
    let outcome_range = match find_outcome_range(recv) {
        Ok(rr) => rr,
        Err(e) => {
            return Err(e);
        },
    };
    let fact_range = if fine {
        match find_fact_range(recv, app_id) {
            Ok(rr) => rr,
            Err(e) => {
                return Err(e);
            },
        }
    } else {
        RevealRange { direction: Direction::Received, start: 0, end: recv.len() }
    };
    let mut v: Vec<RevealRange> = Vec::new();
    v.push(host_range);
    v.push(outcome_range);
    v.push(fact_range);
    proof {
        let red = spec_redacted(recv@, v@, Direction::Received);
        lemma_markers_hold_no_sentinel();
        assert forall|j: int|
            v@[1].start <= j < v@[1].end implies spec_in_ranges(
            v@,
            Direction::Received,
            j,
        ) by {
            assert(v@[1].direction == Direction::Received && v@[1].start <= j < v@[1].end);
        }
        if contains_seq(recv@, spec_true_marker()) {
            lemma_reveal_preserves_match(
                recv@,
                v@,
                Direction::Received,
                spec_true_marker(),
                v@[1].start as int,
            );
        } else {
            lemma_reveal_preserves_match(
                recv@,
                v@,
                Direction::Received,
                spec_false_marker(),
                v@[1].start as int,
            );
            lemma_no_spurious_match(recv@, v@, Direction::Received, spec_true_marker());
        }
        if fine {
            assert forall|j: int|
                v@[2].start <= j < v@[2].end implies spec_in_ranges(
                v@,
                Direction::Received,
                j,
            ) by {
                assert(v@[2].direction == Direction::Received && v@[2].start <= j < v@[2].end);
            }
            lemma_reveal_preserves_match(
                recv@,
                v@,
                Direction::Received,
                spec_appid_marker(app_id as nat),
                v@[2].start as int,
            );
        }
    }
    Ok(v)
}

/// Every byte of the interval `[i, i + m.len())` that a marker occupies is
/// covered by the reveal ranges, so the marker survives redaction: it still
/// matches at `i` in the redacted transcript.
pub proof fn lemma_reveal_preserves_match(
    data: Seq<u8>,
    ranges: Seq<RevealRange>,
    dir: Direction,
    m: Seq<u8>,
    i: int,
)
    requires
        match_at(data, m, i),
        forall|j: int| i <= j < i + m.len() ==> spec_in_ranges(ranges, dir, j),
    ensures
        match_at(spec_redacted(data, ranges, dir), m, i),
{
    let red = spec_redacted(data, ranges, dir);
    assert forall|k: int| 0 <= k < m.len() implies red[i + k] == m[k] by {
        assert(data.subrange(i, i + m.len() as int)[k] == m[k]);
    }
    assert(red.subrange(i, i + m.len() as int) =~= m);
}

/// A marker that holds no sentinel byte cannot be conjured up by redaction:
/// if it is absent from the plaintext it is absent from the redacted
/// transcript as well.
pub proof fn lemma_no_spurious_match(
    data: Seq<u8>,
    ranges: Seq<RevealRange>,
    dir: Direction,
    m: Seq<u8>,
)
    requires
        !contains_seq(data, m),
        forall|k: int| 0 <= k < m.len() ==> m[k] != SENTINEL,
    ensures
        !contains_seq(spec_redacted(data, ranges, dir), m),
{
    let red = spec_redacted(data, ranges, dir);
    if contains_seq(red, m) {
        let i = choose|i: int| match_at(red, m, i);
        assert forall|k: int| 0 <= k < m.len() implies data[i + k] == m[k] by {
            assert(red.subrange(i, i + m.len() as int)[k] == m[k]);
            assert(red[i + k] == m[k]);
            assert(red[i + k] != SENTINEL);
        }
        assert(data.subrange(i, i + m.len() as int) =~= m);
        assert(match_at(data, m, i));
    }
}

} // verus!
