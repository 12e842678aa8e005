use vstd::prelude::*;
use vstd::slice::slice_subrange;
use vstd::slice::slice_to_vec;
use crate::error::TelemetryError;

verus! {

/// The ASCII space that delimits fields in the diagnostic report.
pub const FIELD_DELIMITER: u8 = 32;

/// Index of the nearest delimiter at or below position `i`, or `None` if no
/// delimiter stands in `line[0..=i]`.
pub open spec fn spec_rscan(line: Seq<u8>, i: int) -> Option<int>
    decreases i + 1,
{
    if i < 0 || i >= line.len() {
        None
    } else if line[i] == FIELD_DELIMITER {
        Some(i)
    } else {
        spec_rscan(line, i - 1)
    }
}

/// The token whose right edge sits `offset` bytes before the end of `line`:
/// the bytes strictly between the nearest preceding space and that edge.
/// `None` when the offset overshoots the line or no space precedes the edge.
pub open spec fn spec_token(line: Seq<u8>, offset: nat) -> Option<Seq<u8>> {
    if offset > line.len() {
        None
    } else {
        let edge = line.len() - offset;
        match spec_rscan(line, edge - 1) {
            None => None,
            Some(j) => Some(line.subrange(j + 1, edge)),
        }
    }
}

/// Extracts the whitespace-delimited token ending `offset` bytes before the
/// end of `line`: starting there, scans backward to the nearest space and
/// returns the bytes strictly between that space and the start position.
/// The scan fails closed: a missing delimiter is reported as
/// `MalformedLine`, never an out-of-bounds access.
pub fn get_value(line: &[u8], offset: usize) -> (r: Result<Vec<u8>, TelemetryError>)
    requires
        offset <= line@.len(),
    ensures
        r matches Ok(token) ==> spec_token(line@, offset as nat) == Some(token@),
        r matches Err(e) ==> spec_token(line@, offset as nat) is None && e is MalformedLine,
{
    let edge = line.len() - offset;
    let mut i: usize = edge;
    while i > 0
        invariant
            i <= edge <= line@.len(),
            edge == line@.len() - offset,
            spec_rscan(line@, edge - 1) == spec_rscan(line@, i - 1),
        decreases i,
    {
        if line[i - 1] == FIELD_DELIMITER {
            proof {
                assert(spec_rscan(line@, i - 1) == Some(i - 1));
            }
            let token = slice_subrange(line, i, edge);
            return Ok(slice_to_vec(token));
        }
        i = i - 1;
    }
    Err(TelemetryError::MalformedLine)
}

/// A found delimiter index lies within the scanned range and holds a space.
pub proof fn lemma_rscan_bounds(line: Seq<u8>, i: int)
    ensures
        spec_rscan(line, i) matches Some(j) ==> 0 <= j <= i && j < line.len() && line[j]
            == FIELD_DELIMITER,
    decreases i + 1,
{
    if 0 <= i < line.len() && line[i] != FIELD_DELIMITER {
        lemma_rscan_bounds(line, i - 1);
    }
}

/// Extraction is a pure function of the line and the offset: re-extracting
/// from the same inputs yields the same token.
pub proof fn lemma_extract_deterministic(line: Seq<u8>, offset: nat, t1: Seq<u8>, t2: Seq<u8>)
    requires
        spec_token(line, offset) == Some(t1),
        spec_token(line, offset) == Some(t2),
    ensures
        t1 == t2,
{
}

/// A token whose right edge sits exactly on a space boundary is empty.
pub proof fn lemma_extract_at_boundary(line: Seq<u8>, offset: nat)
    requires
        offset < line.len(),
        line[line.len() - offset - 1] == FIELD_DELIMITER,
    ensures
        spec_token(line, offset) == Some(Seq::<u8>::empty()),
{
    let edge = line.len() - offset;
    assert(spec_rscan(line, edge - 1) == Some(edge - 1));
    assert(line.subrange(edge, edge) =~= Seq::<u8>::empty());
}

} // verus!
