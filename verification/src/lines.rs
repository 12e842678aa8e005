use vstd::prelude::*;

verus! {

/// The byte that separates report lines.
pub const NEWLINE: u8 = 10;

/// Splitting a byte text on newlines, the way the report is cut into lines:
/// there is always at least one line, an empty text is one empty line, and a
/// trailing newline yields a trailing empty line.
pub open spec fn spec_split_lines(s: Seq<u8>) -> Seq<Seq<u8>>
    decreases s.len(),
{
    if s.len() == 0 {
        seq![Seq::<u8>::empty()]
    } else if s.last() == NEWLINE {
        spec_split_lines(s.drop_last()).push(Seq::<u8>::empty())
    } else {
        let r = spec_split_lines(s.drop_last());
        r.update(r.len() - 1, r.last().push(s.last()))
    }
}

/// A split never yields zero lines, and no line contains the separator.
pub proof fn lemma_split_lines_wf(s: Seq<u8>)
    ensures
        spec_split_lines(s).len() >= 1,
        forall|k: int|
            0 <= k < spec_split_lines(s).len() ==> !(#[trigger] spec_split_lines(
                s,
            )[k]).contains(NEWLINE),
    decreases s.len(),
{
    if s.len() == 0 {
        assert forall|k: int|
            0 <= k < spec_split_lines(s).len() implies !(#[trigger] spec_split_lines(
            s,
        )[k]).contains(NEWLINE) by {
            assert(spec_split_lines(s)[k] =~= Seq::<u8>::empty());
        }
    } else {
        lemma_split_lines_wf(s.drop_last());
        let r = spec_split_lines(s.drop_last());
        if s.last() == NEWLINE {
            assert forall|k: int|
                0 <= k < spec_split_lines(s).len() implies !(#[trigger] spec_split_lines(
                s,
            )[k]).contains(NEWLINE) by {
                if k < r.len() {
                    assert(spec_split_lines(s)[k] == r[k]);
                } else {
                    assert(spec_split_lines(s)[k] =~= Seq::<u8>::empty());
                }
            }
        } else {
            let ext = r.last().push(s.last());
            assert(!ext.contains(NEWLINE)) by {
                if ext.contains(NEWLINE) {
                    let j = choose|j: int| 0 <= j < ext.len() && ext[j] == NEWLINE;
                    if j < ext.len() - 1 {
                        assert(r.last()[j] == NEWLINE);
                        assert(r.last().contains(NEWLINE));
                    }
                }
            }
            assert forall|k: int|
                0 <= k < spec_split_lines(s).len() implies !(#[trigger] spec_split_lines(
                s,
            )[k]).contains(NEWLINE) by {
                if k < r.len() - 1 {
                    assert(spec_split_lines(s)[k] == r[k]);
                } else {
                    assert(spec_split_lines(s)[k] == ext);
                }
            }
        }
    }
}

/// Cuts a captured report into its lines, in order.
pub fn split_lines(s: &Vec<u8>) -> (lines: Vec<Vec<u8>>)
    ensures
        lines.deep_view() == spec_split_lines(s@),
{
    let mut done: Vec<Vec<u8>> = Vec::new();
    let mut current: Vec<u8> = Vec::new();
    let mut i: usize = 0;
    while i < s.len()
        invariant
            i <= s@.len(),
            done.deep_view().push(current@) == spec_split_lines(s@.subrange(0, i as int)),
        decreases s@.len() - i,
    {
        let ghost prev = done.deep_view().push(current@);
        let b = s[i];
        if b == NEWLINE {
            done.push(current);
            current = Vec::new();
        } else {
            current.push(b);
        }
        i = i + 1;
        proof {
            let p = s@.subrange(0, i as int);
            assert(p.drop_last() =~= s@.subrange(0, i - 1));
            if b == NEWLINE {
                assert(done.deep_view().push(current@) =~~= prev.push(Seq::<u8>::empty()));
            } else {
                assert(done.deep_view().push(current@) =~~= prev.update(
                    prev.len() - 1,
                    prev.last().push(b),
                ));
            }
        }
    }
    proof {
        assert(s@.subrange(0, s@.len() as int) =~= s@);
    }
    done.push(current);
    proof {
        assert(done.deep_view() =~~= spec_split_lines(s@));
    }
    done
}

} // verus!
