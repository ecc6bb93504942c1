//! Structuring of a successful execution's output.
//!
//! The external tool's listings are line-oriented; [`decode`] turns the
//! captured standard output into newline-free records whose join, with one
//! separator byte between records, is exactly the original bytes.  Those
//! three properties — join, separator-freedom, at least one record —
//! determine the record sequence uniquely.
//!
//! Richer machine-readable modes of the external tool would parse here
//! too; line records are the mode that is always available, and they are
//! total, so [`DecodeError`] is reserved for parsers that can fail.

use vstd::prelude::*;
use crate::executor::ExecutionOutcome;

verus! {

/// The record separator: the newline byte.
pub const SEPARATOR: u8 = 10;

/// A decoded execution result.
pub enum Decoded {
    /// One record per output line, separators removed.
    Records(Vec<Vec<u8>>),
    /// Raw passthrough, for callers that want the bytes untouched.
    Raw(Vec<u8>),
}

/// Failures of structured decoding.
#[derive(Clone, Copy, Debug, PartialEq, Eq, Structural)]
pub enum DecodeError {
    /// A structured output mode did not parse.
    MalformedOutput,
}

/// The join of a record sequence, one separator byte between records.
pub open spec fn spec_join(rs: Seq<Seq<u8>>) -> Seq<u8>
    decreases rs.len(),
{
    if rs.len() == 0 {
        Seq::empty()
    } else if rs.len() == 1 {
        rs[0]
    } else {
        rs[0] + seq![SEPARATOR] + spec_join(rs.drop_first())
    }
}

/// Appending a record extends the join by a separator and the record.
proof fn lemma_join_push(rs: Seq<Seq<u8>>, x: Seq<u8>)
    requires
        rs.len() >= 1,
    ensures
        spec_join(rs.push(x)) == spec_join(rs) + seq![SEPARATOR] + x,
    decreases rs.len(),
{
    reveal_with_fuel(spec_join, 4);
    if rs.len() == 1 {
        assert(rs.push(x)[0] == rs[0]);
        assert(rs.push(x).drop_first() =~= seq![x]);
        assert(spec_join(rs.push(x)) == rs[0] + seq![SEPARATOR] + x);
    } else {
        lemma_join_push(rs.drop_first(), x);
        assert(rs.push(x).drop_first() =~= rs.drop_first().push(x));
        assert(rs.push(x)[0] == rs[0]);
        assert(spec_join(rs.push(x)) == rs[0] + seq![SEPARATOR] + (spec_join(rs.drop_first())
            + seq![SEPARATOR] + x));
        assert(rs[0] + seq![SEPARATOR] + (spec_join(rs.drop_first()) + seq![SEPARATOR] + x) =~= (
        rs[0] + seq![SEPARATOR] + spec_join(rs.drop_first())) + seq![SEPARATOR] + x);
    }
}

/// Extending the last record extends the join by the same bytes.
proof fn lemma_join_last_append(rs: Seq<Seq<u8>>, x: Seq<u8>, b: u8)
    ensures
        spec_join(rs.push(x.push(b))) == spec_join(rs.push(x)).push(b),
    decreases rs.len(),
{
    reveal_with_fuel(spec_join, 4);
    if rs.len() == 0 {
        assert(rs.push(x.push(b))[0] == x.push(b));
        assert(rs.push(x)[0] == x);
        assert(x.push(b) =~= x + seq![b]);
        assert(spec_join(rs.push(x)).push(b) =~= x.push(b));
    } else {
        lemma_join_last_append(rs.drop_first(), x, b);
        assert(rs.push(x.push(b)).drop_first() =~= rs.drop_first().push(x.push(b)));
        assert(rs.push(x).drop_first() =~= rs.drop_first().push(x));
        assert(rs.push(x.push(b))[0] == rs[0]);
        assert(rs.push(x)[0] == rs[0]);
        assert(rs.push(x).len() >= 2);
        assert(spec_join(rs.push(x.push(b))) == rs[0] + seq![SEPARATOR] + spec_join(
            rs.drop_first().push(x),
        ).push(b));
        assert(rs[0] + seq![SEPARATOR] + spec_join(rs.drop_first().push(x)).push(b) =~= (rs[0]
            + seq![SEPARATOR] + spec_join(rs.drop_first().push(x))).push(b));
    }
}

/// Split bytes into separator-free records whose join restores the input.
pub fn split_records(bytes: &Vec<u8>) -> (r: Vec<Vec<u8>>)
    ensures
        r.deep_view().len() >= 1,
        spec_join(r.deep_view()) == bytes@,
        forall|i: int| 0 <= i < r.deep_view().len() ==> !r.deep_view()[i].contains(SEPARATOR),
{
    let mut records: Vec<Vec<u8>> = Vec::new();
    let mut cur: Vec<u8> = Vec::new();
    let mut i: usize = 0;
    proof {
        assert(records.deep_view().push(cur@) =~= seq![cur@]);
        assert(bytes@.take(0) =~= Seq::<u8>::empty());
    }
    while i < bytes.len()
        invariant
            i <= bytes@.len(),
            spec_join(records.deep_view().push(cur@)) == bytes@.take(i as int),
            !cur@.contains(SEPARATOR),
            forall|j: int|
                0 <= j < records.deep_view().len() ==> !records.deep_view()[j].contains(SEPARATOR),
        decreases bytes@.len() - i,
    {
        let ghost old_records = records.deep_view();
        let ghost old_cur = cur@;
        let b = bytes[i];
        if b == SEPARATOR {
            records.push(cur);
            cur = Vec::new();
            proof {
                assert(records.deep_view() =~~= old_records.push(old_cur));
                lemma_join_push(old_records.push(old_cur), Seq::<u8>::empty());
                assert(spec_join(records.deep_view().push(cur@)) =~= bytes@.take(i as int).push(
                    SEPARATOR,
                ));
                assert(bytes@.take(i + 1) =~= bytes@.take(i as int).push(bytes@[i as int]));
            }
        } else {
            cur.push(b);
            proof {
                lemma_join_last_append(old_records, old_cur, b);
                assert(bytes@.take(i + 1) =~= bytes@.take(i as int).push(bytes@[i as int]));
            }
        }
        i += 1;
    }
    let ghost final_records = records.deep_view();
    let ghost final_cur = cur@;
    records.push(cur);
    proof {
        assert(records.deep_view() =~~= final_records.push(final_cur));
        assert(bytes@.take(bytes@.len() as int) =~= bytes@);
    }
    records
}

/// Decode a successful execution's standard output into line records.
///
/// Line decoding is total, so this always succeeds; the error type is the
/// taxonomy's place for structured modes that can fail to parse.
pub fn decode(outcome: &ExecutionOutcome) -> (r: Result<Decoded, DecodeError>)
    ensures
        r matches Ok(d) && d matches Decoded::Records(rs) && {
            &&& rs.deep_view().len() >= 1
            &&& spec_join(rs.deep_view()) == outcome.stdout@
            &&& forall|i: int|
                0 <= i < rs.deep_view().len() ==> !rs.deep_view()[i].contains(SEPARATOR)
        },
{
    Ok(Decoded::Records(split_records(&outcome.stdout)))
}

} // verus!
