//! Reading a triangle from one line of text: the line is trimmed and split at
//! each comma into the texts of its coordinates.

use vstd::prelude::*;

verus! {

/// What `str::trim` makes of a text.
pub uninterp spec fn trimmed(s: Seq<char>) -> Seq<char>;

/// Relies on `str::trim`: leading and trailing whitespace is removed, and the
/// result depends on the text alone.
#[verifier::external_body]
fn trim(s: &str) -> (r: &str)
    ensures
        r@ == trimmed(s@),
{
    s.trim()
}

/// The fields written one after the other with a comma between neighbours.
pub open spec fn joined(fields: Seq<Seq<char>>) -> Seq<char>
    decreases fields.len(),
{
    if fields.len() == 0 {
        Seq::empty()
    } else if fields.len() == 1 {
        fields[0]
    } else {
        joined(fields.drop_last()) + seq![','] + fields.last()
    }
}

/// `fields` is the split of `s` at every comma: joined again they give `s`,
/// and no field holds a comma.
pub open spec fn is_split(fields: Seq<Seq<char>>, s: Seq<char>) -> bool {
    &&& fields.len() >= 1
    &&& joined(fields) == s
    &&& forall|i: int| 0 <= i < fields.len() ==> !(#[trigger] fields[i]).contains(',')
}

/// Extending the last field extends the joined text.
proof fn lemma_joined_extend_last(fields: Seq<Seq<char>>, c: char)
    requires
        fields.len() >= 1,
    ensures
        joined(fields.drop_last().push(fields.last().push(c))) == joined(fields).push(c),
{
    let g = fields.drop_last().push(fields.last().push(c));
    assert(g.drop_last() =~= fields.drop_last());
    if fields.len() > 1 {
        assert(joined(g) == joined(fields.drop_last()) + seq![','] + fields.last().push(c));
        assert(joined(g) =~= joined(fields).push(c));
    } else {
        assert(joined(g) =~= joined(fields).push(c));
    }
}

/// Splits a text at every comma.
pub fn split_commas(s: &str) -> (r: Vec<String>)
    ensures
        is_split(r@.map_values(|f: String| f@), s@),
{
    let n = s.unicode_len();
    let mut done: Vec<String> = Vec::new();
    let mut cur = String::new();
    let mut i: usize = 0;
    while i < n
        invariant
            n == s@.len(),
            i <= n,
            joined(done@.map_values(|f: String| f@).push(cur@)) == s@.subrange(0, i as int),
            !cur@.contains(','),
            forall|k: int| 0 <= k < done@.len() ==> !(#[trigger] done@[k])@.contains(','),
        decreases n - i,
    {
        let c = s.get_char(i);
        let ghost before = done@.map_values(|f: String| f@).push(cur@);
        if c == ',' {
            done.push(cur);
            cur = String::new();
            proof {
                let after = done@.map_values(|f: String| f@).push(cur@);
                assert(after.drop_last() =~= before);
                assert(cur@ =~= Seq::<char>::empty());
                assert(joined(after) =~= joined(before) + seq![','] + Seq::<char>::empty());
                assert(!cur@.contains(','));
            }
        } else {
            cur.push(c);
            proof {
                lemma_joined_extend_last(before, c);
                let after = done@.map_values(|f: String| f@).push(cur@);
                assert(after =~= before.drop_last().push(before.last().push(c)));
                assert(!cur@.contains(',')) by {
                    if cur@.contains(',') {
                        let k = choose|k: int| 0 <= k < cur@.len() && cur@[k] == ',';
                        assert(k < cur@.len() - 1);
                        assert(before.last()[k] == ',');
                    }
                }
            }
        }
        proof {
            assert(s@.subrange(0, i + 1) =~= s@.subrange(0, i as int).push(c));
        }
        i = i + 1;
    }
    let ghost last = done@.map_values(|f: String| f@).push(cur@);
    done.push(cur);
    proof {
        let r = done@.map_values(|f: String| f@);
        assert(r =~= last);
        assert(s@.subrange(0, n as int) =~= s@);
        assert forall|k: int| 0 <= k < r.len() implies !(#[trigger] r[k]).contains(',') by {
            if k < r.len() - 1 {
                assert(r[k] == done@[k]@);
            }
        }
    }
    done
}

/// The texts of the coordinates on a line: the trimmed line split at every
/// comma.
pub fn line_fields(line: &str) -> (r: Vec<String>)
    ensures
        is_split(r@.map_values(|f: String| f@), trimmed(line@)),
{
    split_commas(trim(line))
}

} // verus!
