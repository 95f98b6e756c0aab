//! The result sink: an append-only store of match records, modelled as the
//! sequence of recorded lines. The binary mirrors each append into the
//! backing file; this type carries the store's contract — appends never
//! reorder, drop or rewrite earlier records.

use vstd::prelude::*;

verus! {

/// An append-only store of match records. Its view is the sequence of
/// recorded lines, oldest first.
pub struct MatchStore {
    lines: Vec<String>,
}

impl View for MatchStore {
    type V = Seq<Seq<char>>;

    closed spec fn view(&self) -> Seq<Seq<char>> {
        self.lines.deep_view()
    }
}

impl MatchStore {
    /// A store with no records yet.
    pub fn new() -> (s: MatchStore)
        ensures
            s@ == Seq::<Seq<char>>::empty(),
    {
        let s = MatchStore { lines: Vec::new() };
        proof {
            assert(s@ =~= Seq::<Seq<char>>::empty());
        }
        s
    }

    /// Append one record. Every earlier record is kept, in order; the new
    /// record comes last. Nothing is ever deduplicated or removed.
    pub fn append(&mut self, line: String)
        ensures
            final(self)@ == old(self)@.push(line@),
    {
        self.lines.push(line);
        proof {
            assert(self@ =~= old(self)@.push(line@));
        }
    }

    pub fn len(&self) -> (n: usize)
        ensures
            n == self@.len(),
    {
        self.lines.len()
    }

    pub fn line(&self, i: usize) -> (l: &String)
        requires
            i < self@.len(),
        ensures
            l@ == self@[i as int],
    {
        &self.lines[i]
    }
}

} // verus!
