use vstd::prelude::*;

verus! {

/// Hands out identifiers 1, 2, 3, ... one per call.
///
/// The counter is owned by whoever builds items, so that identifiers are
/// unique among all items built from one generator; sharing it between
/// threads takes a lock around it.
pub struct IdGenerator {
    handed_out: usize,
}

impl IdGenerator {
    /// The identifiers handed out so far, in the order they were handed out.
    pub closed spec fn issued(&self) -> Seq<usize> {
        Seq::new(self.handed_out as nat, |i: int| (i + 1) as usize)
    }

    /// A generator that has handed out nothing yet.
    pub fn new() -> (r: IdGenerator)
        ensures
            r.issued() == Seq::<usize>::empty(),
    {
        let r = IdGenerator { handed_out: 0 };
        assert(r.issued() =~= Seq::<usize>::empty());
        r
    }
}

/// The next identifier: one more than the last one handed out, 1 at first.
pub fn get_id(ids: &mut IdGenerator) -> (id: usize)
    requires
        old(ids).issued().len() < usize::MAX,
    ensures
        id == old(ids).issued().len() + 1,
        final(ids).issued() == old(ids).issued().push(id),
{
    ids.handed_out = ids.handed_out + 1;
    let id = ids.handed_out;
    assert(ids.issued() =~= old(ids).issued().push(id));
    id
}

/// Identifiers that one generator hands out, however many calls were made,
/// are 1, 2, ..., n in that order: each differs from all others and each is
/// larger than every earlier one.
pub proof fn issued_ids_are_unique(ids: &IdGenerator)
    ensures
        forall|i: int| 0 <= i < ids.issued().len() ==> #[trigger] ids.issued()[i] == i + 1,
        forall|i: int, j: int|
            0 <= i < j < ids.issued().len() ==> ids.issued()[i] < ids.issued()[j],
{
}

} // verus!
