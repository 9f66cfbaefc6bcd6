use vstd::prelude::*;
use crate::item::{Entry, Item};

verus! {

/// Something that counts toward a running total with a signed value.
pub trait Sum: Sized {
    /// The value that this contributes to a total.
    spec fn value(&self) -> int;

    /// The starting point of a total.
    spec fn identity() -> int;

    /// This value, as a signed integer.
    fn extract(&self) -> (r: i64)
        ensures
            r as int == self.value(),
    ;

    /// The starting point of a total.
    fn empty() -> (r: u8)
        ensures
            r as int == Self::identity(),
    ;
}

/// The signed value of an amount of the given kind: as it is when it comes
/// in, negated when it goes out.
pub open spec fn signed(kind: Entry, amount: u32) -> int {
    match kind {
        Entry::In => amount as int,
        Entry::Out => -(amount as int),
    }
}

impl Sum for Item {
    open spec fn value(&self) -> int {
        signed(self.kind, self.amount)
    }

    open spec fn identity() -> int {
        0
    }

    fn extract(&self) -> (r: i64) {
        match self.kind {
            Entry::In => self.amount as i64,
            Entry::Out => -(self.amount as i64),
        }
    }

    fn empty() -> (r: u8) {
        0
    }
}

/// The total of `items`, starting at `start` and adding the value of each
/// item in turn.
pub open spec fn running_total<T: Sum>(start: int, items: Seq<T>) -> int
    decreases items.len(),
{
    if items.len() == 0 {
        start
    } else {
        running_total(start, items.drop_last()) + items.last().value()
    }
}

/// An amount that comes in counts as itself, one that goes out as its
/// negation.
pub proof fn extract_follows_kind(it: Item)
    ensures
        it.kind == Entry::In ==> it.value() == it.amount as int,
        it.kind == Entry::Out ==> it.value() == -(it.amount as int),
{
}

/// The starting point of a total adds nothing: a total of no items that
/// starts there is 0, and a total of items that starts there is the sum of
/// their values alone.
pub proof fn empty_is_identity(items: Seq<Item>)
    ensures
        running_total(Item::identity(), Seq::<Item>::empty()) == 0,
        forall|x: int| #[trigger] running_total(x, items) == x + running_total(Item::identity(), items),
    decreases items.len(),
{
    if items.len() > 0 {
        empty_is_identity(items.drop_last());
    }
    assert forall|x: int| #[trigger] running_total(x, items) == x + running_total(Item::identity(), items) by {
        if items.len() > 0 {
            assert(running_total(x, items.drop_last()) == x + running_total(0, items.drop_last()));
        }
    }
}

} // verus!
