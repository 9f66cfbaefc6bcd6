use vstd::prelude::*;
use crate::ids::{get_id, IdGenerator};

verus! {

/// Whether an item brings money in or takes it out.
#[derive(Clone, Copy, Debug, PartialEq, Eq, Structural)]
pub enum Entry {
    In,
    Out,
}

/// One ledger record.
#[derive(Debug)]
pub struct Item {
    pub id: usize,
    pub kind: Entry,
    pub amount: u32,
    pub description: Option<String>,
    pub date: String,
}

/// What an item holds, with its text as sequences of characters.
pub struct ItemView {
    pub id: usize,
    pub kind: Entry,
    pub amount: u32,
    pub description: Option<Seq<char>>,
    pub date: Seq<char>,
}

/// One builder step: the field it sets and the value it sets there.
pub enum Edit {
    Amount(u32),
    Description(Seq<char>),
    Date(Seq<char>),
}

impl ItemView {
    /// The item after one builder step: the field of the step replaced,
    /// all others kept.
    pub open spec fn apply(self, e: Edit) -> ItemView {
        match e {
            Edit::Amount(a) => ItemView { amount: a, ..self },
            Edit::Description(d) => ItemView { description: Some(d), ..self },
            Edit::Date(d) => ItemView { date: d, ..self },
        }
    }

    /// The item after the builder steps `es`, first to last.
    pub open spec fn apply_all(self, es: Seq<Edit>) -> ItemView
        decreases es.len(),
    {
        if es.len() == 0 {
            self
        } else {
            self.apply_all(es.drop_last()).apply(es.last())
        }
    }
}

/// The amount after builder steps is the one the last amount step set.
proof fn last_amount_wins(v: ItemView, es: Seq<Edit>)
    ensures
        forall|i: int|
            0 <= i < es.len() && #[trigger] es[i] is Amount && (forall|j: int|
                i < j < es.len() ==> !(#[trigger] es[j] is Amount)) ==> v.apply_all(es).amount
                == es[i]->Amount_0,
        (forall|j: int| 0 <= j < es.len() ==> !(#[trigger] es[j] is Amount)) ==> v.apply_all(
            es,
        ).amount == v.amount,
    decreases es.len(),
{
    if es.len() > 0 {
        let rest = es.drop_last();
        let n = es.len() - 1;
        last_amount_wins(v, rest);
        assert forall|j: int| 0 <= j < rest.len() implies #[trigger] rest[j] == es[j] by {}
        assert forall|i: int|
            0 <= i < es.len() && #[trigger] es[i] is Amount && (forall|j: int|
                i < j < es.len() ==> !(#[trigger] es[j] is Amount)) implies v.apply_all(es).amount
                == es[i]->Amount_0 by {
            if i < n {
                assert(!(es[n] is Amount));
                assert(rest[i] is Amount);
                assert forall|j: int| i < j < rest.len() implies !(#[trigger] rest[j] is Amount) by {
                    assert(!(es[j] is Amount));
                }
            }
        }
        if forall|j: int| 0 <= j < es.len() ==> !(#[trigger] es[j] is Amount) {
            assert(!(es[n] is Amount));
            assert forall|j: int| 0 <= j < rest.len() implies !(#[trigger] rest[j] is Amount) by {
                assert(!(es[j] is Amount));
            }
        }
    }
}

/// The description after builder steps is the one the last description step set.
proof fn last_description_wins(v: ItemView, es: Seq<Edit>)
    ensures
        forall|i: int|
            0 <= i < es.len() && #[trigger] es[i] is Description && (forall|j: int|
                i < j < es.len() ==> !(#[trigger] es[j] is Description)) ==> v.apply_all(es).description
                == Some(es[i]->Description_0),
        (forall|j: int| 0 <= j < es.len() ==> !(#[trigger] es[j] is Description)) ==> v.apply_all(
            es,
        ).description == v.description,
    decreases es.len(),
{
    if es.len() > 0 {
        let rest = es.drop_last();
        let n = es.len() - 1;
        last_description_wins(v, rest);
        assert forall|j: int| 0 <= j < rest.len() implies #[trigger] rest[j] == es[j] by {}
        assert forall|i: int|
            0 <= i < es.len() && #[trigger] es[i] is Description && (forall|j: int|
                i < j < es.len() ==> !(#[trigger] es[j] is Description)) implies v.apply_all(es).description
                == Some(es[i]->Description_0) by {
            if i < n {
                assert(!(es[n] is Description));
                assert(rest[i] is Description);
                assert forall|j: int| i < j < rest.len() implies !(#[trigger] rest[j] is Description) by {
                    assert(!(es[j] is Description));
                }
            }
        }
        if forall|j: int| 0 <= j < es.len() ==> !(#[trigger] es[j] is Description) {
            assert(!(es[n] is Description));
            assert forall|j: int| 0 <= j < rest.len() implies !(#[trigger] rest[j] is Description) by {
                assert(!(es[j] is Description));
            }
        }
    }
}

/// The date after builder steps is the one the last date step set.
proof fn last_date_wins(v: ItemView, es: Seq<Edit>)
    ensures
        forall|i: int|
            0 <= i < es.len() && #[trigger] es[i] is Date && (forall|j: int|
                i < j < es.len() ==> !(#[trigger] es[j] is Date)) ==> v.apply_all(es).date
                == es[i]->Date_0,
        (forall|j: int| 0 <= j < es.len() ==> !(#[trigger] es[j] is Date)) ==> v.apply_all(
            es,
        ).date == v.date,
    decreases es.len(),
{
    if es.len() > 0 {
        let rest = es.drop_last();
        let n = es.len() - 1;
        last_date_wins(v, rest);
        assert forall|j: int| 0 <= j < rest.len() implies #[trigger] rest[j] == es[j] by {}
        assert forall|i: int|
            0 <= i < es.len() && #[trigger] es[i] is Date && (forall|j: int|
                i < j < es.len() ==> !(#[trigger] es[j] is Date)) implies v.apply_all(es).date
                == es[i]->Date_0 by {
            if i < n {
                assert(!(es[n] is Date));
                assert(rest[i] is Date);
                assert forall|j: int| i < j < rest.len() implies !(#[trigger] rest[j] is Date) by {
                    assert(!(es[j] is Date));
                }
            }
        }
        if forall|j: int| 0 <= j < es.len() ==> !(#[trigger] es[j] is Date) {
            assert(!(es[n] is Date));
            assert forall|j: int| 0 <= j < rest.len() implies !(#[trigger] rest[j] is Date) by {
                assert(!(es[j] is Date));
            }
        }
    }
}

/// After any builder steps, in any order and with any repeats, each field
/// holds the value of the last step that set it, or its earlier value where
/// no step set it; the identifier and the kind never change.
pub proof fn edits_keep_last_values(v: ItemView, es: Seq<Edit>)
    ensures
        v.apply_all(es).id == v.id,
        v.apply_all(es).kind == v.kind,
        forall|i: int|
            0 <= i < es.len() && #[trigger] es[i] is Amount && (forall|j: int|
                i < j < es.len() ==> !(#[trigger] es[j] is Amount)) ==> v.apply_all(es).amount
                == es[i]->Amount_0,
        (forall|j: int| 0 <= j < es.len() ==> !(#[trigger] es[j] is Amount)) ==> v.apply_all(
            es,
        ).amount == v.amount,
        forall|i: int|
            0 <= i < es.len() && #[trigger] es[i] is Description && (forall|j: int|
                i < j < es.len() ==> !(#[trigger] es[j] is Description)) ==> v.apply_all(
                es,
            ).description == Some(es[i]->Description_0),
        (forall|j: int| 0 <= j < es.len() ==> !(#[trigger] es[j] is Description)) ==> v.apply_all(
            es,
        ).description == v.description,
        forall|i: int|
            0 <= i < es.len() && #[trigger] es[i] is Date && (forall|j: int|
                i < j < es.len() ==> !(#[trigger] es[j] is Date)) ==> v.apply_all(es).date
                == es[i]->Date_0,
        (forall|j: int| 0 <= j < es.len() ==> !(#[trigger] es[j] is Date)) ==> v.apply_all(
            es,
        ).date == v.date,
    decreases es.len(),
{
    if es.len() > 0 {
        edits_keep_last_values(v, es.drop_last());
    }
    last_amount_wins(v, es);
    last_description_wins(v, es);
    last_date_wins(v, es);
}

/// The date that a new item carries until one is set.
pub open spec fn default_date() -> Seq<char> {
    seq!['N', 'o', 'w']
}

impl View for Item {
    type V = ItemView;

    open spec fn view(&self) -> ItemView {
        ItemView {
            id: self.id,
            kind: self.kind,
            amount: self.amount,
            description: match self.description {
                Some(d) => Some(d@),
                None => None,
            },
            date: self.date@,
        }
    }
}

impl Item {
    /// A new item of the given kind, with the next identifier of `ids`,
    /// amount 0, no description and the date "Now".
    pub fn new(entry: Entry, ids: &mut IdGenerator) -> (r: Item)
        requires
            old(ids).issued().len() < usize::MAX,
        ensures
            r.id == old(ids).issued().len() + 1,
            final(ids).issued() == old(ids).issued().push(r.id),
            r@ == (ItemView {
                id: r.id,
                kind: entry,
                amount: 0,
                description: None,
                date: default_date(),
            }),
    {
        let date = "Now";
        proof {
            reveal_strlit("Now");
        }
        let id = get_id(ids);
        let r = Item { id, kind: entry, amount: 0, description: None, date: date.to_owned() };
        assert(r.date@ =~= default_date());
        r
    }

    /// The same item with its amount replaced.
    pub fn amount(self, amount: u32) -> (r: Item)
        ensures
            r@ == self@.apply(Edit::Amount(amount)),
    {
        let mut r = self;
        r.amount = amount;
        r
    }

    /// The same item with `description` as its description.
    pub fn description(self, description: &str) -> (r: Item)
        ensures
            r@ == self@.apply(Edit::Description(description@)),
    {
        let mut r = self;
        r.description = Some(description.to_owned());
        r
    }

    /// The same item with its date replaced by `date`, taken as it is.
    pub fn date(self, date: &str) -> (r: Item)
        ensures
            r@ == self@.apply(Edit::Date(date@)),
    {
        let mut r = self;
        r.date = date.to_owned();
        r
    }
}

} // verus!
