//! Attribute lists: names and values in turn, closed by a zero where the next name
//! would stand.

use vstd::prelude::*;

use libc::c_int;

verus! {

/// The names and values of `pairs` in turn.
pub open spec fn flat(pairs: Seq<(c_int, c_int)>) -> Seq<c_int> {
    Seq::new(
        2 * pairs.len(),
        |i: int|
            if i % 2 == 0 {
                pairs[i / 2].0
            } else {
                pairs[i / 2].1
            },
    )
}

/// The attribute list that holds `pairs`.
pub open spec fn encoded(pairs: Seq<(c_int, c_int)>) -> Seq<c_int> {
    flat(pairs).push(0)
}

/// What a reader of an attribute list finds in it: the pairs up to the first zero
/// in the place of a name.
pub open spec fn decoded(list: Seq<c_int>) -> Seq<(c_int, c_int)>
    decreases list.len(),
{
    if list.len() < 2 || list[0] == 0 {
        seq![]
    } else {
        seq![(list[0], list[1])] + decoded(list.skip(2))
    }
}

/// The value that a reader of an attribute list finds under `name`, if any.
pub open spec fn value_of(list: Seq<c_int>, name: c_int) -> Option<c_int>
    decreases list.len(),
{
    if list.len() < 2 || list[0] == 0 {
        None
    } else if list[0] == name {
        Some(list[1])
    } else {
        value_of(list.skip(2), name)
    }
}

/// Whether no name is zero, and none is given twice.
pub open spec fn names_are_distinct(pairs: Seq<(c_int, c_int)>) -> bool {
    &&& forall|i: int| 0 <= i < pairs.len() ==> (#[trigger] pairs[i]).0 != 0
    &&& forall|i: int, j: int|
        0 <= i < j < pairs.len() ==> (#[trigger] pairs[i]).0 != (#[trigger] pairs[j]).0
}

/// A reader of an attribute list finds every pair that was put into it, provided
/// that no name is zero.
pub proof fn law_list_reads_back(pairs: Seq<(c_int, c_int)>)
    requires
        forall|i: int| 0 <= i < pairs.len() ==> (#[trigger] pairs[i]).0 != 0,
    ensures
        decoded(encoded(pairs)) == pairs,
    decreases pairs.len(),
{
    if pairs.len() > 0 {
        let rest = pairs.drop_first();
        assert forall|i: int| 0 <= i < rest.len() implies (#[trigger] rest[i]).0 != 0 by {
            assert(rest[i] == pairs[i + 1]);
        }
        law_list_reads_back(rest);
        assert(encoded(pairs).skip(2) =~= encoded(rest));
        assert(encoded(pairs)[0] == pairs[0].0);
        assert(encoded(pairs)[1] == pairs[0].1);
        assert(seq![pairs[0]] + rest =~= pairs);
    }
}

/// A reader finds a value under a name exactly if that pair was put into the list.
pub proof fn law_value_is_found(pairs: Seq<(c_int, c_int)>, name: c_int, value: c_int)
    requires
        names_are_distinct(pairs),
    ensures
        value_of(encoded(pairs), name) == Some(value) <==> pairs.contains((name, value)),
    decreases pairs.len(),
{
    if pairs.len() > 0 {
        let rest = pairs.drop_first();
        assert forall|i: int| 0 <= i < rest.len() implies #[trigger] rest[i] == pairs[i + 1] by {}
        law_value_is_found(rest, name, value);
        assert(encoded(pairs).skip(2) =~= encoded(rest));
        assert(encoded(pairs)[0] == pairs[0].0);
        assert(encoded(pairs)[1] == pairs[0].1);
        if rest.contains((name, value)) {
            let i = choose|i: int| 0 <= i < rest.len() && rest[i] == (name, value);
            assert(pairs[i + 1] == (name, value));
        }
        if pairs.contains((name, value)) {
            let i = choose|i: int| 0 <= i < pairs.len() && pairs[i] == (name, value);
            if i > 0 {
                assert(rest[i - 1] == (name, value));
                assert(pairs[0].0 != pairs[i].0);
            }
        }
    }
}

/// Whether a list of names and values in turn is closed by a zero in the place of a name,
/// and by no earlier one, and gives no name twice.
pub open spec fn is_closed(list: Seq<c_int>) -> bool {
    &&& list.len() % 2 == 1
    &&& list.last() == 0
    &&& forall|i: int| 0 <= i < list.len() - 1 && i % 2 == 0 ==> #[trigger] list[i] != 0
    &&& forall|i: int, j: int|
        0 <= i < j < list.len() && i % 2 == 0 && j % 2 == 0 ==> #[trigger] list[i]
            != #[trigger] list[j]
}

/// An attribute list is closed by its only zero in the place of a name, and has room for
/// its pairs and that zero alone.
pub proof fn law_list_is_closed(pairs: Seq<(c_int, c_int)>)
    requires
        names_are_distinct(pairs),
    ensures
        is_closed(encoded(pairs)),
        encoded(pairs).len() == 2 * pairs.len() + 1,
        forall|i: int|
            0 <= i < pairs.len() ==> encoded(pairs)[2 * i] == (#[trigger] pairs[i]).0
                && encoded(pairs)[2 * i + 1] == pairs[i].1,
{
    let list = encoded(pairs);
    assert forall|i: int, j: int|
        0 <= i < j < list.len() && i % 2 == 0 && j % 2 == 0 implies #[trigger] list[i]
        != #[trigger] list[j] by {
        assert(list[i] == pairs[i / 2].0);
        if j < list.len() - 1 {
            assert(list[j] == pairs[j / 2].0);
        }
    }
    assert forall|i: int| 0 <= i < list.len() - 1 && i % 2 == 0 implies #[trigger] list[i]
        != 0 by {
        assert(list[i] == pairs[i / 2].0);
    }
}

/// An attribute list that is being written.
pub(crate) struct AttributeList {
    values: Vec<c_int>,
}

impl AttributeList {
    pub(crate) closed spec fn wf(self) -> bool {
        self.values@.len() % 2 == 0
    }

    /// The pairs written so far.
    pub(crate) closed spec fn pairs(self) -> Seq<(c_int, c_int)> {
        Seq::new(
            self.values@.len() / 2,
            |i: int| (self.values@[2 * i], self.values@[2 * i + 1]),
        )
    }

    /// An empty list, with room for `capacity` numbers.
    pub(crate) fn with_capacity(capacity: usize) -> (list: AttributeList)
        ensures
            list.wf(),
            list.pairs() == Seq::<(c_int, c_int)>::empty(),
    {
        let list = AttributeList { values: Vec::with_capacity(capacity) };
        assert(list.pairs() =~= Seq::<(c_int, c_int)>::empty());
        list
    }

    /// Writes one attribute.
    pub(crate) fn push(&mut self, name: c_int, value: c_int)
        requires
            old(self).wf(),
        ensures
            final(self).wf(),
            final(self).pairs() == old(self).pairs().push((name, value)),
    {
        self.values.push(name);
        self.values.push(value);
        assert(self.pairs() =~= old(self).pairs().push((name, value)));
    }

    /// Closes the list.
    pub(crate) fn close(self) -> (values: Vec<c_int>)
        requires
            self.wf(),
        ensures
            values@ == encoded(self.pairs()),
    {
        let mut values: Vec<c_int> = self.values;
        values.push(0);
        assert(values@ =~= encoded(self.pairs()));
        values
    }
}

} // verus!
