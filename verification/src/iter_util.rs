use vstd::prelude::*;

verus! {

/// Items handed out one by one, each with whether another item follows it.
pub struct WithHashNextIter<T> {
    /// The items not handed out yet, the next one last.
    rest: Vec<T>,
}

impl<T> WithHashNextIter<T> {
    /// The items not handed out yet, in order.
    pub closed spec fn remaining(&self) -> Seq<T> {
        self.rest@.reverse()
    }

    /// The next item and whether another item follows it; none when all
    /// items have been handed out.
    pub fn next(&mut self) -> (r: Option<(T, bool)>)
        ensures
            r == next_of(old(self).remaining()),
            final(self).remaining() == rest_of(old(self).remaining()),
    {
        match self.rest.pop() {
            None => None,
            Some(cur) => {
                let is_some = self.rest.len() > 0;
                proof {
                    let o = old(self).rest@;
                    assert(o.reverse()[0] == o.last());
                    assert(self.rest@.reverse() =~= o.reverse().drop_first());
                }
                Some((cur, is_some))
            },
        }
    }
}

/// What `next` gives when `remaining` are the items not handed out: the
/// first of them and whether another follows; none when there are none.
pub open spec fn next_of<T>(remaining: Seq<T>) -> Option<(T, bool)> {
    if remaining.len() == 0 {
        None
    } else {
        Some((remaining[0], remaining.len() > 1))
    }
}

/// The items not handed out after `next`.
pub open spec fn rest_of<T>(remaining: Seq<T>) -> Seq<T> {
    if remaining.len() == 0 {
        remaining
    } else {
        remaining.drop_first()
    }
}

/// Successive calls of `next` hand out the items in order, each unchanged:
/// before call `i` the items not handed out are those from position `i` on;
/// call `i` gives item `i` with `true` exactly when it is not the last; once
/// all items are handed out, every call gives none and changes nothing.
pub proof fn law_items_in_order<T>(items: Seq<T>, i: int)
    requires
        0 <= i <= items.len(),
    ensures
        i < items.len() ==> next_of(items.skip(i)) == Some((items[i], i + 1 < items.len())),
        i < items.len() ==> rest_of(items.skip(i)) == items.skip(i + 1),
        i == items.len() ==> next_of(items.skip(i)) is None && rest_of(items.skip(i)) == items.skip(i),
        items.skip(0) == items,
{
    assert(items.skip(0) =~= items);
    if i < items.len() {
        assert(items.skip(i).drop_first() =~= items.skip(i + 1));
    }
}

/// Pairing each item with whether another item follows it.
pub trait MyIterUtil<T>: Sized {
    /// The items in order.
    spec fn items(self) -> Seq<T>;

    fn with_has_next(self) -> (r: WithHashNextIter<T>)
        ensures
            r.remaining() == self.items(),
    ;
}

impl<T> MyIterUtil<T> for Vec<T> {
    open spec fn items(self) -> Seq<T> {
        self@
    }

    fn with_has_next(self) -> (r: WithHashNextIter<T>) {
        let mut v = self;
        let ghost all = v@;
        let mut rest: Vec<T> = Vec::new();
        while v.len() > 0
            invariant
                all == v@ + rest@.reverse(),
            decreases v@.len(),
        {
            let ghost before = v@;
            let x = v.pop().unwrap();
            proof {
                assert(before == v@.push(x));
            }
            rest.push(x);
            assert(rest@.reverse() =~= seq![x] + rest@.drop_last().reverse()) by {
                assert(rest@.drop_last().push(x) == rest@);
            }
            assert(all =~= v@ + rest@.reverse());
        }
        assert(all =~= rest@.reverse());
        WithHashNextIter { rest }
    }
}

} // verus!
