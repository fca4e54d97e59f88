//! Lists of named things: a name and what belongs to it.

use vstd::prelude::*;
use crate::lists::{take_all, take_next};
use crate::text::same;
use crate::value::{ColumnRule, Kind};

verus! {

/// A value that can be copied whole.
pub trait Dup: DeepView + Sized {
    fn duplicate(&self) -> (r: Self)
        ensures
            r.deep_view() == self.deep_view(),
    ;
}

impl Dup for Kind {
    fn duplicate(&self) -> (r: Kind) {
        *self
    }
}

impl Dup for String {
    fn duplicate(&self) -> (r: String) {
        self.clone()
    }
}

impl Dup for ColumnRule {
    fn duplicate(&self) -> (r: ColumnRule) {
        self.dup()
    }
}

/// The list without the entries named `name`.
pub open spec fn without<T>(list: Seq<(Seq<char>, T)>, name: Seq<char>) -> Seq<(Seq<char>, T)>
    decreases list.len(),
{
    if list.len() == 0 {
        Seq::empty()
    } else if list.last().0 == name {
        without(list.drop_last(), name)
    } else {
        without(list.drop_last(), name).push(list.last())
    }
}

/// The list with the entries named `from` named `to`.
pub open spec fn renamed<T>(list: Seq<(Seq<char>, T)>, from: Seq<char>, to: Seq<char>) -> Seq<
    (Seq<char>, T),
> {
    list.map_values(
        |entry: (Seq<char>, T)|
            if entry.0 == from {
                (to, entry.1)
            } else {
                entry
            },
    )
}

/// Whether an entry is named `name`.
pub open spec fn has_name<T>(list: Seq<(Seq<char>, T)>, name: Seq<char>) -> bool {
    exists|i: int| 0 <= i < list.len() && (#[trigger] list[i]).0 == name
}

/// What is left is named otherwise.
pub proof fn without_is_gone<T>(list: Seq<(Seq<char>, T)>, name: Seq<char>)
    ensures
        !has_name(without(list, name), name),
    decreases list.len(),
{
    if list.len() > 0 {
        without_is_gone(list.drop_last(), name);
        let done = without(list.drop_last(), name);
        if list.last().0 != name {
            assert forall|i: int| 0 <= i < done.push(list.last()).len() implies (
            #[trigger] done.push(list.last())[i]).0 != name by {
                if i < done.len() {
                    assert(done[i].0 != name);
                }
            }
        }
    }
}

/// A name that is not there can be left out.
pub proof fn without_absent<T>(list: Seq<(Seq<char>, T)>, name: Seq<char>)
    requires
        !has_name(list, name),
    ensures
        without(list, name) == list,
    decreases list.len(),
{
    if list.len() > 0 {
        assert forall|i: int| 0 <= i < list.drop_last().len() implies (
        #[trigger] list.drop_last()[i]).0 != name by {
            assert(list[i].0 != name);
        }
        assert(list[list.len() - 1].0 != name);
        without_absent(list.drop_last(), name);
        assert(list.drop_last().push(list.last()) =~= list);
    } else {
        assert(without(list, name) =~= list);
    }
}

pub fn copy_list<T: Dup>(list: &Vec<(String, T)>) -> (r: Vec<(String, T)>)
    ensures
        r.deep_view() == list.deep_view(),
{
    let mut out: Vec<(String, T)> = Vec::new();
    let mut i: usize = 0;
    while i < list.len()
        invariant
            i <= list@.len(),
            out@.len() == i,
            forall|k: int| 0 <= k < i ==> (#[trigger] out@[k]).deep_view() == list@[k].deep_view(),
        decreases list@.len() - i,
    {
        out.push((list[i].0.clone(), list[i].1.duplicate()));
        i = i + 1;
    }
    assert(out.deep_view() =~= list.deep_view());
    out
}

pub fn leave_out<T: Dup>(list: &Vec<(String, T)>, name: &str) -> (r: Vec<(String, T)>)
    ensures
        r.deep_view() == without(list.deep_view(), name@),
{
    let ghost all = list.deep_view();
    let mut out: Vec<(String, T)> = Vec::new();
    let mut i: usize = 0;
    assert(all.take(0) =~= Seq::<(Seq<char>, T::V)>::empty());
    assert(out.deep_view() =~= Seq::<(Seq<char>, T::V)>::empty());
    while i < list.len()
        invariant
            i <= list@.len(),
            all == list.deep_view(),
            out.deep_view() == without(all.take(i as int), name@),
        decreases list@.len() - i,
    {
        proof {
            take_next(all, i as int);
            assert(all[i as int] == list@[i as int].deep_view());
        }
        if !same(list[i].0.as_str(), name) {
            let entry = (list[i].0.clone(), list[i].1.duplicate());
            let ghost before = out.deep_view();
            out.push(entry);
            assert(out.deep_view() =~= before.push(entry.deep_view()));
        }
        i = i + 1;
    }
    proof {
        take_all(all);
    }
    out
}

pub fn rename_in<T: Dup>(list: &Vec<(String, T)>, from: &str, to: &str) -> (r: Vec<(String, T)>)
    ensures
        r.deep_view() == renamed(list.deep_view(), from@, to@),
{
    let ghost all = list.deep_view();
    let mut out: Vec<(String, T)> = Vec::new();
    let mut i: usize = 0;
    while i < list.len()
        invariant
            i <= list@.len(),
            all == list.deep_view(),
            out@.len() == i,
            forall|k: int|
                0 <= k < i ==> (#[trigger] out@[k]).deep_view() == renamed(all, from@, to@)[k],
        decreases list@.len() - i,
    {
        assert(all[i as int] == list@[i as int].deep_view());
        let name = if same(list[i].0.as_str(), from) {
            crate::text::owned(to)
        } else {
            list[i].0.clone()
        };
        out.push((name, list[i].1.duplicate()));
        i = i + 1;
    }
    assert(out.deep_view() =~= renamed(all, from@, to@));
    out
}

pub fn holds_name<T: DeepView>(list: &Vec<(String, T)>, name: &str) -> (r: bool)
    ensures
        r == has_name(list.deep_view(), name@),
{
    let ghost all = list.deep_view();
    let mut i: usize = 0;
    while i < list.len()
        invariant
            i <= list@.len(),
            all == list.deep_view(),
            forall|k: int| 0 <= k < i ==> (#[trigger] all[k]).0 != name@,
        decreases list@.len() - i,
    {
        assert(all[i as int] == list@[i as int].deep_view());
        if same(list[i].0.as_str(), name) {
            return true;
        }
        i = i + 1;
    }
    false
}

/// Adds one entry to a list.
pub fn add_entry<T: DeepView>(list: &mut Vec<(String, T)>, name: String, value: T)
    ensures
        final(list).deep_view() == old(list).deep_view().push((name@, value.deep_view())),
{
    let ghost before = list.deep_view();
    let ghost entry = (name@, value.deep_view());
    list.push((name, value));
    assert(list.deep_view() =~= before.push(entry));
}

} // verus!
