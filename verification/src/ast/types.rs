//! Source locations, and values tagged with them.

use vstd::prelude::*;
use vstd::string::StringExecFns;

use crate::ast::Expression;

verus! {

/// A range of positions in a source text.
#[derive(Debug, Clone, Copy, Hash, PartialEq, Eq)]
pub struct Loc {
    pub left: usize,
    pub right: usize,
}

/// A value with the place it was read from.
#[derive(Debug, Clone, Copy, Hash, PartialEq, Eq)]
pub struct Tag<T> {
    pub value: T,
    pub loc: Loc,
}

/// A value with the place it was read from, if it was read from one.
#[derive(Debug, Clone, Copy, Hash, PartialEq, Eq)]
pub struct OpTag<T> {
    pub value: T,
    pub loc: Option<Loc>,
}

impl<T> core::ops::Deref for Tag<T> {
    type Target = T;

    fn deref(&self) -> (value: &T)
        ensures
            *value == self.value,
    {
        &self.value
    }
}

impl<T> core::ops::DerefMut for Tag<T> {
    fn deref_mut(&mut self) -> (value: &mut T)
        ensures
            *value == old(self).value,
            *final(self) == (Tag { value: *final(value), loc: old(self).loc }),
    {
        &mut self.value
    }
}

impl<T> core::ops::Deref for OpTag<T> {
    type Target = T;

    fn deref(&self) -> (value: &T)
        ensures
            *value == self.value,
    {
        &self.value
    }
}

impl<T> core::ops::DerefMut for OpTag<T> {
    fn deref_mut(&mut self) -> (value: &mut T)
        ensures
            *value == old(self).value,
            *final(self) == (OpTag { value: *final(value), loc: old(self).loc }),
    {
        &mut self.value
    }
}

pub type BTag<T> = Box<OpTag<T>>;

pub type BTExpression = BTag<Expression>;

/// A name made of parts, such as that of a package.
#[derive(Debug, Clone)]
pub struct QualifiedName(pub Vec<OpTag<String>>);

/// The first `count` of `parts` as they are written out: each part of a name
/// but the last is followed by a dot.
pub open spec fn written(parts: Seq<Seq<char>>, count: nat) -> Seq<char>
    decreases count,
{
    if count == 0 {
        Seq::empty()
    } else {
        written(parts, (count - 1) as nat) + parts[count - 1] + if count < parts.len() {
            seq!['.']
        } else {
            Seq::empty()
        }
    }
}

impl View for QualifiedName {
    type V = Seq<Seq<char>>;

    open spec fn view(&self) -> Seq<Seq<char>> {
        Seq::new(self.0@.len(), |i: int| self.0@[i].value@)
    }
}

impl QualifiedName {
    /// The name as it is written: its parts with a dot between each two.
    pub fn to_string(&self) -> (text: String)
        ensures
            text@ == written(self@, self@.len()),
    {
        let mut text = String::new();
        let mut idx: usize = 0;
        while idx < self.0.len()
            invariant
                idx <= self.0.len(),
                text@ == written(self@, idx as nat),
            decreases self.0.len() - idx,
        {
            text.append(self.0[idx].value.as_str());
            if idx != self.0.len() - 1 {
                proof {
                    reveal_strlit(".");
                }
                text.append(".");
                assert(text@ =~= written(self@, idx as nat) + self@[idx as int] + seq!['.']);
            } else {
                assert(text@ =~= written(self@, idx as nat) + self@[idx as int] + Seq::<char>::empty());
            }
            idx = idx + 1;
        }
        text
    }
}

} // verus!
