//! The typed operand stack of the interpreter.

use vstd::prelude::*;

verus! {

/// The mathematical shape of one stack entry: the text entries are compared
/// by their character sequences.
pub enum ValueModel {
    Text(Seq<char>),
    Number(i64),
}

/// A tagged operand: either a piece of text or a signed number.
pub enum StackValue {
    Text(String),
    Number(i64),
}

impl View for StackValue {
    type V = ValueModel;

    open spec fn view(&self) -> ValueModel {
        match self {
            StackValue::Text(s) => ValueModel::Text(s@),
            StackValue::Number(n) => ValueModel::Number(*n),
        }
    }
}

impl DeepView for StackValue {
    type V = ValueModel;

    open spec fn deep_view(&self) -> ValueModel {
        self.view()
    }
}

impl Clone for StackValue {
    fn clone(&self) -> (r: Self)
        ensures
            r@ == self@,
    {
        match self {
            StackValue::Text(s) => StackValue::Text(s.clone()),
            StackValue::Number(n) => StackValue::Number(*n),
        }
    }
}

/// A plain type the stack can hand out: the trait fixes which stack variant
/// carries the type and what value that variant holds.
pub trait StackType: Sized {
    /// Whether `v` carries a value of this type.
    spec fn fits(v: ValueModel) -> bool;

    /// The stack entry that carries `self`.
    spec fn wrapped(self) -> ValueModel;

    /// Takes the value out of a matching entry and refuses any other.
    fn unwrap_value(v: StackValue) -> (r: Option<Self>)
        ensures
            r is Some <==> Self::fits(v@),
            r is Some ==> r->0.wrapped() == v@,
    ;

    /// Wraps the value as a stack entry.
    fn wrap_value(self) -> (r: StackValue)
        ensures
            r@ == self.wrapped(),
    ;
}

impl StackType for String {
    open spec fn fits(v: ValueModel) -> bool {
        v is Text
    }

    open spec fn wrapped(self) -> ValueModel {
        ValueModel::Text(self@)
    }

    fn unwrap_value(v: StackValue) -> (r: Option<Self>) {
        match v {
            StackValue::Text(s) => Some(s),
            _ => None,
        }
    }

    fn wrap_value(self) -> (r: StackValue) {
        StackValue::Text(self)
    }
}

impl StackType for i64 {
    open spec fn fits(v: ValueModel) -> bool {
        v is Number
    }

    open spec fn wrapped(self) -> ValueModel {
        ValueModel::Number(self)
    }

    fn unwrap_value(v: StackValue) -> (r: Option<Self>) {
        match v {
            StackValue::Number(n) => Some(n),
            _ => None,
        }
    }

    fn wrap_value(self) -> (r: StackValue) {
        StackValue::Number(self)
    }
}

/// The operand stack: an ordered sequence whose last element is the top.
pub struct Stack {
    items: Vec<StackValue>,
}

impl View for Stack {
    type V = Seq<ValueModel>;

    closed spec fn view(&self) -> Seq<ValueModel> {
        self.items.deep_view()
    }
}

impl Stack {
    /// An empty stack.
    pub fn new() -> (r: Stack)
        ensures
            r@ == Seq::<ValueModel>::empty(),
    {
        let items: Vec<StackValue> = Vec::new();
        proof {
            assert(items.deep_view() =~= Seq::<ValueModel>::empty());
        }
        Stack { items }
    }

    pub fn len(&self) -> (r: usize)
        ensures
            r == self@.len(),
    {
        self.items.len()
    }

    /// Pushes one entry onto the top of the stack.
    pub fn push(&mut self, v: StackValue)
        ensures
            final(self)@ == old(self)@.push(v@),
    {
        self.items.push(v);
        proof {
            assert(self.items.deep_view() =~= old(self).items.deep_view().push(v@));
        }
    }

    /// Reads the top entry without removing it.
    pub fn peek(&self) -> (r: Option<&StackValue>)
        ensures
            self@.len() == 0 ==> r is None,
            self@.len() > 0 ==> r is Some && r->0@ == self@.last(),
    {
        if self.items.len() == 0 {
            None
        } else {
            Some(&self.items[self.items.len() - 1])
        }
    }

    /// Removes and returns the top entry, whatever it carries.
    pub fn pop_value(&mut self) -> (r: Option<StackValue>)
        ensures
            old(self)@.len() == 0 ==> r is None && final(self)@ == old(self)@,
            old(self)@.len() > 0 ==> r is Some && r->0@ == old(self)@.last() && final(self)@ == old(
                self,
            )@.drop_last(),
    {
        let r = self.items.pop();
        proof {
            if old(self)@.len() > 0 {
                assert(self.items.deep_view() =~= old(self).items.deep_view().drop_last());
            }
        }
        r
    }

    /// Removes the top entry if it carries a `T`. On an empty stack, or when
    /// the top entry carries the other variant, the stack is left completely
    /// unchanged and nothing is returned.
    pub fn try_pop<T: StackType>(&mut self) -> (r: Option<T>)
        ensures
            (old(self)@.len() > 0 && T::fits(old(self)@.last())) ==> {
                &&& r is Some
                &&& r->0.wrapped() == old(self)@.last()
                &&& final(self)@ == old(self)@.drop_last()
            },
            !(old(self)@.len() > 0 && T::fits(old(self)@.last())) ==> {
                &&& r is None
                &&& final(self)@ == old(self)@
            },
    {
        if self.items.len() == 0 {
            return None;
        }
        let top = &self.items[self.items.len() - 1];
        let matched = T::unwrap_value(top.clone());
        if matched.is_none() {
            return None;
        }
        let v = self.items.pop().unwrap();
        proof {
            assert(self.items.deep_view() =~= old(self).items.deep_view().drop_last());
        }
        T::unwrap_value(v)
    }
}

} // verus!
