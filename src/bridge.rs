//! Moving owned values across the embedder boundary and back.
//!
//! The engine only ever holds an opaque token for the state of a callback.
//! [`Slots`] owns that state while the engine holds the token, and hands it
//! back exactly once when the token is reclaimed.
use vstd::prelude::*;

verus! {

/// A token that stands for a value parked in [`Slots`].
pub type SlotToken = usize;

/// Owned values parked under tokens until they are reclaimed.
///
/// Tokens are handed out in order and never reused, so a token that was
/// reclaimed once can never reach a value again.
pub struct Slots<T> {
    entries: Vec<Option<T>>,
}

impl<T> View for Slots<T> {
    type V = Seq<Option<T>>;

    /// Slot `t` holds the value parked under token `t`, or `None` once it is
    /// reclaimed.
    closed spec fn view(&self) -> Seq<Option<T>> {
        self.entries@
    }
}

impl<T> Slots<T> {
    /// Whether `token` currently holds a value.
    pub open spec fn holds(&self, token: SlotToken) -> bool {
        token < self@.len() && self@[token as int] is Some
    }

    /// The value that `token` currently holds.
    pub open spec fn value(&self, token: SlotToken) -> T
        recommends
            self.holds(token),
    {
        self@[token as int].unwrap()
    }

    /// No value is parked yet.
    pub fn new() -> (r: Slots<T>)
        ensures
            r@ == Seq::<Option<T>>::empty(),
    {
        Slots { entries: Vec::new() }
    }

    /// Parks `value` and returns the token that reaches it.
    pub fn park(&mut self, value: T) -> (token: SlotToken)
        ensures
            token == old(self)@.len(),
            final(self)@ == old(self)@.push(Some(value)),
    {
        let token = self.entries.len();
        self.entries.push(Some(value));
        token
    }

    /// Takes the value back out. A token that holds nothing, because it was
    /// reclaimed before or was never handed out, gives `None` and changes
    /// nothing.
    pub fn reclaim(&mut self, token: SlotToken) -> (r: Option<T>)
        ensures
            r == (if old(self).holds(token) {
                Some(old(self).value(token))
            } else {
                None::<T>
            }),
            final(self)@ == (if token < old(self)@.len() {
                old(self)@.update(token as int, None)
            } else {
                old(self)@
            }),
    {
        if token < self.entries.len() {
            let slot = &mut self.entries[token];
            slot.take()
        } else {
            None
        }
    }

    /// Parks `value` again under a token that was handed out before.
    pub fn restore(&mut self, token: SlotToken, value: T)
        requires
            token < old(self)@.len(),
        ensures
            final(self)@ == old(self)@.update(token as int, Some(value)),
    {
        self.entries.set(token, Some(value));
    }

    /// The value that `token` holds, for the length of a callback.
    pub fn get(&self, token: SlotToken) -> (r: Option<&T>)
        ensures
            r == (if self.holds(token) {
                Some(&self.value(token))
            } else {
                None::<&T>
            }),
    {
        if token < self.entries.len() {
            match &self.entries[token] {
                Some(v) => Some(v),
                None => None,
            }
        } else {
            None
        }
    }
}

/// Writes a produced value into a slot that the caller owns, and reports
/// whether there was one. Without a value the slot is left as it was.
pub fn return_out_param<T>(out: &mut T, value: Option<T>) -> (r: bool)
    ensures
        r == value is Some,
        match value {
            Some(v) => *final(out) == v,
            None => *final(out) == *old(out),
        },
{
    match value {
        Some(v) => {
            *out = v;
            true
        },
        None => false,
    }
}

} // verus!
