//! Guards: borrows of account data that are entered in the borrow state.
use std::ops::{Deref, DerefMut};

use vstd::prelude::*;

use crate::account::NON_DUP_MARKER;
use crate::account_info::AccountInfo;
use crate::accounts::Accounts;
use crate::borrow::BorrowStep;
use crate::step::AccountStep;

verus! {

/// Reference to account data or lamports with checked borrow rules.
///
/// The borrow lasts until the guard is handed to [`Ref::drop`]; a guard that is
/// merely forgotten stays counted.
#[must_use]
#[derive(Debug)]
pub struct Ref<'a, T: ?Sized> {
    value: &'a T,
    state: AccountInfo,
}

/// Mutable reference to account data or lamports with checked borrow rules.
///
/// The borrow lasts until the guard is handed to [`RefMut::drop`]; a guard that is
/// merely forgotten stays counted.
#[must_use]
#[derive(Debug)]
pub struct RefMut<'a, T: ?Sized> {
    value: &'a mut T,
    state: AccountInfo,
}

/// Calls `f` on `a`. Since the type of `a` is a parameter, a mutable reference is
/// moved into the call, where a direct call would borrow from it anew.
fn call_on<A, B, F: FnOnce(A) -> B>(a: A, f: F) -> (b: B)
    requires
        call_requires(f, (a,)),
    ensures
        call_ensures(f, (a,), b),
{
    f(a)
}

impl<'a, T: ?Sized> Ref<'a, T> {
    /// What the guard refers to.
    pub closed spec fn value(&self) -> &'a T {
        self.value
    }

    /// The account whose borrow state the guard is entered in.
    pub closed spec fn state(&self) -> AccountInfo {
        self.state
    }

    /// A guard on `value`, as part of an immutable borrow that the borrow state
    /// of the account `state` already counts.
    pub fn new(value: &'a T, state: AccountInfo) -> (guard: Self)
        ensures
            guard.value() == value,
            guard.state() == state,
    {
        Ref { value, state }
    }

    /// Maps a reference to a new type.
    ///
    /// The new guard stands for the same borrow: the borrow state stays.
    pub fn map<U: ?Sized, F>(orig: Ref<'a, T>, f: F) -> (guard: Ref<'a, U>) where
        F: FnOnce(&T) -> &U,

        requires
            call_requires(f, (orig.value(),)),
        ensures
            call_ensures(f, (orig.value(),), guard.value()),
            guard.state() == orig.state(),
    {
        Ref { value: f(orig.value), state: orig.state }
    }

    /// Tries to makes a new `Ref` for a component of the borrowed data.
    /// On failure, the original guard is returned alongside with the error
    /// returned by the closure.
    pub fn try_map<U: ?Sized, E>(
        orig: Ref<'a, T>,
        f: impl FnOnce(&T) -> Result<&U, E>,
    ) -> (mapped: Result<Ref<'a, U>, (Self, E)>)
        requires
            call_requires(f, (orig.value(),)),
        ensures
            match mapped {
                Ok(guard) => {
                    &&& call_ensures(f, (orig.value(),), Ok(guard.value()))
                    &&& guard.state() == orig.state()
                },
                Err((guard, e)) => {
                    &&& call_ensures(f, (orig.value(),), Err(e))
                    &&& guard == orig
                },
            },
    {
        match f(orig.value) {
            Ok(value) => Ok(Ref { value, state: orig.state }),
            Err(e) => Err((orig, e)),
        }
    }

    /// Filters and maps a reference to a new type.
    pub fn filter_map<U: ?Sized, F>(orig: Ref<'a, T>, f: F) -> (mapped: Result<Ref<'a, U>, Self>) where
        F: FnOnce(&T) -> Option<&U>,

        requires
            call_requires(f, (orig.value(),)),
        ensures
            match mapped {
                Ok(guard) => {
                    &&& call_ensures(f, (orig.value(),), Some(guard.value()))
                    &&& guard.state() == orig.state()
                },
                Err(guard) => {
                    &&& call_ensures(f, (orig.value(),), None)
                    &&& guard == orig
                },
            },
    {
        match f(orig.value) {
            Some(value) => Ok(Ref { value, state: orig.state }),
            None => Err(orig),
        }
    }

    /// Ends the borrow: gives back the unit that it took from the borrow state.
    pub fn drop(self, accounts: &mut Accounts)
        requires
            self.state().valid_in(*old(accounts)),
            self.state().borrow_state(*old(accounts)) < NON_DUP_MARKER,
        ensures
            final(accounts).wf(),
            final(accounts)@ == self.state().after(
                *old(accounts),
                AccountStep::Borrow(BorrowStep::Drop),
            ),
    {
        let account = accounts.entry_mut(self.state.address());
        account.account.borrow_state = account.account.borrow_state + 1;
    }
}

impl<T: ?Sized> Deref for Ref<'_, T> {
    type Target = T;

    fn deref(&self) -> (value: &T)
        ensures
            value == self.value(),
    {
        self.value
    }
}

impl<'a, T: ?Sized> RefMut<'a, T> {
    /// The place that the guard refers to.
    pub closed spec fn place(self) -> &'a mut T {
        self.value
    }

    /// The account whose borrow state the guard is entered in.
    pub closed spec fn state(&self) -> AccountInfo {
        self.state
    }

    /// A guard on `value`, as the mutable borrow that the borrow state of the
    /// account `state` already records.
    pub fn new(value: &'a mut T, state: AccountInfo) -> (guard: Self)
        ensures
            &*guard.place() == &*old(value),
            &*final(guard.place()) == &*final(value),
            guard.state() == state,
    {
        RefMut { value, state }
    }

    /// Maps a mutable reference to a new type.
    ///
    /// The new guard stands for the same borrow: the borrow state stays.
    pub fn map<U: ?Sized, F>(orig: RefMut<'a, T>, f: F) -> (guard: RefMut<'a, U>) where
        F: FnOnce(&mut T) -> &mut U,

        requires
            call_requires(f, (orig.place(),)),
        ensures
            call_ensures(f, (orig.place(),), guard.place()),
            guard.state() == orig.state(),
    {
        let RefMut { value, state } = orig;
        RefMut { value: call_on(value, f), state }
    }

    /// Tries to makes a new `RefMut` for a component of the borrowed data.
    /// On failure, the original guard is returned alongside with the error
    /// returned by the closure. For this the closure hands back the reference
    /// it was given: what becomes of the one becomes of the other.
    pub fn try_map<U: ?Sized, E>(
        orig: RefMut<'a, T>,
        f: impl FnOnce(&mut T) -> Result<&mut U, (&mut T, E)>,
    ) -> (mapped: Result<RefMut<'a, U>, (Self, E)>)
        requires
            call_requires(f, (orig.place(),)),
            forall|q: &mut T, e: E|
                #[trigger] call_ensures(f, (orig.place(),), Err((q, e)))
                    ==> &*final(q) == &*final(orig.place()),
        ensures
            match mapped {
                Ok(guard) => {
                    &&& call_ensures(f, (orig.place(),), Ok(guard.place()))
                    &&& guard.state() == orig.state()
                },
                Err((guard, e)) => {
                    &&& call_ensures(f, (orig.place(),), Err((guard.place(), e)))
                    &&& &*final(guard.place()) == &*final(orig.place())
                    &&& guard.state() == orig.state()
                },
            },
    {
        let RefMut { value, state } = orig;
        // `Some(value).unwrap()` moves the reference into the guard; the bare name
        // would borrow from it anew.
        match call_on(value, f) {
            Ok(value) => Ok(RefMut { value: Some(value).unwrap(), state }),
            Err((value, e)) => Err((RefMut { value: Some(value).unwrap(), state }, e)),
        }
    }

    /// Filters and maps a mutable reference to a new type.
    /// On failure, the original guard is returned. For this the closure hands
    /// back the reference it was given: what becomes of the one becomes of the
    /// other.
    pub fn filter_map<U: ?Sized, F>(orig: RefMut<'a, T>, f: F) -> (mapped: Result<
        RefMut<'a, U>,
        Self,
    >) where F: FnOnce(&mut T) -> Result<&mut U, &mut T>,
        requires
            call_requires(f, (orig.place(),)),
            forall|q: &mut T|
                #[trigger] call_ensures(f, (orig.place(),), Err(q))
                    ==> &*final(q) == &*final(orig.place()),
        ensures
            match mapped {
                Ok(guard) => {
                    &&& call_ensures(f, (orig.place(),), Ok(guard.place()))
                    &&& guard.state() == orig.state()
                },
                Err(guard) => {
                    &&& call_ensures(f, (orig.place(),), Err(guard.place()))
                    &&& &*final(guard.place()) == &*final(orig.place())
                    &&& guard.state() == orig.state()
                },
            },
    {
        let RefMut { value, state } = orig;
        // As in `try_map`, the reference is moved into the guard.
        match call_on(value, f) {
            Ok(value) => Ok(RefMut { value: Some(value).unwrap(), state }),
            Err(value) => Err(RefMut { value: Some(value).unwrap(), state }),
        }
    }

    /// Ends the borrow: the account counts as not borrowed from now on, and what
    /// the guard referred to keeps the value it has.
    pub fn drop(self, accounts: &mut Accounts)
        requires
            self.state().valid_in(*old(accounts)),
        ensures
            final(accounts).wf(),
            final(accounts)@ == self.state().after(
                *old(accounts),
                AccountStep::Borrow(BorrowStep::DropMut),
            ),
            &*final(self.place()) == &*self.place(),
    {
        let account = accounts.entry_mut(self.state.address());
        account.account.borrow_state = NON_DUP_MARKER;
    }
}

impl<T: ?Sized> Deref for RefMut<'_, T> {
    type Target = T;

    fn deref(&self) -> (value: &T)
        ensures
            value == &*self.place(),
    {
        &*self.value
    }
}

impl<T: ?Sized> DerefMut for RefMut<'_, T> {
    fn deref_mut(&mut self) -> (value: &mut T)
        ensures
            &*value == &*old(self).place(),
            &*final(value) == &*final(self).place(),
            &*final(final(self).place()) == &*final(old(self).place()),
            final(self).state() == old(self).state(),
    {
        &mut *self.value
    }
}

} // verus!
