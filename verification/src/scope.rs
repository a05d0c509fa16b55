//! The user-data scope: the RAII discipline that swaps the opaque host
//! token visible to callbacks during reentrant calls.
//!
//! Every host reentry records the previous token, installs the new one,
//! and restores the previous token on exit — on every exit path, including
//! when JS throws.  Nesting with the same token is allowed; nesting with a
//! different non-null token is a programming error and is excluded.

use vstd::prelude::*;
use crate::isolate::DenoIsolate;

verus! {

/// Entering a scope: the isolate's new token and the token to save.
pub open spec fn spec_scope_enter(user_data: usize, data: usize) -> (usize, usize)
    recommends
        user_data == 0 || user_data == data,
{
    (data, user_data)
}

/// Exiting a scope restores exactly the saved token.
pub open spec fn spec_scope_exit(saved: usize) -> usize {
    saved
}

/// An entered user-data scope: the token it installed and the one it will
/// restore.
pub struct UserDataScope {
    pub prev_data_: usize,
    pub data_: usize,
}

impl UserDataScope {
    /// Enter a scope: install `data` as the isolate's user-data token.
    /// The enclosing token must be null or the same token.
    pub fn new(deno: &mut DenoIsolate, data: usize) -> (s: Self)
        requires
            old(deno).user_data_ == 0 || old(deno).user_data_ == data,
        ensures
            s.data_ == data,
            (final(deno).user_data_, s.prev_data_) == spec_scope_enter(old(deno).user_data_, data),
            *final(deno) == (DenoIsolate { user_data_: data, ..*old(deno) }),
    {
        let s = UserDataScope { prev_data_: deno.user_data_, data_: data };
        deno.user_data_ = data;
        s
    }

    /// Leave the scope: the token must still be the one this scope
    /// installed, and the saved token is restored.
    pub fn exit(self, deno: &mut DenoIsolate)
        requires
            old(deno).user_data_ == self.data_,
        ensures
            final(deno).user_data_ == spec_scope_exit(self.prev_data_),
            *final(deno) == (DenoIsolate { user_data_: self.prev_data_, ..*old(deno) }),
    {
        deno.user_data_ = self.prev_data_;
    }
}

/// Law (idempotent scopes): nesting a scope with the same token inside
/// another is allowed, and unwinding the nest — on any path — restores
/// first the enclosing scope's token and then the original outer token.
pub proof fn lemma_scope_nesting_restores(outer: usize, data: usize)
    requires
        outer == 0 || outer == data,
    ensures
        ({
            let (ud1, saved1) = spec_scope_enter(outer, data);
            let (ud2, saved2) = spec_scope_enter(ud1, data);
            &&& ud1 == data
            &&& ud2 == data
            &&& spec_scope_exit(saved2) == ud1
            &&& spec_scope_exit(saved1) == outer
        }),
{
}

} // verus!
