//! The user enumeration's guaranteed outcome.
//!
//! The caller walks the system user database inside one scoped
//! acquisition of its process-global cursor and collects every login
//! name in the database's own order.  That walk is the caller's;
//! what is decided here is the guarantee on the result: an empty
//! enumeration — a platform without the database, or an empty one —
//! is replaced by the one-element sequence holding the process's real
//! login name, so the answer is never empty.

use vstd::prelude::*;

use crate::value::texts_model;

verus! {

/// What the user listing returns, given the enumerated names and the
/// process's real login name.
pub open spec fn spec_users(ns: Seq<Seq<u8>>, login: Seq<u8>) -> Seq<Seq<u8>> {
    if ns.len() == 0 {
        seq![login]
    } else {
        ns
    }
}

/// Finishes a user enumeration.  `names` is every login name the
/// database walk produced, in enumeration order; `login` is the
/// process's real login name.  The names pass through untouched, in
/// their order, unless the walk found none — then the login name
/// stands alone.  The result is a function of these two inputs and
/// nothing else, and it is never empty.
pub fn get_users(names: Vec<Vec<u8>>, login: Vec<u8>) -> (r: Vec<Vec<u8>>)
    ensures
        texts_model(r@) == spec_users(texts_model(names@), login@),
        r@.len() >= 1,
{
    if names.len() == 0 {
        let mut r: Vec<Vec<u8>> = Vec::new();
        r.push(login);
        proof {
            assert(texts_model(r@) =~~= spec_users(texts_model(names@), login@));
        }
        r
    } else {
        proof {
            assert(texts_model(names@) =~~= spec_users(texts_model(names@), login@));
        }
        names
    }
}

} // verus!
