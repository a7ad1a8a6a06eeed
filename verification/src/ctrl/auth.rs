use vstd::prelude::*;

use std::sync::Arc;

use crate::text::str_eq;

verus! {

broadcast use vstd::string::group_string_axioms;

/// The service that signs users in, as the authentication layer holds it.
#[derive(Clone)]
pub struct Backend<U> {
    svc: Arc<U>,
}

impl<U> Backend<U> {
    /// The service that the backend asks.
    pub closed spec fn service(&self) -> U {
        *self.svc
    }

    /// A backend that asks `svc`.
    pub fn new(svc: Arc<U>) -> (r: Self)
        ensures
            r.service() == *svc,
    {
        Backend { svc }
    }

    /// The service that the backend asks.
    pub fn svc(&self) -> (r: &Arc<U>)
        ensures
            **r == self.service(),
    {
        &self.svc
    }
}

/// Why signing a user in failed: the name and password do not match a user, or
/// something else went wrong (`E`).
pub enum SignInError<E> {
    Login,
    Other(E),
}

/// What the authentication backend answers to a sign-in: the user where it worked, no
/// user where the name and password did not match, and any other failure as it is.
pub fn authenticated<V, E>(sign_in: Result<V, SignInError<E>>) -> (r: Result<Option<V>, E>)
    ensures
        match sign_in {
            Ok(u) => r == Ok::<Option<V>, E>(Some(u)),
            Err(SignInError::Login) => r == Ok::<Option<V>, E>(None),
            Err(SignInError::Other(e)) => r == Err::<Option<V>, E>(e),
        },
{
    match sign_in {
        Ok(u) => Ok(Some(u)),
        Err(SignInError::Login) => Ok(None),
        Err(SignInError::Other(e)) => Err(e),
    }
}

/// What becomes of a request that reaches the authentication layer.
#[derive(Clone, Copy, Debug, PartialEq, Eq, Structural)]
pub enum Access {
    /// The request goes on to the inner service.
    Forward,
    /// The request is answered `401 Unauthorized`.
    Unauthorized,
}

/// The layer in front of the gRPC services: requests to the public paths, and
/// requests of a signed-in user, go on to `inner`; the others are refused.
#[derive(Clone, Debug)]
pub struct AuthService<S> {
    pub inner: S,
    pub public_path: Vec<String>,
}

/// What a request for `path` is granted, given the public paths and whether a user is
/// signed in.
pub open spec fn access_for(public: Seq<Seq<char>>, path: Seq<char>, signed_in: bool) -> Access {
    if public.contains(path) || signed_in {
        Access::Forward
    } else {
        Access::Unauthorized
    }
}

impl<S> AuthService<S> {
    /// The public paths, as text.
    pub open spec fn public_paths(&self) -> Seq<Seq<char>> {
        self.public_path@.map_values(|p: String| p@)
    }

    /// Whether `path` is one of the public paths.
    pub fn is_public(&self, path: &str) -> (r: bool)
        ensures
            r == self.public_paths().contains(path@),
    {
        let n = self.public_path.len();
        for i in 0..n
            invariant
                n == self.public_path.len(),
                forall|j: int| 0 <= j < i ==> self.public_paths()[j] != path@,
        {
            if str_eq(self.public_path[i].as_str(), path) {
                assert(self.public_paths()[i as int] == path@);
                return true;
            }
        }
        assert forall|j: int| 0 <= j < self.public_paths().len() implies self.public_paths()[j] != path@ by {}
        false
    }

    /// What a request for `path` is granted; `signed_in` says whether its session holds
    /// a user.
    pub fn access(&self, path: &str, signed_in: bool) -> (r: Access)
        ensures
            r == access_for(self.public_paths(), path@, signed_in),
    {
        if self.is_public(path) {
            Access::Forward
        } else if signed_in {
            Access::Forward
        } else {
            Access::Unauthorized
        }
    }
}

/// A request for a public path goes on, whether a user is signed in or not; a request
/// of a signed-in user goes on, whatever its path; only a request for a path that is
/// not public, without a user, is refused.
pub proof fn lemma_access(public: Seq<Seq<char>>, path: Seq<char>, signed_in: bool)
    ensures
        public.contains(path) ==> access_for(public, path, signed_in) == Access::Forward,
        signed_in ==> access_for(public, path, signed_in) == Access::Forward,
        (access_for(public, path, signed_in) == Access::Unauthorized) <==> (!public.contains(path)
            && !signed_in),
{
}

} // verus!
