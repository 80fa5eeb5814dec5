//! The identity context: the trusted result of authenticating one request.
use vstd::prelude::*;

verus! {

/// Why a context could not be made.
#[derive(Debug, Clone, Copy, PartialEq, Eq, Structural)]
pub enum Error {
    /// The root identity is reserved for the system itself.
    CtxCannotNewRootCtx,
}

pub type Result<T> = core::result::Result<T, Error>;

impl Error {
    /// The variant's name.
    pub open spec fn name(self) -> Seq<char> {
        "CtxCannotNewRootCtx"@
    }

    /// The variant's name, as text.
    pub fn to_string(&self) -> (s: String)
        ensures
            s@ == self.name(),
    {
        "CtxCannotNewRootCtx".to_owned()
    }
}

/// The principal on whose behalf a request runs.
#[derive(Debug, Clone, Copy, PartialEq, Eq, Structural)]
pub struct Ctx {
    user_id: i64,
}

impl View for Ctx {
    type V = i64;

    /// The principal's identifier.
    closed spec fn view(&self) -> i64 {
        self.user_id
    }
}

impl Ctx {
    /// The identifier of the root identity.
    pub open spec fn spec_root_id() -> i64 {
        0
    }

    /// The system's own identity.
    pub fn root_ctx() -> (ctx: Ctx)
        ensures
            ctx@ == Ctx::spec_root_id(),
    {
        Ctx { user_id: 0 }
    }

    /// The context of the principal `user_id`; refused for the root
    /// identity, which no request may claim.
    pub fn new(user_id: i64) -> (r: Result<Ctx>)
        ensures
            match r {
                Ok(ctx) => user_id != Ctx::spec_root_id() && ctx@ == user_id,
                Err(e) => user_id == Ctx::spec_root_id() && e == Error::CtxCannotNewRootCtx,
            },
    {
        if user_id == 0 {
            Err(Error::CtxCannotNewRootCtx)
        } else {
            Ok(Ctx { user_id })
        }
    }

    /// The principal's identifier.
    pub fn user_id(&self) -> (id: i64)
        ensures
            id == self@,
    {
        self.user_id
    }
}

} // verus!
