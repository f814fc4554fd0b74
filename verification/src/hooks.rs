//! Lifecycle hooks: per-entity callbacks around create, update and delete.
//!
//! A hook sees the operation's payload — and, for updates, the currently
//! stored row — together with a request-scoped extension extracted from the
//! incoming request, and either transforms the payload or rejects the
//! operation.  Hooks never run for reads.  An entity whose hooks are the
//! no-op pass-through behaves exactly like unconditional persistence.

use vstd::prelude::*;

verus! {

/// The lifecycle callbacks of an entity type.
///
/// Each callback's behaviour is its spec function; the executable methods
/// agree with them, so the engine's outcomes are functions of the hook
/// policy the entity declares.
pub trait EntityHooks: Sized {
    /// The request-scoped value hooks receive, extracted from the live
    /// request's metadata, independent of the shared context.
    type RequestExt;

    /// The error a hook rejects an operation with.
    type HookError;

    /// The declared policy applied before an instance is created.
    spec fn spec_on_create(self, ext: Self::RequestExt) -> Result<Self, Self::HookError>;

    /// The declared policy applied before an instance is updated, given the
    /// stored row and the proposed replacement.
    spec fn spec_on_update(old_row: Self, new_row: Self, ext: Self::RequestExt) -> Result<
        Self,
        Self::HookError,
    >;

    /// The declared policy applied before an instance is deleted.
    spec fn spec_on_delete(self, ext: Self::RequestExt) -> Result<Self, Self::HookError>;

    /// Called before an instance is inserted into storage; returns the
    /// value to persist, or the reason the create is refused.
    fn on_create(self, ext: Self::RequestExt) -> (r: Result<Self, Self::HookError>)
        ensures
            r == self.spec_on_create(ext),
    ;

    /// Called before an instance is updated: `old_row` is the currently
    /// stored row, `new_row` the deserialized request payload.  Returns the
    /// value to persist, or the reason the update is refused.
    fn on_update(old_row: Self, new_row: Self, ext: Self::RequestExt) -> (r: Result<
        Self,
        Self::HookError,
    >)
        ensures
            r == Self::spec_on_update(old_row, new_row, ext),
    ;

    /// Called before an instance is deleted; returns the value whose row is
    /// to be removed, or the reason the delete is refused.
    fn on_delete(self, ext: Self::RequestExt) -> (r: Result<Self, Self::HookError>)
        ensures
            r == self.spec_on_delete(ext),
    ;
}

/// The no-op hook policy: every callback passes its payload through
/// unchanged and never fails.  This is the default behaviour of an entity
/// that declares no custom policy.
pub open spec fn default_hooks<E: EntityHooks>() -> bool {
    &&& forall|e: E, x: E::RequestExt| #[trigger] e.spec_on_create(x) == Result::<
        E,
        E::HookError,
    >::Ok(e)
    &&& forall|o: E, n: E, x: E::RequestExt| #[trigger] E::spec_on_update(o, n, x) == Result::<
        E,
        E::HookError,
    >::Ok(n)
    &&& forall|e: E, x: E::RequestExt| #[trigger] e.spec_on_delete(x) == Result::<
        E,
        E::HookError,
    >::Ok(e)
}

} // verus!
