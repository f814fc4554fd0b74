//! The operation engine: the decision core of the generated handlers.
//!
//! Each write operation runs the same staged flow: the request-scoped
//! extension is required first, before any entity work; for the single-row
//! operations the `:id` segment is parsed next; the stored row is loaded;
//! the payload is deserialized; the entity's hook runs exactly once; only a
//! hook that succeeds reaches storage.  Every outcome — success and each
//! error — is a function of the inputs, and a failed operation leaves the
//! store untouched.  Reads never run a hook.

use crate::entity::{duplicate, Entity};
use crate::hooks::{default_hooks, EntityHooks};
use crate::ids::{parse_id, spec_parse_id};
use crate::store::Store;
use crate::wire::{decode_wire, spec_decode_wire, WireRecord, WireRecordSpec};
use vstd::prelude::*;

verus! {

/// The ways an operation fails.  Each variant is a distinct error channel:
/// the first four are client errors, the last is the hook's refusal with
/// its reason.
#[derive(PartialEq, Eq, Debug)]
pub enum OpError<HE> {
    /// the request-scoped extension could not be extracted; the operation
    /// was refused before any entity work
    ExtensionRefused,
    /// the `:id` path segment is not a well-formed identifier
    InvalidId,
    /// the payload does not match the entity's declared schema
    InvalidPayload,
    /// a well-formed identifier with no matching row
    NotFound,
    /// the identifier of a created entity is already taken
    Conflict,
    /// the entity's hook refused the operation, with its reason
    Rejected(HE),
}

/// The outcome of a create: the extension is required first, then the
/// payload is deserialized, then the create hook runs; its result is
/// inserted if the identifier is free.
pub open spec fn spec_create_outcome<E: Entity + EntityHooks>(
    s: Store<E>,
    ext: Option<E::RequestExt>,
    payload: WireRecordSpec,
) -> Result<E, OpError<E::HookError>> {
    match ext {
        None => Err(OpError::ExtensionRefused),
        Some(x) => match spec_decode_wire::<E>(payload) {
            None => Err(OpError::InvalidPayload),
            Some(e) => match e.spec_on_create(x) {
                Err(he) => Err(OpError::Rejected(he)),
                Ok(v) => if s.spec_contains_id(v.spec_id()) {
                    Err(OpError::Conflict)
                } else {
                    Ok(v)
                },
            },
        },
    }
}

/// The outcome of an update: the extension is required first, then the
/// `:id` segment is parsed, the stored row loaded, the payload
/// deserialized and given the path identifier, and the update hook runs on
/// the stored row and the proposed replacement; its result is persisted
/// under the path identifier.
pub open spec fn spec_update_outcome<E: Entity + EntityHooks>(
    s: Store<E>,
    ext: Option<E::RequestExt>,
    id_segment: Seq<char>,
    payload: WireRecordSpec,
) -> Result<E, OpError<E::HookError>> {
    match ext {
        None => Err(OpError::ExtensionRefused),
        Some(x) => match spec_parse_id(id_segment) {
            None => Err(OpError::InvalidId),
            Some(id) => match s.spec_get(id) {
                None => Err(OpError::NotFound),
                Some(old_row) => match spec_decode_wire::<E>(payload) {
                    None => Err(OpError::InvalidPayload),
                    Some(d) => match E::spec_on_update(old_row, d.spec_with_id(id), x) {
                        Err(he) => Err(OpError::Rejected(he)),
                        Ok(v) => Ok(v.spec_with_id(id)),
                    },
                },
            },
        },
    }
}

/// The outcome of a delete: the extension is required first, then the
/// `:id` segment is parsed and the stored row loaded; the delete hook runs
/// on the stored row, and its result's row is removed.
pub open spec fn spec_delete_outcome<E: Entity + EntityHooks>(
    s: Store<E>,
    ext: Option<E::RequestExt>,
    id_segment: Seq<char>,
) -> Result<E, OpError<E::HookError>> {
    match ext {
        None => Err(OpError::ExtensionRefused),
        Some(x) => match spec_parse_id(id_segment) {
            None => Err(OpError::InvalidId),
            Some(id) => match s.spec_get(id) {
                None => Err(OpError::NotFound),
                Some(old_row) => match old_row.spec_on_delete(x) {
                    Err(he) => Err(OpError::Rejected(he)),
                    Ok(v) => Ok(v),
                },
            },
        },
    }
}

/// The outcome of a single-row read: no extension and no hook, only the
/// parsed identifier and the stored row.
pub open spec fn spec_fetch_outcome<E: Entity + EntityHooks>(
    s: Store<E>,
    id_segment: Seq<char>,
) -> Result<E, OpError<E::HookError>> {
    match spec_parse_id(id_segment) {
        None => Err(OpError::InvalidId),
        Some(id) => match s.spec_get(id) {
            None => Err(OpError::NotFound),
            Some(e) => Ok(e),
        },
    }
}

/// Creates an entity from a wire payload, running the create hook before
/// any storage mutation.  On success the hook's result is the new row; on
/// any error the store is unchanged.
pub fn create_entity<E: Entity + EntityHooks>(
    store: &mut Store<E>,
    ext: Option<E::RequestExt>,
    payload: &WireRecord,
) -> (r: Result<u64, OpError<E::HookError>>)
    requires
        old(store).wf(),
    ensures
        final(store).wf(),
        match spec_create_outcome(*old(store), ext, payload@) {
            Ok(v) => r == Ok::<u64, OpError<E::HookError>>(v.spec_id()) && final(store).spec_rows()
                == old(store).spec_rows().push(v),
            Err(oe) => r == Err::<u64, OpError<E::HookError>>(oe) && final(store).spec_rows()
                == old(store).spec_rows(),
        },
{
    let x = match ext {
        None => {
            return Err(OpError::ExtensionRefused);
        },
        Some(x) => x,
    };
    let d = match decode_wire::<E>(payload) {
        None => {
            return Err(OpError::InvalidPayload);
        },
        Some(d) => d,
    };
    match d.on_create(x) {
        Err(he) => Err(OpError::Rejected(he)),
        Ok(v) => {
            let id = v.id();
            if store.insert(v) {
                Ok(id)
            } else {
                Err(OpError::Conflict)
            }
        },
    }
}

/// Updates the entity stored under the `:id` segment from a wire payload.
/// The update hook sees the currently stored row and the deserialized
/// payload; only its successful result is persisted, and on any error the
/// store — in particular the addressed row — is unchanged.
pub fn update_entity<E: Entity + EntityHooks>(
    store: &mut Store<E>,
    ext: Option<E::RequestExt>,
    id_segment: &str,
    payload: &WireRecord,
) -> (r: Result<E, OpError<E::HookError>>)
    requires
        old(store).wf(),
    ensures
        final(store).wf(),
        r == spec_update_outcome(*old(store), ext, id_segment@, payload@),
        r is Err ==> final(store).spec_rows() == old(store).spec_rows(),
        r matches Ok(v) ==> final(store).spec_get(v.spec_id()) == Some(v)
            && final(store).spec_rows().len() == old(store).spec_rows().len()
            && (forall|id2: u64|
            id2 != v.spec_id() ==> #[trigger] final(store).spec_get(id2) == old(store).spec_get(
                id2,
            )),
{
    let x = match ext {
        None => {
            return Err(OpError::ExtensionRefused);
        },
        Some(x) => x,
    };
    let id = match parse_id(id_segment) {
        None => {
            return Err(OpError::InvalidId);
        },
        Some(id) => id,
    };
    let old_row = match store.get(id) {
        None => {
            return Err(OpError::NotFound);
        },
        Some(e) => duplicate(e),
    };
    let mut d = match decode_wire::<E>(payload) {
        None => {
            return Err(OpError::InvalidPayload);
        },
        Some(d) => d,
    };
    d.set_id(id);
    match E::on_update(old_row, d, x) {
        Err(he) => Err(OpError::Rejected(he)),
        Ok(v) => {
            proof {
                v.lemma_with_id(id);
            }
            let mut p = v;
            p.set_id(id);
            let out = duplicate(&p);
            let persisted = store.replace(p);
            proof {
                assert(persisted);
            }
            Ok(out)
        },
    }
}

/// Deletes the entity stored under the `:id` segment, running the delete
/// hook before the row is removed.  On success the row is gone; on any
/// error the store — in particular the addressed row — is unchanged.
pub fn delete_entity<E: Entity + EntityHooks>(
    store: &mut Store<E>,
    ext: Option<E::RequestExt>,
    id_segment: &str,
) -> (r: Result<E, OpError<E::HookError>>)
    requires
        old(store).wf(),
    ensures
        final(store).wf(),
        r == spec_delete_outcome(*old(store), ext, id_segment@),
        r is Err ==> final(store).spec_rows() == old(store).spec_rows(),
        r is Ok ==> (spec_parse_id(id_segment@) matches Some(id) && final(store).spec_get(id)
            == None::<E> && (forall|id2: u64|
            id2 != id ==> #[trigger] final(store).spec_get(id2) == old(store).spec_get(id2))),
{
    let x = match ext {
        None => {
            return Err(OpError::ExtensionRefused);
        },
        Some(x) => x,
    };
    let id = match parse_id(id_segment) {
        None => {
            return Err(OpError::InvalidId);
        },
        Some(id) => id,
    };
    let old_row = match store.get(id) {
        None => {
            return Err(OpError::NotFound);
        },
        Some(e) => duplicate(e),
    };
    match old_row.on_delete(x) {
        Err(he) => Err(OpError::Rejected(he)),
        Ok(v) => {
            let removed = store.remove(id);
            proof {
                assert(removed is Some);
            }
            Ok(v)
        },
    }
}

/// Fetches the entity stored under the `:id` segment.  Reads run no hook
/// and need no extension.
pub fn fetch_entity<E: Entity + EntityHooks>(store: &Store<E>, id_segment: &str) -> (r: Result<
    E,
    OpError<E::HookError>,
>)
    requires
        store.wf(),
    ensures
        r == spec_fetch_outcome(*store, id_segment@),
{
    let id = match parse_id(id_segment) {
        None => {
            return Err(OpError::InvalidId);
        },
        Some(id) => id,
    };
    match store.get(id) {
        None => Err(OpError::NotFound),
        Some(e) => Ok(duplicate(e)),
    }
}

/// Lists all stored entities, in storage order.  Reads run no hook and
/// need no extension.
pub fn list_entities<E: Entity + EntityHooks>(store: &Store<E>) -> (r: Vec<E>)
    requires
        store.wf(),
    ensures
        r@ == store.spec_rows(),
{
    let mut r: Vec<E> = Vec::new();
    let mut i: usize = 0;
    let n = store.len();
    while i < n
        invariant
            store.wf(),
            n == store.spec_rows().len(),
            0 <= i <= n,
            r@.len() == i,
            forall|j: int| 0 <= j < i ==> #[trigger] r@[j] == store.spec_rows()[j],
        decreases n - i,
    {
        r.push(duplicate(store.at(i)));
        i = i + 1;
    }
    proof {
        assert(r@ =~= store.spec_rows());
    }
    r
}

/// With the no-op hooks, create, update and delete are unconditional
/// persistence: the hook never alters the payload and never aborts, so a
/// decodable create persists exactly its payload, an update of a stored
/// row persists exactly the deserialized payload under the addressed
/// identifier, and a delete of a stored row always goes through.
pub proof fn lemma_default_hooks_pass_through<E: Entity + EntityHooks>(
    s: Store<E>,
    x: E::RequestExt,
    id_segment: Seq<char>,
    payload: WireRecordSpec,
)
    requires
        default_hooks::<E>(),
    ensures
        spec_decode_wire::<E>(payload) matches Some(e) ==> spec_create_outcome(
            s,
            Some(x),
            payload,
        ) == if s.spec_contains_id(e.spec_id()) {
            Err::<E, OpError<E::HookError>>(OpError::Conflict)
        } else {
            Ok::<E, OpError<E::HookError>>(e)
        },
        (spec_parse_id(id_segment) is Some && s.spec_get(spec_parse_id(id_segment)->Some_0)
            is Some && spec_decode_wire::<E>(payload) is Some) ==> spec_update_outcome(
            s,
            Some(x),
            id_segment,
            payload,
        ) == Ok::<E, OpError<E::HookError>>(
            (spec_decode_wire::<E>(payload)->Some_0).spec_with_id(
                spec_parse_id(id_segment)->Some_0,
            ),
        ),
        (spec_parse_id(id_segment) is Some && s.spec_get(spec_parse_id(id_segment)->Some_0)
            is Some) ==> spec_delete_outcome(s, Some(x), id_segment) == Ok::<
            E,
            OpError<E::HookError>,
        >(s.spec_get(spec_parse_id(id_segment)->Some_0)->Some_0),
{
    let pid = spec_parse_id(id_segment);
    if pid is Some {
        let id = pid->Some_0;
        let dec = spec_decode_wire::<E>(payload);
        if dec is Some {
            let d = dec->Some_0;
            d.lemma_with_id(id);
            d.spec_with_id(id).lemma_with_id(id);
        }
    }
}

/// A request whose `:id` segment does not parse never reaches the hook
/// layer: whatever the store holds and whatever the payload says, the
/// outcome is the identifier error, decided before any row is loaded or
/// any hook is consulted.
pub proof fn lemma_bad_id_short_circuits<E: Entity + EntityHooks>(
    s1: Store<E>,
    s2: Store<E>,
    x: E::RequestExt,
    id_segment: Seq<char>,
    payload_a: WireRecordSpec,
    payload_b: WireRecordSpec,
)
    requires
        spec_parse_id(id_segment) is None,
    ensures
        spec_update_outcome(s1, Some(x), id_segment, payload_a) == Err::<E, OpError<E::HookError>>(
            OpError::InvalidId,
        ),
        spec_update_outcome(s2, Some(x), id_segment, payload_b) == Err::<E, OpError<E::HookError>>(
            OpError::InvalidId,
        ),
        spec_delete_outcome(s1, Some(x), id_segment) == Err::<E, OpError<E::HookError>>(
            OpError::InvalidId,
        ),
{
}

/// A request whose extension cannot be extracted is refused before any
/// entity work: whatever the store, the segment and the payload, the
/// outcome is the extension error.
pub proof fn lemma_missing_extension_short_circuits<E: Entity + EntityHooks>(
    s: Store<E>,
    id_segment: Seq<char>,
    payload: WireRecordSpec,
)
    ensures
        spec_create_outcome(s, None, payload) == Err::<E, OpError<E::HookError>>(
            OpError::ExtensionRefused,
        ),
        spec_update_outcome(s, None, id_segment, payload) == Err::<E, OpError<E::HookError>>(
            OpError::ExtensionRefused,
        ),
        spec_delete_outcome(s, None, id_segment) == Err::<E, OpError<E::HookError>>(
            OpError::ExtensionRefused,
        ),
{
}

} // verus!
