//! The entity contract: the schema a record type declares to the scaffold.
//!
//! An entity declares a singular and a plural name, an identifier, and an
//! ordered list of named columns whose count is fixed per type.  The names
//! and the values are index-aligned: position `i` of the column names and
//! position `i` of the column values always refer to the same declared
//! field.  The contract also fixes how an instance is rebuilt from its
//! identifier and column values, which grounds both the wire codec and the
//! storage row codec.

use crate::column::ColumnValue;
use crate::context::Context;
use crate::routes::{routes_for, spec_routes, Route};
use vstd::prelude::*;
use vstd::string::*;

verus! {

/// The schema contract an entity type satisfies.
///
/// The spec functions are the type's mathematical schema; the executable
/// methods are required to agree with them, and the proof obligations pin
/// the invariants every entity keeps: names and values stay index-aligned,
/// and an instance is recovered exactly from its identifier and values.
pub trait Entity: Sized {
    /// The declared singular name.
    spec fn spec_name() -> Seq<char>;

    /// The declared plural name.
    spec fn spec_name_plural() -> Seq<char>;

    /// The name of the identifier field in the wire format.
    spec fn spec_id_field() -> Seq<char>;

    /// The declared column names, in schema order; fixed per type.
    spec fn spec_column_names() -> Seq<Seq<char>>;

    /// The column values of this instance, in schema order.
    spec fn spec_columns(&self) -> Seq<ColumnValue>;

    /// The identifier of this instance.
    spec fn spec_id(&self) -> u64;

    /// This instance with its identifier replaced.
    spec fn spec_with_id(self, id: u64) -> Self;

    /// The instance rebuilt from an identifier and column values, if they
    /// form a valid record of this type.
    spec fn spec_from_columns(id: u64, values: Seq<ColumnValue>) -> Option<Self>;

    /// Column names and column values always have the same length.
    proof fn lemma_columns_aligned(&self)
        ensures
            self.spec_columns().len() == Self::spec_column_names().len(),
    ;

    /// Replacing the identifier yields an instance carrying that
    /// identifier, and replacing it with the one already carried changes
    /// nothing.
    proof fn lemma_with_id(self, id: u64)
        ensures
            self.spec_with_id(id).spec_id() == id,
            self.spec_id() == id ==> self.spec_with_id(id) == self,
    ;

    /// An instance is rebuilt exactly from its own identifier and values.
    proof fn lemma_from_columns_round_trip(&self)
        ensures
            Self::spec_from_columns(self.spec_id(), self.spec_columns()) == Some(*self),
    ;

    /// The declared singular name.
    fn name() -> (r: &'static str)
        ensures
            r@ == Self::spec_name(),
    ;

    /// The declared plural name.
    fn name_plural() -> (r: &'static str)
        ensures
            r@ == Self::spec_name_plural(),
    ;

    /// The wire-format name of the identifier field.
    fn id_field_name() -> (r: &'static str)
        ensures
            r@ == Self::spec_id_field(),
    ;

    /// The value of the field used as primary key.
    fn id(&self) -> (r: u64)
        ensures
            r == self.spec_id(),
    ;

    /// Replaces the primary key of this instance.
    fn set_id(&mut self, id: u64)
        ensures
            *final(self) == old(self).spec_with_id(id),
    ;

    /// The declared column names, index-aligned with [`Entity::column_values`].
    fn column_names() -> (r: Vec<String>)
        ensures
            r.deep_view() == Self::spec_column_names(),
    ;

    /// The column values of this instance, index-aligned with
    /// [`Entity::column_names`].
    fn column_values(&self) -> (r: Vec<ColumnValue>)
        ensures
            r@ == self.spec_columns(),
    ;

    /// Rebuilds an instance from an identifier and column values.
    fn from_columns(id: u64, values: Vec<ColumnValue>) -> (r: Option<Self>)
        ensures
            r == Self::spec_from_columns(id, values@),
    ;

    /// The route table generated for this entity: the eleven API and UI
    /// bindings derived from its declared names.  Every implementation —
    /// the provided one included — returns exactly this table, so route
    /// generation is deterministic for every entity type.
    fn routes() -> (r: Vec<Route>)
        ensures
            r@.map_values(|rt: Route| rt@) == spec_routes(
                Self::spec_name(),
                Self::spec_name_plural(),
            ),
    {
        routes_for(Self::name(), Self::name_plural())
    }
}

/// Why registering an entity is refused.
#[derive(Clone, Copy, PartialEq, Eq, Structural, Debug)]
pub enum RegistrationError {
    /// a different registered name already derives the same plural slug,
    /// so the two entities' route paths would overlap
    SlugCollision,
}

/// Registers an entity with a context and generates its route table.
///
/// The context's registry must contain the plural name of every entity
/// whose routes are served, or cross-entity references fail to resolve;
/// this is the one place that adds a name, so registering every entity
/// this way keeps that invariant.  A plural name whose slug is already
/// derived by a different registered name is refused — two such entities
/// would silently overwrite each other's routes.  On success the returned
/// table is exactly [`spec_routes`] for the entity's declared names.
pub fn register_entity<E: Entity, P, X>(ctx: &mut Context<P, X>) -> (r: Result<
    Vec<Route>,
    RegistrationError,
>)
    requires
        old(ctx).wf(),
    ensures
        final(ctx).wf(),
        final(ctx).spec_uploads_dir() == old(ctx).spec_uploads_dir(),
        final(ctx).spec_pool() == old(ctx).spec_pool(),
        final(ctx).spec_extension() == old(ctx).spec_extension(),
        r is Err <==> old(ctx).spec_slug_collides(E::spec_name_plural()),
        r is Err ==> r == Err::<Vec<Route>, RegistrationError>(RegistrationError::SlugCollision)
            && final(ctx).spec_registry() == old(ctx).spec_registry(),
        r is Ok ==> final(ctx).spec_contains(E::spec_name_plural()),
        (r is Ok && old(ctx).spec_contains(E::spec_name_plural())) ==> final(ctx).spec_registry()
            == old(ctx).spec_registry(),
        (r is Ok && !old(ctx).spec_contains(E::spec_name_plural())) ==> final(ctx).spec_registry()
            == old(ctx).spec_registry().push(E::spec_name_plural()),
        r matches Ok(v) ==> v@.map_values(|rt: Route| rt@) == spec_routes(
            E::spec_name(),
            E::spec_name_plural(),
        ),
{
    let plural = E::name_plural();
    let plural_string = String::from_str(plural);
    if ctx.slug_collides(&plural_string) {
        return Err(RegistrationError::SlugCollision);
    }
    ctx.register_name(plural_string);
    proof {
        let names = ctx.spec_registry();
        if old(ctx).spec_contains(E::spec_name_plural()) {
            assert(ctx.spec_contains(E::spec_name_plural()));
        } else {
            assert(names[names.len() - 1] == E::spec_name_plural());
        }
    }
    Ok(routes_for(E::name(), plural))
}

/// Copies an entity instance by reading its identifier and column values
/// and rebuilding it; the contract's round trip makes the copy exact.
pub fn duplicate<E: Entity>(e: &E) -> (r: E)
    ensures
        r == *e,
{
    proof {
        e.lemma_from_columns_round_trip();
    }
    let values = e.column_values();
    match E::from_columns(e.id(), values) {
        Some(r) => r,
        None => vstd::pervasive::unreached(),
    }
}

/// Schema alignment: for every entity type the column names and the column
/// values of any instance are sequences of equal length, so index `i` of
/// both refers to the same declared field.
pub proof fn lemma_schema_alignment<E: Entity>(e: &E)
    ensures
        e.spec_columns().len() == E::spec_column_names().len(),
{
    e.lemma_columns_aligned();
}

} // verus!
