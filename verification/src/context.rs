//! The shared request context.
//!
//! Every generated handler runs against a context: a storage pool handle,
//! the registry of all registered plural entity names, the uploads
//! directory, and an application-defined extension.  The capability is a
//! trait, so one set of handlers serves any context implementation; the
//! concrete [`Context`] is the reference implementation.  The registry is
//! fixed after startup: reads return the registered names in a stable
//! order, and cloning the context preserves them.

use crate::slug::slug_of;
use vstd::prelude::*;
use vstd::string::*;

verus! {

/// Copies a vector of names, element for element.
fn clone_names(v: &Vec<String>) -> (r: Vec<String>)
    ensures
        r@ == v@,
{
    let mut r: Vec<String> = Vec::new();
    let mut i: usize = 0;
    while i < v.len()
        invariant
            0 <= i <= v@.len(),
            r@.len() == i,
            forall|j: int| 0 <= j < i ==> #[trigger] r@[j] == v@[j],
        decreases v@.len() - i,
    {
        r.push(v[i].clone());
        i = i + 1;
    }
    proof {
        assert(r@ =~= v@);
    }
    r
}

/// The capability every handler may assume of its context: a storage pool,
/// the registry of registered plural names, the uploads directory, and the
/// application extension.  All four reads are pure accessors.
pub trait ContextTrait: Sized {
    /// The storage pool handle type; opaque to the scaffold.
    type Pool;

    /// The application extension type, projectable from this context.
    type Ext: ContextExt<Self>;

    /// The registered plural entity names, in the registry's stable order.
    spec fn spec_names(&self) -> Seq<Seq<char>>;

    /// The uploads directory path.
    spec fn spec_uploads(&self) -> Seq<char>;

    /// The storage pool handle.
    spec fn spec_db(&self) -> Self::Pool;

    /// The application extension value.
    spec fn spec_ext(&self) -> Self::Ext;

    /// A handle to the shared storage pool; callers never own it.
    fn db(&self) -> (r: &Self::Pool)
        ensures
            *r == self.spec_db(),
    ;

    /// The registered plural entity names.  The sequence is finite and
    /// restartable: every read returns the same names in the same order.
    fn names_plural(&self) -> (r: Vec<String>)
        ensures
            r.deep_view() == self.spec_names(),
    ;

    /// The filesystem location for uploaded media; constant for the
    /// process lifetime.
    fn uploads_dir(&self) -> (r: &str)
        ensures
            r@ == self.spec_uploads(),
    ;

    /// The application-defined extension; generic code only forwards it.
    fn ext(&self) -> (r: &Self::Ext)
        ensures
            *r == self.spec_ext(),
    ;
}

/// The projection capability of a context extension: a sub-handler extracts
/// from the full context exactly the slice it declares it needs.
pub trait ContextExt<Ctx>: Sized {
    /// The slice of the context this extension projects out.
    spec fn spec_project(ctx: &Ctx) -> Self;

    /// Extracts the extension from the full context.
    fn project(ctx: &Ctx) -> (r: Self)
        ensures
            r == Self::spec_project(ctx),
    ;
}

/// The reference context: a storage pool, the name registry, the uploads
/// directory and the extension, shared by cloning.
pub struct Context<P, X> {
    db: P,
    names_plural: Vec<String>,
    uploads_dir: String,
    ext: X,
}

impl<P, X> Context<P, X> {
    /// The registered plural names, in registration order.  The trait-level
    /// [`ContextTrait::spec_names`] of a `Context` is this view.
    pub closed spec fn spec_registry(&self) -> Seq<Seq<char>> {
        self.names_plural.deep_view()
    }

    /// The uploads directory path; [`ContextTrait::spec_uploads`] is this view.
    pub closed spec fn spec_uploads_dir(&self) -> Seq<char> {
        self.uploads_dir@
    }

    /// The stored pool handle; [`ContextTrait::spec_db`] is this view.
    pub closed spec fn spec_pool(&self) -> P {
        self.db
    }

    /// The stored extension; [`ContextTrait::spec_ext`] is this view.
    pub closed spec fn spec_extension(&self) -> X {
        self.ext
    }

    /// The registry holds no name twice.
    pub open spec fn wf(&self) -> bool {
        forall|i: int, j: int|
            0 <= i < j < self.spec_registry().len() ==> self.spec_registry()[i]
                != self.spec_registry()[j]
    }

    /// Whether a plural name is registered.
    pub open spec fn spec_contains(&self, n: Seq<char>) -> bool {
        exists|i: int| 0 <= i < self.spec_registry().len() && self.spec_registry()[i] == n
    }

    /// Whether some registered name other than `p` derives the same slug as
    /// `p` — the ambiguous-routing case registration must refuse.
    pub open spec fn spec_slug_collides(&self, p: Seq<char>) -> bool {
        exists|i: int|
            0 <= i < self.spec_registry().len() && (#[trigger] self.spec_registry()[i]) != p
                && slug_of(self.spec_registry()[i]) == slug_of(p)
    }

    /// Builds a context with an empty name registry, holding the given
    /// pool, uploads directory and extension.
    pub fn new(db: P, uploads_dir: String, ext: X) -> (r: Self)
        ensures
            r.wf(),
            r.spec_registry() == Seq::<Seq<char>>::empty(),
            r.spec_uploads_dir() == uploads_dir@,
            r.spec_pool() == db,
            r.spec_extension() == ext,
    {
        let r = Context { db, names_plural: Vec::new(), uploads_dir, ext };
        proof {
            assert(r.spec_registry() =~= Seq::<Seq<char>>::empty());
        }
        r
    }

    /// Whether the given plural name is registered.
    pub fn contains_name(&self, name: &String) -> (r: bool)
        ensures
            r == self.spec_contains(name@),
    {
        let mut i: usize = 0;
        while i < self.names_plural.len()
            invariant
                0 <= i <= self.names_plural@.len(),
                forall|j: int| 0 <= j < i ==> self.spec_registry()[j] != name@,
            decreases self.names_plural@.len() - i,
        {
            proof {
                assert(self.spec_registry()[i as int] == self.names_plural@[i as int]@);
            }
            if self.names_plural[i] == *name {
                return true;
            }
            i = i + 1;
        }
        false
    }

    /// Registers an entity's plural name.  A name already present is kept
    /// once: the registry stays duplicate-free and the order of earlier
    /// registrations is unchanged; the pool, the uploads directory and the
    /// extension are untouched.
    pub fn register_name(&mut self, name: String)
        requires
            old(self).wf(),
        ensures
            final(self).wf(),
            final(self).spec_uploads_dir() == old(self).spec_uploads_dir(),
            final(self).spec_pool() == old(self).spec_pool(),
            final(self).spec_extension() == old(self).spec_extension(),
            old(self).spec_contains(name@) ==> final(self).spec_registry() == old(
                self,
            ).spec_registry(),
            !old(self).spec_contains(name@) ==> final(self).spec_registry() == old(
                self,
            ).spec_registry().push(name@),
    {
        let ghost n = name@;
        if !self.contains_name(&name) {
            let ghost before = self.names_plural.deep_view();
            self.names_plural.push(name);
            proof {
                assert(self.names_plural.deep_view() =~= before.push(n));
                assert forall|i: int, j: int|
                    0 <= i < j < self.spec_registry().len() implies self.spec_registry()[i]
                    != self.spec_registry()[j] by {
                    if j == self.spec_registry().len() - 1 {
                        assert(self.spec_registry()[i] == before[i]);
                        assert(!(0 <= i < old(self).spec_registry().len() && old(
                            self,
                        ).spec_registry()[i] == n)) by {
                            if 0 <= i < old(self).spec_registry().len() && old(
                                self,
                            ).spec_registry()[i] == n {
                                assert(old(self).spec_contains(n));
                            }
                        }
                    }
                }
            }
        }
    }

    /// Whether registering the given plural name would collide: some other
    /// registered name already derives the same slug, so the two entities'
    /// route paths would overlap.
    pub fn slug_collides(&self, name: &String) -> (r: bool)
        ensures
            r == self.spec_slug_collides(name@),
    {
        let target = crate::slug::slug(name.as_str());
        let mut i: usize = 0;
        while i < self.names_plural.len()
            invariant
                target@ == slug_of(name@),
                0 <= i <= self.names_plural@.len(),
                forall|j: int|
                    0 <= j < i ==> !((#[trigger] self.spec_registry()[j]) != name@ && slug_of(
                        self.spec_registry()[j],
                    ) == slug_of(name@)),
            decreases self.names_plural@.len() - i,
        {
            proof {
                assert(self.spec_registry()[i as int] == self.names_plural@[i as int]@);
            }
            if !(self.names_plural[i] == *name) {
                let other = crate::slug::slug(self.names_plural[i].as_str());
                if other == target {
                    return true;
                }
            }
            i = i + 1;
        }
        false
    }
}

impl<P, X: ContextExt<Context<P, X>>> ContextTrait for Context<P, X> {
    type Pool = P;

    type Ext = X;

    open spec fn spec_names(&self) -> Seq<Seq<char>> {
        self.spec_registry()
    }

    open spec fn spec_uploads(&self) -> Seq<char> {
        self.spec_uploads_dir()
    }

    open spec fn spec_db(&self) -> P {
        self.spec_pool()
    }

    open spec fn spec_ext(&self) -> X {
        self.spec_extension()
    }

    fn db(&self) -> (r: &P) {
        &self.db
    }

    fn names_plural(&self) -> (r: Vec<String>) {
        let r = clone_names(&self.names_plural);
        proof {
            assert(r.deep_view() =~= self.names_plural.deep_view());
        }
        r
    }

    fn uploads_dir(&self) -> (r: &str) {
        self.uploads_dir.as_str()
    }

    fn ext(&self) -> (r: &X) {
        &self.ext
    }
}

impl<P: Clone, X: Clone> Clone for Context<P, X> {
    /// Cloning shares the context: the clone carries the same registered
    /// names, in the same order, and the same uploads directory.
    fn clone(&self) -> (r: Self)
        ensures
            r.spec_registry() == self.spec_registry(),
            r.spec_uploads_dir() == self.spec_uploads_dir(),
            r.wf() == self.wf(),
    {
        Context {
            db: self.db.clone(),
            names_plural: clone_names(&self.names_plural),
            uploads_dir: self.uploads_dir.clone(),
            ext: self.ext.clone(),
        }
    }
}

/// The unit extension: the no-op projection for applications that need no
/// extension, extracting nothing from any context.
impl<P, X> ContextExt<Context<P, X>> for () {
    open spec fn spec_project(ctx: &Context<P, X>) -> Self {
        ()
    }

    fn project(ctx: &Context<P, X>) -> (r: Self) {
        ()
    }
}

/// A cloned context yields the same names as its source: whatever `clone`
/// returned for a context, the clone's registry — and with it every read
/// of its plural names — equals the source's, name for name.
pub proof fn lemma_clone_yields_same_names<P: Clone, X: Clone + ContextExt<Context<P, X>>>(
    ctx: &Context<P, X>,
    copy: &Context<P, X>,
)
    requires
        call_ensures(<Context<P, X> as Clone>::clone, (ctx,), *copy),
    ensures
        copy.spec_names() == ctx.spec_names(),
{
}

/// Reading the registered names is stable: two reads from contexts whose
/// registries agree — in particular from a context and its clone — yield
/// the same names in the same order, however many requests used them.
pub proof fn lemma_names_plural_stable<C: ContextTrait>(
    c1: &C,
    c2: &C,
    r1: Seq<Seq<char>>,
    r2: Seq<Seq<char>>,
)
    requires
        c1.spec_names() == c2.spec_names(),
        r1 == c1.spec_names(),
        r2 == c2.spec_names(),
    ensures
        r1 == r2,
{
}

} // verus!
