//! The typed handle: a host opaque-handle value together with the static type
//! of the value that it embeds.

use vstd::prelude::*;
use crate::error::{Error, ErrorView};
use crate::host::{reclaimed, reclaimed_value, written, Host};
use crate::robj::{Robj, RobjView, Rtype};

verus! {

/// The opaque handle that construction makes for a value stored at `addr`:
/// the tag is the type-identity string as a host string, the protected slot
/// is nil.
pub open spec fn handle_for(addr: usize, name: Seq<char>) -> RobjView {
    RobjView::ExternalPtr {
        addr,
        tag: Box::new(RobjView::Str(name)),
        protected: Box::new(RobjView::Null),
    }
}

/// Whether `robj` is an opaque handle whose tag is the host string `name`.
pub open spec fn tag_matches(robj: RobjView, name: Seq<char>) -> bool {
    robj is ExternalPtr && robj.tag().as_str() == Some(name)
}

/// The outcome of converting `robj` to a handle for the type named
/// `name`: the same value on success, else the error that names what was
/// wrong with it.
pub open spec fn try_from_spec(robj: RobjView, name: Seq<char>) -> Result<
    RobjView,
    ErrorView,
> {
    if !(robj is ExternalPtr) {
        Err(ErrorView::ExpectedExternalPtr(robj))
    } else if !tag_matches(robj, name) {
        Err(ErrorView::ExpectedExternalPtrType(robj, name))
    } else {
        Ok(robj)
    }
}

/// The value of a conversion's result: the handle's host value, or the error.
pub open spec fn outcome<T: TypeTag>(res: Result<ExternalPtr<T>, Error>) -> Result<
    RobjView,
    ErrorView,
> {
    match res {
        Ok(p) => Ok(p@),
        Err(e) => Err(e@),
    }
}

/// A type that can be embedded: it names itself by a fixed string, which
/// becomes the tag of every handle made for it.
pub trait TypeTag {
    /// The text of the type-identity string. An implementation states its own
    /// text here; one that states none has the empty text.
    open spec fn tag_text() -> Seq<char> {
        Seq::empty()
    }

    /// The type-identity string.
    fn type_tag() -> (name: &'static str)
        ensures
            name@ == Self::tag_text(),
    ;
}

impl TypeTag for i32 {
    open spec fn tag_text() -> Seq<char> {
        "i32"@
    }

    fn type_tag() -> (name: &'static str) {
        "i32"
    }
}

impl TypeTag for u64 {
    open spec fn tag_text() -> Seq<char> {
        "u64"@
    }

    fn type_tag() -> (name: &'static str) {
        "u64"
    }
}

impl TypeTag for bool {
    open spec fn tag_text() -> Seq<char> {
        "bool"@
    }

    fn type_tag() -> (name: &'static str) {
        "bool"
    }
}

impl TypeTag for String {
    open spec fn tag_text() -> Seq<char> {
        "alloc::string::String"@
    }

    fn type_tag() -> (name: &'static str) {
        "alloc::string::String"
    }
}

/// A host opaque handle that embeds a `T`. The host's store owns the value;
/// the handle gives borrows of it. Every handle wraps a host value of the
/// opaque-handle kind whose tag is the type-identity string of `T`.
pub struct ExternalPtr<T: TypeTag> {
    /// The contained host value, always of the opaque-handle kind.
    robj: Robj,
    /// Holds the type of the embedded value.
    marker: std::marker::PhantomData<T>,
}

impl<T: TypeTag> View for ExternalPtr<T> {
    type V = RobjView;

    closed spec fn view(&self) -> RobjView {
        self.robj@
    }
}

impl<T: TypeTag> From<ExternalPtr<T>> for Robj {
    /// Unwraps the handle to its host value, which keeps all three slots.
    fn from(val: ExternalPtr<T>) -> (res: Robj) {
        val.into_robj()
    }
}

impl<T: TypeTag> vstd::std_specs::convert::FromSpecImpl<ExternalPtr<T>> for Robj {
    open spec fn obeys_from_spec() -> bool {
        true
    }

    open spec fn from_spec(val: ExternalPtr<T>) -> Robj {
        val.robj()
    }
}

impl<T: TypeTag> PartialEq for ExternalPtr<T> {
    /// Two handles are equal when they wrap equal host values: the same
    /// address, tag and protected value.
    fn eq(&self, other: &Self) -> (res: bool) {
        self.robj.same(&other.robj)
    }
}

impl<T: TypeTag> vstd::std_specs::cmp::PartialEqSpecImpl for ExternalPtr<T> {
    open spec fn obeys_eq_spec() -> bool {
        true
    }

    open spec fn eq_spec(&self, other: &Self) -> bool {
        self@ == other@
    }
}

impl<T: TypeTag> Clone for ExternalPtr<T> {
    /// Another handle to the same cell: the embedded value is not copied.
    fn clone(&self) -> (res: Self)
        ensures
            res@ == self@,
    {
        proof {
            use_type_invariant(self);
        }
        ExternalPtr { robj: self.robj.duplicate(), marker: std::marker::PhantomData }
    }
}

impl<T: TypeTag> ExternalPtr<T> {
    #[verifier::type_invariant]
    spec fn is_handle(self) -> bool {
        tag_matches(self.robj@, T::tag_text())
    }

    /// The host value that the handle wraps.
    pub closed spec fn robj(self) -> Robj {
        self.robj
    }

    /// The wrapped host value is the handle's value.
    pub proof fn lemma_robj_view(self)
        ensures
            self.robj()@ == self@,
    {
    }

    /// The address of the embedded value in the host's store.
    pub open spec fn address(&self) -> usize {
        self@.addr()
    }

    /// Moves `val` into a new cell of the host's store and returns the handle
    /// whose address slot is that cell, whose tag slot is the type-identity
    /// string of `T` as a host string and whose protected slot is nil.
    pub fn new(host: &mut Host<T>, val: T) -> (res: Self)
        ensures
            res@ == handle_for(res.address(), T::tag_text()),
            res.address() == old(host)@.len(),
            final(host)@ == old(host)@.push(Some(val)),
    {
        let addr: usize = host.allocate(val);
        let robj = Robj::make_external_ptr(addr, Robj::from_str(T::type_tag()), Robj::null());
        ExternalPtr { robj, marker: std::marker::PhantomData }
    }

    /// Converts a host value to a handle for `T`. Succeeds exactly when the
    /// value is an opaque handle whose tag is the type-identity string of `T`
    /// as a host string. A value that is no opaque handle is refused as such;
    /// an opaque handle with another tag is refused with the expected name.
    pub fn try_from(robj: Robj) -> (res: Result<Self, Error>)
        ensures
            outcome(res) == try_from_spec(robj@, T::tag_text()),
    {
        if robj.rtype() != Rtype::ExternalPtr {
            return Err(Error::ExpectedExternalPtr(robj));
        }
        if !has_tag(&robj, T::type_tag()) {
            return Err(Error::ExpectedExternalPtrType(robj, T::type_tag().to_owned()));
        }
        Ok(ExternalPtr { robj, marker: std::marker::PhantomData })
    }

    /// The host value in the tag slot.
    pub fn tag(&self) -> (res: Robj)
        ensures
            tag_matches(self@, T::tag_text()),
            res@ == self@.tag(),
            res@ == RobjView::Str(T::tag_text()),
    {
        proof {
            use_type_invariant(self);
        }
        match &self.robj {
            Robj::ExternalPtr { tag, .. } => tag.duplicate(),
            _ => vstd::pervasive::unreached(),
        }
    }

    /// The host value in the protected slot.
    pub fn protected(&self) -> (res: Robj)
        ensures
            tag_matches(self@, T::tag_text()),
            res@ == self@.protected(),
    {
        proof {
            use_type_invariant(self);
        }
        match &self.robj {
            Robj::ExternalPtr { protected, .. } => protected.duplicate(),
            _ => vstd::pervasive::unreached(),
        }
    }

    /// The address slot.
    pub fn raw_addr(&self) -> (res: usize)
        ensures
            tag_matches(self@, T::tag_text()),
            res == self.address(),
    {
        proof {
            use_type_invariant(self);
        }
        match &self.robj {
            Robj::ExternalPtr { addr, .. } => *addr,
            _ => vstd::pervasive::unreached(),
        }
    }

    /// Borrows the embedded value. The handle must not have been finalized.
    pub fn addr<'a>(&self, host: &'a Host<T>) -> (res: &'a T)
        requires
            host.live(self.address()),
        ensures
            *res == host.value(self.address()),
    {
        host.get(self.raw_addr())
    }

    /// Borrows the embedded value for writing. The handle must not have been
    /// finalized. What the caller writes through the borrow is what the cell
    /// holds afterwards; the handle and every other cell stay as they were.
    pub fn addr_mut<'a>(&mut self, host: &'a mut Host<T>) -> (res: &'a mut T)
        requires
            old(host).live(old(self).address()),
        ensures
            *res == old(host).value(old(self).address()),
            final(host)@ == written(old(host)@, old(self).address(), *final(res)),
            final(self)@ == old(self)@,
    {
        let a: usize = self.raw_addr();
        host.get_mut(a)
    }

    /// Unwraps the handle to its host value, which keeps all three slots.
    pub fn into_robj(self) -> (res: Robj)
        ensures
            res == self.robj(),
            res@ == self@,
            tag_matches(res@, T::tag_text()),
    {
        proof {
            use_type_invariant(&self);
        }
        self.robj
    }

    /// The collector's callback for an unreachable handle `x`: empties the
    /// cell at the handle's address and hands out the embedded value, which
    /// the collector drops. A second run on the same address finds the cell
    /// empty and does nothing; so does a run on a value that is no handle.
    pub fn finalizer(host: &mut Host<T>, x: &Robj) -> (res: Option<T>)
        ensures
            x@ is ExternalPtr ==> res == reclaimed_value(old(host)@, x@.addr()) && final(host)@
                == reclaimed(old(host)@, x@.addr()),
            !(x@ is ExternalPtr) ==> res is None && final(host)@ == old(host)@,
    {
        match x {
            Robj::ExternalPtr { addr, .. } => host.reclaim(*addr),
            _ => None,
        }
    }
}

/// Whether `robj` is an opaque handle whose tag is the host string `name`.
pub fn has_tag(robj: &Robj, name: &str) -> (res: bool)
    ensures
        res == tag_matches(robj@, name@),
{
    match robj {
        Robj::ExternalPtr { tag, .. } => match tag.as_str() {
            Some(s) => str_eq(s, name),
            None => false,
        },
        _ => false,
    }
}

/// Whether two strings hold the same text.
fn str_eq(a: &str, b: &str) -> (res: bool)
    ensures
        res == (a@ == b@),
{
    let x = a.to_owned();
    let y = b.to_owned();
    x == y
}

} // verus!
