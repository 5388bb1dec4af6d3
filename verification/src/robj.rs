//! Host values: the untyped objects that the host runtime hands around.

use vstd::prelude::*;

verus! {

/// The runtime kind of a host value.
#[derive(Clone, Copy, Debug, PartialEq, Eq, Structural)]
pub enum Rtype {
    Null,
    Integers,
    Strings,
    ExternalPtr,
}

/// A host value. The opaque-handle kind carries three slots: the address of
/// the embedded value in the host's store, a tag and a protected value.
#[derive(Debug)]
pub enum Robj {
    Null,
    Integer(i32),
    Str(String),
    ExternalPtr { addr: usize, tag: Box<Robj>, protected: Box<Robj> },
}

/// The mathematical value of a [`Robj`]: strings are sequences of characters.
pub ghost enum RobjView {
    Null,
    Integer(i32),
    Str(Seq<char>),
    ExternalPtr { addr: usize, tag: Box<RobjView>, protected: Box<RobjView> },
}

impl RobjView {
    /// The kind of the value.
    pub open spec fn rtype(self) -> Rtype {
        match self {
            RobjView::Null => Rtype::Null,
            RobjView::Integer(_) => Rtype::Integers,
            RobjView::Str(_) => Rtype::Strings,
            RobjView::ExternalPtr { .. } => Rtype::ExternalPtr,
        }
    }

    /// The text of a string value; `None` for every other kind.
    pub open spec fn as_str(self) -> Option<Seq<char>> {
        match self {
            RobjView::Str(s) => Some(s),
            _ => None,
        }
    }

    /// The address slot of an opaque handle.
    pub open spec fn addr(self) -> usize
        recommends
            self is ExternalPtr,
    {
        self->addr
    }

    /// The tag slot of an opaque handle.
    pub open spec fn tag(self) -> RobjView
        recommends
            self is ExternalPtr,
    {
        *self->tag
    }

    /// The protected slot of an opaque handle.
    pub open spec fn protected(self) -> RobjView
        recommends
            self is ExternalPtr,
    {
        *self->protected
    }
}

impl View for Robj {
    type V = RobjView;

    open spec fn view(&self) -> RobjView {
        self.model()
    }
}

impl Clone for Robj {
    /// A copy of the host value with the same kind and the same slots.
    fn clone(&self) -> (res: Robj)
        ensures
            res@ == self@,
    {
        self.duplicate()
    }
}

impl PartialEq for Robj {
    /// Two host values are equal when they have the same kind and, slot by
    /// slot, the same contents.
    fn eq(&self, other: &Robj) -> (res: bool) {
        self.same(other)
    }
}

impl vstd::std_specs::cmp::PartialEqSpecImpl for Robj {
    open spec fn obeys_eq_spec() -> bool {
        true
    }

    open spec fn eq_spec(&self, other: &Robj) -> bool {
        self@ == other@
    }
}

impl Robj {
    /// The value of a host value, slot by slot.
    pub open spec fn model(&self) -> RobjView
        decreases self,
    {
        match self {
            Robj::Null => RobjView::Null,
            Robj::Integer(i) => RobjView::Integer(*i),
            Robj::Str(s) => RobjView::Str(s@),
            Robj::ExternalPtr { addr, tag, protected } => RobjView::ExternalPtr {
                addr: *addr,
                tag: Box::new(tag.model()),
                protected: Box::new(protected.model()),
            },
        }
    }

    /// A copy of the host value with the same kind and the same slots.
    pub fn duplicate(&self) -> (res: Robj)
        ensures
            res@ == self@,
        decreases self,
    {
        match self {
            Robj::Null => Robj::Null,
            Robj::Integer(i) => Robj::Integer(*i),
            Robj::Str(s) => Robj::Str(s.clone()),
            Robj::ExternalPtr { addr, tag, protected } => {
                let t = tag.duplicate();
                let p = protected.duplicate();
                Robj::ExternalPtr { addr: *addr, tag: Box::new(t), protected: Box::new(p) }
            },
        }
    }

    /// Whether two host values have the same kind and the same contents.
    pub fn same(&self, other: &Robj) -> (res: bool)
        ensures
            res == (self@ == other@),
        decreases self,
    {
        match (self, other) {
            (Robj::Null, Robj::Null) => true,
            (Robj::Integer(a), Robj::Integer(b)) => *a == *b,
            (Robj::Str(a), Robj::Str(b)) => *a == *b,
            (
                Robj::ExternalPtr { addr: left_addr, tag: left_tag, protected: left_prot },
                Robj::ExternalPtr { addr: right_addr, tag: right_tag, protected: right_prot },
            ) => *left_addr == *right_addr && left_tag.same(right_tag) && left_prot.same(right_prot),
            _ => false,
        }
    }

    /// The host's nil value.
    pub fn null() -> (res: Robj)
        ensures
            res@ == RobjView::Null,
    {
        Robj::Null
    }

    /// A host string value with the text of `s`.
    pub fn from_str(s: &str) -> (res: Robj)
        ensures
            res@ == RobjView::Str(s@),
    {
        Robj::Str(s.to_owned())
    }

    /// A host integer value.
    pub fn from_i32(i: i32) -> (res: Robj)
        ensures
            res@ == RobjView::Integer(i),
    {
        Robj::Integer(i)
    }

    /// Allocates an opaque-handle value with the three slots set as given.
    pub fn make_external_ptr(addr: usize, tag: Robj, protected: Robj) -> (res: Robj)
        ensures
            res@ == (RobjView::ExternalPtr {
                addr,
                tag: Box::new(tag@),
                protected: Box::new(protected@),
            }),
    {
        Robj::ExternalPtr { addr, tag: Box::new(tag), protected: Box::new(protected) }
    }

    /// The runtime kind of the value.
    pub fn rtype(&self) -> (res: Rtype)
        ensures
            res == self@.rtype(),
    {
        match self {
            Robj::Null => Rtype::Null,
            Robj::Integer(_) => Rtype::Integers,
            Robj::Str(_) => Rtype::Strings,
            Robj::ExternalPtr { .. } => Rtype::ExternalPtr,
        }
    }

    /// The text of a string value; `None` for every other kind.
    pub fn as_str(&self) -> (res: Option<&str>)
        ensures
            match res {
                Some(s) => self@.as_str() == Some(s@),
                None => self@.as_str() is None,
            },
    {
        match self {
            Robj::Str(s) => Some(s.as_str()),
            _ => None,
        }
    }

    /// The integer of an integer value; `None` for every other kind.
    pub fn as_i32(&self) -> (res: Option<i32>)
        ensures
            res == match self@ {
                RobjView::Integer(i) => Some(i),
                _ => None,
            },
    {
        match self {
            Robj::Integer(i) => Some(*i),
            _ => None,
        }
    }
}

} // verus!
