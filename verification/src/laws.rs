//! What holds of the handle, the conversions and the store together.

use vstd::prelude::*;
use crate::error::ErrorView;
use crate::handle::{handle_for, tag_matches, try_from_spec, TypeTag};
use crate::host::{live_in, reclaimed, reclaimed_value, written};
use crate::robj::RobjView;

verus! {

/// A handle made for `T` over a value `v`, taken as a plain host value, is
/// accepted again as a handle for `T`, unchanged, and its cell holds `v`.
pub proof fn law_round_trip<T: TypeTag>(cells: Seq<Option<T>>, addr: usize, v: T)
    requires
        addr == cells.len(),
    ensures
        try_from_spec(handle_for(addr, T::tag_text()), T::tag_text()) == Ok::<RobjView, ErrorView>(
            handle_for(addr, T::tag_text()),
        ),
        live_in(cells.push(Some(v)), handle_for(addr, T::tag_text()).addr()),
        cells.push(Some(v))[handle_for(addr, T::tag_text()).addr() as int] == Some(v),
{
}

/// A handle made under one type name is refused under any other name, and
/// with the error that carries the handle and the expected name: never with
/// the error for a value that is no handle.
pub proof fn law_other_tag_refused(addr: usize, made: Seq<char>, wanted: Seq<char>)
    requires
        made != wanted,
    ensures
        try_from_spec(handle_for(addr, made), wanted) == Err::<RobjView, ErrorView>(
            ErrorView::ExpectedExternalPtrType(handle_for(addr, made), wanted),
        ),
{
}

/// A host value that is no opaque handle is refused as such under every
/// type name.
pub proof fn law_non_handle_refused(robj: RobjView, wanted: Seq<char>)
    requires
        !(robj is ExternalPtr),
    ensures
        try_from_spec(robj, wanted) == Err::<RobjView, ErrorView>(
            ErrorView::ExpectedExternalPtr(robj),
        ),
{
}

/// Conversion succeeds exactly on the opaque handles whose tag is the
/// expected name, and then hands the value back unchanged.
pub proof fn law_accepts_by_tag_alone(robj: RobjView, wanted: Seq<char>)
    ensures
        try_from_spec(robj, wanted) is Ok <==> tag_matches(robj, wanted),
        try_from_spec(robj, wanted) is Ok ==> try_from_spec(robj, wanted) == Ok::<
            RobjView,
            ErrorView,
        >(robj),
{
}

/// The embedded value is handed out for dropping exactly once: the first
/// run of the finalizer on a live cell hands out its value and empties the
/// cell, every later run hands out nothing and changes nothing. No other
/// cell is touched and no address becomes free for reuse.
pub proof fn law_finalized_once<T>(cells: Seq<Option<T>>, addr: usize)
    ensures
        live_in(cells, addr) ==> reclaimed_value(cells, addr) == cells[addr as int],
        !live_in(reclaimed(cells, addr), addr),
        reclaimed_value(reclaimed(cells, addr), addr) is None,
        reclaimed(reclaimed(cells, addr), addr) == reclaimed(cells, addr),
        reclaimed(cells, addr).len() == cells.len(),
        forall|other: usize|
            other != addr ==> (live_in(reclaimed(cells, addr), other) <==> live_in(cells, other)),
        forall|other: int|
            0 <= other < cells.len() && other != addr ==> reclaimed(cells, addr)[other]
                == cells[other],
{
}

/// A live cell stays live, with its value, until its own finalizer runs:
/// through every construction, through writes to other cells and through the
/// finalizing of other cells.
pub proof fn law_live_until_finalized<T>(cells: Seq<Option<T>>, addr: usize, other: usize, v: T)
    requires
        live_in(cells, addr),
        other != addr,
    ensures
        live_in(cells.push(Some(v)), addr),
        cells.push(Some(v))[addr as int] == cells[addr as int],
        live_in(cells, other) ==> live_in(written(cells, other, v), addr) && written(
            cells,
            other,
            v,
        )[addr as int] == cells[addr as int],
        live_in(reclaimed(cells, other), addr),
        reclaimed(cells, other)[addr as int] == cells[addr as int],
{
}

/// A value written through the handle's address is the value that a later
/// read at that address gives; the cell stays live and no other cell changes.
pub proof fn law_mutation_visible<T>(cells: Seq<Option<T>>, addr: usize, v: T)
    requires
        live_in(cells, addr),
    ensures
        live_in(written(cells, addr, v), addr),
        written(cells, addr, v)[addr as int] == Some(v),
        written(cells, addr, v).len() == cells.len(),
        forall|other: int|
            0 <= other < cells.len() && other != addr ==> written(cells, addr, v)[other]
                == cells[other],
{
}

/// The tag of a handle made for `T` is a host string with the text of the
/// type-identity string of `T`; its protected slot is nil.
pub proof fn law_tag_is_type_name<T: TypeTag>(addr: usize)
    ensures
        handle_for(addr, T::tag_text()).tag() == RobjView::Str(T::tag_text()),
        handle_for(addr, T::tag_text()).tag().as_str() == Some(T::tag_text()),
        handle_for(addr, T::tag_text()).protected() == RobjView::Null,
{
}

} // verus!
