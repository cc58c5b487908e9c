//! Stable wire-format conversions.
//!
//! Values that cross the boundary between the host and a plugin travel in
//! layout-stable wire types.  Every wire value has a single owner at each
//! point in time: a value produced here must later be reclaimed exactly
//! once, either by reading it back into native form or by releasing it
//! unread.  This module pairs each conversion to the wire with the matching
//! conversion back, so no call site pairs an allocation with a release by
//! hand.
//!
//! Conversions whose foreign counterpart can only be called from unverified
//! code (taking ownership back from a raw wire token stream, reading a wire
//! macro result) are the driver's task; the call protocol prescribes when
//! the driver must perform them.

use vstd::prelude::*;
use cairo_lang_macro_stable::StableAuxData;
use cairo_lang_macro_stable::StableTokenStream;
use cairo_lang_macro_stable::ffi::StableOption;
use cairo_lang_macro_stable::ffi::StableSlice;
use crate::token::TokenText;
use crate::token::nul_free;

verus! {

#[verifier::external_type_specification]
#[verifier::external_body]
/// A wire token stream: a flat, nul-terminated text buffer.
pub struct ExStableTokenStream(StableTokenStream);

#[verifier::external_type_specification]
#[verifier::external_body]
#[verifier::reject_recursive_types(T)]
/// A wire slice: a length-and-pointer view of a buffer of `T`.
pub struct ExStableSlice<T>(StableSlice<T>);

#[verifier::external_type_specification]
#[verifier::external_body]
#[verifier::reject_recursive_types(T)]
/// A wire option.
pub struct ExStableOption<T>(StableOption<T>);

/// The text a wire token stream carries.
pub uninterp spec fn wire_token_text(w: StableTokenStream) -> Seq<char>;

/// The bytes a wire auxiliary-data value carries, if it carries any.
pub uninterp spec fn wire_aux_bytes(a: StableAuxData) -> Option<Seq<u8>>;

/// The auxiliary-data values a wire slice carries, element by element.
pub uninterp spec fn wire_aux_list(s: StableSlice<StableAuxData>) -> Seq<Option<Seq<u8>>>;

/// The contents of a sequence of wire auxiliary-data values, element by
/// element.
pub open spec fn aux_contents(items: Seq<StableAuxData>) -> Seq<Option<Seq<u8>>> {
    Seq::new(items.len(), |i: int| wire_aux_bytes(items[i]))
}

/// A sequence of byte strings, each marked present, in order: the contents
/// a wire slice built from those byte strings carries.
pub open spec fn each_present(items: Seq<Seq<u8>>) -> Seq<Option<Seq<u8>>> {
    Seq::new(items.len(), |i: int| Some(items[i]))
}

/// Relies on `cairo_lang_macro::TokenStream::into_stable`: the wire form is
/// a freshly allocated nul-terminated copy of the same text.  The text must
/// hold no zero byte, or the foreign conversion aborts.
#[verifier::external_body]
fn token_text_into_wire(text: String) -> (w: StableTokenStream)
    requires
        nul_free(text@),
    ensures
        wire_token_text(w) == text@,
{
    cairo_lang_macro::TokenStream::new(text).into_stable()
}

/// Relies on `cairo_lang_macro::AuxData::into_stable`: the wire form carries
/// exactly the given bytes.
#[verifier::external_body]
fn aux_bytes_into_wire(bytes: Vec<u8>) -> (a: StableAuxData)
    ensures
        wire_aux_bytes(a) == Some(bytes@),
{
    cairo_lang_macro::AuxData::new(bytes).into_stable()
}

/// Relies on `StableSlice::into_owned`: reading the wire value back adopts
/// ownership of its buffer and yields exactly the bytes it carried.
#[verifier::external_body]
fn aux_wire_into_bytes(a: StableAuxData) -> (r: Option<Vec<u8>>)
    ensures
        r.deep_view() == wire_aux_bytes(a),
{
    match a {
        StableOption::None => None,
        StableOption::Some(slice) => Some(slice.into_owned()),
    }
}

/// Relies on `StableSlice::new`: the wire slice takes over the vector's
/// buffer and carries its elements unchanged, in order.
#[verifier::external_body]
fn aux_vec_into_wire_slice(items: Vec<StableAuxData>) -> (s: StableSlice<StableAuxData>)
    ensures
        wire_aux_list(s) == aux_contents(items@),
{
    StableSlice::new(items)
}

/// Relies on `StableSlice::into_owned`: taking the wire slice back adopts
/// ownership of its buffer and yields exactly the elements it carried, in
/// order.
#[verifier::external_body]
fn aux_wire_slice_into_vec(s: StableSlice<StableAuxData>) -> (items: Vec<StableAuxData>)
    ensures
        aux_contents(items@) == wire_aux_list(s),
{
    s.into_owned()
}

/// Convert a token stream to its wire form.  The stream must be wire-safe;
/// the wire value carries the same text and must later be reclaimed exactly
/// once.
pub fn token_to_wire(t: &TokenText) -> (w: StableTokenStream)
    requires
        t.wire_safe(),
    ensures
        wire_token_text(w) == t@,
{
    token_text_into_wire(t.as_str().to_owned())
}

/// Convert a token stream to its wire form after checking that it can
/// cross the wire; a stream whose text holds a zero byte is refused.
pub fn token_to_wire_checked(t: &TokenText) -> (w: Option<StableTokenStream>)
    ensures
        w is Some <==> t.wire_safe(),
        w matches Some(v) ==> wire_token_text(v) == t@,
{
    if t.is_wire_safe() {
        Some(token_to_wire(t))
    } else {
        None
    }
}

/// Convert one auxiliary-data value to its wire form.
pub fn aux_to_wire(bytes: Vec<u8>) -> (a: StableAuxData)
    ensures
        wire_aux_bytes(a) == Some(bytes@),
{
    aux_bytes_into_wire(bytes)
}

/// Read one wire auxiliary-data value back, consuming and adopting
/// ownership of it.
pub fn aux_from_wire(a: StableAuxData) -> (r: Option<Vec<u8>>)
    ensures
        r.deep_view() == wire_aux_bytes(a),
{
    aux_wire_into_bytes(a)
}

/// Gather already-converted wire auxiliary-data values into one wire
/// slice, the form in which they are handed to the auxiliary-data
/// callback.  The slice carries the elements unchanged, in order.
pub fn aux_wires_to_slice(items: Vec<StableAuxData>) -> (s: StableSlice<StableAuxData>)
    ensures
        wire_aux_list(s) == aux_contents(items@),
{
    aux_vec_into_wire_slice(items)
}

/// Convert a sequence of auxiliary-data values into one wire slice, the
/// form in which they are handed to the auxiliary-data callback.
pub fn aux_list_to_wire(items: Vec<Vec<u8>>) -> (s: StableSlice<StableAuxData>)
    ensures
        wire_aux_list(s) == each_present(items.deep_view()),
{
    let ghost all: Seq<Seq<u8>> = items.deep_view();
    let mut items = items;
    let mut wires: Vec<StableAuxData> = Vec::new();
    let ghost mut done: int = 0;
    while items.len() > 0
        invariant
            0 <= done <= all.len(),
            items@.len() == all.len() - done,
            forall|j: int| 0 <= j < items@.len() ==> items@[j].deep_view() == all[done + j],
            aux_contents(wires@) =~= each_present(all.take(done)),
        decreases items@.len(),
    {
        let first = items.remove(0);
        proof {
            assert(first.deep_view() =~= first@);
            assert(first@ == all[done]);
        }
        let wire = aux_to_wire(first);
        let ghost prev_wires = wires@;
        wires.push(wire);
        proof {
            let ghost next: int = done + 1;
            assert(wires@ == prev_wires.push(wire));
            assert(all.take(done).len() == done);
            assert(aux_contents(prev_wires).len() == prev_wires.len());
            assert(each_present(all.take(done)).len() == all.take(done).len());
            assert(prev_wires.len() == done);
            assert forall|k: int| 0 <= k < aux_contents(wires@).len() implies aux_contents(
                wires@,
            )[k] == each_present(all.take(next))[k] by {
                if k < prev_wires.len() {
                    assert(wires@[k] == prev_wires[k]);
                    assert(aux_contents(prev_wires)[k] == each_present(all.take(done))[k]);
                } else {
                    assert(wires@[k] == wire);
                }
            }
            assert(aux_contents(wires@) =~= each_present(all.take(next)));
            done = next;
        }
    }
    proof {
        assert(all.take(done) =~= all);
        assert(aux_contents(wires@) == each_present(all));
    }
    aux_vec_into_wire_slice(wires)
}

/// Read a wire slice of auxiliary data back, consuming and adopting
/// ownership of it: first the slice's own buffer, then each element.
pub fn aux_list_from_wire(s: StableSlice<StableAuxData>) -> (r: Vec<Option<Vec<u8>>>)
    ensures
        r.deep_view() == wire_aux_list(s),
{
    let ghost contents: Seq<Option<Seq<u8>>> = wire_aux_list(s);
    let mut items = aux_wire_slice_into_vec(s);
    proof {
        assert(aux_contents(items@) == contents);
    }
    let mut out: Vec<Option<Vec<u8>>> = Vec::new();
    let ghost mut done: int = 0;
    while items.len() > 0
        invariant
            0 <= done <= contents.len(),
            items@.len() == contents.len() - done,
            forall|j: int| 0 <= j < items@.len() ==> wire_aux_bytes(items@[j]) == contents[done
                + j],
            out.deep_view() =~= contents.take(done),
        decreases items@.len(),
    {
        let ghost prev_items = items@;
        let first = items.remove(0);
        proof {
            assert(first == prev_items[0]);
            assert(wire_aux_bytes(first) == contents[done]);
        }
        let bytes = aux_from_wire(first);
        let ghost prev_out = out@;
        out.push(bytes);
        proof {
            let ghost next: int = done + 1;
            assert(bytes.deep_view() == contents[done]);
            assert(out@ == prev_out.push(bytes));
            assert(contents.take(done).len() == done);
            assert(prev_out.len() == done);
            assert forall|k: int| 0 <= k < out.deep_view().len() implies out.deep_view()[k]
                == contents.take(next)[k] by {
                if k < prev_out.len() {
                    assert(out@[k] == prev_out[k]);
                    assert(prev_out[k].deep_view() == contents.take(done)[k]);
                } else {
                    assert(out@[k] == bytes);
                }
            }
            assert(out.deep_view() =~= contents.take(next));
            done = next;
        }
    }
    proof {
        assert(contents.take(done) =~= contents);
    }
    out
}

/// Release a wire slice of auxiliary data without reading it: the one
/// reclamation of a slice returned by the auxiliary-data callback.
pub fn aux_list_release(s: StableSlice<StableAuxData>)
{
    let _ = aux_wire_slice_into_vec(s);
}

} // verus!
