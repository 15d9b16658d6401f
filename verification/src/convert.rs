//! The raw-to-owned converter: turns a native event descriptor into an
//! owned [`Event`] with no aliasing into native memory.
//!
//! The callback side copies each C string out of the native buffers before
//! the callback returns, so a descriptor here carries plain values: `None`
//! for a null text pointer, `Some(bytes)` for the bytes of a non-null one.
//! Conversion is total: null text becomes absent or empty text, invalidly
//! encoded bytes degrade to empty text, and unknown codes degrade to the
//! `Other` classifications.  It never fails and never panics.

use vstd::prelude::*;

use crate::event::effect_type_from_c;
use crate::event::path_type_from_c;
use crate::event::spec_effect_type;
use crate::event::spec_path_type;
use crate::event::Event;

verus! {

/// A native event descriptor with its raw text already copied out of the
/// callback's transient buffers: `None` stands for a null text pointer,
/// `Some(bytes)` for the bytes of a non-null C string (without the
/// terminator), not yet validated as text.
pub struct EventDesc {
    /// The native 64-bit time value, passed through unmodified.
    pub effect_time: i64,
    /// Bytes of the primary path, absent when the pointer was null.
    pub path_name: Option<Vec<u8>>,
    /// Bytes of the secondary path, absent when the pointer was null.
    pub associated_path_name: Option<Vec<u8>>,
    /// The native effect code.
    pub effect_type: i8,
    /// The native path-type code.
    pub path_type: i8,
}

/// The text that a byte sequence decodes to under UTF-8, or `None` when the
/// bytes are not valid UTF-8.
pub uninterp spec fn utf8_chars(bytes: Seq<u8>) -> Option<Seq<char>>;

/// Relies on `String::from_utf8`: it returns the decoded text exactly when
/// the bytes are valid UTF-8, and an error otherwise.
#[verifier::external_body]
fn decode_utf8(bytes: Vec<u8>) -> (r: Option<String>)
    ensures
        r is Some <==> utf8_chars(bytes@) is Some,
        r matches Some(s) ==> utf8_chars(bytes@) == Some(s@),
{
    String::from_utf8(bytes).ok()
}

/// The text a raw C string's bytes stand for: the decoded text when the
/// bytes are valid UTF-8, empty otherwise.
pub open spec fn decoded_or_empty(bytes: Seq<u8>) -> Seq<char> {
    match utf8_chars(bytes) {
        Some(s) => s,
        None => Seq::empty(),
    }
}

/// The primary path text of a descriptor: empty when the native pointer was
/// null or the bytes were invalid.
pub open spec fn spec_path_text(text: Option<Vec<u8>>) -> Seq<char> {
    match text {
        Some(b) => decoded_or_empty(b@),
        None => Seq::empty(),
    }
}

/// The secondary path of a descriptor: absent exactly when the native
/// pointer was null, so "no second path" stays distinct from "empty second
/// path".
pub open spec fn spec_assoc_text(text: Option<Vec<u8>>) -> Option<Seq<char>> {
    match text {
        Some(b) => Some(decoded_or_empty(b@)),
        None => None,
    }
}

/// How an owned event relates to the descriptor it was converted from:
/// the time and the classification codes are mapped field for field, and
/// each text field carries exactly the decoded native text.
pub open spec fn event_matches_desc(r: Event, desc: EventDesc) -> bool {
    &&& r.effect_time == desc.effect_time
    &&& r.path_name@ == spec_path_text(desc.path_name)
    &&& (r.associated_path_name is Some <==> desc.associated_path_name is Some)
    &&& (r.associated_path_name matches Some(s) ==> spec_assoc_text(desc.associated_path_name)
        == Some(s@))
    &&& r.effect_type == spec_effect_type(desc.effect_type)
    &&& r.path_type == spec_path_type(desc.path_type)
}

/// Decodes one raw text field, degrading invalidly encoded bytes to the
/// empty string rather than propagating undefined text.
fn text_or_empty(bytes: Vec<u8>) -> (r: String)
    ensures
        r@ == decoded_or_empty(bytes@),
{
    match decode_utf8(bytes) {
        Some(s) => s,
        None => String::new(),
    }
}

/// Converts a native event descriptor into an owned [`Event`].
///
/// Total over every descriptor: null text yields an empty primary path or an
/// absent secondary path, invalidly encoded text degrades to empty text, and
/// codes outside the known sets degrade to `Other`.  The result owns all of
/// its text; nothing of the input is retained past the call.
pub fn ev_from_c(ev: EventDesc) -> (r: Event)
    ensures
        event_matches_desc(r, ev),
{
    let EventDesc { effect_time, path_name, associated_path_name, effect_type, path_type } = ev;
    let path_name_text = match path_name {
        Some(b) => text_or_empty(b),
        None => String::new(),
    };
    let associated_text = match associated_path_name {
        Some(b) => Some(text_or_empty(b)),
        None => None,
    };
    Event {
        effect_time,
        path_name: path_name_text,
        associated_path_name: associated_text,
        effect_type: effect_type_from_c(effect_type),
        path_type: path_type_from_c(path_type),
    }
}

} // verus!
