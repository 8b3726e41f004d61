//! Key events, locales and isolate messages in the form the engine reads.
use vstd::prelude::*;

use crate::bridge::SlotToken;
use crate::c_string::nul_terminated;
use crate::enums::{DartObjectType, KeyEventDeviceType, KeyPhase};
use crate::native_enum::NativeEnum;

verus! {

/// The bytes of a string as the engine reads them, if it holds no NUL.
pub open spec fn c_text(text: Seq<u8>) -> Option<Seq<u8>> {
    if text.contains(0u8) {
        None
    } else {
        Some(text.push(0u8))
    }
}

pub open spec fn c_text_of(v: Option<Vec<u8>>) -> Option<Seq<u8>> {
    match v {
        Some(b) => Some(b@),
        None => None,
    }
}

fn optional_c_text(text: &Option<Vec<u8>>) -> (r: Result<Option<Vec<u8>>, ()>)
    ensures
        match text {
            Some(t) => match c_text(t@) {
                Some(c) => r matches Ok(Some(v)) && v@ == c,
                None => r is Err,
            },
            None => r matches Ok(None),
        },
{
    match text {
        Some(t) => match nul_terminated(t.as_slice()) {
            Some(v) => Ok(Some(v)),
            None => Err(()),
        },
        None => Ok(None),
    }
}

/// A key event.
pub struct KeyEvent {
    /// When the event happened, in microseconds of the engine's clock.
    pub timestamp_micros: u64,
    pub phase: KeyPhase,
    /// The USB HID code of the physical key; 0 only for an empty event.
    pub physical: u64,
    /// The logical key; 0 only for an empty event.
    pub logical: u64,
    /// The text that the key produces, if any, without a NUL.
    pub character: Option<Vec<u8>>,
    /// Whether the event was made up to keep the event stream regular.
    pub synthesized: bool,
    pub device_type: KeyEventDeviceType,
}

/// A key event as the engine reads it.
pub struct RawKeyEvent {
    pub timestamp_micros: u64,
    pub event_type: u32,
    pub physical: u64,
    pub logical: u64,
    pub character: Option<Vec<u8>>,
    pub synthesized: bool,
    pub device_type: u32,
}

/// Writes a key event for the engine; `None` if its character holds a NUL.
pub fn encode_key_event(event: &KeyEvent) -> (r: Option<RawKeyEvent>)
    ensures
        r is Some <==> (event.character matches Some(c) ==> !c@.contains(0u8)),
        r matches Some(raw) ==> {
            &&& raw.timestamp_micros == event.timestamp_micros
            &&& raw.event_type == event.phase.code()
            &&& raw.physical == event.physical
            &&& raw.logical == event.logical
            &&& c_text_of(raw.character) == match event.character {
                Some(c) => c_text(c@),
                None => None,
            }
            &&& raw.synthesized == event.synthesized
            &&& raw.device_type == event.device_type.code()
        },
{
    match optional_c_text(&event.character) {
        Ok(character) => Some(
            RawKeyEvent {
                timestamp_micros: event.timestamp_micros,
                event_type: event.phase.to_raw(),
                physical: event.physical,
                logical: event.logical,
                character,
                synthesized: event.synthesized,
                device_type: event.device_type.to_raw(),
            },
        ),
        Err(()) => None,
    }
}

/// A locale, by its codes (for example "en" and "US"), without NULs.
pub struct Locale {
    pub language_code: Vec<u8>,
    pub country_code: Option<Vec<u8>>,
    pub script_code: Option<Vec<u8>>,
    pub variant_code: Option<Vec<u8>>,
}

/// A locale as the engine reads it: each code ended by a NUL.
pub struct RawLocale {
    pub language_code: Vec<u8>,
    pub country_code: Option<Vec<u8>>,
    pub script_code: Option<Vec<u8>>,
    pub variant_code: Option<Vec<u8>>,
}

pub open spec fn optional_ok(v: Option<Vec<u8>>) -> bool {
    v matches Some(c) ==> !c@.contains(0u8)
}

pub open spec fn optional_encoded(v: Option<Vec<u8>>) -> Option<Seq<u8>> {
    match v {
        Some(c) => c_text(c@),
        None => None,
    }
}

impl Locale {
    /// No code holds a NUL.
    pub open spec fn encodable(&self) -> bool {
        &&& !self.language_code@.contains(0u8)
        &&& optional_ok(self.country_code)
        &&& optional_ok(self.script_code)
        &&& optional_ok(self.variant_code)
    }

    /// Whether `raw` is this locale as the engine reads it.
    pub open spec fn encodes_to(&self, raw: &RawLocale) -> bool {
        &&& c_text(self.language_code@) == Some(raw.language_code@)
        &&& c_text_of(raw.country_code) == optional_encoded(self.country_code)
        &&& c_text_of(raw.script_code) == optional_encoded(self.script_code)
        &&& c_text_of(raw.variant_code) == optional_encoded(self.variant_code)
    }

    pub fn encode(&self) -> (r: Option<RawLocale>)
        ensures
            r is Some <==> self.encodable(),
            r matches Some(raw) ==> self.encodes_to(&raw),
    {
        let language_code = match nul_terminated(self.language_code.as_slice()) {
            Some(v) => v,
            None => return None,
        };
        let country_code = match optional_c_text(&self.country_code) {
            Ok(v) => v,
            Err(()) => return None,
        };
        let script_code = match optional_c_text(&self.script_code) {
            Ok(v) => v,
            Err(()) => return None,
        };
        let variant_code = match optional_c_text(&self.variant_code) {
            Ok(v) => v,
            Err(()) => return None,
        };
        Some(RawLocale { language_code, country_code, script_code, variant_code })
    }
}

/// Writes the locales for the engine, in the order given: the preferred
/// locale first, then the fallbacks. `None` if a code holds a NUL.
pub fn raw_locales(locales: &[Locale]) -> (r: Option<Vec<RawLocale>>)
    ensures
        r is Some <==> forall|i: int| 0 <= i < locales@.len() ==> #[trigger] locales@[i].encodable(),
        r matches Some(raws) ==> {
            &&& raws@.len() == locales@.len()
            &&& forall|i: int| 0 <= i < locales@.len() ==> locales@[i].encodes_to(&#[trigger] raws@[i])
        },
{
    let mut raws: Vec<RawLocale> = Vec::new();
    let mut i: usize = 0;
    while i < locales.len()
        invariant
            i <= locales@.len(),
            raws@.len() == i,
            forall|j: int| 0 <= j < i ==> #[trigger] locales@[j].encodable(),
            forall|j: int| 0 <= j < i ==> locales@[j].encodes_to(&#[trigger] raws@[j]),
        decreases locales@.len() - i,
    {
        match locales[i].encode() {
            Some(raw) => raws.push(raw),
            None => return None,
        }
        i = i + 1;
    }
    Some(raws)
}

/// An object posted to an isolate's port.
pub enum DartObject {
    Null,
    Bool(bool),
    Int32(i32),
    Int64(i64),
    /// A double, by the bits of its IEEE 754 representation.
    Double(u64),
    /// A string without NULs.
    String(Vec<u8>),
    /// A buffer that the engine copies.
    Buffer(Vec<u8>),
    /// A buffer that is shared with the isolate rather than copied. The
    /// memory must stay alive, and unraced, until the engine answers the
    /// exchange under `collect`, whose continuation releases it.
    SharedBuffer { data: usize, len: usize, collect: SlotToken },
}

/// The value of an object as the engine reads it.
pub enum RawDartValue {
    Null,
    Bool(bool),
    Int32(i32),
    Int64(i64),
    Double(u64),
    String(Vec<u8>),
    /// Copied bytes: the engine calls back for none.
    Buffer(Vec<u8>),
    /// Shared memory, with the exchange that the engine answers when it is
    /// done with it.
    SharedBuffer { data: usize, len: usize, collect: SlotToken },
}

/// An object as the engine reads it: a tag and a union.
pub struct RawDartObject {
    pub object_type: u32,
    pub value: RawDartValue,
}

impl DartObject {
    pub open spec fn tag(&self) -> DartObjectType {
        match self {
            DartObject::Null => DartObjectType::Null,
            DartObject::Bool(_) => DartObjectType::Bool,
            DartObject::Int32(_) => DartObjectType::Int32,
            DartObject::Int64(_) => DartObjectType::Int64,
            DartObject::Double(_) => DartObjectType::Double,
            DartObject::String(_) => DartObjectType::String,
            DartObject::Buffer(_) => DartObjectType::Buffer,
            DartObject::SharedBuffer { .. } => DartObjectType::Buffer,
        }
    }

    /// Whether `raw` is this object as the engine reads it.
    pub open spec fn encodes_to(&self, raw: &RawDartObject) -> bool {
        &&& raw.object_type == self.tag().code()
        &&& match (self, &raw.value) {
            (DartObject::Null, RawDartValue::Null) => true,
            (DartObject::Bool(a), RawDartValue::Bool(b)) => a == b,
            (DartObject::Int32(a), RawDartValue::Int32(b)) => a == b,
            (DartObject::Int64(a), RawDartValue::Int64(b)) => a == b,
            (DartObject::Double(a), RawDartValue::Double(b)) => a == b,
            (DartObject::String(a), RawDartValue::String(b)) => c_text(a@) == Some(b@),
            (DartObject::Buffer(a), RawDartValue::Buffer(b)) => a@ == b@,
            (
                DartObject::SharedBuffer { data: d1, len: l1, collect: c1 },
                RawDartValue::SharedBuffer { data: d2, len: l2, collect: c2 },
            ) => d1 == d2 && l1 == l2 && c1 == c2,
            _ => false,
        }
    }

    /// Writes the object for the engine; `None` for a string with a NUL.
    pub fn encode(self) -> (r: Option<RawDartObject>)
        ensures
            r is Some <==> !(self matches DartObject::String(s) && s@.contains(0u8)),
            r matches Some(raw) ==> self.encodes_to(&raw),
    {
        match self {
            DartObject::Null => Some(
                RawDartObject { object_type: DartObjectType::Null.to_raw(), value: RawDartValue::Null },
            ),
            DartObject::Bool(b) => Some(
                RawDartObject { object_type: DartObjectType::Bool.to_raw(), value: RawDartValue::Bool(b) },
            ),
            DartObject::Int32(v) => Some(
                RawDartObject {
                    object_type: DartObjectType::Int32.to_raw(),
                    value: RawDartValue::Int32(v),
                },
            ),
            DartObject::Int64(v) => Some(
                RawDartObject {
                    object_type: DartObjectType::Int64.to_raw(),
                    value: RawDartValue::Int64(v),
                },
            ),
            DartObject::Double(bits) => Some(
                RawDartObject {
                    object_type: DartObjectType::Double.to_raw(),
                    value: RawDartValue::Double(bits),
                },
            ),
            DartObject::String(s) => match nul_terminated(s.as_slice()) {
                Some(text) => Some(
                    RawDartObject {
                        object_type: DartObjectType::String.to_raw(),
                        value: RawDartValue::String(text),
                    },
                ),
                None => None,
            },
            DartObject::Buffer(bytes) => Some(
                RawDartObject {
                    object_type: DartObjectType::Buffer.to_raw(),
                    value: RawDartValue::Buffer(bytes),
                },
            ),
            DartObject::SharedBuffer { data, len, collect } => Some(
                RawDartObject {
                    object_type: DartObjectType::Buffer.to_raw(),
                    value: RawDartValue::SharedBuffer { data, len, collect },
                },
            ),
        }
    }
}

} // verus!
