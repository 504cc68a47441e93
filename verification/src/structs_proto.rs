//! The two messages of the legacy handshake: what each side proposes, and what it exchanges.
//!
//! Every field of a message is optional. A field that is not set reads as its default: no
//! bytes, or the empty string. On the wire the messages are protobuf messages; fields that
//! a message does not name are kept and written again.

use vstd::prelude::*;
use vstd::pervasive::unreached;
use vstd::slice::slice_to_vec;
use vstd::utf8::{
    decode_utf8,
    encode_utf8,
    encode_utf8_decode_utf8,
    encode_utf8_valid_utf8,
    valid_utf8,
};
use crate::wire::{
    bytes_field,
    bytes_field_size,
    delimited,
    delimited_bytes,
    lemma_delimited_round_trip,
    lemma_tag_round_trip,
    lemma_unknown_round_trip,
    read_delimited,
    read_tag,
    read_unknown_or_skip_group,
    tag,
    tag_bytes,
    unknown_field,
    unknown_field_bytes,
    unknown_field_size,
    write_bytes_field,
    writable,
    write_unknown,
    UnknownField,
    UnknownFieldModel,
    UnknownValue,
    WireError,
    WireType,
};

verus! {

/// The bytes of an optional field.
pub open spec fn bytes_model(field: Option<Vec<u8>>) -> Option<Seq<u8>> {
    match field {
        Some(v) => Some(v@),
        None => None,
    }
}

/// The text of an optional field.
pub open spec fn text_model(field: Option<String>) -> Option<Seq<char>> {
    match field {
        Some(v) => Some(v@),
        None => None,
    }
}

/// What a bytes field reads as: its bytes, or none where it is not set.
pub open spec fn bytes_or_default(field: Option<Seq<u8>>) -> Seq<u8> {
    match field {
        Some(v) => v,
        None => Seq::empty(),
    }
}

/// What a text field reads as: its text, or the empty string where it is not set.
pub open spec fn text_or_default(field: Option<Seq<char>>) -> Seq<char> {
    match field {
        Some(v) => v,
        None => Seq::empty(),
    }
}

/// The fields of a list, as mathematical values.
pub open spec fn unknown_models(fields: Seq<UnknownField>) -> Seq<UnknownFieldModel> {
    fields.map_values(|f: UnknownField| f@)
}

/// The bytes of a list of fields that a message does not name, in their order.
pub open spec fn unknown_fields_bytes(fields: Seq<UnknownFieldModel>) -> Seq<u8>
    decreases fields.len(),
{
    if fields.len() == 0 {
        Seq::empty()
    } else {
        unknown_fields_bytes(fields.drop_last()) + unknown_field_bytes(fields.last())
    }
}

/// The bytes of a bytes field on the wire: none where the field is not set.
pub open spec fn optional_bytes(number: u32, field: Option<Seq<u8>>) -> Seq<u8> {
    match field {
        Some(v) => bytes_field(number, v),
        None => Seq::empty(),
    }
}

/// The bytes of a text field on the wire: none where the field is not set.
pub open spec fn optional_text(number: u32, field: Option<Seq<char>>) -> Seq<u8> {
    match field {
        Some(v) => bytes_field(number, encode_utf8(v)),
        None => Seq::empty(),
    }
}

/// The bytes of a text field: the text in UTF-8.
pub open spec fn text_bytes(field: Option<Seq<char>>) -> Option<Seq<u8>> {
    match field {
        Some(v) => Some(encode_utf8(v)),
        None => None,
    }
}

/// Whether a bytes field is short enough for its length to be written.
pub open spec fn bytes_writable(field: Option<Seq<u8>>) -> bool {
    match field {
        Some(v) => v.len() <= u32::MAX,
        None => true,
    }
}

/// Whether a text field is short enough for its length to be written.
pub open spec fn text_writable(field: Option<Seq<char>>) -> bool {
    match field {
        Some(v) => encode_utf8(v).len() <= u32::MAX,
        None => true,
    }
}

/// Calls `String::from_utf8`.
///
/// Trusted: the bytes become a text where they are UTF-8, the text that they spell, and
/// are refused where they are not.
#[verifier::external_body]
fn text_from_utf8(bytes: Vec<u8>) -> (text: Option<String>)
    ensures
        text.is_some() == valid_utf8(bytes@),
        text.is_some() ==> text.unwrap()@ == decode_utf8(bytes@),
{
    String::from_utf8(bytes).ok()
}

/// A copy of an optional bytes field.
fn copy_bytes(field: &Option<Vec<u8>>) -> (copy: Option<Vec<u8>>)
    ensures
        bytes_model(copy) == bytes_model(*field),
{
    match field {
        Some(v) => Some(slice_to_vec(v.as_slice())),
        None => None,
    }
}

/// A copy of an optional text field.
fn copy_text(field: &Option<String>) -> (copy: Option<String>)
    ensures
        text_model(copy) == text_model(*field),
{
    match field {
        Some(v) => Some(v.clone()),
        None => None,
    }
}

/// A copy of a list of fields.
fn copy_unknown(fields: &Vec<UnknownField>) -> (copy: Vec<UnknownField>)
    ensures
        unknown_models(copy@) == unknown_models(fields@),
{
    let mut copy: Vec<UnknownField> = Vec::new();
    let mut i: usize = 0;
    while i < fields.len()
        invariant
            i <= fields@.len(),
            copy@.len() == i,
            forall|j: int| 0 <= j < i ==> copy@[j]@ == fields@[j]@,
        decreases fields@.len() - i,
    {
        let value = match &fields[i].value {
            UnknownValue::Fixed32(v) => UnknownValue::Fixed32(*v),
            UnknownValue::Fixed64(v) => UnknownValue::Fixed64(*v),
            UnknownValue::Varint(v) => UnknownValue::Varint(*v),
            UnknownValue::LengthDelimited(v) => UnknownValue::LengthDelimited(
                slice_to_vec(v.as_slice()),
            ),
        };
        copy.push(UnknownField { number: fields[i].number, value });
        i += 1;
    }
    assert(unknown_models(copy@) =~= unknown_models(fields@));
    copy
}

/// The number of bytes that a bytes field takes on the wire.
fn optional_bytes_size(number: u32, field: &Option<Vec<u8>>) -> (size: u128)
    ensures
        size == optional_bytes(number, bytes_model(*field)).len(),
        size <= usize::MAX + 20,
{
    match field {
        Some(v) => bytes_field_size(number, v.len()),
        None => 0,
    }
}

/// The number of bytes that a text field takes on the wire.
fn optional_text_size(number: u32, field: &Option<String>) -> (size: u128)
    ensures
        size == optional_text(number, text_model(*field)).len(),
        size <= usize::MAX + 20,
{
    match field {
        Some(v) => bytes_field_size(number, v.as_str().as_bytes().len()),
        None => 0,
    }
}

/// The number of bytes that the fields of a list take, or a number beyond 32 bits where
/// they take more than fit into 32 bits.
fn unknown_fields_size(fields: &Vec<UnknownField>) -> (size: u128)
    ensures
        size <= u32::MAX ==> size == unknown_fields_bytes(unknown_models(fields@)).len(),
        size > u32::MAX ==> unknown_fields_bytes(unknown_models(fields@)).len() > u32::MAX,
        size <= u32::MAX + usize::MAX + 20,
{
    let ghost models = unknown_models(fields@);
    let mut size: u128 = 0;
    let mut i: usize = 0;
    assert(models.take(0) =~= Seq::<UnknownFieldModel>::empty());
    while i < fields.len()
        invariant
            i <= fields@.len(),
            models == unknown_models(fields@),
            size == unknown_fields_bytes(models.take(i as int)).len(),
            size <= u32::MAX,
        decreases fields@.len() - i,
    {
        let next = unknown_field_size(&fields[i]);
        proof {
            let taken = models.take(i as int + 1);
            assert(taken.drop_last() =~= models.take(i as int));
            assert(taken.last() == fields@[i as int]@);
            lemma_unknown_fields_grow(models, i as int + 1);
        }
        size = size + next;
        if size > 0xffff_ffff {
            return size;
        }
        i += 1;
    }
    assert(models.take(fields@.len() as int) =~= models);
    size
}

/// A run of fields takes no fewer bytes than any of its beginnings.
proof fn lemma_unknown_fields_grow(fields: Seq<UnknownFieldModel>, n: int)
    requires
        0 <= n <= fields.len(),
    ensures
        unknown_fields_bytes(fields.take(n)).len() <= unknown_fields_bytes(fields).len(),
    decreases fields.len() - n,
{
    if n == fields.len() {
        assert(fields.take(n) =~= fields);
    } else {
        lemma_unknown_fields_grow(fields, n + 1);
        assert(fields.take(n + 1).drop_last() =~= fields.take(n));
    }
}

/// Appends the fields of a list to `out`, in their order.
fn write_unknown_fields(out: &mut Vec<u8>, fields: &Vec<UnknownField>)
    ensures
        final(out)@ == old(out)@ + unknown_fields_bytes(unknown_models(fields@)),
{
    let ghost before = out@;
    let ghost models = unknown_models(fields@);
    let mut i: usize = 0;
    assert(models.take(0) =~= Seq::<UnknownFieldModel>::empty());
    while i < fields.len()
        invariant
            i <= fields@.len(),
            models == unknown_models(fields@),
            out@ == before + unknown_fields_bytes(models.take(i as int)),
        decreases fields@.len() - i,
    {
        write_unknown(out, &fields[i]);
        proof {
            let next = models.take(i as int + 1);
            assert(next.drop_last() =~= models.take(i as int));
            assert(next.last() == fields@[i as int]@);
            assert(out@ =~= before + unknown_fields_bytes(next));
        }
        i += 1;
    }
    assert(models.take(fields@.len() as int) =~= models);
}

/// A `Propose` message as mathematical values.
pub struct ProposeModel {
    pub rand: Option<Seq<u8>>,
    pub pubkey: Option<Seq<u8>>,
    pub exchanges: Option<Seq<char>>,
    pub ciphers: Option<Seq<char>>,
    pub hashes: Option<Seq<char>>,
    /// The fields that the message does not name, in the order in which they were read.
    pub unknown_fields: Seq<UnknownFieldModel>,
}

/// What one side of the handshake proposes: a nonce, its public key, and the key
/// exchanges, ciphers and hashes that it supports.
#[derive(Clone, Debug, PartialEq)]
pub struct Propose {
    rand: Option<Vec<u8>>,
    pubkey: Option<Vec<u8>>,
    exchanges: Option<String>,
    ciphers: Option<String>,
    hashes: Option<String>,
    unknown_fields: Vec<UnknownField>,
}

impl View for Propose {
    type V = ProposeModel;

    closed spec fn view(&self) -> ProposeModel {
        ProposeModel {
            rand: bytes_model(self.rand),
            pubkey: bytes_model(self.pubkey),
            exchanges: text_model(self.exchanges),
            ciphers: text_model(self.ciphers),
            hashes: text_model(self.hashes),
            unknown_fields: unknown_models(self.unknown_fields@),
        }
    }
}

impl ProposeModel {
    /// The message with no field set.
    pub open spec fn empty() -> ProposeModel {
        ProposeModel {
            rand: None,
            pubkey: None,
            exchanges: None,
            ciphers: None,
            hashes: None,
            unknown_fields: Seq::empty(),
        }
    }

    /// Whether the field with this number holds text.
    pub open spec fn is_text(number: u32) -> bool {
        number == 3 || number == 4 || number == 5
    }

    /// The message with the field of this number set to these bytes, or to the text
    /// that they spell.
    pub open spec fn with_bytes(self, number: u32, bytes: Seq<u8>) -> ProposeModel {
        if number == 1 {
            ProposeModel { rand: Some(bytes), ..self }
        } else if number == 2 {
            ProposeModel { pubkey: Some(bytes), ..self }
        } else if number == 3 {
            ProposeModel { exchanges: Some(decode_utf8(bytes)), ..self }
        } else if number == 4 {
            ProposeModel { ciphers: Some(decode_utf8(bytes)), ..self }
        } else if number == 5 {
            ProposeModel { hashes: Some(decode_utf8(bytes)), ..self }
        } else {
            self
        }
    }

    /// Whether the message is written in a form that reads back: every field that is set
    /// is short enough for its length to be written, and every field that the message
    /// does not name can be written and has a number that the message does not use.
    pub open spec fn writable(self) -> bool {
        &&& bytes_writable(self.rand)
        &&& bytes_writable(self.pubkey)
        &&& text_writable(self.exchanges)
        &&& text_writable(self.ciphers)
        &&& text_writable(self.hashes)
        &&& forall|i: int|
            0 <= i < self.unknown_fields.len() ==> writable(#[trigger] self.unknown_fields[i])
                && self.unknown_fields[i].number > 5
    }

    /// What the message becomes when the field with this number and form of value is
    /// read from the front of `input`, behind its tag, and the number of bytes that the
    /// field takes. A field of the message replaces what the message held; any other
    /// field is kept behind those kept before.
    pub open spec fn with_field(self, number: u32, wire_type: WireType, input: Seq<u8>) -> Result<
        (ProposeModel, int),
        WireError,
    > {
        let message = self;
        if 1 <= number <= 5 {
            if wire_type != WireType::LengthDelimited {
                Err(WireError::UnexpectedWireType(wire_type))
            } else {
                match delimited(input) {
                    Err(e) => Err(e),
                    Ok((bytes, used)) => if ProposeModel::is_text(number) && !valid_utf8(bytes) {
                        Err(WireError::Utf8Error)
                    } else {
                        Ok((self.with_bytes(number, bytes), used))
                    },
                }
            }
        } else {
            match unknown_field(number, wire_type, input) {
                Err(e) => Err(e),
                Ok((kept, used)) => Ok(
                    (
                        match kept {
                            Some(field) => ProposeModel {
                                unknown_fields: message.unknown_fields.push(field),
                                ..message
                            },
                            None => message,
                        },
                        used,
                    ),
                ),
            }
        }
    }

    /// What the message becomes when all of `input` is read into it, field by field.
    pub open spec fn merged(self, input: Seq<u8>) -> Result<ProposeModel, WireError>
        decreases input.len(),
    {
        if input.len() == 0 {
            Ok(self)
        } else {
            match tag(input) {
                Err(e) => Err(e),
                Ok((number, wire_type, used)) => match self.with_field(
                    number,
                    wire_type,
                    input.skip(used),
                ) {
                    Err(e) => Err(e),
                    Ok((message, length)) => if used <= 0 || length < 0 || used + length
                        > input.len() {
                        Err(WireError::UnexpectedEof)
                    } else {
                        message.merged(input.skip(used + length))
                    },
                },
            }
        }
    }

    /// What the message holds when `input` is read into it as far as it reads: the fields
    /// in front of the first one that does not read are taken in; that field and what
    /// follows it are not.
    pub open spec fn merged_as_far(self, input: Seq<u8>) -> ProposeModel
        decreases input.len(),
    {
        if input.len() == 0 {
            self
        } else {
            match tag(input) {
                Err(_) => self,
                Ok((number, wire_type, used)) => match self.with_field(
                    number,
                    wire_type,
                    input.skip(used),
                ) {
                    Err(_) => self,
                    Ok((message, length)) => if used <= 0 || length < 0 || used + length
                        > input.len() {
                        self
                    } else {
                        message.merged_as_far(input.skip(used + length))
                    },
                },
            }
        }
    }

    /// The message on the wire: the fields that are set in the order of their numbers,
    /// followed by the fields that the message does not name.
    pub open spec fn encoding(self) -> Seq<u8> {
        optional_bytes(1, self.rand)
            + optional_bytes(2, self.pubkey)
            + optional_text(3, self.exchanges)
            + optional_text(4, self.ciphers)
            + optional_text(5, self.hashes)
            + unknown_fields_bytes(self.unknown_fields)
    }

    /// The bytes that the field with this number holds on the wire, where it is set.
    pub open spec fn wire_field(self, number: int) -> Option<Seq<u8>> {
        if number == 1 {
            self.rand
        } else if number == 2 {
            self.pubkey
        } else if number == 3 {
            text_bytes(self.exchanges)
        } else if number == 4 {
            text_bytes(self.ciphers)
        } else if number == 5 {
            text_bytes(self.hashes)
        } else {
            None
        }
    }

    /// The message on the wire without its first `count` fields.
    pub open spec fn encoding_from(self, count: int) -> Seq<u8>
        decreases 5 - count,
    {
        if count >= 5 {
            unknown_fields_bytes(self.unknown_fields)
        } else {
            optional_bytes((count + 1) as u32, self.wire_field(count + 1)) + self.encoding_from(
                count + 1,
            )
        }
    }

    /// The message with its first `count` fields only.
    pub open spec fn first_fields(self, count: int) -> ProposeModel {
        ProposeModel {
            rand: if count >= 1 {
                self.rand
            } else {
                None
            },
            pubkey: if count >= 2 {
                self.pubkey
            } else {
                None
            },
            exchanges: if count >= 3 {
                self.exchanges
            } else {
                None
            },
            ciphers: if count >= 4 {
                self.ciphers
            } else {
                None
            },
            hashes: if count >= 5 {
                self.hashes
            } else {
                None
            },
            unknown_fields: Seq::empty(),
        }
    }
}

impl Default for Propose {
    fn default() -> (message: Propose)
        ensures
            message@ == ProposeModel::empty(),
    {
        Propose::new()
    }
}

impl Propose {
    /// A message with no field set.
    pub fn new() -> (message: Propose)
        ensures
            message@ == ProposeModel::empty(),
    {
        let message = Propose {
            rand: None,
            pubkey: None,
            exchanges: None,
            ciphers: None,
            hashes: None,
            unknown_fields: Vec::new(),
        };
        assert(unknown_models(message.unknown_fields@) =~= Seq::empty());
        message
    }

    /// Whether all required fields are set. No field is required.
    pub fn is_initialized(&self) -> (initialized: bool)
        ensures
            initialized,
    {
        true
    }

    /// Unsets every field, and forgets the fields that the message does not name.
    pub fn clear(&mut self)
        ensures
            final(self)@ == ProposeModel::empty(),
    {
        self.rand = None;
        self.pubkey = None;
        self.exchanges = None;
        self.ciphers = None;
        self.hashes = None;
        self.unknown_fields = Vec::new();
        assert(unknown_models(self.unknown_fields@) =~= Seq::empty());
    }

    /// The fields that the message does not name, in the order in which they were read.
    pub fn get_unknown_fields(&self) -> (fields: &Vec<UnknownField>)
        ensures
            unknown_models(fields@) == self@.unknown_fields,
    {
        &self.unknown_fields
    }

    /// The fields that the message does not name, for changing in place.
    pub fn mut_unknown_fields(&mut self) -> (fields: &mut Vec<UnknownField>)
        ensures
            unknown_models(fields@) == old(self)@.unknown_fields,
            final(self)@ == (ProposeModel {
                unknown_fields: unknown_models(final(fields)@),
                ..old(self)@
            }),
    {
        &mut self.unknown_fields
    }

    /// A copy of the message.
    pub fn copy(&self) -> (copy: Propose)
        ensures
            copy@ == self@,
    {
        Propose {
            rand: copy_bytes(&self.rand),
            pubkey: copy_bytes(&self.pubkey),
            exchanges: copy_text(&self.exchanges),
            ciphers: copy_text(&self.ciphers),
            hashes: copy_text(&self.hashes),
            unknown_fields: copy_unknown(&self.unknown_fields),
        }
    }

    /// Reads `input` into `initial`, field by field, up to the first field that does not
    /// read. Gives the message as far as it was read, and the error that stopped the
    /// reading.
    fn merged_into(initial: Propose, input: &[u8]) -> (r: (Propose, Result<(), WireError>))
        ensures
            r.0@ == initial@.merged_as_far(input@),
            match r.1 {
                Ok(_) => initial@.merged(input@) == Ok::<ProposeModel, WireError>(r.0@),
                Err(e) => initial@.merged(input@) == Err::<ProposeModel, WireError>(e),
            },
    {
        let ghost start = initial@;
        let mut message = initial;
        let mut position: usize = 0;
        assert(input@.skip(0) =~= input@);
        while position < input.len()
            invariant
                position <= input@.len(),
                start == initial@,
                start.merged(input@) == message@.merged(input@.skip(position as int)),
                start.merged_as_far(input@) == message@.merged_as_far(
                    input@.skip(position as int),
                ),
            decreases input@.len() - position,
        {
            let rest: &[u8] = &input[position..input.len()];
            assert(rest@ == input@.skip(position as int));
            assert(rest@.len() > 0);
            let ghost current = message@;
            let (number, wire_type, used) = match read_tag(rest) {
                Ok(read) => read,
                Err(e) => { return (message, Err(e)); },
            };
            let value: &[u8] = &rest[used..rest.len()];
            assert(value@ == rest@.skip(used as int));
            let length: usize;
            if number <= 5 {
                if wire_type != WireType::LengthDelimited {
                    return (message, Err(WireError::UnexpectedWireType(wire_type)));
                }
                let (bytes, taken) = match read_delimited(value) {
                    Ok(read) => read,
                    Err(e) => { return (message, Err(e)); },
                };
                length = taken;
                if number == 1 {
                    message.rand = Some(slice_to_vec(bytes));
                } else if number == 2 {
                    message.pubkey = Some(slice_to_vec(bytes));
                } else if number == 3 {
                    let text: String = match text_from_utf8(slice_to_vec(bytes)) {
                        Some(text) => text,
                        None => { return (message, Err(WireError::Utf8Error)); },
                    };
                    message.exchanges = Some(text);
                } else if number == 4 {
                    let text: String = match text_from_utf8(slice_to_vec(bytes)) {
                        Some(text) => text,
                        None => { return (message, Err(WireError::Utf8Error)); },
                    };
                    message.ciphers = Some(text);
                } else if number == 5 {
                    let text: String = match text_from_utf8(slice_to_vec(bytes)) {
                        Some(text) => text,
                        None => { return (message, Err(WireError::Utf8Error)); },
                    };
                    message.hashes = Some(text);
                }
            } else {
                let (kept, taken) = match read_unknown_or_skip_group(number, wire_type, value) {
                    Ok(read) => read,
                    Err(e) => { return (message, Err(e)); },
                };
                length = taken;
                match kept {
                    Some(field) => {
                        let ghost before = message.unknown_fields@;
                        message.unknown_fields.push(field);
                        assert(unknown_models(message.unknown_fields@) =~= unknown_models(
                            before,
                        ).push(field@));
                    },
                    None => {},
                }
            }
            assert(rest@.skip(used + length) == input@.skip(position + used + length));
            assert(current.with_field(number, wire_type, value@) == Ok::<(ProposeModel, int), WireError>(
                (message@, length as int),
            ));
            position = position + used + length;
        }
        assert(input@.skip(position as int).len() == 0);
        (message, Ok(()))
    }

    /// Reads a message from `bytes`. Every field of the message may occur any number of
    /// times, and the last occurrence counts; fields that the message does not name are
    /// kept in their order.
    pub fn parse_from_bytes(bytes: &[u8]) -> (r: Result<Propose, WireError>)
        ensures
            match r {
                Ok(message) => ProposeModel::empty().merged(bytes@) == Ok::<ProposeModel, WireError>(
                    message@,
                ),
                Err(e) => ProposeModel::empty().merged(bytes@) == Err::<ProposeModel, WireError>(e),
            },
    {
        let (message, r) = Propose::merged_into(Propose::new(), bytes);
        match r {
            Ok(_) => Ok(message),
            Err(e) => Err(e),
        }
    }

    /// Reads `bytes` into the message, field by field. Where a field does not read, the
    /// error is returned, and the message keeps what the fields in front of that one gave.
    pub fn merge_from(&mut self, bytes: &[u8]) -> (r: Result<(), WireError>)
        ensures
            final(self)@ == old(self)@.merged_as_far(bytes@),
            match r {
                Ok(_) => old(self)@.merged(bytes@) == Ok::<ProposeModel, WireError>(final(self)@),
                Err(e) => old(self)@.merged(bytes@) == Err::<ProposeModel, WireError>(e),
            },
    {
        let (merged, r) = Propose::merged_into(self.copy(), bytes);
        *self = merged;
        r
    }

    /// Writes the message.
    pub fn write_to_bytes(&self) -> (bytes: Vec<u8>)
        ensures
            bytes@ == self@.encoding(),
    {
        let mut out: Vec<u8> = Vec::new();
        match &self.rand {
            Some(v) => { write_bytes_field(&mut out, 1, v.as_slice()); },
            None => {},
        }
        match &self.pubkey {
            Some(v) => { write_bytes_field(&mut out, 2, v.as_slice()); },
            None => {},
        }
        match &self.exchanges {
            Some(v) => { write_bytes_field(&mut out, 3, v.as_str().as_bytes()); },
            None => {},
        }
        match &self.ciphers {
            Some(v) => { write_bytes_field(&mut out, 4, v.as_str().as_bytes()); },
            None => {},
        }
        match &self.hashes {
            Some(v) => { write_bytes_field(&mut out, 5, v.as_str().as_bytes()); },
            None => {},
        }
        write_unknown_fields(&mut out, &self.unknown_fields);
        assert(out@ =~= self@.encoding());
        out
    }

    /// The number of bytes that the message takes on the wire, or `None` where that number
    /// does not fit into 32 bits.
    pub fn compute_size(&self) -> (size: Option<u32>)
        ensures
            size.is_some() == (self@.encoding().len() <= u32::MAX),
            size.is_some() ==> size.unwrap() == self@.encoding().len(),
    {
        let mut my_size: u128 = 0;
        my_size = my_size + optional_bytes_size(1, &self.rand);
        my_size = my_size + optional_bytes_size(2, &self.pubkey);
        my_size = my_size + optional_text_size(3, &self.exchanges);
        my_size = my_size + optional_text_size(4, &self.ciphers);
        my_size = my_size + optional_text_size(5, &self.hashes);
        let unknown = unknown_fields_size(&self.unknown_fields);
        if unknown > 0xffff_ffff {
            return None;
        }
        my_size = my_size + unknown;
        if my_size <= 0xffff_ffff {
            Some(my_size as u32)
        } else {
            None
        }
    }

    /// The bytes of `rand`, or none where it is not set.
    pub fn get_rand(&self) -> (value: &[u8])
        ensures
            value@ == bytes_or_default(self@.rand),
    {
        match &self.rand {
            Some(v) => v.as_slice(),
            None => &[],
        }
    }

    /// Unsets `rand`.
    pub fn clear_rand(&mut self)
        ensures
            final(self)@ == (ProposeModel { rand: None, ..old(self)@ }),
    {
        self.rand = None;
    }

    /// Whether `rand` is set.
    pub fn has_rand(&self) -> (set: bool)
        ensures
            set == self@.rand.is_some(),
    {
        self.rand.is_some()
    }

    /// Sets `rand` to `v`.
    pub fn set_rand(&mut self, v: Vec<u8>)
        ensures
            final(self)@ == (ProposeModel { rand: Some(v@), ..old(self)@ }),
    {
        self.rand = Some(v);
    }

    /// The bytes of `rand` for changing in place. A field that is not set is first set to
    /// no bytes.
    pub fn mut_rand(&mut self) -> (value: &mut Vec<u8>)
        ensures
            value@ == bytes_or_default(old(self)@.rand),
            final(self)@ == (ProposeModel { rand: Some(final(value)@), ..old(self)@ }),
    {
        if self.rand.is_none() {
            self.rand = Some(Vec::new());
        }
        match &mut self.rand {
            Some(v) => v,
            None => unreached(),
        }
    }

    /// Takes the bytes of `rand` out of the message and leaves the field unset.
    pub fn take_rand(&mut self) -> (value: Vec<u8>)
        ensures
            value@ == bytes_or_default(old(self)@.rand),
            final(self)@ == (ProposeModel { rand: None, ..old(self)@ }),
    {
        match self.rand.take() {
            Some(v) => v,
            None => Vec::new(),
        }
    }

    /// The bytes of `pubkey`, or none where it is not set.
    pub fn get_pubkey(&self) -> (value: &[u8])
        ensures
            value@ == bytes_or_default(self@.pubkey),
    {
        match &self.pubkey {
            Some(v) => v.as_slice(),
            None => &[],
        }
    }

    /// Unsets `pubkey`.
    pub fn clear_pubkey(&mut self)
        ensures
            final(self)@ == (ProposeModel { pubkey: None, ..old(self)@ }),
    {
        self.pubkey = None;
    }

    /// Whether `pubkey` is set.
    pub fn has_pubkey(&self) -> (set: bool)
        ensures
            set == self@.pubkey.is_some(),
    {
        self.pubkey.is_some()
    }

    /// Sets `pubkey` to `v`.
    pub fn set_pubkey(&mut self, v: Vec<u8>)
        ensures
            final(self)@ == (ProposeModel { pubkey: Some(v@), ..old(self)@ }),
    {
        self.pubkey = Some(v);
    }

    /// The bytes of `pubkey` for changing in place. A field that is not set is first set to
    /// no bytes.
    pub fn mut_pubkey(&mut self) -> (value: &mut Vec<u8>)
        ensures
            value@ == bytes_or_default(old(self)@.pubkey),
            final(self)@ == (ProposeModel { pubkey: Some(final(value)@), ..old(self)@ }),
    {
        if self.pubkey.is_none() {
            self.pubkey = Some(Vec::new());
        }
        match &mut self.pubkey {
            Some(v) => v,
            None => unreached(),
        }
    }

    /// Takes the bytes of `pubkey` out of the message and leaves the field unset.
    pub fn take_pubkey(&mut self) -> (value: Vec<u8>)
        ensures
            value@ == bytes_or_default(old(self)@.pubkey),
            final(self)@ == (ProposeModel { pubkey: None, ..old(self)@ }),
    {
        match self.pubkey.take() {
            Some(v) => v,
            None => Vec::new(),
        }
    }

    /// The text of `exchanges`, or the empty string where it is not set.
    pub fn get_exchanges(&self) -> (value: &str)
        ensures
            value@ == text_or_default(self@.exchanges),
    {
        match &self.exchanges {
            Some(v) => v.as_str(),
            None => {
                proof {
                    reveal_strlit("");
                }
                ""
            },
        }
    }

    /// Unsets `exchanges`.
    pub fn clear_exchanges(&mut self)
        ensures
            final(self)@ == (ProposeModel { exchanges: None, ..old(self)@ }),
    {
        self.exchanges = None;
    }

    /// Whether `exchanges` is set.
    pub fn has_exchanges(&self) -> (set: bool)
        ensures
            set == self@.exchanges.is_some(),
    {
        self.exchanges.is_some()
    }

    /// Sets `exchanges` to `v`.
    pub fn set_exchanges(&mut self, v: String)
        ensures
            final(self)@ == (ProposeModel { exchanges: Some(v@), ..old(self)@ }),
    {
        self.exchanges = Some(v);
    }

    /// The text of `exchanges` for changing in place. A field that is not set is first set to
    /// the empty string.
    pub fn mut_exchanges(&mut self) -> (value: &mut String)
        ensures
            value@ == text_or_default(old(self)@.exchanges),
            final(self)@ == (ProposeModel { exchanges: Some(final(value)@), ..old(self)@ }),
    {
        if self.exchanges.is_none() {
            self.exchanges = Some(String::new());
        }
        match &mut self.exchanges {
            Some(v) => v,
            None => unreached(),
        }
    }

    /// Takes the text of `exchanges` out of the message and leaves the field unset.
    pub fn take_exchanges(&mut self) -> (value: String)
        ensures
            value@ == text_or_default(old(self)@.exchanges),
            final(self)@ == (ProposeModel { exchanges: None, ..old(self)@ }),
    {
        match self.exchanges.take() {
            Some(v) => v,
            None => String::new(),
        }
    }

    /// The text of `ciphers`, or the empty string where it is not set.
    pub fn get_ciphers(&self) -> (value: &str)
        ensures
            value@ == text_or_default(self@.ciphers),
    {
        match &self.ciphers {
            Some(v) => v.as_str(),
            None => {
                proof {
                    reveal_strlit("");
                }
                ""
            },
        }
    }

    /// Unsets `ciphers`.
    pub fn clear_ciphers(&mut self)
        ensures
            final(self)@ == (ProposeModel { ciphers: None, ..old(self)@ }),
    {
        self.ciphers = None;
    }

    /// Whether `ciphers` is set.
    pub fn has_ciphers(&self) -> (set: bool)
        ensures
            set == self@.ciphers.is_some(),
    {
        self.ciphers.is_some()
    }

    /// Sets `ciphers` to `v`.
    pub fn set_ciphers(&mut self, v: String)
        ensures
            final(self)@ == (ProposeModel { ciphers: Some(v@), ..old(self)@ }),
    {
        self.ciphers = Some(v);
    }

    /// The text of `ciphers` for changing in place. A field that is not set is first set to
    /// the empty string.
    pub fn mut_ciphers(&mut self) -> (value: &mut String)
        ensures
            value@ == text_or_default(old(self)@.ciphers),
            final(self)@ == (ProposeModel { ciphers: Some(final(value)@), ..old(self)@ }),
    {
        if self.ciphers.is_none() {
            self.ciphers = Some(String::new());
        }
        match &mut self.ciphers {
            Some(v) => v,
            None => unreached(),
        }
    }

    /// Takes the text of `ciphers` out of the message and leaves the field unset.
    pub fn take_ciphers(&mut self) -> (value: String)
        ensures
            value@ == text_or_default(old(self)@.ciphers),
            final(self)@ == (ProposeModel { ciphers: None, ..old(self)@ }),
    {
        match self.ciphers.take() {
            Some(v) => v,
            None => String::new(),
        }
    }

    /// The text of `hashes`, or the empty string where it is not set.
    pub fn get_hashes(&self) -> (value: &str)
        ensures
            value@ == text_or_default(self@.hashes),
    {
        match &self.hashes {
            Some(v) => v.as_str(),
            None => {
                proof {
                    reveal_strlit("");
                }
                ""
            },
        }
    }

    /// Unsets `hashes`.
    pub fn clear_hashes(&mut self)
        ensures
            final(self)@ == (ProposeModel { hashes: None, ..old(self)@ }),
    {
        self.hashes = None;
    }

    /// Whether `hashes` is set.
    pub fn has_hashes(&self) -> (set: bool)
        ensures
            set == self@.hashes.is_some(),
    {
        self.hashes.is_some()
    }

    /// Sets `hashes` to `v`.
    pub fn set_hashes(&mut self, v: String)
        ensures
            final(self)@ == (ProposeModel { hashes: Some(v@), ..old(self)@ }),
    {
        self.hashes = Some(v);
    }

    /// The text of `hashes` for changing in place. A field that is not set is first set to
    /// the empty string.
    pub fn mut_hashes(&mut self) -> (value: &mut String)
        ensures
            value@ == text_or_default(old(self)@.hashes),
            final(self)@ == (ProposeModel { hashes: Some(final(value)@), ..old(self)@ }),
    {
        if self.hashes.is_none() {
            self.hashes = Some(String::new());
        }
        match &mut self.hashes {
            Some(v) => v,
            None => unreached(),
        }
    }

    /// Takes the text of `hashes` out of the message and leaves the field unset.
    pub fn take_hashes(&mut self) -> (value: String)
        ensures
            value@ == text_or_default(old(self)@.hashes),
            final(self)@ == (ProposeModel { hashes: None, ..old(self)@ }),
    {
        match self.hashes.take() {
            Some(v) => v,
            None => String::new(),
        }
    }
}

/// Reading a written field of the message sets the field and goes on behind it.
proof fn lemma_propose_known(message: ProposeModel, number: u32, bytes: Seq<u8>, rest: Seq<u8>)
    requires
        1 <= number <= 5,
        bytes.len() <= u32::MAX,
        ProposeModel::is_text(number) ==> valid_utf8(bytes),
    ensures
        message.merged(bytes_field(number, bytes) + rest) == message.with_bytes(
            number,
            bytes,
        ).merged(rest),
{
    let input = bytes_field(number, bytes) + rest;
    let head = tag_bytes(number, WireType::LengthDelimited);
    assert(input =~= head + (delimited_bytes(bytes) + rest));
    lemma_tag_round_trip(number, WireType::LengthDelimited, delimited_bytes(bytes) + rest);
    assert(input.skip(head.len() as int) =~= delimited_bytes(bytes) + rest);
    lemma_delimited_round_trip(bytes, rest);
    assert(input.skip((head.len() + delimited_bytes(bytes).len()) as int) =~= rest);
}

/// Reading a written field that the message does not name keeps the field and goes on
/// behind it.
proof fn lemma_propose_unknown(message: ProposeModel, field: UnknownFieldModel, rest: Seq<u8>)
    requires
        writable(field),
        field.number > 5,
    ensures
        message.merged(unknown_field_bytes(field) + rest) == (ProposeModel {
            unknown_fields: message.unknown_fields.push(field),
            ..message
        }).merged(rest),
{
    lemma_unknown_round_trip(field, rest);
}

/// Reading a written run of fields that the message does not name keeps them all, in
/// their order, and goes on behind them.
proof fn lemma_propose_unknown_run(
    message: ProposeModel,
    fields: Seq<UnknownFieldModel>,
    rest: Seq<u8>,
)
    requires
        forall|i: int|
            0 <= i < fields.len() ==> writable(#[trigger] fields[i]) && fields[i].number
                > 5,
    ensures
        message.merged(unknown_fields_bytes(fields) + rest) == (ProposeModel {
            unknown_fields: message.unknown_fields + fields,
            ..message
        }).merged(rest),
    decreases fields.len(),
{
    if fields.len() == 0 {
        assert(unknown_fields_bytes(fields) + rest =~= rest);
        assert(message.unknown_fields + fields =~= message.unknown_fields);
    } else {
        let front = fields.drop_last();
        let last = fields.last();
        assert(unknown_fields_bytes(fields) + rest =~= unknown_fields_bytes(front) + (
            unknown_field_bytes(last) + rest));
        lemma_propose_unknown_run(message, front, unknown_field_bytes(last) + rest);
        let middle = ProposeModel { unknown_fields: message.unknown_fields + front, ..message };
        lemma_propose_unknown(middle, last, rest);
        assert((message.unknown_fields + front).push(last) =~= message.unknown_fields + fields);
    }
}


/// The message reads back from its written form behind its first `count` fields.
proof fn lemma_propose_reads_back(message: ProposeModel, count: int)
    requires
        message.writable(),
        0 <= count <= 5,
    ensures
        message.first_fields(count).merged(message.encoding_from(count)) == Ok::<
            ProposeModel,
            WireError,
        >(message),
    decreases 5 - count,
{
    broadcast use encode_utf8_valid_utf8, encode_utf8_decode_utf8;

    let read = message.first_fields(count);
    if count == 5 {
        let tail = unknown_fields_bytes(message.unknown_fields);
        lemma_propose_unknown_run(read, message.unknown_fields, Seq::empty());
        assert(tail + Seq::<u8>::empty() =~= tail);
        assert(read.unknown_fields + message.unknown_fields =~= message.unknown_fields);
    } else {
        lemma_propose_reads_back(message, count + 1);
        let number = (count + 1) as u32;
        let rest = message.encoding_from(count + 1);
        match message.wire_field(count + 1) {
            Some(bytes) => {
                lemma_propose_known(read, number, bytes, rest);
                assert(read.with_bytes(number, bytes) == message.first_fields(count + 1));
            },
            None => {
                assert(read == message.first_fields(count + 1));
                assert(Seq::<u8>::empty() + rest =~= rest);
            },
        }
    }
}

/// A message that was written reads back as itself: nothing is lost on the wire, and
/// nothing is added.
pub proof fn lemma_propose_round_trip(message: ProposeModel)
    requires
        message.writable(),
    ensures
        ProposeModel::empty().merged(message.encoding()) == Ok::<ProposeModel, WireError>(message),
{
    lemma_propose_reads_back(message, 0);
    lemma_propose_encoding(message);
}

/// The message on the wire is its fields one behind the other.
proof fn lemma_propose_encoding(message: ProposeModel)
    ensures
        message.encoding_from(0) == message.encoding(),
{
    reveal_with_fuel(ProposeModel::encoding_from, 2);
    assert(message.encoding_from(4) == optional_text(5, message.hashes) + message.encoding_from(5));
    assert(message.encoding_from(3) == optional_text(4, message.ciphers) + message.encoding_from(4));
    assert(message.encoding_from(2) == optional_text(3, message.exchanges) + message.encoding_from(3));
    assert(message.encoding_from(1) == optional_bytes(2, message.pubkey) + message.encoding_from(2));
    assert(message.encoding_from(0) == optional_bytes(1, message.rand) + message.encoding_from(1));
    assert(message.encoding_from(0) =~= message.encoding());
}

/// An `Exchange` message as mathematical values.
pub struct ExchangeModel {
    pub epubkey: Option<Seq<u8>>,
    pub signature: Option<Seq<u8>>,
    /// The fields that the message does not name, in the order in which they were read.
    pub unknown_fields: Seq<UnknownFieldModel>,
}

/// What one side of the handshake exchanges: its ephemeral public key, and its signature
/// over both proposals and that key.
#[derive(Clone, Debug, PartialEq)]
pub struct Exchange {
    epubkey: Option<Vec<u8>>,
    signature: Option<Vec<u8>>,
    unknown_fields: Vec<UnknownField>,
}

impl View for Exchange {
    type V = ExchangeModel;

    closed spec fn view(&self) -> ExchangeModel {
        ExchangeModel {
            epubkey: bytes_model(self.epubkey),
            signature: bytes_model(self.signature),
            unknown_fields: unknown_models(self.unknown_fields@),
        }
    }
}

impl ExchangeModel {
    /// The message with no field set.
    pub open spec fn empty() -> ExchangeModel {
        ExchangeModel {
            epubkey: None,
            signature: None,
            unknown_fields: Seq::empty(),
        }
    }

    /// Whether the field with this number holds text.
    pub open spec fn is_text(number: u32) -> bool {
        false
    }

    /// The message with the field of this number set to these bytes, or to the text
    /// that they spell.
    pub open spec fn with_bytes(self, number: u32, bytes: Seq<u8>) -> ExchangeModel {
        if number == 1 {
            ExchangeModel { epubkey: Some(bytes), ..self }
        } else if number == 2 {
            ExchangeModel { signature: Some(bytes), ..self }
        } else {
            self
        }
    }

    /// Whether the message is written in a form that reads back: every field that is set
    /// is short enough for its length to be written, and every field that the message
    /// does not name can be written and has a number that the message does not use.
    pub open spec fn writable(self) -> bool {
        &&& bytes_writable(self.epubkey)
        &&& bytes_writable(self.signature)
        &&& forall|i: int|
            0 <= i < self.unknown_fields.len() ==> writable(#[trigger] self.unknown_fields[i])
                && self.unknown_fields[i].number > 2
    }

    /// What the message becomes when the field with this number and form of value is
    /// read from the front of `input`, behind its tag, and the number of bytes that the
    /// field takes. A field of the message replaces what the message held; any other
    /// field is kept behind those kept before.
    pub open spec fn with_field(self, number: u32, wire_type: WireType, input: Seq<u8>) -> Result<
        (ExchangeModel, int),
        WireError,
    > {
        let message = self;
        if 1 <= number <= 2 {
            if wire_type != WireType::LengthDelimited {
                Err(WireError::UnexpectedWireType(wire_type))
            } else {
                match delimited(input) {
                    Err(e) => Err(e),
                    Ok((bytes, used)) => if ExchangeModel::is_text(number) && !valid_utf8(bytes) {
                        Err(WireError::Utf8Error)
                    } else {
                        Ok((self.with_bytes(number, bytes), used))
                    },
                }
            }
        } else {
            match unknown_field(number, wire_type, input) {
                Err(e) => Err(e),
                Ok((kept, used)) => Ok(
                    (
                        match kept {
                            Some(field) => ExchangeModel {
                                unknown_fields: message.unknown_fields.push(field),
                                ..message
                            },
                            None => message,
                        },
                        used,
                    ),
                ),
            }
        }
    }

    /// What the message becomes when all of `input` is read into it, field by field.
    pub open spec fn merged(self, input: Seq<u8>) -> Result<ExchangeModel, WireError>
        decreases input.len(),
    {
        if input.len() == 0 {
            Ok(self)
        } else {
            match tag(input) {
                Err(e) => Err(e),
                Ok((number, wire_type, used)) => match self.with_field(
                    number,
                    wire_type,
                    input.skip(used),
                ) {
                    Err(e) => Err(e),
                    Ok((message, length)) => if used <= 0 || length < 0 || used + length
                        > input.len() {
                        Err(WireError::UnexpectedEof)
                    } else {
                        message.merged(input.skip(used + length))
                    },
                },
            }
        }
    }

    /// What the message holds when `input` is read into it as far as it reads: the fields
    /// in front of the first one that does not read are taken in; that field and what
    /// follows it are not.
    pub open spec fn merged_as_far(self, input: Seq<u8>) -> ExchangeModel
        decreases input.len(),
    {
        if input.len() == 0 {
            self
        } else {
            match tag(input) {
                Err(_) => self,
                Ok((number, wire_type, used)) => match self.with_field(
                    number,
                    wire_type,
                    input.skip(used),
                ) {
                    Err(_) => self,
                    Ok((message, length)) => if used <= 0 || length < 0 || used + length
                        > input.len() {
                        self
                    } else {
                        message.merged_as_far(input.skip(used + length))
                    },
                },
            }
        }
    }

    /// The message on the wire: the fields that are set in the order of their numbers,
    /// followed by the fields that the message does not name.
    pub open spec fn encoding(self) -> Seq<u8> {
        optional_bytes(1, self.epubkey)
            + optional_bytes(2, self.signature)
            + unknown_fields_bytes(self.unknown_fields)
    }

    /// The bytes that the field with this number holds on the wire, where it is set.
    pub open spec fn wire_field(self, number: int) -> Option<Seq<u8>> {
        if number == 1 {
            self.epubkey
        } else if number == 2 {
            self.signature
        } else {
            None
        }
    }

    /// The message on the wire without its first `count` fields.
    pub open spec fn encoding_from(self, count: int) -> Seq<u8>
        decreases 2 - count,
    {
        if count >= 2 {
            unknown_fields_bytes(self.unknown_fields)
        } else {
            optional_bytes((count + 1) as u32, self.wire_field(count + 1)) + self.encoding_from(
                count + 1,
            )
        }
    }

    /// The message with its first `count` fields only.
    pub open spec fn first_fields(self, count: int) -> ExchangeModel {
        ExchangeModel {
            epubkey: if count >= 1 {
                self.epubkey
            } else {
                None
            },
            signature: if count >= 2 {
                self.signature
            } else {
                None
            },
            unknown_fields: Seq::empty(),
        }
    }
}

impl Default for Exchange {
    fn default() -> (message: Exchange)
        ensures
            message@ == ExchangeModel::empty(),
    {
        Exchange::new()
    }
}

impl Exchange {
    /// A message with no field set.
    pub fn new() -> (message: Exchange)
        ensures
            message@ == ExchangeModel::empty(),
    {
        let message = Exchange {
            epubkey: None,
            signature: None,
            unknown_fields: Vec::new(),
        };
        assert(unknown_models(message.unknown_fields@) =~= Seq::empty());
        message
    }

    /// Whether all required fields are set. No field is required.
    pub fn is_initialized(&self) -> (initialized: bool)
        ensures
            initialized,
    {
        true
    }

    /// Unsets every field, and forgets the fields that the message does not name.
    pub fn clear(&mut self)
        ensures
            final(self)@ == ExchangeModel::empty(),
    {
        self.epubkey = None;
        self.signature = None;
        self.unknown_fields = Vec::new();
        assert(unknown_models(self.unknown_fields@) =~= Seq::empty());
    }

    /// The fields that the message does not name, in the order in which they were read.
    pub fn get_unknown_fields(&self) -> (fields: &Vec<UnknownField>)
        ensures
            unknown_models(fields@) == self@.unknown_fields,
    {
        &self.unknown_fields
    }

    /// The fields that the message does not name, for changing in place.
    pub fn mut_unknown_fields(&mut self) -> (fields: &mut Vec<UnknownField>)
        ensures
            unknown_models(fields@) == old(self)@.unknown_fields,
            final(self)@ == (ExchangeModel {
                unknown_fields: unknown_models(final(fields)@),
                ..old(self)@
            }),
    {
        &mut self.unknown_fields
    }

    /// A copy of the message.
    pub fn copy(&self) -> (copy: Exchange)
        ensures
            copy@ == self@,
    {
        Exchange {
            epubkey: copy_bytes(&self.epubkey),
            signature: copy_bytes(&self.signature),
            unknown_fields: copy_unknown(&self.unknown_fields),
        }
    }

    /// Reads `input` into `initial`, field by field, up to the first field that does not
    /// read. Gives the message as far as it was read, and the error that stopped the
    /// reading.
    fn merged_into(initial: Exchange, input: &[u8]) -> (r: (Exchange, Result<(), WireError>))
        ensures
            r.0@ == initial@.merged_as_far(input@),
            match r.1 {
                Ok(_) => initial@.merged(input@) == Ok::<ExchangeModel, WireError>(r.0@),
                Err(e) => initial@.merged(input@) == Err::<ExchangeModel, WireError>(e),
            },
    {
        let ghost start = initial@;
        let mut message = initial;
        let mut position: usize = 0;
        assert(input@.skip(0) =~= input@);
        while position < input.len()
            invariant
                position <= input@.len(),
                start == initial@,
                start.merged(input@) == message@.merged(input@.skip(position as int)),
                start.merged_as_far(input@) == message@.merged_as_far(
                    input@.skip(position as int),
                ),
            decreases input@.len() - position,
        {
            let rest: &[u8] = &input[position..input.len()];
            assert(rest@ == input@.skip(position as int));
            assert(rest@.len() > 0);
            let ghost current = message@;
            let (number, wire_type, used) = match read_tag(rest) {
                Ok(read) => read,
                Err(e) => { return (message, Err(e)); },
            };
            let value: &[u8] = &rest[used..rest.len()];
            assert(value@ == rest@.skip(used as int));
            let length: usize;
            if number <= 2 {
                if wire_type != WireType::LengthDelimited {
                    return (message, Err(WireError::UnexpectedWireType(wire_type)));
                }
                let (bytes, taken) = match read_delimited(value) {
                    Ok(read) => read,
                    Err(e) => { return (message, Err(e)); },
                };
                length = taken;
                if number == 1 {
                    message.epubkey = Some(slice_to_vec(bytes));
                } else if number == 2 {
                    message.signature = Some(slice_to_vec(bytes));
                }
            } else {
                let (kept, taken) = match read_unknown_or_skip_group(number, wire_type, value) {
                    Ok(read) => read,
                    Err(e) => { return (message, Err(e)); },
                };
                length = taken;
                match kept {
                    Some(field) => {
                        let ghost before = message.unknown_fields@;
                        message.unknown_fields.push(field);
                        assert(unknown_models(message.unknown_fields@) =~= unknown_models(
                            before,
                        ).push(field@));
                    },
                    None => {},
                }
            }
            assert(rest@.skip(used + length) == input@.skip(position + used + length));
            assert(current.with_field(number, wire_type, value@) == Ok::<(ExchangeModel, int), WireError>(
                (message@, length as int),
            ));
            position = position + used + length;
        }
        assert(input@.skip(position as int).len() == 0);
        (message, Ok(()))
    }

    /// Reads a message from `bytes`. Every field of the message may occur any number of
    /// times, and the last occurrence counts; fields that the message does not name are
    /// kept in their order.
    pub fn parse_from_bytes(bytes: &[u8]) -> (r: Result<Exchange, WireError>)
        ensures
            match r {
                Ok(message) => ExchangeModel::empty().merged(bytes@) == Ok::<ExchangeModel, WireError>(
                    message@,
                ),
                Err(e) => ExchangeModel::empty().merged(bytes@) == Err::<ExchangeModel, WireError>(e),
            },
    {
        let (message, r) = Exchange::merged_into(Exchange::new(), bytes);
        match r {
            Ok(_) => Ok(message),
            Err(e) => Err(e),
        }
    }

    /// Reads `bytes` into the message, field by field. Where a field does not read, the
    /// error is returned, and the message keeps what the fields in front of that one gave.
    pub fn merge_from(&mut self, bytes: &[u8]) -> (r: Result<(), WireError>)
        ensures
            final(self)@ == old(self)@.merged_as_far(bytes@),
            match r {
                Ok(_) => old(self)@.merged(bytes@) == Ok::<ExchangeModel, WireError>(final(self)@),
                Err(e) => old(self)@.merged(bytes@) == Err::<ExchangeModel, WireError>(e),
            },
    {
        let (merged, r) = Exchange::merged_into(self.copy(), bytes);
        *self = merged;
        r
    }

    /// Writes the message.
    pub fn write_to_bytes(&self) -> (bytes: Vec<u8>)
        ensures
            bytes@ == self@.encoding(),
    {
        let mut out: Vec<u8> = Vec::new();
        match &self.epubkey {
            Some(v) => { write_bytes_field(&mut out, 1, v.as_slice()); },
            None => {},
        }
        match &self.signature {
            Some(v) => { write_bytes_field(&mut out, 2, v.as_slice()); },
            None => {},
        }
        write_unknown_fields(&mut out, &self.unknown_fields);
        assert(out@ =~= self@.encoding());
        out
    }

    /// The number of bytes that the message takes on the wire, or `None` where that number
    /// does not fit into 32 bits.
    pub fn compute_size(&self) -> (size: Option<u32>)
        ensures
            size.is_some() == (self@.encoding().len() <= u32::MAX),
            size.is_some() ==> size.unwrap() == self@.encoding().len(),
    {
        let mut my_size: u128 = 0;
        my_size = my_size + optional_bytes_size(1, &self.epubkey);
        my_size = my_size + optional_bytes_size(2, &self.signature);
        let unknown = unknown_fields_size(&self.unknown_fields);
        if unknown > 0xffff_ffff {
            return None;
        }
        my_size = my_size + unknown;
        if my_size <= 0xffff_ffff {
            Some(my_size as u32)
        } else {
            None
        }
    }

    /// The bytes of `epubkey`, or none where it is not set.
    pub fn get_epubkey(&self) -> (value: &[u8])
        ensures
            value@ == bytes_or_default(self@.epubkey),
    {
        match &self.epubkey {
            Some(v) => v.as_slice(),
            None => &[],
        }
    }

    /// Unsets `epubkey`.
    pub fn clear_epubkey(&mut self)
        ensures
            final(self)@ == (ExchangeModel { epubkey: None, ..old(self)@ }),
    {
        self.epubkey = None;
    }

    /// Whether `epubkey` is set.
    pub fn has_epubkey(&self) -> (set: bool)
        ensures
            set == self@.epubkey.is_some(),
    {
        self.epubkey.is_some()
    }

    /// Sets `epubkey` to `v`.
    pub fn set_epubkey(&mut self, v: Vec<u8>)
        ensures
            final(self)@ == (ExchangeModel { epubkey: Some(v@), ..old(self)@ }),
    {
        self.epubkey = Some(v);
    }

    /// The bytes of `epubkey` for changing in place. A field that is not set is first set to
    /// no bytes.
    pub fn mut_epubkey(&mut self) -> (value: &mut Vec<u8>)
        ensures
            value@ == bytes_or_default(old(self)@.epubkey),
            final(self)@ == (ExchangeModel { epubkey: Some(final(value)@), ..old(self)@ }),
    {
        if self.epubkey.is_none() {
            self.epubkey = Some(Vec::new());
        }
        match &mut self.epubkey {
            Some(v) => v,
            None => unreached(),
        }
    }

    /// Takes the bytes of `epubkey` out of the message and leaves the field unset.
    pub fn take_epubkey(&mut self) -> (value: Vec<u8>)
        ensures
            value@ == bytes_or_default(old(self)@.epubkey),
            final(self)@ == (ExchangeModel { epubkey: None, ..old(self)@ }),
    {
        match self.epubkey.take() {
            Some(v) => v,
            None => Vec::new(),
        }
    }

    /// The bytes of `signature`, or none where it is not set.
    pub fn get_signature(&self) -> (value: &[u8])
        ensures
            value@ == bytes_or_default(self@.signature),
    {
        match &self.signature {
            Some(v) => v.as_slice(),
            None => &[],
        }
    }

    /// Unsets `signature`.
    pub fn clear_signature(&mut self)
        ensures
            final(self)@ == (ExchangeModel { signature: None, ..old(self)@ }),
    {
        self.signature = None;
    }

    /// Whether `signature` is set.
    pub fn has_signature(&self) -> (set: bool)
        ensures
            set == self@.signature.is_some(),
    {
        self.signature.is_some()
    }

    /// Sets `signature` to `v`.
    pub fn set_signature(&mut self, v: Vec<u8>)
        ensures
            final(self)@ == (ExchangeModel { signature: Some(v@), ..old(self)@ }),
    {
        self.signature = Some(v);
    }

    /// The bytes of `signature` for changing in place. A field that is not set is first set to
    /// no bytes.
    pub fn mut_signature(&mut self) -> (value: &mut Vec<u8>)
        ensures
            value@ == bytes_or_default(old(self)@.signature),
            final(self)@ == (ExchangeModel { signature: Some(final(value)@), ..old(self)@ }),
    {
        if self.signature.is_none() {
            self.signature = Some(Vec::new());
        }
        match &mut self.signature {
            Some(v) => v,
            None => unreached(),
        }
    }

    /// Takes the bytes of `signature` out of the message and leaves the field unset.
    pub fn take_signature(&mut self) -> (value: Vec<u8>)
        ensures
            value@ == bytes_or_default(old(self)@.signature),
            final(self)@ == (ExchangeModel { signature: None, ..old(self)@ }),
    {
        match self.signature.take() {
            Some(v) => v,
            None => Vec::new(),
        }
    }
}

/// Reading a written field of the message sets the field and goes on behind it.
proof fn lemma_exchange_known(message: ExchangeModel, number: u32, bytes: Seq<u8>, rest: Seq<u8>)
    requires
        1 <= number <= 2,
        bytes.len() <= u32::MAX,
        ExchangeModel::is_text(number) ==> valid_utf8(bytes),
    ensures
        message.merged(bytes_field(number, bytes) + rest) == message.with_bytes(
            number,
            bytes,
        ).merged(rest),
{
    let input = bytes_field(number, bytes) + rest;
    let head = tag_bytes(number, WireType::LengthDelimited);
    assert(input =~= head + (delimited_bytes(bytes) + rest));
    lemma_tag_round_trip(number, WireType::LengthDelimited, delimited_bytes(bytes) + rest);
    assert(input.skip(head.len() as int) =~= delimited_bytes(bytes) + rest);
    lemma_delimited_round_trip(bytes, rest);
    assert(input.skip((head.len() + delimited_bytes(bytes).len()) as int) =~= rest);
}

/// Reading a written field that the message does not name keeps the field and goes on
/// behind it.
proof fn lemma_exchange_unknown(message: ExchangeModel, field: UnknownFieldModel, rest: Seq<u8>)
    requires
        writable(field),
        field.number > 2,
    ensures
        message.merged(unknown_field_bytes(field) + rest) == (ExchangeModel {
            unknown_fields: message.unknown_fields.push(field),
            ..message
        }).merged(rest),
{
    lemma_unknown_round_trip(field, rest);
}

/// Reading a written run of fields that the message does not name keeps them all, in
/// their order, and goes on behind them.
proof fn lemma_exchange_unknown_run(
    message: ExchangeModel,
    fields: Seq<UnknownFieldModel>,
    rest: Seq<u8>,
)
    requires
        forall|i: int|
            0 <= i < fields.len() ==> writable(#[trigger] fields[i]) && fields[i].number
                > 2,
    ensures
        message.merged(unknown_fields_bytes(fields) + rest) == (ExchangeModel {
            unknown_fields: message.unknown_fields + fields,
            ..message
        }).merged(rest),
    decreases fields.len(),
{
    if fields.len() == 0 {
        assert(unknown_fields_bytes(fields) + rest =~= rest);
        assert(message.unknown_fields + fields =~= message.unknown_fields);
    } else {
        let front = fields.drop_last();
        let last = fields.last();
        assert(unknown_fields_bytes(fields) + rest =~= unknown_fields_bytes(front) + (
            unknown_field_bytes(last) + rest));
        lemma_exchange_unknown_run(message, front, unknown_field_bytes(last) + rest);
        let middle = ExchangeModel { unknown_fields: message.unknown_fields + front, ..message };
        lemma_exchange_unknown(middle, last, rest);
        assert((message.unknown_fields + front).push(last) =~= message.unknown_fields + fields);
    }
}


/// The message reads back from its written form behind its first `count` fields.
proof fn lemma_exchange_reads_back(message: ExchangeModel, count: int)
    requires
        message.writable(),
        0 <= count <= 2,
    ensures
        message.first_fields(count).merged(message.encoding_from(count)) == Ok::<
            ExchangeModel,
            WireError,
        >(message),
    decreases 2 - count,
{
    broadcast use encode_utf8_valid_utf8, encode_utf8_decode_utf8;

    let read = message.first_fields(count);
    if count == 2 {
        let tail = unknown_fields_bytes(message.unknown_fields);
        lemma_exchange_unknown_run(read, message.unknown_fields, Seq::empty());
        assert(tail + Seq::<u8>::empty() =~= tail);
        assert(read.unknown_fields + message.unknown_fields =~= message.unknown_fields);
    } else {
        lemma_exchange_reads_back(message, count + 1);
        let number = (count + 1) as u32;
        let rest = message.encoding_from(count + 1);
        match message.wire_field(count + 1) {
            Some(bytes) => {
                lemma_exchange_known(read, number, bytes, rest);
                assert(read.with_bytes(number, bytes) == message.first_fields(count + 1));
            },
            None => {
                assert(read == message.first_fields(count + 1));
                assert(Seq::<u8>::empty() + rest =~= rest);
            },
        }
    }
}

/// A message that was written reads back as itself: nothing is lost on the wire, and
/// nothing is added.
pub proof fn lemma_exchange_round_trip(message: ExchangeModel)
    requires
        message.writable(),
    ensures
        ExchangeModel::empty().merged(message.encoding()) == Ok::<ExchangeModel, WireError>(message),
{
    lemma_exchange_reads_back(message, 0);
    lemma_exchange_encoding(message);
}

/// The message on the wire is its fields one behind the other.
proof fn lemma_exchange_encoding(message: ExchangeModel)
    ensures
        message.encoding_from(0) == message.encoding(),
{
    reveal_with_fuel(ExchangeModel::encoding_from, 2);
    assert(message.encoding_from(1) == optional_bytes(2, message.signature) + message.encoding_from(2));
    assert(message.encoding_from(0) == optional_bytes(1, message.epubkey) + message.encoding_from(1));
    assert(message.encoding_from(0) =~= message.encoding());
}

} // verus!
