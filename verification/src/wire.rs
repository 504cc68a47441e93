//! The protobuf wire format, as far as the handshake messages use it.
//!
//! A message on the wire is a run of fields. A field starts with a tag, a varint that
//! holds the field's number and the form of its value; the value is a varint, four or
//! eight bytes, or a length and that many bytes. A group is a field too: it runs from a
//! start tag to the next end tag.
//!
//! The reader accepts what the protobuf runtime accepts. A varint may be spelled with more
//! bytes than it needs, up to ten; of a tag and of a length only the lower 32 bits count.

use vstd::prelude::*;
use vstd::bytes::{
    lemma_auto_spec_u32_to_from_le_bytes,
    lemma_auto_spec_u64_to_from_le_bytes,
    spec_u32_from_le_bytes,
    spec_u32_to_le_bytes,
    spec_u64_from_le_bytes,
    spec_u64_to_le_bytes,
    u32_from_le_bytes,
    u32_to_le_bytes,
    u64_from_le_bytes,
    u64_to_le_bytes,
};
use vstd::slice::slice_to_vec;

verus! {

/// The form of a field's value.
#[derive(Clone, Copy, Debug, PartialEq, Eq, Structural)]
pub enum WireType {
    /// A varint.
    Varint,
    /// Eight bytes.
    Fixed64,
    /// A length, and that many bytes.
    LengthDelimited,
    /// The start of a group.
    StartGroup,
    /// The end of a group.
    EndGroup,
    /// Four bytes.
    Fixed32,
}

/// Why bytes are not a message.
#[derive(Clone, Copy, Debug, PartialEq, Eq, Structural)]
pub enum WireError {
    /// The bytes end in the middle of a field.
    UnexpectedEof,
    /// The value of a field has a form that the field cannot take.
    UnexpectedWireType(WireType),
    /// A tag names no field, or no form of value.
    IncorrectTag(u32),
    /// A varint does not end within ten bytes.
    IncorrectVarint,
    /// A text is not UTF-8.
    Utf8Error,
}

/// The value of a field that a message does not name, as mathematical values.
pub enum UnknownValueModel {
    Fixed32(u32),
    Fixed64(u64),
    Varint(u64),
    LengthDelimited(Seq<u8>),
}

/// A field that a message does not name, as mathematical values.
pub struct UnknownFieldModel {
    pub number: u32,
    pub value: UnknownValueModel,
}

/// The value of a field that a message does not name.
#[derive(Clone, Debug, PartialEq, Eq)]
pub enum UnknownValue {
    /// Four bytes, read as a number in little-endian order.
    Fixed32(u32),
    /// Eight bytes, read as a number in little-endian order.
    Fixed64(u64),
    /// A varint.
    Varint(u64),
    /// Bytes.
    LengthDelimited(Vec<u8>),
}

/// A field that a message does not name.
#[derive(Clone, Debug, PartialEq, Eq)]
pub struct UnknownField {
    /// The field's number.
    pub number: u32,
    /// The field's value.
    pub value: UnknownValue,
}

impl View for UnknownValue {
    type V = UnknownValueModel;

    open spec fn view(&self) -> UnknownValueModel {
        match self {
            UnknownValue::Fixed32(v) => UnknownValueModel::Fixed32(*v),
            UnknownValue::Fixed64(v) => UnknownValueModel::Fixed64(*v),
            UnknownValue::Varint(v) => UnknownValueModel::Varint(*v),
            UnknownValue::LengthDelimited(v) => UnknownValueModel::LengthDelimited(v@),
        }
    }
}

impl View for UnknownField {
    type V = UnknownFieldModel;

    open spec fn view(&self) -> UnknownFieldModel {
        UnknownFieldModel { number: self.number, value: self.value@ }
    }
}

/// The largest number that a field can have.
pub const FIELD_NUMBER_MAX: u32 = 0x1fff_ffff;

/// The varint read so far, with the byte at `index` taken in. Bits that do not fit into
/// 64 are dropped.
pub open spec fn fold(acc: u64, byte: u8, index: int) -> u64 {
    acc | (((byte & 0x7f) as u64) << ((7 * index) as u64))
}

/// The varint at the front of `input`, read from the byte at `index` on, with `acc` read
/// so far: its value, and the number of bytes that it takes.
pub open spec fn varint_from(input: Seq<u8>, index: int, acc: u64) -> Result<
    (u64, int),
    WireError,
>
    decreases 10 - index,
{
    if index < 0 || index >= 10 {
        Err(WireError::IncorrectVarint)
    } else if index >= input.len() {
        Err(WireError::UnexpectedEof)
    } else if input[index] < 0x80 {
        Ok((fold(acc, input[index], index), index + 1))
    } else {
        varint_from(input, index + 1, fold(acc, input[index], index))
    }
}

/// The varint at the front of `input`: its value, and the number of bytes that it takes.
pub open spec fn varint(input: Seq<u8>) -> Result<(u64, int), WireError> {
    varint_from(input, 0, 0)
}

/// The lower 32 bits of a varint.
pub open spec fn low32(value: u64) -> u32 {
    (value % 0x1_0000_0000) as u32
}

/// The form of value that a code stands for.
pub open spec fn wire_type_of(code: u32) -> Option<WireType> {
    if code == 0 {
        Some(WireType::Varint)
    } else if code == 1 {
        Some(WireType::Fixed64)
    } else if code == 2 {
        Some(WireType::LengthDelimited)
    } else if code == 3 {
        Some(WireType::StartGroup)
    } else if code == 4 {
        Some(WireType::EndGroup)
    } else if code == 5 {
        Some(WireType::Fixed32)
    } else {
        None
    }
}

/// The code of a form of value.
pub open spec fn wire_type_code(wire_type: WireType) -> u32 {
    match wire_type {
        WireType::Varint => 0,
        WireType::Fixed64 => 1,
        WireType::LengthDelimited => 2,
        WireType::StartGroup => 3,
        WireType::EndGroup => 4,
        WireType::Fixed32 => 5,
    }
}

/// What a tag of this value names: a field's number and the form of its value.
pub open spec fn unpacked(tag: u32) -> Result<(u32, WireType), WireError> {
    match wire_type_of(tag % 8) {
        None => Err(WireError::IncorrectTag(tag)),
        Some(wire_type) => if tag / 8 == 0 {
            Err(WireError::IncorrectTag(tag))
        } else {
            Ok((tag / 8, wire_type))
        },
    }
}

/// The tag at the front of `input`: the field's number, the form of its value, and the
/// number of bytes that the tag takes.
pub open spec fn tag(input: Seq<u8>) -> Result<(u32, WireType, int), WireError> {
    match varint(input) {
        Err(e) => Err(e),
        Ok((value, used)) => match unpacked(low32(value)) {
            Err(e) => Err(e),
            Ok((number, wire_type)) => Ok((number, wire_type, used)),
        },
    }
}

/// The bytes behind a length at the front of `input`, and the number of bytes that length
/// and bytes take together.
pub open spec fn delimited(input: Seq<u8>) -> Result<(Seq<u8>, int), WireError> {
    match varint(input) {
        Err(e) => Err(e),
        Ok((value, used)) => if used + low32(value) <= input.len() {
            Ok((input.subrange(used, used + low32(value)), used + low32(value)))
        } else {
            Err(WireError::UnexpectedEof)
        },
    }
}

/// The value of the given form at the front of `input`, and the number of bytes that it
/// takes. A group is no value.
pub open spec fn unknown_value(wire_type: WireType, input: Seq<u8>) -> Result<
    (UnknownValueModel, int),
    WireError,
> {
    match wire_type {
        WireType::Varint => match varint(input) {
            Err(e) => Err(e),
            Ok((value, used)) => Ok((UnknownValueModel::Varint(value), used)),
        },
        WireType::Fixed64 => if input.len() < 8 {
            Err(WireError::UnexpectedEof)
        } else {
            Ok((UnknownValueModel::Fixed64(spec_u64_from_le_bytes(input.subrange(0, 8))), 8))
        },
        WireType::Fixed32 => if input.len() < 4 {
            Err(WireError::UnexpectedEof)
        } else {
            Ok((UnknownValueModel::Fixed32(spec_u32_from_le_bytes(input.subrange(0, 4))), 4))
        },
        WireType::LengthDelimited => match delimited(input) {
            Err(e) => Err(e),
            Ok((bytes, used)) => Ok((UnknownValueModel::LengthDelimited(bytes), used)),
        },
        _ => Err(WireError::UnexpectedWireType(wire_type)),
    }
}

/// The number of bytes that the rest of a group takes, the end tag included. `input`
/// starts behind the group's start tag. The fields of a group are passed over; a group
/// within a group is not accepted.
pub open spec fn group_length(input: Seq<u8>) -> Result<int, WireError>
    decreases input.len(),
{
    match tag(input) {
        Err(e) => Err(e),
        Ok((number, wire_type, used)) => if wire_type == WireType::EndGroup {
            Ok(used)
        } else {
            match unknown_value(wire_type, input.skip(used)) {
                Err(e) => Err(e),
                Ok((value, length)) => if used <= 0 || length < 0 || used + length > input.len() {
                    Err(WireError::UnexpectedEof)
                } else {
                    match group_length(input.skip(used + length)) {
                        Err(e) => Err(e),
                        Ok(rest) => Ok(used + length + rest),
                    }
                },
            }
        },
    }
}

/// What a field that a message does not name comes to, behind its tag: the field to
/// keep, if there is one, and the number of bytes that it takes. A group is passed over
/// and not kept.
pub open spec fn unknown_field(number: u32, wire_type: WireType, input: Seq<u8>) -> Result<
    (Option<UnknownFieldModel>, int),
    WireError,
> {
    if wire_type == WireType::StartGroup {
        match group_length(input) {
            Err(e) => Err(e),
            Ok(used) => Ok((None, used)),
        }
    } else {
        match unknown_value(wire_type, input) {
            Err(e) => Err(e),
            Ok((value, used)) => Ok(
                (Some(UnknownFieldModel { number: number, value: value }), used),
            ),
        }
    }
}

/// The bytes of a varint, as short as the value allows.
pub open spec fn varint_bytes(value: nat) -> Seq<u8>
    decreases value,
{
    if value < 0x80 {
        seq![value as u8]
    } else {
        seq![(value % 0x80 + 0x80) as u8] + varint_bytes(value / 0x80)
    }
}

/// The bytes of the tag of a field.
pub open spec fn tag_bytes(number: u32, wire_type: WireType) -> Seq<u8> {
    varint_bytes((number * 8 + wire_type_code(wire_type)) as nat)
}

/// The bytes of a length and the bytes that it counts.
pub open spec fn delimited_bytes(bytes: Seq<u8>) -> Seq<u8> {
    varint_bytes(bytes.len()) + bytes
}

/// The bytes of a field that holds bytes.
pub open spec fn bytes_field(number: u32, bytes: Seq<u8>) -> Seq<u8> {
    tag_bytes(number, WireType::LengthDelimited) + delimited_bytes(bytes)
}

/// The bytes of a field that a message does not name.
pub open spec fn unknown_field_bytes(field: UnknownFieldModel) -> Seq<u8> {
    match field.value {
        UnknownValueModel::Fixed32(v) => tag_bytes(field.number, WireType::Fixed32)
            + spec_u32_to_le_bytes(v),
        UnknownValueModel::Fixed64(v) => tag_bytes(field.number, WireType::Fixed64)
            + spec_u64_to_le_bytes(v),
        UnknownValueModel::Varint(v) => tag_bytes(field.number, WireType::Varint) + varint_bytes(
            v as nat,
        ),
        UnknownValueModel::LengthDelimited(v) => bytes_field(field.number, v),
    }
}

/// Whether a field can be written: its number is a field's number, and its bytes can be
/// counted in 32 bits.
pub open spec fn writable(field: UnknownFieldModel) -> bool {
    &&& 1 <= field.number <= FIELD_NUMBER_MAX
    &&& match field.value {
        UnknownValueModel::LengthDelimited(v) => v.len() <= u32::MAX,
        _ => true,
    }
}

/// The form in which the value of a field is written.
pub open spec fn field_wire_type(field: UnknownFieldModel) -> WireType {
    match field.value {
        UnknownValueModel::Fixed32(_) => WireType::Fixed32,
        UnknownValueModel::Fixed64(_) => WireType::Fixed64,
        UnknownValueModel::Varint(_) => WireType::Varint,
        UnknownValueModel::LengthDelimited(_) => WireType::LengthDelimited,
    }
}

/// The number of bytes that the tag of a field takes.
pub open spec fn field_tag_length(field: UnknownFieldModel) -> int {
    tag_bytes(field.number, field_wire_type(field)).len() as int
}

/// How many values a varint can take that starts at the byte with this index and ends
/// within ten bytes.
pub open spec fn capacity(index: int) -> nat
    decreases 10 - index,
{
    if index >= 10 {
        1
    } else {
        128 * capacity(index + 1)
    }
}

/// Reading the written form of a varint behind `prefix` takes the value in above what was
/// read before.
proof fn lemma_varint_from(prefix: Seq<u8>, value: u64, rest: Seq<u8>, acc: u64)
    requires
        prefix.len() < 10,
        value < capacity(prefix.len() as int),
    ensures
        varint_from(
            prefix + varint_bytes(value as nat) + rest,
            prefix.len() as int,
            acc,
        ) == Ok::<(u64, int), WireError>(
            (
                acc | (value << ((7 * prefix.len()) as u64)),
                (prefix.len() + varint_bytes(value as nat).len()) as int,
            ),
        ),
    decreases value,
{
    let index = prefix.len() as int;
    let shift = (7 * index) as u64;
    let input = prefix + varint_bytes(value as nat) + rest;
    assert(input[index] == varint_bytes(value as nat)[0]);
    if value < 0x80 {
        let byte = value as u8;
        assert(((byte & 0x7f) as u64) == value) by (bit_vector)
            requires
                value < 0x80,
                byte == value as u8,
        ;
    } else {
        let byte = (value % 0x80 + 0x80) as u8;
        assert(byte >= 0x80 && ((byte & 0x7f) as u64) == value % 0x80) by (bit_vector)
            requires
                byte == (value % 0x80 + 0x80) as u8,
        ;
        reveal_with_fuel(capacity, 2);
        assert(index <= 8);
        let low = value % 0x80;
        let high = value / 0x80;
        assert((low << shift) | (high << ((shift + 7) as u64)) == value << shift) by (bit_vector)
            requires
                shift <= 56,
                low == value % 0x80,
                high == value / 0x80,
        ;
        let next = prefix.push(byte);
        assert(next + varint_bytes(high as nat) + rest =~= input);
        lemma_varint_from(next, high, rest, fold(acc, byte, index));
        assert(acc | (low << shift) | (high << ((shift + 7) as u64)) == acc | ((low << shift) | (
            high << ((shift + 7) as u64)))) by (bit_vector);
    }
}

/// A varint that was written reads back as its value, and leaves what followed.
pub proof fn lemma_varint_round_trip(value: u64, rest: Seq<u8>)
    ensures
        varint(varint_bytes(value as nat) + rest) == Ok::<(u64, int), WireError>(
            (value, varint_bytes(value as nat).len() as int),
        ),
        1 <= varint_bytes(value as nat).len() <= 10,
{
    reveal_with_fuel(capacity, 2);
    assert(capacity(10) == 0x1);
    assert(capacity(9) == 0x80);
    assert(capacity(8) == 0x4000);
    assert(capacity(7) == 0x200000);
    assert(capacity(6) == 0x10000000);
    assert(capacity(5) == 0x800000000);
    assert(capacity(4) == 0x40000000000);
    assert(capacity(3) == 0x2000000000000);
    assert(capacity(2) == 0x100000000000000);
    assert(capacity(1) == 0x8000000000000000);
    assert(capacity(0) == 0x400000000000000000);
    lemma_varint_from(Seq::empty(), value, rest, 0);
    assert(Seq::<u8>::empty() + varint_bytes(value as nat) + rest =~= varint_bytes(value as nat)
        + rest);
    assert(0u64 | (value << 0u64) == value) by (bit_vector);
    lemma_varint_length(value as nat, 0);
}

/// A varint below the capacity at an index is written with no more bytes than are left
/// from that index on.
proof fn lemma_varint_length(value: nat, index: int)
    requires
        0 <= index < 10,
        value < capacity(index),
    ensures
        1 <= varint_bytes(value).len() <= 10 - index,
    decreases value,
{
    reveal_with_fuel(capacity, 2);
    if value >= 0x80 {
        lemma_varint_length(value / 0x80, index + 1);
    }
}

/// A tag that was written reads back as the field's number and the form of its value.
pub proof fn lemma_tag_round_trip(number: u32, wire_type: WireType, rest: Seq<u8>)
    requires
        1 <= number <= FIELD_NUMBER_MAX,
    ensures
        tag(tag_bytes(number, wire_type) + rest) == Ok::<(u32, WireType, int), WireError>(
            (number, wire_type, tag_bytes(number, wire_type).len() as int),
        ),
        1 <= tag_bytes(number, wire_type).len(),
{
    let value: u64 = (number * 8 + wire_type_code(wire_type)) as u64;
    lemma_varint_round_trip(value, rest);
    assert(low32(value) == value);
    assert(low32(value) % 8 == wire_type_code(wire_type));
    assert(low32(value) / 8 == number);
}

/// Bytes that were written behind their length read back, and leave what followed.
pub proof fn lemma_delimited_round_trip(bytes: Seq<u8>, rest: Seq<u8>)
    requires
        bytes.len() <= u32::MAX,
    ensures
        delimited(delimited_bytes(bytes) + rest) == Ok::<(Seq<u8>, int), WireError>(
            (bytes, delimited_bytes(bytes).len() as int),
        ),
{
    let length = bytes.len() as u64;
    lemma_varint_round_trip(length, bytes + rest);
    let used = varint_bytes(bytes.len()).len() as int;
    let input = delimited_bytes(bytes) + rest;
    assert(input =~= varint_bytes(bytes.len()) + (bytes + rest));
    assert(low32(length) == bytes.len());
    assert(input.subrange(used, used + bytes.len()) =~= bytes);
}

/// A field that was written reads back behind its tag, and leaves what followed.
pub proof fn lemma_unknown_round_trip(field: UnknownFieldModel, rest: Seq<u8>)
    requires
        writable(field),
    ensures
        tag(unknown_field_bytes(field) + rest) == Ok::<(u32, WireType, int), WireError>(
            (field.number, field_wire_type(field), field_tag_length(field)),
        ),
        unknown_field(
            field.number,
            field_wire_type(field),
            (unknown_field_bytes(field) + rest).skip(field_tag_length(field)),
        ) == Ok::<(Option<UnknownFieldModel>, int), WireError>(
            (Some(field), unknown_field_bytes(field).len() - field_tag_length(field)),
        ),
        1 <= field_tag_length(field) < unknown_field_bytes(field).len(),
        (unknown_field_bytes(field) + rest).skip(unknown_field_bytes(field).len() as int) == rest,
{
    let wire_type = field_wire_type(field);
    let head = tag_bytes(field.number, wire_type);
    let whole = unknown_field_bytes(field) + rest;
    let body = unknown_field_bytes(field).skip(head.len() as int);
    assert(unknown_field_bytes(field) =~= head + body);
    assert(whole =~= head + (body + rest));
    lemma_tag_round_trip(field.number, wire_type, body + rest);
    assert(whole.skip(head.len() as int) =~= body + rest);
    assert(whole.skip(unknown_field_bytes(field).len() as int) =~= rest);
    match field.value {
        UnknownValueModel::Fixed32(v) => {
            lemma_auto_spec_u32_to_from_le_bytes();
            assert(body =~= spec_u32_to_le_bytes(v));
            assert((body + rest).subrange(0, 4) =~= spec_u32_to_le_bytes(v));
        },
        UnknownValueModel::Fixed64(v) => {
            lemma_auto_spec_u64_to_from_le_bytes();
            assert(body =~= spec_u64_to_le_bytes(v));
            assert((body + rest).subrange(0, 8) =~= spec_u64_to_le_bytes(v));
        },
        UnknownValueModel::Varint(v) => {
            assert(body =~= varint_bytes(v as nat));
            lemma_varint_round_trip(v, rest);
        },
        UnknownValueModel::LengthDelimited(v) => {
            assert(body =~= delimited_bytes(v));
            lemma_delimited_round_trip(v, rest);
        },
    }
}

/// Reads a varint from the front of `input`: its value, and the number of bytes taken.
pub fn read_varint(input: &[u8]) -> (r: Result<(u64, usize), WireError>)
    ensures
        match r {
            Ok((value, used)) => varint(input@) == Ok::<(u64, int), WireError>(
                (value, used as int),
            ) && 1 <= used <= 10 && used <= input@.len(),
            Err(e) => varint(input@) == Err::<(u64, int), WireError>(e),
        },
{
    let mut acc: u64 = 0;
    let mut index: usize = 0;
    loop
        invariant
            index <= 10,
            index <= input@.len(),
            varint(input@) == varint_from(input@, index as int, acc),
        decreases 10 - index,
    {
        if index >= 10 {
            return Err(WireError::IncorrectVarint);
        }
        if index >= input.len() {
            return Err(WireError::UnexpectedEof);
        }
        let byte: u8 = input[index];
        let shift: u64 = 7 * (index as u64);
        acc = acc | (((byte & 0x7f) as u64) << shift);
        index = index + 1;
        if byte < 0x80 {
            return Ok((acc, index));
        }
    }
}

/// Reads a tag from the front of `input`: the field's number, the form of its value, and
/// the number of bytes taken.
pub fn read_tag(input: &[u8]) -> (r: Result<(u32, WireType, usize), WireError>)
    ensures
        match r {
            Ok((number, wire_type, used)) => tag(input@) == Ok::<
                (u32, WireType, int),
                WireError,
            >((number, wire_type, used as int)) && 1 <= used <= input@.len() && number >= 1,
            Err(e) => tag(input@) == Err::<(u32, WireType, int), WireError>(e),
        },
{
    let (value, used) = match read_varint(input) {
        Ok(read) => read,
        Err(e) => { return Err(e); },
    };
    let tag: u32 = (value % 0x1_0000_0000) as u32;
    let code: u32 = tag % 8;
    let wire_type: WireType = if code == 0 {
        WireType::Varint
    } else if code == 1 {
        WireType::Fixed64
    } else if code == 2 {
        WireType::LengthDelimited
    } else if code == 3 {
        WireType::StartGroup
    } else if code == 4 {
        WireType::EndGroup
    } else if code == 5 {
        WireType::Fixed32
    } else {
        return Err(WireError::IncorrectTag(tag));
    };
    if tag / 8 == 0 {
        return Err(WireError::IncorrectTag(tag));
    }
    Ok((tag / 8, wire_type, used))
}

/// Reads a length and that many bytes from the front of `input`: the bytes, and the
/// number of bytes taken in all.
pub fn read_delimited<'a>(input: &'a [u8]) -> (r: Result<(&'a [u8], usize), WireError>)
    ensures
        match r {
            Ok((bytes, used)) => delimited(input@) == Ok::<(Seq<u8>, int), WireError>(
                (bytes@, used as int),
            ) && 1 <= used <= input@.len(),
            Err(e) => delimited(input@) == Err::<(Seq<u8>, int), WireError>(e),
        },
{
    let (value, used) = match read_varint(input) {
        Ok(read) => read,
        Err(e) => { return Err(e); },
    };
    let length: u32 = (value % 0x1_0000_0000) as u32;
    if input.len() - used < length as usize {
        return Err(WireError::UnexpectedEof);
    }
    let end: usize = used + length as usize;
    Ok((&input[used..end], end))
}

/// Reads a value of the given form from the front of `input`: the value, and the number
/// of bytes taken.
pub fn read_unknown(wire_type: WireType, input: &[u8]) -> (r: Result<
    (UnknownValue, usize),
    WireError,
>)
    ensures
        match r {
            Ok((value, used)) => unknown_value(wire_type, input@) == Ok::<
                (UnknownValueModel, int),
                WireError,
            >((value@, used as int)) && 1 <= used <= input@.len(),
            Err(e) => unknown_value(wire_type, input@) == Err::<
                (UnknownValueModel, int),
                WireError,
            >(e),
        },
{
    match wire_type {
        WireType::Varint => match read_varint(input) {
            Ok((value, used)) => Ok((UnknownValue::Varint(value), used)),
            Err(e) => Err(e),
        },
        WireType::Fixed64 => {
            if input.len() < 8 {
                return Err(WireError::UnexpectedEof);
            }
            Ok((UnknownValue::Fixed64(u64_from_le_bytes(&input[0..8])), 8))
        },
        WireType::Fixed32 => {
            if input.len() < 4 {
                return Err(WireError::UnexpectedEof);
            }
            Ok((UnknownValue::Fixed32(u32_from_le_bytes(&input[0..4])), 4))
        },
        WireType::LengthDelimited => match read_delimited(input) {
            Ok((bytes, used)) => Ok((UnknownValue::LengthDelimited(slice_to_vec(bytes)), used)),
            Err(e) => Err(e),
        },
        _ => Err(WireError::UnexpectedWireType(wire_type)),
    }
}

/// Passes over the rest of a group, from behind its start tag to its end tag: the number
/// of bytes taken.
pub fn skip_group(input: &[u8]) -> (r: Result<usize, WireError>)
    ensures
        match r {
            Ok(used) => group_length(input@) == Ok::<int, WireError>(used as int) && 1 <= used
                <= input@.len(),
            Err(e) => group_length(input@) == Err::<int, WireError>(e),
        },
{
    let mut position: usize = 0;
    assert(input@.skip(0) =~= input@);
    loop
        invariant
            position <= input@.len(),
            match group_length(input@.skip(position as int)) {
                Ok(rest) => group_length(input@) == Ok::<int, WireError>(position + rest),
                Err(e) => group_length(input@) == Err::<int, WireError>(e),
            },
        decreases input@.len() - position,
    {
        let rest: &[u8] = &input[position..input.len()];
        assert(rest@ == input@.skip(position as int));
        let (number, wire_type, used) = match read_tag(rest) {
            Ok(read) => read,
            Err(e) => { return Err(e); },
        };
        if wire_type == WireType::EndGroup {
            return Ok(position + used);
        }
        let value_input: &[u8] = &rest[used..rest.len()];
        assert(value_input@ == rest@.skip(used as int));
        let length: usize = match read_unknown(wire_type, value_input) {
            Ok((value, length)) => length,
            Err(e) => { return Err(e); },
        };
        assert(rest@.skip(used + length) == input@.skip(position + used + length));
        position = position + used + length;
    }
}

/// Reads a field that a message does not name, from behind its tag: the field to keep,
/// if there is one, and the number of bytes taken.
pub fn read_unknown_or_skip_group(number: u32, wire_type: WireType, input: &[u8]) -> (r: Result<
    (Option<UnknownField>, usize),
    WireError,
>)
    ensures
        match r {
            Ok((Some(field), used)) => unknown_field(number, wire_type, input@) == Ok::<
                (Option<UnknownFieldModel>, int),
                WireError,
            >((Some(field@), used as int)) && 1 <= used <= input@.len(),
            Ok((None, used)) => unknown_field(number, wire_type, input@) == Ok::<
                (Option<UnknownFieldModel>, int),
                WireError,
            >((None, used as int)) && 1 <= used <= input@.len(),
            Err(e) => unknown_field(number, wire_type, input@) == Err::<
                (Option<UnknownFieldModel>, int),
                WireError,
            >(e),
        },
{
    if wire_type == WireType::StartGroup {
        match skip_group(input) {
            Ok(used) => Ok((None, used)),
            Err(e) => Err(e),
        }
    } else {
        match read_unknown(wire_type, input) {
            Ok((value, used)) => Ok((Some(UnknownField { number, value }), used)),
            Err(e) => Err(e),
        }
    }
}

/// Appends the bytes of a varint to `out`.
pub fn write_varint(out: &mut Vec<u8>, value: u64)
    ensures
        final(out)@ == old(out)@ + varint_bytes(value as nat),
{
    let mut rest: u64 = value;
    let ghost before = out@;
    while rest >= 0x80
        invariant
            before + varint_bytes(value as nat) == out@ + varint_bytes(rest as nat),
        decreases rest,
    {
        out.push((rest % 0x80 + 0x80) as u8);
        assert(out@ + varint_bytes((rest / 0x80) as nat) =~= out@.drop_last() + (seq![
            (rest % 0x80 + 0x80) as u8,
        ] + varint_bytes((rest / 0x80) as nat)));
        rest = rest / 0x80;
    }
    out.push(rest as u8);
    assert(out@ =~= out@.drop_last() + varint_bytes(rest as nat));
}

/// The number of bytes that a varint takes when it is written.
pub fn varint_size(value: u64) -> (size: usize)
    ensures
        size == varint_bytes(value as nat).len(),
        1 <= size <= 10,
{
    proof {
        lemma_varint_round_trip(value, Seq::empty());
    }
    let mut rest: u64 = value;
    let mut size: usize = 1;
    while rest >= 0x80
        invariant
            1 <= size,
            size - 1 + varint_bytes(rest as nat).len() == varint_bytes(value as nat).len(),
            varint_bytes(value as nat).len() <= 10,
        decreases rest,
    {
        assert(varint_bytes((rest / 0x80) as nat).len() >= 1);
        rest = rest / 0x80;
        size = size + 1;
    }
    size
}

/// The number of bytes that a field takes that holds `length` bytes.
pub fn bytes_field_size(number: u32, length: usize) -> (size: u128)
    ensures
        forall|bytes: Seq<u8>| bytes.len() == length ==> size == (#[trigger] bytes_field(
            number,
            bytes,
        )).len(),
        size <= length + 20,
{
    let tag = varint_size((number as u64) * 8 + 2);
    let prefix = varint_size(length as u64);
    (tag as u128) + (prefix as u128) + (length as u128)
}

/// The number of bytes that a field takes that a message does not name.
pub fn unknown_field_size(field: &UnknownField) -> (size: u128)
    ensures
        size == unknown_field_bytes(field@).len(),
        size <= usize::MAX + 20,
{
    proof {
        lemma_auto_spec_u32_to_from_le_bytes();
        lemma_auto_spec_u64_to_from_le_bytes();
    }
    match &field.value {
        UnknownValue::Fixed32(v) => {
            (varint_size((field.number as u64) * 8 + 5) as u128) + 4
        },
        UnknownValue::Fixed64(v) => {
            (varint_size((field.number as u64) * 8 + 1) as u128) + 8
        },
        UnknownValue::Varint(v) => {
            (varint_size((field.number as u64) * 8) as u128) + (varint_size(*v) as u128)
        },
        UnknownValue::LengthDelimited(v) => bytes_field_size(field.number, v.len()),
    }
}

/// The code of a form of value.
fn code_of(wire_type: WireType) -> (code: u64)
    ensures
        code == wire_type_code(wire_type),
{
    match wire_type {
        WireType::Varint => 0,
        WireType::Fixed64 => 1,
        WireType::LengthDelimited => 2,
        WireType::StartGroup => 3,
        WireType::EndGroup => 4,
        WireType::Fixed32 => 5,
    }
}

/// Appends the tag of a field to `out`.
pub fn write_tag(out: &mut Vec<u8>, number: u32, wire_type: WireType)
    ensures
        final(out)@ == old(out)@ + tag_bytes(number, wire_type),
{
    write_varint(out, (number as u64) * 8 + code_of(wire_type));
}

/// Appends a field that holds bytes to `out`.
pub fn write_bytes_field(out: &mut Vec<u8>, number: u32, bytes: &[u8])
    ensures
        final(out)@ == old(out)@ + bytes_field(number, bytes@),
{
    let ghost before = out@;
    write_tag(out, number, WireType::LengthDelimited);
    write_varint(out, bytes.len() as u64);
    out.extend_from_slice(bytes);
    assert(out@ =~= before + bytes_field(number, bytes@));
}

/// Appends a field that a message does not name to `out`.
pub fn write_unknown(out: &mut Vec<u8>, field: &UnknownField)
    ensures
        final(out)@ == old(out)@ + unknown_field_bytes(field@),
{
    let ghost before = out@;
    match &field.value {
        UnknownValue::Fixed32(v) => {
            write_tag(out, field.number, WireType::Fixed32);
            let bytes = u32_to_le_bytes(*v);
            out.extend_from_slice(bytes.as_slice());
        },
        UnknownValue::Fixed64(v) => {
            write_tag(out, field.number, WireType::Fixed64);
            let bytes = u64_to_le_bytes(*v);
            out.extend_from_slice(bytes.as_slice());
        },
        UnknownValue::Varint(v) => {
            write_tag(out, field.number, WireType::Varint);
            write_varint(out, *v);
        },
        UnknownValue::LengthDelimited(v) => {
            write_bytes_field(out, field.number, v.as_slice());
        },
    }
    assert(out@ =~= before + unknown_field_bytes(field@));
}

} // verus!
