//! A strict reader and writer for the DER elements that the identity binding is made of.
//!
//! Only the subset needed for the binding is understood: a one-byte tag in low-tag-number
//! form, a definite length of at most `MAX_CONTENT_LENGTH` in its shortest encoding, and the
//! content. Every input has at most one reading, and the writer produces exactly the inputs
//! that the reader accepts.

use vstd::prelude::*;

verus! {

/// Tag of a BIT STRING.
pub const TAG_BIT_STRING: u8 = 0x03;

/// Tag of a SEQUENCE.
pub const TAG_SEQUENCE: u8 = 0x30;

/// The longest content an element may carry.
pub const MAX_CONTENT_LENGTH: usize = 0xFFFF;

/// What an element read from the front of an input is, as mathematical values.
pub struct ElementModel {
    pub tag: u8,
    pub content: Seq<u8>,
    pub rest: Seq<u8>,
}

/// An element read from the front of an input, borrowing from it.
pub struct Element<'a> {
    /// The tag byte.
    pub tag: u8,
    /// The content bytes.
    pub content: &'a [u8],
    /// The input that follows the element.
    pub rest: &'a [u8],
}

impl<'a> View for Element<'a> {
    type V = ElementModel;

    open spec fn view(&self) -> ElementModel {
        ElementModel { tag: self.tag, content: self.content@, rest: self.rest@ }
    }
}

/// Whether `tag` announces the high-tag-number form, which is not accepted.
pub open spec fn high_tag_form(tag: u8) -> bool {
    tag & 0x1f == 0x1f
}

/// The sizes that the header at the front of `input` announces: the number of header bytes
/// (tag and length field) and the number of content bytes. `None` where the header is cut
/// short, uses the high-tag-number form, a length field of more than two bytes, the
/// indefinite form, or a length field longer than the length needs.
pub open spec fn header(input: Seq<u8>) -> Option<(int, int)> {
    if input.len() < 2 || high_tag_form(input[0]) {
        None
    } else if input[1] < 0x80 {
        Some((2, input[1] as int))
    } else if input[1] == 0x81 {
        if input.len() >= 3 && input[2] >= 0x80 {
            Some((3, input[2] as int))
        } else {
            None
        }
    } else if input[1] == 0x82 {
        if input.len() >= 4 && input[2] != 0 {
            Some((4, input[2] * 256 + input[3]))
        } else {
            None
        }
    } else {
        None
    }
}

/// The element at the front of `input`, if there is one.
pub open spec fn element(input: Seq<u8>) -> Option<ElementModel> {
    match header(input) {
        Some((h, n)) => if h + n <= input.len() {
            Some(
                ElementModel {
                    tag: input[0],
                    content: input.subrange(h, h + n),
                    rest: input.subrange(h + n, input.len() as int),
                },
            )
        } else {
            None
        },
        None => None,
    }
}

/// The content of the element that makes up all of `input` and carries `tag`.
pub open spec fn sole_element(input: Seq<u8>, tag: u8) -> Option<Seq<u8>> {
    match element(input) {
        Some(e) => if e.tag == tag && e.rest.len() == 0 {
            Some(e.content)
        } else {
            None
        },
        None => None,
    }
}

/// The shortest length field for `n` content bytes, `0 <= n <= MAX_CONTENT_LENGTH`.
pub open spec fn length_octets(n: int) -> Seq<u8> {
    if n < 0x80 {
        seq![n as u8]
    } else if n < 0x100 {
        seq![0x81u8, n as u8]
    } else {
        seq![0x82u8, (n / 256) as u8, (n % 256) as u8]
    }
}

/// Whether an element with this tag and content can be written.
pub open spec fn encodable(tag: u8, content: Seq<u8>) -> bool {
    !high_tag_form(tag) && content.len() <= MAX_CONTENT_LENGTH
}

/// The bytes of the element with this tag and content.
pub open spec fn encoding(tag: u8, content: Seq<u8>) -> Seq<u8> {
    seq![tag] + length_octets(content.len() as int) + content
}

/// Reading what was written gives back the tag and the content, and leaves what followed.
pub proof fn lemma_element_of_encoding(tag: u8, content: Seq<u8>, rest: Seq<u8>)
    requires
        encodable(tag, content),
    ensures
        element(encoding(tag, content) + rest) == Some(
            ElementModel { tag: tag, content: content, rest: rest },
        ),
{
    let n = content.len() as int;
    let input = encoding(tag, content) + rest;
    let lo = length_octets(n);
    assert(input[0] == tag);
    assert(input[1] == lo[0]);
    if n < 0x80 {
        assert(header(input) == Some((2int, n)));
    } else if n < 0x100 {
        assert(input[2] == lo[1]);
        assert(header(input) == Some((3int, n)));
    } else {
        assert(input[2] == lo[1]);
        assert(input[3] == lo[2]);
        assert(header(input) == Some((4int, n)));
    }
    let h: int = 1 + lo.len() as int;
    assert(input.subrange(h, h + n) =~= content);
    assert(input.subrange(h + n, input.len() as int) =~= rest);
}

/// An input that reads as an element is the written form of that element followed by the
/// rest: no second spelling of an element is accepted.
pub proof fn lemma_encoding_of_element(input: Seq<u8>)
    requires
        element(input).is_some(),
    ensures
        encodable(element(input).unwrap().tag, element(input).unwrap().content),
        input == encoding(element(input).unwrap().tag, element(input).unwrap().content)
            + element(input).unwrap().rest,
{
    let e = element(input).unwrap();
    let n = e.content.len() as int;
    assert(input =~= encoding(e.tag, e.content) + e.rest);
}

/// Reads the element at the front of `input`.
pub fn read_element<'a>(input: &'a [u8]) -> (r: Option<Element<'a>>)
    ensures
        match r {
            Some(e) => element(input@) == Some(e@),
            None => element(input@).is_none(),
        },
{
    if input.len() < 2 {
        return None;
    }
    let tag: u8 = input[0];
    if tag & 0x1f == 0x1f {
        return None;
    }
    let first: u8 = input[1];
    let header_length: usize;
    let content_length: usize;
    if first < 0x80 {
        header_length = 2;
        content_length = first as usize;
    } else if first == 0x81 {
        if input.len() < 3 || input[2] < 0x80 {
            return None;
        }
        header_length = 3;
        content_length = input[2] as usize;
    } else if first == 0x82 {
        if input.len() < 4 || input[2] == 0 {
            return None;
        }
        header_length = 4;
        content_length = (input[2] as usize) * 256 + (input[3] as usize);
    } else {
        return None;
    }
    if input.len() - header_length < content_length {
        return None;
    }
    let end: usize = header_length + content_length;
    let content: &[u8] = &input[header_length..end];
    let rest: &[u8] = &input[end..input.len()];
    Some(Element { tag, content, rest })
}

/// Reads an element that must carry `tag` and make up all of `input`; gives its content.
pub fn read_sole_element<'a>(input: &'a [u8], tag: u8) -> (r: Option<&'a [u8]>)
    ensures
        match r {
            Some(content) => sole_element(input@, tag) == Some(content@),
            None => sole_element(input@, tag).is_none(),
        },
{
    match read_element(input) {
        Some(e) => {
            if e.tag == tag && e.rest.len() == 0 {
                Some(e.content)
            } else {
                None
            }
        },
        None => None,
    }
}

/// Appends the element with this tag and content to `out`. Where the element cannot be
/// written (see `encodable`) nothing is appended and `false` is returned.
pub fn write_element(out: &mut Vec<u8>, tag: u8, content: &[u8]) -> (written: bool)
    ensures
        written == encodable(tag, content@),
        written ==> final(out)@ == old(out)@ + encoding(tag, content@),
        !written ==> final(out)@ == old(out)@,
{
    let n: usize = content.len();
    if tag & 0x1f == 0x1f || n > MAX_CONTENT_LENGTH {
        return false;
    }
    let ghost before = out@;
    out.push(tag);
    if n < 0x80 {
        out.push(n as u8);
    } else if n < 0x100 {
        out.push(0x81);
        out.push(n as u8);
    } else {
        out.push(0x82);
        out.push((n / 256) as u8);
        out.push((n % 256) as u8);
    }
    out.extend_from_slice(content);
    assert(out@ =~= before + encoding(tag, content@));
    true
}

} // verus!
