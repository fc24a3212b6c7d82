//! Tensors of strings: how they are checked, and how their bytes are read.
use vstd::prelude::*;

use crate::error::{fail, Error, Fault};
use crate::shape::copy_dims;
use crate::tensor::buffer::validate_shape_len;
use crate::text::{contains_nul, utf8_text};

verus! {

/// Where string `i` ends: at the next one, or at the end of the data.
pub open spec fn string_end(offsets: Seq<usize>, total: int, i: int) -> int {
    if i + 1 < offsets.len() {
        offsets[i + 1] as int
    } else {
        total
    }
}

/// Why one of the first `n` strings cannot be read: the first reason.
pub open spec fn strings_fault(bytes: Seq<u8>, offsets: Seq<usize>, n: int) -> Option<Error>
    decreases n,
{
    if n <= 0 {
        None
    } else {
        match strings_fault(bytes, offsets, n - 1) {
            Some(error) => Some(error),
            None => {
                let start = offsets[n - 1] as int;
                let end = string_end(offsets, bytes.len() as int, n - 1);
                if start > end || end > bytes.len() {
                    Some(Error::StringOffsets { index: (n - 1) as usize })
                } else if !vstd::utf8::valid_utf8(bytes.subrange(start, end)) {
                    Some(Error::Fault(Fault::StringDataNotUtf8))
                } else {
                    None
                }
            },
        }
    }
}

proof fn lemma_strings_fault_first(bytes: Seq<u8>, offsets: Seq<usize>, n: int, m: int)
    requires
        0 <= n <= m,
        strings_fault(bytes, offsets, n) is Some,
    ensures
        strings_fault(bytes, offsets, m) == strings_fault(bytes, offsets, n),
    decreases m - n,
{
    if n < m {
        lemma_strings_fault_first(bytes, offsets, n, m - 1);
    }
}

/// Read the strings of a tensor from their bytes, laid one after the other, and the offset at
/// which each begins.
pub fn read_string_tensor(bytes: &[u8], offsets: &[usize]) -> (result: Result<Vec<String>, Error>)
    ensures
        match strings_fault(bytes@, offsets@, offsets@.len() as int) {
            Some(error) => result == Err::<Vec<String>, Error>(error),
            None => {
                &&& result matches Ok(strings)
                &&& strings@.len() == offsets@.len()
                &&& forall|i: int|
                    0 <= i < strings@.len() ==> vstd::utf8::encode_utf8((#[trigger] strings@[i])@)
                        == piece(bytes@, offsets@, i)
            },
        },
{
    let total: usize = bytes.len();
    let count: usize = offsets.len();
    let mut strings: Vec<String> = Vec::new();
    let mut i: usize = 0;
    while i < count
        invariant
            i <= count,
            count == offsets@.len(),
            total == bytes@.len(),
            strings@.len() == i,
            strings_fault(bytes@, offsets@, i as int) is None,
            forall|k: int|
                0 <= k < i ==> vstd::utf8::encode_utf8((#[trigger] strings@[k])@)
                    == bytes@.subrange(
                    offsets@[k] as int,
                    string_end(offsets@, bytes@.len() as int, k),
                ),
        decreases count - i,
    {
        let start: usize = offsets[i];
        let end: usize = if i + 1 < count {
            offsets[i + 1]
        } else {
            total
        };
        if start > end || end > total {
            proof {
                lemma_strings_fault_first(bytes@, offsets@, i + 1, count as int);
            }
            return Err(Error::StringOffsets { index: i });
        }
        match utf8_text(vstd::slice::slice_subrange(bytes, start, end)) {
            None => {
                proof {
                    lemma_strings_fault_first(bytes@, offsets@, i + 1, count as int);
                }
                return fail(Fault::StringDataNotUtf8);
            },
            Some(text) => {
                strings.push(text.to_owned());
            },
        }
        i = i + 1;
    }
    Ok(strings)
}

/// A tensor of strings to be passed to a session.
#[derive(Debug)]
pub struct StringTensor {
    strings: Vec<String>,
    dims: Vec<i64>,
}

/// The texts of strings.
pub open spec fn texts(strings: Seq<String>) -> Seq<Seq<char>> {
    Seq::new(strings.len(), |i: int| strings[i]@)
}

/// The texts of borrowed strings.
pub open spec fn borrowed_texts(strings: Seq<&str>) -> Seq<Seq<char>> {
    Seq::new(strings.len(), |i: int| strings[i]@)
}

/// The bytes of texts, one after the other.
pub open spec fn text_bytes(texts: Seq<Seq<char>>) -> Seq<u8>
    decreases texts.len(),
{
    if texts.len() == 0 {
        Seq::empty()
    } else {
        text_bytes(texts.drop_last()) + vstd::utf8::encode_utf8(texts.last())
    }
}

/// Why strings cannot make a tensor: they are handed on as NUL-terminated text.
pub open spec fn string_tensor_fault(texts: Seq<Seq<char>>, shape: Seq<i64>) -> Option<Error> {
    match crate::tensor::buffer::shape_len_fault(shape, texts.len() as int) {
        Some(error) => Some(error),
        None => if exists|i: int|
            0 <= i < texts.len() && crate::text::has_nul(#[trigger] texts[i]) {
            Some(Error::Fault(Fault::StringElementNul))
        } else {
            None
        },
    }
}

impl StringTensor {
    /// The strings.
    pub closed spec fn spec_texts(self) -> Seq<Seq<char>> {
        texts(self.strings@)
    }

    /// The dimensions.
    pub closed spec fn spec_dims(self) -> Seq<i64> {
        self.dims@
    }

    /// Why a tensor of strings is not made: the first fault or refusal. The strings are looked at once
    /// the engine has made the value.
    pub open spec fn refusal(
        texts: Seq<Seq<char>>,
        shape: Seq<i64>,
        created: Result<(), Error>,
        filled: Result<(), Error>,
    ) -> Option<Error> {
        match (crate::tensor::buffer::shape_len_fault(shape, texts.len() as int), created) {
            (Some(error), _) => Some(error),
            (None, Err(error)) => Some(error),
            (None, Ok(())) => match (string_tensor_fault(texts, shape), filled) {
                (Some(error), _) => Some(error),
                (None, Err(error)) => Some(error),
                (None, Ok(())) => None,
            },
        }
    }

    /// A tensor of copies of strings. `created` is the engine's answer to making the value, and `filled`
    /// that to giving it its strings.
    pub fn new(
        strings: &[&str],
        shape: &[i64],
        created: Result<(), Error>,
        filled: Result<(), Error>,
    ) -> (result: Result<StringTensor, Error>)
        ensures
            match Self::refusal(borrowed_texts(strings@), shape@, created, filled) {
                Some(error) => result == Err::<StringTensor, Error>(error),
                None => {
                    &&& result matches Ok(tensor)
                    &&& tensor.spec_texts() == borrowed_texts(strings@)
                    &&& tensor.spec_dims() == shape@
                },
            },
    {
        let ghost all = borrowed_texts(strings@);
        if let Err(error) = validate_shape_len(shape, strings.len()) {
            return Err(error);
        }
        if let Err(error) = created {
            return Err(error);
        }
        let mut copies: Vec<String> = Vec::new();
        let mut i: usize = 0;
        while i < strings.len()
            invariant
                i <= strings@.len(),
                created is Ok,
                all == borrowed_texts(strings@),
                crate::tensor::buffer::shape_len_fault(shape@, all.len() as int) is None,
                copies@.len() == i,
                forall|k: int| 0 <= k < i ==> !crate::text::has_nul(#[trigger] all[k]),
                forall|k: int| 0 <= k < i ==> (#[trigger] copies@[k])@ == all[k],
            decreases strings@.len() - i,
        {
            let string: &str = strings[i];
            if contains_nul(string) {
                assert(crate::text::has_nul(all[i as int]));
                return fail(Fault::StringElementNul);
            }
            copies.push(string.to_owned());
            i = i + 1;
        }
        assert(texts(copies@) =~= all);
        if let Err(error) = filled {
            return Err(error);
        }
        Ok(StringTensor { strings: copies, dims: copy_dims(shape) })
    }

    /// The dimensions.
    pub fn dims(&self) -> (dims: Vec<i64>)
        ensures
            dims@ == self.spec_dims(),
    {
        copy_dims(self.dims.as_slice())
    }

    /// The number of strings.
    pub fn len(&self) -> (len: usize)
        ensures
            len == self.spec_texts().len(),
    {
        self.strings.len()
    }

    /// Whether there is no string.
    pub fn is_empty(&self) -> (empty: bool)
        ensures
            empty == (self.spec_texts().len() == 0),
    {
        self.strings.len() == 0
    }

    /// The bytes of the strings, laid one after the other, and the offset at which each begins.
    pub fn contents(&self) -> (contents: (Vec<u8>, Vec<usize>))
        ensures
            contents.0@ == text_bytes(self.spec_texts()),
            begins(self.spec_texts(), contents.1@),
    {
        let mut bytes: Vec<u8> = Vec::new();
        let mut offsets: Vec<usize> = Vec::new();
        let ghost all = self.spec_texts();
        let mut i: usize = 0;
        assert(all.take(0) =~= Seq::empty());
        assert(bytes@ =~= text_bytes(all.take(0)));
        while i < self.strings.len()
            invariant
                i <= self.strings@.len(),
                all == self.spec_texts(),
                bytes@ == text_bytes(all.take(i as int)),
                offsets@.len() == i,
                forall|k: int|
                    0 <= k < i ==> #[trigger] offsets@[k] == text_bytes(all.take(k)).len(),
            decreases self.strings@.len() - i,
        {
            offsets.push(bytes.len());
            let text: &[u8] = self.strings[i].as_str().as_bytes();
            let ghost before = bytes@;
            let mut k: usize = 0;
            while k < text.len()
                invariant
                    k <= text@.len(),
                    bytes@ == before + text@.take(k as int),
                decreases text@.len() - k,
            {
                bytes.push(text[k]);
                k = k + 1;
                assert(bytes@ =~= before + text@.take(k as int));
            }
            proof {
                assert(text@.take(k as int) =~= text@);
                assert(all.take(i + 1).drop_last() =~= all.take(i as int));
                assert(all.take(i + 1).last() == all[i as int]);
                assert(bytes@ =~= text_bytes(all.take(i + 1)));
            }
            i = i + 1;
        }
        assert(all.take(i as int) =~= all);
        (bytes, offsets)
    }
}

proof fn lemma_text_bytes_split(texts: Seq<Seq<char>>, i: int)
    requires
        0 <= i < texts.len(),
    ensures
        text_bytes(texts.take(i)).len() + vstd::utf8::encode_utf8(texts[i]).len() == text_bytes(
            texts.take(i + 1),
        ).len(),
        text_bytes(texts.take(i + 1)).len() <= text_bytes(texts).len(),
        text_bytes(texts).subrange(
            text_bytes(texts.take(i)).len() as int,
            text_bytes(texts.take(i + 1)).len() as int,
        ) == vstd::utf8::encode_utf8(texts[i]),
    decreases texts.len(),
{
    assert(texts.take(i + 1).drop_last() =~= texts.take(i));
    assert(texts.take(i + 1).last() == texts[i]);
    let shorter = texts.drop_last();
    if i == texts.len() - 1 {
        assert(texts.take(i + 1) =~= texts);
        assert(text_bytes(texts).subrange(
            text_bytes(texts.take(i)).len() as int,
            text_bytes(texts).len() as int,
        ) =~= vstd::utf8::encode_utf8(texts[i]));
    } else {
        lemma_text_bytes_split(shorter, i);
        assert(shorter.take(i) =~= texts.take(i));
        assert(shorter.take(i + 1) =~= texts.take(i + 1));
        assert(text_bytes(texts).subrange(
            text_bytes(texts.take(i)).len() as int,
            text_bytes(texts.take(i + 1)).len() as int,
        ) =~= text_bytes(shorter).subrange(
            text_bytes(texts.take(i)).len() as int,
            text_bytes(texts.take(i + 1)).len() as int,
        ));
    }
}

/// The offsets at which texts begin whose bytes are laid one after the other.
pub open spec fn begins(texts: Seq<Seq<char>>, offsets: Seq<usize>) -> bool {
    &&& offsets.len() == texts.len()
    &&& forall|i: int|
        0 <= i < offsets.len() ==> #[trigger] offsets[i] == text_bytes(texts.take(i)).len()
}

/// The bytes between the offset of string `i` and its end.
pub open spec fn piece(bytes: Seq<u8>, offsets: Seq<usize>, i: int) -> Seq<u8> {
    bytes.subrange(offsets[i] as int, string_end(offsets, bytes.len() as int, i))
}

proof fn lemma_piece(texts: Seq<Seq<char>>, offsets: Seq<usize>, i: int)
    requires
        begins(texts, offsets),
        0 <= i < texts.len(),
    ensures
        offsets[i] <= string_end(offsets, text_bytes(texts).len() as int, i) <= text_bytes(
            texts,
        ).len(),
        piece(text_bytes(texts), offsets, i) == vstd::utf8::encode_utf8(texts[i]),
{
    lemma_text_bytes_split(texts, i);
    assert(offsets[i] == text_bytes(texts.take(i)).len());
    if i + 1 < offsets.len() {
        assert(offsets[i + 1] == text_bytes(texts.take(i + 1)).len());
    } else {
        assert(texts.take(i + 1) =~= texts);
    }
}

proof fn lemma_pieces_are_text(texts: Seq<Seq<char>>, offsets: Seq<usize>, n: int)
    requires
        begins(texts, offsets),
        0 <= n <= texts.len(),
    ensures
        strings_fault(text_bytes(texts), offsets, n) is None,
    decreases n,
{
    if n > 0 {
        lemma_pieces_are_text(texts, offsets, n - 1);
        lemma_piece(texts, offsets, n - 1);
        vstd::utf8::encode_utf8_valid_utf8(texts[n - 1]);
        assert(vstd::utf8::valid_utf8(piece(text_bytes(texts), offsets, n - 1)));
    }
}

/// The bytes of strings laid one after the other, with the offset at which each begins, read back
/// as the strings: no offset is refused, every piece is text, and it is the string's own.
pub proof fn strings_round_trip(texts: Seq<Seq<char>>, offsets: Seq<usize>, i: int)
    requires
        begins(texts, offsets),
        0 <= i < texts.len(),
    ensures
        strings_fault(text_bytes(texts), offsets, offsets.len() as int) is None,
        vstd::utf8::decode_utf8(piece(text_bytes(texts), offsets, i)) == texts[i],
{
    lemma_pieces_are_text(texts, offsets, texts.len() as int);
    lemma_piece(texts, offsets, i);
    vstd::utf8::encode_utf8_decode_utf8(texts[i]);
}

} // verus!
