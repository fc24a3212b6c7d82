//! Which bytes of a file a dense tensor is, and how they are mapped.
use vstd::prelude::*;

use crate::element::TensorElement;
use crate::error::{fail, Error, Fault};
use crate::memory::MemoryInfo;
use crate::shape::checked_element_count;
use crate::tensor::buffer::TensorBuffer;

verus! {

/// Choices for mapping dense tensor bytes from a file.
#[derive(Debug, Clone, Copy, PartialEq, Eq, Structural)]
pub struct MmapTensorOptions {
    /// Where the tensor begins in the file.
    pub byte_offset: u64,
    /// Tell the system that the bytes are read in order.
    pub sequential: bool,
    /// Ask the system for huge pages.
    pub hugepage: bool,
    /// Lock the pages in memory.
    pub locked: bool,
}

impl Default for MmapTensorOptions {
    fn default() -> (options: MmapTensorOptions)
        ensures
            options == (MmapTensorOptions {
                byte_offset: 0,
                sequential: true,
                hugepage: false,
                locked: false,
            }),
    {
        MmapTensorOptions { byte_offset: 0, sequential: true, hugepage: false, locked: false }
    }
}

/// A range of a file.
#[derive(Debug, Clone, Copy, PartialEq, Eq, Structural)]
pub struct FileRange {
    pub start: u64,
    pub bytes: usize,
}

/// Pages that hold a range: where they begin in the file, how long they are, and where the range
/// begins in them.
#[derive(Debug, Clone, Copy, PartialEq, Eq, Structural)]
pub struct MappedRange {
    pub map_offset: u64,
    pub len: usize,
    pub data_offset: usize,
}

/// The byte size of a tensor, or why it cannot be mapped.
pub fn mapped_bytes<T: TensorElement>(shape: &[i64]) -> (bytes: Result<usize, Error>)
    ensures
        match crate::shape::count_fault(shape@) {
            Some(error) => bytes == Err::<usize, Error>(error),
            None => if crate::shape::product(shape@) * T::spec_size() > usize::MAX {
                bytes == Err::<usize, Error>(Error::Fault(Fault::MmapBytesOverflow))
            } else {
                bytes matches Ok(bytes) && bytes == crate::shape::product(shape@) * T::spec_size()
            },
        },
{
    match checked_element_count(shape) {
        Err(error) => Err(error),
        Ok(len) => match len.checked_mul(T::size()) {
            None => fail(Fault::MmapBytesOverflow),
            Some(bytes) => Ok(bytes),
        },
    }
}

/// The range of a file that a tensor is, where the file is long enough.
pub fn file_range(bytes: usize, byte_offset: u64, file_len: u64, path: String) -> (range: Result<
    FileRange,
    Error,
>)
    ensures
        if byte_offset + bytes > u64::MAX {
            range == Err::<FileRange, Error>(Error::Fault(Fault::MmapRangeOverflow))
        } else if byte_offset + bytes > file_len {
            range == Err::<FileRange, Error>(
                Error::MmapRange {
                    start: byte_offset,
                    end: (byte_offset + bytes) as u64,
                    file_len,
                    path,
                },
            )
        } else {
            range == Ok::<FileRange, Error>(FileRange { start: byte_offset, bytes })
        },
{
    match byte_offset.checked_add(bytes as u64) {
        None => fail(Fault::MmapRangeOverflow),
        Some(end) => {
            if end > file_len {
                return Err(Error::MmapRange { start: byte_offset, end, file_len, path });
            }
            Ok(FileRange { start: byte_offset, bytes })
        },
    }
}

/// The pages that hold a range, of a page size that is a power of two.
pub fn map_file_range(range: FileRange, page_size: usize) -> (mapped: Result<MappedRange, Error>)
    requires
        page_size > 0,
    ensures
        if range.start % (page_size as u64) + range.bytes > usize::MAX {
            mapped == Err::<MappedRange, Error>(Error::Fault(Fault::MmapLengthOverflow))
        } else {
            mapped == Ok::<MappedRange, Error>(
                MappedRange {
                    map_offset: (range.start - range.start % (page_size as u64)) as u64,
                    len: (range.start % (page_size as u64) + range.bytes) as usize,
                    data_offset: (range.start % (page_size as u64)) as usize,
                },
            )
        },
{
    let inside: u64 = range.start % (page_size as u64);
    proof {
        vstd::arithmetic::div_mod::lemma_mod_decreases(range.start as nat, page_size as nat);
        vstd::arithmetic::div_mod::lemma_mod_bound(range.start as int, page_size as int);
    }
    let map_offset: u64 = range.start - inside;
    let data_offset: usize = inside as usize;
    match data_offset.checked_add(range.bytes) {
        None => fail(Fault::MmapLengthOverflow),
        Some(len) => Ok(MappedRange { map_offset, len, data_offset }),
    }
}

/// Check that mapped data is aligned for its element type.
pub fn check_alignment<T: TensorElement>(address: usize) -> (result: Result<(), Error>)
    ensures
        if address % (T::spec_size() as usize) != 0 {
            result == Err::<(), Error>(Error::MmapMisaligned { element_type: T::spec_elem() })
        } else {
            result is Ok
        },
{
    if address % T::size() != 0 {
        return Err(Error::MmapMisaligned { element_type: T::elem() });
    }
    Ok(())
}

/// What the system says of a file and its mapping. What is asked later is not looked at where an
/// earlier answer ends it.
#[derive(Debug)]
pub struct MappedFile<T> {
    /// The path of the file.
    pub path: String,
    /// The length of the file.
    pub file_len: Result<u64, Error>,
    /// The size of a page.
    pub page_size: Result<usize, Error>,
    /// Where the pages were mapped.
    pub address: Result<usize, Error>,
    /// What came of locking them, where that is asked for.
    pub locked: Result<(), Error>,
    /// The elements that the mapping holds.
    pub elements: Vec<T>,
}

impl<T: TensorElement> MappedFile<T> {
    /// Why a tensor of some bytes cannot be mapped.
    pub open spec fn map_fault(self, bytes: int, options: MmapTensorOptions) -> Option<Error> {
        match self.file_len {
            Err(error) => Some(error),
            Ok(file_len) => if options.byte_offset + bytes > u64::MAX {
                Some(Error::Fault(Fault::MmapRangeOverflow))
            } else if options.byte_offset + bytes > file_len {
                Some(
                    Error::MmapRange {
                        start: options.byte_offset,
                        end: (options.byte_offset + bytes) as u64,
                        file_len,
                        path: self.path,
                    },
                )
            } else if bytes == 0 {
                None
            } else {
                self.pages_fault(bytes, options)
            },
        }
    }

    /// Why the pages of a range that the file holds cannot be mapped.
    pub open spec fn pages_fault(self, bytes: int, options: MmapTensorOptions) -> Option<Error> {
        match self.page_size {
            Err(error) => Some(error),
            Ok(page_size) => {
                let inside = options.byte_offset % (page_size as u64);
                if inside + bytes > usize::MAX {
                    Some(Error::Fault(Fault::MmapLengthOverflow))
                } else {
                    match self.address {
                        Err(error) => Some(error),
                        Ok(address) => if ((address + inside) as usize) % (T::spec_size() as usize)
                            != 0 {
                            Some(Error::MmapMisaligned { element_type: T::spec_elem() })
                        } else if options.locked {
                            match self.locked {
                                Err(error) => Some(error),
                                Ok(()) => None,
                            }
                        } else {
                            None
                        },
                    }
                }
            },
        }
    }

    /// The system maps whole pages, within the address space.
    pub open spec fn is_mapping(self, options: MmapTensorOptions) -> bool {
        &&& self.page_size matches Ok(page_size) ==> page_size > 0
        &&& self.page_size matches Ok(page_size) ==> self.address matches Ok(address) ==> address
            + options.byte_offset % (page_size as u64) <= usize::MAX
    }

    /// Check that a tensor of some bytes is mapped.
    pub fn check(self, bytes: usize, options: MmapTensorOptions) -> (elements: Result<Vec<T>, Error>)
        requires
            self.is_mapping(options),
        ensures
            match self.map_fault(bytes as int, options) {
                Some(error) => elements == Err::<Vec<T>, Error>(error),
                None => elements == Ok::<Vec<T>, Error>(self.elements),
            },
    {
        let file_len: u64 = match self.file_len {
            Ok(file_len) => file_len,
            Err(error) => return Err(error),
        };
        let range = match file_range(bytes, options.byte_offset, file_len, self.path) {
            Ok(range) => range,
            Err(error) => return Err(error),
        };
        if bytes == 0 {
            return Ok(self.elements);
        }
        let page_size: usize = match self.page_size {
            Ok(page_size) => page_size,
            Err(error) => return Err(error),
        };
        let mapped = match map_file_range(range, page_size) {
            Ok(mapped) => mapped,
            Err(error) => return Err(error),
        };
        let address: usize = match self.address {
            Ok(address) => address,
            Err(error) => return Err(error),
        };
        match check_alignment::<T>(address + mapped.data_offset) {
            Ok(()) => {},
            Err(error) => return Err(error),
        }
        if options.locked {
            match self.locked {
                Ok(()) => {},
                Err(error) => return Err(error),
            }
        }
        Ok(self.elements)
    }
}

impl<T: TensorElement> TensorBuffer<T> {
    /// `result` is what comes of a buffer over a mapped file.
    pub open spec fn mapped_outcome(
        result: Result<TensorBuffer<T>, Error>,
        shape: Seq<i64>,
        memory: MemoryInfo,
        options: MmapTensorOptions,
        file: MappedFile<T>,
        created: Result<(), Error>,
    ) -> bool {
        match crate::shape::count_fault(shape) {
            Some(error) => result == Err::<TensorBuffer<T>, Error>(error),
            None => {
                let bytes = crate::shape::product(shape) * T::spec_size();
                if bytes > usize::MAX {
                    result == Err::<TensorBuffer<T>, Error>(Error::Fault(Fault::MmapBytesOverflow))
                } else {
                    match file.map_fault(bytes, options) {
                        Some(error) => result == Err::<TensorBuffer<T>, Error>(error),
                        None => TensorBuffer::<T>::wrapped(
                            result,
                            file.elements@,
                            shape,
                            memory,
                            crate::tensor::buffer::BufferSpec::Auto,
                            created,
                        ),
                    }
                }
            },
        }
    }

    /// A buffer over a mapped file, from its beginning.
    pub fn from_mmap_file(
        shape: &[i64],
        memory: &MemoryInfo,
        file: MappedFile<T>,
        created: Result<(), Error>,
    ) -> (result: Result<TensorBuffer<T>, Error>)
        requires
            file.is_mapping(
                (MmapTensorOptions {
                    byte_offset: 0,
                    sequential: true,
                    hugepage: false,
                    locked: false,
                }),
            ),
        ensures
            TensorBuffer::<T>::mapped_outcome(
                result,
                shape@,
                *memory,
                (MmapTensorOptions {
                    byte_offset: 0,
                    sequential: true,
                    hugepage: false,
                    locked: false,
                }),
                file,
                created,
            ),
    {
        Self::from_mmap_file_with_options(
            shape,
            memory,
            MmapTensorOptions::default(),
            file,
            created,
        )
    }

    /// A buffer over a mapped file.
    pub fn from_mmap_file_with_options(
        shape: &[i64],
        memory: &MemoryInfo,
        options: MmapTensorOptions,
        file: MappedFile<T>,
        created: Result<(), Error>,
    ) -> (result: Result<TensorBuffer<T>, Error>)
        requires
            file.is_mapping(options),
        ensures
            TensorBuffer::<T>::mapped_outcome(result, shape@, *memory, options, file, created),
    {
        let bytes: usize = match mapped_bytes::<T>(shape) {
            Ok(bytes) => bytes,
            Err(error) => return Err(error),
        };
        match file.check(bytes, options) {
            Ok(elements) => TensorBuffer::from_vec(elements, shape, memory, created),
            Err(error) => Err(error),
        }
    }
}

/// The pages of a range begin at a page boundary at or before it and end with it: they hold it
/// whole and begin less than a page before it.
pub proof fn mapping_holds_the_range(range: FileRange, page_size: usize, mapped: MappedRange)
    requires
        page_size > 0,
        mapped.map_offset == range.start - range.start % (page_size as u64),
        mapped.data_offset == range.start % (page_size as u64),
        mapped.len == range.start % (page_size as u64) + range.bytes,
    ensures
        mapped.map_offset as int % page_size as int == 0,
        mapped.map_offset + mapped.data_offset == range.start,
        mapped.data_offset < page_size,
        mapped.data_offset + range.bytes == mapped.len,
{
    let start = range.start as int;
    let page = page_size as int;
    vstd::arithmetic::div_mod::lemma_fundamental_div_mod(start, page);
    assert(start - start % page == page * (start / page));
    vstd::arithmetic::div_mod::lemma_mod_multiples_basic(start / page, page);
    vstd::arithmetic::mul::lemma_mul_is_commutative(start / page, page);
}

} // verus!
