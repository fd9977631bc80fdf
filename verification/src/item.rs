//! One visible result and its field accessors.
//!
//! An item is a zero-based position in the current result set plus a copy
//! of the row the engine served there and of the fulfilled requested-field
//! bitmask.  Every field accessor first checks that its field's bit is
//! present in that bitmask - the guard is exactly bit membership - and
//! returns the "not requested" error otherwise, because the underlying
//! engine answer would be meaningless without the bit.

use vstd::prelude::*;
use vstd::pervasive::VecAdditionalExecFns;

use crate::engine::ResultRow;
use crate::error::EverythingError;
use crate::error::InvalidRequestError;
use crate::flags::EVERYTHING_REQUEST_ATTRIBUTES;
use crate::flags::EVERYTHING_REQUEST_DATE_ACCESSED;
use crate::flags::EVERYTHING_REQUEST_DATE_CREATED;
use crate::flags::EVERYTHING_REQUEST_DATE_MODIFIED;
use crate::flags::EVERYTHING_REQUEST_DATE_RECENTLY_CHANGED;
use crate::flags::EVERYTHING_REQUEST_DATE_RUN;
use crate::flags::EVERYTHING_REQUEST_EXTENSION;
use crate::flags::EVERYTHING_REQUEST_FILE_LIST_FILE_NAME;
use crate::flags::EVERYTHING_REQUEST_FILE_NAME;
use crate::flags::EVERYTHING_REQUEST_FULL_PATH_AND_FILE_NAME;
use crate::flags::EVERYTHING_REQUEST_HIGHLIGHTED_FILE_NAME;
use crate::flags::EVERYTHING_REQUEST_HIGHLIGHTED_FULL_PATH_AND_FILE_NAME;
use crate::flags::EVERYTHING_REQUEST_HIGHLIGHTED_PATH;
use crate::flags::EVERYTHING_REQUEST_PATH;
use crate::flags::EVERYTHING_REQUEST_RUN_COUNT;
use crate::flags::EVERYTHING_REQUEST_SIZE;
use crate::flags::RequestFlags;
use crate::marshal::decode_wide;
use crate::marshal::encode_wide;
use crate::marshal::utf16_of;

verus! {

/// One visible result, self-contained: the engine's borrowed views were
/// already copied out, so the item stays meaningful however long it is
/// kept.
pub struct EverythingItem {
    index: u32,
    request_flags: RequestFlags,
    row: ResultRow,
}

impl EverythingItem {
    /// The item's zero-based position in the result set.
    pub closed spec fn spec_index(self) -> u32 {
        self.index
    }

    /// The fulfilled requested-field bitmask in force when the result set
    /// was produced.
    pub closed spec fn spec_flags(self) -> RequestFlags {
        self.request_flags
    }

    /// The row of data the engine served for this item.
    pub closed spec fn spec_row(self) -> ResultRow {
        self.row
    }

    pub open spec fn wf(self) -> bool {
        self.spec_row().wf()
    }

    pub(crate) fn make(index: u32, request_flags: RequestFlags, row: ResultRow) -> (it: Self)
        ensures
            it.spec_index() == index,
            it.spec_flags() == request_flags,
            it.spec_row() == row,
    {
        EverythingItem { index, request_flags, row }
    }

    /// The item's zero-based position in the result set.
    pub fn index(&self) -> (r: u32)
        ensures
            r == self.spec_index(),
    {
        self.index
    }

    /// Whether the result is the root folder of a volume.
    pub fn is_volume(&self) -> (r: bool)
        ensures
            r == self.spec_row().is_volume,
    {
        self.row.is_volume
    }

    /// Whether the result is a folder (volumes count as folders).
    pub fn is_folder(&self) -> (r: bool)
        ensures
            r == self.spec_row().is_folder,
    {
        self.row.is_folder
    }

    /// Whether the result is a file.
    pub fn is_file(&self) -> (r: bool)
        ensures
            r == !self.spec_row().is_folder,
    {
        !self.row.is_folder
    }

    /// The guard every field accessor goes through: succeeds exactly when
    /// every given bit is present in the fulfilled bitmask, and otherwise
    /// reports which bits were missing.
    pub fn need_flags_set(&self, flags: RequestFlags) -> (r: Result<(), EverythingError>)
        ensures
            self.spec_flags().spec_contains(flags) <==> r is Ok,
            !self.spec_flags().spec_contains(flags) ==> r == Err::<(), EverythingError>(
                EverythingError::InvalidRequest(InvalidRequestError::RequestFlagsNotSet(flags)),
            ),
    {
        if self.request_flags.contains(flags) {
            Ok(())
        } else {
            Err(
                EverythingError::InvalidRequest(
                    InvalidRequestError::RequestFlagsNotSet(flags),
                ),
            )
        }
    }

    /// The file name part of the result.
    pub fn filename(&self) -> (r: Result<String, EverythingError>)
        ensures
            self.spec_flags().spec_contains(RequestFlags { bits: EVERYTHING_REQUEST_FILE_NAME })
                ==> r == Ok::<String, EverythingError>(self.spec_row().name),
            !self.spec_flags().spec_contains(RequestFlags { bits: EVERYTHING_REQUEST_FILE_NAME })
                ==> r == Err::<String, EverythingError>(
                EverythingError::InvalidRequest(
                    InvalidRequestError::RequestFlagsNotSet(
                        RequestFlags { bits: EVERYTHING_REQUEST_FILE_NAME },
                    ),
                ),
            ),
    {
        match self.need_flags_set(RequestFlags { bits: EVERYTHING_REQUEST_FILE_NAME }) {
            Ok(()) => Ok(self.row.name.clone()),
            Err(e) => Err(e),
        }
    }

    /// The path part of the result.
    pub fn path(&self) -> (r: Result<String, EverythingError>)
        ensures
            self.spec_flags().spec_contains(RequestFlags { bits: EVERYTHING_REQUEST_PATH }) ==> r
                == Ok::<String, EverythingError>(self.spec_row().path),
            !self.spec_flags().spec_contains(RequestFlags { bits: EVERYTHING_REQUEST_PATH }) ==> r
                == Err::<String, EverythingError>(
                EverythingError::InvalidRequest(
                    InvalidRequestError::RequestFlagsNotSet(
                        RequestFlags { bits: EVERYTHING_REQUEST_PATH },
                    ),
                ),
            ),
    {
        match self.need_flags_set(RequestFlags { bits: EVERYTHING_REQUEST_PATH }) {
            Ok(()) => Ok(self.row.path.clone()),
            Err(e) => Err(e),
        }
    }

    /// The extension part of the result.
    pub fn extension(&self) -> (r: Result<String, EverythingError>)
        ensures
            self.spec_flags().spec_contains(RequestFlags { bits: EVERYTHING_REQUEST_EXTENSION })
                ==> r == Ok::<String, EverythingError>(self.spec_row().extension),
            !self.spec_flags().spec_contains(RequestFlags { bits: EVERYTHING_REQUEST_EXTENSION })
                ==> r == Err::<String, EverythingError>(
                EverythingError::InvalidRequest(
                    InvalidRequestError::RequestFlagsNotSet(
                        RequestFlags { bits: EVERYTHING_REQUEST_EXTENSION },
                    ),
                ),
            ),
    {
        match self.need_flags_set(RequestFlags { bits: EVERYTHING_REQUEST_EXTENSION }) {
            Ok(()) => Ok(self.row.extension.clone()),
            Err(e) => Err(e),
        }
    }

    /// The file list full path and file name of the result; empty when the
    /// result is not in a file list.
    pub fn file_list_filename(&self) -> (r: Result<String, EverythingError>)
        ensures
            self.spec_flags().spec_contains(
                RequestFlags { bits: EVERYTHING_REQUEST_FILE_LIST_FILE_NAME },
            ) ==> r == Ok::<String, EverythingError>(self.spec_row().file_list_file_name),
            !self.spec_flags().spec_contains(
                RequestFlags { bits: EVERYTHING_REQUEST_FILE_LIST_FILE_NAME },
            ) ==> r == Err::<String, EverythingError>(
                EverythingError::InvalidRequest(
                    InvalidRequestError::RequestFlagsNotSet(
                        RequestFlags { bits: EVERYTHING_REQUEST_FILE_LIST_FILE_NAME },
                    ),
                ),
            ),
    {
        match self.need_flags_set(RequestFlags { bits: EVERYTHING_REQUEST_FILE_LIST_FILE_NAME }) {
            Ok(()) => Ok(self.row.file_list_file_name.clone()),
            Err(e) => Err(e),
        }
    }

    /// The file name with the match highlighted; text between star quotes is
    /// the highlighted part.
    pub fn highlighted_filename(&self) -> (r: Result<String, EverythingError>)
        ensures
            self.spec_flags().spec_contains(
                RequestFlags { bits: EVERYTHING_REQUEST_HIGHLIGHTED_FILE_NAME },
            ) ==> r == Ok::<String, EverythingError>(self.spec_row().highlighted_name),
            !self.spec_flags().spec_contains(
                RequestFlags { bits: EVERYTHING_REQUEST_HIGHLIGHTED_FILE_NAME },
            ) ==> r == Err::<String, EverythingError>(
                EverythingError::InvalidRequest(
                    InvalidRequestError::RequestFlagsNotSet(
                        RequestFlags { bits: EVERYTHING_REQUEST_HIGHLIGHTED_FILE_NAME },
                    ),
                ),
            ),
    {
        match self.need_flags_set(
            RequestFlags { bits: EVERYTHING_REQUEST_HIGHLIGHTED_FILE_NAME },
        ) {
            Ok(()) => Ok(self.row.highlighted_name.clone()),
            Err(e) => Err(e),
        }
    }

    /// The path with the match highlighted.
    pub fn highlighted_path(&self) -> (r: Result<String, EverythingError>)
        ensures
            self.spec_flags().spec_contains(
                RequestFlags { bits: EVERYTHING_REQUEST_HIGHLIGHTED_PATH },
            ) ==> r == Ok::<String, EverythingError>(self.spec_row().highlighted_path),
            !self.spec_flags().spec_contains(
                RequestFlags { bits: EVERYTHING_REQUEST_HIGHLIGHTED_PATH },
            ) ==> r == Err::<String, EverythingError>(
                EverythingError::InvalidRequest(
                    InvalidRequestError::RequestFlagsNotSet(
                        RequestFlags { bits: EVERYTHING_REQUEST_HIGHLIGHTED_PATH },
                    ),
                ),
            ),
    {
        match self.need_flags_set(RequestFlags { bits: EVERYTHING_REQUEST_HIGHLIGHTED_PATH }) {
            Ok(()) => Ok(self.row.highlighted_path.clone()),
            Err(e) => Err(e),
        }
    }

    /// The full path and file name with the match highlighted.
    pub fn highlighted_full_path_and_filename(&self) -> (r: Result<String, EverythingError>)
        ensures
            self.spec_flags().spec_contains(
                RequestFlags { bits: EVERYTHING_REQUEST_HIGHLIGHTED_FULL_PATH_AND_FILE_NAME },
            ) ==> r == Ok::<String, EverythingError>(self.spec_row().highlighted_full_path),
            !self.spec_flags().spec_contains(
                RequestFlags { bits: EVERYTHING_REQUEST_HIGHLIGHTED_FULL_PATH_AND_FILE_NAME },
            ) ==> r == Err::<String, EverythingError>(
                EverythingError::InvalidRequest(
                    InvalidRequestError::RequestFlagsNotSet(
                        RequestFlags {
                            bits: EVERYTHING_REQUEST_HIGHLIGHTED_FULL_PATH_AND_FILE_NAME,
                        },
                    ),
                ),
            ),
    {
        match self.need_flags_set(
            RequestFlags { bits: EVERYTHING_REQUEST_HIGHLIGHTED_FULL_PATH_AND_FILE_NAME },
        ) {
            Ok(()) => Ok(self.row.highlighted_full_path.clone()),
            Err(e) => Err(e),
        }
    }

    /// The size of the result in bytes.  The engine serves folders a
    /// sentinel that depends on whether attributes were requested (-1
    /// without, 0 with); both are normalized to one consistent 0 here, so
    /// callers see a single contract.
    pub fn size(&self) -> (r: Result<u64, EverythingError>)
        requires
            self.wf(),
        ensures
            self.spec_flags().spec_contains(RequestFlags { bits: EVERYTHING_REQUEST_SIZE }) ==> r
                == Ok::<u64, EverythingError>(
                if self.spec_row().is_folder {
                    0u64
                } else {
                    self.spec_row().size as u64
                },
            ),
            !self.spec_flags().spec_contains(RequestFlags { bits: EVERYTHING_REQUEST_SIZE }) ==> r
                == Err::<u64, EverythingError>(
                EverythingError::InvalidRequest(
                    InvalidRequestError::RequestFlagsNotSet(
                        RequestFlags { bits: EVERYTHING_REQUEST_SIZE },
                    ),
                ),
            ),
    {
        match self.need_flags_set(RequestFlags { bits: EVERYTHING_REQUEST_SIZE }) {
            Ok(()) => {
                if self.row.is_folder {
                    Ok(0)
                } else {
                    Ok(self.row.size as u64)
                }
            },
            Err(e) => Err(e),
        }
    }

    /// When the result was created, as a 64-bit file time.
    pub fn date_created(&self) -> (r: Result<u64, EverythingError>)
        ensures
            self.spec_flags().spec_contains(RequestFlags { bits: EVERYTHING_REQUEST_DATE_CREATED })
                ==> r == Ok::<u64, EverythingError>(self.spec_row().date_created),
            !self.spec_flags().spec_contains(
                RequestFlags { bits: EVERYTHING_REQUEST_DATE_CREATED },
            ) ==> r == Err::<u64, EverythingError>(
                EverythingError::InvalidRequest(
                    InvalidRequestError::RequestFlagsNotSet(
                        RequestFlags { bits: EVERYTHING_REQUEST_DATE_CREATED },
                    ),
                ),
            ),
    {
        match self.need_flags_set(RequestFlags { bits: EVERYTHING_REQUEST_DATE_CREATED }) {
            Ok(()) => Ok(self.row.date_created),
            Err(e) => Err(e),
        }
    }

    /// When the result was last written, as a 64-bit file time.
    pub fn date_modified(&self) -> (r: Result<u64, EverythingError>)
        ensures
            self.spec_flags().spec_contains(
                RequestFlags { bits: EVERYTHING_REQUEST_DATE_MODIFIED },
            ) ==> r == Ok::<u64, EverythingError>(self.spec_row().date_modified),
            !self.spec_flags().spec_contains(
                RequestFlags { bits: EVERYTHING_REQUEST_DATE_MODIFIED },
            ) ==> r == Err::<u64, EverythingError>(
                EverythingError::InvalidRequest(
                    InvalidRequestError::RequestFlagsNotSet(
                        RequestFlags { bits: EVERYTHING_REQUEST_DATE_MODIFIED },
                    ),
                ),
            ),
    {
        match self.need_flags_set(RequestFlags { bits: EVERYTHING_REQUEST_DATE_MODIFIED }) {
            Ok(()) => Ok(self.row.date_modified),
            Err(e) => Err(e),
        }
    }

    /// When the result was last accessed, as a 64-bit file time.
    pub fn date_accessed(&self) -> (r: Result<u64, EverythingError>)
        ensures
            self.spec_flags().spec_contains(
                RequestFlags { bits: EVERYTHING_REQUEST_DATE_ACCESSED },
            ) ==> r == Ok::<u64, EverythingError>(self.spec_row().date_accessed),
            !self.spec_flags().spec_contains(
                RequestFlags { bits: EVERYTHING_REQUEST_DATE_ACCESSED },
            ) ==> r == Err::<u64, EverythingError>(
                EverythingError::InvalidRequest(
                    InvalidRequestError::RequestFlagsNotSet(
                        RequestFlags { bits: EVERYTHING_REQUEST_DATE_ACCESSED },
                    ),
                ),
            ),
    {
        match self.need_flags_set(RequestFlags { bits: EVERYTHING_REQUEST_DATE_ACCESSED }) {
            Ok(()) => Ok(self.row.date_accessed),
            Err(e) => Err(e),
        }
    }

    /// The result's file attributes.
    pub fn attributes(&self) -> (r: Result<u32, EverythingError>)
        ensures
            self.spec_flags().spec_contains(RequestFlags { bits: EVERYTHING_REQUEST_ATTRIBUTES })
                ==> r == Ok::<u32, EverythingError>(self.spec_row().attributes),
            !self.spec_flags().spec_contains(RequestFlags { bits: EVERYTHING_REQUEST_ATTRIBUTES })
                ==> r == Err::<u32, EverythingError>(
                EverythingError::InvalidRequest(
                    InvalidRequestError::RequestFlagsNotSet(
                        RequestFlags { bits: EVERYTHING_REQUEST_ATTRIBUTES },
                    ),
                ),
            ),
    {
        match self.need_flags_set(RequestFlags { bits: EVERYTHING_REQUEST_ATTRIBUTES }) {
            Ok(()) => Ok(self.row.attributes),
            Err(e) => Err(e),
        }
    }

    /// How many times the result has been run from the engine; 0 means "no
    /// history" and is a valid answer.
    pub fn run_count(&self) -> (r: Result<u32, EverythingError>)
        ensures
            self.spec_flags().spec_contains(RequestFlags { bits: EVERYTHING_REQUEST_RUN_COUNT })
                ==> r == Ok::<u32, EverythingError>(self.spec_row().run_count),
            !self.spec_flags().spec_contains(RequestFlags { bits: EVERYTHING_REQUEST_RUN_COUNT })
                ==> r == Err::<u32, EverythingError>(
                EverythingError::InvalidRequest(
                    InvalidRequestError::RequestFlagsNotSet(
                        RequestFlags { bits: EVERYTHING_REQUEST_RUN_COUNT },
                    ),
                ),
            ),
    {
        match self.need_flags_set(RequestFlags { bits: EVERYTHING_REQUEST_RUN_COUNT }) {
            Ok(()) => Ok(self.row.run_count),
            Err(e) => Err(e),
        }
    }

    /// When the result was last run, as a 64-bit file time.
    pub fn date_run(&self) -> (r: Result<u64, EverythingError>)
        ensures
            self.spec_flags().spec_contains(RequestFlags { bits: EVERYTHING_REQUEST_DATE_RUN })
                ==> r == Ok::<u64, EverythingError>(self.spec_row().date_run),
            !self.spec_flags().spec_contains(RequestFlags { bits: EVERYTHING_REQUEST_DATE_RUN })
                ==> r == Err::<u64, EverythingError>(
                EverythingError::InvalidRequest(
                    InvalidRequestError::RequestFlagsNotSet(
                        RequestFlags { bits: EVERYTHING_REQUEST_DATE_RUN },
                    ),
                ),
            ),
    {
        match self.need_flags_set(RequestFlags { bits: EVERYTHING_REQUEST_DATE_RUN }) {
            Ok(()) => Ok(self.row.date_run),
            Err(e) => Err(e),
        }
    }

    /// When the result last changed in the engine's index, as a 64-bit file
    /// time.
    pub fn date_recently_changed(&self) -> (r: Result<u64, EverythingError>)
        ensures
            self.spec_flags().spec_contains(
                RequestFlags { bits: EVERYTHING_REQUEST_DATE_RECENTLY_CHANGED },
            ) ==> r == Ok::<u64, EverythingError>(self.spec_row().date_recently_changed),
            !self.spec_flags().spec_contains(
                RequestFlags { bits: EVERYTHING_REQUEST_DATE_RECENTLY_CHANGED },
            ) ==> r == Err::<u64, EverythingError>(
                EverythingError::InvalidRequest(
                    InvalidRequestError::RequestFlagsNotSet(
                        RequestFlags { bits: EVERYTHING_REQUEST_DATE_RECENTLY_CHANGED },
                    ),
                ),
            ),
    {
        match self.need_flags_set(
            RequestFlags { bits: EVERYTHING_REQUEST_DATE_RECENTLY_CHANGED },
        ) {
            Ok(()) => Ok(self.row.date_recently_changed),
            Err(e) => Err(e),
        }
    }

    /// The buffer size, in 16-bit units and including the terminator,
    /// needed to hold the item's full path: the size-probe half of the
    /// two-phase retrieval.
    pub fn full_path_name_size_hint(&self) -> (r: u32)
        requires
            self.wf(),
        ensures
            r == utf16_of(self.spec_row().full_path@).len() + 1,
    {
        let wide = encode_wide(self.row.full_path.as_str());
        (wide.len() as u32) + 1
    }

    /// Fill a caller buffer with the item's full path, truncated to the
    /// buffer and always nul-terminated: the fill half of the two-phase
    /// retrieval.  Returns the number of units written, terminator
    /// excluded; with a buffer of exactly the probed size that is always
    /// one less than the probe said.
    pub fn full_path_name_fill(&self, out_buf: &mut Vec<u16>) -> (n: u32)
        requires
            self.wf(),
            old(out_buf)@.len() >= 1,
            old(out_buf)@.len() <= u32::MAX,
        ensures
            ({
                let wide = utf16_of(self.spec_row().full_path@);
                &&& n == if wide.len() < old(out_buf)@.len() {
                    wide.len() as int
                } else {
                    old(out_buf)@.len() - 1
                }
                &&& final(out_buf)@.len() == old(out_buf)@.len()
                &&& final(out_buf)@.subrange(0, n as int) == wide.subrange(0, n as int)
                &&& final(out_buf)@[n as int] == 0u16
                &&& old(out_buf)@.len() == wide.len() + 1 ==> n + 1 == old(out_buf)@.len()
            }),
    {
        let wide = encode_wide(self.row.full_path.as_str());
        let n: usize = if wide.len() < out_buf.len() {
            wide.len()
        } else {
            out_buf.len() - 1
        };
        let mut k: usize = 0;
        while k < n
            invariant
                wide@ == utf16_of(self.spec_row().full_path@),
                n < out_buf@.len(),
                n <= wide@.len(),
                n == if wide@.len() < old(out_buf)@.len() {
                    wide@.len() as int
                } else {
                    old(out_buf)@.len() - 1
                },
                k <= n,
                out_buf@.len() == old(out_buf)@.len(),
                forall|j: int| 0 <= j < k ==> out_buf@[j] == wide@[j],
            decreases n - k,
        {
            let unit = wide[k];
            out_buf.set(k, unit);
            k += 1;
        }
        out_buf.set(n, 0);
        proof {
            assert(out_buf@.subrange(0, n as int) =~= utf16_of(
                self.spec_row().full_path@,
            ).subrange(0, n as int));
        }
        n as u32
    }

    /// The full path and file name, retrieved the way the engine requires:
    /// probe the needed size, allocate, fill.  The guard asks for the path
    /// and file-name bits together, the one combination the engine
    /// documents for this call.
    pub fn filepath(&self) -> (r: Result<String, EverythingError>)
        requires
            self.wf(),
        ensures
            self.spec_flags().spec_contains(
                RequestFlags { bits: EVERYTHING_REQUEST_PATH | EVERYTHING_REQUEST_FILE_NAME },
            ) ==> (r matches Ok(s) && s@ == self.spec_row().full_path@),
            !self.spec_flags().spec_contains(
                RequestFlags { bits: EVERYTHING_REQUEST_PATH | EVERYTHING_REQUEST_FILE_NAME },
            ) ==> r == Err::<String, EverythingError>(
                EverythingError::InvalidRequest(
                    InvalidRequestError::RequestFlagsNotSet(
                        RequestFlags {
                            bits: EVERYTHING_REQUEST_PATH | EVERYTHING_REQUEST_FILE_NAME,
                        },
                    ),
                ),
            ),
    {
        match self.need_flags_set(
            RequestFlags { bits: EVERYTHING_REQUEST_PATH | EVERYTHING_REQUEST_FILE_NAME },
        ) {
            Ok(()) => {
                let hint = self.full_path_name_size_hint();
                let mut buf: Vec<u16> = vec![0u16; hint as usize];
                let n = self.full_path_name_fill(&mut buf);
                proof {
                    // The fill length is exactly one less than the probed
                    // size hint: the result set cannot change between the
                    // two calls, because this handle owns it.
                    assert(n + 1 == hint);
                    let wide = utf16_of(self.spec_row().full_path@);
                    assert(wide.subrange(0, n as int) =~= wide);
                    assert forall|j: int| 0 <= j < n implies buf@[j] == wide[j] by {
                        assert(buf@.subrange(0, n as int)[j] == buf@[j]);
                    }
                    assert(buf@ =~= wide.push(0u16));
                }
                Ok(decode_wide(buf.as_slice()))
            },
            Err(e) => Err(e),
        }
    }

    /// The full path and file name, optionally capped: a cap below the
    /// probed size cuts the tail off to bound the allocation.  An uncapped
    /// call, or one whose cap covers the probed size, returns the exact
    /// path.
    pub fn full_path_name(&self, max_len: Option<u32>) -> (r: Result<String, EverythingError>)
        requires
            self.wf(),
        ensures
            self.spec_flags().spec_contains(
                RequestFlags { bits: EVERYTHING_REQUEST_FULL_PATH_AND_FILE_NAME },
            ) ==> r is Ok,
            self.spec_flags().spec_contains(
                RequestFlags { bits: EVERYTHING_REQUEST_FULL_PATH_AND_FILE_NAME },
            ) && (max_len matches Some(m) ==> m >= utf16_of(self.spec_row().full_path@).len() + 1)
                ==> (r matches Ok(s) && s@ == self.spec_row().full_path@),
            !self.spec_flags().spec_contains(
                RequestFlags { bits: EVERYTHING_REQUEST_FULL_PATH_AND_FILE_NAME },
            ) ==> r == Err::<String, EverythingError>(
                EverythingError::InvalidRequest(
                    InvalidRequestError::RequestFlagsNotSet(
                        RequestFlags { bits: EVERYTHING_REQUEST_FULL_PATH_AND_FILE_NAME },
                    ),
                ),
            ),
    {
        match self.need_flags_set(
            RequestFlags { bits: EVERYTHING_REQUEST_FULL_PATH_AND_FILE_NAME },
        ) {
            Ok(()) => {
                let hint = self.full_path_name_size_hint();
                let cap = match max_len {
                    Some(m) => if m < hint {
                        m
                    } else {
                        hint
                    },
                    None => hint,
                };
                if cap == 0 {
                    return Ok(String::new());
                }
                let mut buf: Vec<u16> = vec![0u16; cap as usize];
                let n = self.full_path_name_fill(&mut buf);
                proof {
                    if cap == hint {
                        assert(n + 1 == hint);
                        let wide = utf16_of(self.spec_row().full_path@);
                        assert(wide.subrange(0, n as int) =~= wide);
                        assert forall|j: int| 0 <= j < n implies buf@[j] == wide[j] by {
                            assert(buf@.subrange(0, n as int)[j] == buf@[j]);
                        }
                        assert(buf@ =~= wide.push(0u16));
                    }
                }
                Ok(decode_wide(buf.as_slice()))
            },
            Err(e) => Err(e),
        }
    }
}

/// Law: the field-accessor guard is bit membership and nothing else: for
/// every fulfilled bitmask and every needed combination of field bits, the
/// guard admits the request exactly when every needed bit is present.
pub proof fn law_guard_is_bit_membership(held: RequestFlags, needed: RequestFlags)
    ensures
        held.spec_contains(needed) <==> (held.bits & needed.bits) == needed.bits,
{
}

} // verus!
