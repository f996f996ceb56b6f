//! Reassembling complete JSON documents from a chunked text stream.
//!
//! A streaming response hands its body over as transport-sized text
//! fragments whose boundaries owe nothing to document boundaries: one
//! fragment may hold a whole document, or any leading part of one. The
//! [`Assembler`] turns the sequence of fragments back into a sequence of
//! decoded documents. It holds at most one pending buffer: the text of a
//! document that has started to arrive but is not complete yet.
//!
//! The buffer only ever holds text whose decoding failed for running out
//! of input. Text that can never become a document of the target type is
//! reported as an error at once and never enters the buffer, so one bad
//! fragment cannot poison the fragments after it.

use vstd::prelude::*;

use crate::json::{DecodeError, DecodeOutcome, JsonDecode};
use vstd::string::StringExecFns;

verus! {

/// Incremental decoder for a stream of text fragments.
///
/// States: idle (no pending text) and accumulating (some prefix of a
/// document is pending). A successful decode always returns it to idle.
pub struct Assembler {
    buffered: Option<String>,
}

impl View for Assembler {
    type V = Option<Seq<char>>;

    /// The pending text, `None` when the assembler is idle.
    closed spec fn view(&self) -> Option<Seq<char>> {
        match self.buffered {
            Some(b) => Some(b@),
            None => None,
        }
    }
}

/// The text one call works on: the pending text, if any, with the new
/// fragment appended.
pub open spec fn joined_text(pending: Option<Seq<char>>, chunk: Seq<char>) -> Seq<char> {
    match pending {
        None => chunk,
        Some(b) => b + chunk,
    }
}

/// Whether a call in state `pending` fed `chunk` decodes a complete document.
pub open spec fn add_emits<T: JsonDecode>(pending: Option<Seq<char>>, chunk: Seq<char>) -> bool {
    T::json_of(joined_text(pending, chunk)) is Some
}

/// The model of the document such a call decodes.
pub open spec fn add_value<T: JsonDecode>(pending: Option<Seq<char>>, chunk: Seq<char>) -> Option<
    T::Model,
> {
    T::json_of(joined_text(pending, chunk))
}

/// Whether such a call reports a hard decode failure. Only a fresh fragment,
/// tried on its own, can be rejected: a failure against text that was already
/// accumulating is treated as "still incomplete", since the boundary between
/// the bad text and a future recovery cannot be told yet.
pub open spec fn add_rejects<T: JsonDecode>(pending: Option<Seq<char>>, chunk: Seq<char>) -> bool {
    pending is None && T::json_of(chunk) is None && !T::json_eof(chunk)
}

/// The pending text after such a call: cleared by a successful decode, the
/// fragment alone after a fresh fragment ran out of input, the appended text
/// after any failure while accumulating, and unchanged (empty) after a hard
/// failure of a fresh fragment.
pub open spec fn buffer_after<T: JsonDecode>(
    pending: Option<Seq<char>>,
    chunk: Seq<char>,
) -> Option<Seq<char>> {
    if add_emits::<T>(pending, chunk) {
        None
    } else {
        match pending {
            None => if T::json_eof(chunk) {
                Some(chunk)
            } else {
                None
            },
            Some(b) => Some(b + chunk),
        }
    }
}

impl Assembler {
    /// A fresh, idle assembler for one stream.
    pub fn new() -> (a: Assembler)
        ensures
            a@ is None,
    {
        Assembler { buffered: None }
    }

    /// Whether a document has started to arrive but is not complete yet.
    pub fn is_accumulating(&self) -> (r: bool)
        ensures
            r == (self@ is Some),
    {
        self.buffered.is_some()
    }

    /// Feed the next text fragment; decode a document if one is now complete.
    ///
    /// Returns `Ok(Some(value))` when the pending text plus `chunk` is one
    /// complete document, `Ok(None)` when more text is awaited, and a hard
    /// decode failure only for a fresh fragment that can never become a
    /// document of the target type. At most one value comes out per call,
    /// and the pending text moves exactly as `buffer_after` says.
    pub fn add<T: JsonDecode>(&mut self, chunk: &str) -> (r: Result<Option<T>, DecodeError>)
        ensures
            final(self)@ == buffer_after::<T>(old(self)@, chunk@),
            (match r {
                Ok(Some(v)) => add_emits::<T>(old(self)@, chunk@) && Some(v.model())
                    == add_value::<T>(old(self)@, chunk@),
                Ok(None) => !add_emits::<T>(old(self)@, chunk@) && !add_rejects::<T>(
                    old(self)@,
                    chunk@,
                ),
                Err(_) => add_rejects::<T>(old(self)@, chunk@),
            }),
    {
        let pending = self.buffered.take();
        match pending {
            None => match T::decode_json(chunk) {
                DecodeOutcome::Complete(v) => Ok(Some(v)),
                DecodeOutcome::Incomplete => {
                    self.buffered = Some(chunk.to_owned());
                    Ok(None)
                },
                DecodeOutcome::Rejected(e) => Err(e),
            },
            Some(mut buffer) => {
                buffer.append(chunk);
                match T::decode_json(buffer.as_str()) {
                    DecodeOutcome::Complete(v) => Ok(Some(v)),
                    _ => {
                        self.buffered = Some(buffer);
                        Ok(None)
                    },
                }
            },
        }
    }

    /// One step of a stream loop whose transport frames documents with
    /// newline delimiter fragments. A fragment that is exactly the delimiter
    /// carries no document text: it is skipped without touching the pending
    /// buffer and without a decode attempt. Every other fragment is fed to
    /// [`Assembler::add`].
    pub fn add_frame<T: JsonDecode>(&mut self, fragment: &str) -> (r: Result<
        Option<T>,
        DecodeError,
    >)
        ensures
            fragment@ == "\n"@ ==> final(self)@ == old(self)@ && r == Ok::<
                Option<T>,
                DecodeError,
            >(None),
            fragment@ != "\n"@ ==> {
                &&& final(self)@ == buffer_after::<T>(old(self)@, fragment@)
                &&& (match r {
                    Ok(Some(v)) => add_emits::<T>(old(self)@, fragment@) && Some(v.model())
                        == add_value::<T>(old(self)@, fragment@),
                    Ok(None) => !add_emits::<T>(old(self)@, fragment@) && !add_rejects::<T>(
                        old(self)@,
                        fragment@,
                    ),
                    Err(_) => add_rejects::<T>(old(self)@, fragment@),
                })
            },
    {
        if crate::text::str_eq(fragment, "\n") {
            Ok(None)
        } else {
            self.add(fragment)
        }
    }
}

/// A fragment that is one complete document decodes in a single call from the
/// idle state: the value is the document's own, and the assembler is idle
/// again, with nothing buffered.
pub proof fn lemma_complete_chunk_decodes_alone<T: JsonDecode>(s: Seq<char>)
    requires
        T::json_of(s) is Some,
    ensures
        add_emits::<T>(Option::<Seq<char>>::None, s),
        add_value::<T>(Option::<Seq<char>>::None, s) == T::json_of(s),
        buffer_after::<T>(Option::<Seq<char>>::None, s) is None,
{
}

/// A document split anywhere into two fragments is reassembled: the first
/// fragment, having run out of input, is buffered and yields no value, and
/// the second call decodes the whole document and empties the buffer.
pub proof fn lemma_split_document_reassembled<T: JsonDecode>(s1: Seq<char>, s2: Seq<char>)
    requires
        s1.len() > 0,
        T::json_of(s1) is None,
        T::json_eof(s1),
        T::json_of(s1 + s2) is Some,
    ensures
        !add_emits::<T>(Option::<Seq<char>>::None, s1),
        !add_rejects::<T>(Option::<Seq<char>>::None, s1),
        buffer_after::<T>(Option::<Seq<char>>::None, s1) == Some(s1),
        add_emits::<T>(Some(s1), s2),
        add_value::<T>(Some(s1), s2) == T::json_of(s1 + s2),
        buffer_after::<T>(Some(s1), s2) is None,
{
}

/// A document split into three fragments is reassembled the same way: the
/// first two calls yield no value and grow the buffer, the third decodes
/// the whole document. Once text is accumulating, a failed attempt needs no
/// end-of-input signal to keep waiting.
pub proof fn lemma_three_way_split_reassembled<T: JsonDecode>(
    s1: Seq<char>,
    s2: Seq<char>,
    s3: Seq<char>,
)
    requires
        s1.len() > 0,
        T::json_of(s1) is None,
        T::json_eof(s1),
        T::json_of(s1 + s2) is None,
        T::json_of(s1 + s2 + s3) is Some,
    ensures
        buffer_after::<T>(Option::<Seq<char>>::None, s1) == Some(s1),
        !add_emits::<T>(Option::<Seq<char>>::None, s1),
        !add_rejects::<T>(Option::<Seq<char>>::None, s1),
        buffer_after::<T>(Some(s1), s2) == Some(s1 + s2),
        !add_emits::<T>(Some(s1), s2),
        !add_rejects::<T>(Some(s1), s2),
        add_emits::<T>(Some(s1 + s2), s3),
        add_value::<T>(Some(s1 + s2), s3) == T::json_of(s1 + s2 + s3),
        buffer_after::<T>(Some(s1 + s2), s3) is None,
{
}

/// After any successful decode the buffer is empty, so the very next call
/// behaves exactly as on a fresh assembler, whatever was pending before.
pub proof fn lemma_buffer_clears_on_success<T: JsonDecode>(
    pending: Option<Seq<char>>,
    chunk: Seq<char>,
    next: Seq<char>,
)
    requires
        add_emits::<T>(pending, chunk),
    ensures
        buffer_after::<T>(pending, chunk) is None,
        add_emits::<T>(buffer_after::<T>(pending, chunk), next) == add_emits::<T>(
            Option::<Seq<char>>::None,
            next,
        ),
        add_value::<T>(buffer_after::<T>(pending, chunk), next) == add_value::<T>(
            Option::<Seq<char>>::None,
            next,
        ),
        add_rejects::<T>(buffer_after::<T>(pending, chunk), next) == add_rejects::<T>(
            Option::<Seq<char>>::None,
            next,
        ),
        buffer_after::<T>(buffer_after::<T>(pending, chunk), next) == buffer_after::<T>(
            Option::<Seq<char>>::None,
            next,
        ),
{
}

/// The concatenation of the first `k` fragments of a stream.
pub open spec fn concat_prefix(chunks: Seq<Seq<char>>, k: int) -> Seq<char>
    decreases k,
{
    if k <= 0 {
        Seq::empty()
    } else {
        concat_prefix(chunks, k - 1) + chunks[k - 1]
    }
}

/// The pending text after the first `k` fragments of a stream have been fed
/// to a fresh assembler.
pub open spec fn buffer_at<T: JsonDecode>(chunks: Seq<Seq<char>>, k: int) -> Option<Seq<char>>
    decreases k,
{
    if k <= 0 {
        Option::<Seq<char>>::None
    } else {
        buffer_after::<T>(buffer_at::<T>(chunks, k - 1), chunks[k - 1])
    }
}

/// While no prefix of the stream has formed a complete document, the buffer
/// holds exactly the text fed so far.
proof fn lemma_buffer_accumulates<T: JsonDecode>(chunks: Seq<Seq<char>>, k: int)
    requires
        1 <= k <= chunks.len(),
        T::json_of(chunks[0]) is None,
        T::json_eof(chunks[0]),
        forall|j: int| 1 <= j <= k ==> T::json_of(#[trigger] concat_prefix(chunks, j)) is None,
    ensures
        buffer_at::<T>(chunks, k) == Some(concat_prefix(chunks, k)),
    decreases k,
{
    if k == 1 {
        assert(concat_prefix(chunks, 0) =~= Seq::<char>::empty());
        assert(concat_prefix(chunks, 1) =~= chunks[0]);
    } else {
        lemma_buffer_accumulates::<T>(chunks, k - 1);
        assert(T::json_of(concat_prefix(chunks, k)) is None);
    }
}

/// No document is ever silently dropped. Feed any number of fragments to a
/// fresh assembler; while no concatenation of them is yet a complete
/// document, every call yields no value and no error, and once the whole
/// text is one complete document, that very call yields its value and
/// empties the buffer.
pub proof fn lemma_no_document_lost<T: JsonDecode>(chunks: Seq<Seq<char>>)
    requires
        chunks.len() >= 2,
        T::json_of(chunks[0]) is None,
        T::json_eof(chunks[0]),
        forall|j: int| 1 <= j < chunks.len() ==> T::json_of(#[trigger] concat_prefix(chunks, j))
            is None,
        T::json_of(concat_prefix(chunks, chunks.len() as int)) is Some,
    ensures
        forall|k: int|
            0 <= k < chunks.len() - 1 ==> !add_emits::<T>(
                #[trigger] buffer_at::<T>(chunks, k),
                chunks[k],
            ) && !add_rejects::<T>(buffer_at::<T>(chunks, k), chunks[k]),
        add_emits::<T>(buffer_at::<T>(chunks, chunks.len() - 1), chunks[chunks.len() - 1]),
        add_value::<T>(buffer_at::<T>(chunks, chunks.len() - 1), chunks[chunks.len() - 1])
            == T::json_of(concat_prefix(chunks, chunks.len() as int)),
        buffer_at::<T>(chunks, chunks.len() as int) is None,
{
    let n = chunks.len() as int;
    assert forall|k: int| 0 <= k < n - 1 implies !add_emits::<T>(
        #[trigger] buffer_at::<T>(chunks, k),
        chunks[k],
    ) && !add_rejects::<T>(buffer_at::<T>(chunks, k), chunks[k]) by {
        if k == 0 {
            assert(concat_prefix(chunks, 0) =~= Seq::<char>::empty());
            assert(concat_prefix(chunks, 1) =~= chunks[0]);
            assert(joined_text(buffer_at::<T>(chunks, 0), chunks[0]) == chunks[0]);
        } else {
            lemma_buffer_accumulates::<T>(chunks, k);
            assert(joined_text(Some(concat_prefix(chunks, k)), chunks[k]) == concat_prefix(
                chunks,
                k + 1,
            ));
            assert(T::json_of(concat_prefix(chunks, k + 1)) is None);
        }
    }
    lemma_buffer_accumulates::<T>(chunks, n - 1);
    assert(joined_text(Some(concat_prefix(chunks, n - 1)), chunks[n - 1]) == concat_prefix(
        chunks,
        n,
    ));
}

/// A hard failure is isolated: a fresh fragment that can never parse is
/// rejected, the buffer stays empty, and a complete document fed afterwards
/// decodes exactly as it would on a fresh assembler.
pub proof fn lemma_hard_error_isolated<T: JsonDecode>(bad: Seq<char>, next: Seq<char>)
    requires
        T::json_of(bad) is None,
        !T::json_eof(bad),
    ensures
        add_rejects::<T>(Option::<Seq<char>>::None, bad),
        buffer_after::<T>(Option::<Seq<char>>::None, bad) is None,
        T::json_of(next) is Some ==> add_emits::<T>(
            buffer_after::<T>(Option::<Seq<char>>::None, bad),
            next,
        ) && add_value::<T>(buffer_after::<T>(Option::<Seq<char>>::None, bad), next) == T::json_of(
            next,
        ),
{
}

} // verus!
