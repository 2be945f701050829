use vstd::prelude::*;
use crate::descriptor::{parsed_operations, DescriptorView};
use crate::error::{Failure, LeadingPart};
use crate::payload::FileBlobView;
use crate::upload_map::parsed_upload_map;

verus! {

/// The two limits of a handler: the largest file, in bytes, and the largest
/// number of files in one request.
#[derive(Clone, Copy, Debug, PartialEq, Eq, Structural)]
pub struct Limits {
    pub max_file_size: usize,
    pub max_file_count: usize,
}

/// The content disposition of a part, as plain values.
pub ghost struct DispositionView {
    pub name: Option<Seq<char>>,
    pub filename: Option<Seq<char>>,
}

/// The headers of a part, as plain values.
pub ghost struct HeaderView {
    pub disposition: Option<DispositionView>,
    pub content_type: Seq<char>,
}

/// One part of a multipart body, as plain values: its headers and the chunks
/// in which its bytes arrive.
pub ghost struct PartView {
    pub header: HeaderView,
    pub chunks: Seq<Seq<u8>>,
}

/// A decoded file at one of the variable paths it was mapped to.
pub ghost struct AttachmentView {
    pub field_name: Seq<char>,
    pub variable_path: Seq<char>,
    pub file: FileBlobView,
}

/// What the decoder holds while it takes file parts.
pub ghost struct UploadsView {
    pub operation: DescriptorView,
    /// The entries of the upload map that no file part has answered yet.
    pub pending: Map<Seq<char>, Seq<Seq<char>>>,
    /// The number of file parts taken so far.
    pub file_count: nat,
    pub attachments: Seq<AttachmentView>,
}

/// How far the decoder has come, with what it has gathered.
pub ghost enum Progress {
    /// Nothing was read; the `operations` part is due.
    Operations,
    /// The operation was read; the `map` part is due.
    FileMap(DescriptorView),
    /// Operation and map were read; file parts follow.
    Files(UploadsView),
}

/// The state of the decoder between two parts.
pub ghost struct DecoderView {
    pub limits: Limits,
    pub progress: Progress,
}

/// What a file part goes to once it is complete.
pub ghost struct FileTarget {
    pub field_name: Seq<char>,
    pub filename: Seq<char>,
    pub content_type: Seq<char>,
    pub paths: Seq<Seq<char>>,
}

/// Which part is open, with what the decoder had gathered before it.
pub ghost enum FieldKind {
    Operations,
    FileMap(DescriptorView),
    /// A file part. The entry that it answers is taken out of the pending
    /// entries already.
    File(UploadsView, FileTarget),
}

/// The state of the decoder inside a part.
pub ghost struct OpenFieldView {
    pub limits: Limits,
    pub kind: FieldKind,
    pub buffered: Seq<u8>,
}

/// What a successful decoding hands on.
pub ghost struct DecodedView {
    pub operation: DescriptorView,
    pub attachments: Seq<AttachmentView>,
}

impl DecoderView {
    /// The file counter is within its limit.
    pub open spec fn wf(self) -> bool {
        match self.progress {
            Progress::Files(uploads) => uploads.file_count <= self.limits.max_file_count,
            _ => true,
        }
    }
}

impl OpenFieldView {
    /// The number of bytes that the open part may gather: the size limit for a
    /// file; for the two leading parts, which have no limit of their own, what
    /// the machine can address.
    pub open spec fn capacity(self) -> int {
        match self.kind {
            FieldKind::File(_, _) => self.limits.max_file_size as int,
            _ => usize::MAX as int,
        }
    }

    /// The gathered bytes are within the part's capacity and the file counter
    /// is within its limit.
    pub open spec fn wf(self) -> bool {
        &&& self.buffered.len() <= self.capacity()
        &&& match self.kind {
            FieldKind::File(uploads, _) => uploads.file_count <= self.limits.max_file_count,
            _ => true,
        }
    }
}

/// The decoder before the first part.
pub open spec fn start(limits: Limits) -> DecoderView {
    DecoderView { limits, progress: Progress::Operations }
}

/// The decoder once the operation is known.
pub open spec fn expecting_map(limits: Limits, operation: DescriptorView) -> DecoderView {
    DecoderView { limits, progress: Progress::FileMap(operation) }
}

/// The decoder once operation and upload map are known.
pub open spec fn expecting_files(
    limits: Limits,
    operation: DescriptorView,
    map: Map<Seq<char>, Seq<Seq<char>>>,
) -> DecoderView {
    DecoderView {
        limits,
        progress: Progress::Files(
            UploadsView { operation, pending: map, file_count: 0, attachments: Seq::empty() },
        ),
    }
}

/// Opening a leading part: it must carry a disposition, a name, and the name
/// due at its place.
pub open spec fn begin_leading(header: HeaderView, part: LeadingPart) -> Result<(), Failure> {
    match header.disposition {
        Some(disposition) => match disposition.name {
            Some(name) => if name == part.spec_name() {
                Ok(())
            } else {
                Err(Failure::ExpectedField(part))
            },
            None => Err(Failure::MissingName(part)),
        },
        None => Err(Failure::MalformedField),
    }
}

/// Opening a file part: it must carry a name and a file name, and the name
/// must be pending in the upload map. Its entry leaves the map.
pub open spec fn begin_file(limits: Limits, uploads: UploadsView, header: HeaderView) -> Result<
    OpenFieldView,
    Failure,
> {
    match header.disposition {
        Some(disposition) => match (disposition.name, disposition.filename) {
            (Some(name), Some(filename)) => if uploads.pending.contains_key(name) {
                Ok(
                    OpenFieldView {
                        limits,
                        kind: FieldKind::File(
                            UploadsView { pending: uploads.pending.remove(name), ..uploads },
                            FileTarget {
                                field_name: name,
                                filename,
                                content_type: header.content_type,
                                paths: uploads.pending[name],
                            },
                        ),
                        buffered: Seq::empty(),
                    },
                )
            } else {
                Err(Failure::UnexpectedField)
            },
            _ => Err(Failure::MalformedField),
        },
        None => Err(Failure::MalformedField),
    }
}

/// The decoder meets the headers of the next part.
pub open spec fn begin(decoder: DecoderView, header: HeaderView) -> Result<OpenFieldView, Failure> {
    match decoder.progress {
        Progress::Operations => match begin_leading(header, LeadingPart::Operations) {
            Ok(_) => Ok(
                OpenFieldView {
                    limits: decoder.limits,
                    kind: FieldKind::Operations,
                    buffered: Seq::empty(),
                },
            ),
            Err(failure) => Err(failure),
        },
        Progress::FileMap(operation) => match begin_leading(header, LeadingPart::FileMap) {
            Ok(_) => Ok(
                OpenFieldView {
                    limits: decoder.limits,
                    kind: FieldKind::FileMap(operation),
                    buffered: Seq::empty(),
                },
            ),
            Err(failure) => Err(failure),
        },
        Progress::Files(uploads) => begin_file(decoder.limits, uploads, header),
    }
}

/// The open part meets its next chunk: the chunk is gathered unless it would
/// take the part over its capacity.
pub open spec fn push(field: OpenFieldView, chunk: Seq<u8>) -> Result<OpenFieldView, Failure> {
    if field.buffered.len() + chunk.len() <= field.capacity() {
        Ok(OpenFieldView { buffered: field.buffered + chunk, ..field })
    } else {
        Err(Failure::PayloadTooLarge)
    }
}

/// The open part meets a run of chunks. The first failure ends the run.
pub open spec fn push_all(field: OpenFieldView, chunks: Seq<Seq<u8>>) -> Result<
    OpenFieldView,
    Failure,
>
    decreases chunks.len(),
{
    if chunks.len() == 0 {
        Ok(field)
    } else {
        match push_all(field, chunks.drop_last()) {
            Ok(gathered) => push(gathered, chunks.last()),
            Err(failure) => Err(failure),
        }
    }
}

/// The attachments that one file makes: one for each of its paths, in order,
/// all with the same file.
pub open spec fn attach(target: FileTarget, bytes: Seq<u8>) -> Seq<AttachmentView> {
    Seq::new(
        target.paths.len(),
        |i: int|
            AttachmentView {
                field_name: target.field_name,
                variable_path: target.paths[i],
                file: FileBlobView {
                    filename: target.filename,
                    content_type: target.content_type,
                    bytes,
                },
            },
    )
}

/// The open part ends. A leading part is parsed, and a part that does not
/// parse fails with the parser's message; a file is counted, checked
/// against the count limit and recorded at each of its paths.
pub open spec fn end(field: OpenFieldView) -> Result<DecoderView, Failure> {
    match field.kind {
        FieldKind::Operations => match parsed_operations(field.buffered) {
            Ok(operation) => Ok(expecting_map(field.limits, operation)),
            Err(failure) => Err(failure),
        },
        FieldKind::FileMap(operation) => match parsed_upload_map(field.buffered) {
            Ok(map) => Ok(expecting_files(field.limits, operation, map)),
            Err(failure) => Err(failure),
        },
        FieldKind::File(uploads, target) => if uploads.file_count + 1
            > field.limits.max_file_count {
            Err(Failure::PayloadTooLarge)
        } else {
            Ok(
                DecoderView {
                    limits: field.limits,
                    progress: Progress::Files(
                        UploadsView {
                            file_count: uploads.file_count + 1,
                            attachments: uploads.attachments + attach(target, field.buffered),
                            ..uploads
                        },
                    ),
                },
            )
        },
    }
}

/// The body ends. Both leading parts must have come, and no entry of the
/// upload map may be pending.
pub open spec fn finish(decoder: DecoderView) -> Result<DecodedView, Failure> {
    match decoder.progress {
        Progress::Files(uploads) => if uploads.pending == Map::<
            Seq<char>,
            Seq<Seq<char>>,
        >::empty() {
            Ok(DecodedView { operation: uploads.operation, attachments: uploads.attachments })
        } else {
            Err(Failure::IncompleteUpload)
        },
        _ => Err(Failure::MalformedField),
    }
}

/// The decoder takes one whole part: headers, chunks, end.
pub open spec fn decode_part(decoder: DecoderView, part: PartView) -> Result<DecoderView, Failure> {
    match begin(decoder, part.header) {
        Ok(field) => match push_all(field, part.chunks) {
            Ok(gathered) => end(gathered),
            Err(failure) => Err(failure),
        },
        Err(failure) => Err(failure),
    }
}

/// The decoder takes a run of parts. The first failure ends the run.
pub open spec fn decode_parts(decoder: DecoderView, parts: Seq<PartView>) -> Result<
    DecoderView,
    Failure,
>
    decreases parts.len(),
{
    if parts.len() == 0 {
        Ok(decoder)
    } else {
        match decode_parts(decoder, parts.drop_last()) {
            Ok(reached) => decode_part(reached, parts.last()),
            Err(failure) => Err(failure),
        }
    }
}

/// A whole multipart body is decoded under the given limits.
pub open spec fn decode_body(limits: Limits, parts: Seq<PartView>) -> Result<DecodedView, Failure> {
    match decode_parts(start(limits), parts) {
        Ok(reached) => finish(reached),
        Err(failure) => Err(failure),
    }
}

/// Once a run of chunks has failed, more chunks do not change the failure.
pub proof fn lemma_push_all_sticky(field: OpenFieldView, chunks: Seq<Seq<u8>>, k: int)
    requires
        0 <= k <= chunks.len(),
        push_all(field, chunks.take(k)) is Err,
    ensures
        push_all(field, chunks) == push_all(field, chunks.take(k)),
    decreases chunks.len(),
{
    if k == chunks.len() {
        assert(chunks.take(k) =~= chunks);
    } else {
        assert(chunks.drop_last().take(k) =~= chunks.take(k));
        lemma_push_all_sticky(field, chunks.drop_last(), k);
    }
}

/// Once a run of parts has failed, more parts do not change the failure.
pub proof fn lemma_decode_parts_sticky(decoder: DecoderView, parts: Seq<PartView>, k: int)
    requires
        0 <= k <= parts.len(),
        decode_parts(decoder, parts.take(k)) is Err,
    ensures
        decode_parts(decoder, parts) == decode_parts(decoder, parts.take(k)),
    decreases parts.len(),
{
    if k == parts.len() {
        assert(parts.take(k) =~= parts);
    } else {
        assert(parts.drop_last().take(k) =~= parts.take(k));
        lemma_decode_parts_sticky(decoder, parts.drop_last(), k);
    }
}


/// The bytes of a run of chunks, one after the other.
pub open spec fn joined(chunks: Seq<Seq<u8>>) -> Seq<u8>
    decreases chunks.len(),
{
    if chunks.len() == 0 {
        Seq::empty()
    } else {
        joined(chunks.drop_last()) + chunks.last()
    }
}

/// The name that a part carries in its content disposition, if any.
pub open spec fn part_name(part: PartView) -> Option<Seq<char>> {
    match part.header.disposition {
        Some(disposition) => disposition.name,
        None => None,
    }
}

/// A run of chunks is gathered exactly where all of its bytes fit into the
/// part's capacity; the part then holds them after what it held, and is
/// otherwise as it was. Where they do not fit, the failure is a payload
/// error.
pub proof fn lemma_push_all(field: OpenFieldView, chunks: Seq<Seq<u8>>)
    requires
        field.buffered.len() <= field.capacity(),
    ensures
        match push_all(field, chunks) {
            Ok(gathered) => {
                &&& field.buffered.len() + joined(chunks).len() <= field.capacity()
                &&& gathered == OpenFieldView { buffered: field.buffered + joined(chunks), ..field }
            },
            Err(failure) => {
                &&& field.buffered.len() + joined(chunks).len() > field.capacity()
                &&& failure == Failure::PayloadTooLarge
            },
        },
    decreases chunks.len(),
{
    if chunks.len() == 0 {
        assert(field.buffered + joined(chunks) =~= field.buffered);
    } else {
        lemma_push_all(field, chunks.drop_last());
        assert((field.buffered + joined(chunks.drop_last())) + chunks.last() =~= field.buffered
            + joined(chunks));
    }
}

/// Every step of the decoder keeps the gathered bytes within the capacity of
/// the open part, and the file counter within its limit: a decoder that
/// starts within its limits never leaves them.
pub proof fn limits_are_kept(
    decoder: DecoderView,
    header: HeaderView,
    field: OpenFieldView,
    chunk: Seq<u8>,
)
    requires
        decoder.wf(),
        field.wf(),
    ensures
        start(decoder.limits).wf(),
        begin(decoder, header) matches Ok(opened) ==> opened.wf() && opened.limits
            == decoder.limits,
        push(field, chunk) matches Ok(gathered) ==> gathered.wf() && gathered.limits
            == field.limits,
        end(field) matches Ok(reached) ==> reached.wf() && reached.limits == field.limits,
{
}

/// How the bytes of a part are cut into chunks does not matter: two runs of
/// chunks with the same bytes leave the part in the same state, or fail
/// alike.
pub proof fn chunking_does_not_matter(
    field: OpenFieldView,
    first: Seq<Seq<u8>>,
    second: Seq<Seq<u8>>,
)
    requires
        field.wf(),
        joined(first) == joined(second),
    ensures
        push_all(field, first) == push_all(field, second),
{
    lemma_push_all(field, first);
    lemma_push_all(field, second);
}

/// No file ever holds more bytes than the size limit: however its chunks
/// are cut, a file part is gathered exactly where its bytes fit the
/// limit, and is given up with a payload error as soon as a chunk would take
/// it over the limit, whatever chunks follow.
pub proof fn file_never_exceeds_size_limit(field: OpenFieldView, chunks: Seq<Seq<u8>>, k: int)
    requires
        field.kind is File,
        field.wf(),
        0 <= k <= chunks.len(),
    ensures
        push_all(field, chunks) matches Ok(gathered) ==> gathered.buffered.len()
            <= field.limits.max_file_size,
        push_all(field, chunks) is Ok <==> field.buffered.len() + joined(chunks).len()
            <= field.limits.max_file_size,
        field.buffered.len() + joined(chunks.take(k)).len() > field.limits.max_file_size
            ==> push_all(field, chunks) == Err::<OpenFieldView, Failure>(Failure::PayloadTooLarge),
        Failure::PayloadTooLarge.spec_status().spec_code() == 413,
{
    lemma_push_all(field, chunks);
    lemma_push_all(field, chunks.take(k));
    if push_all(field, chunks.take(k)) is Err {
        lemma_push_all_sticky(field, chunks, k);
    }
}

/// A file part that is in order is attached with the bytes that arrived for
/// it: where the leading parts were taken, the upload map lists one file at
/// one path, and that file arrives within the limits, the body is decoded,
/// and its one attachment holds the file's bytes, chunk after chunk, at the
/// path that the map gave.
pub proof fn delivered_file_is_attached_with_its_bytes(
    limits: Limits,
    parts: Seq<PartView>,
    operation: DescriptorView,
    name: Seq<char>,
    path: Seq<char>,
    filename: Seq<char>,
)
    requires
        parts.len() == 3,
        decode_parts(start(limits), parts.take(2)) == Ok::<DecoderView, Failure>(
            expecting_files(
                limits,
                operation,
                Map::<Seq<char>, Seq<Seq<char>>>::empty().insert(name, seq![path]),
            ),
        ),
        parts[2].header.disposition == Some(
            DispositionView { name: Some(name), filename: Some(filename) },
        ),
        joined(parts[2].chunks).len() <= limits.max_file_size,
        limits.max_file_count >= 1,
    ensures
        decode_body(limits, parts) == Ok::<DecodedView, Failure>(
            DecodedView {
                operation,
                attachments: seq![
                    AttachmentView {
                        field_name: name,
                        variable_path: path,
                        file: FileBlobView {
                            filename,
                            content_type: parts[2].header.content_type,
                            bytes: joined(parts[2].chunks),
                        },
                    },
                ],
            },
        ),
{
    let map = Map::<Seq<char>, Seq<Seq<char>>>::empty().insert(name, seq![path]);
    let ready = expecting_files(limits, operation, map);
    assert(parts.drop_last() =~= parts.take(2));
    assert(decode_parts(start(limits), parts) == decode_part(ready, parts[2]));
    let field = begin(ready, parts[2].header)->Ok_0;
    lemma_push_all(field, parts[2].chunks);
    assert(Seq::<u8>::empty() + joined(parts[2].chunks) =~= joined(parts[2].chunks));
    assert(map.remove(name) =~= Map::<Seq<char>, Seq<Seq<char>>>::empty());
    let target = FileTarget {
        field_name: name,
        filename,
        content_type: parts[2].header.content_type,
        paths: seq![path],
    };
    assert(Seq::<AttachmentView>::empty() + attach(target, joined(parts[2].chunks)) =~= seq![
        AttachmentView {
            field_name: name,
            variable_path: path,
            file: FileBlobView {
                filename,
                content_type: parts[2].header.content_type,
                bytes: joined(parts[2].chunks),
            },
        },
    ]);
}

/// A body whose first part carries another name than `operations` is
/// rejected for that, with status 400, whatever parts follow it: none of
/// them is looked at. This is the fate of a body that starts with `map`.
pub proof fn misplaced_operations_is_rejected(limits: Limits, parts: Seq<PartView>)
    requires
        parts.len() >= 1,
        part_name(parts[0]) matches Some(name) && name != LeadingPart::Operations.spec_name(),
    ensures
        decode_body(limits, parts) == Err::<DecodedView, Failure>(
            Failure::ExpectedField(LeadingPart::Operations),
        ),
        Failure::ExpectedField(LeadingPart::Operations).spec_status().spec_code() == 400,
{
    assert(parts.take(1).drop_last() =~= Seq::<PartView>::empty());
    assert(decode_parts(start(limits), parts.take(1).drop_last()) == Ok::<DecoderView, Failure>(
        start(limits),
    ));
    assert(parts.take(1).last() == parts[0]);
    assert(decode_parts(start(limits), parts.take(1)) == decode_part(start(limits), parts[0]));
    lemma_decode_parts_sticky(start(limits), parts, 1);
}

/// A body whose second part carries another name than `map` is rejected for
/// that, with status 400, whatever parts follow it: no file part is looked
/// at. A body that ends after its first part is rejected as malformed.
pub proof fn missing_map_is_rejected(limits: Limits, parts: Seq<PartView>)
    requires
        parts.len() >= 1,
        decode_part(start(limits), parts[0]) is Ok,
    ensures
        parts.len() == 1 ==> decode_body(limits, parts) == Err::<DecodedView, Failure>(
            Failure::MalformedField,
        ),
        parts.len() >= 2 && (part_name(parts[1]) matches Some(name) && name
            != LeadingPart::FileMap.spec_name()) ==> decode_body(limits, parts) == Err::<
            DecodedView,
            Failure,
        >(Failure::ExpectedField(LeadingPart::FileMap)),
        Failure::MalformedField.spec_status().spec_code() == 400,
        Failure::ExpectedField(LeadingPart::FileMap).spec_status().spec_code() == 400,
{
    let first = decode_part(start(limits), parts[0]);
    assert(parts.take(1).drop_last() =~= Seq::<PartView>::empty());
    assert(decode_parts(start(limits), parts.take(1).drop_last()) == Ok::<DecoderView, Failure>(
        start(limits),
    ));
    assert(parts.take(1).last() == parts[0]);
    assert(decode_parts(start(limits), parts.take(1)) == first);
    assert(first->Ok_0.progress is FileMap) by {
        lemma_push_all(begin(start(limits), parts[0].header)->Ok_0, parts[0].chunks);
    }
    if parts.len() == 1 {
        assert(parts.take(1) =~= parts);
    } else if part_name(parts[1]) matches Some(name) && name != LeadingPart::FileMap.spec_name() {
        assert(parts.take(2).drop_last() =~= parts.take(1));
        assert(parts.take(2).last() == parts[1]);
        assert(decode_parts(start(limits), parts.take(2)) == decode_part(first->Ok_0, parts[1]));
        lemma_decode_parts_sticky(start(limits), parts, 2);
    }
}

/// A body without any part is rejected as malformed.
pub proof fn empty_body_is_rejected(limits: Limits)
    ensures
        decode_body(limits, Seq::<PartView>::empty()) == Err::<DecodedView, Failure>(
            Failure::MalformedField,
        ),
{
}

/// While files are taken, every part that is accepted is counted, and the
/// counter never passes the count limit. The operation stays as it is, and
/// no entry comes into the pending ones.
pub proof fn files_are_counted(decoder: DecoderView, parts: Seq<PartView>)
    requires
        decoder.progress is Files,
        decoder.wf(),
    ensures
        decode_parts(decoder, parts) matches Ok(reached) ==> {
            &&& reached.limits == decoder.limits
            &&& reached.progress matches Progress::Files(uploads)
            &&& uploads.file_count == decoder.progress->Files_0.file_count + parts.len()
            &&& uploads.file_count <= decoder.limits.max_file_count
            &&& uploads.operation == decoder.progress->Files_0.operation
            &&& uploads.pending.dom().subset_of(decoder.progress->Files_0.pending.dom())
        },
    decreases parts.len(),
{
    if parts.len() > 0 {
        files_are_counted(decoder, parts.drop_last());
        let earlier = decode_parts(decoder, parts.drop_last());
        if earlier is Ok {
            let opened = begin(earlier->Ok_0, parts.last().header);
            if opened is Ok {
                lemma_push_all(opened->Ok_0, parts.last().chunks);
            }
        }
    }
}

/// More file parts than the count limit allows are never accepted.
pub proof fn too_many_files_are_rejected(decoder: DecoderView, parts: Seq<PartView>)
    requires
        decoder.progress is Files,
        decoder.wf(),
        decoder.progress->Files_0.file_count + parts.len() > decoder.limits.max_file_count,
    ensures
        decode_parts(decoder, parts) is Err,
{
    files_are_counted(decoder, parts);
}

/// Once as many files were taken as the count limit allows, the next file
/// part is rejected with a payload error and status 413, even where the part
/// itself is in order.
pub proof fn file_beyond_count_limit_is_rejected(decoder: DecoderView, part: PartView)
    requires
        decoder.progress matches Progress::Files(uploads) && uploads.file_count
            == decoder.limits.max_file_count,
        begin(decoder, part.header) matches Ok(field) && push_all(field, part.chunks) is Ok,
    ensures
        decode_part(decoder, part) == Err::<DecoderView, Failure>(Failure::PayloadTooLarge),
        Failure::PayloadTooLarge.spec_status().spec_code() == 413,
{
    let field = begin(decoder, part.header)->Ok_0;
    lemma_push_all(field, part.chunks);
}

/// Every file part that is accepted answers an entry of the upload map
/// that no earlier part has answered: the accepted parts carry names, the
/// names are listed in the map and differ from each other, and the entries
/// still pending afterwards are those that no part has named.
pub proof fn accepted_files_answer_distinct_entries(decoder: DecoderView, parts: Seq<PartView>)
    requires
        decoder.progress is Files,
    ensures
        decode_parts(decoder, parts) matches Ok(reached) ==> {
            let listed = decoder.progress->Files_0.pending;
            let pending = reached.progress->Files_0.pending;
            &&& reached.progress is Files
            &&& forall|i: int|
                0 <= i < parts.len() ==> (part_name(#[trigger] parts[i]) matches Some(name)
                    && listed.contains_key(name))
            &&& forall|i: int, j: int|
                0 <= i < j < parts.len() ==> part_name(#[trigger] parts[i]) != part_name(
                    #[trigger] parts[j],
                )
            &&& forall|name: Seq<char>| #[trigger]
                pending.contains_key(name) <==> (listed.contains_key(name) && forall|i: int|
                    0 <= i < parts.len() ==> part_name(#[trigger] parts[i]) != Some(name))
        },
    decreases parts.len(),
{
    if parts.len() > 0 {
        let front = parts.drop_last();
        accepted_files_answer_distinct_entries(decoder, front);
        let earlier = decode_parts(decoder, front);
        if earlier is Ok && decode_parts(decoder, parts) is Ok {
            let before = earlier->Ok_0;
            let reached = decode_parts(decoder, parts)->Ok_0;
            let listed = decoder.progress->Files_0.pending;
            let held = before.progress->Files_0.pending;
            let pending = reached.progress->Files_0.pending;
            let last = parts.last();
            let opened = begin(before, last.header);
            lemma_push_all(opened->Ok_0, last.chunks);
            let answered = part_name(last)->Some_0;
            assert(part_name(last) == Some(answered));
            assert(held.contains_key(answered));
            assert(pending == held.remove(answered));
            assert forall|i: int| 0 <= i < parts.len() implies (part_name(
                #[trigger] parts[i],
            ) matches Some(name) && listed.contains_key(name)) by {
                if i < front.len() {
                    assert(parts[i] == front[i]);
                }
            }
            assert forall|i: int, j: int| 0 <= i < j < parts.len() implies part_name(
                #[trigger] parts[i],
            ) != part_name(#[trigger] parts[j]) by {
                assert(parts[i] == front[i]);
                if j < front.len() {
                    assert(parts[j] == front[j]);
                } else {
                    assert(part_name(front[i]) != Some(answered));
                }
            }
            assert forall|name: Seq<char>| #[trigger]
                pending.contains_key(name) <==> (listed.contains_key(name) && forall|i: int|
                    0 <= i < parts.len() ==> part_name(#[trigger] parts[i]) != Some(name)) by {
                if pending.contains_key(name) {
                    assert(held.contains_key(name) && name != answered);
                    assert forall|i: int| 0 <= i < parts.len() implies part_name(
                        #[trigger] parts[i],
                    ) != Some(name) by {
                        if i < front.len() {
                            assert(parts[i] == front[i]);
                        }
                    }
                }
                if listed.contains_key(name) && (forall|i: int|
                    0 <= i < parts.len() ==> part_name(#[trigger] parts[i]) != Some(name)) {
                    assert(part_name(parts[parts.len() - 1]) != Some(name));
                    assert forall|i: int| 0 <= i < front.len() implies part_name(
                        #[trigger] front[i],
                    ) != Some(name) by {
                        assert(front[i] == parts[i]);
                    }
                    assert(held.contains_key(name));
                }
            }
        }
    }
}

/// A body is decoded only where every entry of the upload map is answered
/// by exactly one file part, and every file part answers an entry.
pub proof fn decoded_upload_is_complete(
    limits: Limits,
    operation: DescriptorView,
    map: Map<Seq<char>, Seq<Seq<char>>>,
    parts: Seq<PartView>,
)
    requires
        decode_parts(expecting_files(limits, operation, map), parts) matches Ok(reached) && finish(
            reached,
        ) is Ok,
    ensures
        forall|i: int|
            0 <= i < parts.len() ==> (part_name(#[trigger] parts[i]) matches Some(name)
                && map.contains_key(name)),
        forall|i: int, j: int|
            0 <= i < j < parts.len() ==> part_name(#[trigger] parts[i]) != part_name(
                #[trigger] parts[j],
            ),
        forall|name: Seq<char>| #[trigger]
            map.contains_key(name) ==> exists|i: int|
                0 <= i < parts.len() && part_name(#[trigger] parts[i]) == Some(name),
{
    let decoder = expecting_files(limits, operation, map);
    accepted_files_answer_distinct_entries(decoder, parts);
    let reached = decode_parts(decoder, parts)->Ok_0;
    let pending = reached.progress->Files_0.pending;
    assert forall|name: Seq<char>| #[trigger] map.contains_key(name) implies exists|i: int|
        0 <= i < parts.len() && part_name(#[trigger] parts[i]) == Some(name) by {
        assert(!Map::<Seq<char>, Seq<Seq<char>>>::empty().contains_key(name));
        assert(!pending.contains_key(name));
    }
}

/// An entry of the upload map is pending until a part with its name
/// arrives.
pub proof fn unanswered_entry_stays_pending(
    decoder: DecoderView,
    parts: Seq<PartView>,
    name: Seq<char>,
)
    requires
        decoder.progress matches Progress::Files(uploads) && uploads.pending.contains_key(name),
        forall|i: int| 0 <= i < parts.len() ==> part_name(#[trigger] parts[i]) != Some(name),
    ensures
        decode_parts(decoder, parts) matches Ok(reached) ==> (reached.progress matches Progress::Files(
            uploads,
        ) && uploads.pending.contains_key(name)),
    decreases parts.len(),
{
    if parts.len() > 0 {
        assert forall|i: int| 0 <= i < parts.drop_last().len() implies part_name(
            #[trigger] parts.drop_last()[i],
        ) != Some(name) by {
            assert(parts.drop_last()[i] == parts[i]);
        }
        unanswered_entry_stays_pending(decoder, parts.drop_last(), name);
        let earlier = decode_parts(decoder, parts.drop_last());
        if earlier is Ok {
            assert(part_name(parts[parts.len() - 1]) != Some(name));
            let opened = begin(earlier->Ok_0, parts.last().header);
            if opened is Ok {
                lemma_push_all(opened->Ok_0, parts.last().chunks);
            }
        }
    }
}

/// A file that the upload map lists and that no part delivers fails the
/// request: where every part that came was accepted, the end of the body
/// is answered with the failure for missing files, and status 400.
pub proof fn undelivered_file_is_missing(
    limits: Limits,
    operation: DescriptorView,
    map: Map<Seq<char>, Seq<Seq<char>>>,
    parts: Seq<PartView>,
    name: Seq<char>,
)
    requires
        map.contains_key(name),
        forall|i: int| 0 <= i < parts.len() ==> part_name(#[trigger] parts[i]) != Some(name),
    ensures
        match decode_parts(expecting_files(limits, operation, map), parts) {
            Ok(reached) => finish(reached) == Err::<DecodedView, Failure>(
                Failure::IncompleteUpload,
            ),
            Err(_) => true,
        },
        Failure::IncompleteUpload.spec_status().spec_code() == 400,
{
    unanswered_entry_stays_pending(expecting_files(limits, operation, map), parts, name);
    let outcome = decode_parts(expecting_files(limits, operation, map), parts);
    if outcome is Ok {
        let pending = outcome->Ok_0.progress->Files_0.pending;
        assert(pending.contains_key(name));
        assert(!Map::<Seq<char>, Seq<Seq<char>>>::empty().contains_key(name));
    }
}

} // verus!
