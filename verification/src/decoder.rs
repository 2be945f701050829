use vstd::prelude::*;
use bytes::BytesMut;
use crate::decoder_model::{
    attach, begin, begin_leading, decode_body, decode_part, decode_parts, end, expecting_files,
    expecting_map, finish, lemma_decode_parts_sticky, lemma_push_all_sticky, push, push_all, start, AttachmentView, DecodedView, DecoderView,
    DispositionView, FieldKind, FileTarget, HeaderView, Limits, OpenFieldView, PartView, Progress,
    UploadsView,
};
use crate::descriptor::OperationDescriptor;
use crate::error::{Failure, LeadingPart, RequestError};
use crate::payload::{as_slice, buffer_len, buffered, extend_buffer, freeze, new_buffer, FileBlob};
use crate::text::same_text;
use crate::upload_map::{texts, UploadMap};

verus! {

/// The content disposition of a part: the name of its form field and the
/// file name, each as far as the part gives it.
pub struct Disposition {
    pub name: Option<String>,
    pub filename: Option<String>,
}

/// The headers of a part: its content disposition, if it has one, and its
/// content type.
pub struct FieldHeader {
    pub disposition: Option<Disposition>,
    pub content_type: String,
}

/// One part of a multipart body held in memory: its headers and the chunks
/// in which its bytes arrived.
pub struct Part {
    pub header: FieldHeader,
    pub chunks: Vec<Vec<u8>>,
}

/// A decoded file at one of the variable paths it was mapped to. The
/// attachments of one file share its bytes.
pub struct Attachment {
    pub field_name: String,
    pub variable_path: String,
    pub file: FileBlob,
}

/// What a successful decoding hands on: the operation, and the files at the
/// variable paths they go to, in the order in which the files arrived.
pub struct Decoded {
    pub operation: OperationDescriptor,
    pub attachments: Vec<Attachment>,
}

/// The view of an optional text.
pub open spec fn optional_text(text: Option<String>) -> Option<Seq<char>> {
    match text {
        Some(t) => Some(t@),
        None => None,
    }
}

/// The chunks of a part as plain values.
pub open spec fn chunk_views(chunks: Seq<Vec<u8>>) -> Seq<Seq<u8>> {
    Seq::new(chunks.len(), |i: int| chunks[i]@)
}

/// The parts of a body as plain values.
pub open spec fn part_views(parts: Seq<Part>) -> Seq<PartView> {
    Seq::new(parts.len(), |i: int| parts[i]@)
}

/// A list of attachments as plain values.
pub open spec fn attachment_views(attachments: Seq<Attachment>) -> Seq<AttachmentView> {
    Seq::new(attachments.len(), |i: int| attachments[i]@)
}

impl View for Disposition {
    type V = DispositionView;

    open spec fn view(&self) -> DispositionView {
        DispositionView {
            name: optional_text(self.name),
            filename: optional_text(self.filename),
        }
    }
}

impl View for FieldHeader {
    type V = HeaderView;

    open spec fn view(&self) -> HeaderView {
        HeaderView {
            disposition: match self.disposition {
                Some(disposition) => Some(disposition@),
                None => None,
            },
            content_type: self.content_type@,
        }
    }
}

impl View for Part {
    type V = PartView;

    open spec fn view(&self) -> PartView {
        PartView { header: self.header@, chunks: chunk_views(self.chunks@) }
    }
}

impl View for Attachment {
    type V = AttachmentView;

    open spec fn view(&self) -> AttachmentView {
        AttachmentView {
            field_name: self.field_name@,
            variable_path: self.variable_path@,
            file: self.file@,
        }
    }
}

impl View for Decoded {
    type V = DecodedView;

    open spec fn view(&self) -> DecodedView {
        DecodedView {
            operation: self.operation@,
            attachments: attachment_views(self.attachments@),
        }
    }
}

/// A result is the one that the model gives: the same value by its view, or
/// the same failure.
pub open spec fn agrees<T: View>(result: Result<T, RequestError>, model: Result<T::V, Failure>) -> bool {
    match model {
        Ok(value) => result matches Ok(held) && held@ == value,
        Err(failure) => result matches Err(error) && error@ == failure,
    }
}

/// What the decoder holds while it takes file parts.
struct Uploads {
    operation: OperationDescriptor,
    pending: UploadMap,
    file_count: usize,
    attachments: Vec<Attachment>,
}

/// How far the decoder has come, with what it has gathered.
enum State {
    Operations,
    FileMap(OperationDescriptor),
    Files(Uploads),
}

/// What a file part goes to once it is complete.
struct Target {
    field_name: String,
    filename: String,
    content_type: String,
    paths: Vec<String>,
}

/// Which part is open, with what the decoder had gathered before it.
enum Kind {
    Operations,
    FileMap(OperationDescriptor),
    File(Uploads, Target),
}

impl Uploads {
    spec fn model(&self) -> UploadsView {
        UploadsView {
            operation: self.operation@,
            pending: self.pending@,
            file_count: self.file_count as nat,
            attachments: attachment_views(self.attachments@),
        }
    }
}

impl State {
    spec fn model(&self) -> Progress {
        match self {
            State::Operations => Progress::Operations,
            State::FileMap(operation) => Progress::FileMap(operation@),
            State::Files(uploads) => Progress::Files(uploads.model()),
        }
    }
}

impl Target {
    spec fn model(&self) -> FileTarget {
        FileTarget {
            field_name: self.field_name@,
            filename: self.filename@,
            content_type: self.content_type@,
            paths: texts(self.paths@),
        }
    }
}

impl Kind {
    spec fn model(&self) -> FieldKind {
        match self {
            Kind::Operations => FieldKind::Operations,
            Kind::FileMap(operation) => FieldKind::FileMap(operation@),
            Kind::File(uploads, target) => FieldKind::File(uploads.model(), target.model()),
        }
    }
}

/// The multipart upload decoder between two parts. It takes the parts of a
/// body in their order: `operations`, `map`, then the files.
pub struct Decoder {
    limits: Limits,
    state: State,
}

/// The decoder inside a part: it gathers the part's chunks.
pub struct OpenField {
    limits: Limits,
    kind: Kind,
    buffer: BytesMut,
}

impl View for Decoder {
    type V = DecoderView;

    closed spec fn view(&self) -> DecoderView {
        DecoderView { limits: self.limits, progress: self.state.model() }
    }
}

impl View for OpenField {
    type V = OpenFieldView;

    closed spec fn view(&self) -> OpenFieldView {
        OpenFieldView {
            limits: self.limits,
            kind: self.kind.model(),
            buffered: buffered(self.buffer),
        }
    }
}

/// Checks the headers of a leading part against the name due at its place.
fn check_leading(header: &FieldHeader, part: LeadingPart) -> (checked: Result<(), RequestError>)
    ensures
        match begin_leading(header@, part) {
            Ok(_) => checked is Ok,
            Err(failure) => checked matches Err(error) && error@ == failure,
        },
{
    match &header.disposition {
        Some(disposition) => match &disposition.name {
            Some(name) => {
                if same_text(name.as_str(), part.name()) {
                    Ok(())
                } else {
                    Err(RequestError::ExpectedField(part))
                }
            },
            None => Err(RequestError::MissingName(part)),
        },
        None => Err(RequestError::MalformedField),
    }
}

impl Decoder {
    #[verifier::type_invariant]
    spec fn within_limits(&self) -> bool {
        self@.wf()
    }

    /// The limits that the decoder enforces.
    pub fn limits(&self) -> (limits: Limits)
        ensures
            limits == self@.limits,
    {
        self.limits
    }

    /// A decoder before the first part of a body.
    pub fn new(limits: Limits) -> (decoder: Decoder)
        ensures
            decoder@ == start(limits),
    {
        Decoder { limits, state: State::Operations }
    }

    /// A decoder for a body whose operation is known already: the `map` part
    /// is due.
    pub fn with_operation(limits: Limits, operation: OperationDescriptor) -> (decoder: Decoder)
        ensures
            decoder@ == expecting_map(limits, operation@),
    {
        Decoder { limits, state: State::FileMap(operation) }
    }

    /// A decoder for a body whose operation and upload map are known
    /// already: the file parts are due.
    pub fn with_uploads(limits: Limits, operation: OperationDescriptor, map: UploadMap) -> (decoder:
        Decoder)
        ensures
            decoder@ == expecting_files(limits, operation@, map@),
    {
        let uploads = Uploads { operation, pending: map, file_count: 0, attachments: Vec::new() };
        assert(attachment_views(uploads.attachments@) =~= Seq::<AttachmentView>::empty());
        Decoder { limits, state: State::Files(uploads) }
    }

    /// Opens the next part by its headers. A leading part must carry the
    /// name due at its place; a file part must carry a name and a file name,
    /// and the upload map must still list the name.
    pub fn begin_field(self, header: &FieldHeader) -> (opened: Result<OpenField, RequestError>)
        ensures
            agrees(opened, begin(self@, header@)),
    {
        proof {
            use_type_invariant(&self);
        }
        let Decoder { limits, state } = self;
        match state {
            State::Operations => match check_leading(header, LeadingPart::Operations) {
                Ok(_) => Ok(OpenField { limits, kind: Kind::Operations, buffer: new_buffer() }),
                Err(error) => Err(error),
            },
            State::FileMap(operation) => match check_leading(header, LeadingPart::FileMap) {
                Ok(_) => Ok(
                    OpenField { limits, kind: Kind::FileMap(operation), buffer: new_buffer() },
                ),
                Err(error) => Err(error),
            },
            State::Files(uploads) => {
                let named = match &header.disposition {
                    Some(disposition) => match &disposition.name {
                        Some(name) => match &disposition.filename {
                            Some(filename) => Some((name, filename)),
                            None => None,
                        },
                        None => None,
                    },
                    None => None,
                };
                match named {
                    Some((name, filename)) => {
                        let Uploads { operation, pending, file_count, attachments } = uploads;
                        let mut pending = pending;
                        match pending.remove(name.as_str()) {
                            Some(paths) => {
                                let target = Target {
                                    field_name: name.clone(),
                                    filename: filename.clone(),
                                    content_type: header.content_type.clone(),
                                    paths,
                                };
                                let uploads = Uploads {
                                    operation,
                                    pending,
                                    file_count,
                                    attachments,
                                };
                                Ok(
                                    OpenField {
                                        limits,
                                        kind: Kind::File(uploads, target),
                                        buffer: new_buffer(),
                                    },
                                )
                            },
                            None => Err(RequestError::UnexpectedField),
                        }
                    },
                    None => Err(RequestError::MalformedField),
                }
            },
        }
    }

    /// Ends the body. Fails where a leading part is still due, or where the
    /// upload map still lists a file.
    pub fn finish(self) -> (decoded: Result<Decoded, RequestError>)
        ensures
            agrees(decoded, finish(self@)),
    {
        let Decoder { limits, state } = self;
        match state {
            State::Files(uploads) => {
                if uploads.pending.is_empty() {
                    Ok(Decoded { operation: uploads.operation, attachments: uploads.attachments })
                } else {
                    Err(RequestError::IncompleteUpload)
                }
            },
            _ => Err(RequestError::MalformedField),
        }
    }

    /// Takes one whole part: headers, chunks, end.
    pub fn take_part(self, part: &Part) -> (taken: Result<Decoder, RequestError>)
        ensures
            agrees(taken, decode_part(self@, part@)),
    {
        match self.begin_field(&part.header) {
            Ok(field) => match field.push_chunks(&part.chunks) {
                Ok(gathered) => gathered.end_field(),
                Err(error) => Err(error),
            },
            Err(error) => Err(error),
        }
    }
}

impl OpenField {
    #[verifier::type_invariant]
    spec fn within_limits(&self) -> bool {
        self@.wf()
    }

    /// The number of bytes gathered so far.
    pub fn buffered_len(&self) -> (len: usize)
        ensures
            len == self@.buffered.len(),
    {
        buffer_len(&self.buffer)
    }

    /// Gathers the next chunk of the part. Fails with a payload error where
    /// the chunk would take the part over its capacity; the chunk is then not
    /// gathered and the part is given up.
    pub fn push_chunk(self, chunk: &[u8]) -> (pushed: Result<OpenField, RequestError>)
        ensures
            agrees(pushed, push(self@, chunk@)),
    {
        proof {
            use_type_invariant(&self);
        }
        let OpenField { limits, kind, buffer } = self;
        let capacity: usize = match &kind {
            Kind::File(_, _) => limits.max_file_size,
            _ => usize::MAX,
        };
        let held = buffer_len(&buffer);
        if chunk.len() > capacity - held {
            Err(RequestError::PayloadTooLarge)
        } else {
            let mut buffer = buffer;
            extend_buffer(&mut buffer, chunk);
            Ok(OpenField { limits, kind, buffer })
        }
    }

    /// Gathers a run of chunks, up to the first that fails.
    pub fn push_chunks(self, chunks: &Vec<Vec<u8>>) -> (pushed: Result<OpenField, RequestError>)
        ensures
            agrees(pushed, push_all(self@, chunk_views(chunks@))),
    {
        let ghost first = self@;
        let ghost all = chunk_views(chunks@);
        let mut field = self;
        let mut i: usize = 0;
        assert(all.take(0) =~= Seq::<Seq<u8>>::empty());
        while i < chunks.len()
            invariant
                i <= chunks.len(),
                all == chunk_views(chunks@),
                first == self@,
                push_all(first, all.take(i as int)) == Ok::<OpenFieldView, Failure>(field@),
            decreases chunks.len() - i,
        {
            proof {
                assert(all.take(i + 1).drop_last() =~= all.take(i as int));
                assert(all.take(i + 1).last() == chunks@[i as int]@);
            }
            let ghost reached = field@;
            match field.push_chunk(chunks[i].as_slice()) {
                Ok(next) => {
                    field = next;
                },
                Err(error) => {
                    proof {
                        assert(push_all(first, all.take(i + 1)) == push(
                            reached,
                            all.take(i + 1).last(),
                        ));
                        lemma_push_all_sticky(first, all, i + 1);
                    }
                    return Err(error);
                },
            }
            i += 1;
        }
        assert(all.take(i as int) =~= all);
        Ok(field)
    }

    /// Ends the part. A leading part is parsed as JSON; a file is counted,
    /// checked against the count limit and recorded once for each variable
    /// path listed under its name.
    pub fn end_field(self) -> (ended: Result<Decoder, RequestError>)
        ensures
            agrees(ended, end(self@)),
    {
        proof {
            use_type_invariant(&self);
        }
        let OpenField { limits, kind, buffer } = self;
        let body = freeze(buffer);
        match kind {
            Kind::Operations => match OperationDescriptor::parse(as_slice(&body)) {
                Ok(operation) => Ok(Decoder::with_operation(limits, operation)),
                Err(error) => Err(error),
            },
            Kind::FileMap(operation) => match UploadMap::parse(as_slice(&body)) {
                Ok(map) => Ok(Decoder::with_uploads(limits, operation, map)),
                Err(error) => Err(error),
            },
            Kind::File(uploads, target) => {
                if uploads.file_count >= limits.max_file_count {
                    Err(RequestError::PayloadTooLarge)
                } else {
                    let ghost made = attach(target.model(), crate::payload::contents(body));
                    let ghost before = attachment_views(uploads.attachments@);
                    let Uploads { operation, pending, file_count, attachments } = uploads;
                    let Target { field_name, filename, content_type, paths } = target;
                    let file = FileBlob { filename, content_type, bytes: body };
                    let mut attachments = attachments;
                    let mut i: usize = 0;
                    while i < paths.len()
                        invariant
                            i <= paths.len(),
                            made.len() == paths.len(),
                            forall|k: int|
                                0 <= k < paths.len() ==> made[k] == (AttachmentView {
                                    field_name: field_name@,
                                    variable_path: #[trigger] paths@[k]@,
                                    file: file@,
                                }),
                            attachment_views(attachments@) == before + made.take(i as int),
                        decreases paths.len() - i,
                    {
                        let attachment = Attachment {
                            field_name: field_name.clone(),
                            variable_path: paths[i].clone(),
                            file: file.share(),
                        };
                        proof {
                            assert(attachment@ == made[i as int]);
                            assert(made.take(i + 1) =~= made.take(i as int).push(made[i as int]));
                            assert(attachment_views(attachments@.push(attachment))
                                =~= attachment_views(attachments@).push(attachment@));
                        }
                        attachments.push(attachment);
                        i += 1;
                    }
                    assert(made.take(i as int) =~= made);
                    let uploads = Uploads {
                        operation,
                        pending,
                        file_count: file_count + 1,
                        attachments,
                    };
                    Ok(Decoder { limits, state: State::Files(uploads) })
                }
            },
        }
    }
}

/// Decodes a multipart body that is held in memory. The parts are taken in
/// order and nothing after the first failing part is looked at.
pub fn decode(limits: Limits, parts: &Vec<Part>) -> (decoded: Result<Decoded, RequestError>)
    ensures
        agrees(decoded, decode_body(limits, part_views(parts@))),
{
    let ghost all = part_views(parts@);
    let mut decoder = Decoder::new(limits);
    let mut i: usize = 0;
    assert(all.take(0) =~= Seq::<PartView>::empty());
    while i < parts.len()
        invariant
            i <= parts.len(),
            all == part_views(parts@),
            decode_parts(start(limits), all.take(i as int)) == Ok::<DecoderView, Failure>(decoder@),
        decreases parts.len() - i,
    {
        proof {
            assert(all.take(i + 1).drop_last() =~= all.take(i as int));
            assert(all.take(i + 1).last() == parts@[i as int]@);
        }
        match decoder.take_part(&parts[i]) {
            Ok(next) => {
                decoder = next;
            },
            Err(error) => {
                proof {
                    lemma_decode_parts_sticky(start(limits), all, i + 1);
                }
                return Err(error);
            },
        }
        i += 1;
    }
    assert(all.take(i as int) =~= all);
    decoder.finish()
}

} // verus!
