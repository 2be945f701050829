use vstd::prelude::*;
use bytes::{Bytes, BytesMut};

verus! {

/// `bytes::BytesMut`: the growing buffer that a part's chunks are gathered in.
#[verifier::external_type_specification]
#[verifier::external_body]
pub struct ExBytesMut(bytes::BytesMut);

/// `bytes::Bytes`: a finished, immutable run of bytes that can be shared
/// without being copied.
#[verifier::external_type_specification]
#[verifier::external_body]
pub struct ExBytes(bytes::Bytes);

/// The bytes that a buffer holds, in order.
pub uninterp spec fn buffered(buffer: BytesMut) -> Seq<u8>;

/// The bytes that a finished blob holds, in order.
pub uninterp spec fn contents(blob: Bytes) -> Seq<u8>;

/// Trusted: `BytesMut::new` gives a buffer that holds nothing.
#[verifier::external_body]
pub(crate) fn new_buffer() -> (buffer: BytesMut)
    ensures
        buffered(buffer) == Seq::<u8>::empty(),
{
    BytesMut::new()
}

/// Trusted: `BytesMut::len` is the number of bytes held.
#[verifier::external_body]
pub(crate) fn buffer_len(buffer: &BytesMut) -> (len: usize)
    ensures
        len == buffered(*buffer).len(),
{
    buffer.len()
}

/// Trusted: `<BytesMut as Extend<&u8>>::extend` appends the given bytes and
/// leaves what was held in place. The source panics where the new length
/// overflows `usize`, so such a call is left out.
#[verifier::external_body]
pub(crate) fn extend_buffer(buffer: &mut BytesMut, chunk: &[u8])
    requires
        buffered(*old(buffer)).len() + chunk@.len() <= usize::MAX,
    ensures
        buffered(*final(buffer)) == buffered(*old(buffer)) + chunk@,
{
    buffer.extend(chunk)
}

/// Trusted: `BytesMut::freeze` turns the buffer into a blob of the same bytes.
#[verifier::external_body]
pub(crate) fn freeze(buffer: BytesMut) -> (blob: Bytes)
    ensures
        contents(blob) == buffered(buffer),
{
    buffer.freeze()
}

/// Trusted: `<Bytes as Clone>::clone` gives another handle on the same bytes.
#[verifier::external_body]
pub(crate) fn share(blob: &Bytes) -> (other: Bytes)
    ensures
        contents(other) == contents(*blob),
{
    blob.clone()
}

/// Trusted: `<Bytes as Deref>::deref` lends the bytes of a blob as a slice.
#[verifier::external_body]
pub(crate) fn as_slice(blob: &Bytes) -> (slice: &[u8])
    ensures
        slice@ == contents(*blob),
{
    blob
}

/// One uploaded file: what the client called it, its declared content type,
/// and its bytes.
pub struct FileBlob {
    pub filename: String,
    pub content_type: String,
    pub bytes: Bytes,
}

/// What a [`FileBlob`] holds, as plain values.
pub ghost struct FileBlobView {
    pub filename: Seq<char>,
    pub content_type: Seq<char>,
    pub bytes: Seq<u8>,
}

impl View for FileBlob {
    type V = FileBlobView;

    open spec fn view(&self) -> FileBlobView {
        FileBlobView {
            filename: self.filename@,
            content_type: self.content_type@,
            bytes: contents(self.bytes),
        }
    }
}

impl FileBlob {
    /// Another handle on the same file: the names are copied, the bytes are
    /// shared.
    pub fn share(&self) -> (other: FileBlob)
        ensures
            other@ == self@,
    {
        FileBlob {
            filename: self.filename.clone(),
            content_type: self.content_type.clone(),
            bytes: share(&self.bytes),
        }
    }
}

} // verus!
