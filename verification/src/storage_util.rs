use vstd::prelude::*;
use vstd::bytes::*;
use vstd::slice::{slice_subrange, slice_to_vec};
use vstd::string::*;
use vstd::utf8::{decode_utf8, encode_utf8, valid_utf8};

use crate::AllocPerfError;
use crate::AllocPerfRes;

verus! {

/// Storage-layer errors: the serialization step, and the compression frame.
#[derive(Debug)]
pub enum StorageUtilError {
    SpeedyReadFailed(String),
    SpeedyWriteFailed(String),
    Decompress(String),
    Compress(String),
    CompressFinish(String),
}

/// The closed set of record kinds this store persists, each with its fixed
/// file name within a namespace directory and a description for diagnostics.
#[derive(Clone, Copy, Debug, PartialEq, Eq, Structural)]
pub enum RecordKind {
    AllInfo,
    BooiesCache,
}

/// The fixed file name of each record kind.
pub open spec fn kind_file_name(kind: RecordKind) -> Seq<char> {
    match kind {
        RecordKind::AllInfo => "ALL"@,
        RecordKind::BooiesCache => "BOOIES_CACHE"@,
    }
}

impl RecordKind {
    /// The fixed file name used for this kind inside a namespace directory.
    pub fn file_name(&self) -> (r: &'static str)
        ensures
            r@ == kind_file_name(*self),
    {
        match self {
            RecordKind::AllInfo => "ALL",
            RecordKind::BooiesCache => "BOOIES_CACHE",
        }
    }

    /// The storage path of this kind's record for one subscription: the
    /// subscription's namespace directory, a slash, and the kind's file name.
    pub fn get_path(&self, sub: &crate::conf::SubFull) -> (r: String)
        ensures
            r@ == crate::conf::spec_decimal(sub.idx as nat) + "/"@ + kind_file_name(*self),
    {
        let mut p = sub.mk_sub_dir_path();
        p.append("/");
        p.append(self.file_name());
        p
    }

    /// A human-readable description, used only for diagnostics.
    pub fn desc(&self) -> (r: &'static str)
        ensures
            *self matches RecordKind::AllInfo ==> r@ == "all info"@,
            *self matches RecordKind::BooiesCache ==> r@ == "booies details cache"@,
    {
        match self {
            RecordKind::AllInfo => "all info",
            RecordKind::BooiesCache => "booies details cache",
        }
    }
}

/// A record as persisted by the durable blob store: written as a whole,
/// replaced as a whole, one file per (namespace, kind).
#[derive(Debug, Clone)]
pub struct StoredRecord {
    pub id: u64,
    pub name: String,
}

/// A record whose name can be carried by the canonical encoding (its UTF-8
/// byte length fits the 64-bit length field).
pub open spec fn valid_record(rec: StoredRecord) -> bool {
    encode_utf8(rec.name@).len() <= u64::MAX
}

/// The canonical byte encoding of a record: the id as 8 little-endian bytes,
/// then the byte length of the UTF-8 encoded name as 8 little-endian bytes,
/// then the name's UTF-8 bytes.
pub open spec fn serialized_bytes(rec: StoredRecord) -> Seq<u8> {
    spec_u64_to_le_bytes(rec.id) + spec_u64_to_le_bytes(encode_utf8(rec.name@).len() as u64)
        + encode_utf8(rec.name@)
}

/// Whether a byte sequence is a well-formed canonical record encoding.
pub open spec fn wf_serialized(bytes: Seq<u8>) -> bool {
    &&& bytes.len() >= 16
    &&& spec_u64_from_le_bytes(bytes.subrange(8, 16)) == bytes.len() - 16
    &&& valid_utf8(bytes.subrange(16, bytes.len() as int))
}

/// The id field of a well-formed encoding.
pub open spec fn serialized_id(bytes: Seq<u8>) -> u64 {
    spec_u64_from_le_bytes(bytes.subrange(0, 8))
}

/// The name field of a well-formed encoding.
pub open spec fn serialized_name(bytes: Seq<u8>) -> Seq<char> {
    decode_utf8(bytes.subrange(16, bytes.len() as int))
}

/// What the lz4 frame encoder produces for the given input bytes.
pub uninterp spec fn lz4_frame_of(bytes: Seq<u8>) -> Seq<u8>;

/// What the lz4 frame decoder yields for the given input bytes: the decoded
/// payload, or nothing when the frame is corrupt or truncated.
pub uninterp spec fn lz4_unframe(bytes: Seq<u8>) -> Option<Seq<u8>>;

/// Relies on lz4_flex::frame::FrameEncoder driving an in-memory sink: the
/// compressed frame is a function of the input bytes alone, writing to a Vec
/// cannot fail, and lz4_flex::frame::FrameDecoder inverts the encoding.
#[verifier::external_body]
fn lz4_compress(bytes: &Vec<u8>) -> (r: Vec<u8>)
    ensures
        r@ == lz4_frame_of(bytes@),
        lz4_unframe(r@) == Some(bytes@),
{
    let mut binz: Vec<u8> = Vec::with_capacity(bytes.len() / 2);
    let mut comp = lz4_flex::frame::FrameEncoder::new(&mut binz);
    std::io::Write::write_all(&mut comp, bytes.as_slice()).expect("writing to a Vec sink");
    comp.finish().expect("finishing an lz4 frame over a Vec sink");
    binz
}

/// Relies on lz4_flex::frame::FrameDecoder: decoding is a function of the
/// input bytes alone; a corrupt or truncated frame is reported as an error.
#[verifier::external_body]
fn lz4_decompress(binz: &Vec<u8>) -> (r: Result<Vec<u8>, String>)
    ensures
        r matches Ok(v) ==> lz4_unframe(binz@) == Some(v@),
        r is Err ==> lz4_unframe(binz@) is None,
{
    let mut decomp = lz4_flex::frame::FrameDecoder::new(binz.as_slice());
    let mut serialized: Vec<u8> = Vec::with_capacity(binz.len() * 4);
    match std::io::Read::read_to_end(&mut decomp, &mut serialized) {
        Ok(_) => Ok(serialized),
        Err(e) => Err(format!("{e}")),
    }
}

/// Relies on String::from_utf8: it succeeds exactly on valid UTF-8 input,
/// and the decoded characters are a function of the bytes alone.
#[verifier::external_body]
fn string_from_utf8(bytes: Vec<u8>) -> (r: Option<String>)
    ensures
        r matches Some(s) ==> valid_utf8(bytes@) && s@ == decode_utf8(bytes@),
        r is None ==> !valid_utf8(bytes@),
{
    match String::from_utf8(bytes) {
        Ok(s) => Some(s),
        Err(_) => None,
    }
}

impl StoredRecord {
    /// Serialize this record to its canonical byte encoding. Total: every
    /// record a caller can hold is encodable.
    pub fn to_serialized_blocking(&self) -> (r: AllocPerfRes<Vec<u8>>)
        ensures
            r matches Ok(v) && v@ == serialized_bytes(*self),
    {
        let name_bytes = self.name.as_str().as_bytes_vec();
        let mut out = u64_to_le_bytes(self.id);
        let mut len_bytes = u64_to_le_bytes(name_bytes.len() as u64);
        out.append(&mut len_bytes);
        let mut name_bytes = name_bytes;
        out.append(&mut name_bytes);
        Ok(out)
    }

    /// Decode a record from its canonical byte encoding; succeeds exactly on
    /// well-formed encodings, and recovers the encoded fields.
    pub fn from_serialized_blocking(serialized: Vec<u8>) -> (r: AllocPerfRes<StoredRecord>)
        ensures
            r is Ok <==> wf_serialized(serialized@),
            r matches Ok(rec) ==> rec.id == serialized_id(serialized@) && rec.name@
                == serialized_name(serialized@),
            r matches Err(e) ==> e matches AllocPerfError::StorageUtil(
                StorageUtilError::SpeedyReadFailed(_),
            ),
    {
        if serialized.len() < 16 {
            return Err(
                AllocPerfError::StorageUtil(
                    StorageUtilError::SpeedyReadFailed(
                        "serialized record shorter than its fixed header".to_owned(),
                    ),
                ),
            );
        }
        let id = u64_from_le_bytes(slice_subrange(serialized.as_slice(), 0, 8));
        let name_len = u64_from_le_bytes(slice_subrange(serialized.as_slice(), 8, 16));
        if name_len != (serialized.len() - 16) as u64 {
            return Err(
                AllocPerfError::StorageUtil(
                    StorageUtilError::SpeedyReadFailed(
                        "name length field does not match the payload".to_owned(),
                    ),
                ),
            );
        }
        let name_bytes = slice_to_vec(
            slice_subrange(serialized.as_slice(), 16, serialized.len()),
        );
        match string_from_utf8(name_bytes) {
            Some(name) => Ok(StoredRecord { id, name }),
            None => Err(
                AllocPerfError::StorageUtil(
                    StorageUtilError::SpeedyReadFailed("record name is not valid UTF-8".to_owned()),
                ),
            ),
        }
    }

    /// Decompress a blob read from disk into the serialized record bytes.
    pub fn serialized_from_binz_blocking(binz: Vec<u8>) -> (r: AllocPerfRes<Vec<u8>>)
        ensures
            r is Ok <==> lz4_unframe(binz@) is Some,
            r matches Ok(v) ==> lz4_unframe(binz@) == Some(v@),
            r matches Err(e) ==> e matches AllocPerfError::StorageUtil(
                StorageUtilError::Decompress(_),
            ),
    {
        match lz4_decompress(&binz) {
            Ok(serialized) => Ok(serialized),
            Err(source) => Err(
                AllocPerfError::StorageUtil(StorageUtilError::Decompress(source)),
            ),
        }
    }

    /// Read a record back from a compressed blob: decompress the frame, then
    /// decode the canonical encoding. Succeeds exactly when the frame decodes
    /// and its payload is a well-formed record encoding.
    pub fn from_binz(binz: Vec<u8>) -> (r: AllocPerfRes<StoredRecord>)
        ensures
            r is Ok <==> (lz4_unframe(binz@) matches Some(s) && wf_serialized(s)),
            r matches Ok(rec) ==> lz4_unframe(binz@) matches Some(s) && rec.id == serialized_id(s)
                && rec.name@ == serialized_name(s),
            r matches Err(e) ==> e matches AllocPerfError::StorageUtil(_),
    {
        let serialized = Self::serialized_from_binz_blocking(binz)?;
        Self::from_serialized_blocking(serialized)
    }

    /// Serialize and compress this record, yielding the blob the store writes
    /// to disk, together with the record itself. Decompressing the blob gives
    /// back exactly the serialized record, which is a well-formed encoding of
    /// this record's fields — so reading the blob back recovers the record.
    pub fn with_binz(self) -> (r: AllocPerfRes<(StoredRecord, Vec<u8>)>)
        ensures
            r matches Ok((rec, binz)) && rec == self && binz@ == lz4_frame_of(
                serialized_bytes(self),
            ) && lz4_unframe(binz@) == Some(serialized_bytes(self)),
            wf_serialized(serialized_bytes(self)),
            serialized_id(serialized_bytes(self)) == self.id,
            serialized_name(serialized_bytes(self)) == self.name@,
    {
        let serialized = self.to_serialized_blocking()?;
        let n_bytes = serialized.len();
        proof {
            // a record that fits in memory fits the encoding's length field
            lemma_auto_spec_u64_to_from_le_bytes();
            assert(encode_utf8(self.name@).len() == n_bytes - 16);
            assert(valid_record(self));
            lemma_serialized_round_trip(self);
        }
        let binz = lz4_compress(&serialized);
        Ok((self, binz))
    }
}

/// Round trip at the encoding level: a valid record's canonical encoding is
/// well formed, and decoding it recovers the record's fields.
pub proof fn lemma_serialized_round_trip(rec: StoredRecord)
    requires
        valid_record(rec),
    ensures
        wf_serialized(serialized_bytes(rec)),
        serialized_id(serialized_bytes(rec)) == rec.id,
        serialized_name(serialized_bytes(rec)) == rec.name@,
{
    lemma_auto_spec_u64_to_from_le_bytes();
    vstd::utf8::encode_utf8_valid_utf8(rec.name@);
    vstd::utf8::encode_utf8_decode_utf8(rec.name@);
    let s = serialized_bytes(rec);
    let name_bytes = encode_utf8(rec.name@);
    assert(s.subrange(0, 8) =~= spec_u64_to_le_bytes(rec.id));
    assert(s.subrange(8, 16) =~= spec_u64_to_le_bytes(name_bytes.len() as u64));
    assert(s.subrange(16, s.len() as int) =~= name_bytes);
}

} // verus!
