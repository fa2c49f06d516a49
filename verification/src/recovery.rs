//! The session-recovery container: an eight-byte signature, a size hint
//! and an lz4 block that holds a JSON document with the cookies.
use crate::errors::{BrowsercookieError, ErrorKind};
use crate::filter::FilterCriterion;
use crate::jar::{jar_contents, merge_matching, merged};
use crate::json::{json_document, Json};
use crate::record::{models, CookieModel, CookieRecord};
use byteorder::{LittleEndian, ReadBytesExt};
use cookie::CookieJar;
use std::io::Cursor;
use vstd::prelude::*;
use vstd::slice::slice_subrange;

verus! {

/// The signature that opens a recovery container: `mozLz40` and a zero
/// byte.
pub open spec fn signature() -> Seq<u8> {
    seq![0x6du8, 0x6fu8, 0x7au8, 0x4cu8, 0x7au8, 0x34u8, 0x30u8, 0x00u8]
}

/// Whether `bytes` begin with the signature.
pub open spec fn begins_with_signature(bytes: Seq<u8>) -> bool {
    bytes.len() >= 8 && bytes.subrange(0, 8) == signature()
}

/// Whether `bytes` pass validation: the signature and at least one byte
/// after it.
pub open spec fn is_container(bytes: Seq<u8>) -> bool {
    bytes.len() > 8 && begins_with_signature(bytes)
}

/// The number that four bytes spell, least significant byte first.
pub open spec fn le_u32(bytes: Seq<u8>) -> u32
    recommends
        bytes.len() >= 4,
{
    (bytes[0] as int + bytes[1] as int * 0x100 + bytes[2] as int * 0x1_0000 + bytes[3] as int
        * 0x100_0000) as u32
}

/// The size hint of a container: the number at offsets 8 to 12, where
/// the container is long enough to hold it.
pub open spec fn size_hint(bytes: Seq<u8>) -> Option<u32> {
    if bytes.len() >= 12 {
        Some(le_u32(bytes.subrange(8, 12)))
    } else {
        None
    }
}

/// The expected length that the decompressor is given for a size hint:
/// the hint itself where it is a length that the decompressor takes,
/// else none, which leaves the length to the decompressor.
pub open spec fn expected_size(hint: Option<u32>) -> Option<i32> {
    match hint {
        Some(size) if size <= i32::MAX => Some(size as i32),
        _ => None,
    }
}

/// The compressed block of a container: what follows offset 12.
pub open spec fn payload(bytes: Seq<u8>) -> Seq<u8> {
    if bytes.len() >= 12 {
        bytes.subrange(12, bytes.len() as int)
    } else {
        Seq::empty()
    }
}

/// A recovery file taken apart: the size hint and the compressed block
/// that follow the signature.
#[derive(Debug)]
pub struct RecoveryContainer<'a> {
    pub size_hint: Option<u32>,
    pub payload: &'a [u8],
}

/// What the lz4 block decompressor makes of `block` when given `size` as
/// the expected length, or nothing where it rejects the block.
pub uninterp spec fn lz4_decompressed(block: Seq<u8>, size: Option<i32>) -> Option<Seq<u8>>;

/// Calls `read_u32::<LittleEndian>` of `byteorder` on a cursor over
/// `bytes`: it reads exactly four bytes and fails where fewer are left.
#[verifier::external_body]
fn read_u32_le(bytes: &[u8]) -> (number: Option<u32>)
    ensures
        bytes@.len() >= 4 ==> number == Some(le_u32(bytes@)),
        bytes@.len() < 4 ==> number is None,
{
    Cursor::new(bytes).read_u32::<LittleEndian>().ok()
}

/// Calls `lz4::block::decompress`. The contract claims only that the
/// outcome is a function of the block and the size.
#[verifier::external_body]
fn lz4_decompress(block: &[u8], size: Option<i32>) -> (plain: Option<Vec<u8>>)
    ensures
        plain is Some <==> lz4_decompressed(block@, size) is Some,
        plain is Some ==> plain.unwrap()@ == lz4_decompressed(block@, size).unwrap(),
{
    lz4::block::decompress(block, size).ok()
}

/// The cookie that one item of the `cookies` array stands for: `host`,
/// `name`, `path` and `value` are required strings, `secure` and
/// `httponly` optional booleans.
pub open spec fn decoded_record(item: Json) -> Option<CookieModel> {
    if item.text_member("host"@) is Some && item.text_member("name"@) is Some && item.text_member(
        "path"@,
    ) is Some && item.text_member("value"@) is Some && item.flag_member("secure"@) is Some
        && item.flag_member("httponly"@) is Some {
        Some(
            CookieModel {
                name: item.text_member("name"@).unwrap(),
                value: item.text_member("value"@).unwrap(),
                domain: item.text_member("host"@).unwrap(),
                path: item.text_member("path"@).unwrap(),
                secure: item.flag_member("secure"@).unwrap(),
                http_only: item.flag_member("httponly"@).unwrap(),
            },
        )
    } else {
        None
    }
}

/// The cookies that the items stand for, in order; an item that stands
/// for none is left out.
pub open spec fn decoded(items: Seq<Json>) -> Seq<CookieModel>
    decreases items.len(),
{
    if items.len() == 0 {
        Seq::empty()
    } else {
        match decoded_record(items.last()) {
            Some(cookie) => decoded(items.drop_last()).push(cookie),
            None => decoded(items.drop_last()),
        }
    }
}

/// The candidates that a JSON document holds: those of its `cookies`
/// array, which it must have.
pub open spec fn document_candidates(doc: Json) -> Option<Seq<CookieModel>> {
    match doc.array_member("cookies"@) {
        Some(items) => Some(decoded(items)),
        None => None,
    }
}

/// The candidates that a recovery file holds, or nothing where the file
/// is no valid container.
pub open spec fn recovery_candidates(bytes: Seq<u8>) -> Option<Seq<CookieModel>> {
    if !is_container(bytes) {
        None
    } else {
        match lz4_decompressed(payload(bytes), expected_size(size_hint(bytes))) {
            None => None,
            Some(plain) => match json_document(plain) {
                None => None,
                Some(doc) => document_candidates(doc),
            },
        }
    }
}

/// Tests the length and the signature of a recovery file.
pub fn check_signature(bytes: &[u8]) -> (valid: bool)
    ensures
        valid == is_container(bytes@),
{
    if bytes.len() <= 8 {
        return false;
    }
    let valid = bytes[0] == 0x6d && bytes[1] == 0x6f && bytes[2] == 0x7a && bytes[3] == 0x4c
        && bytes[4] == 0x7a && bytes[5] == 0x34 && bytes[6] == 0x30 && bytes[7] == 0x00;
    proof {
        let head = bytes@.subrange(0, 8);
        assert(head.len() == 8);
        assert(forall|i: int| 0 <= i < 8 ==> head[i] == bytes@[i]);
        if valid {
            assert(head =~= signature());
        } else {
            assert(signature()[0] == 0x6d && signature()[1] == 0x6f && signature()[2] == 0x7a
                && signature()[3] == 0x4c && signature()[4] == 0x7a && signature()[5] == 0x34
                && signature()[6] == 0x30 && signature()[7] == 0x00);
        }
    }
    valid
}

/// Reads the size hint of a recovery file.
pub fn read_size_hint(bytes: &[u8]) -> (hint: Option<u32>)
    ensures
        hint == size_hint(bytes@),
{
    if bytes.len() < 12 {
        return None;
    }
    read_u32_le(slice_subrange(bytes, 8, 12))
}

/// Takes a recovery file apart. Succeeds exactly where the file passes
/// validation; the size hint may be missing.
pub fn split_container(bytes: &[u8]) -> (parts: Option<RecoveryContainer<'_>>)
    ensures
        parts is Some <==> is_container(bytes@),
        parts is Some ==> parts.unwrap().size_hint == size_hint(bytes@),
        parts is Some ==> parts.unwrap().payload@ == payload(bytes@),
{
    if !check_signature(bytes) {
        return None;
    }
    let size_hint = read_size_hint(bytes);
    let payload = if bytes.len() >= 12 {
        slice_subrange(bytes, 12, bytes.len())
    } else {
        slice_subrange(bytes, 0, 0)
    };
    assert(payload@ =~= self::payload(bytes@));
    Some(RecoveryContainer { size_hint, payload })
}

/// The expected length to hand to the decompressor for a size hint.
pub fn decompressor_size(hint: Option<u32>) -> (size: Option<i32>)
    ensures
        size == expected_size(hint),
{
    match hint {
        Some(number) => if number <= 0x7fff_ffff {
            Some(number as i32)
        } else {
            None
        },
        None => None,
    }
}

/// Decodes one item of the `cookies` array.
pub fn decode_record(item: &Json) -> (record: Option<CookieRecord>)
    ensures
        record is Some <==> decoded_record(*item) is Some,
        record is Some ==> record.unwrap()@ == decoded_record(*item).unwrap(),
{
    let host = item.get_text("host");
    let name = item.get_text("name");
    let path = item.get_text("path");
    let value = item.get_text("value");
    let secure = item.get_flag("secure");
    let http_only = item.get_flag("httponly");
    match (host, name, path, value, secure, http_only) {
        (Some(domain), Some(name), Some(path), Some(value), Some(secure), Some(http_only)) => Some(
            CookieRecord { name, value, domain, path, secure, http_only },
        ),
        _ => None,
    }
}

/// Decodes every item of the `cookies` array and skips those that do
/// not decode.
pub fn decode_records(items: &Vec<Json>) -> (records: Vec<CookieRecord>)
    ensures
        models(records@) == decoded(items@),
{
    let mut records: Vec<CookieRecord> = Vec::new();
    let mut i: usize = 0;
    while i < items.len()
        invariant
            i <= items@.len(),
            models(records@) == decoded(items@.take(i as int)),
        decreases items@.len() - i,
    {
        let ghost before = records@;
        proof {
            assert(items@.take(i + 1).drop_last() =~= items@.take(i as int));
            assert(items@.take(i + 1).last() == items@[i as int]);
        }
        match decode_record(&items[i]) {
            Some(record) => {
                records.push(record);
                assert(models(records@) =~= models(before).push(record@));
            },
            None => {},
        }
        i += 1;
    }
    proof {
        assert(items@.take(i as int) =~= items@);
    }
    records
}

/// The candidates of a parsed recovery document.
pub fn document_records(doc: &Json) -> (records: Option<Vec<CookieRecord>>)
    ensures
        records is Some <==> document_candidates(*doc) is Some,
        records is Some ==> models(records.unwrap()@) == document_candidates(*doc).unwrap(),
{
    match doc.get_array("cookies") {
        Some(items) => Some(decode_records(items)),
        None => None,
    }
}

/// Validates, decompresses and parses a recovery file into candidates.
/// Fails with `InvalidRecovery` exactly where the file is no valid
/// container; in particular wherever it does not begin with the
/// signature.
pub fn recovery_records(bytes: &[u8]) -> (outcome: Result<Vec<CookieRecord>, BrowsercookieError>)
    ensures
        outcome is Ok <==> recovery_candidates(bytes@) is Some,
        outcome is Ok ==> models(outcome.unwrap()@) == recovery_candidates(bytes@).unwrap(),
        outcome is Err ==> outcome.unwrap_err().kind() == ErrorKind::InvalidRecovery,
        !begins_with_signature(bytes@) ==> outcome is Err,
{
    let parts = match split_container(bytes) {
        Some(parts) => parts,
        None => { return Err(invalid_recovery()); },
    };
    let plain = match lz4_decompress(parts.payload, decompressor_size(parts.size_hint)) {
        Some(plain) => plain,
        None => { return Err(invalid_recovery()); },
    };
    let doc = match Json::parse(plain.as_slice()) {
        Some(doc) => doc,
        None => { return Err(invalid_recovery()); },
    };
    match document_records(&doc) {
        Some(records) => Ok(records),
        None => Err(invalid_recovery()),
    }
}

/// The error of a recovery file that is no valid container.
fn invalid_recovery() -> (error: BrowsercookieError)
    ensures
        error.kind() == ErrorKind::InvalidRecovery,
        error.spec_message() == "Firefox invalid recovery archive"@,
{
    BrowsercookieError::new(ErrorKind::InvalidRecovery, "Firefox invalid recovery archive")
}

/// Loads the cookies of a recovery file that the criterion keeps into
/// the jar. Where the file is no valid container the jar stays as it
/// was.
pub fn load_from_recovery(bytes: &[u8], jar: &mut CookieJar, criterion: &FilterCriterion) -> (outcome:
    Result<(), BrowsercookieError>)
    ensures
        outcome is Ok <==> recovery_candidates(bytes@) is Some,
        outcome is Ok ==> jar_contents(*final(jar)) == merged(
            jar_contents(*old(jar)),
            *criterion,
            recovery_candidates(bytes@).unwrap(),
        ),
        outcome is Err ==> outcome.unwrap_err().kind() == ErrorKind::InvalidRecovery
            && jar_contents(*final(jar)) == jar_contents(*old(jar)),
        !begins_with_signature(bytes@) ==> outcome is Err,
{
    match recovery_records(bytes) {
        Ok(records) => {
            merge_matching(jar, criterion, &records);
            Ok(())
        },
        Err(error) => Err(error),
    }
}

} // verus!
