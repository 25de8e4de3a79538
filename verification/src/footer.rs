//! The package trailer: `MeNote.exe` is the bare launcher followed by
//! `payload.zip`, the version text and a fixed 28-byte footer
//! `[ver_len: u32 LE][zip_len: u64 LE][magic: 16 bytes]`.
//! The launcher reads the footer back from the end of its own file.
use vstd::prelude::*;
use vstd::utf8::{valid_utf8, decode_utf8, encode_utf8, encode_utf8_valid_utf8, encode_utf8_decode_utf8};

verus! {

/// Length of the footer at the very end of the package.
pub const FOOTER_LEN: u64 = 28;

/// The footer's closing marker, `"MENOTE_PKG_v1\0\0\0"`.
pub const MAGIC: [u8; 16] = [77, 69, 78, 79, 84, 69, 95, 80, 75, 71, 95, 118, 49, 0, 0, 0];

/// The marker as a sequence of bytes.
pub open spec fn magic() -> Seq<u8> {
    MAGIC@
}

/// 256 to the power `k`.
pub open spec fn pow256(k: nat) -> nat
    decreases k,
{
    if k == 0 {
        1
    } else {
        256 * pow256((k - 1) as nat)
    }
}

/// The number that the bytes `s` denote in little-endian order.
pub open spec fn le_value(s: Seq<u8>) -> nat
    decreases s.len(),
{
    if s.len() == 0 {
        0
    } else {
        s[0] as nat + 256 * le_value(s.drop_first())
    }
}

/// The `k` little-endian bytes of `v` (the low `k` bytes when `v` is larger).
pub open spec fn le_bytes(v: nat, k: nat) -> Seq<u8>
    decreases k,
{
    if k == 0 {
        Seq::empty()
    } else {
        seq![(v % 256) as u8] + le_bytes(v / 256, (k - 1) as nat)
    }
}

/// The version length that a footer records.
pub open spec fn recorded_version_len(tail: Seq<u8>) -> nat {
    le_value(tail.subrange(0, 4))
}

/// The payload length that a footer records.
pub open spec fn recorded_zip_len(tail: Seq<u8>) -> nat {
    le_value(tail.subrange(4, 12))
}

/// Why the package trailer could not be used.
#[derive(PartialEq, Eq, Structural, Clone, Copy, Debug)]
pub enum PkgError {
    /// The file is shorter than the footer.
    TooSmall,
    /// The footer does not end with the marker.
    BadMagic,
    /// The recorded payload is empty or does not fit before the footer.
    Incomplete,
    /// The version text is not UTF-8.
    BadVersionEncoding,
}

/// Where the payload and the version text lie in the package.
#[derive(PartialEq, Eq, Structural, Clone, Copy, Debug)]
pub struct Footer {
    /// Length of the version text.
    pub version_len: u64,
    /// Length of `payload.zip`.
    pub zip_len: u64,
    /// Offset of `payload.zip` from the start of the file.
    pub zip_start: u64,
    /// Offset of the version text from the start of the file.
    pub version_start: u64,
}

/// What a package of `total` bytes whose last 28 bytes are `tail` holds.
pub open spec fn footer_outcome(total: nat, tail: Seq<u8>) -> Result<Footer, PkgError> {
    let ver = recorded_version_len(tail);
    let zip = recorded_zip_len(tail);
    if total < FOOTER_LEN {
        Err(PkgError::TooSmall)
    } else if tail.subrange(12, 28) != magic() {
        Err(PkgError::BadMagic)
    } else if zip == 0 || total < FOOTER_LEN + ver + zip {
        Err(PkgError::Incomplete)
    } else {
        Ok(
            Footer {
                version_len: ver as u64,
                zip_len: zip as u64,
                zip_start: (total - FOOTER_LEN - ver - zip) as u64,
                version_start: (total - FOOTER_LEN - ver) as u64,
            },
        )
    }
}

/// Numbers of `s.len()` bytes stay below `256^len`.
pub proof fn lemma_le_value_bound(s: Seq<u8>)
    ensures
        le_value(s) < pow256(s.len()),
    decreases s.len(),
{
    if s.len() > 0 {
        lemma_le_value_bound(s.drop_first());
    }
}

/// Reads the number stored little-endian in `bytes[start .. start + count]`.
fn read_le(bytes: &[u8], start: usize, count: usize) -> (v: u64)
    requires
        start + count <= bytes@.len(),
        count <= 8,
    ensures
        v == le_value(bytes@.subrange(start as int, start + count)),
{
    proof {
        reveal_with_fuel(pow256, 9);
    }
    let available = bytes.len();
    let end = start + count;
    let mut i: usize = end;
    let mut acc: u64 = 0;
    while i > start
        invariant
            start <= i <= end,
            end == start + count,
            available == bytes@.len(),
            end <= available,
            count <= 8,
            acc == le_value(bytes@.subrange(i as int, end as int)),
            pow256(8) == 18446744073709551616nat,
        decreases i,
    {
        let ghost tail = bytes@.subrange(i as int, end as int);
        let ghost next = bytes@.subrange(i - 1, end as int);
        assert(next.drop_first() =~= tail);
        proof {
            lemma_le_value_bound(next);
            lemma_pow256_mono(next.len(), 8);
        }
        acc = (bytes[i - 1] as u64) + 256 * acc;
        i = i - 1;
    }
    acc
}

/// `256^k` grows with `k`.
pub proof fn lemma_pow256_mono(j: nat, k: nat)
    requires
        j <= k,
    ensures
        pow256(j) <= pow256(k),
    decreases k,
{
    if j < k {
        lemma_pow256_mono(j, (k - 1) as nat);
    }
}

/// Fails when a file of `total` bytes cannot even hold the footer.
pub fn footer_fits(total: u64) -> (r: Result<(), PkgError>)
    ensures
        r is Ok <==> total >= FOOTER_LEN,
        r matches Err(e) ==> e == PkgError::TooSmall,
{
    if total < FOOTER_LEN {
        Err(PkgError::TooSmall)
    } else {
        Ok(())
    }
}

/// Locates the payload and the version text of a package of `total` bytes
/// whose last `FOOTER_LEN` bytes are `tail`.
pub fn parse_footer(total: u64, tail: &[u8]) -> (r: Result<Footer, PkgError>)
    requires
        tail@.len() == FOOTER_LEN,
    ensures
        r == footer_outcome(total as nat, tail@),
{
    if total < FOOTER_LEN {
        return Err(PkgError::TooSmall);
    }
    let ver_len = read_le(tail, 0, 4);
    let zip_len = read_le(tail, 4, 8);
    let mut k: usize = 0;
    while k < 16
        invariant
            0 <= k <= 16,
            tail@.len() == 28,
            total >= FOOTER_LEN,
            forall|j: int| 0 <= j < k ==> tail@[12 + j] == MAGIC@[j],
        decreases 16 - k,
    {
        if tail[12 + k] != MAGIC[k] {
            assert(tail@.subrange(12, 28)[k as int] == tail@[12 + k]);
            assert(tail@.subrange(12, 28)[k as int] != magic()[k as int]);
            assert(tail@.subrange(12, 28) != magic());
            return Err(PkgError::BadMagic);
        }
        k = k + 1;
    }
    assert(tail@.subrange(12, 28) =~= magic());
    if zip_len == 0 || total - FOOTER_LEN < ver_len || total - FOOTER_LEN - ver_len < zip_len {
        return Err(PkgError::Incomplete);
    }
    Ok(
        Footer {
            version_len: ver_len,
            zip_len,
            zip_start: total - FOOTER_LEN - ver_len - zip_len,
            version_start: total - FOOTER_LEN - ver_len,
        },
    )
}

/// Decodes bytes as UTF-8 text (std `String::from_utf8`): `None` when they
/// are not well-formed UTF-8, else the text they encode.
#[verifier::external_body]
fn utf8_text(bytes: Vec<u8>) -> (r: Option<String>)
    ensures
        r is Some <==> valid_utf8(bytes@),
        r matches Some(s) ==> s@ == decode_utf8(bytes@),
{
    match String::from_utf8(bytes) {
        Ok(s) => Some(s),
        Err(_) => None,
    }
}

/// The package's version, read from the bytes of its version text.
pub fn decode_version(bytes: Vec<u8>) -> (r: Result<String, PkgError>)
    ensures
        r is Ok <==> valid_utf8(bytes@),
        r matches Ok(s) ==> s@ == decode_utf8(bytes@),
        r matches Err(e) ==> e == PkgError::BadVersionEncoding,
{
    match utf8_text(bytes) {
        Some(s) => Ok(s),
        None => Err(PkgError::BadVersionEncoding),
    }
}

/// The embedded payload as the launcher uses it.
pub struct Pkg {
    /// Offset of `payload.zip` in the launcher's own file.
    pub zip_start: u64,
    /// Length of `payload.zip`.
    pub zip_len: u64,
    /// The packaged version.
    pub version: String,
}

/// Combines a parsed footer with the bytes of the version text it points to.
pub fn package_info(footer: Footer, version_bytes: Vec<u8>) -> (r: Result<Pkg, PkgError>)
    ensures
        r is Ok <==> valid_utf8(version_bytes@),
        r matches Ok(p) ==> p.zip_start == footer.zip_start && p.zip_len == footer.zip_len
            && p.version@ == decode_utf8(version_bytes@),
        r matches Err(e) ==> e == PkgError::BadVersionEncoding,
{
    let version = decode_version(version_bytes)?;
    Ok(Pkg { zip_start: footer.zip_start, zip_len: footer.zip_len, version })
}

/// The footer that the packaging script appends.
pub open spec fn footer_bytes(version_len: nat, zip_len: nat) -> Seq<u8> {
    le_bytes(version_len, 4) + le_bytes(zip_len, 8) + magic()
}

/// A whole package: launcher, payload, version text, footer.
pub open spec fn package_bytes(exe: Seq<u8>, zip: Seq<u8>, version: Seq<u8>) -> Seq<u8> {
    exe + zip + version + footer_bytes(version.len(), zip.len())
}

/// Writing `v` as `k` little-endian bytes and reading them back gives `v`.
pub proof fn lemma_le_roundtrip(v: nat, k: nat)
    requires
        v < pow256(k),
    ensures
        le_bytes(v, k).len() == k,
        le_value(le_bytes(v, k)) == v,
    decreases k,
{
    if k > 0 {
        assert(v / 256 < pow256((k - 1) as nat));
        lemma_le_roundtrip(v / 256, (k - 1) as nat);
        let s = le_bytes(v, k);
        assert(s.drop_first() =~= le_bytes(v / 256, (k - 1) as nat));
        assert(s[0] == (v % 256) as u8);
    }
}

/// Reading back a package: for every launcher, non-empty payload and
/// version text, the footer that the packaging script appends leads the
/// launcher to exactly that payload and that version text.
pub proof fn lemma_package_layout(exe: Seq<u8>, zip: Seq<u8>, version: Seq<u8>)
    requires
        zip.len() > 0,
        version.len() < pow256(4),
        package_bytes(exe, zip, version).len() <= u64::MAX,
    ensures
        ({
            let p = package_bytes(exe, zip, version);
            let total = p.len();
            &&& footer_outcome(total, p.subrange(total - FOOTER_LEN, total as int)) == Ok::<
                Footer,
                PkgError,
            >(
                Footer {
                    version_len: version.len() as u64,
                    zip_len: zip.len() as u64,
                    zip_start: exe.len() as u64,
                    version_start: (exe.len() + zip.len()) as u64,
                },
            )
            &&& p.subrange(exe.len() as int, (exe.len() + zip.len()) as int) == zip
            &&& p.subrange((exe.len() + zip.len()) as int, (exe.len() + zip.len() + version.len()) as int)
                == version
        }),
{
    reveal_with_fuel(pow256, 9);
    let p = package_bytes(exe, zip, version);
    let total = p.len();
    assert(zip.len() < pow256(8));
    lemma_le_roundtrip(version.len(), 4);
    lemma_le_roundtrip(zip.len(), 8);
    let f = footer_bytes(version.len(), zip.len());
    assert(f.len() == 28);
    let tail = p.subrange(total - FOOTER_LEN, total as int);
    assert(tail =~= f);
    assert(tail.subrange(0, 4) =~= le_bytes(version.len(), 4));
    assert(tail.subrange(4, 12) =~= le_bytes(zip.len(), 8));
    assert(tail.subrange(12, 28) =~= magic());
    assert(p.subrange(exe.len() as int, (exe.len() + zip.len()) as int) =~= zip);
    assert(p.subrange((exe.len() + zip.len()) as int, (exe.len() + zip.len() + version.len()) as int) =~= version);
}

/// The version text round-trips: a package whose version text is the UTF-8
/// encoding of `v` is read back as `v`.
pub proof fn lemma_version_roundtrip(v: Seq<char>)
    ensures
        valid_utf8(encode_utf8(v)),
        decode_utf8(encode_utf8(v)) == v,
{
    encode_utf8_valid_utf8(v);
    encode_utf8_decode_utf8(v);
}

/// The message the launcher shows for each trailer error.
pub open spec fn pkg_error_text(e: PkgError) -> Seq<char> {
    match e {
        PkgError::TooSmall => "文件过小，缺少发行数据"@,
        PkgError::BadMagic => "发行包格式校验失败（magic 不匹配）"@,
        PkgError::Incomplete => "发行包数据不完整"@,
        PkgError::BadVersionEncoding => "版本号编码损坏"@,
    }
}

impl PkgError {
    /// The message the launcher shows for this error.
    pub fn message(&self) -> (r: String)
        ensures
            r@ == pkg_error_text(*self),
    {
        match self {
            PkgError::TooSmall => String::from_str("文件过小，缺少发行数据"),
            PkgError::BadMagic => String::from_str("发行包格式校验失败（magic 不匹配）"),
            PkgError::Incomplete => String::from_str("发行包数据不完整"),
            PkgError::BadVersionEncoding => String::from_str("版本号编码损坏"),
        }
    }
}

} // verus!
