use menote_launcher::footer::{
    decode_version, footer_fits, package_info, parse_footer, Footer, PkgError, FOOTER_LEN, MAGIC,
};

/// Lays out a package the way the packaging script does.
fn package(exe: &[u8], zip: &[u8], version: &str) -> Vec<u8> {
    let mut p = Vec::new();
    p.extend_from_slice(exe);
    p.extend_from_slice(zip);
    p.extend_from_slice(version.as_bytes());
    p.extend_from_slice(&(version.len() as u32).to_le_bytes());
    p.extend_from_slice(&(zip.len() as u64).to_le_bytes());
    p.extend_from_slice(b"MENOTE_PKG_v1\0\0\0");
    p
}

fn tail(p: &[u8]) -> &[u8] {
    &p[p.len() - FOOTER_LEN as usize..]
}

#[test]
fn magic_is_the_documented_marker() {
    assert_eq!(&MAGIC, b"MENOTE_PKG_v1\0\0\0");
    assert_eq!(FOOTER_LEN, 28);
}

#[test]
fn package_round_trip_finds_payload_and_version() {
    let exe = vec![0x4d, 0x5a, 1, 2, 3, 4, 5];
    let zip = b"PK\x03\x04 payload bytes".to_vec();
    let p = package(&exe, &zip, "1.2.3");
    let f = parse_footer(p.len() as u64, tail(&p)).unwrap();
    assert_eq!(
        f,
        Footer { version_len: 5, zip_len: zip.len() as u64, zip_start: 7, version_start: 7 + zip.len() as u64 }
    );
    assert_eq!(&p[f.zip_start as usize..(f.zip_start + f.zip_len) as usize], &zip[..]);
    let ver = p[f.version_start as usize..(f.version_start + f.version_len) as usize].to_vec();
    let pkg = package_info(f, ver).unwrap();
    assert_eq!(pkg.version, "1.2.3");
    assert_eq!(pkg.zip_start, 7);
    assert_eq!(pkg.zip_len, zip.len() as u64);
}

#[test]
fn package_with_empty_launcher_and_unicode_version() {
    let zip = vec![9u8; 300];
    let p = package(&[], &zip, "版本-β");
    let f = parse_footer(p.len() as u64, tail(&p)).unwrap();
    assert_eq!(f.zip_start, 0);
    assert_eq!(f.zip_len, 300);
    let ver = p[f.version_start as usize..(f.version_start + f.version_len) as usize].to_vec();
    assert_eq!(decode_version(ver).unwrap(), "版本-β");
}

#[test]
fn large_lengths_are_read_little_endian() {
    let mut t = Vec::new();
    t.extend_from_slice(&0x0102_0304u32.to_le_bytes());
    t.extend_from_slice(&0x0000_0005_0607_0809u64.to_le_bytes());
    t.extend_from_slice(&MAGIC);
    let total = 28 + 0x0102_0304u64 + 0x0000_0005_0607_0809u64 + 10;
    let f = parse_footer(total, &t).unwrap();
    assert_eq!(f.version_len, 0x0102_0304);
    assert_eq!(f.zip_len, 0x0000_0005_0607_0809);
    assert_eq!(f.zip_start, 10);
    assert_eq!(f.version_start, 10 + 0x0000_0005_0607_0809);
}

#[test]
fn too_small_file_is_refused() {
    assert_eq!(footer_fits(27), Err(PkgError::TooSmall));
    assert_eq!(footer_fits(28), Ok(()));
    assert_eq!(parse_footer(27, &[0u8; 28]), Err(PkgError::TooSmall));
    assert_eq!(PkgError::TooSmall.message(), "文件过小，缺少发行数据");
}

#[test]
fn wrong_magic_is_refused() {
    let mut p = package(b"exe", b"zip", "1.0.0");
    let n = p.len();
    p[n - 1] = b'!';
    assert_eq!(parse_footer(n as u64, tail(&p)), Err(PkgError::BadMagic));
    assert_eq!(PkgError::BadMagic.message(), "发行包格式校验失败（magic 不匹配）");
}

#[test]
fn empty_payload_is_incomplete() {
    let p = package(b"exe", b"", "1.0.0");
    assert_eq!(parse_footer(p.len() as u64, tail(&p)), Err(PkgError::Incomplete));
    assert_eq!(PkgError::Incomplete.message(), "发行包数据不完整");
}

#[test]
fn oversized_lengths_are_incomplete() {
    let p = package(b"", b"zz", "1.0.0");
    // The footer claims more than the file holds.
    assert_eq!(parse_footer(p.len() as u64 - 1, tail(&p)), Err(PkgError::Incomplete));
    let mut t = Vec::new();
    t.extend_from_slice(&u32::MAX.to_le_bytes());
    t.extend_from_slice(&u64::MAX.to_le_bytes());
    t.extend_from_slice(&MAGIC);
    assert_eq!(parse_footer(u64::MAX, &t), Err(PkgError::Incomplete));
}

#[test]
fn exact_fit_is_accepted() {
    let p = package(b"", b"z", "");
    let f = parse_footer(p.len() as u64, tail(&p)).unwrap();
    assert_eq!(f, Footer { version_len: 0, zip_len: 1, zip_start: 0, version_start: 1 });
}

#[test]
fn malformed_version_is_reported() {
    assert_eq!(decode_version(vec![0xff, 0xfe]), Err(PkgError::BadVersionEncoding));
    let f = Footer { version_len: 1, zip_len: 1, zip_start: 0, version_start: 1 };
    assert!(package_info(f, vec![0xc3]).is_err());
    assert_eq!(PkgError::BadVersionEncoding.message(), "版本号编码损坏");
}
