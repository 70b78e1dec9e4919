use container_supervisor::layers::{decompress_layer, UnpackError};
use flate2::write::GzEncoder;
use flate2::Compression;
use std::io::{Read, Write};

fn gzip(data: &[u8]) -> Vec<u8> {
    let mut e = GzEncoder::new(Vec::new(), Compression::default());
    e.write_all(data).unwrap();
    e.finish().unwrap()
}

fn tar_with(path: &str, content: &[u8]) -> Vec<u8> {
    let mut b = tar::Builder::new(Vec::new());
    let mut h = tar::Header::new_gnu();
    h.set_size(content.len() as u64);
    h.set_mode(0o644);
    h.set_cksum();
    b.append_data(&mut h, path, content).unwrap();
    b.into_inner().unwrap()
}

fn files(tar_bytes: &[u8]) -> Vec<(String, Vec<u8>)> {
    let mut a = tar::Archive::new(tar_bytes);
    let mut out = Vec::new();
    for e in a.entries().unwrap() {
        let mut e = e.unwrap();
        let p = e.path().unwrap().to_string_lossy().into_owned();
        let mut c = Vec::new();
        e.read_to_end(&mut c).unwrap();
        out.push((p, c));
    }
    out
}

#[test]
fn layer_decodes_to_its_stream() {
    assert_eq!(decompress_layer(&gzip(b"first"), 0).unwrap(), b"first".to_vec());
}

#[test]
fn empty_payload_decodes_to_empty_stream() {
    assert_eq!(decompress_layer(&gzip(b""), 3).unwrap(), Vec::<u8>::new());
}

#[test]
fn bad_layer_is_reported_with_its_position() {
    let bad = b"not gzip at all".to_vec();
    assert_eq!(decompress_layer(&bad, 1), Err(UnpackError { layer: 1 }));
}

#[test]
fn later_layer_content_comes_last() {
    let layers = vec![
        gzip(&tar_with("etc/os-release", b"A")),
        gzip(&tar_with("etc/os-release", b"B")),
    ];
    let mut last: Option<Vec<u8>> = None;
    for (i, l) in layers.iter().enumerate() {
        let s = decompress_layer(l, i).unwrap();
        for (p, c) in files(&s) {
            if p == "etc/os-release" {
                last = Some(c);
            }
        }
    }
    assert_eq!(last, Some(b"B".to_vec()));
}
