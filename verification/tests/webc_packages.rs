use std::collections::BTreeMap;
use std::path::PathBuf;

use wasi_runtime::runtime::ReqwestResponse;
use wasi_runtime::wapm::{read_webc, WebcDownload, WebcDownloadAction, WebcDownloadEvent};
use webc::{Command, DirOrFile, GenerateChecksum, IndexMap, Manifest, Value, Volume, WebC};

fn wasi_annotations(entries: &[(&str, &str)]) -> IndexMap<String, Value> {
    let mut map = BTreeMap::new();
    for (k, v) in entries {
        map.insert(Value::Text(k.to_string()), Value::Text(v.to_string()));
    }
    let mut annotations = IndexMap::new();
    annotations.insert("wasi".to_string(), Value::Map(map));
    annotations
}

fn build_webc(entrypoint: Option<&str>, runner: &str) -> Vec<u8> {
    build_webc_with_atom(entrypoint, runner, "python")
}

fn build_webc_with_atom(entrypoint: Option<&str>, runner: &str, python_atom: &str) -> Vec<u8> {
    let mut atoms = BTreeMap::new();
    atoms.insert(DirOrFile::File(PathBuf::from("python")), b"\0asm-python".to_vec());
    atoms.insert(DirOrFile::File(PathBuf::from("tool")), b"\0asm-tool".to_vec());
    let atoms_bytes = Volume::serialize_atoms(atoms);

    let mut files = BTreeMap::new();
    files.insert(DirOrFile::Dir(PathBuf::from("/lib")), Vec::new());
    files.insert(DirOrFile::File(PathBuf::from("/readme.txt")), b"hello".to_vec());
    files.insert(DirOrFile::File(PathBuf::from("/bin/run")), b"x".to_vec());
    let fs_bytes = Volume::serialize_files(files);

    let mut package = IndexMap::new();
    package.insert("name".to_string(), Value::Text("demo".to_string()));
    package.insert("version".to_string(), Value::Text("1.0.0".to_string()));

    let mut commands = IndexMap::new();
    commands.insert(
        "python".to_string(),
        Command { runner: runner.to_string(), annotations: wasi_annotations(&[("atom", python_atom)]) },
    );
    commands.insert(
        "tool".to_string(),
        Command {
            runner: "https://webc.org/runner/emscripten".to_string(),
            annotations: wasi_annotations(&[("atom", "tool"), ("package", "demo@1.0.0")]),
        },
    );
    commands.insert(
        "broken".to_string(),
        Command {
            runner: "https://webc.org/runner/wasi".to_string(),
            annotations: wasi_annotations(&[("atom", "missing")]),
        },
    );

    let manifest = Manifest {
        package,
        commands,
        entrypoint: entrypoint.map(|e| e.to_string()),
        ..Default::default()
    };
    let mut volumes = IndexMap::new();
    volumes.insert("atom".to_string(), Volume::parse(&fs_bytes).unwrap());
    let webc = WebC {
        version: 1,
        checksum: None,
        signature: None,
        manifest,
        atoms: Volume::parse(&atoms_bytes).unwrap(),
        volumes,
    };
    webc.into_bytes(GenerateChecksum::NoChecksum).unwrap()
}

#[test]
fn package_loaded_from_webc() {
    let bytes = build_webc(Some("python"), "https://webc.org/runner/wasi@unstable_");
    let package = read_webc(bytes).expect("parses").expect("has an entry command");
    assert_eq!(package.entry, b"\0asm-python".to_vec());
    assert_eq!(package.top_level_dirs, vec!["bin".to_string(), "lib".to_string()]);
    assert_eq!(
        package.commands,
        vec![
            ("python".to_string(), b"\0asm-python".to_vec()),
            ("tool".to_string(), b"\0asm-tool".to_vec()),
        ]
    );
}

#[test]
fn package_without_entry_command() {
    let bytes = build_webc(None, "https://webc.org/runner/wasi");
    assert!(matches!(read_webc(bytes), Some(None)));
    let bytes = build_webc(Some("nope"), "https://webc.org/runner/wasi");
    assert!(matches!(read_webc(bytes), Some(None)));
}

#[test]
fn package_with_unsupported_runner() {
    let bytes = build_webc(Some("python"), "https://webc.org/runner/wcgi");
    assert!(matches!(read_webc(bytes), Some(None)));
}

#[test]
fn malformed_volume_length_is_refused() {
    let valid = build_webc(Some("python"), "https://webc.org/runner/wasi");
    let mut bytes = valid[..1308].to_vec();
    bytes.extend([1u8, 0xa0]);
    let mut atoms = vec![0xffu8; 9];
    atoms.push(0x01);
    atoms.extend([0u8, 0u8]);
    bytes.push(atoms.len() as u8);
    bytes.extend(atoms);
    assert!(read_webc(bytes).is_none());
}

#[test]
fn atom_path_through_a_file_is_not_found() {
    for atom in ["python/x", "python/x/y", "tool/a"] {
        let bytes = build_webc_with_atom(Some("python"), "https://webc.org/runner/wasi", atom);
        assert!(matches!(read_webc(bytes), Some(None)));
    }
}

fn response(status: u16, data: Option<Vec<u8>>) -> ReqwestResponse {
    ReqwestResponse {
        pos: 0,
        data,
        ok: status == 200,
        redirected: false,
        status,
        status_text: String::new(),
        headers: vec![],
    }
}

#[test]
fn download_paths() {
    assert_eq!(WebcDownload::new("/cache", "ns/pkg", "u".to_string()).path, "/cache/ns._.pkg.webc");
    assert_eq!(WebcDownload::new("/cache/", "pkg", "u".to_string()).path, "/cache/pkg.webc");
    assert_eq!(WebcDownload::new("", "pkg", "u".to_string()).path, "pkg.webc");
}

#[test]
fn cached_package_is_not_downloaded() {
    let d = WebcDownload::new("/cache", "demo", "https://x/webc".to_string());
    let bytes = build_webc(Some("python"), "https://webc.org/runner/wasi");
    match d.step(WebcDownloadEvent::CacheRead(Some(bytes))) {
        WebcDownloadAction::Done(Some(p)) => assert_eq!(p.entry, b"\0asm-python".to_vec()),
        other => panic!("unexpected step {:?}", other),
    }
    let no_entry = build_webc(None, "https://webc.org/runner/wasi");
    assert!(matches!(d.step(WebcDownloadEvent::CacheRead(Some(no_entry))), WebcDownloadAction::Done(None)));
}

#[test]
fn missing_or_broken_cache_file_is_downloaded() {
    let d = WebcDownload::new("/cache", "demo", "https://x/webc".to_string());
    for event in [WebcDownloadEvent::CacheRead(None), WebcDownloadEvent::CacheRead(Some(vec![1, 2, 3]))] {
        match d.step(event) {
            WebcDownloadAction::Download { url, options } => {
                assert_eq!(url, "https://x/webc");
                assert!(options.gzip);
                assert!(options.cors_proxy.is_none());
            }
            other => panic!("unexpected step {:?}", other),
        }
    }
}

#[test]
fn download_replies() {
    let d = WebcDownload::new("/cache", "demo", "https://x/webc".to_string());
    assert!(matches!(d.step(WebcDownloadEvent::Downloaded(Err(5))), WebcDownloadAction::Done(None)));
    assert!(matches!(
        d.step(WebcDownloadEvent::Downloaded(Ok(response(404, Some(vec![1]))))),
        WebcDownloadAction::Done(None)
    ));
    assert!(matches!(d.step(WebcDownloadEvent::Downloaded(Ok(response(200, None)))), WebcDownloadAction::Done(None)));
    match d.step(WebcDownloadEvent::Downloaded(Ok(response(200, Some(vec![7, 8]))))) {
        WebcDownloadAction::Store { temp, path, data } => {
            assert_eq!(path, "/cache/demo.webc");
            assert!(temp.starts_with("/cache/demo.webc."));
            assert!(temp.ends_with(".temp"));
            assert_eq!(data, vec![7, 8]);
        }
        other => panic!("unexpected step {:?}", other),
    }
}

#[test]
fn stored_download_is_loaded() {
    let d = WebcDownload::new("/cache", "demo", "https://x/webc".to_string());
    let bytes = build_webc(Some("python"), "https://webc.org/runner/wasi");
    match d.step(WebcDownloadEvent::Stored(bytes)) {
        WebcDownloadAction::Done(Some(p)) => assert_eq!(p.entry, b"\0asm-python".to_vec()),
        other => panic!("unexpected step {:?}", other),
    }
    assert!(matches!(d.step(WebcDownloadEvent::Stored(vec![0, 1])), WebcDownloadAction::Done(None)));
}
