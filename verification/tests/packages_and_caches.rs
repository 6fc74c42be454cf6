use wasi_runtime::bin_factory::{
    compiled_module_file_name, compiled_module_key, hash_of_binary, hash_of_digest, BinFactory,
    BinaryLookup, CachedCompiledModules, ModuleTable, DEFAULT_COMPILED_PATH, DEFAULT_WEBC_PATH,
};
use wasi_runtime::runtime::ReqwestResponse;
use wasi_runtime::text::replace_str;
use wasi_runtime::wapm::{
    download_options, entry_command, command_atom, pirita_download_url, push_dir_names, read_webc,
    runner_api, successful_body, temp_path_with, webc_cache_file_name, webc_query_url,
    webc_temp_path, WapmWebQuery, WapmWebQueryData, WapmWebQueryGetPackage,
    WapmWebQueryGetPackageLastVersion, WapmWebQueryGetPackageLastVersionDistribution,
    WAPM_WEBC_QUERY_TAG, WAPM_WEBC_URL,
};

#[test]
fn hash_of_known_binaries() {
    assert_eq!(
        hash_of_binary(b""),
        "e3b0c44298fc1c149afbf4c8996fb92427ae41e4649b934ca495991b7852b855"
    );
    assert_eq!(
        hash_of_binary(b"abc"),
        "ba7816bf8f01cfea414140de5dae2223b00361a396177a9cb410ff61f20015ad"
    );
    assert_eq!(hash_of_digest(&[0x00, 0x0f, 0xa5, 0xff]), "000fa5ff");
}

#[test]
fn compiled_module_keys() {
    assert_eq!(compiled_module_key("abc", "cranelift"), "abc-cranelift");
    assert_eq!(compiled_module_file_name("abc-cranelift"), "abc-cranelift.bin");
    assert_eq!(DEFAULT_COMPILED_PATH, "~/.wasmer/compiled");
    assert_eq!(DEFAULT_WEBC_PATH, "~/.wasmer/webc");
}

#[test]
fn module_table_replaces_values() {
    let mut t = ModuleTable::new();
    assert_eq!(t.get("a"), None);
    t.insert("a", &[1]);
    t.insert("b", &[2]);
    t.insert("a", &[3]);
    assert_eq!(t.get("a"), Some(vec![3]));
    assert_eq!(t.get("b"), Some(vec![2]));
}

#[test]
fn compiled_module_read_after_write() {
    let mut c = CachedCompiledModules::new(Some("/cache".to_string()));
    assert_eq!(c.cache_compile_dir(), "/cache");
    assert_eq!(c.get_compiled_module("h", "llvm"), None);
    let file = c.set_compiled_module("h", "llvm", &[1, 2, 3, 4, 5, 1, 2, 3, 4, 5]);
    assert_eq!(c.get_compiled_module("h", "llvm"), Some(vec![1, 2, 3, 4, 5, 1, 2, 3, 4, 5]));
    assert_eq!(c.get_compiled_module("h", "cranelift"), None);
    assert_eq!(c.get_compiled_module("other", "llvm"), None);
    assert!(!file.is_empty());
}

#[test]
fn compiled_module_disk_round_trip() {
    let module: Vec<u8> = (0..300u32).map(|i| (i * 7 % 256) as u8).collect();
    let mut writer = CachedCompiledModules::new(Some("/cache".to_string()));
    let file = writer.set_compiled_module("hash", "singlepass", &module);
    assert_ne!(file, module);
    let mut reader = CachedCompiledModules::new(Some("/cache".to_string()));
    assert_eq!(reader.get_compiled_module("hash", "singlepass"), None);
    assert_eq!(reader.load_compiled_module("hash", "singlepass", &file), Some(module.clone()));
    assert_eq!(reader.get_compiled_module("hash", "singlepass"), Some(module));
}

#[test]
fn corrupt_cache_file_is_not_loaded() {
    let mut c = CachedCompiledModules::new(None);
    match c.load_compiled_module("h", "c", &[0xff, 0xff, 0xff, 0xff]) {
        None => assert_eq!(c.get_compiled_module("h", "c"), None),
        Some(m) => assert_eq!(c.get_compiled_module("h", "c"), Some(m)),
    }
}

#[test]
fn default_cache_dir_expands_home() {
    let c = CachedCompiledModules::new(None);
    assert!(c.cache_compile_dir().ends_with("/.wasmer/compiled"));
    assert!(!c.cache_compile_dir().starts_with('~'));
    let f = BinFactory::new(Some("/webc".to_string()));
    assert_eq!(f.cache_webc_dir(), "/webc");
}

#[test]
fn bin_factory_remembers_lookups() {
    let mut f = BinFactory::new(Some("/webc".to_string()));
    assert!(matches!(f.lookup("python"), BinaryLookup::Found(None)));
    assert!(matches!(f.lookup("python"), BinaryLookup::Found(None)));
    assert!(matches!(f.lookup("/bin/ls"), BinaryLookup::ReadFile));
    assert!(matches!(f.lookup("/bin/ls"), BinaryLookup::ReadFile));
    assert_eq!(f.file_read("/bin/ls", Some(vec![0, 97, 115, 109])), Some(vec![0, 97, 115, 109]));
    match f.lookup("/bin/ls") {
        BinaryLookup::Found(Some(d)) => assert_eq!(d, vec![0, 97, 115, 109]),
        other => panic!("unexpected {:?}", other),
    }
    assert_eq!(f.file_read("/bin/ls", Some(vec![9])), Some(vec![0, 97, 115, 109]));
    assert!(matches!(f.lookup("/missing"), BinaryLookup::ReadFile));
    assert_eq!(f.file_read("/missing", None), None);
    assert!(matches!(f.lookup("/missing"), BinaryLookup::Found(None)));
    f.clear();
    assert!(matches!(f.lookup("/bin/ls"), BinaryLookup::ReadFile));
}

#[test]
fn bin_factory_get_reads_each_file_once() {
    let mut f = BinFactory::new(Some("/webc".to_string()));
    let mut reads = 0;
    assert_eq!(f.get("/bin/cat", || { reads += 1; Some(vec![1, 2, 3]) }), Some(vec![1, 2, 3]));
    assert_eq!(f.get("/bin/cat", || { reads += 1; Some(vec![9]) }), Some(vec![1, 2, 3]));
    assert_eq!(reads, 1);
    assert_eq!(f.get("/gone", || { reads += 1; None }), None);
    assert_eq!(f.get("/gone", || { reads += 1; Some(vec![4]) }), None);
    assert_eq!(reads, 2);
    assert_eq!(f.get("relative", || { reads += 1; Some(vec![5]) }), None);
    assert_eq!(reads, 2);
    f.clear();
    assert_eq!(f.get("/bin/cat", || { reads += 1; Some(vec![7]) }), Some(vec![7]));
    assert_eq!(reads, 3);
}

#[test]
fn replace_matches_std() {
    for (s, from, to) in [
        ("a/b/c", "/", "._."),
        ("aaaa", "aa", "b"),
        ("abc", "x", "y"),
        ("", "x", "y"),
        ("\"q\"", "\"", "'"),
        ("ééé", "é", "e"),
    ] {
        assert_eq!(replace_str(s, from, to), s.replace(from, to));
    }
}

#[test]
fn registry_query_url() {
    assert_eq!(WAPM_WEBC_URL, "https://registry.wapm.dev/graphql?query=");
    assert_eq!(WAPM_WEBC_QUERY_TAG, "<NAME>");
    assert_eq!(
        webc_query_url("wasmer/python"),
        "https://registry.wapm.dev/graphql?query=%0A%7B%0A%20%20%20%20getPackage%28name%3A%20%22wasmer%2Fpython%22%29%20%7B%0A%20%20%20%20%20%20%20%20lastVersion%20%7B%0A%20%20%20%20%20%20%20%20%20%20%20%20distribution%20%7B%0A%20%20%20%20%20%20%20%20%20%20%20%20%20%20%20%20downloadUrl%2C%0A%20%20%20%20%20%20%20%20%20%20%20%20%20%20%20%20piritaDownloadUrl%0A%20%20%20%20%20%20%20%20%20%20%20%20%7D%0A%20%20%20%20%20%20%20%20%7D%0A%20%20%20%20%7D%0A%7D"
    );
    let quoted = webc_query_url("a\"b");
    assert!(quoted.contains("%22a%27b%22"));
}

fn reply(status: u16, data: Option<Vec<u8>>) -> Result<ReqwestResponse, u32> {
    Ok(ReqwestResponse {
        pos: 0,
        data,
        ok: true,
        redirected: false,
        status,
        status_text: String::new(),
        headers: Vec::new(),
    })
}

#[test]
fn usable_reply_bodies() {
    assert_eq!(successful_body(reply(200, Some(vec![1]))), Some(vec![1]));
    assert_eq!(successful_body(reply(200, None)), None);
    assert_eq!(successful_body(reply(404, Some(vec![1]))), None);
    assert_eq!(successful_body(Err(29)), None);
    let o = download_options();
    assert!(o.gzip);
    assert!(o.cors_proxy.is_none());
}

#[test]
fn pirita_link_of_a_reply() {
    let found = WapmWebQuery {
        data: WapmWebQueryData {
            get_package: Some(WapmWebQueryGetPackage {
                last_version: WapmWebQueryGetPackageLastVersion {
                    distribution: WapmWebQueryGetPackageLastVersionDistribution {
                        download_url: Some("https://x/tar".to_string()),
                        pirita_download_url: Some("https://x/webc".to_string()),
                    },
                },
            }),
        },
    };
    assert_eq!(pirita_download_url(found), Some("https://x/webc".to_string()));
    let missing = WapmWebQuery { data: WapmWebQueryData { get_package: None } };
    assert_eq!(pirita_download_url(missing), None);
}

#[test]
fn webc_cache_files() {
    assert_eq!(webc_cache_file_name("wasmer/python"), "wasmer._.python.webc");
    assert_eq!(webc_cache_file_name("a/b/c"), "a._.b._.c.webc");
    assert!(!webc_cache_file_name("x//y/").contains('/'));
    assert_eq!(temp_path_with("/c/p.webc", 0), "/c/p.webc.0.temp");
    assert_eq!(temp_path_with("/c/p.webc", 1234567890), "/c/p.webc.1234567890.temp");
    assert_eq!(
        temp_path_with("p", u128::MAX),
        format!("p.{}.temp", u128::MAX)
    );
    let t = webc_temp_path("/c/p.webc");
    assert!(t.starts_with("/c/p.webc.") && t.ends_with(".temp"));
    let digits = &t["/c/p.webc.".len()..t.len() - ".temp".len()];
    assert!(digits.parse::<u128>().is_ok());
}

#[test]
fn runners_and_entry_commands() {
    assert_eq!(runner_api("https://webc.org/runner/wasi/command@unstable_"), Some("wasi"));
    assert_eq!(runner_api("https://webc.org/runner/emscripten/command"), Some("emscripten"));
    assert_eq!(runner_api("https://webc.org/runner/wcgi"), None);
    let commands = vec![
        ("a".to_string(), "https://other".to_string()),
        ("python".to_string(), "https://webc.org/runner/wasi".to_string()),
        ("python".to_string(), "https://other".to_string()),
    ];
    assert_eq!(
        entry_command(&Some("python".to_string()), &commands),
        Some(("python".to_string(), "wasi"))
    );
    assert_eq!(entry_command(&Some("a".to_string()), &commands), None);
    assert_eq!(entry_command(&Some("zzz".to_string()), &commands), None);
    assert_eq!(entry_command(&None, &commands), None);
}

#[test]
fn annotations_name_atom_and_package() {
    let entries = vec![
        (Some("atom".to_string()), Some("first".to_string())),
        (Some("env".to_string()), None),
        (Some("package".to_string()), Some("other@1".to_string())),
        (Some("atom".to_string()), Some("second".to_string())),
        (None, Some("ignored".to_string())),
    ];
    assert_eq!(
        command_atom(&entries, "root@0"),
        (Some("second".to_string()), "other@1".to_string())
    );
    assert_eq!(command_atom(&vec![], "root@0"), (None, "root@0".to_string()));
}

#[test]
fn top_level_directories() {
    let mut out = vec!["keep".to_string()];
    push_dir_names(
        &vec![(true, "bin".to_string()), (false, "README".to_string()), (true, "lib".to_string())],
        &mut out,
    );
    assert_eq!(out, vec!["keep".to_string(), "bin".to_string(), "lib".to_string()]);
}

#[test]
fn bytes_that_are_not_webc() {
    assert!(read_webc(vec![]).is_none());
    assert!(read_webc(b"not a webc file at all".to_vec()).is_none());
}
