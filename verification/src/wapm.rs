//! Packages fetched from the WAPM registry: the query that asks for a package, what a reply
//! must hold to be used, and where a downloaded package is cached.

use vstd::prelude::*;
use vstd::string::*;
use vstd::utf8::encode_utf8;

use crate::runtime::{ReqwestOptions, ReqwestResponse};
use crate::text::{push_char, replace_all, replace_str, starts_with, str_eq};

verus! {

/// The registry endpoint a package query is sent to; the query follows, URL-encoded.
pub const WAPM_WEBC_URL: &'static str = "https://registry.wapm.dev/graphql?query=";

/// The GraphQL query that asks for the download links of the last version of a package.
pub const WAPM_WEBC_QUERY: &'static str = "\n{\n    getPackage(name: \"<NAME>\") {\n        lastVersion {\n            distribution {\n                downloadUrl,\n                piritaDownloadUrl\n            }\n        }\n    }\n}";

/// The place in [`WAPM_WEBC_QUERY`] where the package name goes.
pub const WAPM_WEBC_QUERY_TAG: &'static str = "<NAME>";

/// Whether a byte is left as it is by URL encoding: an ASCII letter or digit, `-`, `.`, `_`
/// or `~`.
pub open spec fn is_url_safe(b: u8) -> bool {
    (48 <= b <= 57) || (65 <= b <= 90) || (97 <= b <= 122) || b == 45 || b == 46 || b == 95 || b
        == 126
}

/// The uppercase hexadecimal digit for a value below sixteen.
pub open spec fn hex_digit_upper(n: u8) -> char {
    if n < 10 {
        (48 + n) as char
    } else {
        (55 + n) as char
    }
}

/// The percent-encoding of a sequence of bytes: a safe byte stands for itself, any other
/// byte becomes `%` and its two uppercase hexadecimal digits.
pub open spec fn percent_encoded(bytes: Seq<u8>) -> Seq<char>
    decreases bytes.len(),
{
    if bytes.len() == 0 {
        Seq::empty()
    } else {
        let b = bytes[0];
        (if is_url_safe(b) {
            seq![b as char]
        } else {
            seq!['%', hex_digit_upper(b >> 4), hex_digit_upper(b & 0xf)]
        }) + percent_encoded(bytes.drop_first())
    }
}

/// URL-encodes `data` with `urlencoding::encode`, which percent-encodes every byte of the
/// UTF-8 encoding of `data` except ASCII letters and digits, `-`, `.`, `_` and `~`, using
/// uppercase hexadecimal digits.
#[verifier::external_body]
fn url_encode(data: &str) -> (r: String)
    ensures
        r@ == percent_encoded(encode_utf8(data@)),
{
    urlencoding::encode(data).into_owned()
}

/// The query asking for the package `name`: the name, with each `"` turned into `'`, put in
/// place of the tag.
pub open spec fn package_query(name: Seq<char>) -> Seq<char> {
    replace_all(WAPM_WEBC_QUERY@, WAPM_WEBC_QUERY_TAG@, replace_all(name, seq!['"'], seq!['\'']))
}

/// The URL that asks the registry for the package `name`.
pub fn webc_query_url(name: &str) -> (r: String)
    ensures
        r@ == WAPM_WEBC_URL@ + percent_encoded(encode_utf8(package_query(name@))),
{
    proof {
        reveal_strlit("\"");
        reveal_strlit("<NAME>");
    }
    let quoted = replace_str(name, "\"", "'");
    proof {
        reveal_strlit("'");
        assert("\""@ =~= seq!['"']);
        assert("'"@ =~= seq!['\'']);
    }
    let query = replace_str(WAPM_WEBC_QUERY, WAPM_WEBC_QUERY_TAG, quoted.as_str());
    let encoded = url_encode(query.as_str());
    let mut url = String::from_str(WAPM_WEBC_URL);
    url.append(encoded.as_str());
    url
}

/// The body of a reply that can be used: the request went through, the status is 200 and a
/// body came back.
pub open spec fn usable_body(reply: Result<ReqwestResponse, u32>) -> Option<Seq<u8>> {
    match reply {
        Ok(resp) => if resp.status == 200 {
            match resp.data {
                Some(d) => Some(d@),
                None => None,
            }
        } else {
            None
        },
        Err(_) => None,
    }
}

/// Takes the body out of a reply, when the reply can be used.
pub fn successful_body(reply: Result<ReqwestResponse, u32>) -> (r: Option<Vec<u8>>)
    ensures
        match r {
            Some(d) => usable_body(reply) == Some(d@),
            None => usable_body(reply) is None,
        },
{
    match reply {
        Ok(resp) => if resp.status == 200 {
            resp.data
        } else {
            None
        },
        Err(_) => None,
    }
}

/// The options a package is downloaded with: compressed transfer, no proxy.
pub fn download_options() -> (r: ReqwestOptions)
    ensures
        r.gzip,
        r.cors_proxy is None,
{
    ReqwestOptions { gzip: true, cors_proxy: None }
}

/// The download links of a package version.
#[derive(Debug, Clone)]
pub struct WapmWebQueryGetPackageLastVersionDistribution {
    pub download_url: Option<String>,
    pub pirita_download_url: Option<String>,
}

/// The last version of a package.
#[derive(Debug, Clone)]
pub struct WapmWebQueryGetPackageLastVersion {
    pub distribution: WapmWebQueryGetPackageLastVersionDistribution,
}

/// A package found by the registry.
#[derive(Debug, Clone)]
pub struct WapmWebQueryGetPackage {
    pub last_version: WapmWebQueryGetPackageLastVersion,
}

/// The data of a registry reply.
#[derive(Debug, Clone)]
pub struct WapmWebQueryData {
    pub get_package: Option<WapmWebQueryGetPackage>,
}

/// A registry reply to a package query.
#[derive(Debug, Clone)]
pub struct WapmWebQuery {
    pub data: WapmWebQueryData,
}

/// The link to the packaged (webc) build of the package in a registry reply, if the package
/// was found and has one.
pub fn pirita_download_url(query: WapmWebQuery) -> (r: Option<String>)
    ensures
        r == (match query.data.get_package {
            Some(p) => p.last_version.distribution.pirita_download_url,
            None => None,
        }),
{
    match query.data.get_package {
        Some(p) => p.last_version.distribution.pirita_download_url,
        None => None,
    }
}

/// The name of the cache file of the package `name`: each `/` turned into `._.`, then
/// `.webc`.
pub open spec fn webc_file_name(name: Seq<char>) -> Seq<char> {
    replace_all(name, seq!['/'], "._."@) + ".webc"@
}

proof fn lemma_replace_slash_leaves_none(s: Seq<char>)
    ensures
        !replace_all(s, seq!['/'], "._."@).contains('/'),
    decreases s.len(),
{
    reveal_strlit("._.");
    if s.len() >= 1 {
        if s.subrange(0, 1) == seq!['/'] {
            lemma_replace_slash_leaves_none(s.skip(1));
            assert(!"._."@.contains('/'));
            let r = replace_all(s.skip(1), seq!['/'], "._."@);
            assert forall|i: int| 0 <= i < ("._."@ + r).len() implies ("._."@ + r)[i] != '/' by {
                if i >= 3 {
                    assert(("._."@ + r)[i] == r[i - 3]);
                }
            }
        } else {
            lemma_replace_slash_leaves_none(s.drop_first());
            assert(s[0] != '/') by {
                assert(s.subrange(0, 1) =~= seq![s[0]]);
            }
            let r = replace_all(s.drop_first(), seq!['/'], "._."@);
            assert forall|i: int| 0 <= i < (seq![s[0]] + r).len() implies (seq![s[0]] + r)[i]
                != '/' by {
                if i >= 1 {
                    assert((seq![s[0]] + r)[i] == r[i - 1]);
                }
            }
        }
    }
}

/// The cache file of a package lies directly in the cache directory: its name holds no `/`,
/// whatever the package name.
pub proof fn lemma_webc_file_name_is_flat(name: Seq<char>)
    ensures
        !webc_file_name(name).contains('/'),
{
    reveal_strlit(".webc");
    lemma_replace_slash_leaves_none(name);
    let r = replace_all(name, seq!['/'], "._."@);
    assert forall|i: int| 0 <= i < (r + ".webc"@).len() implies (r + ".webc"@)[i] != '/' by {
        if i >= r.len() {
            assert((r + ".webc"@)[i] == ".webc"@[i - r.len()]);
        } else {
            assert((r + ".webc"@)[i] == r[i]);
        }
    }
}

/// The name of the cache file of the package `name`.
pub fn webc_cache_file_name(name: &str) -> (r: String)
    ensures
        r@ == webc_file_name(name@),
{
    proof {
        reveal_strlit("/");
        assert("/"@ =~= seq!['/']);
    }
    let mut file = replace_str(name, "/", "._.");
    file.append(".webc");
    file
}

/// The decimal digit for a value below ten.
pub open spec fn decimal_digit(n: nat) -> char {
    (48 + n) as char
}

/// The decimal text of a number, without leading zeros.
pub open spec fn decimal(n: nat) -> Seq<char>
    decreases n,
{
    if n < 10 {
        seq![decimal_digit(n)]
    } else {
        decimal(n / 10) + seq![decimal_digit(n % 10)]
    }
}

/// Appends the decimal text of `n` to `s`.
pub fn push_decimal(s: &mut String, n: u128)
    ensures
        final(s)@ == old(s)@ + decimal(n as nat),
    decreases n,
{
    if n >= 10 {
        push_decimal(s, n / 10);
    }
    let d: u8 = (n % 10) as u8;
    push_char(s, (48u8 + d) as char);
    assert(old(s)@ + decimal(n as nat) =~= s@);
}

/// The file a download of `path` is written to before it is renamed to `path`: the path, a
/// dot, the number `nonce` in decimal, and `.temp`.
pub open spec fn temp_file(path: Seq<char>, nonce: u128) -> Seq<char> {
    path + seq!['.'] + decimal(nonce as nat) + ".temp"@
}

/// The temporary file for a download of `path`, told apart from others by `nonce`.
pub fn temp_path_with(path: &str, nonce: u128) -> (r: String)
    ensures
        r@ == temp_file(path@, nonce),
{
    let mut t = String::from_str(path);
    push_char(&mut t, '.');
    push_decimal(&mut t, nonce);
    t.append(".temp");
    t
}

/// A random 128-bit number from `rand::random`; nothing is stated of its value.
#[verifier::external_body]
fn random_u128() -> (r: u128) {
    rand::random::<u128>()
}

/// The temporary file for a download of `path`, told apart from others by a random number.
pub fn webc_temp_path(path: &str) -> (r: String)
    ensures
        exists|nonce: u128| r@ == temp_file(path@, nonce),
{
    let nonce = random_u128();
    temp_path_with(path, nonce)
}

/// A parsed webc container, as `webc` reads it from a file.
#[verifier::external_type_specification]
#[verifier::external_body]
pub struct ExWebCOwned(webc::WebCOwned);

/// A webc container parsed from bytes, with the bytes it was parsed from.
pub struct WebcContainer {
    webc: webc::WebCOwned,
    data: Ghost<Seq<u8>>,
}

impl WebcContainer {
    /// A container is only ever made from bytes that parse.
    #[verifier::type_invariant]
    closed spec fn parsed(self) -> bool {
        webc_parses(self.data@)
    }
}

impl View for WebcContainer {
    type V = Seq<u8>;

    /// The bytes the container was parsed from.
    closed spec fn view(&self) -> Seq<u8> {
        self.data@
    }
}

/// Whether `webc`, with the default parse options, returns a container for `data` (rather
/// than an error, or a panic on a malformed file).
pub uninterp spec fn webc_parses(data: Seq<u8>) -> bool;

/// The package name of the container parsed from `data`.
pub uninterp spec fn webc_package_name_of(data: Seq<u8>) -> Seq<char>;

/// The entry point command named in the manifest of the container parsed from `data`.
pub uninterp spec fn webc_entrypoint_of(data: Seq<u8>) -> Option<Seq<char>>;

/// The commands of the manifest of the container parsed from `data`, in manifest order:
/// their names and runners.
pub uninterp spec fn webc_commands_of(data: Seq<u8>) -> Seq<(Seq<char>, Seq<char>)>;

/// The entries of the annotation `key` of a command, when it is a map, in key order; a key
/// or value that is text is given as its text.
pub uninterp spec fn webc_annotation_of(data: Seq<u8>, command: Seq<char>, key: Seq<char>) -> Option<
    Seq<(Option<Seq<char>>, Option<Seq<char>>)>,
>;

/// The volumes of the container parsed from `data` that belong to `package`.
pub uninterp spec fn webc_volumes_of(data: Seq<u8>, package: Seq<char>) -> Seq<Seq<char>>;

/// The top-level entries of a volume: whether each is a directory, and its name.
pub uninterp spec fn webc_top_level_of(data: Seq<u8>, volume: Seq<char>) -> Option<
    Seq<(bool, Seq<char>)>,
>;

/// The atom that starts `command` under the API `api`, as the manifest annotations say.
pub uninterp spec fn webc_atom_name_of(data: Seq<u8>, api: Seq<char>, command: Seq<char>) -> Option<
    Seq<char>,
>;

/// The bytes of the atom `atom` of `package`: `None` when `webc::WebC::get_atom` gives an
/// error or panics.
pub uninterp spec fn webc_atom_of(data: Seq<u8>, package: Seq<char>, atom: Seq<char>) -> Option<
    Seq<u8>,
>;

/// The texts of a sequence of strings.
pub open spec fn texts(v: Seq<String>) -> Seq<Seq<char>> {
    v.map_values(|s: String| s@)
}

/// The texts of a sequence of pairs of strings.
pub open spec fn text_pairs(v: Seq<(String, String)>) -> Seq<(Seq<char>, Seq<char>)> {
    v.map_values(|p: (String, String)| (p.0@, p.1@))
}

/// The texts of a sequence of pairs of optional strings.
pub open spec fn optional_text_pairs(v: Seq<(Option<String>, Option<String>)>) -> Seq<
    (Option<Seq<char>>, Option<Seq<char>>),
> {
    v.map_values(
        |p: (Option<String>, Option<String>)|
            (
                match p.0 {
                    Some(t) => Some(t@),
                    None => None,
                },
                match p.1 {
                    Some(t) => Some(t@),
                    None => None,
                },
            ),
    )
}

/// Parses `data` as a webc container with `webc::WebCOwned::parse` and the default parse
/// options. That parser panics on some malformed files (a length field near `u64::MAX`
/// overflows), so the parse runs as a blocking task of a fresh `tokio` current-thread
/// runtime, which catches such a panic; the outcome comes back over a channel whose sender is
/// dropped when the task panics. Building that runtime without an I/O or time driver cannot
/// fail (in tokio 1.54.1, `Builder::build` then reaches no failing step: runtime/builder.rs,
/// `build_current_thread_runtime_components`, and runtime/driver.rs, `create_io_stack`), so a container comes back exactly when
/// the parse returned one, and it remembers the bytes. Like any `spawn_blocking`, the call
/// panics when the operating system cannot start a thread at all.
#[verifier::external_body]
fn parse_webc_container(data: Vec<u8>) -> (r: Option<WebcContainer>)
    ensures
        r is Some <==> webc_parses(data@),
        r matches Some(c) ==> c@ == data@,
{
    let bytes = Ghost(data@);
    let rt = tokio::runtime::Builder::new_current_thread().build().ok()?;
    let (tx, rx) = std::sync::mpsc::channel();
    let _ = rt.spawn_blocking(move || tx.send(webc::WebCOwned::parse(data, &webc::ParseOptions::default())));
    let parsed = rx.recv();
    rt.shutdown_background();
    match parsed {
        Ok(Ok(webc)) => Some(WebcContainer { webc, data: bytes }),
        _ => None,
    }
}

/// The package name, from `webc::WebC::get_package_name`.
#[verifier::external_body]
fn webc_package_name(w: &WebcContainer) -> (r: String)
    ensures
        r@ == webc_package_name_of(w@),
{
    w.webc.get_package_name()
}

/// The manifest's entry point, read from `webc::Manifest::entrypoint`.
#[verifier::external_body]
fn webc_entrypoint(w: &WebcContainer) -> (r: Option<String>)
    ensures
        match r {
            Some(e) => webc_entrypoint_of(w@) == Some(e@),
            None => webc_entrypoint_of(w@) is None,
        },
{
    w.webc.manifest.entrypoint.clone()
}

/// The manifest's commands with their runners, read from `webc::Manifest::commands` in
/// its order.
#[verifier::external_body]
fn webc_commands(w: &WebcContainer) -> (r: Vec<(String, String)>)
    ensures
        text_pairs(r@) == webc_commands_of(w@),
{
    w.webc.manifest.commands.iter().map(|(name, c)| (name.clone(), c.runner.clone())).collect()
}

/// The entries of the annotation `key` of `command`, read from `webc::Command::annotations`
/// when it is a CBOR map; a text key or value is given as its text.
#[verifier::external_body]
fn webc_annotation(w: &WebcContainer, command: &str, key: &str) -> (r: Option<
    Vec<(Option<String>, Option<String>)>,
>)
    ensures
        match r {
            Some(v) => webc_annotation_of(w@, command@, key@) == Some(optional_text_pairs(v@)),
            None => webc_annotation_of(w@, command@, key@) is None,
        },
{
    match w.webc.manifest.commands.get(command).and_then(|c| c.annotations.get(key)) {
        Some(webc::Value::Map(m)) => {
            let mut out = Vec::new();
            for (k, v) in m.iter() {
                let k = if let webc::Value::Text(t) = k { Some(t.clone()) } else { None };
                let v = if let webc::Value::Text(t) = v { Some(t.clone()) } else { None };
                out.push((k, v));
            }
            Some(out)
        },
        _ => None,
    }
}

/// The volumes of `package`, from `webc::WebC::get_volumes_for_package`.
#[verifier::external_body]
fn webc_volumes(w: &WebcContainer, package: &str) -> (r: Vec<String>)
    ensures
        texts(r@) == webc_volumes_of(w@, package@),
{
    w.webc.get_volumes_for_package(package)
}

/// The top-level entries of `volume`, read from its `webc::VolumeHeader::top_level`.
#[verifier::external_body]
fn webc_top_level(w: &WebcContainer, volume: &str) -> (r: Option<Vec<(bool, String)>>)
    ensures
        match r {
            Some(v) => webc_top_level_of(w@, volume@) == Some(
                v@.map_values(|e: (bool, String)| (e.0, e.1@)),
            ),
            None => webc_top_level_of(w@, volume@) is None,
        },
{
    match w.webc.volumes.get(volume) {
        Some(vol) => Some(
            vol.header.top_level.iter().map(
                |e| (e.fs_type == webc::FsEntryType::Dir, e.text.to_string()),
            ).collect(),
        ),
        None => None,
    }
}

/// The atom that starts `command` under `api`, from `webc::WebC::get_atom_name_for_command`.
#[verifier::external_body]
fn webc_atom_name(w: &WebcContainer, api: &str, command: &str) -> (r: Option<String>)
    ensures
        match r {
            Some(a) => webc_atom_name_of(w@, api@, command@) == Some(a@),
            None => webc_atom_name_of(w@, api@, command@) is None,
        },
{
    w.webc.get_atom_name_for_command(api, command).ok()
}

/// The bytes of the atom `atom` of `package`, from `webc::WebC::get_atom`. Looking an atom up
/// parses the directory levels on its path, and that parser panics on some malformed levels,
/// so the lookup runs, on a copy of the container, as a blocking task of a fresh `tokio`
/// current-thread runtime (as in `parse_webc_container`), which catches such a panic.
#[verifier::external_body]
fn webc_atom(w: &WebcContainer, package: &str, atom: &str) -> (r: Option<Vec<u8>>)
    ensures
        match r {
            Some(a) => webc_atom_of(w@, package@, atom@) == Some(a@),
            None => webc_atom_of(w@, package@, atom@) is None,
        },
{
    let (webc, package, atom) = (w.webc.clone(), package.to_string(), atom.to_string());
    let rt = tokio::runtime::Builder::new_current_thread().build().ok()?;
    let (tx, rx) = std::sync::mpsc::channel();
    let _ = rt.spawn_blocking(move || tx.send(webc.get_atom(&package, &atom).map(|a| a.to_vec())));
    let found = rx.recv();
    rt.shutdown_background();
    match found {
        Ok(Ok(a)) => Some(a),
        _ => None,
    }
}

/// The annotation of a command that names the atom it runs and the package holding it.
pub const WASI_ANNOTATION: &'static str = "wasi";

/// The runner of commands that run through Emscripten.
pub const EMSCRIPTEN_RUNNER: &'static str = "https://webc.org/runner/emscripten";

/// The runner of commands that run through WASI.
pub const WASI_RUNNER: &'static str = "https://webc.org/runner/wasi";

/// Whether `s` begins with `p`.
pub open spec fn has_prefix(s: Seq<char>, p: Seq<char>) -> bool {
    p.len() <= s.len() && s.subrange(0, p.len() as int) == p
}

/// The API a command is started with, from its runner: `emscripten` or `wasi`, or none for
/// a runner that is not supported.
pub open spec fn runner_api_of(runner: Seq<char>) -> Option<Seq<char>> {
    if has_prefix(runner, EMSCRIPTEN_RUNNER@) {
        Some("emscripten"@)
    } else if has_prefix(runner, WASI_RUNNER@) {
        Some("wasi"@)
    } else {
        None
    }
}

/// The API a command with runner `runner` is started with.
pub fn runner_api(runner: &str) -> (r: Option<&'static str>)
    ensures
        match r {
            Some(a) => runner_api_of(runner@) == Some(a@),
            None => runner_api_of(runner@) is None,
        },
{
    if starts_with(runner, EMSCRIPTEN_RUNNER) {
        Some("emscripten")
    } else if starts_with(runner, WASI_RUNNER) {
        Some("wasi")
    } else {
        None
    }
}

/// The text of an optional string.
pub open spec fn opt_text(o: Option<String>) -> Option<Seq<char>> {
    match o {
        Some(t) => Some(t@),
        None => None,
    }
}

/// The runner of the first command named `name`.
pub open spec fn first_runner(commands: Seq<(Seq<char>, Seq<char>)>, name: Seq<char>) -> Option<
    Seq<char>,
>
    decreases commands.len(),
{
    if commands.len() == 0 {
        None
    } else {
        match first_runner(commands.drop_last(), name) {
            Some(r) => Some(r),
            None => if commands.last().0 == name {
                Some(commands.last().1)
            } else {
                None
            },
        }
    }
}

/// The command a package starts with and the API it is started with: the entry point, when
/// the manifest names one, has a command, and that command's runner is supported.
pub open spec fn entry_plan(entrypoint: Option<Seq<char>>, commands: Seq<(Seq<char>, Seq<char>)>) -> Option<
    (Seq<char>, Seq<char>),
> {
    match entrypoint {
        None => None,
        Some(e) => match first_runner(commands, e) {
            None => None,
            Some(runner) => match runner_api_of(runner) {
                None => None,
                Some(api) => Some((e, api)),
            },
        },
    }
}

/// Picks the command a package starts with, and the API it is started with.
pub fn entry_command(entrypoint: &Option<String>, commands: &Vec<(String, String)>) -> (r: Option<
    (String, &'static str),
>)
    ensures
        match r {
            Some((e, api)) => entry_plan(opt_text(*entrypoint), text_pairs(commands@)) == Some(
                (e@, api@),
            ),
            None => entry_plan(opt_text(*entrypoint), text_pairs(commands@)) is None,
        },
{
    let e = match entrypoint {
        Some(e) => e,
        None => return None,
    };
    let ghost all = text_pairs(commands@);
    let mut found: Option<usize> = None;
    let mut i: usize = 0;
    while i < commands.len()
        invariant
            i <= commands@.len(),
            all == text_pairs(commands@),
            match found {
                Some(j) => j < i && first_runner(all.subrange(0, i as int), e@) == Some(
                    commands@[j as int].1@,
                ),
                None => first_runner(all.subrange(0, i as int), e@) is None,
            },
        decreases commands.len() - i,
    {
        assert(all.subrange(0, i + 1).drop_last() =~= all.subrange(0, i as int));
        if found.is_none() && str_eq(commands[i].0.as_str(), e.as_str()) {
            found = Some(i);
        }
        i = i + 1;
    }
    assert(all.subrange(0, commands@.len() as int) =~= all);
    match found {
        Some(j) => match runner_api(commands[j].1.as_str()) {
            Some(api) => Some((e.clone(), api)),
            None => None,
        },
        None => None,
    }
}

/// Reads one entry of a command's `wasi` annotation: a text `atom` names the atom, a text
/// `package` names the package it comes from; anything else changes nothing.
pub open spec fn annotation_step(
    state: (Option<Seq<char>>, Seq<char>),
    entry: (Option<Seq<char>>, Option<Seq<char>>),
) -> (Option<Seq<char>>, Seq<char>) {
    match entry {
        (Some(k), Some(v)) => if k == "atom"@ {
            (Some(v), state.1)
        } else if k == "package"@ {
            (state.0, v)
        } else {
            state
        },
        _ => state,
    }
}

/// The atom a command's `wasi` annotation names, and the package it comes from (by default
/// `root`), reading the entries in order, the last of each winning.
pub open spec fn annotated_atom(
    entries: Seq<(Option<Seq<char>>, Option<Seq<char>>)>,
    root: Seq<char>,
) -> (Option<Seq<char>>, Seq<char>)
    decreases entries.len(),
{
    if entries.len() == 0 {
        (None, root)
    } else {
        annotation_step(annotated_atom(entries.drop_last(), root), entries.last())
    }
}

/// The atom a command's `wasi` annotation names, and the package it comes from.
pub fn command_atom(entries: &Vec<(Option<String>, Option<String>)>, root_package: &str) -> (r: (
    Option<String>,
    String,
))
    ensures
        (opt_text(r.0), r.1@) == annotated_atom(optional_text_pairs(entries@), root_package@),
{
    let ghost all = optional_text_pairs(entries@);
    let mut atom: Option<String> = None;
    let mut package = String::from_str(root_package);
    let mut i: usize = 0;
    while i < entries.len()
        invariant
            i <= entries@.len(),
            all == optional_text_pairs(entries@),
            (opt_text(atom), package@) == annotated_atom(all.subrange(0, i as int), root_package@),
        decreases entries.len() - i,
    {
        assert(all.subrange(0, i + 1).drop_last() =~= all.subrange(0, i as int));
        let (k, v) = &entries[i];
        if let (Some(k), Some(v)) = (k, v) {
            if str_eq(k.as_str(), "atom") {
                atom = Some(v.clone());
            } else if str_eq(k.as_str(), "package") {
                package = v.clone();
            }
        }
        i = i + 1;
    }
    assert(all.subrange(0, entries@.len() as int) =~= all);
    (atom, package)
}

/// The names of the directories among top-level entries, in order.
pub open spec fn dir_names(entries: Seq<(bool, Seq<char>)>) -> Seq<Seq<char>>
    decreases entries.len(),
{
    if entries.len() == 0 {
        Seq::empty()
    } else {
        dir_names(entries.drop_last()) + (if entries.last().0 {
            seq![entries.last().1]
        } else {
            Seq::empty()
        })
    }
}

/// Appends the names of the directories among `entries` to `out`.
pub fn push_dir_names(entries: &Vec<(bool, String)>, out: &mut Vec<String>)
    ensures
        texts(final(out)@) == texts(old(out)@) + dir_names(
            entries@.map_values(|e: (bool, String)| (e.0, e.1@)),
        ),
{
    let ghost all = entries@.map_values(|e: (bool, String)| (e.0, e.1@));
    let ghost start = texts(out@);
    let mut i: usize = 0;
    while i < entries.len()
        invariant
            i <= entries@.len(),
            all == entries@.map_values(|e: (bool, String)| (e.0, e.1@)),
            texts(out@) == start + dir_names(all.subrange(0, i as int)),
        decreases entries.len() - i,
    {
        assert(all.subrange(0, i + 1).drop_last() =~= all.subrange(0, i as int));
        let ghost before = out@;
        if entries[i].0 {
            out.push(entries[i].1.clone());
            assert(texts(out@) =~= texts(before).push(entries@[i as int].1@));
        }
        assert(texts(out@) =~= start + dir_names(all.subrange(0, i + 1)));
        i = i + 1;
    }
    assert(all.subrange(0, entries@.len() as int) =~= all);
}

/// The names of the top-level directories of the volumes `volumes`, volume after volume.
pub open spec fn volume_dirs(data: Seq<u8>, volumes: Seq<Seq<char>>) -> Seq<Seq<char>>
    decreases volumes.len(),
{
    if volumes.len() == 0 {
        Seq::empty()
    } else {
        volume_dirs(data, volumes.drop_last()) + match webc_top_level_of(data, volumes.last()) {
            Some(t) => dir_names(t),
            None => Seq::empty(),
        }
    }
}

/// The command a `wasi` annotation adds to a package: its name and atom, when the annotation
/// names an atom that the container holds.
pub open spec fn command_entry(data: Seq<u8>, root: Seq<char>, name: Seq<char>) -> Seq<
    (Seq<char>, Seq<u8>),
> {
    match webc_annotation_of(data, name, WASI_ANNOTATION@) {
        None => Seq::empty(),
        Some(ann) => {
            let (atom, package) = annotated_atom(ann, root);
            match atom {
                None => Seq::empty(),
                Some(a) => match webc_atom_of(data, package, a) {
                    None => Seq::empty(),
                    Some(bytes) => seq![(name, bytes)],
                },
            }
        },
    }
}

/// The commands added to a package by the `wasi` annotations of `commands`, in order.
pub open spec fn command_atoms(
    data: Seq<u8>,
    root: Seq<char>,
    commands: Seq<(Seq<char>, Seq<char>)>,
) -> Seq<(Seq<char>, Seq<u8>)>
    decreases commands.len(),
{
    if commands.len() == 0 {
        Seq::empty()
    } else {
        command_atoms(data, root, commands.drop_last()) + command_entry(
            data,
            root,
            commands.last().0,
        )
    }
}

/// A package loaded from a webc container: the atom its entry command runs, the top-level
/// directories of its file system, and the commands its annotations add.
#[derive(Debug)]
pub struct WebcPackage {
    pub entry: Vec<u8>,
    pub top_level_dirs: Vec<String>,
    pub commands: Vec<(String, Vec<u8>)>,
}

/// The contents of a loaded package.
pub open spec fn package_view(p: WebcPackage) -> (Seq<u8>, Seq<Seq<char>>, Seq<(Seq<char>, Seq<u8>)>) {
    (p.entry@, texts(p.top_level_dirs@), p.commands@.map_values(|c: (String, Vec<u8>)| (c.0@, c.1@)))
}

/// The package loaded from the bytes of a webc container: none when the bytes do not parse,
/// when no entry command can be started, or when its atom cannot be found.
pub open spec fn webc_package_of(data: Seq<u8>) -> Option<
    (Seq<u8>, Seq<Seq<char>>, Seq<(Seq<char>, Seq<u8>)>),
> {
    if !webc_parses(data) {
        None
    } else {
        let pkg = webc_package_name_of(data);
        match entry_plan(webc_entrypoint_of(data), webc_commands_of(data)) {
            None => None,
            Some((entry, api)) => match webc_atom_name_of(data, api, entry) {
                None => None,
                Some(atom) => match webc_atom_of(data, pkg, atom) {
                    None => None,
                    Some(bytes) => Some(
                        (
                            bytes,
                            volume_dirs(data, webc_volumes_of(data, pkg)),
                            command_atoms(data, pkg, webc_commands_of(data)),
                        ),
                    ),
                },
            },
        }
    }
}

fn package_dirs(w: &WebcContainer, package: &str) -> (r: Vec<String>)
    ensures
        texts(r@) == volume_dirs(w@, webc_volumes_of(w@, package@)),
{
    let volumes = webc_volumes(w, package);
    let ghost all = texts(volumes@);
    let mut out: Vec<String> = Vec::new();
    let mut i: usize = 0;
    assert(texts(out@) =~= Seq::<Seq<char>>::empty());
    while i < volumes.len()
        invariant
            i <= volumes@.len(),
            all == texts(volumes@),
            all == webc_volumes_of(w@, package@),
            texts(out@) == volume_dirs(w@, all.subrange(0, i as int)),
        decreases volumes.len() - i,
    {
        assert(all.subrange(0, i + 1).drop_last() =~= all.subrange(0, i as int));
        assert(all.subrange(0, i + 1).last() == volumes@[i as int]@);
        match webc_top_level(w, volumes[i].as_str()) {
            Some(entries) => {
                push_dir_names(&entries, &mut out);
            },
            None => {
                assert(texts(out@) =~= texts(out@) + Seq::<Seq<char>>::empty());
            },
        }
        i = i + 1;
    }
    assert(all.subrange(0, volumes@.len() as int) =~= all);
    out
}

fn annotated_commands(w: &WebcContainer, root: &str, commands: &Vec<(String, String)>) -> (r: Vec<
    (String, Vec<u8>),
>)
    ensures
        r@.map_values(|c: (String, Vec<u8>)| (c.0@, c.1@)) == command_atoms(
            w@,
            root@,
            text_pairs(commands@),
        ),
{
    let ghost all = text_pairs(commands@);
    let mut out: Vec<(String, Vec<u8>)> = Vec::new();
    let mut i: usize = 0;
    assert(out@.map_values(|c: (String, Vec<u8>)| (c.0@, c.1@)) =~= Seq::<
        (Seq<char>, Seq<u8>),
    >::empty());
    while i < commands.len()
        invariant
            i <= commands@.len(),
            all == text_pairs(commands@),
            out@.map_values(|c: (String, Vec<u8>)| (c.0@, c.1@)) == command_atoms(
                w@,
                root@,
                all.subrange(0, i as int),
            ),
        decreases commands.len() - i,
    {
        assert(all.subrange(0, i + 1).drop_last() =~= all.subrange(0, i as int));
        assert(all.subrange(0, i + 1).last().0 == commands@[i as int].0@);
        let ghost before = out@;
        let name = &commands[i].0;
        if let Some(ann) = webc_annotation(w, name.as_str(), WASI_ANNOTATION) {
            let (atom, package) = command_atom(&ann, root);
            if let Some(a) = atom {
                if let Some(bytes) = webc_atom(w, package.as_str(), a.as_str()) {
                    out.push((name.clone(), bytes));
                }
            }
        }
        assert(out@.map_values(|c: (String, Vec<u8>)| (c.0@, c.1@)) =~= before.map_values(
            |c: (String, Vec<u8>)| (c.0@, c.1@),
        ) + command_entry(w@, root@, commands@[i as int].0@));
        i = i + 1;
    }
    assert(all.subrange(0, commands@.len() as int) =~= all);
    out
}

/// The package a parsed container holds: its entry command's atom, the top-level
/// directories of its volumes, and the commands its `wasi` annotations add.
pub fn parse_webc(w: &WebcContainer) -> (r: Option<WebcPackage>)
    ensures
        match r {
            Some(p) => webc_package_of(w@) == Some(package_view(p)),
            None => webc_package_of(w@) is None,
        },
{
    proof {
        use_type_invariant(w);
    }
    let package_name = webc_package_name(w);
    let entrypoint = webc_entrypoint(w);
    let commands = webc_commands(w);
    let (entry, api) = match entry_command(&entrypoint, &commands) {
        Some(plan) => plan,
        None => return None,
    };
    let atom_name = match webc_atom_name(w, api, entry.as_str()) {
        Some(a) => a,
        None => return None,
    };
    let atom = match webc_atom(w, package_name.as_str(), atom_name.as_str()) {
        Some(a) => a,
        None => return None,
    };
    let top_level_dirs = package_dirs(w, package_name.as_str());
    let cmds = annotated_commands(w, package_name.as_str(), &commands);
    Some(WebcPackage { entry: atom, top_level_dirs, commands: cmds })
}

/// Reads the bytes of a webc container: `None` when they do not parse as one, else the
/// package it holds, if any.
pub fn read_webc(data: Vec<u8>) -> (r: Option<Option<WebcPackage>>)
    ensures
        r is Some <==> webc_parses(data@),
        r matches Some(p) ==> match p {
            Some(pk) => webc_package_of(data@) == Some(package_view(pk)),
            None => webc_package_of(data@) is None,
        },
{
    let ghost bytes = data@;
    match parse_webc_container(data) {
        Some(w) => {
            assert(w@ == bytes);
            Some(parse_webc(&w))
        },
        None => None,
    }
}

/// `file` placed in the directory `dir`, as a path is joined on Unix: with a `/` between
/// them unless `dir` is empty or already ends with one.
pub open spec fn join_path(dir: Seq<char>, file: Seq<char>) -> Seq<char> {
    if dir.len() == 0 || dir.last() == '/' {
        dir + file
    } else {
        dir + seq!['/'] + file
    }
}

/// The cache file of the package `name` in the directory `cache_dir`.
pub fn webc_cache_path(cache_dir: &str, name: &str) -> (r: String)
    ensures
        r@ == join_path(cache_dir@, webc_file_name(name@)),
{
    let mut path = cache_dir.to_owned();
    let n = cache_dir.unicode_len();
    if n > 0 && cache_dir.get_char(n - 1) != '/' {
        push_char(&mut path, '/');
    }
    let file = webc_cache_file_name(name);
    path.append(file.as_str());
    path
}

/// The package to load, where it is cached and where it is downloaded from.
pub struct WebcDownload {
    pub path: String,
    pub url: String,
}

/// What loading a package reported back.
#[derive(Debug)]
pub enum WebcDownloadEvent {
    /// The contents of the cache file, or `None` when it could not be read.
    CacheRead(Option<Vec<u8>>),
    /// The reply of the registry to the download request.
    Downloaded(Result<ReqwestResponse, u32>),
    /// The downloaded bytes, once written to the temporary file and renamed onto the cache
    /// file (whether or not that worked).
    Stored(Vec<u8>),
}

/// What loading a package calls for next.
#[derive(Debug)]
pub enum WebcDownloadAction {
    /// Send a `GET` request, with no headers and no body, to `url` with `options`.
    Download { url: String, options: ReqwestOptions },
    /// Write `data` to the file `temp`, then rename it to `path`.
    Store { temp: String, path: String, data: Vec<u8> },
    /// Loading is over: the package, or none.
    Done(Option<WebcPackage>),
}

/// The contents of an optional package.
pub open spec fn opt_package_view(p: Option<WebcPackage>) -> Option<
    (Seq<u8>, Seq<Seq<char>>, Seq<(Seq<char>, Seq<u8>)>),
> {
    match p {
        Some(pk) => Some(package_view(pk)),
        None => None,
    }
}

impl WebcDownload {
    /// Loading the package `name`, cached in `cache_dir`, downloadable from `url`. The first
    /// step is to read the cache file at `path`.
    pub fn new(cache_dir: &str, name: &str, url: String) -> (r: Self)
        ensures
            r.path@ == join_path(cache_dir@, webc_file_name(name@)),
            r.url == url,
    {
        WebcDownload { path: webc_cache_path(cache_dir, name), url }
    }

    /// The step after `event`. Cached bytes that parse as a container give its package (or
    /// none, when it holds no runnable entry), and nothing is downloaded. Otherwise the
    /// package is downloaded with `gzip` and no proxy; a reply that is not a `200` with a
    /// body ends with no package; a body is stored through a fresh temporary file beside the
    /// cache file; and the stored bytes give the package.
    pub fn step(&self, event: WebcDownloadEvent) -> (r: WebcDownloadAction)
        ensures
            match event {
                WebcDownloadEvent::CacheRead(Some(b)) if webc_parses(b@) => r matches
                    WebcDownloadAction::Done(p) && opt_package_view(p) == webc_package_of(b@),
                WebcDownloadEvent::CacheRead(_) => r matches WebcDownloadAction::Download {
                    url,
                    options,
                } && url == self.url && options.gzip && options.cors_proxy is None,
                WebcDownloadEvent::Downloaded(reply) => match usable_body(reply) {
                    Some(d) => r matches WebcDownloadAction::Store { temp, path, data } && path
                        == self.path && data@ == d && exists|nonce: u128|
                        temp@ == temp_file(self.path@, nonce),
                    None => r matches WebcDownloadAction::Done(None),
                },
                WebcDownloadEvent::Stored(d) => r matches WebcDownloadAction::Done(p)
                    && opt_package_view(p) == webc_package_of(d@),
            },
    {
        match event {
            WebcDownloadEvent::CacheRead(Some(bytes)) => {
                let ghost b = bytes@;
                match read_webc(bytes) {
                    Some(p) => {
                        assert(opt_package_view(p) == webc_package_of(b));
                        WebcDownloadAction::Done(p)
                    },
                    None => WebcDownloadAction::Download {
                        url: self.url.clone(),
                        options: download_options(),
                    },
                }
            },
            WebcDownloadEvent::CacheRead(None) => WebcDownloadAction::Download {
                url: self.url.clone(),
                options: download_options(),
            },
            WebcDownloadEvent::Downloaded(reply) => match successful_body(reply) {
                Some(data) => WebcDownloadAction::Store {
                    temp: webc_temp_path(self.path.as_str()),
                    path: self.path.clone(),
                    data,
                },
                None => WebcDownloadAction::Done(None),
            },
            WebcDownloadEvent::Stored(bytes) => {
                let ghost b = bytes@;
                match read_webc(bytes) {
                    Some(p) => WebcDownloadAction::Done(p),
                    None => WebcDownloadAction::Done(None),
                }
            },
        }
    }
}

} // verus!
