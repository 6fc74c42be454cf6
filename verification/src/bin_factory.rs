//! Binaries and their compiled modules: the hash that names a binary, and the cache of
//! compiled modules kept in memory and on disk.

use sha2::Digest;
use vstd::prelude::*;
use vstd::slice::slice_to_vec;
use vstd::string::*;

use crate::text::{push_char, starts_with, str_eq};
use crate::wapm::has_prefix;

verus! {

/// The lowercase hexadecimal digit for a value below sixteen.
pub open spec fn hex_digit_lower(n: u8) -> char {
    if n < 10 {
        (48 + n) as char
    } else {
        (87 + n) as char
    }
}

/// The lowercase hexadecimal text of a sequence of bytes, two digits per byte, high half first.
pub open spec fn hex_lower(bytes: Seq<u8>) -> Seq<char>
    decreases bytes.len(),
{
    if bytes.len() == 0 {
        Seq::empty()
    } else {
        seq![hex_digit_lower(bytes[0] >> 4), hex_digit_lower(bytes[0] & 0xf)] + hex_lower(
            bytes.drop_first(),
        )
    }
}

/// The SHA-256 digest of `data`.
pub uninterp spec fn sha256_of(data: Seq<u8>) -> Seq<u8>;

/// Computes the SHA-256 digest of `data` with `sha2::Sha256::digest`. The result is the
/// digest of the data, 32 bytes long.
#[verifier::external_body]
fn sha256_digest(data: &[u8]) -> (r: Vec<u8>)
    ensures
        r@ == sha256_of(data@),
        r@.len() == 32,
{
    <sha2::Sha256 as Digest>::digest(data).to_vec()
}

/// Encodes bytes as lowercase hexadecimal text with `hex::encode`: two digits per byte,
/// high half first, from the table `0123456789abcdef`.
#[verifier::external_body]
fn hex_encode(data: &[u8]) -> (r: String)
    ensures
        r@ == hex_lower(data@),
{
    hex::encode(data)
}

/// The lowercase hexadecimal text of a digest.
pub fn hash_of_digest(digest: &[u8]) -> (r: String)
    ensures
        r@ == hex_lower(digest@),
{
    hex_encode(digest)
}

/// The name of a binary: the lowercase hexadecimal text of the SHA-256 digest of its bytes.
pub fn hash_of_binary(data: &[u8]) -> (r: String)
    ensures
        r@ == hex_lower(sha256_of(data@)),
{
    let digest = sha256_digest(data);
    hash_of_digest(digest.as_slice())
}

/// The LZW encoding (most significant bit first, 8-bit symbols) of `data`.
pub uninterp spec fn lzw_encoded(data: Seq<u8>) -> Seq<u8>;

/// The LZW decoding (most significant bit first, 8-bit symbols) of `data`, if it is a valid
/// encoding.
pub uninterp spec fn lzw_decoded(data: Seq<u8>) -> Option<Seq<u8>>;

/// Compresses `data` with `weezl::encode::Encoder::new(BitOrder::Msb, 8).encode`. With
/// 8-bit symbols every byte has a code, so the encoder, which fails only on a byte without
/// a code, always succeeds; the result is the encoding of the data, and a decoder with the
/// same arguments gives the data back from it (the pairing the crate documents and tests).
#[verifier::external_body]
fn lzw_encode(data: &[u8]) -> (r: Vec<u8>)
    ensures
        r@ == lzw_encoded(data@),
        lzw_decoded(r@) == Some(data@),
{
    weezl::encode::Encoder::new(weezl::BitOrder::Msb, 8).encode(data).unwrap()
}

/// Decompresses `data` with `weezl::decode::Decoder::new(BitOrder::Msb, 8).decode`, which
/// fails on an invalid code; the result is the decoding of the data.
#[verifier::external_body]
fn lzw_decode(data: &[u8]) -> (r: Option<Vec<u8>>)
    ensures
        match r {
            Some(v) => lzw_decoded(data@) == Some(v@),
            None => lzw_decoded(data@) is None,
        },
{
    weezl::decode::Decoder::new(weezl::BitOrder::Msb, 8).decode(data).ok()
}

/// Expands a leading `~` of `path` to the home directory with `shellexpand::tilde`. A path
/// that does not start with `~`, or starts with `~` followed by anything but a path
/// separator (`/`, or `\` on Windows), is given back unchanged; otherwise the `~` is replaced
/// by the home directory, or the path is given back unchanged when there is none. Which home
/// directory is found depends on the environment and is not stated.
#[verifier::external_body]
fn expand_tilde(path: &str) -> (r: String)
    ensures
        (path@.len() == 0 || path@[0] != '~' || (path@.len() > 1 && path@[1] != '/'
            && path@[1] != '\\')) ==> r@ == path@,
        r@ == path@ || exists|home: Seq<char>| r@ == home + path@.drop_first(),
{
    shellexpand::tilde(path).to_string()
}

/// Where compiled modules are cached on disk unless told otherwise.
pub const DEFAULT_COMPILED_PATH: &'static str = "~/.wasmer/compiled";

/// The first value stored under `key`.
pub open spec fn table_lookup(entries: Seq<(String, Vec<u8>)>, key: Seq<char>) -> Option<Seq<u8>>
    decreases entries.len(),
{
    if entries.len() == 0 {
        None
    } else if entries[0].0@ == key {
        Some(entries[0].1@)
    } else {
        table_lookup(entries.drop_first(), key)
    }
}

proof fn lemma_lookup_first(entries: Seq<(String, Vec<u8>)>, key: Seq<char>, i: int)
    requires
        0 <= i < entries.len(),
        entries[i].0@ == key,
        forall|j: int| 0 <= j < i ==> entries[j].0@ != key,
    ensures
        table_lookup(entries, key) == Some(entries[i].1@),
    decreases i,
{
    if i > 0 {
        lemma_lookup_first(entries.drop_first(), key, i - 1);
    }
}

proof fn lemma_lookup_absent(entries: Seq<(String, Vec<u8>)>, key: Seq<char>)
    requires
        forall|j: int| 0 <= j < entries.len() ==> entries[j].0@ != key,
    ensures
        table_lookup(entries, key) is None,
    decreases entries.len(),
{
    if entries.len() > 0 {
        lemma_lookup_absent(entries.drop_first(), key);
    }
}

proof fn lemma_lookup_update_other(
    entries: Seq<(String, Vec<u8>)>,
    i: int,
    e: (String, Vec<u8>),
    key: Seq<char>,
)
    requires
        0 <= i < entries.len(),
        entries[i].0@ != key,
        e.0@ != key,
    ensures
        table_lookup(entries.update(i, e), key) == table_lookup(entries, key),
    decreases entries.len(),
{
    if i > 0 {
        lemma_lookup_update_other(entries.drop_first(), i - 1, e, key);
        assert(entries.update(i, e).drop_first() =~= entries.drop_first().update(i - 1, e));
    } else {
        assert(entries.update(i, e).drop_first() =~= entries.drop_first());
    }
}

proof fn lemma_lookup_push(entries: Seq<(String, Vec<u8>)>, e: (String, Vec<u8>), key: Seq<char>)
    ensures
        table_lookup(entries.push(e), key) == (match table_lookup(entries, key) {
            Some(v) => Some(v),
            None => if e.0@ == key {
                Some(e.1@)
            } else {
                None
            },
        }),
    decreases entries.len(),
{
    if entries.len() > 0 {
        lemma_lookup_push(entries.drop_first(), e, key);
        assert(entries.push(e).drop_first() =~= entries.drop_first().push(e));
        assert(entries.push(e)[0] == entries[0]);
    } else {
        assert(entries.push(e).drop_first() =~= Seq::<(String, Vec<u8>)>::empty());
        assert(entries.push(e)[0] == e);
        assert(table_lookup(Seq::<(String, Vec<u8>)>::empty(), key) is None);
        assert(table_lookup(entries, key) is None);
    }
}

/// Compiled modules kept in memory, by cache key.
#[derive(Debug)]
pub struct ModuleTable {
    entries: Vec<(String, Vec<u8>)>,
}

impl ModuleTable {
    /// The module stored under `key`, if any.
    pub closed spec fn lookup(&self, key: Seq<char>) -> Option<Seq<u8>> {
        table_lookup(self.entries@, key)
    }

    /// A table with nothing stored.
    pub fn new() -> (r: Self)
        ensures
            forall|k: Seq<char>| r.lookup(k) is None,
    {
        ModuleTable { entries: Vec::new() }
    }

    fn find(&self, key: &str) -> (r: Option<usize>)
        ensures
            match r {
                Some(i) => i < self.entries@.len() && self.entries@[i as int].0@ == key@ && forall|
                    j: int,
                | 0 <= j < i ==> self.entries@[j].0@ != key@,
                None => forall|j: int| 0 <= j < self.entries@.len() ==> self.entries@[j].0@ != key@,
            },
    {
        let mut i: usize = 0;
        while i < self.entries.len()
            invariant
                i <= self.entries@.len(),
                forall|j: int| 0 <= j < i ==> self.entries@[j].0@ != key@,
            decreases self.entries.len() - i,
        {
            if str_eq(self.entries[i].0.as_str(), key) {
                return Some(i);
            }
            i = i + 1;
        }
        None
    }

    /// The module stored under `key`, if any.
    pub fn get(&self, key: &str) -> (r: Option<Vec<u8>>)
        ensures
            match r {
                Some(v) => self.lookup(key@) == Some(v@),
                None => self.lookup(key@) is None,
            },
    {
        match self.find(key) {
            Some(i) => {
                proof {
                    lemma_lookup_first(self.entries@, key@, i as int);
                }
                Some(slice_to_vec(self.entries[i].1.as_slice()))
            },
            None => {
                proof {
                    lemma_lookup_absent(self.entries@, key@);
                }
                None
            },
        }
    }

    /// Stores `module` under `key`, replacing what was stored there.
    pub fn insert(&mut self, key: &str, module: &[u8])
        ensures
            final(self).lookup(key@) == Some(module@),
            forall|k: Seq<char>| k != key@ ==> final(self).lookup(k) == old(self).lookup(k),
    {
        let e = (key.to_owned(), slice_to_vec(module));
        match self.find(key) {
            Some(i) => {
                let ghost before = self.entries@;
                self.entries.set(i, e);
                proof {
                    lemma_lookup_first(self.entries@, key@, i as int);
                    assert forall|k: Seq<char>| k != key@ implies table_lookup(self.entries@, k)
                        == table_lookup(before, k) by {
                        lemma_lookup_update_other(before, i as int, e, k);
                    }
                }
            },
            None => {
                let ghost before = self.entries@;
                proof {
                    lemma_lookup_absent(before, key@);
                }
                self.entries.push(e);
                proof {
                    lemma_lookup_push(before, e, key@);
                    assert forall|k: Seq<char>| k != key@ implies table_lookup(self.entries@, k)
                        == table_lookup(before, k) by {
                        lemma_lookup_push(before, e, k);
                    }
                }
            },
        }
    }
}

/// The key a compiled module is cached under: the hash of the binary, a dash, and the
/// name of the compiler.
pub open spec fn compiled_key(data_hash: Seq<char>, compiler: Seq<char>) -> Seq<char> {
    data_hash + seq!['-'] + compiler
}

/// The key a compiled module is cached under.
pub fn compiled_module_key(data_hash: &str, compiler: &str) -> (r: String)
    ensures
        r@ == compiled_key(data_hash@, compiler@),
{
    let mut key = String::from_str(data_hash);
    push_char(&mut key, '-');
    key.append(compiler);
    key
}

/// The name of the file, inside the cache directory, that holds the module cached under `key`.
pub fn compiled_module_file_name(key: &str) -> (r: String)
    ensures
        r@ == key@ + ".bin"@,
{
    let mut name = String::from_str(key);
    name.append(".bin");
    name
}

/// The bytes of an optional buffer.
pub open spec fn opt_bytes(r: Option<Vec<u8>>) -> Option<Seq<u8>> {
    match r {
        Some(v) => Some(v@),
        None => None,
    }
}

/// Compiled modules, by binary hash and compiler: a fast table for the calling thread, a
/// table shared by all threads, and a directory on disk holding them compressed.
#[derive(Debug)]
pub struct CachedCompiledModules {
    local: ModuleTable,
    modules: ModuleTable,
    cache_compile_dir: String,
}

impl CachedCompiledModules {
    /// The module found in memory under `key`: the thread's table is asked first.
    pub closed spec fn cached(&self, key: Seq<char>) -> Option<Seq<u8>> {
        match self.local.lookup(key) {
            Some(m) => Some(m),
            None => self.modules.lookup(key),
        }
    }

    /// The directory on disk that holds the compressed modules.
    pub closed spec fn spec_cache_dir(&self) -> Seq<char> {
        self.cache_compile_dir@
    }

    /// What a lookup in memory gives and leaves: the module held under the key, and the
    /// cache as it was.
    pub open spec fn get_post(
        self,
        after: Self,
        data_hash: Seq<char>,
        compiler: Seq<char>,
        r: Option<Seq<u8>>,
    ) -> bool {
        &&& r == self.cached(compiled_key(data_hash, compiler))
        &&& forall|k: Seq<char>| after.cached(k) == self.cached(k)
        &&& after.spec_cache_dir() == self.spec_cache_dir()
    }

    /// What loading a cache file gives and leaves: the module the file decompresses to, now
    /// held under the key; a file that does not decompress changes nothing.
    pub open spec fn load_post(
        self,
        after: Self,
        data_hash: Seq<char>,
        compiler: Seq<char>,
        file: Seq<u8>,
        r: Option<Seq<u8>>,
    ) -> bool {
        &&& r == lzw_decoded(file)
        &&& match lzw_decoded(file) {
            Some(m) => after.cached(compiled_key(data_hash, compiler)) == Some(m),
            None => forall|k: Seq<char>| after.cached(k) == self.cached(k),
        }
        &&& forall|k: Seq<char>|
            k != compiled_key(data_hash, compiler) ==> after.cached(k) == self.cached(k)
        &&& after.spec_cache_dir() == self.spec_cache_dir()
    }

    /// What storing a module gives and leaves: the compressed file for it, which decompresses
    /// back to it, and the module held under its key, nothing else changed.
    pub open spec fn set_post(
        self,
        after: Self,
        data_hash: Seq<char>,
        compiler: Seq<char>,
        module: Seq<u8>,
        file: Seq<u8>,
    ) -> bool {
        &&& file == lzw_encoded(module)
        &&& lzw_decoded(file) == Some(module)
        &&& after.cached(compiled_key(data_hash, compiler)) == Some(module)
        &&& forall|k: Seq<char>|
            k != compiled_key(data_hash, compiler) ==> after.cached(k) == self.cached(k)
        &&& after.spec_cache_dir() == self.spec_cache_dir()
    }

    /// A cache with nothing in memory, kept on disk in `cache_compile_dir` (with a leading
    /// `~` expanded), or in the default directory when none is given.
    pub fn new(cache_compile_dir: Option<String>) -> (r: Self)
        ensures
            forall|k: Seq<char>| r.cached(k) is None,
            match cache_compile_dir {
                Some(d) => {
                    &&& d@.len() == 0 || d@[0] != '~' ==> r.spec_cache_dir() == d@
                    &&& r.spec_cache_dir() == d@ || exists|home: Seq<char>|
                        r.spec_cache_dir() == home + d@.drop_first()
                },
                None => r.spec_cache_dir() == DEFAULT_COMPILED_PATH@ || exists|home: Seq<char>|
                    r.spec_cache_dir() == home + DEFAULT_COMPILED_PATH@.drop_first(),
            },
    {
        let dir = match &cache_compile_dir {
            Some(d) => expand_tilde(d.as_str()),
            None => expand_tilde(DEFAULT_COMPILED_PATH),
        };
        CachedCompiledModules { local: ModuleTable::new(), modules: ModuleTable::new(), cache_compile_dir: dir }
    }

    /// The directory on disk that holds the compressed modules.
    pub fn cache_compile_dir(&self) -> (r: &str)
        ensures
            r@ == self.spec_cache_dir(),
    {
        self.cache_compile_dir.as_str()
    }

    /// The module compiled by `compiler` from the binary with hash `data_hash`, when it is held
    /// in memory. A module found only in the shared table is copied into the thread's table.
    /// When this gives `None` the caller reads the cache file and hands it to
    /// [`CachedCompiledModules::load_compiled_module`].
    pub fn get_compiled_module(&mut self, data_hash: &str, compiler: &str) -> (r: Option<Vec<u8>>)
        ensures
            old(self).get_post(*final(self), data_hash@, compiler@, opt_bytes(r)),
    {
        let key = compiled_module_key(data_hash, compiler);
        if let Some(module) = self.local.get(key.as_str()) {
            return Some(module);
        }
        if let Some(module) = self.modules.get(key.as_str()) {
            self.local.insert(key.as_str(), module.as_slice());
            return Some(module);
        }
        None
    }

    /// Takes in the contents of the cache file of a module: when they decompress, the module
    /// is kept in both tables and given back.
    pub fn load_compiled_module(&mut self, data_hash: &str, compiler: &str, file: &[u8]) -> (r:
        Option<Vec<u8>>)
        ensures
            old(self).load_post(*final(self), data_hash@, compiler@, file@, opt_bytes(r)),
    {
        let key = compiled_module_key(data_hash, compiler);
        match lzw_decode(file) {
            Some(module) => {
                self.modules.insert(key.as_str(), module.as_slice());
                self.local.insert(key.as_str(), module.as_slice());
                Some(module)
            },
            None => None,
        }
    }

    /// Keeps `module` in both tables under its key, and gives back the compressed bytes to be
    /// written to its cache file.
    pub fn set_compiled_module(&mut self, data_hash: &str, compiler: &str, module: &[u8]) -> (r:
        Vec<u8>)
        ensures
            old(self).set_post(*final(self), data_hash@, compiler@, module@, r@),
    {
        let key = compiled_module_key(data_hash, compiler);
        self.local.insert(key.as_str(), module);
        self.modules.insert(key.as_str(), module);
        lzw_encode(module)
    }
}

impl Default for CachedCompiledModules {
    /// A cache in the default directory.
    fn default() -> (r: Self)
        ensures
            forall|k: Seq<char>| r.cached(k) is None,
    {
        CachedCompiledModules::new(None)
    }
}

/// A module stored in the cache is what a later lookup under the same binary hash and
/// compiler gives back.
pub proof fn lemma_get_after_set(
    c0: CachedCompiledModules,
    c1: CachedCompiledModules,
    c2: CachedCompiledModules,
    data_hash: Seq<char>,
    compiler: Seq<char>,
    module: Seq<u8>,
    file: Seq<u8>,
    r: Option<Seq<u8>>,
)
    requires
        c0.set_post(c1, data_hash, compiler, module, file),
        c1.get_post(c2, data_hash, compiler, r),
    ensures
        r == Some(module),
{
}

/// The cache file written for a module gives the module back: loading it, into any cache,
/// under the same binary hash and compiler, yields the module and holds it from then on.
pub proof fn lemma_load_after_set(
    c0: CachedCompiledModules,
    c1: CachedCompiledModules,
    d0: CachedCompiledModules,
    d1: CachedCompiledModules,
    data_hash: Seq<char>,
    compiler: Seq<char>,
    module: Seq<u8>,
    file: Seq<u8>,
    r: Option<Seq<u8>>,
)
    requires
        c0.set_post(c1, data_hash, compiler, module, file),
        d0.load_post(d1, data_hash, compiler, file, r),
    ensures
        r == Some(module),
        d1.cached(compiled_key(data_hash, compiler)) == Some(module),
{
}

/// Where downloaded packages are cached on disk unless told otherwise.
pub const DEFAULT_WEBC_PATH: &'static str = "~/.wasmer/webc";

/// What looking up a binary by name calls for.
#[derive(Debug)]
pub enum BinaryLookup {
    /// The answer: the binary, or `None` when there is none by that name.
    Found(Option<Vec<u8>>),
    /// The name is an absolute path that has not been looked up yet: the file is to be read
    /// and handed to [`BinFactory::file_read`].
    ReadFile,
}

/// The answer a lookup gives: `Some` of the binary or of `None`, or `None` when a file is to
/// be read.
pub open spec fn lookup_view(r: BinaryLookup) -> Option<Option<Seq<u8>>> {
    match r {
        BinaryLookup::Found(a) => Some(opt_bytes(a)),
        BinaryLookup::ReadFile => None,
    }
}

/// Binaries looked up by name, each lookup remembered, found or not.
#[derive(Debug)]
pub struct BinFactory {
    found: ModuleTable,
    missing: Vec<String>,
    cache_webc_dir: String,
}

impl BinFactory {
    /// What is remembered of the name `name`: the binary, or `None` when it was not found;
    /// nothing when it was never looked up.
    pub closed spec fn cached(&self, name: Seq<char>) -> Option<Option<Seq<u8>>> {
        match self.found.lookup(name) {
            Some(d) => Some(Some(d)),
            None => if self.missing@.map_values(|s: String| s@).contains(name) {
                Some(None)
            } else {
                None
            },
        }
    }

    /// The directory where downloaded packages are cached.
    pub closed spec fn spec_cache_webc_dir(&self) -> Seq<char> {
        self.cache_webc_dir@
    }

    /// Whether `after` is `self` with `name` remembered as `answer`, nothing else changed.
    pub open spec fn remembers(self, after: Self, name: Seq<char>, answer: Option<Seq<u8>>) -> bool {
        &&& after.cached(name) == Some(answer)
        &&& forall|k: Seq<char>| k != name ==> after.cached(k) == self.cached(k)
        &&& after.spec_cache_webc_dir() == self.spec_cache_webc_dir()
    }

    /// What looking up `name` gives (`Some` of the answer, or `None` when the file is to be
    /// read) and leaves: a remembered answer, nothing changed; for an absolute path never
    /// looked up, a call to read it, nothing changed; for any other name never looked up, no
    /// binary, remembered.
    pub open spec fn lookup_post(
        self,
        after: Self,
        name: Seq<char>,
        r: Option<Option<Seq<u8>>>,
    ) -> bool {
        match self.cached(name) {
            Some(x) => r == Some(x) && after == self,
            None => if has_prefix(name, "/"@) {
                r is None && after == self
            } else {
                r == Some(None::<Seq<u8>>) && self.remembers(after, name, None)
            },
        }
    }

    /// What handing over the contents `data` of the file `name` gives and leaves: a
    /// remembered answer stays and is given; otherwise the contents are remembered and given.
    pub open spec fn file_read_post(
        self,
        after: Self,
        name: Seq<char>,
        data: Option<Seq<u8>>,
        r: Option<Seq<u8>>,
    ) -> bool {
        match self.cached(name) {
            Some(x) => r == x && after == self,
            None => r == data && self.remembers(after, name, data),
        }
    }

    /// A factory that remembers nothing yet, caching packages in `cache_webc_dir` (with a
    /// leading `~` expanded), or in the default directory when none is given.
    pub fn new(cache_webc_dir: Option<String>) -> (r: Self)
        ensures
            forall|k: Seq<char>| r.cached(k) is None,
            match cache_webc_dir {
                Some(d) => {
                    &&& d@.len() == 0 || d@[0] != '~' ==> r.spec_cache_webc_dir() == d@
                    &&& r.spec_cache_webc_dir() == d@ || exists|home: Seq<char>|
                        r.spec_cache_webc_dir() == home + d@.drop_first()
                },
                None => r.spec_cache_webc_dir() == DEFAULT_WEBC_PATH@ || exists|home: Seq<char>|
                    r.spec_cache_webc_dir() == home + DEFAULT_WEBC_PATH@.drop_first(),
            },
    {
        let dir = match &cache_webc_dir {
            Some(d) => expand_tilde(d.as_str()),
            None => expand_tilde(DEFAULT_WEBC_PATH),
        };
        let r = BinFactory { found: ModuleTable::new(), missing: Vec::new(), cache_webc_dir: dir };
        assert(r.missing@.map_values(|s: String| s@) =~= Seq::<Seq<char>>::empty());
        r
    }

    /// The directory where downloaded packages are cached.
    pub fn cache_webc_dir(&self) -> (r: String)
        ensures
            r@ == self.spec_cache_webc_dir(),
    {
        self.cache_webc_dir.clone()
    }

    /// Forgets every lookup.
    pub fn clear(&mut self)
        ensures
            forall|k: Seq<char>| final(self).cached(k) is None,
            final(self).spec_cache_webc_dir() == old(self).spec_cache_webc_dir(),
    {
        self.found = ModuleTable::new();
        self.missing = Vec::new();
        assert(self.missing@.map_values(|s: String| s@) =~= Seq::<Seq<char>>::empty());
    }

    fn find_missing(&self, name: &str) -> (r: bool)
        ensures
            r == self.missing@.map_values(|s: String| s@).contains(name@),
    {
        let ghost names = self.missing@.map_values(|s: String| s@);
        let mut i: usize = 0;
        while i < self.missing.len()
            invariant
                i <= self.missing@.len(),
                names == self.missing@.map_values(|s: String| s@),
                forall|j: int| 0 <= j < i ==> names[j] != name@,
            decreases self.missing.len() - i,
        {
            if str_eq(self.missing[i].as_str(), name) {
                assert(names[i as int] == name@);
                return true;
            }
            i = i + 1;
        }
        false
    }

    fn remembered(&self, name: &str) -> (r: Option<Option<Vec<u8>>>)
        ensures
            match r {
                Some(Some(d)) => self.cached(name@) == Some(Some(d@)),
                Some(None) => self.cached(name@) == Some(None::<Seq<u8>>),
                None => self.cached(name@) is None,
            },
    {
        match self.found.get(name) {
            Some(d) => Some(Some(d)),
            None => if self.find_missing(name) {
                Some(None)
            } else {
                None
            },
        }
    }

    fn remember(&mut self, name: &str, data: &Option<Vec<u8>>)
        requires
            old(self).cached(name@) is None,
        ensures
            final(self).cached(name@) == (match data {
                Some(d) => Some(Some(d@)),
                None => Some(None::<Seq<u8>>),
            }),
            forall|k: Seq<char>| k != name@ ==> final(self).cached(k) == old(self).cached(k),
            final(self).spec_cache_webc_dir() == old(self).spec_cache_webc_dir(),
    {
        match data {
            Some(d) => {
                let ghost before = *self;
                self.found.insert(name, d.as_slice());
                assert(self.missing@ == before.missing@);
                assert forall|k: Seq<char>| k != name@ implies self.cached(k) == before.cached(k) by {
                    assert(self.found.lookup(k) == before.found.lookup(k));
                }
            },
            None => {
                let ghost before = self.missing@.map_values(|s: String| s@);
                self.missing.push(name.to_owned());
                assert(self.missing@.map_values(|s: String| s@) =~= before.push(name@));
                assert(self.missing@.map_values(|s: String| s@)[before.len() as int] == name@);
                assert forall|k: Seq<char>| k != name@ implies self.missing@.map_values(
                    |s: String| s@,
                ).contains(k) == before.contains(k) by {
                    if before.contains(k) {
                        let j = choose|j: int| 0 <= j < before.len() && before[j] == k;
                        assert(self.missing@.map_values(|s: String| s@)[j] == k);
                    }
                }
            },
        }
    }

    /// What getting the binary `name` gives and leaves: the answer is remembered from then
    /// on; a remembered answer is given back with nothing changed; a name never looked up that
    /// is not an absolute path has no binary.
    pub open spec fn get_post(self, after: Self, name: Seq<char>, r: Option<Seq<u8>>) -> bool {
        &&& after.cached(name) == Some(r)
        &&& (self.cached(name) matches Some(x) ==> r == x && after == self)
        &&& (self.cached(name) is None && !has_prefix(name, "/"@) ==> r is None)
        &&& forall|k: Seq<char>| k != name ==> after.cached(k) == self.cached(k)
        &&& after.spec_cache_webc_dir() == self.spec_cache_webc_dir()
    }

    /// The binary `name`: the remembered answer when it was looked up before; for an
    /// absolute path looked up for the first time, what `read_file` gives (the contents of
    /// the file, or `None`); for any other name, none. The answer is remembered.
    pub fn get<F: FnOnce() -> Option<Vec<u8>>>(&mut self, name: &str, read_file: F) -> (r: Option<
        Vec<u8>,
    >)
        requires
            read_file.requires(()),
        ensures
            old(self).get_post(*final(self), name@, opt_bytes(r)),
            old(self).cached(name@) is None && has_prefix(name@, "/"@) ==> read_file.ensures(
                (),
                r,
            ),
    {
        match self.lookup(name) {
            BinaryLookup::Found(x) => x,
            BinaryLookup::ReadFile => {
                let data = read_file();
                self.remember(name, &data);
                data
            },
        }
    }

    /// Looks up the binary `name`. A remembered answer is given back as it is. A name never
    /// looked up that is an absolute path calls for reading that file; any other such name is
    /// remembered as not found.
    pub fn lookup(&mut self, name: &str) -> (r: BinaryLookup)
        ensures
            old(self).lookup_post(*final(self), name@, lookup_view(r)),
    {
        match self.remembered(name) {
            Some(x) => BinaryLookup::Found(x),
            None => if starts_with(name, "/") {
                BinaryLookup::ReadFile
            } else {
                self.remember(name, &None);
                BinaryLookup::Found(None)
            },
        }
    }

    /// Completes the lookup of a file: `data` is its contents, or `None` when it could not be
    /// read. A name already remembered keeps its answer; otherwise the contents are
    /// remembered. The answer is given back.
    pub fn file_read(&mut self, name: &str, data: Option<Vec<u8>>) -> (r: Option<Vec<u8>>)
        ensures
            old(self).file_read_post(*final(self), name@, opt_bytes(data), opt_bytes(r)),
    {
        match self.remembered(name) {
            Some(x) => x,
            None => {
                self.remember(name, &data);
                data
            },
        }
    }
}

/// A binary is read from disk at most once: once the contents of a file have been handed
/// over, every later lookup of that name answers with them and changes nothing.
pub proof fn lemma_lookup_after_file_read(
    f0: BinFactory,
    f1: BinFactory,
    f2: BinFactory,
    name: Seq<char>,
    data: Option<Seq<u8>>,
    r: Option<Seq<u8>>,
    answer: Option<Option<Seq<u8>>>,
)
    requires
        f0.cached(name) is None,
        f0.file_read_post(f1, name, data, r),
        f1.lookup_post(f2, name, answer),
    ensures
        r == data,
        answer == Some(data),
        f2 == f1,
{
}

/// A name that is not an absolute path is answered without reading anything, and that
/// answer is given again by every later lookup.
pub proof fn lemma_lookup_remembers_missing(
    f0: BinFactory,
    f1: BinFactory,
    f2: BinFactory,
    name: Seq<char>,
    first: Option<Option<Seq<u8>>>,
    second: Option<Option<Seq<u8>>>,
)
    requires
        f0.cached(name) is None,
        !has_prefix(name, "/"@),
        f0.lookup_post(f1, name, first),
        f1.lookup_post(f2, name, second),
    ensures
        first == Some(None::<Seq<u8>>),
        second == first,
        f2 == f1,
{
}

/// Getting a binary twice gives the same answer the second time, without reading anything
/// and without changing what is remembered.
pub proof fn lemma_get_twice(
    f0: BinFactory,
    f1: BinFactory,
    f2: BinFactory,
    name: Seq<char>,
    first: Option<Seq<u8>>,
    second: Option<Seq<u8>>,
)
    requires
        f0.get_post(f1, name, first),
        f1.get_post(f2, name, second),
    ensures
        second == first,
        f2 == f1,
{
}

} // verus!
