//! Decisions of the companion launcher that discovers a WasmEdge
//! installation, installs it when missing, prepares environment variables,
//! and hands control to the main application binary.
//!
//! Everything here is computation on plain values.  Questions only the
//! machine can answer — does this path exist, what does this environment
//! variable hold, which CPU features are present — arrive as parameters;
//! an embedding program gathers the answers and performs the resulting
//! filesystem, environment and process work.  Paths are modelled as
//! `/`-separated strings, joined with a single separator.

use vstd::prelude::*;
use vstd::string::StrSliceExecFns;
use vstd::string::StringExecFns;

verus! {

/// The file name of the main application binary that the launcher starts.
pub const MOXIN_APP_BINARY: &'static str = "_moxin_app";

/// The name of the WasmEdge installation directory.
pub const WASMEDGE_ROOT_DIR_NAME: &'static str = ".wasmedge";

/// The subdirectory of the WasmEdge root directory that holds the main dylib.
pub const DYLIB_DIR_NAME: &'static str = "lib";

/// The file name of the main WasmEdge dylib.
pub const WASMEDGE_MAIN_DYLIB: &'static str = "libwasmedge.so.0";

/// The file name of the WASI-NN plugin dylib.
pub const WASMEDGE_WASI_NN_PLUGIN_DYLIB: &'static str = "libwasmedgePluginWasiNN.so";

pub const ENV_WASMEDGE_DIR: &'static str = "WASMEDGE_DIR";

pub const ENV_WASMEDGE_PLUGIN_PATH: &'static str = "WASMEDGE_PLUGIN_PATH";

pub const ENV_PATH: &'static str = "PATH";

pub const ENV_C_INCLUDE_PATH: &'static str = "C_INCLUDE_PATH";

pub const ENV_CPLUS_INCLUDE_PATH: &'static str = "CPLUS_INCLUDE_PATH";

pub const ENV_LIBRARY_PATH: &'static str = "LIBRARY_PATH";

pub const ENV_LD_LIBRARY_PATH: &'static str = "LD_LIBRARY_PATH";

/// An extension trait for filtering a path by whether it exists.
pub trait PathExt: Sized {
    /// The characters of the path.
    spec fn path_chars(&self) -> Seq<char>;

    /// Keeps the path when it is non-empty and `exists` affirms that it names
    /// an existing file or directory; drops it otherwise.  The answer to the
    /// existence question is passed in by whoever can ask the filesystem.
    fn path_if_exists(self, exists: bool) -> (r: Option<Self>)
        ensures
            r == (if self.path_chars().len() > 0 && exists {
                Some(self)
            } else {
                None::<Self>
            }),
    ;
}

impl PathExt for String {
    open spec fn path_chars(&self) -> Seq<char> {
        self@
    }

    fn path_if_exists(self, exists: bool) -> (r: Option<String>) {
        if self.as_str().is_empty() {
            return None;
        }
        if exists {
            Some(self)
        } else {
            None
        }
    }
}

/// Joins two path components with a single `/` separator.
pub fn join_path(base: &str, name: &str) -> (r: String)
    ensures
        r@ == base@ + "/"@ + name@,
{
    let mut s = base.to_owned();
    s.append("/");
    s.append(name);
    s
}

/// The subdirectory within the WasmEdge root directory where the plugin
/// dylibs are located.
pub fn plugin_dir_path_from_root() -> (r: String)
    ensures
        r@ == "plugin"@,
{
    "plugin".to_owned()
}

/// The URL of the WASI-NN plugin build that matches the CPU — the AVX-512
/// build when that feature is present, otherwise the no-AVX build — together
/// with the directory name inside the downloaded archive.
pub fn wasmedge_wasi_nn_plugin_url(has_avx512f: bool) -> (r: (&'static str, &'static str))
    ensures
        has_avx512f ==> {
            &&& r.0@
                == "https://github.com/second-state/WASI-NN-GGML-PLUGIN-REGISTRY/releases/download/b3499/WasmEdge-plugin-wasi_nn-ggml-0.14.0-windows_x86_64.zip"@
            &&& r.1@ == "WasmEdge-plugin-wasi_nn-ggml-0.14.0-windows_x86_64"@
        },
        !has_avx512f ==> {
            &&& r.0@
                == "https://github.com/second-state/WASI-NN-GGML-PLUGIN-REGISTRY/releases/download/b3499/WasmEdge-plugin-wasi_nn-ggml-noavx-0.14.0-windows_x86_64.zip"@
            &&& r.1@ == "WasmEdge-plugin-wasi_nn-ggml-noavx-0.14.0-windows_x86_64"@
        },
{
    if has_avx512f {
        (
            "https://github.com/second-state/WASI-NN-GGML-PLUGIN-REGISTRY/releases/download/b3499/WasmEdge-plugin-wasi_nn-ggml-0.14.0-windows_x86_64.zip",
            "WasmEdge-plugin-wasi_nn-ggml-0.14.0-windows_x86_64",
        )
    } else {
        (
            "https://github.com/second-state/WASI-NN-GGML-PLUGIN-REGISTRY/releases/download/b3499/WasmEdge-plugin-wasi_nn-ggml-noavx-0.14.0-windows_x86_64.zip",
            "WasmEdge-plugin-wasi_nn-ggml-noavx-0.14.0-windows_x86_64",
        )
    }
}

/// The path where WasmEdge is installed by default: the `.wasmedge` directory
/// under the home directory.  `home_dir` is the home directory as the
/// embedding program discovered it; the result does not depend on whether the
/// directory actually exists.
pub fn wasmedge_default_dir_path(home_dir: Option<String>) -> (r: Option<String>)
    ensures
        home_dir matches Some(h) ==> (r matches Some(p) && p@ == h@ + "/"@ + ".wasmedge"@),
        home_dir is None ==> r is None,
{
    match home_dir {
        Some(h) => Some(join_path(h.as_str(), ".wasmedge")),
        None => None,
    }
}

/// The default WasmEdge installation directory, kept only when it exists.
/// `exists` answers whether the default directory is present on disk.
pub fn existing_wasmedge_default_dir(home_dir: Option<String>, exists: bool) -> (r: Option<String>)
    ensures
        home_dir matches Some(h) ==> (exists ==> (r matches Some(p) && p@ == h@ + "/"@
            + ".wasmedge"@)),
        !(home_dir is Some && exists) ==> r is None,
{
    match wasmedge_default_dir_path(home_dir) {
        Some(p) => {
            proof {
                reveal_strlit("/");
                reveal_strlit(".wasmedge");
            }
            p.path_if_exists(exists)
        },
        None => None,
    }
}

/// Looks for the WasmEdge dylib and the WASI-NN plugin dylib under the given
/// root directory.  The two flags answer whether the main dylib and the
/// plugin dylib are present at their expected locations.
///
/// When both are found, returns the root directory, the main dylib path and
/// the plugin dylib path.
pub fn find_wasmedge_dylibs_in_dir(
    wasmedge_root_dir: &str,
    main_dylib_exists: bool,
    wasi_nn_plugin_exists: bool,
) -> (r: Option<(String, String, String)>)
    ensures
        (main_dylib_exists && wasi_nn_plugin_exists) ==> (r matches Some(p) && {
            &&& p.0@ == wasmedge_root_dir@
            &&& p.1@ == wasmedge_root_dir@ + "/"@ + "lib"@ + "/"@ + "libwasmedge.so.0"@
            &&& p.2@ == wasmedge_root_dir@ + "/"@ + "plugin"@ + "/"@ + "libwasmedgePluginWasiNN.so"@
        }),
        !(main_dylib_exists && wasi_nn_plugin_exists) ==> r is None,
{
    if !(main_dylib_exists && wasi_nn_plugin_exists) {
        return None;
    }
    let main_dylib_path = join_path(join_path(wasmedge_root_dir, DYLIB_DIR_NAME).as_str(), WASMEDGE_MAIN_DYLIB);
    let plugin_dir = plugin_dir_path_from_root();
    let wasi_nn_plugin_path = join_path(
        join_path(wasmedge_root_dir, plugin_dir.as_str()).as_str(),
        WASMEDGE_WASI_NN_PLUGIN_DYLIB,
    );
    Some((wasmedge_root_dir.to_owned(), main_dylib_path, wasi_nn_plugin_path))
}

/// The index of the last `/` in the path, or `-1` when there is none.
pub open spec fn last_slash(s: Seq<char>) -> int
    decreases s.len(),
{
    if s.len() == 0 {
        -1
    } else if s[s.len() - 1] == '/' {
        s.len() - 1
    } else {
        last_slash(s.drop_last())
    }
}

/// The parent directory of a path: everything before the last `/`.  A path
/// without a separator has no parent.
pub open spec fn parent_path(s: Seq<char>) -> Option<Seq<char>> {
    if last_slash(s) >= 0 {
        Some(s.subrange(0, last_slash(s)))
    } else {
        None
    }
}

/// The characters of an optional path.
pub open spec fn opt_chars(o: Option<String>) -> Option<Seq<char>> {
    match o {
        Some(s) => Some(s@),
        None => None,
    }
}

proof fn lemma_last_slash_none(s: Seq<char>)
    requires
        forall|j: int| 0 <= j < s.len() ==> s[j] != '/',
    ensures
        last_slash(s) == -1,
    decreases s.len(),
{
    if s.len() > 0 {
        lemma_last_slash_none(s.drop_last());
    }
}

proof fn lemma_last_slash_at(s: Seq<char>, k: int)
    requires
        0 <= k < s.len(),
        s[k] == '/',
        forall|j: int| k < j < s.len() ==> s[j] != '/',
    ensures
        last_slash(s) == k,
    decreases s.len(),
{
    if k < s.len() - 1 {
        lemma_last_slash_at(s.drop_last(), k);
    }
}

/// The parent directory of the path, as [`parent_path`] defines it.
pub fn parent_dir(path: &str) -> (r: Option<String>)
    ensures
        opt_chars(r) == parent_path(path@),
{
    let n = path.unicode_len();
    let mut i = n;
    while i > 0 && path.get_char(i - 1) != '/'
        invariant
            i <= n,
            n == path@.len(),
            forall|j: int| i <= j < n ==> path@[j] != '/',
        decreases i,
    {
        i = i - 1;
    }
    if i == 0 {
        proof {
            lemma_last_slash_none(path@);
        }
        None
    } else {
        proof {
            lemma_last_slash_at(path@, i - 1);
        }
        Some(path.substring_char(0, i - 1).to_owned())
    }
}

/// The first set value among the library- and include-path environment
/// variables, in the order they are consulted.
pub open spec fn env_lib_path(
    ld_library_path: Option<Seq<char>>,
    library_path: Option<Seq<char>>,
    c_include_path: Option<Seq<char>>,
    cplus_include_path: Option<Seq<char>>,
) -> Option<Seq<char>> {
    if ld_library_path is Some {
        ld_library_path
    } else if library_path is Some {
        library_path
    } else if c_include_path is Some {
        c_include_path
    } else {
        cplus_include_path
    }
}

/// The WasmEdge root directory that the library- and include-path environment
/// variables point at: each of them names a child directory (`lib/` or
/// `include/`) of the root, so the candidate is the parent of the first one
/// set.
pub open spec fn env_root_candidate(
    ld_library_path: Option<Seq<char>>,
    library_path: Option<Seq<char>>,
    c_include_path: Option<Seq<char>>,
    cplus_include_path: Option<Seq<char>>,
) -> Option<Seq<char>> {
    match env_lib_path(ld_library_path, library_path, c_include_path, cplus_include_path) {
        Some(p) => parent_path(p),
        None => None,
    }
}

/// Computes [`env_root_candidate`] on the given environment variable values.
/// The embedding program asks the filesystem about the result before handing
/// it to [`wasmedge_root_dir_from_env_vars`].
pub fn env_root_dir_candidate(
    ld_library_path: Option<String>,
    library_path: Option<String>,
    c_include_path: Option<String>,
    cplus_include_path: Option<String>,
) -> (r: Option<String>)
    ensures
        opt_chars(r) == env_root_candidate(
            opt_chars(ld_library_path),
            opt_chars(library_path),
            opt_chars(c_include_path),
            opt_chars(cplus_include_path),
        ),
{
    let chosen = if ld_library_path.is_some() {
        ld_library_path
    } else if library_path.is_some() {
        library_path
    } else if c_include_path.is_some() {
        c_include_path
    } else {
        cplus_include_path
    };
    match chosen {
        Some(p) => parent_dir(p.as_str()),
        None => None,
    }
}

/// Discovers the WasmEdge installation directory from environment variables:
/// a set and existing `WASMEDGE_DIR` wins; otherwise the parent directory of
/// the first set library- or include-path variable is used when it exists.
///
/// `wasmedge_dir_exists` answers whether the `WASMEDGE_DIR` value names an
/// existing directory; `lib_parent_exists` answers the same for the candidate
/// that [`env_root_dir_candidate`] computes from the other four values.
pub fn wasmedge_root_dir_from_env_vars(
    wasmedge_dir: Option<String>,
    wasmedge_dir_exists: bool,
    ld_library_path: Option<String>,
    library_path: Option<String>,
    c_include_path: Option<String>,
    cplus_include_path: Option<String>,
    lib_parent_exists: bool,
) -> (r: Option<String>)
    ensures
        wasmedge_dir matches Some(d) ==> (d@.len() > 0 && wasmedge_dir_exists ==> (r matches Some(
            p,
        ) && p@ == d@)),
        !(wasmedge_dir matches Some(d) && d@.len() > 0 && wasmedge_dir_exists) ==> ({
            let cand = env_root_candidate(
                opt_chars(ld_library_path),
                opt_chars(library_path),
                opt_chars(c_include_path),
                opt_chars(cplus_include_path),
            );
            match cand {
                Some(c) => {
                    if c.len() > 0 && lib_parent_exists {
                        opt_chars(r) == Some(c)
                    } else {
                        r is None
                    }
                },
                None => r is None,
            }
        }),
{
    if let Some(d) = wasmedge_dir {
        if let Some(p) = d.path_if_exists(wasmedge_dir_exists) {
            return Some(p);
        }
    }
    match env_root_dir_candidate(ld_library_path, library_path, c_include_path, cplus_include_path) {
        Some(c) => c.path_if_exists(lib_parent_exists),
        None => None,
    }
}

/// Whether the CPU can run the available WasmEdge builds: AVX-512 alone
/// suffices, otherwise SSE4.2 or SSE4a is required.
pub fn cpu_is_supported(avx512f: bool, sse42: bool, sse4a: bool) -> (r: bool)
    ensures
        r == (avx512f || sse42 || sse4a),
{
    avx512f || sse42 || sse4a
}

/// Whether the launcher was asked only to install WasmEdge and exit: true
/// exactly when some argument is `--install`.
pub fn is_install_only(args: &Vec<String>) -> (r: bool)
    ensures
        r == exists|j: int| 0 <= j < args@.len() && args@[j]@ == "--install"@,
{
    let needle: String = "--install".to_owned();
    let mut i: usize = 0;
    while i < args.len()
        invariant
            i <= args@.len(),
            needle@ == "--install"@,
            forall|j: int| 0 <= j < i ==> args@[j]@ != "--install"@,
        decreases args@.len() - i,
    {
        if args[i] == needle {
            return true;
        }
        i = i + 1;
    }
    false
}

/// The value an environment variable takes when `prefix` is prepended to it:
/// the prefix alone when the variable was unset, otherwise the prefix, a `:`
/// separator, and the previous value.
pub fn prepend_env_value(prefix: &str, existing: Option<&str>) -> (r: String)
    ensures
        existing matches Some(e) ==> r@ == prefix@ + ":"@ + e@,
        existing is None ==> r@ == prefix@,
{
    match existing {
        Some(e) => {
            let mut s = prefix.to_owned();
            s.append(":");
            s.append(e);
            s
        },
        None => prefix.to_owned(),
    }
}

/// The environment variable changes that make a WasmEdge installation under
/// `wasmedge_root_dir` visible: each pair is a variable name and the
/// directory to prepend to it.
pub fn env_vars_to_apply(wasmedge_root_dir: &str) -> (r: Vec<(String, String)>)
    ensures
        r@.len() == 5,
        r@[0].0@ == "PATH"@ && r@[0].1@ == wasmedge_root_dir@ + "/"@ + "bin"@,
        r@[1].0@ == "C_INCLUDE_PATH"@ && r@[1].1@ == wasmedge_root_dir@ + "/"@ + "include"@,
        r@[2].0@ == "CPLUS_INCLUDE_PATH"@ && r@[2].1@ == wasmedge_root_dir@ + "/"@ + "include"@,
        r@[3].0@ == "LIBRARY_PATH"@ && r@[3].1@ == wasmedge_root_dir@ + "/"@ + "lib"@,
        r@[4].0@ == "LD_LIBRARY_PATH"@ && r@[4].1@ == wasmedge_root_dir@ + "/"@ + "lib"@,
{
    let mut r: Vec<(String, String)> = Vec::new();
    r.push((ENV_PATH.to_owned(), join_path(wasmedge_root_dir, "bin")));
    r.push((ENV_C_INCLUDE_PATH.to_owned(), join_path(wasmedge_root_dir, "include")));
    r.push((ENV_CPLUS_INCLUDE_PATH.to_owned(), join_path(wasmedge_root_dir, "include")));
    r.push((ENV_LIBRARY_PATH.to_owned(), join_path(wasmedge_root_dir, "lib")));
    r.push((ENV_LD_LIBRARY_PATH.to_owned(), join_path(wasmedge_root_dir, "lib")));
    r
}

/// The arguments handed to the shell that runs the WasmEdge install script:
/// read the script from standard input, install the pinned version under
/// `install_path` with downloads in `temp_dir`, and take the no-AVX plugin
/// build when the CPU lacks AVX-512.
pub fn install_script_args(install_path: &str, temp_dir: &str, has_avx512f: bool) -> (r: Vec<
    String,
>)
    ensures
        r@.len() == (if has_avx512f {
            5int
        } else {
            6int
        }),
        r@[0]@ == "-s"@,
        r@[1]@ == "--"@,
        r@[2]@ == "--version=0.14.0"@,
        r@[3]@ == "--path="@ + install_path@,
        r@[4]@ == "--tmpdir="@ + temp_dir@,
        !has_avx512f ==> r@[5]@ == "--noavx"@,
{
    let mut r: Vec<String> = Vec::new();
    r.push("-s".to_owned());
    r.push("--".to_owned());
    r.push("--version=0.14.0".to_owned());
    let mut path_arg = "--path=".to_owned();
    path_arg.append(install_path);
    r.push(path_arg);
    let mut tmp_arg = "--tmpdir=".to_owned();
    tmp_arg.append(temp_dir);
    r.push(tmp_arg);
    if !has_avx512f {
        r.push("--noavx".to_owned());
    }
    r
}

} // verus!
