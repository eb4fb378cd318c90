//! Reading the PyO3 interpreter configuration file and deriving from it the
//! two artifacts that the embedded build hands on: the escaped configuration
//! (`dep_cfg`) and the path of the Python interpreter.
use crate::hex::{escape, spec_escape};
use crate::strings::{owned, seq_join, views};
use pyo3_build_config::InterpreterConfig;
use vstd::prelude::*;
use vstd::utf8::encode_utf8;

verus! {

/// PyO3's interpreter configuration, as the parser produces it.
#[verifier::external_type_specification]
#[verifier::external_body]
pub struct ExInterpreterConfig(InterpreterConfig);

/// The PyO3 interpreter configuration as PyO3's parser gave it, together
/// with its fields held as plain values; a field that PyO3 writes through
/// `Display` is held as that text. Only the parser fills it, and nothing
/// changes it afterwards.
pub struct PyConfig {
    config: InterpreterConfig,
    implementation: String,
    version: String,
    shared: bool,
    abi3: bool,
    lib_name: Option<String>,
    lib_dir: Option<String>,
    executable: Option<String>,
    pointer_width: Option<String>,
    build_flags: Vec<String>,
    suppress_build_script_link_lines: bool,
    extra_build_script_lines: Vec<String>,
}

/// The character sequence of an optional string.
pub open spec fn opt_view(o: Option<String>) -> Option<Seq<char>> {
    match o {
        Some(s) => Some(s@),
        None => None,
    }
}

/// The mathematical content of a [`PyConfig`].
pub struct ConfigView {
    /// `CPython` or `PyPy`.
    pub implementation: Seq<char>,
    /// `major.minor`, e.g. `3.10`.
    pub version: Seq<char>,
    pub shared: bool,
    pub abi3: bool,
    pub lib_name: Option<Seq<char>>,
    pub lib_dir: Option<Seq<char>>,
    /// The path of the host Python interpreter.
    pub executable: Option<Seq<char>>,
    /// The pointer width, in decimal.
    pub pointer_width: Option<Seq<char>>,
    /// The build flags, each once, in the order in which PyO3's set of flags
    /// was walked when the configuration was parsed.
    pub build_flags: Seq<Seq<char>>,
    pub suppress_build_script_link_lines: bool,
    pub extra_build_script_lines: Seq<Seq<char>>,
}

impl View for PyConfig {
    type V = ConfigView;

    closed spec fn view(&self) -> ConfigView {
        ConfigView {
            implementation: self.implementation@,
            version: self.version@,
            shared: self.shared,
            abi3: self.abi3,
            lib_name: opt_view(self.lib_name),
            lib_dir: opt_view(self.lib_dir),
            executable: opt_view(self.executable),
            pointer_width: opt_view(self.pointer_width),
            build_flags: views(self.build_flags@),
            suppress_build_script_link_lines: self.suppress_build_script_link_lines,
            extra_build_script_lines: views(self.extra_build_script_lines@),
        }
    }
}

fn opt_str(o: &Option<String>) -> (r: Option<&str>)
    ensures
        match r {
            Some(s) => opt_view(*o) == Some(s@),
            None => o is None,
        },
{
    match o {
        Some(s) => Some(s.as_str()),
        None => None,
    }
}

impl PyConfig {
    /// The Python implementation, `CPython` or `PyPy`.
    pub fn implementation(&self) -> (r: &str)
        ensures
            r@ == self@.implementation,
    {
        self.implementation.as_str()
    }

    /// The Python version, `major.minor`.
    pub fn version(&self) -> (r: &str)
        ensures
            r@ == self@.version,
    {
        self.version.as_str()
    }

    /// Whether the Python library is shared.
    pub fn shared(&self) -> (r: bool)
        ensures
            r == self@.shared,
    {
        self.shared
    }

    /// Whether the stable ABI is used.
    pub fn abi3(&self) -> (r: bool)
        ensures
            r == self@.abi3,
    {
        self.abi3
    }

    /// The name of the Python library to link.
    pub fn lib_name(&self) -> (r: Option<&str>)
        ensures
            r matches Some(s) ==> self@.lib_name == Some(s@),
            r is None <==> self@.lib_name is None,
    {
        opt_str(&self.lib_name)
    }

    /// The directory of the Python library.
    pub fn lib_dir(&self) -> (r: Option<&str>)
        ensures
            r matches Some(s) ==> self@.lib_dir == Some(s@),
            r is None <==> self@.lib_dir is None,
    {
        opt_str(&self.lib_dir)
    }

    /// The path of the host Python interpreter.
    pub fn executable(&self) -> (r: Option<&str>)
        ensures
            r matches Some(s) ==> self@.executable == Some(s@),
            r is None <==> self@.executable is None,
    {
        opt_str(&self.executable)
    }

    /// The pointer width, in decimal.
    pub fn pointer_width(&self) -> (r: Option<&str>)
        ensures
            r matches Some(s) ==> self@.pointer_width == Some(s@),
            r is None <==> self@.pointer_width is None,
    {
        opt_str(&self.pointer_width)
    }

    /// The build flags.
    pub fn build_flags(&self) -> (r: &Vec<String>)
        ensures
            views(r@) == self@.build_flags,
    {
        &self.build_flags
    }

    /// Whether PyO3's link lines are suppressed.
    pub fn suppress_build_script_link_lines(&self) -> (r: bool)
        ensures
            r == self@.suppress_build_script_link_lines,
    {
        self.suppress_build_script_link_lines
    }

    /// The extra build-script lines.
    pub fn extra_build_script_lines(&self) -> (r: &Vec<String>)
        ensures
            views(r@) == self@.extra_build_script_lines,
    {
        &self.extra_build_script_lines
    }
}

/// The configuration that a configuration text describes: every field as
/// the text gives it (or as PyO3 defaults it), the build flags as a set, and
/// `lib_name` only as the text gives it (when the text gives none, PyO3
/// derives one from the `TARGET` environment variable).
pub struct ConfigModel {
    pub implementation: Seq<char>,
    pub version: Seq<char>,
    pub shared: bool,
    pub abi3: bool,
    pub lib_name: Option<Seq<char>>,
    pub lib_dir: Option<Seq<char>>,
    pub executable: Option<Seq<char>>,
    pub pointer_width: Option<Seq<char>>,
    pub build_flags: Set<Seq<char>>,
    pub suppress_build_script_link_lines: bool,
    pub extra_build_script_lines: Seq<Seq<char>>,
}

/// What PyO3's parser makes of a configuration text.
pub enum ConfigParse {
    /// The text is rejected, with the `{:?}` rendering of PyO3's error.
    Rejected(Seq<char>),
    /// The text describes this configuration.
    Accepted(ConfigModel),
}

/// What `InterpreterConfig::from_reader` makes of a configuration text.
pub uninterp spec fn config_parse(text: Seq<u8>) -> ConfigParse;

/// A loaded configuration is the one that `model` describes.
pub open spec fn is_config_of(c: ConfigView, model: ConfigModel) -> bool {
    &&& c.implementation == model.implementation
    &&& c.version == model.version
    &&& c.shared == model.shared
    &&& c.abi3 == model.abi3
    &&& model.lib_name is Some ==> c.lib_name == model.lib_name
    &&& c.lib_dir == model.lib_dir
    &&& c.executable == model.executable
    &&& c.pointer_width == model.pointer_width
    &&& c.build_flags.no_duplicates()
    &&& c.build_flags.to_set() == model.build_flags
    &&& c.suppress_build_script_link_lines == model.suppress_build_script_link_lines
    &&& c.extra_build_script_lines == model.extra_build_script_lines
}

/// The bytes of `lib_name=`.
pub open spec fn lib_name_key() -> Seq<u8> {
    seq![108u8, 105, 98, 95, 110, 97, 109, 101, 61]
}

/// Some line of the text starts with `lib_name=`: the text gives the name of
/// the Python library itself.
pub open spec fn names_lib_name(text: Seq<u8>) -> bool {
    exists|i: int|
        0 <= i && i + 9 <= text.len() && (i == 0 || text[i - 1] == 10u8) && #[trigger] text.subrange(
            i,
            i + 9,
        ) == lib_name_key()
}

/// Whether some line of `text` starts with `lib_name=`.
pub fn text_names_lib_name(text: &[u8]) -> (r: bool)
    ensures
        r == names_lib_name(text@),
{
    let key: [u8; 9] = [108, 105, 98, 95, 110, 97, 109, 101, 61];
    assert(key@ =~= lib_name_key());
    let n = text.len();
    let mut i: usize = 0;
    while n >= 9 && i <= n - 9
        invariant
            n == text@.len(),
            i <= n,
            key@ == lib_name_key(),
            forall|k: int|
                0 <= k < i && k + 9 <= text@.len() && (k == 0 || text@[k - 1] == 10u8)
                    ==> #[trigger] text@.subrange(k, k + 9) != lib_name_key(),
        decreases n - i,
    {
        if i == 0 || text[i - 1] == 10 {
            let mut j: usize = 0;
            while j < 9 && text[i + j] == key[j]
                invariant
                    j <= 9,
                    i + 9 <= n == text@.len(),
                    key@ == lib_name_key(),
                    forall|m: int| 0 <= m < j ==> text@[i + m] == key@[m],
                decreases 9 - j,
            {
                j = j + 1;
            }
            if j == 9 {
                assert(text@.subrange(i as int, i + 9) =~= lib_name_key());
                return true;
            }
            assert(text@.subrange(i as int, i + 9)[j as int] != lib_name_key()[j as int]);
        }
        i = i + 1;
    }
    false
}

/// Calls `pyo3_build_config::InterpreterConfig::from_reader` on the text of a
/// configuration file and holds the result, with its fields as plain values
/// (`implementation`, `version`, `pointer_width` and each build flag as the
/// text their `Display` gives). Whether the parse succeeds, its error message
/// and the configuration it gives depend on the text alone (`config_parse`),
/// with two exceptions: when the text names no `lib_name`, PyO3 derives one
/// from the `TARGET` environment variable, and the build flags are a
/// `HashSet`, walked in an order that differs from process to process; of
/// these only the set of flags is stated.
///
/// Deriving that `lib_name` reads `CARGO_FEATURE_EXTENSION_MODULE` and panics
/// when it holds no valid UTF-8, for a `TARGET` that names a triple other
/// than Windows and Android. The caller states in `lib_name_default_panics`
/// whether the environment is so; the call is then admitted only for a text
/// that names its `lib_name` itself.
#[verifier::external_body]
fn parse_interpreter_config(text: &[u8], lib_name_default_panics: bool) -> (r: Result<
    PyConfig,
    String,
>)
    requires
        lib_name_default_panics ==> names_lib_name(text@),
    ensures
        r is Ok <==> config_parse(text@) is Accepted,
        r matches Err(e) ==> config_parse(text@) == ConfigParse::Rejected(e@),
        r matches Ok(c) ==> config_parse(text@) matches ConfigParse::Accepted(m) && is_config_of(
            c@,
            m,
        ),
{
    InterpreterConfig::from_reader(text).map(|c| PyConfig {
        implementation: c.implementation.to_string(),
        version: c.version.to_string(),
        shared: c.shared,
        abi3: c.abi3,
        lib_name: c.lib_name.clone(),
        lib_dir: c.lib_dir.clone(),
        executable: c.executable.clone(),
        pointer_width: c.pointer_width.map(|w| w.to_string()),
        build_flags: c.build_flags.0.iter().map(|f| f.to_string()).collect(),
        suppress_build_script_link_lines: c.suppress_build_script_link_lines,
        extra_build_script_lines: c.extra_build_script_lines.clone(),
        config: c,
    }).map_err(|e| format!("{:?}", e))
}

/// Why the PyO3 configuration could not be read.
pub enum ConfigError {
    /// No regular file at the configuration path ("PYO3_CONFIG_FILE not found").
    NotFound,
    /// PyO3 rejected the text of the file; the message it gave.
    Unparsable(String),
}

/// Loads the configuration from the contents of the configuration file:
/// `None` stands for "no regular file at that path". `lib_name_default_panics`
/// tells whether the environment makes PyO3 panic when it derives a library
/// name (see `parse_interpreter_config`); then the text must name its own.
pub fn config_file(contents: Option<&[u8]>, lib_name_default_panics: bool) -> (r: Result<
    PyConfig,
    ConfigError,
>)
    requires
        contents matches Some(text) ==> (lib_name_default_panics ==> names_lib_name(text@)),
    ensures
        contents is None ==> r matches Err(ConfigError::NotFound),
        contents matches Some(text) ==> {
            &&& r is Ok <==> config_parse(text@) is Accepted
            &&& r matches Err(e) ==> e matches ConfigError::Unparsable(m)
                && config_parse(text@) == ConfigParse::Rejected(m@)
            &&& r matches Ok(c) ==> config_parse(text@) matches ConfigParse::Accepted(m)
                && is_config_of(c@, m)
        },
{
    match contents {
        None => Err(ConfigError::NotFound),
        Some(text) => match parse_interpreter_config(text, lib_name_default_panics) {
            Ok(config) => Ok(config),
            Err(message) => Err(ConfigError::Unparsable(message)),
        },
    }
}

/// One configuration line: `key=value` and a line break.
pub open spec fn config_line(key: Seq<char>, value: Seq<char>) -> Seq<char> {
    key + "="@ + value + "\n"@
}

/// The line of an optional field: none when the field is absent.
pub open spec fn optional_line(key: Seq<char>, value: Option<Seq<char>>) -> Seq<char> {
    match value {
        Some(v) => config_line(key, v),
        None => Seq::empty(),
    }
}

/// `true` or `false`.
pub open spec fn bool_text(b: bool) -> Seq<char> {
    if b {
        "true"@
    } else {
        "false"@
    }
}

/// One `extra_build_script_line=<line>` line per extra line, in order.
pub open spec fn extra_lines(lines: Seq<Seq<char>>) -> Seq<char>
    decreases lines.len(),
{
    if lines.len() == 0 {
        Seq::empty()
    } else {
        extra_lines(lines.drop_last()) + config_line("extra_build_script_line"@, lines.last())
    }
}

/// The configuration as PyO3's `to_writer` writes it: one `key=value` line
/// per field in a fixed order, absent optional fields left out, the build
/// flags joined by commas, the extra build-script lines last.
pub open spec fn config_chars(c: ConfigView) -> Seq<char> {
    config_line("implementation"@, c.implementation) + config_line("version"@, c.version)
        + config_line("shared"@, bool_text(c.shared)) + config_line("abi3"@, bool_text(c.abi3))
        + optional_line("lib_name"@, c.lib_name) + optional_line("lib_dir"@, c.lib_dir)
        + optional_line("executable"@, c.executable) + optional_line(
        "pointer_width"@,
        c.pointer_width,
    ) + config_line("build_flags"@, seq_join(c.build_flags, ","@)) + config_line(
        "suppress_build_script_link_lines"@,
        bool_text(c.suppress_build_script_link_lines),
    ) + extra_lines(c.extra_build_script_lines)
}

/// `c` with its build flags listed as `flags`.
pub open spec fn with_flags(c: ConfigView, flags: Seq<Seq<char>>) -> ConfigView {
    ConfigView {
        implementation: c.implementation,
        version: c.version,
        shared: c.shared,
        abi3: c.abi3,
        lib_name: c.lib_name,
        lib_dir: c.lib_dir,
        executable: c.executable,
        pointer_width: c.pointer_width,
        build_flags: flags,
        suppress_build_script_link_lines: c.suppress_build_script_link_lines,
        extra_build_script_lines: c.extra_build_script_lines,
    }
}

/// `text` is the configuration `c` as PyO3 writes it (UTF-8), its build flags
/// in some order.
pub open spec fn is_config_text(c: ConfigView, text: Seq<u8>) -> bool {
    exists|flags: Seq<Seq<char>>|
        flags.no_duplicates() && flags.to_set() == c.build_flags.to_set() && text == encode_utf8(
            #[trigger] config_chars(with_flags(c, flags)),
        )
}

/// Calls `pyo3_build_config::InterpreterConfig::to_writer` on the parsed
/// configuration with a fresh buffer and returns what was written (or the
/// `{:?}` rendering of its error). `to_writer` fails only where its writer
/// fails, and writing into a `Vec<u8>` does not fail. It writes one
/// `key=value` line per field in a fixed order (`config_chars`), the build
/// flags in the order in which their `HashSet` is walked; the contract leaves
/// that order open. The plain fields of a [`PyConfig`] are those of the
/// configuration it holds: the parser fills both and nothing changes them.
#[verifier::external_body]
fn write_interpreter_config(config: &PyConfig) -> (r: Result<Vec<u8>, String>)
    ensures
        r is Ok,
        r matches Ok(text) ==> is_config_text(config@, text@),
{
    let mut buf = Vec::new();
    config.config.to_writer(&mut buf).map(|_| buf).map_err(|e| format!("{:?}", e))
}

/// The configuration text, as PyO3 writes it.
pub fn config_text(config: &PyConfig) -> (r: Vec<u8>)
    ensures
        is_config_text(config@, r@),
{
    write_interpreter_config(config).unwrap()
}

/// What the embedded build derives from the configuration.
pub struct EmbeddedConfig {
    /// The configuration as PyO3 writes it.
    pub config_text: Vec<u8>,
    /// `config_text` escaped as lowercase hexadecimal (the `dep_cfg` file and
    /// the `DEP_PYTHON_PYO3_CONFIG` variable).
    pub dep_cfg: String,
    /// The Python interpreter the configuration names.
    pub python_interpreter: String,
}

/// Builds the embedded-build artifacts from a configuration text and the
/// interpreter path.
pub fn embedded_config(config_text: Vec<u8>, python_interpreter: String) -> (r: EmbeddedConfig)
    ensures
        r.config_text@ == config_text@,
        r.dep_cfg@ == spec_escape(config_text@),
        r.python_interpreter@ == python_interpreter@,
{
    let dep_cfg = escape(config_text.as_slice());
    EmbeddedConfig { config_text, dep_cfg, python_interpreter }
}

/// Writes the configuration as PyO3 does and escapes it for `dep_cfg`, and
/// takes the interpreter path from it. The configuration must name an
/// interpreter.
pub fn pyo3_build_config(config: &PyConfig) -> (r: EmbeddedConfig)
    requires
        config@.executable is Some,
    ensures
        is_config_text(config@, r.config_text@),
        r.dep_cfg@ == spec_escape(r.config_text@),
        config@.executable == Some(r.python_interpreter@),
{
    let text = config_text(config);
    let interpreter = config.executable.as_ref().unwrap().clone();
    embedded_config(text, interpreter)
}

/// The build-script line that sets the compile-time environment variable
/// `name` to `value`: `cargo:rustc-env=<name>=<value>`.
pub fn rustc_env_directive(name: &str, value: &str) -> (r: String)
    ensures
        r@ == "cargo:rustc-env="@ + name@ + "="@ + value@,
{
    let mut r = owned("cargo:rustc-env=");
    r.append(name);
    r.append("=");
    r.append(value);
    r
}

/// Where and what [`configure_plan`] writes.
pub struct ConfigurePlan {
    /// Create the parent directory of the given path first.
    pub create_parent_dir: bool,
    /// Write into the build script's output directory (under the file name)
    /// rather than at the given path.
    pub in_out_dir: bool,
    /// Write the configuration; otherwise create an empty file.
    pub write_config: bool,
}

/// How a configuration (or its absence) is written to a file: at the given
/// path, creating its parent directory when the path does not exist yet, or
/// in the output directory when no path is given; the configuration when
/// there is one, an empty file otherwise. The result reports whether a
/// configuration was written.
pub fn configure_plan(has_config: bool, path_given: bool, path_exists: bool) -> (r: (
    ConfigurePlan,
    bool,
))
    ensures
        r.0.create_parent_dir == (path_given && !path_exists),
        r.0.in_out_dir == !path_given,
        r.0.write_config == has_config,
        r.1 == has_config,
{
    (
        ConfigurePlan {
            create_parent_dir: path_given && !path_exists,
            in_out_dir: !path_given,
            write_config: has_config,
        },
        has_config,
    )
}

} // verus!
