//! Effective configuration: command-line flags merged over environment variables
//! merged over built-in defaults.

use vstd::prelude::*;

use crate::cli::Args;
use crate::text::{ascii_lower, lower_equals, lower_spec, parse_u32, parse_u64, parse_unsigned_spec};
use crate::trusted::{
    home_dir, path_file_stem, path_file_stem_spec, path_join, path_join_spec, path_parent,
    path_parent_spec,
};

verus! {

/// Output format of the analysis result.
#[derive(Debug, Clone, Copy, PartialEq, Eq, Structural)]
pub enum OutputFormat {
    Text,
    Json,
}

/// Which backend to run inference on.
#[derive(Debug, Clone, Copy, PartialEq, Eq, Structural)]
pub enum BackendPreference {
    Auto,
    Server,
    Cli,
}

/// `OutputFormat::parse`: case-insensitive `text`, `txt` or `plain`, or `json`.
pub open spec fn parse_output_format(s: Seq<char>) -> Option<OutputFormat> {
    let l = lower_spec(s);
    if l == "text"@ || l == "txt"@ || l == "plain"@ {
        Some(OutputFormat::Text)
    } else if l == "json"@ {
        Some(OutputFormat::Json)
    } else {
        None
    }
}

/// `BackendPreference::parse`: case-insensitive `auto`, `server` or `cli`.
pub open spec fn parse_backend(s: Seq<char>) -> Option<BackendPreference> {
    let l = lower_spec(s);
    if l == "auto"@ {
        Some(BackendPreference::Auto)
    } else if l == "server"@ {
        Some(BackendPreference::Server)
    } else if l == "cli"@ {
        Some(BackendPreference::Cli)
    } else {
        None
    }
}

impl OutputFormat {
    /// Parses a format name, ignoring ASCII case.
    pub fn parse(s: &str) -> (r: Option<Self>)
        ensures
            r == parse_output_format(s@),
    {
        if lower_equals(s, "text") || lower_equals(s, "txt") || lower_equals(s, "plain") {
            Some(OutputFormat::Text)
        } else if lower_equals(s, "json") {
            Some(OutputFormat::Json)
        } else {
            None
        }
    }

    /// The lowercase name of the format (`text` or `json`).
    pub fn name(&self) -> (r: &'static str)
        ensures
            r@ == format_name(*self),
    {
        match self {
            OutputFormat::Text => "text",
            OutputFormat::Json => "json",
        }
    }
}

/// Lowercase name of a format.
pub open spec fn format_name(f: OutputFormat) -> Seq<char> {
    match f {
        OutputFormat::Text => "text"@,
        OutputFormat::Json => "json"@,
    }
}

impl BackendPreference {
    /// Parses a backend name, ignoring ASCII case.
    pub fn parse(s: &str) -> (r: Option<Self>)
        ensures
            r == parse_backend(s@),
    {
        if lower_equals(s, "auto") {
            Some(BackendPreference::Auto)
        } else if lower_equals(s, "server") {
            Some(BackendPreference::Server)
        } else if lower_equals(s, "cli") {
            Some(BackendPreference::Cli)
        } else {
            None
        }
    }
}

/// The environment variables the configuration reads, as the process has them
/// (`None` when unset or not valid Unicode).
#[derive(Debug, Clone)]
pub struct EnvVars {
    /// `VISION_MODEL_PATH`
    pub model_path: Option<String>,
    /// `VISION_MMPROJ_PATH`
    pub mmproj_path: Option<String>,
    /// `VISION_DEFAULT_FORMAT`
    pub default_format: Option<String>,
    /// `VISION_MAX_TOKENS`
    pub max_tokens: Option<String>,
    /// `VISION_TIMEOUT`
    pub timeout: Option<String>,
    /// `VISION_LLAMA_SERVER`
    pub llama_server: Option<String>,
    /// `VISION_LLAMA_BIN`
    pub llama_bin: Option<String>,
    /// `VISION_SOCKET_PATH`
    pub socket_path: Option<String>,
    /// `VISION_PID_PATH`
    pub pid_path: Option<String>,
}

/// Effective configuration after merging env vars and CLI flags.
#[derive(Debug, Clone)]
pub struct EffectiveConfig {
    pub model: Option<String>,
    pub mmproj: Option<String>,
    pub format: OutputFormat,
    pub max_tokens: u32,
    /// Sampling temperature, as the bit pattern of an `f32` (`f32::to_bits`).
    pub temperature_bits: u32,
    pub timeout_ms: u64,
    pub llama_server_url: String,
    pub llama_bin: Option<String>,
    pub backend: BackendPreference,
    pub socket_path: String,
    pub pid_path: String,
}

/// Default address of `llama-server`.
pub const DEFAULT_LLAMA_SERVER: &'static str = "http://127.0.0.1:8080";

/// Default path of the warm daemon's socket.
pub const DEFAULT_SOCKET: &'static str = "/tmp/vision-analyze.sock";

/// Default path of the warm daemon's pid file.
pub const DEFAULT_PID: &'static str = "/tmp/vision-analyze.pid";

/// Default token limit.
pub const DEFAULT_MAX_TOKENS: u32 = 1024;

/// Default inference timeout in milliseconds.
pub const DEFAULT_TIMEOUT_MS: u64 = 30000;

/// The text of an optional string.
pub open spec fn opt_view(o: Option<String>) -> Option<Seq<char>> {
    match o {
        Some(s) => Some(s@),
        None => None,
    }
}

/// An environment variable counts only when it is set and not empty.
pub open spec fn env_value(o: Option<String>) -> Option<Seq<char>> {
    match o {
        Some(s) => if s@.len() > 0 {
            Some(s@)
        } else {
            None
        },
        None => None,
    }
}

/// The first of three optional values that is present.
pub open spec fn first_of<T>(a: Option<T>, b: Option<T>, c: Option<T>) -> Option<T> {
    if a is Some {
        a
    } else if b is Some {
        b
    } else {
        c
    }
}

/// A format named by an optional string, when it names one.
pub open spec fn format_of(o: Option<Seq<char>>) -> Option<OutputFormat> {
    match o {
        Some(s) => parse_output_format(s),
        None => None,
    }
}

/// A number in an optional string, when it holds one that fits below `max`.
pub open spec fn number_of(o: Option<Seq<char>>, max: int) -> Option<int> {
    match o {
        Some(s) => parse_unsigned_spec(s, max),
        None => None,
    }
}

/// The model path the configuration selects: flag, then `VISION_MODEL_PATH`,
/// then the default under the config directory.
pub open spec fn selected_model(
    args: Args,
    env: EnvVars,
    default_model: Option<String>,
) -> Option<Seq<char>> {
    first_of(opt_view(args.model), env_value(env.model_path), opt_view(default_model))
}

/// What `EffectiveConfig::build` gives, field by field.
pub open spec fn built_from(
    c: EffectiveConfig,
    args: Args,
    env: EnvVars,
    default_model: Option<String>,
    mmproj_guess: Option<String>,
) -> bool {
    &&& opt_view(c.model) == selected_model(args, env, default_model)
    &&& opt_view(c.mmproj) == first_of(
        opt_view(args.mmproj),
        env_value(env.mmproj_path),
        opt_view(mmproj_guess),
    )
    &&& c.format == first_of(
        format_of(opt_view(args.format)),
        format_of(env_value(env.default_format)),
        Some(OutputFormat::Text),
    )->0
    &&& c.max_tokens as int == first_of(
        match args.max_tokens {
            Some(n) => Some(n as int),
            None => None,
        },
        number_of(env_value(env.max_tokens), u32::MAX as int),
        Some(DEFAULT_MAX_TOKENS as int),
    )->0
    &&& c.temperature_bits == match args.temperature_bits {
        Some(t) => t,
        None => 0u32,
    }
    &&& c.timeout_ms as int == first_of(
        match args.timeout {
            Some(n) => Some(n as int),
            None => None,
        },
        number_of(env_value(env.timeout), u64::MAX as int),
        Some(DEFAULT_TIMEOUT_MS as int),
    )->0
    &&& c.llama_server_url@ == first_of(
        env_value(env.llama_server),
        Some(DEFAULT_LLAMA_SERVER@),
        None,
    )->0
    &&& opt_view(c.llama_bin) == env_value(env.llama_bin)
    &&& c.backend == match opt_view(args.backend) {
        Some(s) => match parse_backend(s) {
            Some(b) => b,
            None => BackendPreference::Auto,
        },
        None => BackendPreference::Auto,
    }
    &&& c.socket_path@ == first_of(env_value(env.socket_path), Some(DEFAULT_SOCKET@), None)->0
    &&& c.pid_path@ == first_of(env_value(env.pid_path), Some(DEFAULT_PID@), None)->0
}

/// Copy of an optional string.
pub fn clone_opt(o: &Option<String>) -> (r: Option<String>)
    ensures
        opt_view(r) == opt_view(*o),
{
    match o {
        Some(s) => Some(s.clone()),
        None => None,
    }
}

/// An environment variable's value, when set and not empty.
pub fn env_text(o: &Option<String>) -> (r: Option<String>)
    ensures
        opt_view(r) == env_value(*o),
{
    match o {
        Some(s) => if s.as_str().is_empty() {
            None
        } else {
            Some(s.clone())
        },
        None => None,
    }
}

fn format_from(o: &Option<String>) -> (r: Option<OutputFormat>)
    ensures
        r == format_of(opt_view(*o)),
{
    match o {
        Some(s) => OutputFormat::parse(s.as_str()),
        None => None,
    }
}

impl EffectiveConfig {
    /// The model path selected by the flag, `VISION_MODEL_PATH` or the default.
    pub fn select_model(args: &Args, env: &EnvVars, default_model: &Option<String>) -> (r: Option<
        String,
    >)
        ensures
            opt_view(r) == selected_model(*args, *env, *default_model),
    {
        if args.model.is_some() {
            clone_opt(&args.model)
        } else {
            let e = env_text(&env.model_path);
            if e.is_some() {
                e
            } else {
                clone_opt(default_model)
            }
        }
    }

    /// Build config from CLI args and environment. CLI flags take precedence over
    /// env, env over defaults. `default_model` is the default model path (see
    /// `default_model_path`); `mmproj_guess` is the projector found next to the
    /// selected model, if any.
    pub fn build(
        args: &Args,
        env: &EnvVars,
        default_model: &Option<String>,
        mmproj_guess: &Option<String>,
    ) -> (c: Self)
        ensures
            built_from(c, *args, *env, *default_model, *mmproj_guess),
    {
        let model = Self::select_model(args, env, default_model);
        let mmproj = if args.mmproj.is_some() {
            clone_opt(&args.mmproj)
        } else {
            let e = env_text(&env.mmproj_path);
            if e.is_some() {
                e
            } else {
                clone_opt(mmproj_guess)
            }
        };
        let env_format = env_text(&env.default_format);
        let format = match format_from(&args.format) {
            Some(f) => f,
            None => match format_from(&env_format) {
                Some(f) => f,
                None => OutputFormat::Text,
            },
        };
        let max_tokens = match args.max_tokens {
            Some(n) => n,
            None => match env_text(&env.max_tokens) {
                Some(v) => match parse_u32(v.as_str()) {
                    Some(n) => n,
                    None => DEFAULT_MAX_TOKENS,
                },
                None => DEFAULT_MAX_TOKENS,
            },
        };
        let temperature_bits = match args.temperature_bits {
            Some(t) => t,
            None => 0,
        };
        let timeout_ms = match args.timeout {
            Some(n) => n,
            None => match env_text(&env.timeout) {
                Some(v) => match parse_u64(v.as_str()) {
                    Some(n) => n,
                    None => DEFAULT_TIMEOUT_MS,
                },
                None => DEFAULT_TIMEOUT_MS,
            },
        };
        let llama_server_url = match env_text(&env.llama_server) {
            Some(v) => v,
            None => String::from_str(DEFAULT_LLAMA_SERVER),
        };
        let llama_bin = env_text(&env.llama_bin);
        let backend = match &args.backend {
            Some(s) => match BackendPreference::parse(s.as_str()) {
                Some(b) => b,
                None => BackendPreference::Auto,
            },
            None => BackendPreference::Auto,
        };
        let socket_path = match env_text(&env.socket_path) {
            Some(v) => v,
            None => String::from_str(DEFAULT_SOCKET),
        };
        let pid_path = match env_text(&env.pid_path) {
            Some(v) => v,
            None => String::from_str(DEFAULT_PID),
        };
        EffectiveConfig {
            model,
            mmproj,
            format,
            max_tokens,
            temperature_bits,
            timeout_ms,
            llama_server_url,
            llama_bin,
            backend,
            socket_path,
            pid_path,
        }
    }

    /// `~/.vision-analyze`, when the home directory is known. The home directory
    /// comes from the environment (`directories::BaseDirs`); the rest is
    /// `config_dir_in`.
    pub fn config_dir() -> (r: Option<String>)
        ensures
            r matches Some(d) ==> exists|h: Seq<char>| d@ == config_dir_spec(h),
    {
        match home_dir() {
            Some(h) => Some(Self::config_dir_in(h.as_str())),
            None => None,
        }
    }

    /// The config directory of the user whose home directory is `home`.
    pub fn config_dir_in(home: &str) -> (r: String)
        ensures
            r@ == config_dir_spec(home@),
    {
        path_join(home, ".vision-analyze")
    }
}

/// The config directory under the home directory `home`.
pub open spec fn config_dir_spec(home: Seq<char>) -> Seq<char> {
    path_join_spec(home, ".vision-analyze"@)
}

/// The file `name` inside the config directory `dir`.
pub open spec fn in_config_dir(dir: Seq<char>, name: Seq<char>) -> Seq<char> {
    path_join_spec(dir, name)
}

/// The default model file under the home directory `home`.
pub open spec fn default_model_spec(home: Seq<char>) -> Seq<char> {
    in_config_dir(config_dir_spec(home), "model.gguf"@)
}

/// The user presets file under the home directory `home`.
pub open spec fn user_presets_spec(home: Seq<char>) -> Seq<char> {
    in_config_dir(config_dir_spec(home), "presets.json"@)
}

/// `~/.vision-analyze/model.gguf`, when the home directory is known (see
/// `default_model_path_in`).
pub fn default_model_path() -> (r: Option<String>)
    ensures
        r matches Some(p) ==> exists|h: Seq<char>| p@ == default_model_spec(h),
{
    match home_dir() {
        Some(h) => Some(default_model_path_in(h.as_str())),
        None => None,
    }
}

/// The default model file of the user whose home directory is `home`.
pub fn default_model_path_in(home: &str) -> (r: String)
    ensures
        r@ == default_model_spec(home@),
{
    let d = EffectiveConfig::config_dir_in(home);
    path_join(d.as_str(), "model.gguf")
}

/// `~/.vision-analyze/presets.json`, when the home directory is known (see
/// `user_presets_path_in`).
pub fn user_presets_path() -> (r: Option<String>)
    ensures
        r matches Some(p) ==> exists|h: Seq<char>| p@ == user_presets_spec(h),
{
    match home_dir() {
        Some(h) => Some(user_presets_path_in(h.as_str())),
        None => None,
    }
}

/// The user presets file of the user whose home directory is `home`.
pub fn user_presets_path_in(home: &str) -> (r: String)
    ensures
        r@ == user_presets_spec(home@),
{
    let d = EffectiveConfig::config_dir_in(home);
    user_presets_path_for(d.as_str())
}

/// `presets.json` inside the config directory `dir`.
pub fn user_presets_path_for(dir: &str) -> (r: String)
    ensures
        r@ == in_config_dir(dir@, "presets.json"@),
{
    path_join(dir, "presets.json")
}

/// Where a projector is looked for next to `model`, in order: `mmproj.gguf` and
/// `mmproj-model.gguf` in the model's directory, then `<stem>.mmproj.gguf`.
pub open spec fn mmproj_candidates_spec(model: Seq<char>) -> Seq<Seq<char>> {
    match path_parent_spec(model) {
        None => Seq::<Seq<char>>::empty(),
        Some(dir) => {
            let named = seq![
                path_join_spec(dir, "mmproj.gguf"@),
                path_join_spec(dir, "mmproj-model.gguf"@),
            ];
            match path_file_stem_spec(model) {
                Some(stem) => named.push(path_join_spec(dir, stem + ".mmproj.gguf"@)),
                None => named,
            }
        },
    }
}

/// The projector files that may sit next to `model`, in the order they are tried;
/// the first that exists is used.
pub fn mmproj_candidates(model: &str) -> (r: Vec<String>)
    ensures
        r.deep_view() == mmproj_candidates_spec(model@),
{
    let mut r: Vec<String> = Vec::new();
    let dir = match path_parent(model) {
        Some(d) => d,
        None => {
            assert(r.deep_view() =~= Seq::<Seq<char>>::empty());
            return r;
        },
    };
    r.push(path_join(dir.as_str(), "mmproj.gguf"));
    r.push(path_join(dir.as_str(), "mmproj-model.gguf"));
    let ghost named = r.deep_view();
    match path_file_stem(model) {
        Some(stem) => {
            let mut name = stem;
            name.append(".mmproj.gguf");
            r.push(path_join(dir.as_str(), name.as_str()));
            assert(r.deep_view() =~= named.push(path_join_spec(dir@, name@)));
        },
        None => {},
    }
    assert(named =~= seq![
        path_join_spec(dir@, "mmproj.gguf"@),
        path_join_spec(dir@, "mmproj-model.gguf"@),
    ]);
    r
}

proof fn lemma_lower_idempotent(s: Seq<char>)
    ensures
        lower_spec(lower_spec(s)) == lower_spec(s),
{
    assert forall|i: int| 0 <= i < s.len() implies #[trigger] lower_spec(lower_spec(s))[i]
        == lower_spec(s)[i] by {
        let c = s[i];
        if 65 <= (c as u32) <= 90 {
            assert(ascii_lower(c) as u32 == (c as u32) + 32);
        }
    }
    assert(lower_spec(lower_spec(s)) =~= lower_spec(s));
}

/// Format and backend names ignore ASCII case: a name parses as its lowercase does.
pub proof fn law_names_ignore_case(s: Seq<char>)
    ensures
        parse_output_format(s) == parse_output_format(lower_spec(s)),
        parse_backend(s) == parse_backend(lower_spec(s)),
{
    lemma_lower_idempotent(s);
}

/// The effective configuration takes each setting from its flag when one is given,
/// else from its environment variable when that is set and not empty (and, for
/// numbers and names, valid), else from the default: the model from
/// `default_model`, the projector from the guess next to the model, text, 1024
/// tokens, temperature 0.0, 30000 ms, `http://127.0.0.1:8080`, no binary, `auto`,
/// `/tmp/vision-analyze.sock` and `/tmp/vision-analyze.pid`. No setting depends on
/// another setting's flag.
pub proof fn law_config_precedence(
    c: EffectiveConfig,
    args: Args,
    env: EnvVars,
    default_model: Option<String>,
    mmproj_guess: Option<String>,
)
    requires
        built_from(c, args, env, default_model, mmproj_guess),
    ensures
        args.model is Some ==> (c.model is Some && c.model->0@ == args.model->0@),
        args.model is None && (env.model_path is Some && env.model_path->0@.len() > 0) ==> (
        c.model is Some && c.model->0@ == env.model_path->0@),
        args.model is None && !(env.model_path is Some && env.model_path->0@.len() > 0) ==> (
        opt_view(c.model) == opt_view(default_model)),
        args.mmproj is Some ==> (c.mmproj is Some && c.mmproj->0@ == args.mmproj->0@),
        args.mmproj is None && (env.mmproj_path is Some && env.mmproj_path->0@.len() > 0) ==> (
        c.mmproj is Some && c.mmproj->0@ == env.mmproj_path->0@),
        args.mmproj is None && !(env.mmproj_path is Some && env.mmproj_path->0@.len() > 0) ==> (
        opt_view(c.mmproj) == opt_view(mmproj_guess)),
        (args.format is Some && parse_output_format(args.format->0@) is Some) ==> c.format
            == parse_output_format(args.format->0@)->0,
        !(args.format is Some && parse_output_format(args.format->0@) is Some) && (
        env.default_format is Some && env.default_format->0@.len() > 0 && parse_output_format(
            env.default_format->0@,
        ) is Some) ==> c.format == parse_output_format(env.default_format->0@)->0,
        !(args.format is Some && parse_output_format(args.format->0@) is Some) && !(
        env.default_format is Some && env.default_format->0@.len() > 0 && parse_output_format(
            env.default_format->0@,
        ) is Some) ==> c.format == OutputFormat::Text,
        args.max_tokens is Some ==> c.max_tokens == args.max_tokens->0,
        args.max_tokens is None && (env.max_tokens is Some && env.max_tokens->0@.len() > 0
            && parse_unsigned_spec(env.max_tokens->0@, u32::MAX as int) is Some) ==> c.max_tokens
            == parse_unsigned_spec(env.max_tokens->0@, u32::MAX as int)->0,
        args.max_tokens is None && !(env.max_tokens is Some && env.max_tokens->0@.len() > 0
            && parse_unsigned_spec(env.max_tokens->0@, u32::MAX as int) is Some) ==> c.max_tokens
            == 1024,
        args.temperature_bits is Some ==> c.temperature_bits == args.temperature_bits->0,
        args.temperature_bits is None ==> c.temperature_bits == 0,
        args.timeout is Some ==> c.timeout_ms == args.timeout->0,
        args.timeout is None && (env.timeout is Some && env.timeout->0@.len() > 0
            && parse_unsigned_spec(env.timeout->0@, u64::MAX as int) is Some) ==> c.timeout_ms
            == parse_unsigned_spec(env.timeout->0@, u64::MAX as int)->0,
        args.timeout is None && !(env.timeout is Some && env.timeout->0@.len() > 0
            && parse_unsigned_spec(env.timeout->0@, u64::MAX as int) is Some) ==> c.timeout_ms
            == 30000,
        (env.llama_server is Some && env.llama_server->0@.len() > 0) ==> c.llama_server_url@
            == env.llama_server->0@,
        !(env.llama_server is Some && env.llama_server->0@.len() > 0) ==> c.llama_server_url@
            == "http://127.0.0.1:8080"@,
        (env.llama_bin is Some && env.llama_bin->0@.len() > 0) ==> (c.llama_bin is Some
            && c.llama_bin->0@ == env.llama_bin->0@),
        !(env.llama_bin is Some && env.llama_bin->0@.len() > 0) ==> c.llama_bin is None,
        (args.backend is Some && parse_backend(args.backend->0@) is Some) ==> c.backend
            == parse_backend(args.backend->0@)->0,
        !(args.backend is Some && parse_backend(args.backend->0@) is Some) ==> c.backend
            == BackendPreference::Auto,
        (env.socket_path is Some && env.socket_path->0@.len() > 0) ==> c.socket_path@
            == env.socket_path->0@,
        !(env.socket_path is Some && env.socket_path->0@.len() > 0) ==> c.socket_path@
            == "/tmp/vision-analyze.sock"@,
        (env.pid_path is Some && env.pid_path->0@.len() > 0) ==> c.pid_path@
            == env.pid_path->0@,
        !(env.pid_path is Some && env.pid_path->0@.len() > 0) ==> c.pid_path@
            == "/tmp/vision-analyze.pid"@,
{
}

} // verus!
