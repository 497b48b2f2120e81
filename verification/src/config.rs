//! The static configuration and the operator's choice.

use vstd::prelude::*;
use crate::helpers::{
    decode_lossy, first_value, get_optional_value, get_required_value, key_values,
    lemma_first_value_push, lossy_text, normalize_uefi_path, normalized, parse_key_values, Pairs,
};
use crate::text::{
    between, chars_of, lemma_between_is_concatenation, same_text, string_of, strip_affixes, trim,
};
use crate::tftp::{ip_literal, parse_tftp_ip};

verus! {

/// Why a configuration text was rejected.
#[derive(Debug, Clone, Copy, PartialEq, Eq, Structural)]
pub enum ConfigError {
    /// A required key has no entry.
    MissingKey,
    /// A key holds a value outside what it accepts.
    InvalidValue,
}

/// Where the operator's choice is looked for.
#[derive(Debug, Clone, Copy, PartialEq, Eq, Structural)]
pub enum ChoiceSource {
    /// A marker file on a local volume.
    Fs,
    /// A file fetched from a TFTP server.
    Tftp,
}

/// Why no choice was obtained.
#[derive(Debug, Clone, Copy, PartialEq, Eq, Structural)]
pub enum ChoiceLookupError {
    /// No source holds a choice.
    NotFound,
    /// A device or an interface could not be opened, or a size does not fit
    /// this machine.
    IoError,
    /// A network operation failed.
    ProtocolError,
    /// A choice text or a server address is malformed.
    ParseError,
}

/// What the operator asked for.
#[derive(Debug, Clone, PartialEq, Eq)]
pub enum Choice {
    /// Boot the entry with this identifier.
    Entry(String),
    /// Boot the newest NixOS generation.
    NixosCurrent,
    /// Hand over to the loader registered under this mode.
    Chainload(String),
}

/// A `Choice` as plain text.
pub enum ChoiceView {
    Entry(Seq<char>),
    NixosCurrent,
    Chainload(Seq<char>),
}

impl View for Choice {
    type V = ChoiceView;

    open spec fn view(&self) -> ChoiceView {
        match self {
            Choice::Entry(id) => ChoiceView::Entry(id@),
            Choice::NixosCurrent => ChoiceView::NixosCurrent,
            Choice::Chainload(mode) => ChoiceView::Chainload(mode@),
        }
    }
}

/// The result of a lookup as plain values.
pub open spec fn lookup_view(r: Result<Choice, ChoiceLookupError>) -> Result<
    ChoiceView,
    ChoiceLookupError,
> {
    match r {
        Ok(choice) => Ok(choice@),
        Err(e) => Err(e),
    }
}

/// Where the configuration text is kept.
pub const CONFIG_PATH: &'static str = "\\decider\\decider.conf";

/// The key of the loader that is started when nothing else was chosen.
pub const DEFAULT_CHAINLOAD_KEY: &'static str = "chainload_systemd_path";

/// The static configuration, read once per run.
#[derive(Debug, Clone, PartialEq, Eq)]
pub struct Config {
    /// Path of the default loader.
    pub chainload_systemd_path: String,
    /// Paths of the other loaders, each under its mode, in the order of the text.
    pub chainload_paths: Vec<(String, String)>,
    /// Where the operator's choice is looked for.
    pub choice_source: ChoiceSource,
    /// Address of the TFTP server, where one is configured.
    pub tftp_ip: Option<String>,
}

/// A `Config` as plain text.
pub struct ConfigView {
    pub chainload_systemd_path: Seq<char>,
    pub chainload_paths: Pairs,
    pub choice_source: ChoiceSource,
    pub tftp_ip: Option<Seq<char>>,
}

impl View for Config {
    type V = ConfigView;

    open spec fn view(&self) -> ConfigView {
        ConfigView {
            chainload_systemd_path: self.chainload_systemd_path@,
            chainload_paths: self.chainload_paths.deep_view(),
            choice_source: self.choice_source,
            tftp_ip: self.tftp_ip.deep_view(),
        }
    }
}

impl ConfigView {
    /// A configuration that takes the choice from the network names a server
    /// by an IPv4 or IPv6 literal.
    pub open spec fn well_formed(self) -> bool {
        self.choice_source == ChoiceSource::Tftp ==> self.tftp_ip is Some && ip_literal(
            trim(self.tftp_ip->0),
        )
    }

    /// The path of the loader registered under `mode`: that of the first such entry.
    pub open spec fn path_for_mode(self, mode: Seq<char>) -> Option<Seq<char>> {
        first_value(self.chainload_paths, mode)
    }
}

/// The mode that a key `chainload_<mode>_path` registers a loader under. The
/// mode is not empty, and the key of the default loader registers none.
pub open spec fn mode_of_key(key: Seq<char>) -> Option<Seq<char>> {
    match between(key, "chainload_"@, "_path"@) {
        Some(mode) => if mode.len() > 0 && key != DEFAULT_CHAINLOAD_KEY@ {
            Some(mode)
        } else {
            None
        },
        None => None,
    }
}

/// The loaders that a parsed text registers: mode and normalized path, in
/// the order of the text.
pub open spec fn mode_paths(kv: Pairs) -> Pairs
    decreases kv.len(),
{
    if kv.len() == 0 {
        Seq::empty()
    } else {
        let before = mode_paths(kv.drop_last());
        match mode_of_key(kv.last().0) {
            Some(mode) => before.push((mode, normalized(kv.last().1))),
            None => before,
        }
    }
}

/// The key that registers a loader under `mode`.
pub open spec fn key_of_mode(mode: Seq<char>) -> Seq<char> {
    "chainload_"@ + mode + "_path"@
}

/// The loader of a mode is what the first key `chainload_<mode>_path` of the
/// text says, normalized. A mode whose key is absent has no loader, nor has
/// the empty mode or the mode of the default loader.
pub proof fn lemma_mode_path_is_what_its_key_says(kv: Pairs, mode: Seq<char>)
    ensures
        first_value(mode_paths(kv), mode) == if mode.len() > 0 && key_of_mode(mode)
            != DEFAULT_CHAINLOAD_KEY@ {
            match first_value(kv, key_of_mode(mode)) {
                Some(path) => Some(normalized(path)),
                None => None,
            }
        } else {
            None
        },
    decreases kv.len(),
{
    if kv.len() > 0 {
        let init = kv.drop_last();
        let last = kv.last();
        lemma_mode_path_is_what_its_key_says(init, mode);
        assert(kv =~= init.push(last));
        lemma_first_value_push(init, last, key_of_mode(mode));
        lemma_between_is_concatenation(last.0, "chainload_"@, "_path"@, mode);
        match mode_of_key(last.0) {
            Some(found) => {
                lemma_first_value_push(mode_paths(init), (found, normalized(last.1)), mode);
                lemma_between_is_concatenation(last.0, "chainload_"@, "_path"@, found);
            },
            None => {},
        }
    }
}

/// The source that a parsed text selects: `fs` where it says nothing.
pub open spec fn source_of(kv: Pairs) -> Result<ChoiceSource, ConfigError> {
    match first_value(kv, "choice_source"@) {
        None => Ok(ChoiceSource::Fs),
        Some(value) => if value == "fs"@ {
            Ok(ChoiceSource::Fs)
        } else if value == "tftp"@ {
            Ok(ChoiceSource::Tftp)
        } else {
            Err(ConfigError::InvalidValue)
        },
    }
}

/// The configuration that a parsed text states, or why it states none,
/// given whether its `tftp_ip` is an IP literal.
///
/// The default loader is required. The source must be `fs` or `tftp`. With
/// `tftp`, `tftp_ip` is required and must be an IP literal.
pub open spec fn config_with(kv: Pairs, server_ok: bool) -> Result<ConfigView, ConfigError> {
    match first_value(kv, DEFAULT_CHAINLOAD_KEY@) {
        None => Err(ConfigError::MissingKey),
        Some(path) => match source_of(kv) {
            Err(e) => Err(e),
            Ok(source) => {
                let tftp_ip = first_value(kv, "tftp_ip"@);
                if source == ChoiceSource::Tftp && tftp_ip is None {
                    Err(ConfigError::MissingKey)
                } else if source == ChoiceSource::Tftp && !server_ok {
                    Err(ConfigError::InvalidValue)
                } else {
                    Ok(
                        ConfigView {
                            chainload_systemd_path: normalized(path),
                            chainload_paths: mode_paths(kv),
                            choice_source: source,
                            tftp_ip,
                        },
                    )
                }
            },
        },
    }
}

/// Whether a parsed text names its server by an IP literal.
pub open spec fn server_is_literal(kv: Pairs) -> bool {
    match first_value(kv, "tftp_ip"@) {
        Some(ip) => ip_literal(trim(ip)),
        None => false,
    }
}

/// The configuration that a parsed text states, or why it states none.
pub open spec fn config_of(kv: Pairs) -> Result<ConfigView, ConfigError> {
    config_with(kv, server_is_literal(kv))
}

fn parse_mode_key(key: &str) -> (r: Option<String>)
    ensures
        r.deep_view() == mode_of_key(key@),
{
    let v = chars_of(key);
    match strip_affixes(&v, "chainload_", "_path") {
        Some((lo, hi)) => if lo < hi && !same_text(key, DEFAULT_CHAINLOAD_KEY) {
            Some(string_of(&v, lo, hi))
        } else {
            None
        },
        None => None,
    }
}

fn collect_mode_paths(kv: &Vec<(String, String)>) -> (paths: Vec<(String, String)>)
    ensures
        paths.deep_view() == mode_paths(kv.deep_view()),
{
    let mut paths: Vec<(String, String)> = Vec::new();
    let mut i: usize = 0;
    while i < kv.len()
        invariant
            i <= kv.len(),
            paths.deep_view() == mode_paths(kv.deep_view().take(i as int)),
        decreases kv.len() - i,
    {
        let ghost before = paths.deep_view();
        proof {
            assert(kv.deep_view().take(i + 1).drop_last() =~= kv.deep_view().take(i as int));
        }
        if let Some(mode) = parse_mode_key(kv[i].0.as_str()) {
            let path = normalize_uefi_path(kv[i].1.as_str());
            paths.push((mode, path));
            proof {
                assert(paths.deep_view() =~= before.push((mode@, path@)));
            }
        }
        i += 1;
    }
    proof {
        assert(kv.deep_view().take(kv.len() as int) =~= kv.deep_view());
    }
    paths
}

fn parse_source(kv: &Vec<(String, String)>) -> (r: Result<ChoiceSource, ConfigError>)
    ensures
        r == source_of(kv.deep_view()),
{
    match get_optional_value(kv.as_slice(), "choice_source") {
        None => Ok(ChoiceSource::Fs),
        Some(value) => if same_text(value, "fs") {
            Ok(ChoiceSource::Fs)
        } else if same_text(value, "tftp") {
            Ok(ChoiceSource::Tftp)
        } else {
            Err(ConfigError::InvalidValue)
        },
    }
}

/// Makes the configuration out of the pairs of its text, given whether
/// the value of `tftp_ip` is an IP literal.
pub fn config_from_pairs(kv: &Vec<(String, String)>, server_ok: bool) -> (r: Result<
    Config,
    ConfigError,
>)
    ensures
        match r {
            Ok(config) => config_with(kv.deep_view(), server_ok) == Ok::<ConfigView, ConfigError>(
                config@,
            ),
            Err(e) => config_with(kv.deep_view(), server_ok) == Err::<ConfigView, ConfigError>(e),
        },
{
    let path = match get_required_value(kv.as_slice(), DEFAULT_CHAINLOAD_KEY) {
        Ok(path) => path,
        Err(e) => {
            return Err(e);
        },
    };
    let choice_source = match parse_source(kv) {
        Ok(source) => source,
        Err(e) => {
            return Err(e);
        },
    };
    let tftp_ip = match get_optional_value(kv.as_slice(), "tftp_ip") {
        Some(ip) => Some(ip.to_owned()),
        None => None,
    };
    if let ChoiceSource::Tftp = choice_source {
        if tftp_ip.is_none() {
            return Err(ConfigError::MissingKey);
        }
        if !server_ok {
            return Err(ConfigError::InvalidValue);
        }
    }
    Ok(
        Config {
            chainload_systemd_path: normalize_uefi_path(path),
            chainload_paths: collect_mode_paths(kv),
            choice_source,
            tftp_ip,
        },
    )
}

/// Reads the configuration from its `key = value` text.
pub fn parse_config(text: &str) -> (r: Result<Config, ConfigError>)
    ensures
        match r {
            Ok(config) => config_of(key_values(text@)) == Ok::<ConfigView, ConfigError>(config@)
                && config@.well_formed(),
            Err(e) => config_of(key_values(text@)) == Err::<ConfigView, ConfigError>(e),
        },
{
    let kv = parse_key_values(text);
    let server_ok = match get_optional_value(kv.as_slice(), "tftp_ip") {
        Some(ip) => parse_tftp_ip(ip).is_ok(),
        None => false,
    };
    config_from_pairs(&kv, server_ok)
}

/// Reads the configuration from the bytes of its file.
pub fn parse_config_bytes(bytes: &Vec<u8>) -> (r: Result<Config, ConfigError>)
    ensures
        match r {
            Ok(config) => config_of(key_values(lossy_text(bytes@))) == Ok::<
                ConfigView,
                ConfigError,
            >(config@) && config@.well_formed(),
            Err(e) => config_of(key_values(lossy_text(bytes@))) == Err::<ConfigView, ConfigError>(e),
        },
{
    let text = decode_lossy(bytes);
    parse_config(text.as_str())
}

impl Config {
    /// The path of the loader registered under `mode`.
    pub fn chainload_path_for_mode(&self, mode: &str) -> (r: Option<&str>)
        ensures
            r.deep_view() == self@.path_for_mode(mode@),
    {
        get_optional_value(self.chainload_paths.as_slice(), mode)
    }
}

} // verus!
