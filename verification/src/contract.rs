//! The config persistence contract: a trait giving a configuration type a
//! name, a structured-text codec and an optional default value, together with
//! the decisions that loading and saving make.
//!
//! The contract itself never touches the filesystem. A host performs the file
//! operations and hands their outcomes to the functions here: `load_from_read`
//! receives what reading the file gave, `save_if_not_exists_action` receives
//! what an exclusive-create attempt reported and says what to do next. The
//! file-state functions `file_after_save` and `file_after_save_defaults`
//! describe how those decisions change the file, and the lemmas below state
//! the contract's laws over them.

use vstd::prelude::*;
use vstd::string::StringExecFns;

verus! {

/// A configuration value type that can be persisted to a named file as
/// structured text.
pub trait SupernovaConfig: Sized {
    /// The configuration's name, which determines its file name.
    spec fn spec_name() -> Seq<char>;

    /// The canonical text encoding of a value.
    spec fn spec_encoding(v: Self) -> Seq<char>;

    /// The value a text decodes to, if any.
    spec fn spec_decoding(s: Seq<char>) -> Option<Self>;

    /// The compiled-in default value, if the type is default-capable.
    spec fn spec_default() -> Option<Self>;

    /// Decoding inverts encoding.
    proof fn lemma_round_trip(v: Self)
        ensures
            Self::spec_decoding(Self::spec_encoding(v)) == Some(v),
    ;

    /// The configuration's name.
    fn config_name() -> (r: String)
        ensures
            r@ == Self::spec_name(),
    ;

    /// Encodes `self` as structured text.
    fn encode(&self) -> (r: String)
        ensures
            r@ == Self::spec_encoding(*self),
    ;

    /// Decodes structured text back into a value.
    fn decode(s: &str) -> (r: Option<Self>)
        ensures
            r == Self::spec_decoding(s@),
    ;

    /// The default value, where the type declares one.
    fn default_value() -> (r: Option<Self>)
        ensures
            r == Self::spec_default(),
    ;
}

/// Why a configuration could not be loaded.
#[derive(Debug)]
pub enum ConfigError {
    /// The file was present but its content did not decode; the message
    /// describes the failure.
    Malformed(String),
    /// The file was absent and the type declares no default value.
    NoDefaultAvailable,
}

/// The message carried by the `Malformed` error that `load_from_read` returns.
pub open spec fn malformed_load_message() -> Seq<char> {
    "Error loading config from file: the content does not decode as this configuration type"@
}

/// The guidance given when a configuration has no default value.
pub open spec fn no_default_message() -> Seq<char> {
    "Unable to load config from file and there are no default values for this config. Consider declaring a default value for this config type."@
}

impl ConfigError {
    /// A human-readable description of the error.
    pub fn message(&self) -> (r: String)
        ensures
            r@ == match self {
                ConfigError::Malformed(detail) => detail@,
                ConfigError::NoDefaultAvailable => no_default_message(),
            },
    {
        match self {
            ConfigError::Malformed(detail) => detail.clone(),
            ConfigError::NoDefaultAvailable => String::from_str(
                "Unable to load config from file and there are no default values for this config. Consider declaring a default value for this config type.",
            ),
        }
    }
}

/// The load operation's decision. `content` is the file's text where the file
/// could be opened and read, and `None` where it could not; absent files and
/// unreadable files are not distinguished. Loading never creates or changes a
/// file: the host only reads before calling this.
pub fn load_from_read<T: SupernovaConfig>(content: Option<&str>) -> (r: Result<T, ConfigError>)
    ensures
        match content {
            Some(text) => match T::spec_decoding(text@) {
                Some(v) => r == Ok::<T, ConfigError>(v),
                None => r matches Err(ConfigError::Malformed(detail)) && detail@
                    == malformed_load_message(),
            },
            None => match T::spec_default() {
                Some(d) => r == Ok::<T, ConfigError>(d),
                None => r == Err::<T, ConfigError>(ConfigError::NoDefaultAvailable),
            },
        },
{
    match content {
        Some(text) => match T::decode(text) {
            Some(v) => Ok(v),
            None => Err(
                ConfigError::Malformed(
                    String::from_str(
                        "Error loading config from file: the content does not decode as this configuration type",
                    ),
                ),
            ),
        },
        None => match T::default_value() {
            Some(d) => Ok(d),
            None => Err(ConfigError::NoDefaultAvailable),
        },
    }
}

/// What the filesystem reported for an exclusive-create attempt.
#[derive(Debug)]
pub enum CreateOutcome {
    /// The file did not exist and was created.
    Created,
    /// The file already exists; nothing was created.
    AlreadyExists,
    /// Creation failed for another reason, described by the message.
    Failed(String),
}

/// What a saver must do after an exclusive-create attempt.
#[derive(Debug)]
pub enum SaveAction {
    /// Write this text into the freshly created file.
    WriteContent(String),
    /// Leave the existing file untouched and report success.
    SkipExisting,
    /// Report the creation failure, described by the message.
    Fail(String),
}

/// The save decision: on a freshly created file, write the value's encoding;
/// on an existing file, leave it untouched — the first write wins and a later
/// save never clobbers it; any other creation failure is surfaced.
pub fn save_if_not_exists_action<T: SupernovaConfig>(value: &T, outcome: CreateOutcome) -> (r:
    SaveAction)
    ensures
        match outcome {
            CreateOutcome::Created => r matches SaveAction::WriteContent(text) && text@
                == T::spec_encoding(*value),
            CreateOutcome::AlreadyExists => r matches SaveAction::SkipExisting,
            CreateOutcome::Failed(message) => r matches SaveAction::Fail(m) && m == message,
        },
{
    match outcome {
        CreateOutcome::Created => SaveAction::WriteContent(value.encode()),
        CreateOutcome::AlreadyExists => SaveAction::SkipExisting,
        CreateOutcome::Failed(message) => SaveAction::Fail(message),
    }
}

/// The file name for a configuration name: `sn-config-<name>.json`.
pub open spec fn spec_config_file_name(name: Seq<char>) -> Seq<char> {
    "sn-config-"@ + name + ".json"@
}

/// The file name for a configuration name: `sn-config-<name>.json`.
pub fn config_file_name(name: &str) -> (r: String)
    ensures
        r@ == spec_config_file_name(name@),
{
    let mut r = String::from_str("sn-config-");
    r.append(name);
    r.append(".json");
    r
}

/// The directory all config files live under: the host's configured root
/// where one is set, the current working directory otherwise.
pub open spec fn spec_config_root(env_value: Option<Seq<char>>) -> Seq<char> {
    match env_value {
        Some(root) => root,
        None => "."@,
    }
}

/// Resolves the config root from the host's environment value.
pub fn resolve_config_root(env_value: Option<String>) -> (r: String)
    ensures
        match env_value {
            Some(root) => r@ == spec_config_root(Some(root@)),
            None => r@ == spec_config_root(None),
        },
{
    match env_value {
        Some(root) => root,
        None => String::from_str("."),
    }
}

/// The full path of a configuration's file: `<root>/sn-config-<name>.json`.
pub open spec fn spec_config_file_path(root: Seq<char>, name: Seq<char>) -> Seq<char> {
    root + "/"@ + spec_config_file_name(name)
}

/// The full path of a configuration's file, the root resolved as
/// `resolve_config_root` resolves it and joined with a path separator.
pub fn config_file_path(env_value: Option<String>, name: &str) -> (r: String)
    ensures
        match env_value {
            Some(root) => r@ == spec_config_file_path(root@, name@),
            None => r@ == spec_config_file_path("."@, name@),
        },
{
    let mut r = resolve_config_root(env_value);
    r.append("/");
    let file_name = config_file_name(name);
    r.append(file_name.as_str());
    r
}

/// The config file's state after `save_if_not_exists` for `value`: the file's
/// text where it exists, `None` where it does not. An existing file is left
/// as it is; an absent file receives the value's encoding.
pub open spec fn file_after_save<T: SupernovaConfig>(file: Option<Seq<char>>, value: T) -> Option<
    Seq<char>,
> {
    match file {
        Some(text) => Some(text),
        None => Some(T::spec_encoding(value)),
    }
}

/// The config file's state after `save_defaults_if_not_exists`: an existing
/// file is left as it is, whatever it holds; an absent file receives the
/// encoding of the default value, and stays absent when the type has none
/// (the operation then fails with `NoDefaultAvailable` and writes nothing).
pub open spec fn file_after_save_defaults<T: SupernovaConfig>(file: Option<Seq<char>>) -> Option<
    Seq<char>,
> {
    match file {
        Some(text) => Some(text),
        None => match T::spec_default() {
            Some(d) => Some(T::spec_encoding(d)),
            None => None,
        },
    }
}

/// First write wins: a second `save_if_not_exists`, whatever value it is
/// given, leaves the file exactly as the first save left it.
pub proof fn lemma_first_write_wins<T: SupernovaConfig>(
    file: Option<Seq<char>>,
    first: T,
    second: T,
)
    ensures
        file_after_save::<T>(file_after_save::<T>(file, first), second) == file_after_save::<T>(
            file,
            first,
        ),
{
}

/// Saving defaults is idempotent: after the first `save_defaults_if_not_exists`
/// every further one leaves the file unchanged.
pub proof fn lemma_save_defaults_idempotent<T: SupernovaConfig>(file: Option<Seq<char>>)
    ensures
        file_after_save_defaults::<T>(file_after_save_defaults::<T>(file))
            == file_after_save_defaults::<T>(file),
{
}

/// Round trip through the file: saving `value` into an absent file and
/// loading the file back yields `value` again.
pub proof fn lemma_save_then_load<T: SupernovaConfig>(value: T)
    ensures
        file_after_save::<T>(None, value) matches Some(text) && T::spec_decoding(text) == Some(
            value,
        ),
{
    T::lemma_round_trip(value);
}

} // verus!
