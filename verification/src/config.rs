//! The versioned configuration document and its load / migration logic.
//!
//! The document carries a schema version. Loading inspects what was found
//! at the configuration path and decides, step by step, what to do:
//!
//! * nothing on disk: a default document must be written, then loaded back;
//! * a document that decodes against the current schema: returned as is
//!   when its version is current, a fatal error otherwise;
//! * anything else: probed as an untyped JSON object, rebuilt from the
//!   fields an older schema shares with the current one, migrated forward
//!   one version at a time, written back, then loaded back.
//!
//! The caller that owns the file performs the reads and writes; every
//! decision in between is made here. [`Config::load_step`] consumes one
//! [`ParseAttempt`] (what a read plus a typed decode produced) and answers
//! with a [`LoadStep`] (the final result, or the document to persist before
//! reading again).

use vstd::prelude::*;

use crate::json_probe::{
    json_bool_field, json_i64_field, json_object_probe, json_str_field, json_u64_field,
    opt_string_view, probe_bool_field, probe_i64_field, probe_is_object, probe_str_field,
    probe_u64_field,
};
use crate::records::{FanslyFollowersResponse, Subscription};

verus! {

/// The schema version written by this release. Every document a load
/// returns carries exactly this version.
pub const CURRENT_VERSION: i64 = 2;

/// The snapshot kept inside the configuration document: what the last
/// completed sync run collected.
#[derive(Clone, Debug, PartialEq, Eq)]
pub struct SyncData {
    pub followers: Vec<FanslyFollowersResponse>,
    pub subscribers: Vec<Subscription>,
}

/// The persisted configuration document.
#[derive(Clone, Debug, PartialEq, Eq)]
pub struct Config {
    pub version: i64,
    pub is_first_run: bool,
    pub fansly_token: String,
    pub auto_sync_enabled: bool,
    pub sync_token: String,
    pub sync_interval: u64,
    pub last_sync: u64,
    pub last_sync_data: SyncData,
}

/// Why a load failed. Each variant corresponds to exactly one exit of the
/// load pipeline.
#[derive(Clone, Copy, Debug, PartialEq, Eq, Structural)]
pub enum ConfigError {
    /// The file exists but its text is not valid JSON.
    InvalidJson,
    /// The file is valid JSON whose top value is not an object.
    NotAnObject,
    /// The untyped document carries no usable `version` field.
    InvalidVersionField,
    /// A document that decodes against the current schema carries a version
    /// other than [`CURRENT_VERSION`].
    VersionMismatch { found: i64 },
    /// The migration table defines no step out of this version.
    NoMigrationPath { version: i64 },
}

/// What a read of the configuration path, followed by an attempt to decode
/// the text against the current schema, produced.
#[derive(Clone, Debug, PartialEq, Eq)]
pub enum ParseAttempt {
    /// No file exists at the path.
    Missing,
    /// The text decoded cleanly against the current schema.
    Typed(Config),
    /// The text did not decode against the current schema; here it is,
    /// untouched, for the untyped probe.
    Raw(String),
}

/// What the caller must do next with the configuration file.
#[derive(Debug, PartialEq, Eq)]
pub enum LoadStep {
    /// The load is over, with this outcome.
    Done(Result<Config, ConfigError>),
    /// Persist this document at the path, read it back, and feed the new
    /// [`ParseAttempt`] to [`Config::load_step`] again.
    SaveAndReload(Config),
}

/// The fixed defaults of a fresh document: current version, first run,
/// empty tokens, hourly interval, never synced, empty snapshot.
pub open spec fn config_is_default(c: Config) -> bool {
    &&& c.version == CURRENT_VERSION
    &&& c.is_first_run == true
    &&& c.fansly_token@.len() == 0
    &&& c.auto_sync_enabled == false
    &&& c.sync_token@.len() == 0
    &&& c.sync_interval == 1
    &&& c.last_sync == 0
    &&& c.last_sync_data.followers@.len() == 0
    &&& c.last_sync_data.subscribers@.len() == 0
}

/// The version an untyped document carries: its `version` field, or 0 when
/// the field is absent or not an integer.
pub open spec fn legacy_version_of(t: Seq<char>) -> i64 {
    match json_i64_field(t, "version"@) {
        Some(v) => v,
        None => 0,
    }
}

/// How a document rebuilt from an untyped object relates to the file text,
/// before any migration: the fields an older schema shares with the
/// current one are copied forward, with their defaults where absent, and
/// everything else starts from the fresh-document defaults.
pub open spec fn legacy_base_rel(t: Seq<char>, c: Config) -> bool {
    &&& c.version == legacy_version_of(t)
    &&& c.is_first_run == (match json_bool_field(t, "is_first_run"@) {
        Some(b) => b,
        None => true,
    })
    &&& c.fansly_token@ == (match json_str_field(t, "fansly_token"@) {
        Some(s) => s,
        None => Seq::<char>::empty(),
    })
    &&& c.sync_token@ == (match json_str_field(t, "sync_token"@) {
        Some(s) => s,
        None => Seq::<char>::empty(),
    })
    &&& c.sync_interval == (match json_u64_field(t, "sync_interval"@) {
        Some(u) => u,
        None => 1,
    })
    &&& c.auto_sync_enabled == false
    &&& c.last_sync == 0
    &&& c.last_sync_data.followers@.len() == 0
    &&& c.last_sync_data.subscribers@.len() == 0
}

/// How the single defined migration step, from version 1 to version 2,
/// rewrites a document: it introduces `auto_sync_enabled = false`, an empty
/// `sync_token` and an hourly `sync_interval`, and keeps the rest.
pub open spec fn migrated_from_v1(a: Config, c: Config) -> bool {
    &&& c.version == CURRENT_VERSION
    &&& c.is_first_run == a.is_first_run
    &&& c.fansly_token == a.fansly_token
    &&& c.auto_sync_enabled == false
    &&& c.sync_token@.len() == 0
    &&& c.sync_interval == 1
    &&& c.last_sync == a.last_sync
    &&& c.last_sync_data == a.last_sync_data
}

/// Everything [`Config::migrate`] promises, as a relation between its
/// input and its result: a current document passes unchanged, a version-1
/// document is stepped to the current version, and any other version has
/// no migration path.
pub open spec fn migrate_rel(a: Config, r: Result<Config, ConfigError>) -> bool {
    &&& a.version == CURRENT_VERSION ==> r == Result::<Config, ConfigError>::Ok(a)
    &&& a.version == 1 ==> (r matches Ok(c) && migrated_from_v1(a, c))
    &&& (a.version != CURRENT_VERSION && a.version != 1) ==> r == Result::<
        Config,
        ConfigError,
    >::Err(ConfigError::NoMigrationPath { version: a.version })
}

/// How a document rebuilt from an untyped object relates to the file text
/// after migration, for a text carrying version 1: the step to version 2
/// overwrites the probed `sync_token` and `sync_interval` with their
/// introduced defaults.
pub open spec fn legacy_migrated_rel(t: Seq<char>, c: Config) -> bool {
    &&& c.version == CURRENT_VERSION
    &&& c.is_first_run == (match json_bool_field(t, "is_first_run"@) {
        Some(b) => b,
        None => true,
    })
    &&& c.fansly_token@ == (match json_str_field(t, "fansly_token"@) {
        Some(s) => s,
        None => Seq::<char>::empty(),
    })
    &&& c.auto_sync_enabled == false
    &&& c.sync_token@.len() == 0
    &&& c.sync_interval == 1
    &&& c.last_sync == 0
    &&& c.last_sync_data.followers@.len() == 0
    &&& c.last_sync_data.subscribers@.len() == 0
}

/// Everything the untyped rebuild of a file text promises, as a relation
/// between the text and the rebuilt document or error.
pub open spec fn legacy_rebuild_rel(t: Seq<char>, r: Result<Config, ConfigError>) -> bool {
    &&& json_object_probe(t) is None ==> r == Result::<Config, ConfigError>::Err(
        ConfigError::InvalidJson,
    )
    &&& json_object_probe(t) == Some(false) ==> r == Result::<Config, ConfigError>::Err(
        ConfigError::NotAnObject,
    )
    &&& json_object_probe(t) == Some(true) ==> {
        let v = legacy_version_of(t);
        &&& v == 0 ==> r == Result::<Config, ConfigError>::Err(ConfigError::InvalidVersionField)
        &&& v == CURRENT_VERSION ==> (r matches Ok(c) && legacy_base_rel(t, c))
        &&& v == 1 ==> (r matches Ok(c) && legacy_migrated_rel(t, c))
        &&& (v != 0 && v != 1 && v != CURRENT_VERSION) ==> r == Result::<Config, ConfigError>::Err(
            ConfigError::NoMigrationPath { version: v },
        )
    }
}

/// What a load step answers for raw text: the untyped rebuild's outcome,
/// where a rebuilt document must be persisted and loaded back and an error
/// ends the load.
pub open spec fn raw_step_rel(t: Seq<char>, r: LoadStep) -> bool {
    &&& json_object_probe(t) is None ==> r == LoadStep::Done(
        Result::<Config, ConfigError>::Err(ConfigError::InvalidJson),
    )
    &&& json_object_probe(t) == Some(false) ==> r == LoadStep::Done(
        Result::<Config, ConfigError>::Err(ConfigError::NotAnObject),
    )
    &&& json_object_probe(t) == Some(true) ==> {
        let v = legacy_version_of(t);
        &&& v == 0 ==> r == LoadStep::Done(
            Result::<Config, ConfigError>::Err(ConfigError::InvalidVersionField),
        )
        &&& v == CURRENT_VERSION ==> (r matches LoadStep::SaveAndReload(c) && legacy_base_rel(t, c))
        &&& v == 1 ==> (r matches LoadStep::SaveAndReload(c) && legacy_migrated_rel(t, c))
        &&& (v != 0 && v != 1 && v != CURRENT_VERSION) ==> r == LoadStep::Done(
            Result::<Config, ConfigError>::Err(ConfigError::NoMigrationPath { version: v }),
        )
    }
}

/// Everything one load step promises, as a relation between the attempt it
/// consumed and the step it answered.
pub open spec fn load_step_rel(attempt: ParseAttempt, r: LoadStep) -> bool {
    match attempt {
        ParseAttempt::Missing => r matches LoadStep::SaveAndReload(c) && config_is_default(c),
        ParseAttempt::Typed(cfg) => if cfg.version == CURRENT_VERSION {
            r == LoadStep::Done(Result::<Config, ConfigError>::Ok(cfg))
        } else {
            r == LoadStep::Done(
                Result::<Config, ConfigError>::Err(
                    ConfigError::VersionMismatch { found: cfg.version },
                ),
            )
        },
        ParseAttempt::Raw(text) => raw_step_rel(text@, r),
    }
}

impl ConfigError {
    /// The error as one descriptive line, as the caller surfaces it.
    pub fn message(&self) -> (m: String)
        ensures
            m@ == self.message_spec(),
    {
        match self {
            ConfigError::InvalidJson => "Tried to migrate a config file, but could not parse it as JSON".to_owned(),
            ConfigError::NotAnObject => "Tried to migrate a config file, but found an invalid JSON object".to_owned(),
            ConfigError::InvalidVersionField => "Tried to migrate a config file, but found an invalid version field".to_owned(),
            ConfigError::VersionMismatch { .. } => "Config version mismatch: please remove the config file and restart the application".to_owned(),
            ConfigError::NoMigrationPath { .. } => "No migration path for the version found in the config file".to_owned(),
        }
    }

    /// The line [`ConfigError::message`] returns for each variant.
    pub open spec fn message_spec(&self) -> Seq<char> {
        match self {
            ConfigError::InvalidJson => "Tried to migrate a config file, but could not parse it as JSON"@,
            ConfigError::NotAnObject => "Tried to migrate a config file, but found an invalid JSON object"@,
            ConfigError::InvalidVersionField => "Tried to migrate a config file, but found an invalid version field"@,
            ConfigError::VersionMismatch { .. } => "Config version mismatch: please remove the config file and restart the application"@,
            ConfigError::NoMigrationPath { .. } => "No migration path for the version found in the config file"@,
        }
    }
}

impl Default for Config {
    /// A fresh document with the fixed defaults.
    fn default() -> (c: Config)
        ensures
            config_is_default(c),
    {
        Config {
            version: CURRENT_VERSION,
            is_first_run: true,
            fansly_token: String::new(),
            auto_sync_enabled: false,
            sync_token: String::new(),
            sync_interval: 1,
            last_sync: 0,
            last_sync_data: SyncData { followers: Vec::new(), subscribers: Vec::new() },
        }
    }
}

impl Config {
    /// Applies the migration table to `self` until the document reaches the
    /// current version: each defined step advances the version by exactly
    /// one, and a version with no defined step is a fatal error.
    pub fn migrate(self) -> (r: Result<Config, ConfigError>)
        ensures
            migrate_rel(self, r),
    {
        if self.version > CURRENT_VERSION {
            return Err(ConfigError::NoMigrationPath { version: self.version });
        }
        let mut cfg = self;
        let ghost orig = cfg;
        while cfg.version < CURRENT_VERSION
            invariant
                orig == self,
                cfg.version <= CURRENT_VERSION,
                cfg == orig || (orig.version == 1 && migrated_from_v1(orig, cfg)),
            decreases CURRENT_VERSION - cfg.version,
        {
            match cfg.version {
                1 => {
                    cfg.version = 2;
                    cfg.auto_sync_enabled = false;
                    cfg.sync_token = String::new();
                    cfg.sync_interval = 1;
                },
                _ => {
                    return Err(ConfigError::NoMigrationPath { version: cfg.version });
                },
            }
        }
        Ok(cfg)
    }

    /// Rebuilds a document from the text of a file that did not decode
    /// against the current schema, then migrates it forward: the untyped
    /// probe of the original load path.
    pub fn rebuild_from_legacy(text: &str) -> (r: Result<Config, ConfigError>)
        ensures
            legacy_rebuild_rel(text@, r),
    {
        match probe_is_object(text) {
            None => {
                return Err(ConfigError::InvalidJson);
            },
            Some(false) => {
                return Err(ConfigError::NotAnObject);
            },
            Some(true) => {},
        }
        let version = match probe_i64_field(text, "version") {
            Some(v) => v,
            None => 0,
        };
        if version == 0 {
            return Err(ConfigError::InvalidVersionField);
        }
        let mut cfg = Config::default();
        cfg.version = version;
        cfg.is_first_run = match probe_bool_field(text, "is_first_run") {
            Some(b) => b,
            None => true,
        };
        cfg.fansly_token = match probe_str_field(text, "fansly_token") {
            Some(s) => s,
            None => String::new(),
        };
        cfg.sync_token = match probe_str_field(text, "sync_token") {
            Some(s) => s,
            None => String::new(),
        };
        cfg.sync_interval = match probe_u64_field(text, "sync_interval") {
            Some(u) => u,
            None => 1,
        };
        cfg.migrate()
    }

    /// Consumes what a read of the configuration path produced and decides
    /// the next step of the load:
    ///
    /// * no file: the default document must be persisted and loaded back;
    /// * a cleanly decoded document: final, and fatal unless its version is
    ///   current — an older version would have been migrated before ever
    ///   decoding cleanly;
    /// * raw text: rebuilt and migrated by the untyped probe, then
    ///   persisted and loaded back, unless the probe failed.
    pub fn load_step(attempt: ParseAttempt) -> (r: LoadStep)
        ensures
            load_step_rel(attempt, r),
    {
        match attempt {
            ParseAttempt::Missing => LoadStep::SaveAndReload(Config::default()),
            ParseAttempt::Typed(cfg) => {
                if cfg.version == CURRENT_VERSION {
                    LoadStep::Done(Ok(cfg))
                } else {
                    LoadStep::Done(Err(ConfigError::VersionMismatch { found: cfg.version }))
                }
            },
            ParseAttempt::Raw(text) => {
                let rebuilt = Config::rebuild_from_legacy(text.as_str());
                match rebuilt {
                    Ok(c) => LoadStep::SaveAndReload(c),
                    Err(e) => LoadStep::Done(Err(e)),
                }
            },
        }
    }
}

/// Law: loading a document that already carries the current version is
/// idempotent. The load answers the document itself and asks for no write,
/// so the file's bytes stay exactly as they were, and a second load of the
/// same file answers the same document again.
pub proof fn lemma_load_current_version_idempotent(c: Config, r1: LoadStep, r2: LoadStep)
    requires
        c.version == CURRENT_VERSION,
        load_step_rel(ParseAttempt::Typed(c), r1),
        load_step_rel(ParseAttempt::Typed(c), r2),
    ensures
        r1 == LoadStep::Done(Result::<Config, ConfigError>::Ok(c)),
        r1 == r2,
{
}

/// Law: the migration table is complete below the current version — every
/// version from 1 up is stepped all the way to exactly the current version
/// — and any version with no defined step fails with the no-migration-path
/// error carrying that version.
pub proof fn lemma_migration_completeness(a: Config, r: Result<Config, ConfigError>)
    requires
        migrate_rel(a, r),
    ensures
        1 <= a.version < CURRENT_VERSION ==> (r matches Ok(c) && c.version == CURRENT_VERSION),
        (a.version < 1 || a.version > CURRENT_VERSION) ==> r == Result::<Config, ConfigError>::Err(
            ConfigError::NoMigrationPath { version: a.version },
        ),
{
}

/// Law: loading from a path with no file creates the defaults. The load
/// asks to persist a default document — current version, first run marked,
/// empty tokens, hourly interval, no sync recorded — and loading that
/// document back answers exactly it.
pub proof fn lemma_create_on_absence(r1: LoadStep, d: Config, r2: LoadStep)
    requires
        load_step_rel(ParseAttempt::Missing, r1),
        r1 == LoadStep::SaveAndReload(d),
        load_step_rel(ParseAttempt::Typed(d), r2),
    ensures
        config_is_default(d),
        r2 == LoadStep::Done(Result::<Config, ConfigError>::Ok(d)),
{
}

} // verus!
