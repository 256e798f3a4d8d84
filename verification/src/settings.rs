use vstd::prelude::*;

verus! {

/// The immutable configuration record shared by both subsystems: the bot
/// token, the command prefix, and the HTTP bind address and port. Text is
/// carried as bytes; the caller converts at the I/O edge.
pub struct Settings {
    pub token: Vec<u8>,
    pub prefix: Vec<u8>,
    pub bind: (u8, u8, u8, u8),
    pub port: u16,
}

/// Why a configuration record was rejected. There is no partial or degraded
/// configuration: a caller treats any of these as fatal at startup.
#[derive(PartialEq, Eq, Structural, Clone, Copy, Debug)]
pub enum ConfigError {
    MissingToken,
    MissingPrefix,
}

impl Settings {
    /// A usable configuration: both required text fields are present.
    /// The port needs no side condition: every `u16` is a valid port.
    pub open spec fn wf(self) -> bool {
        self.token@.len() > 0 && self.prefix@.len() > 0
    }

    /// Builds a configuration record, rejecting an absent token or prefix.
    pub fn new(token: Vec<u8>, prefix: Vec<u8>, bind: (u8, u8, u8, u8), port: u16)
        -> (r: Result<Settings, ConfigError>)
        ensures
            r is Ok <==> (token@.len() > 0 && prefix@.len() > 0),
            r matches Ok(s) ==> s.token == token && s.prefix == prefix
                && s.bind == bind && s.port == port && s.wf(),
            r matches Err(e) ==> (e == ConfigError::MissingToken <==> token@.len() == 0),
            r matches Err(e) ==> (e == ConfigError::MissingPrefix
                <==> (token@.len() > 0 && prefix@.len() == 0)),
    {
        if token.len() == 0 {
            Err(ConfigError::MissingToken)
        } else if prefix.len() == 0 {
            Err(ConfigError::MissingPrefix)
        } else {
            Ok(Settings { token, prefix, bind, port })
        }
    }
}

/// The process-wide settings cell: loaded at most once, read many times.
/// Every reader of a loaded provider sees the identical record, and the
/// number of load operations never exceeds one.
pub struct SettingsProvider {
    value: Option<Settings>,
    loads: u64,
}

impl SettingsProvider {
    /// Whether the configuration has been loaded.
    pub closed spec fn loaded(self) -> bool {
        self.value is Some
    }

    /// The record a loaded provider holds.
    pub closed spec fn stored(self) -> Settings
        recommends
            self.loaded(),
    {
        self.value->Some_0
    }

    /// How many load operations have run against this provider.
    pub closed spec fn load_count(self) -> u64 {
        self.loads
    }

    /// The provider counts one load exactly when it holds a value.
    pub closed spec fn wf(self) -> bool {
        self.loads <= 1 && (self.loaded() <==> self.loads == 1)
    }

    /// The provider after one `get_or_init` call with `source` on offer:
    /// a loaded provider is left untouched, an empty one takes `source`.
    pub closed spec fn after_init(self, source: Settings) -> SettingsProvider {
        if self.loaded() {
            self
        } else {
            SettingsProvider { value: Some(source), loads: (self.loads + 1) as u64 }
        }
    }

    /// An empty provider: nothing loaded, no load performed.
    pub fn new() -> (p: SettingsProvider)
        ensures
            !p.loaded(),
            p.load_count() == 0,
            p.wf(),
    {
        SettingsProvider { value: None, loads: 0 }
    }

    /// Loads `source` into the provider unless a record is already held.
    /// Idempotent: a second call performs no load and changes nothing.
    pub fn get_or_init(&mut self, source: Settings)
        requires
            old(self).wf(),
        ensures
            *final(self) == old(self).after_init(source),
            final(self).wf(),
            final(self).loaded(),
            final(self).stored() == if old(self).loaded() {
                old(self).stored()
            } else {
                source
            },
            final(self).load_count() == if old(self).loaded() {
                old(self).load_count()
            } else {
                (old(self).load_count() + 1) as u64
            },
    {
        if self.value.is_none() {
            self.loads = self.loads + 1;
            self.value = Some(source);
        }
    }

    /// How many load operations have run so far: observable evidence that
    /// loading happened at most once.
    pub fn loads(&self) -> (r: u64)
        ensures
            r == self.load_count(),
    {
        self.loads
    }

    /// Reads the loaded record, or says explicitly that none is loaded yet.
    /// An empty provider never hands back a default record.
    pub fn get(&self) -> (r: Option<&Settings>)
        ensures
            self.loaded() <==> r is Some,
            r matches Some(s) ==> *s == self.stored(),
    {
        self.value.as_ref()
    }
}

/// Loading is write-once: after a first load, a second load (with any
/// source at all) performs no load operation and changes nothing, so all
/// callers read the identical record and at most one load ever runs.
pub proof fn lemma_settings_load_once(p: SettingsProvider, a: Settings, b: Settings)
    requires
        p.wf(),
    ensures
        p.after_init(a).after_init(b) == p.after_init(a),
        p.after_init(a).wf(),
        p.after_init(a).load_count() <= 1,
        !p.loaded() ==> p.after_init(a).stored() == a,
        p.loaded() ==> p.after_init(a).stored() == p.stored(),
{
}

} // verus!
