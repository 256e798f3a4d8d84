use vstd::prelude::*;
use crate::settings::Settings;

verus! {

/// Why a registry access was refused.
#[derive(PartialEq, Eq, Structural, Clone, Copy, Debug)]
pub enum RegistryError {
    /// The entry has not been populated yet. A reader gets this error,
    /// never a silent default value.
    NotReady,
    /// The entry is already populated; the registry is write-once.
    AlreadySet,
}

/// The write-once registry of process-wide handles that every command
/// handler reads: the shard-manager handle, the database pool handle and the
/// settings record. Each slot is populated at most once during bootstrap and
/// is read-only thereafter; the handle types `S` and `P` are opaque
/// capabilities chosen by the caller.
pub struct Registry<S, P> {
    shard_manager: Option<S>,
    pool: Option<P>,
    settings: Option<Settings>,
}

impl<S, P> Registry<S, P> {
    /// The shard-manager slot as it stands.
    pub closed spec fn shard_manager_slot(self) -> Option<S> {
        self.shard_manager
    }

    /// The pool slot as it stands.
    pub closed spec fn pool_slot(self) -> Option<P> {
        self.pool
    }

    /// The settings slot as it stands.
    pub closed spec fn settings_slot(self) -> Option<Settings> {
        self.settings
    }

    /// Whether the shard-manager slot is populated.
    pub open spec fn has_shard_manager(self) -> bool {
        self.shard_manager_slot() is Some
    }

    /// Whether the pool slot is populated.
    pub open spec fn has_pool(self) -> bool {
        self.pool_slot() is Some
    }

    /// Whether the settings slot is populated.
    pub open spec fn has_settings(self) -> bool {
        self.settings_slot() is Some
    }

    /// The handle in the shard-manager slot.
    pub open spec fn shard_manager_val(self) -> S
        recommends
            self.has_shard_manager(),
    {
        self.shard_manager_slot()->Some_0
    }

    /// The handle in the pool slot.
    pub open spec fn pool_val(self) -> P
        recommends
            self.has_pool(),
    {
        self.pool_slot()->Some_0
    }

    /// The record in the settings slot.
    pub open spec fn settings_val(self) -> Settings
        recommends
            self.has_settings(),
    {
        self.settings_slot()->Some_0
    }

    /// Every slot is populated: bootstrap of the gateway subsystem is done
    /// and the registry may be handed to the event loop.
    pub open spec fn complete(self) -> bool {
        self.has_shard_manager() && self.has_pool() && self.has_settings()
    }

    /// An empty registry: no slot populated.
    pub fn new() -> (r: Registry<S, P>)
        ensures
            !r.has_shard_manager(),
            !r.has_pool(),
            !r.has_settings(),
    {
        Registry { shard_manager: None, pool: None, settings: None }
    }

    /// Populates the shard-manager slot, exactly once: a second insertion is
    /// refused and leaves the registry unchanged.
    pub fn insert_shard_manager(&mut self, h: S) -> (r: Result<(), RegistryError>)
        ensures
            r is Ok <==> !old(self).has_shard_manager(),
            r matches Err(e) ==> e == RegistryError::AlreadySet && *final(self) == *old(self),
            r is Ok ==> final(self).has_shard_manager() && final(self).shard_manager_val() == h,
            final(self).pool_slot() == old(self).pool_slot(),
            final(self).settings_slot() == old(self).settings_slot(),
    {
        if self.shard_manager.is_none() {
            self.shard_manager = Some(h);
            Ok(())
        } else {
            Err(RegistryError::AlreadySet)
        }
    }

    /// Populates the pool slot, exactly once.
    pub fn insert_pool(&mut self, h: P) -> (r: Result<(), RegistryError>)
        ensures
            r is Ok <==> !old(self).has_pool(),
            r matches Err(e) ==> e == RegistryError::AlreadySet && *final(self) == *old(self),
            r is Ok ==> final(self).has_pool() && final(self).pool_val() == h,
            final(self).shard_manager_slot() == old(self).shard_manager_slot(),
            final(self).settings_slot() == old(self).settings_slot(),
    {
        if self.pool.is_none() {
            self.pool = Some(h);
            Ok(())
        } else {
            Err(RegistryError::AlreadySet)
        }
    }

    /// Populates the settings slot, exactly once.
    pub fn insert_settings(&mut self, s: Settings) -> (r: Result<(), RegistryError>)
        ensures
            r is Ok <==> !old(self).has_settings(),
            r matches Err(e) ==> e == RegistryError::AlreadySet && *final(self) == *old(self),
            r is Ok ==> final(self).has_settings() && final(self).settings_val() == s,
            final(self).shard_manager_slot() == old(self).shard_manager_slot(),
            final(self).pool_slot() == old(self).pool_slot(),
    {
        if self.settings.is_none() {
            self.settings = Some(s);
            Ok(())
        } else {
            Err(RegistryError::AlreadySet)
        }
    }

    /// Reads the shard-manager handle. Before the slot is populated the read
    /// fails explicitly with `NotReady`; it never yields a default.
    pub fn shard_manager(&self) -> (r: Result<&S, RegistryError>)
        ensures
            r is Ok <==> self.has_shard_manager(),
            r matches Ok(h) ==> *h == self.shard_manager_val(),
            r matches Err(e) ==> e == RegistryError::NotReady,
    {
        match &self.shard_manager {
            Some(h) => Ok(h),
            None => Err(RegistryError::NotReady),
        }
    }

    /// Reads the database pool handle; `NotReady` before it is populated.
    pub fn pool(&self) -> (r: Result<&P, RegistryError>)
        ensures
            r is Ok <==> self.has_pool(),
            r matches Ok(h) ==> *h == self.pool_val(),
            r matches Err(e) ==> e == RegistryError::NotReady,
    {
        match &self.pool {
            Some(h) => Ok(h),
            None => Err(RegistryError::NotReady),
        }
    }

    /// Reads the settings record; `NotReady` before it is populated.
    pub fn settings(&self) -> (r: Result<&Settings, RegistryError>)
        ensures
            r is Ok <==> self.has_settings(),
            r matches Ok(s) ==> *s == self.settings_val(),
            r matches Err(e) ==> e == RegistryError::NotReady,
    {
        match &self.settings {
            Some(s) => Ok(s),
            None => Err(RegistryError::NotReady),
        }
    }

    /// Whether bootstrap has populated every slot.
    pub fn is_complete(&self) -> (r: bool)
        ensures
            r == self.complete(),
    {
        self.shard_manager.is_some() && self.pool.is_some() && self.settings.is_some()
    }
}

} // verus!
