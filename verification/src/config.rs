//! The settings that the library reads.

use vstd::prelude::*;

verus! {

/// The largest retention, in hours, whose length in seconds fits a signed
/// 64-bit count.
pub const MAX_RETENTION_HOURS: u64 = 2562047788015215;

/// The settings of the autosave runtime.
#[derive(Debug, Clone, Copy)]
pub struct AutoSaveConfig {
    /// How long a buffer stays dirty before a tick saves it, in milliseconds.
    pub debounce_ms: u64,
    /// Whether ticks save at all.
    pub enabled: bool,
    /// Whether snapshots are journaled for recovery after a crash.
    pub crash_recovery: bool,
    /// How many hours a snapshot is retained; 0 retains it indefinitely.
    pub snapshot_retention_hours: u64,
}

impl AutoSaveConfig {
    /// The retention window in seconds: none for 0 hours, none either for
    /// more hours than [`MAX_RETENTION_HOURS`].
    pub open spec fn retention_seconds(self) -> Option<u64> {
        if 1 <= self.snapshot_retention_hours <= MAX_RETENTION_HOURS {
            Some((self.snapshot_retention_hours * 3600) as u64)
        } else {
            None
        }
    }

    /// Whether the retention can be represented: 0 hours, which retains
    /// indefinitely, or no more than [`MAX_RETENTION_HOURS`].
    pub open spec fn retention_in_range(self) -> bool {
        self.snapshot_retention_hours <= MAX_RETENTION_HOURS
    }

    /// The debounce window in milliseconds.
    pub fn debounce_duration(&self) -> (millis: u64)
        ensures
            millis == self.debounce_ms,
    {
        self.debounce_ms
    }

    /// The retention window in seconds; none where snapshots are retained
    /// indefinitely.
    pub fn snapshot_retention(&self) -> (window: Option<u64>)
        requires
            self.retention_in_range(),
        ensures
            window == self.retention_seconds(),
            window is None <==> self.snapshot_retention_hours == 0,
    {
        if self.snapshot_retention_hours == 0 {
            None
        } else {
            Some(self.snapshot_retention_hours * 3600)
        }
    }
}

impl Default for AutoSaveConfig {
    fn default() -> (config: Self)
        ensures
            config == (AutoSaveConfig {
                debounce_ms: 800,
                enabled: true,
                crash_recovery: true,
                snapshot_retention_hours: 168,
            }),
    {
        Self { debounce_ms: 800, enabled: true, crash_recovery: true, snapshot_retention_hours: 24 * 7 }
    }
}


/// The colour themes.
#[derive(Debug, Clone, Copy, PartialEq, Eq, Hash, Structural)]
pub enum ThemeName {
    Dark,
    Light,
    HighContrast,
    Solarized,
}

impl Default for ThemeName {
    fn default() -> (theme: Self)
        ensures
            theme == ThemeName::Dark,
    {
        ThemeName::Dark
    }
}

/// The sets of key bindings.
#[derive(Debug, Clone, Copy, PartialEq, Eq, Structural)]
pub enum KeybindingProfile {
    Vim,
    Emacs,
    Custom,
}

impl Default for KeybindingProfile {
    fn default() -> (profile: Self)
        ensures
            profile == KeybindingProfile::Vim,
    {
        KeybindingProfile::Vim
    }
}

/// What the list is sorted by.
#[derive(Debug, Clone, Copy, PartialEq, Eq, Structural)]
pub enum SortField {
    Updated,
    Created,
    Title,
}

impl Default for SortField {
    fn default() -> (field: Self)
        ensures
            field == SortField::Updated,
    {
        SortField::Updated
    }
}

/// Which way the list is sorted.
#[derive(Debug, Clone, Copy, PartialEq, Eq, Structural)]
pub enum SortDirection {
    Ascending,
    Descending,
}

impl Default for SortDirection {
    fn default() -> (direction: Self)
        ensures
            direction == SortDirection::Descending,
    {
        SortDirection::Descending
    }
}

/// The order of the list.
#[derive(Debug, Clone, Copy, PartialEq, Eq, Structural)]
pub struct SortSpec {
    pub field: SortField,
    pub direction: SortDirection,
}

impl Default for SortSpec {
    fn default() -> (order: Self)
        ensures
            order == (SortSpec { field: SortField::Updated, direction: SortDirection::Descending }),
    {
        Self { field: SortField::Updated, direction: SortDirection::Descending }
    }
}

/// The places of the application's files, as paths in text.
#[derive(Debug, Clone)]
pub struct ConfigPaths {
    pub config_dir: String,
    pub config_file: String,
    pub data_dir: String,
    pub database_path: String,
    pub cache_dir: String,
    pub backup_dir: String,
    pub log_dir: String,
    pub state_dir: String,
}

/// The settings of the store.
#[derive(Debug, Clone)]
pub struct StorageOptions {
    /// The database file; empty until it is resolved.
    pub database_path: String,
    /// The directory for backups; empty until it is resolved.
    pub backup_dir: String,
    pub wal_autocheckpoint: u32,
    pub backup_on_exit: bool,
}

impl Default for StorageOptions {
    fn default() -> (options: Self)
        ensures
            options.database_path@.len() == 0,
            options.backup_dir@.len() == 0,
            options.wal_autocheckpoint == 1000,
            options.backup_on_exit,
    {
        Self {
            database_path: String::new(),
            backup_dir: String::new(),
            wal_autocheckpoint: 1000,
            backup_on_exit: true,
        }
    }
}

impl StorageOptions {
    /// Fills in the paths that are empty from the places in `paths`.
    pub fn resolve(&mut self, paths: &ConfigPaths)
        ensures
            final(self).database_path@ == if old(self).database_path@.len() == 0 {
                paths.database_path@
            } else {
                old(self).database_path@
            },
            final(self).backup_dir@ == if old(self).backup_dir@.len() == 0 {
                paths.backup_dir@
            } else {
                old(self).backup_dir@
            },
            final(self).wal_autocheckpoint == old(self).wal_autocheckpoint,
            final(self).backup_on_exit == old(self).backup_on_exit,
    {
        if self.database_path.as_str().is_empty() {
            self.database_path = paths.database_path.clone();
        }
        if self.backup_dir.as_str().is_empty() {
            self.backup_dir = paths.backup_dir.clone();
        }
    }
}

/// Holds the places of the application's files once they are known.
#[derive(Debug, Clone)]
pub struct ConfigLoader {
    paths: ConfigPaths,
}

impl ConfigLoader {
    /// A loader over the places `paths`.
    pub fn new(paths: ConfigPaths) -> (loader: Self)
        ensures
            *loader.paths() == paths,
    {
        Self { paths }
    }

    /// The places of the application's files.
    pub closed spec fn spec_paths(&self) -> &ConfigPaths {
        &self.paths
    }

    /// The places of the application's files.
    #[verifier::when_used_as_spec(spec_paths)]
    pub fn paths(&self) -> (paths: &ConfigPaths)
        ensures
            paths == self.spec_paths(),
    {
        &self.paths
    }
}

/// The themes that the application knows, each once.
#[derive(Debug)]
pub struct ThemeRegistry {
    names: Vec<ThemeName>,
}

impl Clone for ThemeRegistry {
    fn clone(&self) -> (copy: Self)
        ensures
            copy.themes() == self.themes(),
    {
        proof {
            use_type_invariant(self);
        }
        ThemeRegistry { names: self.names.clone() }
    }
}

impl ThemeRegistry {
    /// The themes of the registry, as a set.
    pub closed spec fn themes(&self) -> Set<ThemeName> {
        self.names@.to_set()
    }

    /// No theme is registered twice.
    #[verifier::type_invariant]
    pub closed spec fn wf(&self) -> bool {
        self.names@.no_duplicates()
    }

    /// Whether `theme` is registered.
    pub fn contains(&self, theme: &ThemeName) -> (found: bool)
        ensures
            found == self.themes().contains(*theme),
    {
        let mut i: usize = 0;
        while i < self.names.len()
            invariant
                i <= self.names.len(),
                forall|k: int| 0 <= k < i ==> self.names@[k] != *theme,
            decreases self.names.len() - i,
        {
            if self.names[i] == *theme {
                assert(self.names@.contains(self.names@[i as int]));
                return true;
            }
            i = i + 1;
        }
        assert(!self.names@.contains(*theme));
        false
    }

    /// All registered themes, each once.
    pub fn all(&self) -> (themes: Vec<ThemeName>)
        ensures
            themes@.to_set() == self.themes(),
            themes@.no_duplicates(),
    {
        proof {
            use_type_invariant(self);
        }
        self.names.clone()
    }
}

impl Default for ThemeRegistry {
    fn default() -> (registry: Self)
        ensures
            registry.wf(),
            registry.themes() == set![
                ThemeName::Dark,
                ThemeName::Light,
                ThemeName::HighContrast,
                ThemeName::Solarized,
            ],
    {
        let names: Vec<ThemeName> = vec![
            ThemeName::Dark,
            ThemeName::Light,
            ThemeName::HighContrast,
            ThemeName::Solarized,
        ];
        let registry = Self { names };
        proof {
            let listed = registry.names@;
            assert(listed[0] == ThemeName::Dark);
            assert(listed[1] == ThemeName::Light);
            assert(listed[2] == ThemeName::HighContrast);
            assert(listed[3] == ThemeName::Solarized);
            assert(listed.to_set() =~= set![
                ThemeName::Dark,
                ThemeName::Light,
                ThemeName::HighContrast,
                ThemeName::Solarized,
            ]) by {
                assert(listed.contains(listed[0]));
                assert(listed.contains(listed[1]));
                assert(listed.contains(listed[2]));
                assert(listed.contains(listed[3]));
            }
        }
        registry
    }
}

} // verus!
