//! What a scan is asked to do: the validated configuration that a scan runs
//! on.

use crate::cli::Cli;
use crate::digest::{hash_type_of, is_valid_hash, is_valid_hash_for, validate_hash, HashType};
use vstd::prelude::*;

verus! {

/// Why a configuration is refused before any traversal starts.
#[derive(Clone, Copy, Debug, PartialEq, Eq, Structural)]
pub enum ConfigError {
    /// The root path is missing or is no directory.
    RootNotDirectory,
    /// No digest to search for was given.
    NoTargets,
    /// A wanted digest has not the form of a digest of the scan's algorithm.
    InvalidHash,
}

/// The texts of a sequence of strings.
pub open spec fn texts_of(strings: Seq<String>) -> Seq<Seq<char>> {
    Seq::new(strings.len(), |i: int| strings[i]@)
}

/// A configuration as a mathematical value.
pub struct ConfigView {
    pub root: Seq<char>,
    pub targets: Seq<Seq<char>>,
    pub algorithm: HashType,
    pub ignore_symlinks: bool,
    pub recursive: bool,
    pub interactive: bool,
    pub verbose: bool,
}

impl ConfigView {
    /// There is a wanted digest, and each has the form of a digest of the
    /// algorithm.
    pub open spec fn valid(self) -> bool {
        &&& self.targets.len() > 0
        &&& forall|i: int|
            0 <= i < self.targets.len() ==> is_valid_hash(
                self.algorithm,
                #[trigger] self.targets[i],
            )
    }

    /// Whether `digest` is wanted: whether it equals one of the targets,
    /// character for character.
    pub open spec fn wants(self, digest: Seq<char>) -> bool {
        self.targets.contains(digest)
    }
}

/// The algorithm that a scan for `targets` runs on, or the reason why there
/// is none. An algorithm that is named decides; else the form of the first
/// target does. Every target must then have the form of that algorithm's
/// digests.
pub open spec fn settle_algorithm(targets: Seq<Seq<char>>, named: Option<HashType>) -> Result<
    HashType,
    ConfigError,
> {
    if targets.len() == 0 {
        Err(ConfigError::NoTargets)
    } else {
        let choice = match named {
            Some(t) => Some(t),
            None => hash_type_of(targets[0]),
        };
        match choice {
            Some(t) => if forall|i: int|
                0 <= i < targets.len() ==> is_valid_hash(t, #[trigger] targets[i]) {
                Ok(t)
            } else {
                Err(ConfigError::InvalidHash)
            },
            None => Err(ConfigError::InvalidHash),
        }
    }
}

/// A validated configuration. It does not change while a scan runs.
pub struct ScanConfig {
    root: String,
    targets: Vec<String>,
    algorithm: HashType,
    ignore_symlinks: bool,
    recursive: bool,
    interactive: bool,
    verbose: bool,
}

impl View for ScanConfig {
    type V = ConfigView;

    closed spec fn view(&self) -> ConfigView {
        ConfigView {
            root: self.root@,
            targets: texts_of(self.targets@),
            algorithm: self.algorithm,
            ignore_symlinks: self.ignore_symlinks,
            recursive: self.recursive,
            interactive: self.interactive,
            verbose: self.verbose,
        }
    }
}

impl ScanConfig {
    /// Validates the parts of a configuration and puts them together. It is
    /// refused exactly when `settle_algorithm` finds no algorithm; else its
    /// algorithm is the one found and the other parts are as given.
    pub fn new(
        root: String,
        targets: Vec<String>,
        named: Option<HashType>,
        ignore_symlinks: bool,
        recursive: bool,
        interactive: bool,
        verbose: bool,
    ) -> (made: Result<ScanConfig, ConfigError>)
        ensures
            match made {
                Ok(config) => settle_algorithm(texts_of(targets@), named) == Ok::<
                    HashType,
                    ConfigError,
                >(config@.algorithm) && config@ == (ConfigView {
                    root: root@,
                    targets: texts_of(targets@),
                    algorithm: config@.algorithm,
                    ignore_symlinks,
                    recursive,
                    interactive,
                    verbose,
                }) && config@.valid(),
                Err(e) => settle_algorithm(texts_of(targets@), named) == Err::<
                    HashType,
                    ConfigError,
                >(e),
            },
    {
        if targets.len() == 0 {
            return Err(ConfigError::NoTargets);
        }
        let ghost texts = texts_of(targets@);
        let algorithm = match named {
            Some(t) => t,
            None => match validate_hash(&targets[0]) {
                Some(t) => t,
                None => {
                    return Err(ConfigError::InvalidHash);
                },
            },
        };
        let mut i: usize = 0;
        while i < targets.len()
            invariant
                i <= targets@.len(),
                texts == texts_of(targets@),
                texts.len() > 0,
                Some(algorithm) == match named {
                    Some(t) => Some(t),
                    None => hash_type_of(texts[0]),
                },
                forall|k: int| 0 <= k < i ==> is_valid_hash(algorithm, #[trigger] texts[k]),
            decreases targets.len() - i,
        {
            if !is_valid_hash_for(&targets[i], &algorithm) {
                assert(!is_valid_hash(algorithm, texts[i as int]));
                return Err(ConfigError::InvalidHash);
            }
            i = i + 1;
        }
        Ok(
            ScanConfig {
                root,
                targets,
                algorithm,
                ignore_symlinks,
                recursive,
                interactive,
                verbose,
            },
        )
    }

    /// The configuration that a command line asks for, once the root path
    /// has been looked at. A root that is no directory is refused first;
    /// then a digest that is neither 32, 40 nor 64 hexadecimal digits. Else
    /// the one digest given is the target and its form names the algorithm.
    pub fn from_cli(cli: &Cli, root_is_directory: bool) -> (made: Result<ScanConfig, ConfigError>)
        ensures
            match made {
                Ok(config) => root_is_directory && hash_type_of(cli.hash@) == Some(
                    config@.algorithm,
                ) && config@ == (ConfigView {
                    root: cli.path@,
                    targets: seq![cli.hash@],
                    algorithm: config@.algorithm,
                    ignore_symlinks: cli.ignore_symlinks,
                    recursive: cli.recursive,
                    interactive: cli.interactive,
                    verbose: cli.verbose,
                }) && config@.valid(),
                Err(e) => if !root_is_directory {
                    e == ConfigError::RootNotDirectory
                } else {
                    e == ConfigError::InvalidHash && hash_type_of(cli.hash@) is None
                },
            },
    {
        if !root_is_directory {
            return Err(ConfigError::RootNotDirectory);
        }
        let mut targets: Vec<String> = Vec::new();
        targets.push(cli.hash.clone());
        assert(texts_of(targets@) =~= seq![cli.hash@]);
        ScanConfig::new(
            cli.path.clone(),
            targets,
            None,
            cli.ignore_symlinks,
            cli.recursive,
            cli.interactive,
            cli.verbose,
        )
    }

    /// Whether `digest` is one of the wanted digests. The comparison is of
    /// whole texts: a digest that merely contains a target, or differs from
    /// it in the case of a letter, is not wanted.
    pub fn is_target(&self, digest: &String) -> (wanted: bool)
        ensures
            wanted == self@.wants(digest@),
    {
        let mut i: usize = 0;
        while i < self.targets.len()
            invariant
                i <= self.targets@.len(),
                forall|k: int| 0 <= k < i ==> self@.targets[k] != digest@,
            decreases self.targets.len() - i,
        {
            if self.targets[i] == *digest {
                assert(self@.targets[i as int] == digest@);
                return true;
            }
            i = i + 1;
        }
        false
    }

    /// The directory at which the scan starts.
    pub fn root(&self) -> (root: &String)
        ensures
            root@ == self@.root,
    {
        &self.root
    }

    /// The algorithm of the scan.
    pub fn algorithm(&self) -> (algorithm: HashType)
        ensures
            algorithm == self@.algorithm,
    {
        self.algorithm
    }

    /// Whether symbolic links are skipped.
    pub fn ignore_symlinks(&self) -> (flag: bool)
        ensures
            flag == self@.ignore_symlinks,
    {
        self.ignore_symlinks
    }

    /// Whether subdirectories are scanned.
    pub fn recursive(&self) -> (flag: bool)
        ensures
            flag == self@.recursive,
    {
        self.recursive
    }

    /// Whether each deletion waits for the operator's yes.
    pub fn interactive(&self) -> (flag: bool)
        ensures
            flag == self@.interactive,
    {
        self.interactive
    }

    /// Whether progress is reported.
    pub fn verbose(&self) -> (flag: bool)
        ensures
            flag == self@.verbose,
    {
        self.verbose
    }
}

} // verus!
