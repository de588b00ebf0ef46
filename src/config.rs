//! Parameters of one search run, checked when they are built.
use vstd::prelude::*;

verus! {

/// Why a set of search parameters was refused.
#[derive(Debug, Clone, Copy, PartialEq, Eq, Structural)]
pub enum ConfigError {
    /// No worker would run.
    ZeroJobs,
    /// No candidate could be drawn from a seed.
    ZeroPrgIterations,
    /// An element would be encoded in no bytes, or in more than a `u128` holds.
    EncodedSize,
}

/// The field that candidates are drawn for: its modulus, and the number of
/// bytes in which one element is encoded.
#[derive(Debug, Clone, Copy)]
pub struct FieldDescriptor {
    modulus: u128,
    encoded_size: usize,
}

impl FieldDescriptor {
    pub closed spec fn spec_modulus(&self) -> u128 {
        self.modulus
    }

    pub closed spec fn spec_encoded_size(&self) -> usize {
        self.encoded_size
    }

    /// An element takes between one and sixteen bytes.
    pub open spec fn wf(&self) -> bool {
        1 <= self.spec_encoded_size() <= 16
    }

    /// Describes a field of the given modulus whose elements are encoded in
    /// `encoded_size` bytes.
    pub fn new(modulus: u128, encoded_size: usize) -> (r: Result<FieldDescriptor, ConfigError>)
        ensures
            1 <= encoded_size <= 16 <==> r is Ok,
            !(1 <= encoded_size <= 16) ==> r == Err::<FieldDescriptor, ConfigError>(
                ConfigError::EncodedSize,
            ),
            r matches Ok(f) ==> f.wf() && f.spec_modulus() == modulus && f.spec_encoded_size()
                == encoded_size,
    {
        if 1 <= encoded_size && encoded_size <= 16 {
            Ok(FieldDescriptor { modulus, encoded_size })
        } else {
            Err(ConfigError::EncodedSize)
        }
    }

    /// The field's modulus.
    pub fn modulus(&self) -> (r: u128)
        ensures
            r == self.spec_modulus(),
    {
        self.modulus
    }

    /// The number of bytes of one encoded element.
    pub fn encoded_size(&self) -> (r: usize)
        ensures
            r == self.spec_encoded_size(),
    {
        self.encoded_size
    }
}

/// Immutable parameters of one search run.
#[derive(Debug, Clone, Copy)]
pub struct Config {
    jobs: usize,
    prg_iterations: usize,
}

impl Config {
    pub closed spec fn spec_jobs(&self) -> usize {
        self.jobs
    }

    pub closed spec fn spec_prg_iterations(&self) -> usize {
        self.prg_iterations
    }

    /// Both counts are positive.
    pub open spec fn wf(&self) -> bool {
        self.spec_jobs() >= 1 && self.spec_prg_iterations() >= 1
    }

    /// Builds a configuration. A zero worker count is refused, not read as
    /// one worker; it is checked before a zero number of chunks per seed.
    pub fn new(jobs: usize, prg_iterations: usize) -> (r: Result<Config, ConfigError>)
        ensures
            jobs == 0 ==> r == Err::<Config, ConfigError>(ConfigError::ZeroJobs),
            jobs >= 1 && prg_iterations == 0 ==> r == Err::<Config, ConfigError>(
                ConfigError::ZeroPrgIterations,
            ),
            jobs >= 1 && prg_iterations >= 1 ==> r is Ok,
            r matches Ok(c) ==> c.wf() && c.spec_jobs() == jobs && c.spec_prg_iterations()
                == prg_iterations,
    {
        if jobs == 0 {
            Err(ConfigError::ZeroJobs)
        } else if prg_iterations == 0 {
            Err(ConfigError::ZeroPrgIterations)
        } else {
            Ok(Config { jobs, prg_iterations })
        }
    }

    /// Number of worker threads.
    pub fn jobs(&self) -> (r: usize)
        ensures
            r == self.spec_jobs(),
    {
        self.jobs
    }

    /// Number of chunks drawn from one seed before a fresh seed is drawn.
    pub fn prg_iterations(&self) -> (r: usize)
        ensures
            r == self.spec_prg_iterations(),
    {
        self.prg_iterations
    }
}

} // verus!
