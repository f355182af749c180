//! Opening environments: the options an environment is opened with, and the
//! registry of the environments that this process has opened.
use std::path::PathBuf;
use std::sync::Arc;
use vstd::prelude::*;
use crate::error::Error;
use crate::flags::{Flags, flag_bits};

verus! {

/// The settings that an environment is opened with.
#[derive(Debug, Clone, Copy, PartialEq, Eq, Structural)]
pub struct OpenSettings {
    pub map_size: Option<usize>,
    pub max_readers: Option<u32>,
    pub max_dbs: Option<u32>,
    pub flags: u32,
}

/// A map size that is not a multiple of the system page size.
#[derive(Debug, Clone, Copy, PartialEq, Eq, Structural)]
pub struct MapSizeError {
    pub map_size: usize,
    pub page_size: usize,
}

/// Options and flags which can be used to configure how an environment is
/// opened.
#[derive(Debug, Clone, Copy)]
pub struct EnvOpenOptions {
    map_size: Option<usize>,
    max_readers: Option<u32>,
    max_dbs: Option<u32>,
    flags: u32,
}

impl View for EnvOpenOptions {
    type V = OpenSettings;

    closed spec fn view(&self) -> OpenSettings {
        OpenSettings {
            map_size: self.map_size,
            max_readers: self.max_readers,
            max_dbs: self.max_dbs,
            flags: self.flags,
        }
    }
}

/// No size limit, reader limit or database limit set, and no flags.
pub open spec fn default_settings() -> OpenSettings {
    OpenSettings { map_size: None, max_readers: None, max_dbs: None, flags: 0 }
}

/// What the environment is opened with: the options as set, with the
/// no-thread-local-storage flag added where reading transactions are to be
/// shared between threads; or, where a map size is set that is not a
/// multiple of the page size, that error.
pub open spec fn settings_outcome(
    options: OpenSettings,
    page_size: usize,
    no_tls: bool,
) -> Result<OpenSettings, MapSizeError> {
    match options.map_size {
        Some(size) if size % page_size != 0 => Err(MapSizeError { map_size: size, page_size }),
        _ => Ok(
            OpenSettings {
                flags: if no_tls {
                    options.flags | flag_bits(Flags::NoTls)
                } else {
                    options.flags
                },
                ..options
            },
        ),
    }
}

impl Default for EnvOpenOptions {
    fn default() -> (r: Self)
        ensures
            r@ == default_settings(),
    {
        EnvOpenOptions::new()
    }
}

impl EnvOpenOptions {
    pub fn new() -> (r: Self)
        ensures
            r@ == default_settings(),
    {
        EnvOpenOptions { map_size: None, max_readers: None, max_dbs: None, flags: 0 }
    }

    pub fn map_size(&mut self, size: usize) -> (r: &mut Self)
        ensures
            *final(self) == *final(r),
            r@ == (OpenSettings { map_size: Some(size), ..old(self)@ }),
    {
        self.map_size = Some(size);
        self
    }

    pub fn max_readers(&mut self, readers: u32) -> (r: &mut Self)
        ensures
            *final(self) == *final(r),
            r@ == (OpenSettings { max_readers: Some(readers), ..old(self)@ }),
    {
        self.max_readers = Some(readers);
        self
    }

    pub fn max_dbs(&mut self, dbs: u32) -> (r: &mut Self)
        ensures
            *final(self) == *final(r),
            r@ == (OpenSettings { max_dbs: Some(dbs), ..old(self)@ }),
    {
        self.max_dbs = Some(dbs);
        self
    }

    pub fn flags(&mut self, flags: Flags) -> (r: &mut Self)
        ensures
            *final(self) == *final(r),
            r@ == (OpenSettings { flags: old(self)@.flags | flag_bits(flags), ..old(self)@ }),
    {
        self.flags = self.flags | flags.bits();
        self
    }

    /// The settings to open an environment with, checked against the page
    /// size of the system.
    pub fn settings(&self, page_size: usize, no_tls: bool) -> (r: Result<OpenSettings, MapSizeError>)
        requires
            page_size > 0,
        ensures
            r == settings_outcome(self@, page_size, no_tls),
    {
        match self.map_size {
            Some(size) => {
                if size % page_size != 0 {
                    return Err(MapSizeError { map_size: size, page_size });
                }
            },
            None => {},
        }
        let flags: u32 = if no_tls {
            self.flags | Flags::NoTls.bits()
        } else {
            self.flags
        };
        Ok(
            OpenSettings {
                map_size: self.map_size,
                max_readers: self.max_readers,
                max_dbs: self.max_dbs,
                flags,
            },
        )
    }
}

/// The settings keep the options as they were set: the limits unchanged and
/// every flag that was set still set. Without shared reading transactions
/// the flags are exactly those set; with them, the no-thread-local-storage
/// flag is set in addition and no other flag changes. The settings are
/// refused exactly when a map size is set that is not a multiple of the page
/// size.
pub proof fn lemma_settings_keep_options(options: OpenSettings, page_size: usize, no_tls: bool)
    requires
        page_size > 0,
    ensures
        settings_outcome(options, page_size, no_tls) is Err <==> (options.map_size matches Some(
            size,
        ) && size % page_size != 0),
        settings_outcome(options, page_size, no_tls) matches Ok(s) ==> {
            &&& s.map_size == options.map_size
            &&& s.max_readers == options.max_readers
            &&& s.max_dbs == options.max_dbs
            &&& s.flags & options.flags == options.flags
            &&& !no_tls ==> s.flags == options.flags
            &&& no_tls ==> s.flags & flag_bits(Flags::NoTls) == flag_bits(Flags::NoTls)
            &&& no_tls ==> s.flags & !flag_bits(Flags::NoTls) == options.flags & !flag_bits(
                Flags::NoTls,
            )
        },
{
    let f = options.flags;
    let t: u32 = 0x200000;
    assert((f | t) & f == f) by (bit_vector);
    assert(f & f == f) by (bit_vector);
    assert((f | t) & t == t) by (bit_vector);
    assert((f | t) & !t == f & !t) by (bit_vector);
}

/// A flag set on the options is set in the options' flag word, whatever was
/// set before, and no flag set before is lost.
pub proof fn lemma_flag_is_kept(flags: u32, flag: Flags)
    ensures
        (flags | flag_bits(flag)) & flag_bits(flag) == flag_bits(flag),
        (flags | flag_bits(flag)) & flags == flags,
{
    let b = flag_bits(flag);
    assert((flags | b) & b == b) by (bit_vector);
    assert((flags | b) & flags == flags) by (bit_vector);
}

/// `std::path::PathBuf`, the path an environment was opened at.
#[verifier::external_type_specification]
#[verifier::external_body]
pub struct ExPathBuf(PathBuf);

/// What an environment is made of: the canonical path it was opened at and
/// the engine's handle, which closes the environment when it is dropped.
#[derive(Debug)]
struct EnvInner<H> {
    path: PathBuf,
    handle: H,
}

/// An opened environment, shared by every clone; the environment is closed
/// when the last clone is dropped.
#[derive(Debug)]
pub struct Env<H>(Arc<EnvInner<H>>);

impl<H> Env<H> {
    /// The path the environment was opened at.
    pub closed spec fn path_buf(&self) -> PathBuf {
        self.0.path
    }

    /// The engine's handle of the environment.
    pub closed spec fn handle_spec(&self) -> H {
        self.0.handle
    }

    /// An environment opened at `path` with the engine's `handle`.
    pub fn new(path: PathBuf, handle: H) -> (r: Self)
        ensures
            r.path_buf() == path,
            r.handle_spec() == handle,
    {
        Env(Arc::new(EnvInner { path, handle }))
    }

    #[must_use]
    pub fn path(&self) -> (r: &PathBuf)
        ensures
            *r == self.path_buf(),
    {
        &self.0.path
    }

    /// The engine's handle of the environment.
    pub fn handle(&self) -> (r: &H)
        ensures
            *r == self.handle_spec(),
    {
        &self.0.handle
    }
}

impl<H> Clone for Env<H> {
    fn clone(&self) -> (r: Self)
        ensures
            r.path_buf() == self.path_buf(),
            r.handle_spec() == self.handle_spec(),
    {
        Env(Arc::clone(&self.0))
    }
}

/// The engine's flag that compacts a copy of an environment.
pub const MDB_CP_COMPACT: u32 = 0x01;

/// The flags of a copy of an environment: compacting when asked to.
pub fn copy_flags(compact: bool) -> (r: u32)
    ensures
        r == (if compact { MDB_CP_COMPACT } else { 0 }),
{
    if compact {
        MDB_CP_COMPACT
    } else {
        0
    }
}

} // verus!
