//! The host: the arguments and the environment of the guest, and its
//! descriptors.
//!
//! Every operation on a descriptor first finds the resource that the number
//! names, and fails with `Badf` where it names none. The resource then
//! checks its rights.

use vstd::prelude::*;
use rand::Rng;
use crate::character_device::{same_shape, CharacterDevice};
use crate::fd_table::{named, FdTable, TableView};
use crate::native;
use crate::records::{Dirent, Event, Fdstat, Filestat, Prestat, Subscription};
use crate::string_representation::StringRepresentation;
use crate::types::{
    Advice, Dircookie, Errno, Exitcode, Fd, Fdflags, Filedelta, Filesize, Filetype, Fstflags,
    Lookupflags, Oflags, Riflags, Rights, Roflags, Sdflags, Siflags, Signal, Size, Timestamp,
    WasiResult, Whence,
};
use crate::wasi_fd::{may_open, may_seek, may_tell, permits, refusal, FdState, WasiFd};

verus! {

/// One more than the largest descriptor number that the host hands out.
pub const FD_LIMIT: u32 = 0x8000_0000;

/// The error type of getrandom.
#[verifier::external_type_specification]
#[verifier::external_body]
pub struct ExGetrandomError(getrandom::Error);

/// `getrandom::getrandom`: fills `buf` with random bytes from the system's
/// source, or reports an error. The buffer keeps its length; nothing is
/// claimed of its content.
#[verifier::external_body]
fn fill_random(buf: &mut Vec<u8>) -> (outcome: Result<(), getrandom::Error>)
    ensures
        final(buf)@.len() == old(buf)@.len(),
{
    getrandom::getrandom(buf.as_mut_slice())
}

/// `Rng::sample` of rand on `thread_rng()` with `Uniform::new(0, bound)`:
/// some number from 0 up to, and without, `bound`. Which one is left open.
#[verifier::external_body]
fn sample_below(bound: u32) -> (value: u32)
    requires
        bound > 0,
    ensures
        value < bound,
{
    rand::thread_rng().sample(rand::distributions::Uniform::new(0u32, bound))
}

/// What `random_get` returns for an outcome of the system's random source:
/// every failure of the source is an I/O error.
pub fn random_outcome(outcome: Result<(), getrandom::Error>) -> (result: WasiResult<()>)
    ensures
        result == if outcome.is_ok() {
            Ok::<(), Errno>(())
        } else {
            Err::<(), Errno>(Errno::Io)
        },
{
    match outcome {
        Ok(_) => Ok(()),
        Err(_) => Err(Errno::Io),
    }
}

/// What an operation on `fd` returns that needs the rights `required` and
/// that no resource supports: `Badf` where `fd` names nothing, `Notcapable`
/// where the rights are missing, and `Notsup` else.
pub open spec fn unsupported<T>(
    table: TableView,
    fd: Fd,
    required: native::rights,
) -> WasiResult<T> {
    if !table.is_open(fd) {
        Err(Errno::Badf)
    } else {
        refusal::<T>(permits(table.state(fd).rights, required))
    }
}

/// Defines how the descriptor table is initialized.
pub trait WasiFdInitializer<S: StringRepresentation> {
    /// The descriptors that are open when the guest starts, each with its
    /// resource. Where a number occurs twice, the later entry counts.
    fn initialize(self) -> Vec<(Fd, WasiFd<S>)>;
}

/// The descriptors of the standard streams: input as 0, output as 1 and
/// error as 2, each with every right and without flags.
pub fn standard_streams<S, I, O, E>(
    stdin: I,
    stdout: O,
    stderr: E,
) -> (entries: Vec<(Fd, WasiFd<S>)>) where
    S: StringRepresentation,
    I: CharacterDevice + 'static,
    O: CharacterDevice + 'static,
    E: CharacterDevice + 'static,
    ensures
        entries@.len() == 3,
        forall|i: int|
            0 <= i < 3 ==> {
                &&& (#[trigger] entries@[i]).0 == Fd(i as u32)
                &&& entries@[i].1.rights().bits == native::RIGHTS_ALL
                &&& entries@[i].1.rights_inheriting().bits == 0
                &&& entries@[i].1.flags().bits == 0
                &&& entries@[i].1.filetype() == Filetype::CharacterDevice
            },
{
    let flags = Fdflags::empty();
    let rights = Rights::all();
    let mut entries: Vec<(Fd, WasiFd<S>)> = Vec::new();
    entries.push((Fd(0), WasiFd::from_character_device(stdin, flags, rights)));
    entries.push((Fd(1), WasiFd::from_character_device(stdout, flags, rights)));
    entries.push((Fd(2), WasiFd::from_character_device(stderr, flags, rights)));
    entries
}

/// Host functions for WASI.
pub struct WasiHost<S: StringRepresentation> {
    arguments: Vec<S>,
    environment: Vec<S>,
    fds: FdTable<S>,
}

impl<S: StringRepresentation> WasiHost<S> {
    /// The host's invariant: that of its descriptor table. Every host that
    /// a constructor made has it, and every operation keeps it.
    pub closed spec fn wf(&self) -> bool {
        self.fds.wf()
    }

    /// The command-line arguments of the guest.
    pub closed spec fn arguments(&self) -> Seq<S> {
        self.arguments@
    }

    /// The environment of the guest.
    pub closed spec fn environment(&self) -> Seq<S> {
        self.environment@
    }

    /// The descriptors of the guest.
    pub closed spec fn table(&self) -> TableView {
        self.fds@
    }

    /// The resources of a host are those that a descriptor names.
    pub proof fn lemma_table_consistent(&self)
        requires
            self.wf(),
        ensures
            self.table().consistent(),
    {
        self.fds.lemma_consistent();
    }

    /// Whether the table holds the entries: a number is open exactly where
    /// an entry has it, and then names a resource in the state of the last
    /// entry that has it.
    pub open spec fn holds(table: TableView, entries: Seq<(Fd, WasiFd<S>)>) -> bool {
        &&& forall|fd: Fd|
            table.is_open(fd) <==> exists|i: int|
                0 <= i < entries.len() && (#[trigger] entries[i]).0 == fd
        &&& forall|i: int|
            #![trigger entries[i]]
            0 <= i < entries.len() && (forall|j: int|
                i < j < entries.len() ==> (#[trigger] entries[j]).0 != entries[i].0)
                ==> table.state(entries[i].0) == entries[i].1.state()
    }

    /// Creates a new WASI host with the descriptors that `fd_initializer`
    /// lists. Where it lists a number twice, the later entry counts.
    pub fn new<I: WasiFdInitializer<S>>(
        arguments: Vec<S>,
        environment: Vec<S>,
        fd_initializer: I,
    ) -> (host: Self)
        ensures
            host.wf(),
            host.arguments() == arguments@,
            host.environment() == environment@,
            exists|entries: Vec<(Fd, WasiFd<S>)>|
                #[trigger] call_ensures(I::initialize, (fd_initializer,), entries) && Self::holds(
                    host.table(),
                    entries@,
                ),
    {
        Self::with_fds(arguments, environment, fd_initializer.initialize())
    }

    /// Creates a new WASI host with the given descriptors. Where a number
    /// occurs twice, the later entry counts.
    pub fn with_fds(
        arguments: Vec<S>,
        environment: Vec<S>,
        entries: Vec<(Fd, WasiFd<S>)>,
    ) -> (host: Self)
        ensures
            host.wf(),
            host.arguments() == arguments@,
            host.environment() == environment@,
            Self::holds(host.table(), entries@),
    {
        let ghost all = entries@;
        let mut entries = entries;
        let mut fds: FdTable<S> = FdTable::new();
        let mut done: usize = 0;
        let total: usize = entries.len();
        while entries.len() > 0
            invariant
                fds.wf(),
                done + entries@.len() == total,
                total == all.len(),
                entries@ == all.subrange(done as int, total as int),
                Self::holds(fds@, all.subrange(0, done as int)),
            decreases entries@.len(),
        {
            let ghost before = fds@;
            let ghost seen = all.subrange(0, done as int);
            let (fd, resource) = entries.remove(0);
            proof {
                assert(all[done as int] == (fd, resource));
                assert(entries@ =~= all.subrange(done + 1, total as int));
                fds.lemma_consistent();
            }
            let displaced = fds.insert(fd, resource);
            proof {
                let more = all.subrange(0, done + 1);
                assert(more =~= seen.push((fd, resource)));
                assert forall|other: Fd| fds@.is_open(other) <==> exists|i: int|
                    0 <= i < more.len() && (#[trigger] more[i]).0 == other by {
                    if other == fd {
                        assert(more[done as int].0 == fd);
                    } else {
                        assert(fds@.is_open(other) == before.is_open(other));
                        if before.is_open(other) {
                            let i = choose|i: int| 0 <= i < seen.len()
                                && (#[trigger] seen[i]).0 == other;
                            assert(more[i].0 == other);
                        }
                        if exists|i: int| 0 <= i < more.len() && (#[trigger] more[i]).0 == other {
                            let i = choose|i: int| 0 <= i < more.len()
                                && (#[trigger] more[i]).0 == other;
                            assert(seen[i].0 == other);
                        }
                    }
                }
                assert forall|i: int|
                    #![trigger more[i]]
                    0 <= i < more.len() && (forall|j: int|
                        i < j < more.len() ==>
                            (#[trigger] more[j]).0 != more[i].0) implies fds@.state(
                        more[i].0,
                    ) == more[i].1.state() by {
                    if i < done {
                        let other = more[i].0;
                        assert(more[done as int].0 != other);
                        assert(seen[i] == more[i]);
                        assert forall|j: int| i < j < seen.len() implies (#[trigger] seen[j]).0
                            != seen[i].0 by {
                            assert(more[j] == seen[j]);
                        }
                        assert(before.is_open(other));
                        assert(before.names.remove(fd.0).contains_key(other.0));
                        assert(named(before.names.remove(fd.0), before.names[other.0]));
                        assert(before.resources.contains_key(before.names[other.0]));
                    }
                }
            }
            done = done + 1;
        }
        assert(all.subrange(0, done as int) =~= all);
        WasiHost { arguments, environment, fds }
    }

    /// Gets the command-line arguments.
    pub fn args_get(&self) -> (result: WasiResult<&[S]>)
        ensures
            result.is_ok(),
            result.unwrap()@ == self.arguments(),
    {
        Ok(self.arguments.as_slice())
    }

    /// Gets the environment.
    pub fn environ_get(&self) -> (result: WasiResult<&[S]>)
        ensures
            result.is_ok(),
            result.unwrap()@ == self.environment(),
    {
        Ok(self.environment.as_slice())
    }

    /// Provides file advisory information on a file descriptor.
    pub fn fd_advise(
        &self,
        fd: Fd,
        offset: Filesize,
        len: Filesize,
        advice: Advice,
    ) -> (result: WasiResult<()>)
        requires
            self.wf(),
        ensures
            result == unsupported::<()>(self.table(), fd, native::RIGHTS_FD_ADVISE),
    {
        match self.fds.get(fd) {
            Some(resource) => resource.advise(offset, len, advice),
            None => Err(Errno::Badf),
        }
    }

    /// Forces the allocation of space in a file.
    pub fn fd_allocate(&self, fd: Fd, offset: Filesize, len: Filesize) -> (result: WasiResult<()>)
        requires
            self.wf(),
        ensures
            result == unsupported::<()>(self.table(), fd, native::RIGHTS_FD_ALLOCATE),
    {
        match self.fds.get(fd) {
            Some(resource) => resource.allocate(offset, len),
            None => Err(Errno::Badf),
        }
    }

    /// Closes a file descriptor. The resource goes with its last descriptor.
    pub fn fd_close(&mut self, fd: Fd) -> (result: WasiResult<()>)
        requires
            old(self).wf(),
        ensures
            final(self).wf(),
            final(self).arguments() == old(self).arguments(),
            final(self).environment() == old(self).environment(),
            result == if old(self).table().is_open(fd) {
                Ok::<(), Errno>(())
            } else {
                Err::<(), Errno>(Errno::Badf)
            },
            final(self).table() == if result.is_ok() {
                old(self).table().close(fd)
            } else {
                old(self).table()
            },
    {
        match self.fds.remove(fd) {
            Ok(freed) => Ok(()),
            Err(error) => Err(error),
        }
    }

    /// Synchronizes the data of a file to disk.
    pub fn fd_datasync(&self, fd: Fd) -> (result: WasiResult<()>)
        requires
            self.wf(),
        ensures
            result == unsupported::<()>(self.table(), fd, native::RIGHTS_FD_DATASYNC),
    {
        match self.fds.get(fd) {
            Some(resource) => resource.datasync(),
            None => Err(Errno::Badf),
        }
    }

    /// Gets the attributes of a file descriptor.
    pub fn fd_fdstat_get(&self, fd: Fd) -> (result: WasiResult<Fdstat>)
        requires
            self.wf(),
        ensures
            result == if self.table().is_open(fd) {
                let state = self.table().state(fd);
                Ok::<Fdstat, Errno>(
                    Fdstat {
                        fs_filetype: state.filetype,
                        fs_flags: state.flags,
                        fs_rights_base: state.rights,
                        fs_rights_inheriting: state.rights_inheriting,
                    },
                )
            } else {
                Err::<Fdstat, Errno>(Errno::Badf)
            },
    {
        match self.fds.get(fd) {
            Some(resource) => resource.fdstat_get(),
            None => Err(Errno::Badf),
        }
    }

    /// Adjusts the flags associated with a file descriptor.
    pub fn fd_fdstat_set_flags(&mut self, fd: Fd, flags: Fdflags) -> (result: WasiResult<()>)
        requires
            old(self).wf(),
        ensures
            final(self).wf(),
            final(self).arguments() == old(self).arguments(),
            final(self).environment() == old(self).environment(),
            result == if !old(self).table().is_open(fd) {
                Err::<(), Errno>(Errno::Badf)
            } else if !permits(
                old(self).table().state(fd).rights,
                native::RIGHTS_FD_FDSTAT_SET_FLAGS,
            ) {
                Err::<(), Errno>(Errno::Notcapable)
            } else {
                Ok::<(), Errno>(())
            },
            final(self).table() == if result.is_ok() {
                old(self).table().update(fd, FdState { flags, ..old(self).table().state(fd) })
            } else {
                old(self).table()
            },
    {
        self.fds.set_flags(fd, flags)
    }

    /// Adjusts the rights associated with a file descriptor. This can only
    /// be used to remove rights: it fails with `Notcapable` where a right is
    /// asked for that the descriptor does not hold, and then changes nothing.
    pub fn fd_fdstat_set_rights(
        &mut self,
        fd: Fd,
        fs_rights_base: Rights,
        fs_rights_inheriting: Rights,
    ) -> (result: WasiResult<()>)
        requires
            old(self).wf(),
        ensures
            final(self).wf(),
            final(self).arguments() == old(self).arguments(),
            final(self).environment() == old(self).environment(),
            result == if !old(self).table().is_open(fd) {
                Err::<(), Errno>(Errno::Badf)
            } else if old(self).table().state(fd).narrow(
                fs_rights_base,
                fs_rights_inheriting,
            ).is_none() {
                Err::<(), Errno>(Errno::Notcapable)
            } else {
                Ok::<(), Errno>(())
            },
            final(self).table() == if result.is_ok() {
                old(self).table().update(
                    fd,
                    old(self).table().state(fd).narrow(
                        fs_rights_base,
                        fs_rights_inheriting,
                    ).unwrap(),
                )
            } else {
                old(self).table()
            },
    {
        self.fds.set_rights(fd, fs_rights_base, fs_rights_inheriting)
    }

    /// Returns the attributes of an open file.
    pub fn fd_filestat_get(&self, fd: Fd) -> (result: WasiResult<Filestat>)
        requires
            self.wf(),
        ensures
            result == unsupported::<Filestat>(self.table(), fd, native::RIGHTS_FD_FILESTAT_GET),
    {
        match self.fds.get(fd) {
            Some(resource) => resource.filestat_get(),
            None => Err(Errno::Badf),
        }
    }

    /// Adjusts the size of an open file.
    pub fn fd_filestat_set_size(&self, fd: Fd, size: Filesize) -> (result: WasiResult<()>)
        requires
            self.wf(),
        ensures
            result == unsupported::<()>(self.table(), fd, native::RIGHTS_FD_FILESTAT_SET_SIZE),
    {
        match self.fds.get(fd) {
            Some(resource) => resource.filestat_set_size(size),
            None => Err(Errno::Badf),
        }
    }

    /// Adjusts the timestamps of an open file or directory.
    pub fn fd_filestat_set_times(
        &self,
        fd: Fd,
        atim: Timestamp,
        mtim: Timestamp,
        fst_flags: Fstflags,
    ) -> (result: WasiResult<()>)
        requires
            self.wf(),
        ensures
            result == unsupported::<()>(self.table(), fd, native::RIGHTS_FD_FILESTAT_SET_TIMES),
    {
        match self.fds.get(fd) {
            Some(resource) => resource.filestat_set_times(atim, mtim, fst_flags),
            None => Err(Errno::Badf),
        }
    }

    /// Reads from a file descriptor at `offset`, without using and updating
    /// the descriptor's own offset.
    pub fn fd_pread(
        &self,
        fd: Fd,
        iovs: &mut Vec<Vec<u8>>,
        offset: Filesize,
    ) -> (result: WasiResult<Size>)
        requires
            self.wf(),
        ensures
            final(iovs)@ == old(iovs)@,
            result == unsupported::<Size>(
                self.table(),
                fd,
                native::RIGHTS_FD_READ | native::RIGHTS_FD_SEEK,
            ),
    {
        match self.fds.get(fd) {
            Some(resource) => resource.pread(iovs, offset),
            None => Err(Errno::Badf),
        }
    }

    /// Returns a description of a descriptor that was opened before the
    /// guest started.
    pub fn fd_prestat_get(&self, fd: Fd) -> (result: WasiResult<Prestat>)
        requires
            self.wf(),
        ensures
            result == if self.table().is_open(fd) {
                Err::<Prestat, Errno>(Errno::Notsup)
            } else {
                Err::<Prestat, Errno>(Errno::Badf)
            },
    {
        match self.fds.get(fd) {
            Some(resource) => resource.prestat_get(),
            None => Err(Errno::Badf),
        }
    }

    /// Returns the directory name of a descriptor that was opened before the
    /// guest started.
    pub fn fd_prestat_dir_name(&self, fd: Fd) -> (result: WasiResult<S>)
        requires
            self.wf(),
        ensures
            match result {
                Ok(_) => false,
                Err(error) => error == if self.table().is_open(fd) {
                    Errno::Notsup
                } else {
                    Errno::Badf
                },
            },
    {
        match self.fds.get(fd) {
            Some(resource) => resource.prestat_dir_name(),
            None => Err(Errno::Badf),
        }
    }

    /// Writes to a file descriptor at `offset`, without using and updating
    /// the descriptor's own offset.
    pub fn fd_pwrite(
        &self,
        fd: Fd,
        bufs: &Vec<Vec<u8>>,
        offset: Filesize,
    ) -> (result: WasiResult<Size>)
        requires
            self.wf(),
        ensures
            result == unsupported::<Size>(
                self.table(),
                fd,
                native::RIGHTS_FD_WRITE | native::RIGHTS_FD_SEEK,
            ),
    {
        match self.fds.get(fd) {
            Some(resource) => resource.pwrite(bufs, offset),
            None => Err(Errno::Badf),
        }
    }

    /// Reads from a file descriptor. Where the descriptor names nothing or
    /// lacks the right to read, no device is asked and the buffers stay as
    /// they are.
    pub fn fd_read(&self, fd: Fd, iovs: &mut Vec<Vec<u8>>) -> (result: WasiResult<Size>)
        requires
            self.wf(),
        ensures
            same_shape(old(iovs)@, final(iovs)@),
            !self.table().is_open(fd) ==> result == Err::<Size, Errno>(
                Errno::Badf,
            ) && final(iovs)@ == old(iovs)@,
            self.table().is_open(fd) && !permits(
                self.table().state(fd).rights,
                native::RIGHTS_FD_READ,
            ) ==> result == Err::<Size, Errno>(Errno::Notcapable) && final(iovs)@ == old(iovs)@,
    {
        match self.fds.get(fd) {
            Some(resource) => resource.read(iovs),
            None => Err(Errno::Badf),
        }
    }

    /// Reads one directory entry from a directory.
    pub fn fd_readdir(&self, fd: Fd, cookie: Dircookie) -> (result: WasiResult<Option<(Dirent, S)>>)
        requires
            self.wf(),
        ensures
            match result {
                Ok(_) => false,
                Err(error) => Err::<(), Errno>(error) == unsupported::<()>(
                    self.table(),
                    fd,
                    native::RIGHTS_FD_READDIR,
                ),
            },
    {
        match self.fds.get(fd) {
            Some(resource) => resource.readdir(cookie),
            None => Err(Errno::Badf),
        }
    }

    /// Makes `to` name the resource of `fd`, in place of the one it named.
    /// `fd` stays open, with the same resource. Both must be open, unless
    /// they are the same number: then nothing is asked and nothing changes.
    pub fn fd_renumber(&mut self, fd: Fd, to: Fd) -> (result: WasiResult<()>)
        requires
            old(self).wf(),
        ensures
            final(self).wf(),
            final(self).arguments() == old(self).arguments(),
            final(self).environment() == old(self).environment(),
            result == if fd == to || (old(self).table().is_open(fd) && old(self).table().is_open(
                to,
            )) {
                Ok::<(), Errno>(())
            } else {
                Err::<(), Errno>(Errno::Badf)
            },
            final(self).table() == if result.is_ok() && fd != to {
                old(self).table().renumber(fd, to)
            } else {
                old(self).table()
            },
    {
        match self.fds.renumber(fd, to) {
            Ok(displaced) => Ok(()),
            Err(error) => Err(error),
        }
    }

    /// Moves the offset of a file descriptor.
    pub fn fd_seek(
        &self,
        fd: Fd,
        offset: Filedelta,
        whence: Whence,
    ) -> (result: WasiResult<Filesize>)
        requires
            self.wf(),
        ensures
            result == if !self.table().is_open(fd) {
                Err::<Filesize, Errno>(Errno::Badf)
            } else {
                refusal::<Filesize>(may_seek(self.table().state(fd).rights, offset, whence))
            },
    {
        match self.fds.get(fd) {
            Some(resource) => resource.seek(offset, whence),
            None => Err(Errno::Badf),
        }
    }

    /// Synchronizes the data and metadata of a file to disk.
    pub fn fd_sync(&self, fd: Fd) -> (result: WasiResult<()>)
        requires
            self.wf(),
        ensures
            result == unsupported::<()>(self.table(), fd, native::RIGHTS_FD_SYNC),
    {
        match self.fds.get(fd) {
            Some(resource) => resource.sync(),
            None => Err(Errno::Badf),
        }
    }

    /// Returns the current offset of a file descriptor.
    pub fn fd_tell(&self, fd: Fd) -> (result: WasiResult<Filesize>)
        requires
            self.wf(),
        ensures
            result == if !self.table().is_open(fd) {
                Err::<Filesize, Errno>(Errno::Badf)
            } else {
                refusal::<Filesize>(may_tell(self.table().state(fd).rights))
            },
    {
        match self.fds.get(fd) {
            Some(resource) => resource.tell(),
            None => Err(Errno::Badf),
        }
    }

    /// Writes to a file descriptor. Where the descriptor names nothing or
    /// lacks the right to write, no device is asked.
    pub fn fd_write(&self, fd: Fd, bufs: &Vec<Vec<u8>>) -> (result: WasiResult<Size>)
        requires
            self.wf(),
        ensures
            !self.table().is_open(fd) ==> result == Err::<Size, Errno>(Errno::Badf),
            self.table().is_open(fd) && !permits(
                self.table().state(fd).rights,
                native::RIGHTS_FD_WRITE,
            ) ==> result == Err::<Size, Errno>(Errno::Notcapable),
    {
        match self.fds.get(fd) {
            Some(resource) => resource.write(bufs),
            None => Err(Errno::Badf),
        }
    }

    /// Creates a directory.
    pub fn path_create_directory(&self, fd: Fd, path: &S) -> (result: WasiResult<()>)
        requires
            self.wf(),
        ensures
            result == unsupported::<()>(self.table(), fd, native::RIGHTS_PATH_CREATE_DIRECTORY),
    {
        match self.fds.get(fd) {
            Some(resource) => resource.path_create_directory(path),
            None => Err(Errno::Badf),
        }
    }

    /// Returns the attributes of a file or directory.
    pub fn path_filestat_get(
        &self,
        fd: Fd,
        flags: Lookupflags,
        path: &S,
    ) -> (result: WasiResult<Filestat>)
        requires
            self.wf(),
        ensures
            result == unsupported::<Filestat>(self.table(), fd, native::RIGHTS_PATH_FILESTAT_GET),
    {
        match self.fds.get(fd) {
            Some(resource) => resource.path_filestat_get(flags, path),
            None => Err(Errno::Badf),
        }
    }

    /// Adjusts the timestamps of a file or directory.
    pub fn path_filestat_set_times(
        &self,
        fd: Fd,
        flags: Lookupflags,
        path: &S,
        atim: Timestamp,
        mtim: Timestamp,
        fst_flags: Fstflags,
    ) -> (result: WasiResult<()>)
        requires
            self.wf(),
        ensures
            result == unsupported::<()>(self.table(), fd, native::RIGHTS_PATH_FILESTAT_SET_TIMES),
    {
        match self.fds.get(fd) {
            Some(resource) => resource.path_filestat_set_times(flags, path, atim, mtim, fst_flags),
            None => Err(Errno::Badf),
        }
    }

    /// Opens a file or directory below `fd`, and returns its resource. The
    /// resource gets its number from `allocate_fd`.
    pub fn path_open(
        &self,
        fd: Fd,
        dirflags: Lookupflags,
        path: &S,
        oflags: Oflags,
        fs_rights_base: Rights,
        fs_rights_inheriting: Rights,
        fdflags: Fdflags,
    ) -> (result: WasiResult<WasiFd<S>>)
        requires
            self.wf(),
        ensures
            match result {
                Ok(_) => false,
                Err(error) => error == if !self.table().is_open(fd) {
                    Errno::Badf
                } else if may_open(
                    self.table().state(fd).rights,
                    self.table().state(fd).rights_inheriting,
                    oflags,
                    fs_rights_base,
                    fs_rights_inheriting,
                    fdflags,
                ) {
                    Errno::Notsup
                } else {
                    Errno::Notcapable
                },
            },
    {
        match self.fds.get(fd) {
            Some(resource) => resource.path_open(
                dirflags,
                path,
                oflags,
                fs_rights_base,
                fs_rights_inheriting,
                fdflags,
            ),
            None => Err(Errno::Badf),
        }
    }

    /// Gives `resource` the descriptor number `candidate`, unless that number
    /// is open already: then nothing changes and the resource comes back.
    pub fn allocate_fd_at(
        &mut self,
        candidate: Fd,
        resource: WasiFd<S>,
    ) -> (result: Result<Fd, WasiFd<S>>)
        requires
            old(self).wf(),
        ensures
            final(self).wf(),
            final(self).arguments() == old(self).arguments(),
            final(self).environment() == old(self).environment(),
            match result {
                Ok(fd) => {
                    &&& fd == candidate
                    &&& !old(self).table().is_open(candidate)
                    &&& final(self).table().state(fd) == resource.state()
                    &&& exists|id: nat|
                        !old(self).table().resources.contains_key(id) && final(self).table()
                            == #[trigger] old(self).table().open(candidate, id, resource.state())
                },
                Err(back) => {
                    &&& old(self).table().is_open(candidate)
                    &&& back == resource
                    &&& final(self).table() == old(self).table()
                },
            },
    {
        self.fds.allocate_at(candidate, resource)
    }

    /// Draws a descriptor number below `FD_LIMIT` at random and gives it to
    /// `resource`, unless that number is open already: then nothing changes
    /// and the resource comes back, for the caller to try again. While no
    /// number below the limit is open, the first draw succeeds.
    pub fn allocate_fd(&mut self, resource: WasiFd<S>) -> (result: Result<Fd, WasiFd<S>>)
        requires
            old(self).wf(),
        ensures
            final(self).wf(),
            final(self).arguments() == old(self).arguments(),
            final(self).environment() == old(self).environment(),
            match result {
                Ok(fd) => {
                    &&& fd.0 < FD_LIMIT
                    &&& !old(self).table().is_open(fd)
                    &&& final(self).table().state(fd) == resource.state()
                    &&& exists|id: nat|
                        !old(self).table().resources.contains_key(id) && final(self).table()
                            == #[trigger] old(self).table().open(fd, id, resource.state())
                },
                Err(back) => {
                    &&& back == resource
                    &&& final(self).table() == old(self).table()
                    &&& exists|taken: Fd|
                        taken.0 < FD_LIMIT && #[trigger] old(self).table().is_open(taken)
                },
            },
    {
        let candidate = Fd(sample_below(FD_LIMIT));
        self.allocate_fd_at(candidate, resource)
    }

    /// Creates a hard link. Both descriptors are looked up in one step:
    /// where either names nothing, the whole operation fails with `Badf`.
    pub fn path_link(
        &self,
        old_fd: Fd,
        old_flags: Lookupflags,
        old_path: &S,
        new_fd: Fd,
        new_path: &S,
    ) -> (result: WasiResult<()>)
        requires
            self.wf(),
        ensures
            result == if !(self.table().is_open(old_fd) && self.table().is_open(new_fd)) {
                Err::<(), Errno>(Errno::Badf)
            } else {
                refusal::<()>(
                    permits(self.table().state(old_fd).rights, native::RIGHTS_PATH_LINK_SOURCE)
                        && permits(
                        self.table().state(new_fd).rights,
                        native::RIGHTS_PATH_LINK_TARGET,
                    ),
                )
            },
    {
        match self.fds.get_pair(old_fd, new_fd) {
            Some((source, target)) => source.path_link(old_flags, old_path, target, new_path),
            None => Err(Errno::Badf),
        }
    }

    /// Reads the contents of a symbolic link.
    pub fn path_readlink(&self, fd: Fd, path: &S) -> (result: WasiResult<S>)
        requires
            self.wf(),
        ensures
            match result {
                Ok(_) => false,
                Err(error) => Err::<(), Errno>(error) == unsupported::<()>(
                    self.table(),
                    fd,
                    native::RIGHTS_PATH_READLINK,
                ),
            },
    {
        match self.fds.get(fd) {
            Some(resource) => resource.path_readlink(path),
            None => Err(Errno::Badf),
        }
    }

    /// Removes a directory.
    pub fn path_remove_directory(&self, fd: Fd, path: &S) -> (result: WasiResult<()>)
        requires
            self.wf(),
        ensures
            result == unsupported::<()>(self.table(), fd, native::RIGHTS_PATH_REMOVE_DIRECTORY),
    {
        match self.fds.get(fd) {
            Some(resource) => resource.path_remove_directory(path),
            None => Err(Errno::Badf),
        }
    }

    /// Renames a file or directory. Both descriptors are looked up in one
    /// step: where either names nothing, the whole operation fails with
    /// `Badf`.
    pub fn path_rename(
        &self,
        fd: Fd,
        old_path: &S,
        new_fd: Fd,
        new_path: &S,
    ) -> (result: WasiResult<()>)
        requires
            self.wf(),
        ensures
            result == if !(self.table().is_open(fd) && self.table().is_open(new_fd)) {
                Err::<(), Errno>(Errno::Badf)
            } else {
                refusal::<()>(
                    permits(self.table().state(fd).rights, native::RIGHTS_PATH_RENAME_SOURCE)
                        && permits(
                        self.table().state(new_fd).rights,
                        native::RIGHTS_PATH_RENAME_TARGET,
                    ),
                )
            },
    {
        match self.fds.get_pair(fd, new_fd) {
            Some((source, target)) => source.path_rename(old_path, target, new_path),
            None => Err(Errno::Badf),
        }
    }

    /// Creates a symbolic link.
    pub fn path_symlink(&self, old_path: &S, fd: Fd, new_path: &S) -> (result: WasiResult<()>)
        requires
            self.wf(),
        ensures
            result == unsupported::<()>(self.table(), fd, native::RIGHTS_PATH_SYMLINK),
    {
        match self.fds.get(fd) {
            Some(resource) => resource.path_symlink(old_path, new_path),
            None => Err(Errno::Badf),
        }
    }

    /// Unlinks a file.
    pub fn path_unlink_file(&self, fd: Fd, path: &S) -> (result: WasiResult<()>)
        requires
            self.wf(),
        ensures
            result == unsupported::<()>(self.table(), fd, native::RIGHTS_PATH_UNLINK_FILE),
    {
        match self.fds.get(fd) {
            Some(resource) => resource.path_unlink_file(path),
            None => Err(Errno::Badf),
        }
    }

    /// Concurrently polls for the occurrence of a set of events. The host
    /// has no events to wait for.
    pub fn poll_oneoff(&self, subscriptions: &Vec<Subscription>) -> (result: WasiResult<Vec<Event>>)
        ensures
            result is Err,
            result->Err_0 == Errno::Nosys,
    {
        Err(Errno::Nosys)
    }

    /// Terminates the process: hands the exit code up as the one way out.
    pub fn proc_exit(&self, rval: Exitcode) -> (result: Result<std::convert::Infallible, Exitcode>)
        ensures
            result == Err::<std::convert::Infallible, Exitcode>(rval),
    {
        Err(rval)
    }

    /// Sends a signal to the process of the calling thread.
    pub fn proc_raise(&self, sig: Signal) -> (result: WasiResult<()>)
        ensures
            result == Err::<(), Errno>(Errno::Nosys),
    {
        Err(Errno::Nosys)
    }

    /// Writes random data into a buffer. The buffer keeps its length. Fails
    /// with an I/O error where the system's random source fails.
    pub fn random_get(&self, buf: &mut Vec<u8>) -> (result: WasiResult<()>)
        ensures
            final(buf)@.len() == old(buf)@.len(),
            result == Ok::<(), Errno>(()) || result == Err::<(), Errno>(Errno::Io),
    {
        let outcome = fill_random(buf);
        random_outcome(outcome)
    }

    /// Receives a message from a socket.
    pub fn sock_recv(
        &self,
        fd: Fd,
        ri_data: &mut Vec<Vec<u8>>,
        ri_flags: Riflags,
    ) -> (result: WasiResult<(Size, Roflags)>)
        requires
            self.wf(),
        ensures
            final(ri_data)@ == old(ri_data)@,
            result == unsupported::<(Size, Roflags)>(self.table(), fd, native::RIGHTS_FD_READ),
    {
        match self.fds.get(fd) {
            Some(resource) => resource.sock_recv(ri_data, ri_flags),
            None => Err(Errno::Badf),
        }
    }

    /// Sends a message on a socket.
    pub fn sock_send(
        &self,
        fd: Fd,
        si_data: &Vec<Vec<u8>>,
        si_flags: Siflags,
    ) -> (result: WasiResult<Size>)
        requires
            self.wf(),
        ensures
            result == unsupported::<Size>(self.table(), fd, native::RIGHTS_FD_WRITE),
    {
        match self.fds.get(fd) {
            Some(resource) => resource.sock_send(si_data, si_flags),
            None => Err(Errno::Badf),
        }
    }

    /// Shuts down socket send and receive channels.
    pub fn sock_shutdown(&self, fd: Fd, how: Sdflags) -> (result: WasiResult<()>)
        requires
            self.wf(),
        ensures
            result == unsupported::<()>(self.table(), fd, native::RIGHTS_SOCK_SHUTDOWN),
    {
        match self.fds.get(fd) {
            Some(resource) => resource.sock_shutdown(how),
            None => Err(Errno::Badf),
        }
    }

}

} // verus!
