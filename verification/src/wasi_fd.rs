//! A file descriptor's resource, and the rights that guard it.
//!
//! Every operation first checks that the descriptor's rights hold what the
//! operation needs. Without them it fails with `Notcapable` and does nothing
//! else. Rights are only ever narrowed.

use std::marker::PhantomData;
use vstd::prelude::*;
use crate::character_device::{same_shape, CharacterDevice};
use crate::native;
use crate::records::{Dirent, Fdstat, Filestat, Prestat};
use crate::string_representation::StringRepresentation;
use crate::types::{
    Advice, Dircookie, Errno, Fdflags, Filedelta, Filesize, Filetype, Fstflags, Lookupflags,
    Oflags, Riflags, Rights, Roflags, Sdflags, Siflags, Size, Timestamp, WasiResult, Whence,
};
use crate::value::WasiValue;

verus! {

/// The kinds of resources that a descriptor can stand for.
enum WasiFdInner {
    CharacterDevice(Box<dyn CharacterDevice>),
}

/// A WASI file descriptor.
pub struct WasiFd<S> {
    inner: WasiFdInner,
    flags: Fdflags,
    rights: Rights,
    rights_inheriting: Rights,
    _phantom: PhantomData<S>,
}

/// What the capability model sees of a descriptor's resource.
pub struct FdState {
    /// The type of the resource.
    pub filetype: Filetype,
    /// The descriptor's flags.
    pub flags: Fdflags,
    /// The operations that the descriptor itself may perform.
    pub rights: Rights,
    /// The ceiling on the rights of descriptors derived from this one.
    pub rights_inheriting: Rights,
}

impl FdState {
    /// The state after the rights were narrowed to the given sets, or
    /// nothing where a set asks for a right that is not held.
    pub open spec fn narrow(self, rights: Rights, rights_inheriting: Rights) -> Option<FdState> {
        if self.rights.has(rights) && self.rights_inheriting.has(rights_inheriting) {
            Some(FdState { rights, rights_inheriting, ..self })
        } else {
            None
        }
    }
}

/// Holding every right of a set is transitive.
pub proof fn lemma_rights_transitive(all: native::rights, some: native::rights, few: native::rights)
    by (bit_vector)
    ensures
        all & some == some && some & few == few ==> all & few == few,
{
}

/// Narrowing succeeds exactly where neither set asks for a right that is
/// not held, and then gives the sets that were asked for.
pub proof fn lemma_narrow(state: FdState, rights: Rights, rights_inheriting: Rights)
    ensures
        state.narrow(rights, rights_inheriting) is Some <==> state.rights.has(rights)
            && state.rights_inheriting.has(rights_inheriting),
        state.narrow(rights, rights_inheriting) matches Some(next) ==> next.rights == rights
            && next.rights_inheriting == rights_inheriting && next.flags == state.flags
            && next.filetype == state.filetype,
{
}

/// A right that was given up stays given up: after the rights were narrowed
/// to `rights`, asking for any right outside `rights` fails, also where the
/// descriptor held that right before.
pub proof fn lemma_narrow_is_final(
    state: FdState,
    rights: Rights,
    rights_inheriting: Rights,
    later: Rights,
    later_inheriting: Rights,
)
    requires
        state.narrow(rights, rights_inheriting) is Some,
        !rights.has(later),
    ensures
        state.narrow(rights, rights_inheriting).unwrap().narrow(later, later_inheriting) is None,
{
}

/// No chain of narrowings widens: what two narrowings in a row leave was
/// held at the start.
pub proof fn lemma_narrow_never_widens(
    state: FdState,
    rights: Rights,
    rights_inheriting: Rights,
    later: Rights,
    later_inheriting: Rights,
)
    requires
        state.narrow(rights, rights_inheriting) is Some,
        state.narrow(rights, rights_inheriting).unwrap().narrow(later, later_inheriting) is Some,
    ensures
        state.rights.has(later),
        state.rights_inheriting.has(later_inheriting),
{
    lemma_rights_transitive(state.rights.bits, rights.bits, later.bits);
    lemma_rights_transitive(
        state.rights_inheriting.bits,
        rights_inheriting.bits,
        later_inheriting.bits,
    );
}

/// The state after an attempt to narrow: the narrowed state, or the state
/// as it was where the attempt fails.
pub open spec fn attempt(state: FdState, rights: Rights, rights_inheriting: Rights) -> FdState {
    match state.narrow(rights, rights_inheriting) {
        Some(next) => next,
        None => state,
    }
}

/// Two attempts to narrow, in either order: the rights that are left were
/// held at the start, and they are the rights of the last attempt that went
/// through, so no attempt that went through is undone by widening.
pub proof fn lemma_narrow_in_either_order(
    state: FdState,
    one: Rights,
    one_inheriting: Rights,
    other: Rights,
    other_inheriting: Rights,
)
    ensures
        ({
            let left = attempt(attempt(state, one, one_inheriting), other, other_inheriting);
            &&& state.rights.has(left.rights)
            &&& state.rights_inheriting.has(left.rights_inheriting)
            &&& left.rights == other || left.rights == one || left == state
            &&& left.rights == other ==> one.has(other) || state.narrow(one, one_inheriting) is None
        }),
        ({
            let left = attempt(attempt(state, other, other_inheriting), one, one_inheriting);
            &&& state.rights.has(left.rights)
            &&& state.rights_inheriting.has(left.rights_inheriting)
            &&& left.rights == one || left.rights == other || left == state
            &&& left.rights == one ==> other.has(one) || state.narrow(
                other,
                other_inheriting,
            ) is None
        }),
{
    lemma_rights_transitive(state.rights.bits, one.bits, other.bits);
    lemma_rights_transitive(state.rights.bits, other.bits, one.bits);
    lemma_rights_transitive(
        state.rights_inheriting.bits,
        one_inheriting.bits,
        other_inheriting.bits,
    );
    lemma_rights_transitive(
        state.rights_inheriting.bits,
        other_inheriting.bits,
        one_inheriting.bits,
    );
    lemma_rights_reflexive(state.rights.bits);
    lemma_rights_reflexive(state.rights_inheriting.bits);
    lemma_rights_reflexive(one.bits);
    lemma_rights_reflexive(other.bits);
}

/// A set holds every right of itself.
pub proof fn lemma_rights_reflexive(all: native::rights)
    by (bit_vector)
    ensures
        all & all == all,
{
}

/// Whether `actual` holds every right in `required`.
pub open spec fn permits(actual: Rights, required: native::rights) -> bool {
    actual.bits & required == required
}

/// What an operation that no character device supports returns: that the
/// rights are missing, or else that it is not supported.
pub open spec fn refusal<T>(permitted: bool) -> WasiResult<T> {
    if permitted {
        Err(Errno::Notsup)
    } else {
        Err(Errno::Notcapable)
    }
}

/// Whether the rights allow a seek by `offset` relative to `whence`. The
/// right to tell stands in for the right to seek where the seek moves nothing.
pub open spec fn may_seek(rights: Rights, offset: Filedelta, whence: Whence) -> bool {
    ||| permits(rights, native::RIGHTS_FD_SEEK)
    ||| (whence == Whence::Cur && offset.0 == 0 && permits(rights, native::RIGHTS_FD_TELL))
}

/// Whether the rights allow to ask for the current offset. The right to seek
/// stands in for the right to tell.
pub open spec fn may_tell(rights: Rights) -> bool {
    permits(rights, native::RIGHTS_FD_TELL) || permits(rights, native::RIGHTS_FD_SEEK)
}

/// Whether a descriptor with `rights` and the ceiling `rights_inheriting` may
/// open a path with the given flags, asking for the given rights.
pub open spec fn may_open(
    rights: Rights,
    rights_inheriting: Rights,
    oflags: Oflags,
    fs_rights_base: Rights,
    fs_rights_inheriting: Rights,
    fdflags: Fdflags,
) -> bool {
    &&& permits(rights, native::RIGHTS_PATH_OPEN)
    &&& fdflags.bits & native::FDFLAGS_DSYNC == native::FDFLAGS_DSYNC ==> permits(
        rights,
        native::RIGHTS_FD_DATASYNC,
    ) || permits(rights, native::RIGHTS_FD_SYNC)
    &&& fdflags.bits & native::FDFLAGS_RSYNC == native::FDFLAGS_RSYNC ==> permits(
        rights,
        native::RIGHTS_FD_SYNC,
    )
    &&& oflags.bits & native::OFLAGS_CREAT == native::OFLAGS_CREAT ==> permits(
        rights,
        native::RIGHTS_PATH_CREATE_FILE,
    )
    &&& oflags.bits & native::OFLAGS_TRUNC == native::OFLAGS_TRUNC ==> permits(
        rights,
        native::RIGHTS_PATH_FILESTAT_SET_SIZE,
    )
    &&& rights_inheriting.has(fs_rights_base)
    &&& rights_inheriting.has(fs_rights_inheriting)
}

impl<S: StringRepresentation> WasiFd<S> {
    /// The descriptor's flags.
    pub closed spec fn flags(&self) -> Fdflags {
        self.flags
    }

    /// The operations that the descriptor itself may perform.
    pub closed spec fn rights(&self) -> Rights {
        self.rights
    }

    /// The ceiling on the rights of descriptors derived from this one.
    pub closed spec fn rights_inheriting(&self) -> Rights {
        self.rights_inheriting
    }

    /// The type of the resource.
    pub closed spec fn filetype(&self) -> Filetype {
        match self.inner {
            WasiFdInner::CharacterDevice(_) => Filetype::CharacterDevice,
        }
    }

    /// What the capability model sees of the descriptor.
    pub open spec fn state(&self) -> FdState {
        FdState {
            filetype: self.filetype(),
            flags: self.flags(),
            rights: self.rights(),
            rights_inheriting: self.rights_inheriting(),
        }
    }

    /// Creates a WASI file descriptor from a character device. Descriptors
    /// derived from it inherit no rights.
    pub fn from_character_device<C: CharacterDevice + 'static>(
        character_device: C,
        flags: Fdflags,
        rights: Rights,
    ) -> (fd: Self)
        ensures
            fd.flags() == flags,
            fd.rights() == rights,
            fd.rights_inheriting().bits == 0,
            fd.filetype() == Filetype::CharacterDevice,
    {
        WasiFd {
            inner: WasiFdInner::CharacterDevice(Box::new(character_device)),
            flags,
            rights,
            rights_inheriting: Rights::empty(),
            _phantom: PhantomData,
        }
    }

    /// Checks that the descriptor holds the `required` rights.
    pub fn check_rights(&self, required: Rights) -> (result: WasiResult<()>)
        ensures
            result == if self.rights().has(required) {
                Ok::<(), Errno>(())
            } else {
                Err::<(), Errno>(Errno::Notcapable)
            },
    {
        Self::check_rights_with(self.rights, required)
    }

    /// Checks that `actual` holds the `required` rights.
    pub fn check_rights_with(actual: Rights, required: Rights) -> (result: WasiResult<()>)
        ensures
            result == if actual.has(required) {
                Ok::<(), Errno>(())
            } else {
                Err::<(), Errno>(Errno::Notcapable)
            },
    {
        if actual.contains(required) {
            Ok(())
        } else {
            Err(Errno::Notcapable)
        }
    }

    /// The type of the resource.
    pub fn get_filetype(&self) -> (filetype: Filetype)
        ensures
            filetype == self.filetype(),
    {
        match self.inner {
            WasiFdInner::CharacterDevice(_) => Filetype::CharacterDevice,
        }
    }

    /// Provides file advisory information.
    pub fn advise(
        &self,
        offset: Filesize,
        len: Filesize,
        advice: Advice,
    ) -> (result: WasiResult<()>)
        ensures
            result == refusal::<()>(permits(self.rights(), native::RIGHTS_FD_ADVISE)),
    {
        self.check_rights(Rights::fd_advise())?;
        match self.inner {
            WasiFdInner::CharacterDevice(_) => Err(Errno::Notsup),
        }
    }

    /// Forces the allocation of space in a file.
    pub fn allocate(&self, offset: Filesize, len: Filesize) -> (result: WasiResult<()>)
        ensures
            result == refusal::<()>(permits(self.rights(), native::RIGHTS_FD_ALLOCATE)),
    {
        self.check_rights(Rights::fd_allocate())?;
        match self.inner {
            WasiFdInner::CharacterDevice(_) => Err(Errno::Notsup),
        }
    }

    /// Synchronizes the data of a file to disk.
    pub fn datasync(&self) -> (result: WasiResult<()>)
        ensures
            result == refusal::<()>(permits(self.rights(), native::RIGHTS_FD_DATASYNC)),
    {
        self.check_rights(Rights::fd_datasync())?;
        match self.inner {
            WasiFdInner::CharacterDevice(_) => Err(Errno::Notsup),
        }
    }

    /// Gets the attributes of the descriptor. No right is needed for that.
    pub fn fdstat_get(&self) -> (result: WasiResult<Fdstat>)
        ensures
            result == Ok::<Fdstat, Errno>(
                Fdstat {
                    fs_filetype: self.filetype(),
                    fs_flags: self.flags(),
                    fs_rights_base: self.rights(),
                    fs_rights_inheriting: self.rights_inheriting(),
                },
            ),
    {
        Ok(
            Fdstat {
                fs_filetype: self.get_filetype(),
                fs_flags: self.flags,
                fs_rights_base: self.rights,
                fs_rights_inheriting: self.rights_inheriting,
            },
        )
    }

    /// Replaces the flags of the descriptor.
    pub fn fdstat_set_flags(&mut self, flags: Fdflags) -> (result: WasiResult<()>)
        ensures
            result == if permits(old(self).rights(), native::RIGHTS_FD_FDSTAT_SET_FLAGS) {
                Ok::<(), Errno>(())
            } else {
                Err::<(), Errno>(Errno::Notcapable)
            },
            final(self).state() == if result.is_ok() {
                (FdState { flags, ..old(self).state() })
            } else {
                old(self).state()
            },
    {
        self.check_rights(Rights::fd_fdstat_set_flags())?;
        self.flags = flags;
        Ok(())
    }

    /// Narrows the rights of the descriptor. Succeeds exactly when neither
    /// set asks for a right that the descriptor does not hold already; a
    /// failure leaves the rights as they were.
    pub fn fdstat_set_rights(&mut self, rights: Rights, rights_inheriting: Rights) -> (result:
        WasiResult<()>)
        ensures
            result == if old(self).rights().has(rights) && old(self).rights_inheriting().has(
                rights_inheriting,
            ) {
                Ok::<(), Errno>(())
            } else {
                Err::<(), Errno>(Errno::Notcapable)
            },
            final(self).state() == if result.is_ok() {
                (FdState { rights, rights_inheriting, ..old(self).state() })
            } else {
                old(self).state()
            },
    {
        if !self.rights.contains(rights) || !self.rights_inheriting.contains(rights_inheriting) {
            return Err(Errno::Notcapable);
        }
        self.rights = rights;
        self.rights_inheriting = rights_inheriting;
        Ok(())
    }

    /// Returns the attributes of an open file.
    pub fn filestat_get(&self) -> (result: WasiResult<Filestat>)
        ensures
            result == refusal::<Filestat>(permits(self.rights(), native::RIGHTS_FD_FILESTAT_GET)),
    {
        self.check_rights(Rights::fd_filestat_get())?;
        match self.inner {
            WasiFdInner::CharacterDevice(_) => Err(Errno::Notsup),
        }
    }

    /// Adjusts the size of an open file.
    pub fn filestat_set_size(&self, size: Filesize) -> (result: WasiResult<()>)
        ensures
            result == refusal::<()>(permits(self.rights(), native::RIGHTS_FD_FILESTAT_SET_SIZE)),
    {
        self.check_rights(Rights::fd_filestat_set_size())?;
        match self.inner {
            WasiFdInner::CharacterDevice(_) => Err(Errno::Notsup),
        }
    }

    /// Adjusts the timestamps of an open file or directory.
    pub fn filestat_set_times(
        &self,
        atim: Timestamp,
        mtim: Timestamp,
        fst_flags: Fstflags,
    ) -> (result: WasiResult<()>)
        ensures
            result == refusal::<()>(permits(self.rights(), native::RIGHTS_FD_FILESTAT_SET_TIMES)),
    {
        self.check_rights(Rights::fd_filestat_set_times())?;
        match self.inner {
            WasiFdInner::CharacterDevice(_) => Err(Errno::Notsup),
        }
    }

    /// Reads from the descriptor at `offset`, without moving its own offset.
    /// Needs both the right to read and the right to seek.
    pub fn pread(&self, iovs: &mut Vec<Vec<u8>>, offset: Filesize) -> (result: WasiResult<Size>)
        ensures
            final(iovs)@ == old(iovs)@,
            result == refusal::<Size>(
                permits(self.rights(), native::RIGHTS_FD_READ | native::RIGHTS_FD_SEEK),
            ),
    {
        self.check_rights(Rights::fd_read().union(Rights::fd_seek()))?;
        match self.inner {
            WasiFdInner::CharacterDevice(_) => Err(Errno::Notsup),
        }
    }

    /// Returns a description of the descriptor, if it was opened before the
    /// guest started.
    pub fn prestat_get(&self) -> (result: WasiResult<Prestat>)
        ensures
            result == Err::<Prestat, Errno>(Errno::Notsup),
    {
        match self.inner {
            WasiFdInner::CharacterDevice(_) => Err(Errno::Notsup),
        }
    }

    /// Returns the directory name of a descriptor that was opened before the
    /// guest started.
    pub fn prestat_dir_name(&self) -> (result: WasiResult<S>)
        ensures
            match result {
                Ok(_) => false,
                Err(error) => error == Errno::Notsup,
            },
    {
        match self.inner {
            WasiFdInner::CharacterDevice(_) => Err(Errno::Notsup),
        }
    }

    /// Writes to the descriptor at `offset`, without moving its own offset.
    /// Needs both the right to write and the right to seek.
    pub fn pwrite(&self, bufs: &Vec<Vec<u8>>, offset: Filesize) -> (result: WasiResult<Size>)
        ensures
            result == refusal::<Size>(
                permits(self.rights(), native::RIGHTS_FD_WRITE | native::RIGHTS_FD_SEEK),
            ),
    {
        self.check_rights(Rights::fd_write().union(Rights::fd_seek()))?;
        match self.inner {
            WasiFdInner::CharacterDevice(_) => Err(Errno::Notsup),
        }
    }

    /// Reads from the descriptor. Without the right to read the device is
    /// not asked, and the buffers stay as they are.
    pub fn read(&self, iovs: &mut Vec<Vec<u8>>) -> (result: WasiResult<Size>)
        ensures
            same_shape(old(iovs)@, final(iovs)@),
            !permits(self.rights(), native::RIGHTS_FD_READ) ==> result == Err::<Size, Errno>(
                Errno::Notcapable,
            ) && final(iovs)@ == old(iovs)@,
    {
        self.check_rights(Rights::fd_read())?;
        match &self.inner {
            WasiFdInner::CharacterDevice(device) => device.read(iovs),
        }
    }

    /// Reads one directory entry.
    pub fn readdir(&self, cookie: Dircookie) -> (result: WasiResult<Option<(Dirent, S)>>)
        ensures
            match result {
                Ok(_) => false,
                Err(error) => error == if permits(self.rights(), native::RIGHTS_FD_READDIR) {
                    Errno::Notsup
                } else {
                    Errno::Notcapable
                },
            },
    {
        self.check_rights(Rights::fd_readdir())?;
        match self.inner {
            WasiFdInner::CharacterDevice(_) => Err(Errno::Notsup),
        }
    }

    /// Moves the offset of the descriptor. A seek that moves nothing needs
    /// only the right to tell.
    pub fn seek(&self, offset: Filedelta, whence: Whence) -> (result: WasiResult<Filesize>)
        ensures
            result == refusal::<Filesize>(may_seek(self.rights(), offset, whence)),
    {
        let rights = self.rights;
        if let Err(error) = Self::check_rights_with(rights, Rights::fd_seek()) {
            if whence == Whence::Cur && offset.0 == 0 {
                Self::check_rights_with(rights, Rights::fd_tell())?;
            } else {
                return Err(error);
            }
        }
        match self.inner {
            WasiFdInner::CharacterDevice(_) => Err(Errno::Notsup),
        }
    }

    /// Synchronizes the data and metadata of a file to disk.
    pub fn sync(&self) -> (result: WasiResult<()>)
        ensures
            result == refusal::<()>(permits(self.rights(), native::RIGHTS_FD_SYNC)),
    {
        self.check_rights(Rights::fd_sync())?;
        match self.inner {
            WasiFdInner::CharacterDevice(_) => Err(Errno::Notsup),
        }
    }

    /// Returns the current offset of the descriptor. The right to seek
    /// stands in for the right to tell.
    pub fn tell(&self) -> (result: WasiResult<Filesize>)
        ensures
            result == refusal::<Filesize>(may_tell(self.rights())),
    {
        let rights = self.rights;
        if let Err(_) = Self::check_rights_with(rights, Rights::fd_tell()) {
            Self::check_rights_with(rights, Rights::fd_seek())?;
        }
        match self.inner {
            WasiFdInner::CharacterDevice(_) => Err(Errno::Notsup),
        }
    }

    /// Writes to the descriptor. Without the right to write the device is
    /// not asked.
    pub fn write(&self, bufs: &Vec<Vec<u8>>) -> (result: WasiResult<Size>)
        ensures
            !permits(self.rights(), native::RIGHTS_FD_WRITE) ==> result == Err::<Size, Errno>(
                Errno::Notcapable,
            ),
    {
        self.check_rights(Rights::fd_write())?;
        match &self.inner {
            WasiFdInner::CharacterDevice(device) => device.write(bufs),
        }
    }

    /// Creates a directory.
    pub fn path_create_directory(&self, path: &S) -> (result: WasiResult<()>)
        ensures
            result == refusal::<()>(permits(self.rights(), native::RIGHTS_PATH_CREATE_DIRECTORY)),
    {
        self.check_rights(Rights::path_create_directory())?;
        match self.inner {
            WasiFdInner::CharacterDevice(_) => Err(Errno::Notsup),
        }
    }

    /// Returns the attributes of a file or directory.
    pub fn path_filestat_get(&self, flags: Lookupflags, path: &S) -> (result: WasiResult<Filestat>)
        ensures
            result == refusal::<Filestat>(
                permits(self.rights(), native::RIGHTS_PATH_FILESTAT_GET),
            ),
    {
        self.check_rights(Rights::path_filestat_get())?;
        match self.inner {
            WasiFdInner::CharacterDevice(_) => Err(Errno::Notsup),
        }
    }

    /// Adjusts the timestamps of a file or directory.
    pub fn path_filestat_set_times(
        &self,
        flags: Lookupflags,
        path: &S,
        atim: Timestamp,
        mtim: Timestamp,
        fst_flags: Fstflags,
    ) -> (result: WasiResult<()>)
        ensures
            result == refusal::<()>(
                permits(self.rights(), native::RIGHTS_PATH_FILESTAT_SET_TIMES),
            ),
    {
        self.check_rights(Rights::path_filestat_set_times())?;
        match self.inner {
            WasiFdInner::CharacterDevice(_) => Err(Errno::Notsup),
        }
    }

    /// Opens a file or directory below this descriptor. The new descriptor
    /// may hold no right beyond this descriptor's ceiling: asking for more
    /// fails, it is not cut down.
    pub fn path_open(
        &self,
        dirflags: Lookupflags,
        path: &S,
        oflags: Oflags,
        fs_rights_base: Rights,
        fs_rights_inheriting: Rights,
        fdflags: Fdflags,
    ) -> (result: WasiResult<Self>)
        ensures
            match result {
                Ok(_) => false,
                Err(error) => error == if may_open(
                self.rights(),
                self.rights_inheriting(),
                oflags,
                fs_rights_base,
                fs_rights_inheriting,
                fdflags,
            ) {
                    Errno::Notsup
                } else {
                    Errno::Notcapable
                },
            },
    {
        let rights = self.rights;
        Self::check_rights_with(rights, Rights::path_open())?;
        if fdflags.contains(Fdflags::dsync()) {
            if let Err(_) = Self::check_rights_with(rights, Rights::fd_datasync()) {
                Self::check_rights_with(rights, Rights::fd_sync())?;
            }
        }
        if fdflags.contains(Fdflags::rsync()) {
            Self::check_rights_with(rights, Rights::fd_sync())?;
        }
        if oflags.contains(Oflags::creat()) {
            Self::check_rights_with(rights, Rights::path_create_file())?;
        }
        if oflags.contains(Oflags::trunc()) {
            Self::check_rights_with(rights, Rights::path_filestat_set_size())?;
        }
        let rights_inheriting = self.rights_inheriting;
        Self::check_rights_with(rights_inheriting, fs_rights_base)?;
        Self::check_rights_with(rights_inheriting, fs_rights_inheriting)?;
        match self.inner {
            WasiFdInner::CharacterDevice(_) => Err(Errno::Notsup),
        }
    }

    /// Creates a hard link. This descriptor needs the right to be the source
    /// of a link, `new_fd` the right to be its target.
    pub fn path_link(
        &self,
        old_flags: Lookupflags,
        old_path: &S,
        new_fd: &Self,
        new_path: &S,
    ) -> (result: WasiResult<()>)
        ensures
            result == refusal::<()>(
                permits(self.rights(), native::RIGHTS_PATH_LINK_SOURCE) && permits(
                    new_fd.rights(),
                    native::RIGHTS_PATH_LINK_TARGET,
                ),
            ),
    {
        self.check_rights(Rights::path_link_source())?;
        new_fd.check_rights(Rights::path_link_target())?;
        match self.inner {
            WasiFdInner::CharacterDevice(_) => Err(Errno::Notsup),
        }
    }

    /// Reads the contents of a symbolic link.
    pub fn path_readlink(&self, path: &S) -> (result: WasiResult<S>)
        ensures
            match result {
                Ok(_) => false,
                Err(error) => error == if permits(self.rights(), native::RIGHTS_PATH_READLINK) {
                    Errno::Notsup
                } else {
                    Errno::Notcapable
                },
            },
    {
        self.check_rights(Rights::path_readlink())?;
        match self.inner {
            WasiFdInner::CharacterDevice(_) => Err(Errno::Notsup),
        }
    }

    /// Removes a directory.
    pub fn path_remove_directory(&self, path: &S) -> (result: WasiResult<()>)
        ensures
            result == refusal::<()>(permits(self.rights(), native::RIGHTS_PATH_REMOVE_DIRECTORY)),
    {
        self.check_rights(Rights::path_remove_directory())?;
        match self.inner {
            WasiFdInner::CharacterDevice(_) => Err(Errno::Notsup),
        }
    }

    /// Renames a file or directory. This descriptor needs the right to be
    /// the source of a rename, `new_fd` the right to be its target.
    pub fn path_rename(&self, old_path: &S, new_fd: &Self, new_path: &S) -> (result: WasiResult<()>)
        ensures
            result == refusal::<()>(
                permits(self.rights(), native::RIGHTS_PATH_RENAME_SOURCE) && permits(
                    new_fd.rights(),
                    native::RIGHTS_PATH_RENAME_TARGET,
                ),
            ),
    {
        self.check_rights(Rights::path_rename_source())?;
        new_fd.check_rights(Rights::path_rename_target())?;
        match self.inner {
            WasiFdInner::CharacterDevice(_) => Err(Errno::Notsup),
        }
    }

    /// Creates a symbolic link.
    pub fn path_symlink(&self, old_path: &S, new_path: &S) -> (result: WasiResult<()>)
        ensures
            result == refusal::<()>(permits(self.rights(), native::RIGHTS_PATH_SYMLINK)),
    {
        self.check_rights(Rights::path_symlink())?;
        match self.inner {
            WasiFdInner::CharacterDevice(_) => Err(Errno::Notsup),
        }
    }

    /// Unlinks a file.
    pub fn path_unlink_file(&self, path: &S) -> (result: WasiResult<()>)
        ensures
            result == refusal::<()>(permits(self.rights(), native::RIGHTS_PATH_UNLINK_FILE)),
    {
        self.check_rights(Rights::path_unlink_file())?;
        match self.inner {
            WasiFdInner::CharacterDevice(_) => Err(Errno::Notsup),
        }
    }

    /// Receives a message from a socket.
    pub fn sock_recv(
        &self,
        ri_data: &mut Vec<Vec<u8>>,
        ri_flags: Riflags,
    ) -> (result: WasiResult<(Size, Roflags)>)
        ensures
            final(ri_data)@ == old(ri_data)@,
            result == refusal::<(Size, Roflags)>(permits(self.rights(), native::RIGHTS_FD_READ)),
    {
        self.check_rights(Rights::fd_read())?;
        match self.inner {
            WasiFdInner::CharacterDevice(_) => Err(Errno::Notsup),
        }
    }

    /// Sends a message on a socket.
    pub fn sock_send(&self, si_data: &Vec<Vec<u8>>, si_flags: Siflags) -> (result: WasiResult<Size>)
        ensures
            result == refusal::<Size>(permits(self.rights(), native::RIGHTS_FD_WRITE)),
    {
        self.check_rights(Rights::fd_write())?;
        match self.inner {
            WasiFdInner::CharacterDevice(_) => Err(Errno::Notsup),
        }
    }

    /// Shuts down socket send and receive channels.
    pub fn sock_shutdown(&self, how: Sdflags) -> (result: WasiResult<()>)
        ensures
            result == refusal::<()>(permits(self.rights(), native::RIGHTS_SOCK_SHUTDOWN)),
    {
        self.check_rights(Rights::sock_shutdown())?;
        match self.inner {
            WasiFdInner::CharacterDevice(_) => Err(Errno::Notsup),
        }
    }
}

} // verus!
