//! The operations that a host offers to the guest, on rich values.
//!
//! A host is shared between the calls of the guest: it takes every call by
//! shared reference, and guards what it changes itself.

use vstd::prelude::*;
use crate::character_device::same_shape;
use crate::records::{Dirent, Event, Fdstat, Filestat, Prestat, Subscription};
use crate::string_representation::StringRepresentation;
use crate::types::{
    Advice, Clockid, Dircookie, Exitcode, Fd, Fdflags, Filedelta, Filesize, Fstflags, Lookupflags,
    Oflags, Riflags, Rights, Roflags, Sdflags, Siflags, Signal, Size, Timestamp, WasiResult, Whence,
};

verus! {

/// Functions necessary to satisfy the WASI specification.
pub trait WasiImports {
    /// How the host holds the strings that cross the wire.
    type StringRepresentation: StringRepresentation;

    /// Gets the command-line parameters.
    fn args_get(&self) -> (result: WasiResult<&[Self::StringRepresentation]>);

    /// Gets the environment. Is is common convention that each string is of
    /// the form `key=value`.
    fn environ_get(&self) -> (result: WasiResult<&[Self::StringRepresentation]>);

    /// Returns the resolution of a clock.
    fn clock_res_get(&self, id: Clockid) -> (result: WasiResult<Timestamp>);

    /// Returns the time value of a clock.
    fn clock_time_get(&self, id: Clockid, precision: Timestamp) -> (result: WasiResult<Timestamp>);

    /// Provides file advisory information on a file descriptor.
    fn fd_advise(
        &self,
        fd: Fd,
        offset: Filesize,
        len: Filesize,
        advice: Advice,
    ) -> (result: WasiResult<()>);

    /// Forces the allocation of space in a file.
    fn fd_allocate(&self, fd: Fd, offset: Filesize, len: Filesize) -> (result: WasiResult<()>);

    /// Closes a file descriptor.
    fn fd_close(&self, fd: Fd) -> (result: WasiResult<()>);

    /// Synchronizes the data of a file to disk.
    fn fd_datasync(&self, fd: Fd) -> (result: WasiResult<()>);

    /// Gets the attributes of a file descriptor.
    fn fd_fdstat_get(&self, fd: Fd) -> (result: WasiResult<Fdstat>);

    /// Adjusts the flags associated with a file descriptor.
    fn fd_fdstat_set_flags(&self, fd: Fd, flags: Fdflags) -> (result: WasiResult<()>);

    /// Adjusts the rights associated with a file descriptor. This can only
    /// be used to remove rights.
    fn fd_fdstat_set_rights(
        &self,
        fd: Fd,
        fs_rights_base: Rights,
        fs_rights_inheriting: Rights,
    ) -> (result: WasiResult<()>);

    /// Returns the attributes of an open file.
    fn fd_filestat_get(&self, fd: Fd) -> (result: WasiResult<Filestat>);

    /// Adjusts the size of an open file.
    fn fd_filestat_set_size(&self, fd: Fd, size: Filesize) -> (result: WasiResult<()>);

    /// Adjusts the timestamps of an open file or directory.
    fn fd_filestat_set_times(
        &self,
        fd: Fd,
        atim: Timestamp,
        mtim: Timestamp,
        fst_flags: Fstflags,
    ) -> (result: WasiResult<()>);

    /// Reads from a file descriptor into the buffers, without using and
    /// updating the descriptor's offset. Hands the buffers back: they keep
    /// their lengths.
    fn fd_pread(&self, fd: Fd, iovs: Vec<Vec<u8>>, offset: Filesize) -> (result: (
        WasiResult<Size>,
        Vec<Vec<u8>>,
    ))
        ensures
            same_shape(iovs@, result.1@),
    ;

    /// Returns a description of the given preopened file descriptor.
    fn fd_prestat_get(&self, fd: Fd) -> (result: WasiResult<Prestat>);

    /// Returns the directory name of the given preopened file descriptor.
    fn fd_prestat_dir_name(&self, fd: Fd) -> (result: WasiResult<Self::StringRepresentation>);

    /// Writes to a file descriptor, without using and updating the
    /// descriptor's offset.
    fn fd_pwrite(
        &self,
        fd: Fd,
        bufs: &Vec<Vec<u8>>,
        offset: Filesize,
    ) -> (result: WasiResult<Size>);

    /// Reads from a file descriptor into the buffers. Hands the buffers
    /// back: they keep their lengths.
    fn fd_read(&self, fd: Fd, iovs: Vec<Vec<u8>>) -> (result: (WasiResult<Size>, Vec<Vec<u8>>))
        ensures
            same_shape(iovs@, result.1@),
    ;

    /// Reads one directory entry from a directory, or nothing at the end of
    /// the directory. The cookie of the first entry is always 0; the cookie
    /// of any other is the `d_next` of the one before it. The name is as
    /// long as the entry says.
    fn fd_readdir(
        &self,
        fd: Fd,
        cookie: Dircookie,
    ) -> (result: WasiResult<Option<(Dirent, Self::StringRepresentation)>>)
        ensures
            result matches Ok(Some((entry, name))) ==> name.bytes().len() == entry.d_namlen.0,
    ;

    /// Atomically replaces a file descriptor by renumbering another file
    /// descriptor.
    fn fd_renumber(&self, fd: Fd, to: Fd) -> (result: WasiResult<()>);

    /// Moves the offset of a file descriptor.
    fn fd_seek(&self, fd: Fd, offset: Filedelta, whence: Whence) -> (result: WasiResult<Filesize>);

    /// Synchronizes the data and metadata of a file to disk.
    fn fd_sync(&self, fd: Fd) -> (result: WasiResult<()>);

    /// Returns the current offset of a file descriptor.
    fn fd_tell(&self, fd: Fd) -> (result: WasiResult<Filesize>);

    /// Writes to a file descriptor.
    fn fd_write(&self, fd: Fd, bufs: &Vec<Vec<u8>>) -> (result: WasiResult<Size>);

    /// Creates a directory.
    fn path_create_directory(
        &self,
        fd: Fd,
        path: &Self::StringRepresentation,
    ) -> (result: WasiResult<()>);

    /// Returns the attributes of a file or directory.
    fn path_filestat_get(
        &self,
        fd: Fd,
        flags: Lookupflags,
        path: &Self::StringRepresentation,
    ) -> (result: WasiResult<Filestat>);

    /// Adjusts the timestamps of a file or directory.
    fn path_filestat_set_times(
        &self,
        fd: Fd,
        flags: Lookupflags,
        path: &Self::StringRepresentation,
        atim: Timestamp,
        mtim: Timestamp,
        fst_flags: Fstflags,
    ) -> (result: WasiResult<()>);

    /// Creates a hard link.
    fn path_link(
        &self,
        old_fd: Fd,
        old_flags: Lookupflags,
        old_path: &Self::StringRepresentation,
        new_fd: Fd,
        new_path: &Self::StringRepresentation,
    ) -> (result: WasiResult<()>);

    /// Opens a file or directory. The returned file descriptor is not
    /// guaranteed to be the lowest-numbered file descriptor not currently
    /// open; it is randomized to prevent applications from depending on
    /// making assumptions about indexes. It is below 2^31.
    fn path_open(
        &self,
        fd: Fd,
        dirflags: Lookupflags,
        path: &Self::StringRepresentation,
        oflags: Oflags,
        fs_rights_base: Rights,
        fs_rights_inheriting: Rights,
        fdflags: Fdflags,
    ) -> (result: WasiResult<Fd>);

    /// Reads the contents of a symbolic link.
    fn path_readlink(
        &self,
        fd: Fd,
        path: &Self::StringRepresentation,
    ) -> (result: WasiResult<Self::StringRepresentation>);

    /// Removes a directory.
    fn path_remove_directory(
        &self,
        fd: Fd,
        path: &Self::StringRepresentation,
    ) -> (result: WasiResult<()>);

    /// Renames a file or directory.
    fn path_rename(
        &self,
        fd: Fd,
        old_path: &Self::StringRepresentation,
        new_fd: Fd,
        new_path: &Self::StringRepresentation,
    ) -> (result: WasiResult<()>);

    /// Creates a symbolic link.
    fn path_symlink(
        &self,
        old_path: &Self::StringRepresentation,
        fd: Fd,
        new_path: &Self::StringRepresentation,
    ) -> (result: WasiResult<()>);

    /// Unlinks a file.
    fn path_unlink_file(
        &self,
        fd: Fd,
        path: &Self::StringRepresentation,
    ) -> (result: WasiResult<()>);

    /// Concurrently polls for the occurrence of a set of events.
    fn poll_oneoff(&self, subscriptions: &Vec<Subscription>) -> (result: WasiResult<Vec<Event>>);

    /// Terminates the process normally. The one way to come back from it is
    /// the exit code: implementations always return `Err(rval)`.
    fn proc_exit(&self, rval: Exitcode) -> (result: Result<std::convert::Infallible, Exitcode>)
        ensures
            result == Err::<std::convert::Infallible, Exitcode>(rval),
    ;

    /// Sends a signal to the process of the calling thread.
    fn proc_raise(&self, sig: Signal) -> (result: WasiResult<()>);

    /// Writes high-quality random data into a buffer. Hands the buffer
    /// back: it keeps its length.
    fn random_get(&self, buf: Vec<u8>) -> (result: (WasiResult<()>, Vec<u8>))
        ensures
            result.1@.len() == buf@.len(),
    ;

    /// Temporarily yields execution of the calling thread.
    fn sched_yield(&self) -> (result: WasiResult<()>);

    /// Receives a message from a socket into the buffers. Hands the
    /// buffers back: they keep their lengths.
    fn sock_recv(&self, fd: Fd, ri_data: Vec<Vec<u8>>, ri_flags: Riflags) -> (result: (
        WasiResult<(Size, Roflags)>,
        Vec<Vec<u8>>,
    ))
        ensures
            same_shape(ri_data@, result.1@),
    ;

    /// Sends a message on a socket.
    fn sock_send(
        &self,
        fd: Fd,
        si_data: &Vec<Vec<u8>>,
        si_flags: Siflags,
    ) -> (result: WasiResult<Size>);

    /// Shuts down socket send and receive channels.
    fn sock_shutdown(&self, fd: Fd, how: Sdflags) -> (result: WasiResult<()>);
}

} // verus!
