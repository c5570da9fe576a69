//! The native wire types of WASI snapshot preview 1: what the guest sees.
//!
//! Integers, enumerations and flag sets are plain integers here. Records and
//! tagged unions come with their layout in guest memory.

#![allow(non_camel_case_types)]

use vstd::prelude::*;
use crate::ptr::WasmSlicePtr;
use crate::wire::{
    lemma_splice_nested, lemma_splice_same, lemma_splice_subrange, lemma_splice_twice, splice,
    WasmValue,
};

verus! {

/// An array size or a length of a region of memory.
pub type size = u32;

/// Non-negative file size or length of a region within a file.
pub type filesize = u64;

/// Timestamp in nanoseconds.
pub type timestamp = u64;

/// Relative offset within a file.
pub type filedelta = i64;

/// A reference to the offset of a directory entry.
pub type dircookie = u64;

/// The length of a directory entry's name.
pub type dirnamlen = u32;

/// File serial number that is unique within its file system.
pub type inode = u64;

/// Identifier for a device containing a file system.
pub type device = u64;

/// Number of hard links to an inode.
pub type linkcount = u64;

/// User-provided value that may be attached to objects.
pub type userdata = u64;

/// Exit code that a process hands back when it exits.
pub type exitcode = u32;

/// Flags provided to `sock_send`. No flags are defined.
pub type siflags = u16;

/// A file descriptor number.
pub type fd = u32;

/// Identifiers for clocks.
pub type clockid = u32;

/// The clock measuring real time.
pub const CLOCKID_REALTIME: clockid = 0;

/// The store-wide monotonic clock.
pub const CLOCKID_MONOTONIC: clockid = 1;

/// The CPU-time clock associated with the current process.
pub const CLOCKID_PROCESS_CPUTIME_ID: clockid = 2;

/// The CPU-time clock associated with the current thread.
pub const CLOCKID_THREAD_CPUTIME_ID: clockid = 3;

/// Error codes returned by functions.
pub type errno = u16;

/// No error occurred.
pub const ERRNO_SUCCESS: errno = 0;

/// Argument list too long.
pub const ERRNO_2BIG: errno = 1;

/// Permission denied.
pub const ERRNO_ACCES: errno = 2;

/// Address in use.
pub const ERRNO_ADDRINUSE: errno = 3;

/// Address not available.
pub const ERRNO_ADDRNOTAVAIL: errno = 4;

/// Address family not supported.
pub const ERRNO_AFNOSUPPORT: errno = 5;

/// Resource unavailable, or operation would block.
pub const ERRNO_AGAIN: errno = 6;

/// Connection already in progress.
pub const ERRNO_ALREADY: errno = 7;

/// Bad file descriptor.
pub const ERRNO_BADF: errno = 8;

/// Bad message.
pub const ERRNO_BADMSG: errno = 9;

/// Device or resource busy.
pub const ERRNO_BUSY: errno = 10;

/// Operation canceled.
pub const ERRNO_CANCELED: errno = 11;

/// No child processes.
pub const ERRNO_CHILD: errno = 12;

/// Connection aborted.
pub const ERRNO_CONNABORTED: errno = 13;

/// Connection refused.
pub const ERRNO_CONNREFUSED: errno = 14;

/// Connection reset.
pub const ERRNO_CONNRESET: errno = 15;

/// Resource deadlock would occur.
pub const ERRNO_DEADLK: errno = 16;

/// Destination address required.
pub const ERRNO_DESTADDRREQ: errno = 17;

/// Mathematics argument out of domain of function.
pub const ERRNO_DOM: errno = 18;

/// Reserved.
pub const ERRNO_DQUOT: errno = 19;

/// File exists.
pub const ERRNO_EXIST: errno = 20;

/// Bad address.
pub const ERRNO_FAULT: errno = 21;

/// File too large.
pub const ERRNO_FBIG: errno = 22;

/// Host is unreachable.
pub const ERRNO_HOSTUNREACH: errno = 23;

/// Identifier removed.
pub const ERRNO_IDRM: errno = 24;

/// Illegal byte sequence.
pub const ERRNO_ILSEQ: errno = 25;

/// Operation in progress.
pub const ERRNO_INPROGRESS: errno = 26;

/// Interrupted function.
pub const ERRNO_INTR: errno = 27;

/// Invalid argument.
pub const ERRNO_INVAL: errno = 28;

/// I/O error.
pub const ERRNO_IO: errno = 29;

/// Socket is connected.
pub const ERRNO_ISCONN: errno = 30;

/// Is a directory.
pub const ERRNO_ISDIR: errno = 31;

/// Too many levels of symbolic links.
pub const ERRNO_LOOP: errno = 32;

/// File descriptor value too large.
pub const ERRNO_MFILE: errno = 33;

/// Too many links.
pub const ERRNO_MLINK: errno = 34;

/// Message too large.
pub const ERRNO_MSGSIZE: errno = 35;

/// Reserved.
pub const ERRNO_MULTIHOP: errno = 36;

/// Filename too long.
pub const ERRNO_NAMETOOLONG: errno = 37;

/// Network is down.
pub const ERRNO_NETDOWN: errno = 38;

/// Connection aborted by network.
pub const ERRNO_NETRESET: errno = 39;

/// Network unreachable.
pub const ERRNO_NETUNREACH: errno = 40;

/// Too many files open in system.
pub const ERRNO_NFILE: errno = 41;

/// No buffer space available.
pub const ERRNO_NOBUFS: errno = 42;

/// No such device.
pub const ERRNO_NODEV: errno = 43;

/// No such file or directory.
pub const ERRNO_NOENT: errno = 44;

/// Executable file format error.
pub const ERRNO_NOEXEC: errno = 45;

/// No locks available.
pub const ERRNO_NOLCK: errno = 46;

/// Reserved.
pub const ERRNO_NOLINK: errno = 47;

/// Not enough space.
pub const ERRNO_NOMEM: errno = 48;

/// No message of the desired type.
pub const ERRNO_NOMSG: errno = 49;

/// Protocol not available.
pub const ERRNO_NOPROTOOPT: errno = 50;

/// No space left on device.
pub const ERRNO_NOSPC: errno = 51;

/// Function not supported.
pub const ERRNO_NOSYS: errno = 52;

/// The socket is not connected.
pub const ERRNO_NOTCONN: errno = 53;

/// Not a directory or a symbolic link to a directory.
pub const ERRNO_NOTDIR: errno = 54;

/// Directory not empty.
pub const ERRNO_NOTEMPTY: errno = 55;

/// State not recoverable.
pub const ERRNO_NOTRECOVERABLE: errno = 56;

/// Not a socket.
pub const ERRNO_NOTSOCK: errno = 57;

/// Not supported, or operation not supported on socket.
pub const ERRNO_NOTSUP: errno = 58;

/// Inappropriate I/O control operation.
pub const ERRNO_NOTTY: errno = 59;

/// No such device or address.
pub const ERRNO_NXIO: errno = 60;

/// Value too large to be stored in data type.
pub const ERRNO_OVERFLOW: errno = 61;

/// Previous owner died.
pub const ERRNO_OWNERDEAD: errno = 62;

/// Operation not permitted.
pub const ERRNO_PERM: errno = 63;

/// Broken pipe.
pub const ERRNO_PIPE: errno = 64;

/// Protocol error.
pub const ERRNO_PROTO: errno = 65;

/// Protocol not supported.
pub const ERRNO_PROTONOSUPPORT: errno = 66;

/// Protocol wrong type for socket.
pub const ERRNO_PROTOTYPE: errno = 67;

/// Result too large.
pub const ERRNO_RANGE: errno = 68;

/// Read-only file system.
pub const ERRNO_ROFS: errno = 69;

/// Invalid seek.
pub const ERRNO_SPIPE: errno = 70;

/// No such process.
pub const ERRNO_SRCH: errno = 71;

/// Reserved.
pub const ERRNO_STALE: errno = 72;

/// Connection timed out.
pub const ERRNO_TIMEDOUT: errno = 73;

/// Text file busy.
pub const ERRNO_TXTBSY: errno = 74;

/// Cross-device link.
pub const ERRNO_XDEV: errno = 75;

/// Extension: capabilities insufficient.
pub const ERRNO_NOTCAPABLE: errno = 76;

/// The position relative to which to set the offset of a file descriptor.
pub type whence = u8;

/// Seek relative to start-of-file.
pub const WHENCE_SET: whence = 0;

/// Seek relative to current position.
pub const WHENCE_CUR: whence = 1;

/// Seek relative to end-of-file.
pub const WHENCE_END: whence = 2;

/// The type of a file descriptor or file.
pub type filetype = u8;

/// The type is unknown or is different from any of the other types specified.
pub const FILETYPE_UNKNOWN: filetype = 0;

/// A block device inode.
pub const FILETYPE_BLOCK_DEVICE: filetype = 1;

/// A character device inode.
pub const FILETYPE_CHARACTER_DEVICE: filetype = 2;

/// A directory inode.
pub const FILETYPE_DIRECTORY: filetype = 3;

/// A regular file inode.
pub const FILETYPE_REGULAR_FILE: filetype = 4;

/// A datagram socket.
pub const FILETYPE_SOCKET_DGRAM: filetype = 5;

/// A byte-stream socket.
pub const FILETYPE_SOCKET_STREAM: filetype = 6;

/// A symbolic link inode.
pub const FILETYPE_SYMBOLIC_LINK: filetype = 7;

/// File or memory access pattern advisory information.
pub type advice = u8;

/// The application has no advice to give.
pub const ADVICE_NORMAL: advice = 0;

/// The data will be accessed sequentially from lower to higher offsets.
pub const ADVICE_SEQUENTIAL: advice = 1;

/// The data will be accessed in random order.
pub const ADVICE_RANDOM: advice = 2;

/// The data will be accessed in the near future.
pub const ADVICE_WILLNEED: advice = 3;

/// The data will not be accessed in the near future.
pub const ADVICE_DONTNEED: advice = 4;

/// The data will be accessed once and not reused.
pub const ADVICE_NOREUSE: advice = 5;

/// Type of a subscription to an event or its occurrence.
pub type eventtype = u8;

/// The time value of the subscribed clock has reached the timeout.
pub const EVENTTYPE_CLOCK: eventtype = 0;

/// The file descriptor has data available for reading.
pub const EVENTTYPE_FD_READ: eventtype = 1;

/// The file descriptor has capacity available for writing.
pub const EVENTTYPE_FD_WRITE: eventtype = 2;

/// Signal condition.
pub type signal = u8;

/// No signal.
pub const SIGNAL_NONE: signal = 0;

/// Hangup.
pub const SIGNAL_HUP: signal = 1;

/// Terminate interrupt signal.
pub const SIGNAL_INT: signal = 2;

/// Terminal quit signal.
pub const SIGNAL_QUIT: signal = 3;

/// Illegal instruction.
pub const SIGNAL_ILL: signal = 4;

/// Trace/breakpoint trap.
pub const SIGNAL_TRAP: signal = 5;

/// Process abort signal.
pub const SIGNAL_ABRT: signal = 6;

/// Access to an undefined portion of a memory object.
pub const SIGNAL_BUS: signal = 7;

/// Erroneous arithmetic operation.
pub const SIGNAL_FPE: signal = 8;

/// Kill.
pub const SIGNAL_KILL: signal = 9;

/// User-defined signal 1.
pub const SIGNAL_USR1: signal = 10;

/// Invalid memory reference.
pub const SIGNAL_SEGV: signal = 11;

/// User-defined signal 2.
pub const SIGNAL_USR2: signal = 12;

/// Write on a pipe with no one to read it.
pub const SIGNAL_PIPE: signal = 13;

/// Alarm clock.
pub const SIGNAL_ALRM: signal = 14;

/// Termination signal.
pub const SIGNAL_TERM: signal = 15;

/// Child process terminated, stopped, or continued.
pub const SIGNAL_CHLD: signal = 16;

/// Continue executing, if stopped.
pub const SIGNAL_CONT: signal = 17;

/// Stop executing.
pub const SIGNAL_STOP: signal = 18;

/// Terminal stop signal.
pub const SIGNAL_TSTP: signal = 19;

/// Background process attempting read.
pub const SIGNAL_TTIN: signal = 20;

/// Background process attempting write.
pub const SIGNAL_TTOU: signal = 21;

/// High bandwidth data is available at a socket.
pub const SIGNAL_URG: signal = 22;

/// CPU time limit exceeded.
pub const SIGNAL_XCPU: signal = 23;

/// File size limit exceeded.
pub const SIGNAL_XFSZ: signal = 24;

/// Virtual timer expired.
pub const SIGNAL_VTALRM: signal = 25;

/// Profiling timer expired.
pub const SIGNAL_PROF: signal = 26;

/// Window changed.
pub const SIGNAL_WINCH: signal = 27;

/// I/O possible.
pub const SIGNAL_POLL: signal = 28;

/// Power failure.
pub const SIGNAL_PWR: signal = 29;

/// Bad system call.
pub const SIGNAL_SYS: signal = 30;

/// Identifiers for preopened capabilities.
pub type preopentype = u8;

/// A pre-opened directory.
pub const PREOPENTYPE_DIR: preopentype = 0;

/// File descriptor rights, determining which actions may be performed.
pub type rights = u64;

/// The right to invoke `fd_datasync`.
pub const RIGHTS_FD_DATASYNC: rights = 1 << 0;

/// The right to invoke `fd_read` and `sock_recv`.
pub const RIGHTS_FD_READ: rights = 1 << 1;

/// The right to invoke `fd_seek`.
pub const RIGHTS_FD_SEEK: rights = 1 << 2;

/// The right to invoke `fd_fdstat_set_flags`.
pub const RIGHTS_FD_FDSTAT_SET_FLAGS: rights = 1 << 3;

/// The right to invoke `fd_sync`.
pub const RIGHTS_FD_SYNC: rights = 1 << 4;

/// The right to invoke `fd_seek` in such a way that the offset remains unaltered.
pub const RIGHTS_FD_TELL: rights = 1 << 5;

/// The right to invoke `fd_write` and `sock_send`.
pub const RIGHTS_FD_WRITE: rights = 1 << 6;

/// The right to invoke `fd_advise`.
pub const RIGHTS_FD_ADVISE: rights = 1 << 7;

/// The right to invoke `fd_allocate`.
pub const RIGHTS_FD_ALLOCATE: rights = 1 << 8;

/// The right to invoke `path_create_directory`.
pub const RIGHTS_PATH_CREATE_DIRECTORY: rights = 1 << 9;

/// The right to invoke `path_open` with the create flag.
pub const RIGHTS_PATH_CREATE_FILE: rights = 1 << 10;

/// The right to invoke `path_link` with the descriptor as the source directory.
pub const RIGHTS_PATH_LINK_SOURCE: rights = 1 << 11;

/// The right to invoke `path_link` with the descriptor as the target directory.
pub const RIGHTS_PATH_LINK_TARGET: rights = 1 << 12;

/// The right to invoke `path_open`.
pub const RIGHTS_PATH_OPEN: rights = 1 << 13;

/// The right to invoke `fd_readdir`.
pub const RIGHTS_FD_READDIR: rights = 1 << 14;

/// The right to invoke `path_readlink`.
pub const RIGHTS_PATH_READLINK: rights = 1 << 15;

/// The right to invoke `path_rename` with the descriptor as the source directory.
pub const RIGHTS_PATH_RENAME_SOURCE: rights = 1 << 16;

/// The right to invoke `path_rename` with the descriptor as the target directory.
pub const RIGHTS_PATH_RENAME_TARGET: rights = 1 << 17;

/// The right to invoke `path_filestat_get`.
pub const RIGHTS_PATH_FILESTAT_GET: rights = 1 << 18;

/// The right to change a file's size through `path_open` with the truncate flag.
pub const RIGHTS_PATH_FILESTAT_SET_SIZE: rights = 1 << 19;

/// The right to invoke `path_filestat_set_times`.
pub const RIGHTS_PATH_FILESTAT_SET_TIMES: rights = 1 << 20;

/// The right to invoke `fd_filestat_get`.
pub const RIGHTS_FD_FILESTAT_GET: rights = 1 << 21;

/// The right to invoke `fd_filestat_set_size`.
pub const RIGHTS_FD_FILESTAT_SET_SIZE: rights = 1 << 22;

/// The right to invoke `fd_filestat_set_times`.
pub const RIGHTS_FD_FILESTAT_SET_TIMES: rights = 1 << 23;

/// The right to invoke `path_symlink`.
pub const RIGHTS_PATH_SYMLINK: rights = 1 << 24;

/// The right to invoke `path_remove_directory`.
pub const RIGHTS_PATH_REMOVE_DIRECTORY: rights = 1 << 25;

/// The right to invoke `path_unlink_file`.
pub const RIGHTS_PATH_UNLINK_FILE: rights = 1 << 26;

/// The right to subscribe to read and write events with `poll_oneoff`.
pub const RIGHTS_POLL_FD_READWRITE: rights = 1 << 27;

/// The right to invoke `sock_shutdown`.
pub const RIGHTS_SOCK_SHUTDOWN: rights = 1 << 28;

/// Every flag of `rights` that is defined.
pub const RIGHTS_ALL: rights = 0x1fffffff;

/// File descriptor flags.
pub type fdflags = u16;

/// Append mode: data written to the file is always appended to the file's end.
pub const FDFLAGS_APPEND: fdflags = 1 << 0;

/// Write according to synchronized I/O data integrity completion.
pub const FDFLAGS_DSYNC: fdflags = 1 << 1;

/// Non-blocking mode.
pub const FDFLAGS_NONBLOCK: fdflags = 1 << 2;

/// Synchronized read I/O operations.
pub const FDFLAGS_RSYNC: fdflags = 1 << 3;

/// Write according to synchronized I/O file integrity completion.
pub const FDFLAGS_SYNC: fdflags = 1 << 4;

/// Every flag of `fdflags` that is defined.
pub const FDFLAGS_ALL: fdflags = 0x1f;

/// Which file time attributes to adjust.
pub type fstflags = u16;

/// Adjust the last data access timestamp to the value given.
pub const FSTFLAGS_ATIM: fstflags = 1 << 0;

/// Adjust the last data access timestamp to the time of the clock.
pub const FSTFLAGS_ATIM_NOW: fstflags = 1 << 1;

/// Adjust the last data modification timestamp to the value given.
pub const FSTFLAGS_MTIM: fstflags = 1 << 2;

/// Adjust the last data modification timestamp to the time of the clock.
pub const FSTFLAGS_MTIM_NOW: fstflags = 1 << 3;

/// Every flag of `fstflags` that is defined.
pub const FSTFLAGS_ALL: fstflags = 0xf;

/// Flags determining the method of how paths are resolved.
pub type lookupflags = u32;

/// As long as the resolved path corresponds to a symbolic link, it is expanded.
pub const LOOKUPFLAGS_SYMLINK_FOLLOW: lookupflags = 1 << 0;

/// Every flag of `lookupflags` that is defined.
pub const LOOKUPFLAGS_ALL: lookupflags = 0x1;

/// Open flags used by `path_open`.
pub type oflags = u16;

/// Create file if it does not exist.
pub const OFLAGS_CREAT: oflags = 1 << 0;

/// Fail if not a directory.
pub const OFLAGS_DIRECTORY: oflags = 1 << 1;

/// Fail if file already exists.
pub const OFLAGS_EXCL: oflags = 1 << 2;

/// Truncate file to size 0.
pub const OFLAGS_TRUNC: oflags = 1 << 3;

/// Every flag of `oflags` that is defined.
pub const OFLAGS_ALL: oflags = 0xf;

/// The state of the file descriptor subscribed to with a read or write event.
pub type eventrwflags = u16;

/// The peer of this socket has closed or disconnected.
pub const EVENTRWFLAGS_FD_READWRITE_HANGUP: eventrwflags = 1 << 0;

/// Every flag of `eventrwflags` that is defined.
pub const EVENTRWFLAGS_ALL: eventrwflags = 0x1;

/// Flags determining how to interpret the timestamp of a clock subscription.
pub type subclockflags = u16;

/// If set, the timeout is an absolute timestamp of the clock.
pub const SUBCLOCKFLAGS_SUBSCRIPTION_CLOCK_ABSTIME: subclockflags = 1 << 0;

/// Every flag of `subclockflags` that is defined.
pub const SUBCLOCKFLAGS_ALL: subclockflags = 0x1;

/// Flags provided to `sock_recv`.
pub type riflags = u16;

/// Returns the message without removing it from the socket's receive queue.
pub const RIFLAGS_RECV_PEEK: riflags = 1 << 0;

/// On byte-stream sockets, block until the full amount of data can be returned.
pub const RIFLAGS_RECV_WAITALL: riflags = 1 << 1;

/// Every flag of `riflags` that is defined.
pub const RIFLAGS_ALL: riflags = 0x3;

/// Flags returned by `sock_recv`.
pub type roflags = u16;

/// Message data has been truncated.
pub const ROFLAGS_RECV_DATA_TRUNCATED: roflags = 1 << 0;

/// Every flag of `roflags` that is defined.
pub const ROFLAGS_ALL: roflags = 0x1;

/// Which channels on a socket to shut down.
pub type sdflags = u8;

/// Disables further receive operations.
pub const SDFLAGS_RD: sdflags = 1 << 0;

/// Disables further send operations.
pub const SDFLAGS_WR: sdflags = 1 << 1;

/// Every flag of `sdflags` that is defined.
pub const SDFLAGS_ALL: sdflags = 0x3;

/// A region of memory for scatter/gather reads.
#[derive(Clone, Copy)]
pub struct iovec {
    /// The address of the buffer to be filled.
    pub buf: WasmSlicePtr<u8>,
    /// The length of the buffer to be filled.
    pub buf_len: size,
}

impl WasmValue for iovec {
    const SIZE: u32 = 8;

    const ARRAY_OFFSET: u32 = 8;

    open spec fn size() -> nat {
        8
    }

    open spec fn stride() -> nat {
        8
    }

    open spec fn decode(bytes: Seq<u8>) -> Self {
        iovec {
            buf: <WasmSlicePtr<u8>>::decode(bytes.subrange(0, 4)),
            buf_len: size::decode(bytes.subrange(4, 8)),
        }
    }

    open spec fn store(self, window: Seq<u8>) -> Seq<u8> {
        let window = splice(window, 0, self.buf.store(window.subrange(0, 4)));
        splice(window, 4, self.buf_len.store(window.subrange(4, 8)))
    }

    open spec fn writable(self) -> bool {
        &&& self.buf.writable()
        &&& self.buf_len.writable()
    }

    open spec fn blank() -> Self {
        iovec {
            buf: <WasmSlicePtr<u8>>::blank(),
            buf_len: size::blank(),
        }
    }

    proof fn lemma_layout() {
        assert(Self::SIZE == 8 && Self::size() == 8);
        assert(Self::ARRAY_OFFSET == 8 && Self::stride() == 8);
    }

    fn blank_value() -> (value: Self) {
        iovec {
            buf: <WasmSlicePtr<u8>>::blank_value(),
            buf_len: size::blank_value(),
        }
    }

    proof fn lemma_store_len(self, window: Seq<u8>) {
        <WasmSlicePtr<u8>>::lemma_layout();
        <size>::lemma_layout();
        let w0 = window;
        self.buf.lemma_store_len(w0.subrange(0, 4));
        let w1 = splice(w0, 0, self.buf.store(w0.subrange(0, 4)));
        self.buf_len.lemma_store_len(w1.subrange(4, 8));
    }

    proof fn lemma_store_then_decode(self, window: Seq<u8>) {
        <WasmSlicePtr<u8>>::lemma_layout();
        <size>::lemma_layout();
        let w0 = window;
        let b0 = self.buf.store(w0.subrange(0, 4));
        self.buf.lemma_store_len(w0.subrange(0, 4));
        self.buf.lemma_store_then_decode(w0.subrange(0, 4));
        let w1 = splice(w0, 0, b0);
        lemma_splice_subrange(w0, 0, b0, 0, 4);
        let b1 = self.buf_len.store(w1.subrange(4, 8));
        self.buf_len.lemma_store_len(w1.subrange(4, 8));
        self.buf_len.lemma_store_then_decode(w1.subrange(4, 8));
        let w2 = splice(w1, 4, b1);
        lemma_splice_subrange(w1, 4, b1, 0, 4);
        lemma_splice_subrange(w1, 4, b1, 4, 8);
    }

    proof fn lemma_decode_then_store(window: Seq<u8>) {
        <WasmSlicePtr<u8>>::lemma_layout();
        <size>::lemma_layout();
        <WasmSlicePtr<u8>>::lemma_decode_then_store(window.subrange(0, 4));
        lemma_splice_same(window, 0, 4);
        size::lemma_decode_then_store(window.subrange(4, 8));
        lemma_splice_same(window, 4, 4);
    }

    fn read(mem: &[u8]) -> (value: Self) {
        proof {
            <WasmSlicePtr<u8>>::lemma_layout();
            <size>::lemma_layout();
        }
        iovec {
            buf: <WasmSlicePtr<u8>>::read(&mem[0..4]),
            buf_len: size::read(&mem[4..8]),
        }
    }

    fn write_at(self, mem: &mut [u8], at: usize) {
        proof {
            <WasmSlicePtr<u8>>::lemma_layout();
            <size>::lemma_layout();
        }
        let ghost m0 = mem@;
        let ghost w0 = m0.subrange(at as int, at + 8);
        proof {
            lemma_splice_same(m0, at as int, 8);
        }
        let ghost b0 = self.buf.store(w0.subrange(0, 4));
        proof {
            self.buf.lemma_store_len(w0.subrange(0, 4));
            lemma_splice_nested(m0, at as int, 8, 0, b0);
            assert(m0.subrange(at + 0, at + 0 + 4) =~= w0.subrange(0, 4));
        }
        self.buf.write_at(mem, at);
        let ghost m1 = mem@;
        let ghost w1 = splice(w0, 0, b0);
        proof {
            assert(m1.subrange(at as int, at + 8) == w1);
            lemma_splice_twice(m0, at as int, w0, w1);
            assert(m1 == splice(m0, at as int, w1));
        }
        let ghost b1 = self.buf_len.store(w1.subrange(4, 8));
        proof {
            self.buf_len.lemma_store_len(w1.subrange(4, 8));
            lemma_splice_nested(m1, at as int, 8, 4, b1);
            assert(m1.subrange(at + 4, at + 4 + 4) =~= w1.subrange(4, 8));
        }
        self.buf_len.write_at(mem, at + 4);
        let ghost m2 = mem@;
        let ghost w2 = splice(w1, 4, b1);
        proof {
            assert(m2.subrange(at as int, at + 8) == w2);
            lemma_splice_twice(m0, at as int, w1, w2);
            assert(m2 == splice(m0, at as int, w2));
        }
        proof {
            assert(w2 == self.store(w0));
        }
    }
}

/// A region of memory for scatter/gather writes.
#[derive(Clone, Copy)]
pub struct ciovec {
    /// The address of the buffer to be written.
    pub buf: WasmSlicePtr<u8>,
    /// The length of the buffer to be written.
    pub buf_len: size,
}

impl WasmValue for ciovec {
    const SIZE: u32 = 8;

    const ARRAY_OFFSET: u32 = 8;

    open spec fn size() -> nat {
        8
    }

    open spec fn stride() -> nat {
        8
    }

    open spec fn decode(bytes: Seq<u8>) -> Self {
        ciovec {
            buf: <WasmSlicePtr<u8>>::decode(bytes.subrange(0, 4)),
            buf_len: size::decode(bytes.subrange(4, 8)),
        }
    }

    open spec fn store(self, window: Seq<u8>) -> Seq<u8> {
        let window = splice(window, 0, self.buf.store(window.subrange(0, 4)));
        splice(window, 4, self.buf_len.store(window.subrange(4, 8)))
    }

    open spec fn writable(self) -> bool {
        &&& self.buf.writable()
        &&& self.buf_len.writable()
    }

    open spec fn blank() -> Self {
        ciovec {
            buf: <WasmSlicePtr<u8>>::blank(),
            buf_len: size::blank(),
        }
    }

    proof fn lemma_layout() {
        assert(Self::SIZE == 8 && Self::size() == 8);
        assert(Self::ARRAY_OFFSET == 8 && Self::stride() == 8);
    }

    fn blank_value() -> (value: Self) {
        ciovec {
            buf: <WasmSlicePtr<u8>>::blank_value(),
            buf_len: size::blank_value(),
        }
    }

    proof fn lemma_store_len(self, window: Seq<u8>) {
        <WasmSlicePtr<u8>>::lemma_layout();
        <size>::lemma_layout();
        let w0 = window;
        self.buf.lemma_store_len(w0.subrange(0, 4));
        let w1 = splice(w0, 0, self.buf.store(w0.subrange(0, 4)));
        self.buf_len.lemma_store_len(w1.subrange(4, 8));
    }

    proof fn lemma_store_then_decode(self, window: Seq<u8>) {
        <WasmSlicePtr<u8>>::lemma_layout();
        <size>::lemma_layout();
        let w0 = window;
        let b0 = self.buf.store(w0.subrange(0, 4));
        self.buf.lemma_store_len(w0.subrange(0, 4));
        self.buf.lemma_store_then_decode(w0.subrange(0, 4));
        let w1 = splice(w0, 0, b0);
        lemma_splice_subrange(w0, 0, b0, 0, 4);
        let b1 = self.buf_len.store(w1.subrange(4, 8));
        self.buf_len.lemma_store_len(w1.subrange(4, 8));
        self.buf_len.lemma_store_then_decode(w1.subrange(4, 8));
        let w2 = splice(w1, 4, b1);
        lemma_splice_subrange(w1, 4, b1, 0, 4);
        lemma_splice_subrange(w1, 4, b1, 4, 8);
    }

    proof fn lemma_decode_then_store(window: Seq<u8>) {
        <WasmSlicePtr<u8>>::lemma_layout();
        <size>::lemma_layout();
        <WasmSlicePtr<u8>>::lemma_decode_then_store(window.subrange(0, 4));
        lemma_splice_same(window, 0, 4);
        size::lemma_decode_then_store(window.subrange(4, 8));
        lemma_splice_same(window, 4, 4);
    }

    fn read(mem: &[u8]) -> (value: Self) {
        proof {
            <WasmSlicePtr<u8>>::lemma_layout();
            <size>::lemma_layout();
        }
        ciovec {
            buf: <WasmSlicePtr<u8>>::read(&mem[0..4]),
            buf_len: size::read(&mem[4..8]),
        }
    }

    fn write_at(self, mem: &mut [u8], at: usize) {
        proof {
            <WasmSlicePtr<u8>>::lemma_layout();
            <size>::lemma_layout();
        }
        let ghost m0 = mem@;
        let ghost w0 = m0.subrange(at as int, at + 8);
        proof {
            lemma_splice_same(m0, at as int, 8);
        }
        let ghost b0 = self.buf.store(w0.subrange(0, 4));
        proof {
            self.buf.lemma_store_len(w0.subrange(0, 4));
            lemma_splice_nested(m0, at as int, 8, 0, b0);
            assert(m0.subrange(at + 0, at + 0 + 4) =~= w0.subrange(0, 4));
        }
        self.buf.write_at(mem, at);
        let ghost m1 = mem@;
        let ghost w1 = splice(w0, 0, b0);
        proof {
            assert(m1.subrange(at as int, at + 8) == w1);
            lemma_splice_twice(m0, at as int, w0, w1);
            assert(m1 == splice(m0, at as int, w1));
        }
        let ghost b1 = self.buf_len.store(w1.subrange(4, 8));
        proof {
            self.buf_len.lemma_store_len(w1.subrange(4, 8));
            lemma_splice_nested(m1, at as int, 8, 4, b1);
            assert(m1.subrange(at + 4, at + 4 + 4) =~= w1.subrange(4, 8));
        }
        self.buf_len.write_at(mem, at + 4);
        let ghost m2 = mem@;
        let ghost w2 = splice(w1, 4, b1);
        proof {
            assert(m2.subrange(at as int, at + 8) == w2);
            lemma_splice_twice(m0, at as int, w1, w2);
            assert(m2 == splice(m0, at as int, w2));
        }
        proof {
            assert(w2 == self.store(w0));
        }
    }
}

/// A directory entry.
#[derive(Debug, Clone, Copy, PartialEq, Eq, Structural)]
pub struct dirent {
    /// The offset of the next directory entry stored in this directory.
    pub d_next: dircookie,
    /// The serial number of the file referred to by this directory entry.
    pub d_ino: inode,
    /// The length of the name of the directory entry.
    pub d_namlen: dirnamlen,
    /// The type of the file referred to by this directory entry.
    pub d_type: filetype,
}

impl WasmValue for dirent {
    const SIZE: u32 = 24;

    const ARRAY_OFFSET: u32 = 24;

    open spec fn size() -> nat {
        24
    }

    open spec fn stride() -> nat {
        24
    }

    open spec fn decode(bytes: Seq<u8>) -> Self {
        dirent {
            d_next: dircookie::decode(bytes.subrange(0, 8)),
            d_ino: inode::decode(bytes.subrange(8, 16)),
            d_namlen: dirnamlen::decode(bytes.subrange(16, 20)),
            d_type: filetype::decode(bytes.subrange(20, 21)),
        }
    }

    open spec fn store(self, window: Seq<u8>) -> Seq<u8> {
        let window = splice(window, 0, self.d_next.store(window.subrange(0, 8)));
        let window = splice(window, 8, self.d_ino.store(window.subrange(8, 16)));
        let window = splice(window, 16, self.d_namlen.store(window.subrange(16, 20)));
        splice(window, 20, self.d_type.store(window.subrange(20, 21)))
    }

    open spec fn writable(self) -> bool {
        &&& self.d_next.writable()
        &&& self.d_ino.writable()
        &&& self.d_namlen.writable()
        &&& self.d_type.writable()
    }

    open spec fn blank() -> Self {
        dirent {
            d_next: dircookie::blank(),
            d_ino: inode::blank(),
            d_namlen: dirnamlen::blank(),
            d_type: filetype::blank(),
        }
    }

    proof fn lemma_layout() {
        assert(Self::SIZE == 24 && Self::size() == 24);
        assert(Self::ARRAY_OFFSET == 24 && Self::stride() == 24);
    }

    fn blank_value() -> (value: Self) {
        dirent {
            d_next: dircookie::blank_value(),
            d_ino: inode::blank_value(),
            d_namlen: dirnamlen::blank_value(),
            d_type: filetype::blank_value(),
        }
    }

    proof fn lemma_store_len(self, window: Seq<u8>) {
        <dircookie>::lemma_layout();
        <inode>::lemma_layout();
        <dirnamlen>::lemma_layout();
        <filetype>::lemma_layout();
        let w0 = window;
        self.d_next.lemma_store_len(w0.subrange(0, 8));
        let w1 = splice(w0, 0, self.d_next.store(w0.subrange(0, 8)));
        self.d_ino.lemma_store_len(w1.subrange(8, 16));
        let w2 = splice(w1, 8, self.d_ino.store(w1.subrange(8, 16)));
        self.d_namlen.lemma_store_len(w2.subrange(16, 20));
        let w3 = splice(w2, 16, self.d_namlen.store(w2.subrange(16, 20)));
        self.d_type.lemma_store_len(w3.subrange(20, 21));
    }

    proof fn lemma_store_then_decode(self, window: Seq<u8>) {
        <dircookie>::lemma_layout();
        <inode>::lemma_layout();
        <dirnamlen>::lemma_layout();
        <filetype>::lemma_layout();
        let w0 = window;
        let b0 = self.d_next.store(w0.subrange(0, 8));
        self.d_next.lemma_store_len(w0.subrange(0, 8));
        self.d_next.lemma_store_then_decode(w0.subrange(0, 8));
        let w1 = splice(w0, 0, b0);
        lemma_splice_subrange(w0, 0, b0, 0, 8);
        let b1 = self.d_ino.store(w1.subrange(8, 16));
        self.d_ino.lemma_store_len(w1.subrange(8, 16));
        self.d_ino.lemma_store_then_decode(w1.subrange(8, 16));
        let w2 = splice(w1, 8, b1);
        lemma_splice_subrange(w1, 8, b1, 0, 8);
        lemma_splice_subrange(w1, 8, b1, 8, 16);
        let b2 = self.d_namlen.store(w2.subrange(16, 20));
        self.d_namlen.lemma_store_len(w2.subrange(16, 20));
        self.d_namlen.lemma_store_then_decode(w2.subrange(16, 20));
        let w3 = splice(w2, 16, b2);
        lemma_splice_subrange(w2, 16, b2, 0, 8);
        lemma_splice_subrange(w2, 16, b2, 8, 16);
        lemma_splice_subrange(w2, 16, b2, 16, 20);
        let b3 = self.d_type.store(w3.subrange(20, 21));
        self.d_type.lemma_store_len(w3.subrange(20, 21));
        self.d_type.lemma_store_then_decode(w3.subrange(20, 21));
        let w4 = splice(w3, 20, b3);
        lemma_splice_subrange(w3, 20, b3, 0, 8);
        lemma_splice_subrange(w3, 20, b3, 8, 16);
        lemma_splice_subrange(w3, 20, b3, 16, 20);
        lemma_splice_subrange(w3, 20, b3, 20, 21);
    }

    proof fn lemma_decode_then_store(window: Seq<u8>) {
        <dircookie>::lemma_layout();
        <inode>::lemma_layout();
        <dirnamlen>::lemma_layout();
        <filetype>::lemma_layout();
        dircookie::lemma_decode_then_store(window.subrange(0, 8));
        lemma_splice_same(window, 0, 8);
        inode::lemma_decode_then_store(window.subrange(8, 16));
        lemma_splice_same(window, 8, 8);
        dirnamlen::lemma_decode_then_store(window.subrange(16, 20));
        lemma_splice_same(window, 16, 4);
        filetype::lemma_decode_then_store(window.subrange(20, 21));
        lemma_splice_same(window, 20, 1);
    }

    fn read(mem: &[u8]) -> (value: Self) {
        proof {
            <dircookie>::lemma_layout();
            <inode>::lemma_layout();
            <dirnamlen>::lemma_layout();
            <filetype>::lemma_layout();
        }
        dirent {
            d_next: dircookie::read(&mem[0..8]),
            d_ino: inode::read(&mem[8..16]),
            d_namlen: dirnamlen::read(&mem[16..20]),
            d_type: filetype::read(&mem[20..21]),
        }
    }

    fn write_at(self, mem: &mut [u8], at: usize) {
        proof {
            <dircookie>::lemma_layout();
            <inode>::lemma_layout();
            <dirnamlen>::lemma_layout();
            <filetype>::lemma_layout();
        }
        let ghost m0 = mem@;
        let ghost w0 = m0.subrange(at as int, at + 24);
        proof {
            lemma_splice_same(m0, at as int, 24);
        }
        let ghost b0 = self.d_next.store(w0.subrange(0, 8));
        proof {
            self.d_next.lemma_store_len(w0.subrange(0, 8));
            lemma_splice_nested(m0, at as int, 24, 0, b0);
            assert(m0.subrange(at + 0, at + 0 + 8) =~= w0.subrange(0, 8));
        }
        self.d_next.write_at(mem, at);
        let ghost m1 = mem@;
        let ghost w1 = splice(w0, 0, b0);
        proof {
            assert(m1.subrange(at as int, at + 24) == w1);
            lemma_splice_twice(m0, at as int, w0, w1);
            assert(m1 == splice(m0, at as int, w1));
        }
        let ghost b1 = self.d_ino.store(w1.subrange(8, 16));
        proof {
            self.d_ino.lemma_store_len(w1.subrange(8, 16));
            lemma_splice_nested(m1, at as int, 24, 8, b1);
            assert(m1.subrange(at + 8, at + 8 + 8) =~= w1.subrange(8, 16));
        }
        self.d_ino.write_at(mem, at + 8);
        let ghost m2 = mem@;
        let ghost w2 = splice(w1, 8, b1);
        proof {
            assert(m2.subrange(at as int, at + 24) == w2);
            lemma_splice_twice(m0, at as int, w1, w2);
            assert(m2 == splice(m0, at as int, w2));
        }
        let ghost b2 = self.d_namlen.store(w2.subrange(16, 20));
        proof {
            self.d_namlen.lemma_store_len(w2.subrange(16, 20));
            lemma_splice_nested(m2, at as int, 24, 16, b2);
            assert(m2.subrange(at + 16, at + 16 + 4) =~= w2.subrange(16, 20));
        }
        self.d_namlen.write_at(mem, at + 16);
        let ghost m3 = mem@;
        let ghost w3 = splice(w2, 16, b2);
        proof {
            assert(m3.subrange(at as int, at + 24) == w3);
            lemma_splice_twice(m0, at as int, w2, w3);
            assert(m3 == splice(m0, at as int, w3));
        }
        let ghost b3 = self.d_type.store(w3.subrange(20, 21));
        proof {
            self.d_type.lemma_store_len(w3.subrange(20, 21));
            lemma_splice_nested(m3, at as int, 24, 20, b3);
            assert(m3.subrange(at + 20, at + 20 + 1) =~= w3.subrange(20, 21));
        }
        self.d_type.write_at(mem, at + 20);
        let ghost m4 = mem@;
        let ghost w4 = splice(w3, 20, b3);
        proof {
            assert(m4.subrange(at as int, at + 24) == w4);
            lemma_splice_twice(m0, at as int, w3, w4);
            assert(m4 == splice(m0, at as int, w4));
        }
        proof {
            assert(w4 == self.store(w0));
        }
    }
}

/// File descriptor attributes.
#[derive(Debug, Clone, Copy, PartialEq, Eq, Structural)]
pub struct fdstat {
    /// File type.
    pub fs_filetype: filetype,
    /// File descriptor flags.
    pub fs_flags: fdflags,
    /// Rights that apply to this file descriptor.
    pub fs_rights_base: rights,
    /// Maximum set of rights that may be installed on new file descriptors that are
    /// created through this file descriptor.
    pub fs_rights_inheriting: rights,
}

impl WasmValue for fdstat {
    const SIZE: u32 = 24;

    const ARRAY_OFFSET: u32 = 24;

    open spec fn size() -> nat {
        24
    }

    open spec fn stride() -> nat {
        24
    }

    open spec fn decode(bytes: Seq<u8>) -> Self {
        fdstat {
            fs_filetype: filetype::decode(bytes.subrange(0, 1)),
            fs_flags: fdflags::decode(bytes.subrange(2, 4)),
            fs_rights_base: rights::decode(bytes.subrange(8, 16)),
            fs_rights_inheriting: rights::decode(bytes.subrange(16, 24)),
        }
    }

    open spec fn store(self, window: Seq<u8>) -> Seq<u8> {
        let window = splice(window, 0, self.fs_filetype.store(window.subrange(0, 1)));
        let window = splice(window, 2, self.fs_flags.store(window.subrange(2, 4)));
        let window = splice(window, 8, self.fs_rights_base.store(window.subrange(8, 16)));
        splice(window, 16, self.fs_rights_inheriting.store(window.subrange(16, 24)))
    }

    open spec fn writable(self) -> bool {
        &&& self.fs_filetype.writable()
        &&& self.fs_flags.writable()
        &&& self.fs_rights_base.writable()
        &&& self.fs_rights_inheriting.writable()
    }

    open spec fn blank() -> Self {
        fdstat {
            fs_filetype: filetype::blank(),
            fs_flags: fdflags::blank(),
            fs_rights_base: rights::blank(),
            fs_rights_inheriting: rights::blank(),
        }
    }

    proof fn lemma_layout() {
        assert(Self::SIZE == 24 && Self::size() == 24);
        assert(Self::ARRAY_OFFSET == 24 && Self::stride() == 24);
    }

    fn blank_value() -> (value: Self) {
        fdstat {
            fs_filetype: filetype::blank_value(),
            fs_flags: fdflags::blank_value(),
            fs_rights_base: rights::blank_value(),
            fs_rights_inheriting: rights::blank_value(),
        }
    }

    proof fn lemma_store_len(self, window: Seq<u8>) {
        <filetype>::lemma_layout();
        <fdflags>::lemma_layout();
        <rights>::lemma_layout();
        let w0 = window;
        self.fs_filetype.lemma_store_len(w0.subrange(0, 1));
        let w1 = splice(w0, 0, self.fs_filetype.store(w0.subrange(0, 1)));
        self.fs_flags.lemma_store_len(w1.subrange(2, 4));
        let w2 = splice(w1, 2, self.fs_flags.store(w1.subrange(2, 4)));
        self.fs_rights_base.lemma_store_len(w2.subrange(8, 16));
        let w3 = splice(w2, 8, self.fs_rights_base.store(w2.subrange(8, 16)));
        self.fs_rights_inheriting.lemma_store_len(w3.subrange(16, 24));
    }

    proof fn lemma_store_then_decode(self, window: Seq<u8>) {
        <filetype>::lemma_layout();
        <fdflags>::lemma_layout();
        <rights>::lemma_layout();
        let w0 = window;
        let b0 = self.fs_filetype.store(w0.subrange(0, 1));
        self.fs_filetype.lemma_store_len(w0.subrange(0, 1));
        self.fs_filetype.lemma_store_then_decode(w0.subrange(0, 1));
        let w1 = splice(w0, 0, b0);
        lemma_splice_subrange(w0, 0, b0, 0, 1);
        let b1 = self.fs_flags.store(w1.subrange(2, 4));
        self.fs_flags.lemma_store_len(w1.subrange(2, 4));
        self.fs_flags.lemma_store_then_decode(w1.subrange(2, 4));
        let w2 = splice(w1, 2, b1);
        lemma_splice_subrange(w1, 2, b1, 0, 1);
        lemma_splice_subrange(w1, 2, b1, 2, 4);
        let b2 = self.fs_rights_base.store(w2.subrange(8, 16));
        self.fs_rights_base.lemma_store_len(w2.subrange(8, 16));
        self.fs_rights_base.lemma_store_then_decode(w2.subrange(8, 16));
        let w3 = splice(w2, 8, b2);
        lemma_splice_subrange(w2, 8, b2, 0, 1);
        lemma_splice_subrange(w2, 8, b2, 2, 4);
        lemma_splice_subrange(w2, 8, b2, 8, 16);
        let b3 = self.fs_rights_inheriting.store(w3.subrange(16, 24));
        self.fs_rights_inheriting.lemma_store_len(w3.subrange(16, 24));
        self.fs_rights_inheriting.lemma_store_then_decode(w3.subrange(16, 24));
        let w4 = splice(w3, 16, b3);
        lemma_splice_subrange(w3, 16, b3, 0, 1);
        lemma_splice_subrange(w3, 16, b3, 2, 4);
        lemma_splice_subrange(w3, 16, b3, 8, 16);
        lemma_splice_subrange(w3, 16, b3, 16, 24);
    }

    proof fn lemma_decode_then_store(window: Seq<u8>) {
        <filetype>::lemma_layout();
        <fdflags>::lemma_layout();
        <rights>::lemma_layout();
        filetype::lemma_decode_then_store(window.subrange(0, 1));
        lemma_splice_same(window, 0, 1);
        fdflags::lemma_decode_then_store(window.subrange(2, 4));
        lemma_splice_same(window, 2, 2);
        rights::lemma_decode_then_store(window.subrange(8, 16));
        lemma_splice_same(window, 8, 8);
        rights::lemma_decode_then_store(window.subrange(16, 24));
        lemma_splice_same(window, 16, 8);
    }

    fn read(mem: &[u8]) -> (value: Self) {
        proof {
            <filetype>::lemma_layout();
            <fdflags>::lemma_layout();
            <rights>::lemma_layout();
        }
        fdstat {
            fs_filetype: filetype::read(&mem[0..1]),
            fs_flags: fdflags::read(&mem[2..4]),
            fs_rights_base: rights::read(&mem[8..16]),
            fs_rights_inheriting: rights::read(&mem[16..24]),
        }
    }

    fn write_at(self, mem: &mut [u8], at: usize) {
        proof {
            <filetype>::lemma_layout();
            <fdflags>::lemma_layout();
            <rights>::lemma_layout();
        }
        let ghost m0 = mem@;
        let ghost w0 = m0.subrange(at as int, at + 24);
        proof {
            lemma_splice_same(m0, at as int, 24);
        }
        let ghost b0 = self.fs_filetype.store(w0.subrange(0, 1));
        proof {
            self.fs_filetype.lemma_store_len(w0.subrange(0, 1));
            lemma_splice_nested(m0, at as int, 24, 0, b0);
            assert(m0.subrange(at + 0, at + 0 + 1) =~= w0.subrange(0, 1));
        }
        self.fs_filetype.write_at(mem, at);
        let ghost m1 = mem@;
        let ghost w1 = splice(w0, 0, b0);
        proof {
            assert(m1.subrange(at as int, at + 24) == w1);
            lemma_splice_twice(m0, at as int, w0, w1);
            assert(m1 == splice(m0, at as int, w1));
        }
        let ghost b1 = self.fs_flags.store(w1.subrange(2, 4));
        proof {
            self.fs_flags.lemma_store_len(w1.subrange(2, 4));
            lemma_splice_nested(m1, at as int, 24, 2, b1);
            assert(m1.subrange(at + 2, at + 2 + 2) =~= w1.subrange(2, 4));
        }
        self.fs_flags.write_at(mem, at + 2);
        let ghost m2 = mem@;
        let ghost w2 = splice(w1, 2, b1);
        proof {
            assert(m2.subrange(at as int, at + 24) == w2);
            lemma_splice_twice(m0, at as int, w1, w2);
            assert(m2 == splice(m0, at as int, w2));
        }
        let ghost b2 = self.fs_rights_base.store(w2.subrange(8, 16));
        proof {
            self.fs_rights_base.lemma_store_len(w2.subrange(8, 16));
            lemma_splice_nested(m2, at as int, 24, 8, b2);
            assert(m2.subrange(at + 8, at + 8 + 8) =~= w2.subrange(8, 16));
        }
        self.fs_rights_base.write_at(mem, at + 8);
        let ghost m3 = mem@;
        let ghost w3 = splice(w2, 8, b2);
        proof {
            assert(m3.subrange(at as int, at + 24) == w3);
            lemma_splice_twice(m0, at as int, w2, w3);
            assert(m3 == splice(m0, at as int, w3));
        }
        let ghost b3 = self.fs_rights_inheriting.store(w3.subrange(16, 24));
        proof {
            self.fs_rights_inheriting.lemma_store_len(w3.subrange(16, 24));
            lemma_splice_nested(m3, at as int, 24, 16, b3);
            assert(m3.subrange(at + 16, at + 16 + 8) =~= w3.subrange(16, 24));
        }
        self.fs_rights_inheriting.write_at(mem, at + 16);
        let ghost m4 = mem@;
        let ghost w4 = splice(w3, 16, b3);
        proof {
            assert(m4.subrange(at as int, at + 24) == w4);
            lemma_splice_twice(m0, at as int, w3, w4);
            assert(m4 == splice(m0, at as int, w4));
        }
        proof {
            assert(w4 == self.store(w0));
        }
    }
}

/// File attributes.
#[derive(Debug, Clone, Copy, PartialEq, Eq, Structural)]
pub struct filestat {
    /// Device ID of device containing the file.
    pub dev: device,
    /// File serial number.
    pub ino: inode,
    /// File type.
    pub filetype: filetype,
    /// Number of hard links to the file.
    pub nlink: linkcount,
    /// For regular files, the file size in bytes.
    pub size: filesize,
    /// Last data access timestamp.
    pub atim: timestamp,
    /// Last data modification timestamp.
    pub mtim: timestamp,
    /// Last file status change timestamp.
    pub ctim: timestamp,
}

impl WasmValue for filestat {
    const SIZE: u32 = 64;

    const ARRAY_OFFSET: u32 = 64;

    open spec fn size() -> nat {
        64
    }

    open spec fn stride() -> nat {
        64
    }

    open spec fn decode(bytes: Seq<u8>) -> Self {
        filestat {
            dev: device::decode(bytes.subrange(0, 8)),
            ino: inode::decode(bytes.subrange(8, 16)),
            filetype: filetype::decode(bytes.subrange(16, 17)),
            nlink: linkcount::decode(bytes.subrange(24, 32)),
            size: filesize::decode(bytes.subrange(32, 40)),
            atim: timestamp::decode(bytes.subrange(40, 48)),
            mtim: timestamp::decode(bytes.subrange(48, 56)),
            ctim: timestamp::decode(bytes.subrange(56, 64)),
        }
    }

    open spec fn store(self, window: Seq<u8>) -> Seq<u8> {
        let window = splice(window, 0, self.dev.store(window.subrange(0, 8)));
        let window = splice(window, 8, self.ino.store(window.subrange(8, 16)));
        let window = splice(window, 16, self.filetype.store(window.subrange(16, 17)));
        let window = splice(window, 24, self.nlink.store(window.subrange(24, 32)));
        let window = splice(window, 32, self.size.store(window.subrange(32, 40)));
        let window = splice(window, 40, self.atim.store(window.subrange(40, 48)));
        let window = splice(window, 48, self.mtim.store(window.subrange(48, 56)));
        splice(window, 56, self.ctim.store(window.subrange(56, 64)))
    }

    open spec fn writable(self) -> bool {
        &&& self.dev.writable()
        &&& self.ino.writable()
        &&& self.filetype.writable()
        &&& self.nlink.writable()
        &&& self.size.writable()
        &&& self.atim.writable()
        &&& self.mtim.writable()
        &&& self.ctim.writable()
    }

    open spec fn blank() -> Self {
        filestat {
            dev: device::blank(),
            ino: inode::blank(),
            filetype: filetype::blank(),
            nlink: linkcount::blank(),
            size: filesize::blank(),
            atim: timestamp::blank(),
            mtim: timestamp::blank(),
            ctim: timestamp::blank(),
        }
    }

    proof fn lemma_layout() {
        assert(Self::SIZE == 64 && Self::size() == 64);
        assert(Self::ARRAY_OFFSET == 64 && Self::stride() == 64);
    }

    fn blank_value() -> (value: Self) {
        filestat {
            dev: device::blank_value(),
            ino: inode::blank_value(),
            filetype: filetype::blank_value(),
            nlink: linkcount::blank_value(),
            size: filesize::blank_value(),
            atim: timestamp::blank_value(),
            mtim: timestamp::blank_value(),
            ctim: timestamp::blank_value(),
        }
    }

    proof fn lemma_store_len(self, window: Seq<u8>) {
        <device>::lemma_layout();
        <inode>::lemma_layout();
        <filetype>::lemma_layout();
        <linkcount>::lemma_layout();
        <filesize>::lemma_layout();
        <timestamp>::lemma_layout();
        let w0 = window;
        self.dev.lemma_store_len(w0.subrange(0, 8));
        let w1 = splice(w0, 0, self.dev.store(w0.subrange(0, 8)));
        self.ino.lemma_store_len(w1.subrange(8, 16));
        let w2 = splice(w1, 8, self.ino.store(w1.subrange(8, 16)));
        self.filetype.lemma_store_len(w2.subrange(16, 17));
        let w3 = splice(w2, 16, self.filetype.store(w2.subrange(16, 17)));
        self.nlink.lemma_store_len(w3.subrange(24, 32));
        let w4 = splice(w3, 24, self.nlink.store(w3.subrange(24, 32)));
        self.size.lemma_store_len(w4.subrange(32, 40));
        let w5 = splice(w4, 32, self.size.store(w4.subrange(32, 40)));
        self.atim.lemma_store_len(w5.subrange(40, 48));
        let w6 = splice(w5, 40, self.atim.store(w5.subrange(40, 48)));
        self.mtim.lemma_store_len(w6.subrange(48, 56));
        let w7 = splice(w6, 48, self.mtim.store(w6.subrange(48, 56)));
        self.ctim.lemma_store_len(w7.subrange(56, 64));
    }

    proof fn lemma_store_then_decode(self, window: Seq<u8>) {
        <device>::lemma_layout();
        <inode>::lemma_layout();
        <filetype>::lemma_layout();
        <linkcount>::lemma_layout();
        <filesize>::lemma_layout();
        <timestamp>::lemma_layout();
        let w0 = window;
        let b0 = self.dev.store(w0.subrange(0, 8));
        self.dev.lemma_store_len(w0.subrange(0, 8));
        self.dev.lemma_store_then_decode(w0.subrange(0, 8));
        let w1 = splice(w0, 0, b0);
        lemma_splice_subrange(w0, 0, b0, 0, 8);
        let b1 = self.ino.store(w1.subrange(8, 16));
        self.ino.lemma_store_len(w1.subrange(8, 16));
        self.ino.lemma_store_then_decode(w1.subrange(8, 16));
        let w2 = splice(w1, 8, b1);
        lemma_splice_subrange(w1, 8, b1, 0, 8);
        lemma_splice_subrange(w1, 8, b1, 8, 16);
        let b2 = self.filetype.store(w2.subrange(16, 17));
        self.filetype.lemma_store_len(w2.subrange(16, 17));
        self.filetype.lemma_store_then_decode(w2.subrange(16, 17));
        let w3 = splice(w2, 16, b2);
        lemma_splice_subrange(w2, 16, b2, 0, 8);
        lemma_splice_subrange(w2, 16, b2, 8, 16);
        lemma_splice_subrange(w2, 16, b2, 16, 17);
        let b3 = self.nlink.store(w3.subrange(24, 32));
        self.nlink.lemma_store_len(w3.subrange(24, 32));
        self.nlink.lemma_store_then_decode(w3.subrange(24, 32));
        let w4 = splice(w3, 24, b3);
        lemma_splice_subrange(w3, 24, b3, 0, 8);
        lemma_splice_subrange(w3, 24, b3, 8, 16);
        lemma_splice_subrange(w3, 24, b3, 16, 17);
        lemma_splice_subrange(w3, 24, b3, 24, 32);
        let b4 = self.size.store(w4.subrange(32, 40));
        self.size.lemma_store_len(w4.subrange(32, 40));
        self.size.lemma_store_then_decode(w4.subrange(32, 40));
        let w5 = splice(w4, 32, b4);
        lemma_splice_subrange(w4, 32, b4, 0, 8);
        lemma_splice_subrange(w4, 32, b4, 8, 16);
        lemma_splice_subrange(w4, 32, b4, 16, 17);
        lemma_splice_subrange(w4, 32, b4, 24, 32);
        lemma_splice_subrange(w4, 32, b4, 32, 40);
        let b5 = self.atim.store(w5.subrange(40, 48));
        self.atim.lemma_store_len(w5.subrange(40, 48));
        self.atim.lemma_store_then_decode(w5.subrange(40, 48));
        let w6 = splice(w5, 40, b5);
        lemma_splice_subrange(w5, 40, b5, 0, 8);
        lemma_splice_subrange(w5, 40, b5, 8, 16);
        lemma_splice_subrange(w5, 40, b5, 16, 17);
        lemma_splice_subrange(w5, 40, b5, 24, 32);
        lemma_splice_subrange(w5, 40, b5, 32, 40);
        lemma_splice_subrange(w5, 40, b5, 40, 48);
        let b6 = self.mtim.store(w6.subrange(48, 56));
        self.mtim.lemma_store_len(w6.subrange(48, 56));
        self.mtim.lemma_store_then_decode(w6.subrange(48, 56));
        let w7 = splice(w6, 48, b6);
        lemma_splice_subrange(w6, 48, b6, 0, 8);
        lemma_splice_subrange(w6, 48, b6, 8, 16);
        lemma_splice_subrange(w6, 48, b6, 16, 17);
        lemma_splice_subrange(w6, 48, b6, 24, 32);
        lemma_splice_subrange(w6, 48, b6, 32, 40);
        lemma_splice_subrange(w6, 48, b6, 40, 48);
        lemma_splice_subrange(w6, 48, b6, 48, 56);
        let b7 = self.ctim.store(w7.subrange(56, 64));
        self.ctim.lemma_store_len(w7.subrange(56, 64));
        self.ctim.lemma_store_then_decode(w7.subrange(56, 64));
        let w8 = splice(w7, 56, b7);
        lemma_splice_subrange(w7, 56, b7, 0, 8);
        lemma_splice_subrange(w7, 56, b7, 8, 16);
        lemma_splice_subrange(w7, 56, b7, 16, 17);
        lemma_splice_subrange(w7, 56, b7, 24, 32);
        lemma_splice_subrange(w7, 56, b7, 32, 40);
        lemma_splice_subrange(w7, 56, b7, 40, 48);
        lemma_splice_subrange(w7, 56, b7, 48, 56);
        lemma_splice_subrange(w7, 56, b7, 56, 64);
    }

    proof fn lemma_decode_then_store(window: Seq<u8>) {
        <device>::lemma_layout();
        <inode>::lemma_layout();
        <filetype>::lemma_layout();
        <linkcount>::lemma_layout();
        <filesize>::lemma_layout();
        <timestamp>::lemma_layout();
        device::lemma_decode_then_store(window.subrange(0, 8));
        lemma_splice_same(window, 0, 8);
        inode::lemma_decode_then_store(window.subrange(8, 16));
        lemma_splice_same(window, 8, 8);
        filetype::lemma_decode_then_store(window.subrange(16, 17));
        lemma_splice_same(window, 16, 1);
        linkcount::lemma_decode_then_store(window.subrange(24, 32));
        lemma_splice_same(window, 24, 8);
        filesize::lemma_decode_then_store(window.subrange(32, 40));
        lemma_splice_same(window, 32, 8);
        timestamp::lemma_decode_then_store(window.subrange(40, 48));
        lemma_splice_same(window, 40, 8);
        timestamp::lemma_decode_then_store(window.subrange(48, 56));
        lemma_splice_same(window, 48, 8);
        timestamp::lemma_decode_then_store(window.subrange(56, 64));
        lemma_splice_same(window, 56, 8);
    }

    fn read(mem: &[u8]) -> (value: Self) {
        proof {
            <device>::lemma_layout();
            <inode>::lemma_layout();
            <filetype>::lemma_layout();
            <linkcount>::lemma_layout();
            <filesize>::lemma_layout();
            <timestamp>::lemma_layout();
        }
        filestat {
            dev: device::read(&mem[0..8]),
            ino: inode::read(&mem[8..16]),
            filetype: filetype::read(&mem[16..17]),
            nlink: linkcount::read(&mem[24..32]),
            size: filesize::read(&mem[32..40]),
            atim: timestamp::read(&mem[40..48]),
            mtim: timestamp::read(&mem[48..56]),
            ctim: timestamp::read(&mem[56..64]),
        }
    }

    fn write_at(self, mem: &mut [u8], at: usize) {
        proof {
            <device>::lemma_layout();
            <inode>::lemma_layout();
            <filetype>::lemma_layout();
            <linkcount>::lemma_layout();
            <filesize>::lemma_layout();
            <timestamp>::lemma_layout();
        }
        let ghost m0 = mem@;
        let ghost w0 = m0.subrange(at as int, at + 64);
        proof {
            lemma_splice_same(m0, at as int, 64);
        }
        let ghost b0 = self.dev.store(w0.subrange(0, 8));
        proof {
            self.dev.lemma_store_len(w0.subrange(0, 8));
            lemma_splice_nested(m0, at as int, 64, 0, b0);
            assert(m0.subrange(at + 0, at + 0 + 8) =~= w0.subrange(0, 8));
        }
        self.dev.write_at(mem, at);
        let ghost m1 = mem@;
        let ghost w1 = splice(w0, 0, b0);
        proof {
            assert(m1.subrange(at as int, at + 64) == w1);
            lemma_splice_twice(m0, at as int, w0, w1);
            assert(m1 == splice(m0, at as int, w1));
        }
        let ghost b1 = self.ino.store(w1.subrange(8, 16));
        proof {
            self.ino.lemma_store_len(w1.subrange(8, 16));
            lemma_splice_nested(m1, at as int, 64, 8, b1);
            assert(m1.subrange(at + 8, at + 8 + 8) =~= w1.subrange(8, 16));
        }
        self.ino.write_at(mem, at + 8);
        let ghost m2 = mem@;
        let ghost w2 = splice(w1, 8, b1);
        proof {
            assert(m2.subrange(at as int, at + 64) == w2);
            lemma_splice_twice(m0, at as int, w1, w2);
            assert(m2 == splice(m0, at as int, w2));
        }
        let ghost b2 = self.filetype.store(w2.subrange(16, 17));
        proof {
            self.filetype.lemma_store_len(w2.subrange(16, 17));
            lemma_splice_nested(m2, at as int, 64, 16, b2);
            assert(m2.subrange(at + 16, at + 16 + 1) =~= w2.subrange(16, 17));
        }
        self.filetype.write_at(mem, at + 16);
        let ghost m3 = mem@;
        let ghost w3 = splice(w2, 16, b2);
        proof {
            assert(m3.subrange(at as int, at + 64) == w3);
            lemma_splice_twice(m0, at as int, w2, w3);
            assert(m3 == splice(m0, at as int, w3));
        }
        let ghost b3 = self.nlink.store(w3.subrange(24, 32));
        proof {
            self.nlink.lemma_store_len(w3.subrange(24, 32));
            lemma_splice_nested(m3, at as int, 64, 24, b3);
            assert(m3.subrange(at + 24, at + 24 + 8) =~= w3.subrange(24, 32));
        }
        self.nlink.write_at(mem, at + 24);
        let ghost m4 = mem@;
        let ghost w4 = splice(w3, 24, b3);
        proof {
            assert(m4.subrange(at as int, at + 64) == w4);
            lemma_splice_twice(m0, at as int, w3, w4);
            assert(m4 == splice(m0, at as int, w4));
        }
        let ghost b4 = self.size.store(w4.subrange(32, 40));
        proof {
            self.size.lemma_store_len(w4.subrange(32, 40));
            lemma_splice_nested(m4, at as int, 64, 32, b4);
            assert(m4.subrange(at + 32, at + 32 + 8) =~= w4.subrange(32, 40));
        }
        self.size.write_at(mem, at + 32);
        let ghost m5 = mem@;
        let ghost w5 = splice(w4, 32, b4);
        proof {
            assert(m5.subrange(at as int, at + 64) == w5);
            lemma_splice_twice(m0, at as int, w4, w5);
            assert(m5 == splice(m0, at as int, w5));
        }
        let ghost b5 = self.atim.store(w5.subrange(40, 48));
        proof {
            self.atim.lemma_store_len(w5.subrange(40, 48));
            lemma_splice_nested(m5, at as int, 64, 40, b5);
            assert(m5.subrange(at + 40, at + 40 + 8) =~= w5.subrange(40, 48));
        }
        self.atim.write_at(mem, at + 40);
        let ghost m6 = mem@;
        let ghost w6 = splice(w5, 40, b5);
        proof {
            assert(m6.subrange(at as int, at + 64) == w6);
            lemma_splice_twice(m0, at as int, w5, w6);
            assert(m6 == splice(m0, at as int, w6));
        }
        let ghost b6 = self.mtim.store(w6.subrange(48, 56));
        proof {
            self.mtim.lemma_store_len(w6.subrange(48, 56));
            lemma_splice_nested(m6, at as int, 64, 48, b6);
            assert(m6.subrange(at + 48, at + 48 + 8) =~= w6.subrange(48, 56));
        }
        self.mtim.write_at(mem, at + 48);
        let ghost m7 = mem@;
        let ghost w7 = splice(w6, 48, b6);
        proof {
            assert(m7.subrange(at as int, at + 64) == w7);
            lemma_splice_twice(m0, at as int, w6, w7);
            assert(m7 == splice(m0, at as int, w7));
        }
        let ghost b7 = self.ctim.store(w7.subrange(56, 64));
        proof {
            self.ctim.lemma_store_len(w7.subrange(56, 64));
            lemma_splice_nested(m7, at as int, 64, 56, b7);
            assert(m7.subrange(at + 56, at + 56 + 8) =~= w7.subrange(56, 64));
        }
        self.ctim.write_at(mem, at + 56);
        let ghost m8 = mem@;
        let ghost w8 = splice(w7, 56, b7);
        proof {
            assert(m8.subrange(at as int, at + 64) == w8);
            lemma_splice_twice(m0, at as int, w7, w8);
            assert(m8 == splice(m0, at as int, w8));
        }
        proof {
            assert(w8 == self.store(w0));
        }
    }
}

/// The contents of an event for a read or write subscription.
#[derive(Debug, Clone, Copy, PartialEq, Eq, Structural)]
pub struct event_fd_readwrite {
    /// The number of bytes available for reading or writing.
    pub nbytes: filesize,
    /// The state of the file descriptor.
    pub flags: eventrwflags,
}

impl WasmValue for event_fd_readwrite {
    const SIZE: u32 = 16;

    const ARRAY_OFFSET: u32 = 16;

    open spec fn size() -> nat {
        16
    }

    open spec fn stride() -> nat {
        16
    }

    open spec fn decode(bytes: Seq<u8>) -> Self {
        event_fd_readwrite {
            nbytes: filesize::decode(bytes.subrange(0, 8)),
            flags: eventrwflags::decode(bytes.subrange(8, 10)),
        }
    }

    open spec fn store(self, window: Seq<u8>) -> Seq<u8> {
        let window = splice(window, 0, self.nbytes.store(window.subrange(0, 8)));
        splice(window, 8, self.flags.store(window.subrange(8, 10)))
    }

    open spec fn writable(self) -> bool {
        &&& self.nbytes.writable()
        &&& self.flags.writable()
    }

    open spec fn blank() -> Self {
        event_fd_readwrite {
            nbytes: filesize::blank(),
            flags: eventrwflags::blank(),
        }
    }

    proof fn lemma_layout() {
        assert(Self::SIZE == 16 && Self::size() == 16);
        assert(Self::ARRAY_OFFSET == 16 && Self::stride() == 16);
    }

    fn blank_value() -> (value: Self) {
        event_fd_readwrite {
            nbytes: filesize::blank_value(),
            flags: eventrwflags::blank_value(),
        }
    }

    proof fn lemma_store_len(self, window: Seq<u8>) {
        <filesize>::lemma_layout();
        <eventrwflags>::lemma_layout();
        let w0 = window;
        self.nbytes.lemma_store_len(w0.subrange(0, 8));
        let w1 = splice(w0, 0, self.nbytes.store(w0.subrange(0, 8)));
        self.flags.lemma_store_len(w1.subrange(8, 10));
    }

    proof fn lemma_store_then_decode(self, window: Seq<u8>) {
        <filesize>::lemma_layout();
        <eventrwflags>::lemma_layout();
        let w0 = window;
        let b0 = self.nbytes.store(w0.subrange(0, 8));
        self.nbytes.lemma_store_len(w0.subrange(0, 8));
        self.nbytes.lemma_store_then_decode(w0.subrange(0, 8));
        let w1 = splice(w0, 0, b0);
        lemma_splice_subrange(w0, 0, b0, 0, 8);
        let b1 = self.flags.store(w1.subrange(8, 10));
        self.flags.lemma_store_len(w1.subrange(8, 10));
        self.flags.lemma_store_then_decode(w1.subrange(8, 10));
        let w2 = splice(w1, 8, b1);
        lemma_splice_subrange(w1, 8, b1, 0, 8);
        lemma_splice_subrange(w1, 8, b1, 8, 10);
    }

    proof fn lemma_decode_then_store(window: Seq<u8>) {
        <filesize>::lemma_layout();
        <eventrwflags>::lemma_layout();
        filesize::lemma_decode_then_store(window.subrange(0, 8));
        lemma_splice_same(window, 0, 8);
        eventrwflags::lemma_decode_then_store(window.subrange(8, 10));
        lemma_splice_same(window, 8, 2);
    }

    fn read(mem: &[u8]) -> (value: Self) {
        proof {
            <filesize>::lemma_layout();
            <eventrwflags>::lemma_layout();
        }
        event_fd_readwrite {
            nbytes: filesize::read(&mem[0..8]),
            flags: eventrwflags::read(&mem[8..10]),
        }
    }

    fn write_at(self, mem: &mut [u8], at: usize) {
        proof {
            <filesize>::lemma_layout();
            <eventrwflags>::lemma_layout();
        }
        let ghost m0 = mem@;
        let ghost w0 = m0.subrange(at as int, at + 16);
        proof {
            lemma_splice_same(m0, at as int, 16);
        }
        let ghost b0 = self.nbytes.store(w0.subrange(0, 8));
        proof {
            self.nbytes.lemma_store_len(w0.subrange(0, 8));
            lemma_splice_nested(m0, at as int, 16, 0, b0);
            assert(m0.subrange(at + 0, at + 0 + 8) =~= w0.subrange(0, 8));
        }
        self.nbytes.write_at(mem, at);
        let ghost m1 = mem@;
        let ghost w1 = splice(w0, 0, b0);
        proof {
            assert(m1.subrange(at as int, at + 16) == w1);
            lemma_splice_twice(m0, at as int, w0, w1);
            assert(m1 == splice(m0, at as int, w1));
        }
        let ghost b1 = self.flags.store(w1.subrange(8, 10));
        proof {
            self.flags.lemma_store_len(w1.subrange(8, 10));
            lemma_splice_nested(m1, at as int, 16, 8, b1);
            assert(m1.subrange(at + 8, at + 8 + 2) =~= w1.subrange(8, 10));
        }
        self.flags.write_at(mem, at + 8);
        let ghost m2 = mem@;
        let ghost w2 = splice(w1, 8, b1);
        proof {
            assert(m2.subrange(at as int, at + 16) == w2);
            lemma_splice_twice(m0, at as int, w1, w2);
            assert(m2 == splice(m0, at as int, w2));
        }
        proof {
            assert(w2 == self.store(w0));
        }
    }
}

/// An event that occurred.
#[derive(Debug, Clone, Copy, PartialEq, Eq, Structural)]
pub struct event {
    /// User-provided value that got attached to the subscription.
    pub userdata: userdata,
    /// If non-zero, an error that occurred while processing the subscription request.
    pub error: errno,
    /// The type of event that occurred.
    pub type_: eventtype,
    /// The contents of the event, if it is a read or write event.
    pub fd_readwrite: event_fd_readwrite,
}

impl WasmValue for event {
    const SIZE: u32 = 32;

    const ARRAY_OFFSET: u32 = 32;

    open spec fn size() -> nat {
        32
    }

    open spec fn stride() -> nat {
        32
    }

    open spec fn decode(bytes: Seq<u8>) -> Self {
        event {
            userdata: userdata::decode(bytes.subrange(0, 8)),
            error: errno::decode(bytes.subrange(8, 10)),
            type_: eventtype::decode(bytes.subrange(10, 11)),
            fd_readwrite: event_fd_readwrite::decode(bytes.subrange(16, 32)),
        }
    }

    open spec fn store(self, window: Seq<u8>) -> Seq<u8> {
        let window = splice(window, 0, self.userdata.store(window.subrange(0, 8)));
        let window = splice(window, 8, self.error.store(window.subrange(8, 10)));
        let window = splice(window, 10, self.type_.store(window.subrange(10, 11)));
        splice(window, 16, self.fd_readwrite.store(window.subrange(16, 32)))
    }

    open spec fn writable(self) -> bool {
        &&& self.userdata.writable()
        &&& self.error.writable()
        &&& self.type_.writable()
        &&& self.fd_readwrite.writable()
    }

    open spec fn blank() -> Self {
        event {
            userdata: userdata::blank(),
            error: errno::blank(),
            type_: eventtype::blank(),
            fd_readwrite: event_fd_readwrite::blank(),
        }
    }

    proof fn lemma_layout() {
        assert(Self::SIZE == 32 && Self::size() == 32);
        assert(Self::ARRAY_OFFSET == 32 && Self::stride() == 32);
    }

    fn blank_value() -> (value: Self) {
        event {
            userdata: userdata::blank_value(),
            error: errno::blank_value(),
            type_: eventtype::blank_value(),
            fd_readwrite: event_fd_readwrite::blank_value(),
        }
    }

    proof fn lemma_store_len(self, window: Seq<u8>) {
        <userdata>::lemma_layout();
        <errno>::lemma_layout();
        <eventtype>::lemma_layout();
        <event_fd_readwrite>::lemma_layout();
        let w0 = window;
        self.userdata.lemma_store_len(w0.subrange(0, 8));
        let w1 = splice(w0, 0, self.userdata.store(w0.subrange(0, 8)));
        self.error.lemma_store_len(w1.subrange(8, 10));
        let w2 = splice(w1, 8, self.error.store(w1.subrange(8, 10)));
        self.type_.lemma_store_len(w2.subrange(10, 11));
        let w3 = splice(w2, 10, self.type_.store(w2.subrange(10, 11)));
        self.fd_readwrite.lemma_store_len(w3.subrange(16, 32));
    }

    proof fn lemma_store_then_decode(self, window: Seq<u8>) {
        <userdata>::lemma_layout();
        <errno>::lemma_layout();
        <eventtype>::lemma_layout();
        <event_fd_readwrite>::lemma_layout();
        let w0 = window;
        let b0 = self.userdata.store(w0.subrange(0, 8));
        self.userdata.lemma_store_len(w0.subrange(0, 8));
        self.userdata.lemma_store_then_decode(w0.subrange(0, 8));
        let w1 = splice(w0, 0, b0);
        lemma_splice_subrange(w0, 0, b0, 0, 8);
        let b1 = self.error.store(w1.subrange(8, 10));
        self.error.lemma_store_len(w1.subrange(8, 10));
        self.error.lemma_store_then_decode(w1.subrange(8, 10));
        let w2 = splice(w1, 8, b1);
        lemma_splice_subrange(w1, 8, b1, 0, 8);
        lemma_splice_subrange(w1, 8, b1, 8, 10);
        let b2 = self.type_.store(w2.subrange(10, 11));
        self.type_.lemma_store_len(w2.subrange(10, 11));
        self.type_.lemma_store_then_decode(w2.subrange(10, 11));
        let w3 = splice(w2, 10, b2);
        lemma_splice_subrange(w2, 10, b2, 0, 8);
        lemma_splice_subrange(w2, 10, b2, 8, 10);
        lemma_splice_subrange(w2, 10, b2, 10, 11);
        let b3 = self.fd_readwrite.store(w3.subrange(16, 32));
        self.fd_readwrite.lemma_store_len(w3.subrange(16, 32));
        self.fd_readwrite.lemma_store_then_decode(w3.subrange(16, 32));
        let w4 = splice(w3, 16, b3);
        lemma_splice_subrange(w3, 16, b3, 0, 8);
        lemma_splice_subrange(w3, 16, b3, 8, 10);
        lemma_splice_subrange(w3, 16, b3, 10, 11);
        lemma_splice_subrange(w3, 16, b3, 16, 32);
    }

    proof fn lemma_decode_then_store(window: Seq<u8>) {
        <userdata>::lemma_layout();
        <errno>::lemma_layout();
        <eventtype>::lemma_layout();
        <event_fd_readwrite>::lemma_layout();
        userdata::lemma_decode_then_store(window.subrange(0, 8));
        lemma_splice_same(window, 0, 8);
        errno::lemma_decode_then_store(window.subrange(8, 10));
        lemma_splice_same(window, 8, 2);
        eventtype::lemma_decode_then_store(window.subrange(10, 11));
        lemma_splice_same(window, 10, 1);
        event_fd_readwrite::lemma_decode_then_store(window.subrange(16, 32));
        lemma_splice_same(window, 16, 16);
    }

    fn read(mem: &[u8]) -> (value: Self) {
        proof {
            <userdata>::lemma_layout();
            <errno>::lemma_layout();
            <eventtype>::lemma_layout();
            <event_fd_readwrite>::lemma_layout();
        }
        event {
            userdata: userdata::read(&mem[0..8]),
            error: errno::read(&mem[8..10]),
            type_: eventtype::read(&mem[10..11]),
            fd_readwrite: event_fd_readwrite::read(&mem[16..32]),
        }
    }

    fn write_at(self, mem: &mut [u8], at: usize) {
        proof {
            <userdata>::lemma_layout();
            <errno>::lemma_layout();
            <eventtype>::lemma_layout();
            <event_fd_readwrite>::lemma_layout();
        }
        let ghost m0 = mem@;
        let ghost w0 = m0.subrange(at as int, at + 32);
        proof {
            lemma_splice_same(m0, at as int, 32);
        }
        let ghost b0 = self.userdata.store(w0.subrange(0, 8));
        proof {
            self.userdata.lemma_store_len(w0.subrange(0, 8));
            lemma_splice_nested(m0, at as int, 32, 0, b0);
            assert(m0.subrange(at + 0, at + 0 + 8) =~= w0.subrange(0, 8));
        }
        self.userdata.write_at(mem, at);
        let ghost m1 = mem@;
        let ghost w1 = splice(w0, 0, b0);
        proof {
            assert(m1.subrange(at as int, at + 32) == w1);
            lemma_splice_twice(m0, at as int, w0, w1);
            assert(m1 == splice(m0, at as int, w1));
        }
        let ghost b1 = self.error.store(w1.subrange(8, 10));
        proof {
            self.error.lemma_store_len(w1.subrange(8, 10));
            lemma_splice_nested(m1, at as int, 32, 8, b1);
            assert(m1.subrange(at + 8, at + 8 + 2) =~= w1.subrange(8, 10));
        }
        self.error.write_at(mem, at + 8);
        let ghost m2 = mem@;
        let ghost w2 = splice(w1, 8, b1);
        proof {
            assert(m2.subrange(at as int, at + 32) == w2);
            lemma_splice_twice(m0, at as int, w1, w2);
            assert(m2 == splice(m0, at as int, w2));
        }
        let ghost b2 = self.type_.store(w2.subrange(10, 11));
        proof {
            self.type_.lemma_store_len(w2.subrange(10, 11));
            lemma_splice_nested(m2, at as int, 32, 10, b2);
            assert(m2.subrange(at + 10, at + 10 + 1) =~= w2.subrange(10, 11));
        }
        self.type_.write_at(mem, at + 10);
        let ghost m3 = mem@;
        let ghost w3 = splice(w2, 10, b2);
        proof {
            assert(m3.subrange(at as int, at + 32) == w3);
            lemma_splice_twice(m0, at as int, w2, w3);
            assert(m3 == splice(m0, at as int, w3));
        }
        let ghost b3 = self.fd_readwrite.store(w3.subrange(16, 32));
        proof {
            self.fd_readwrite.lemma_store_len(w3.subrange(16, 32));
            lemma_splice_nested(m3, at as int, 32, 16, b3);
            assert(m3.subrange(at + 16, at + 16 + 16) =~= w3.subrange(16, 32));
        }
        self.fd_readwrite.write_at(mem, at + 16);
        let ghost m4 = mem@;
        let ghost w4 = splice(w3, 16, b3);
        proof {
            assert(m4.subrange(at as int, at + 32) == w4);
            lemma_splice_twice(m0, at as int, w3, w4);
            assert(m4 == splice(m0, at as int, w4));
        }
        proof {
            assert(w4 == self.store(w0));
        }
    }
}

/// The contents of a subscription to a clock.
#[derive(Debug, Clone, Copy, PartialEq, Eq, Structural)]
pub struct subscription_clock {
    /// The clock against which to compare the timestamp.
    pub id: clockid,
    /// The absolute or relative timestamp.
    pub timeout: timestamp,
    /// The amount of time that may be waited in addition to the timestamp.
    pub precision: timestamp,
    /// Flags specifying whether the timeout is absolute or relative.
    pub flags: subclockflags,
}

impl WasmValue for subscription_clock {
    const SIZE: u32 = 32;

    const ARRAY_OFFSET: u32 = 32;

    open spec fn size() -> nat {
        32
    }

    open spec fn stride() -> nat {
        32
    }

    open spec fn decode(bytes: Seq<u8>) -> Self {
        subscription_clock {
            id: clockid::decode(bytes.subrange(0, 4)),
            timeout: timestamp::decode(bytes.subrange(8, 16)),
            precision: timestamp::decode(bytes.subrange(16, 24)),
            flags: subclockflags::decode(bytes.subrange(24, 26)),
        }
    }

    open spec fn store(self, window: Seq<u8>) -> Seq<u8> {
        let window = splice(window, 0, self.id.store(window.subrange(0, 4)));
        let window = splice(window, 8, self.timeout.store(window.subrange(8, 16)));
        let window = splice(window, 16, self.precision.store(window.subrange(16, 24)));
        splice(window, 24, self.flags.store(window.subrange(24, 26)))
    }

    open spec fn writable(self) -> bool {
        &&& self.id.writable()
        &&& self.timeout.writable()
        &&& self.precision.writable()
        &&& self.flags.writable()
    }

    open spec fn blank() -> Self {
        subscription_clock {
            id: clockid::blank(),
            timeout: timestamp::blank(),
            precision: timestamp::blank(),
            flags: subclockflags::blank(),
        }
    }

    proof fn lemma_layout() {
        assert(Self::SIZE == 32 && Self::size() == 32);
        assert(Self::ARRAY_OFFSET == 32 && Self::stride() == 32);
    }

    fn blank_value() -> (value: Self) {
        subscription_clock {
            id: clockid::blank_value(),
            timeout: timestamp::blank_value(),
            precision: timestamp::blank_value(),
            flags: subclockflags::blank_value(),
        }
    }

    proof fn lemma_store_len(self, window: Seq<u8>) {
        <clockid>::lemma_layout();
        <timestamp>::lemma_layout();
        <subclockflags>::lemma_layout();
        let w0 = window;
        self.id.lemma_store_len(w0.subrange(0, 4));
        let w1 = splice(w0, 0, self.id.store(w0.subrange(0, 4)));
        self.timeout.lemma_store_len(w1.subrange(8, 16));
        let w2 = splice(w1, 8, self.timeout.store(w1.subrange(8, 16)));
        self.precision.lemma_store_len(w2.subrange(16, 24));
        let w3 = splice(w2, 16, self.precision.store(w2.subrange(16, 24)));
        self.flags.lemma_store_len(w3.subrange(24, 26));
    }

    proof fn lemma_store_then_decode(self, window: Seq<u8>) {
        <clockid>::lemma_layout();
        <timestamp>::lemma_layout();
        <subclockflags>::lemma_layout();
        let w0 = window;
        let b0 = self.id.store(w0.subrange(0, 4));
        self.id.lemma_store_len(w0.subrange(0, 4));
        self.id.lemma_store_then_decode(w0.subrange(0, 4));
        let w1 = splice(w0, 0, b0);
        lemma_splice_subrange(w0, 0, b0, 0, 4);
        let b1 = self.timeout.store(w1.subrange(8, 16));
        self.timeout.lemma_store_len(w1.subrange(8, 16));
        self.timeout.lemma_store_then_decode(w1.subrange(8, 16));
        let w2 = splice(w1, 8, b1);
        lemma_splice_subrange(w1, 8, b1, 0, 4);
        lemma_splice_subrange(w1, 8, b1, 8, 16);
        let b2 = self.precision.store(w2.subrange(16, 24));
        self.precision.lemma_store_len(w2.subrange(16, 24));
        self.precision.lemma_store_then_decode(w2.subrange(16, 24));
        let w3 = splice(w2, 16, b2);
        lemma_splice_subrange(w2, 16, b2, 0, 4);
        lemma_splice_subrange(w2, 16, b2, 8, 16);
        lemma_splice_subrange(w2, 16, b2, 16, 24);
        let b3 = self.flags.store(w3.subrange(24, 26));
        self.flags.lemma_store_len(w3.subrange(24, 26));
        self.flags.lemma_store_then_decode(w3.subrange(24, 26));
        let w4 = splice(w3, 24, b3);
        lemma_splice_subrange(w3, 24, b3, 0, 4);
        lemma_splice_subrange(w3, 24, b3, 8, 16);
        lemma_splice_subrange(w3, 24, b3, 16, 24);
        lemma_splice_subrange(w3, 24, b3, 24, 26);
    }

    proof fn lemma_decode_then_store(window: Seq<u8>) {
        <clockid>::lemma_layout();
        <timestamp>::lemma_layout();
        <subclockflags>::lemma_layout();
        clockid::lemma_decode_then_store(window.subrange(0, 4));
        lemma_splice_same(window, 0, 4);
        timestamp::lemma_decode_then_store(window.subrange(8, 16));
        lemma_splice_same(window, 8, 8);
        timestamp::lemma_decode_then_store(window.subrange(16, 24));
        lemma_splice_same(window, 16, 8);
        subclockflags::lemma_decode_then_store(window.subrange(24, 26));
        lemma_splice_same(window, 24, 2);
    }

    fn read(mem: &[u8]) -> (value: Self) {
        proof {
            <clockid>::lemma_layout();
            <timestamp>::lemma_layout();
            <subclockflags>::lemma_layout();
        }
        subscription_clock {
            id: clockid::read(&mem[0..4]),
            timeout: timestamp::read(&mem[8..16]),
            precision: timestamp::read(&mem[16..24]),
            flags: subclockflags::read(&mem[24..26]),
        }
    }

    fn write_at(self, mem: &mut [u8], at: usize) {
        proof {
            <clockid>::lemma_layout();
            <timestamp>::lemma_layout();
            <subclockflags>::lemma_layout();
        }
        let ghost m0 = mem@;
        let ghost w0 = m0.subrange(at as int, at + 32);
        proof {
            lemma_splice_same(m0, at as int, 32);
        }
        let ghost b0 = self.id.store(w0.subrange(0, 4));
        proof {
            self.id.lemma_store_len(w0.subrange(0, 4));
            lemma_splice_nested(m0, at as int, 32, 0, b0);
            assert(m0.subrange(at + 0, at + 0 + 4) =~= w0.subrange(0, 4));
        }
        self.id.write_at(mem, at);
        let ghost m1 = mem@;
        let ghost w1 = splice(w0, 0, b0);
        proof {
            assert(m1.subrange(at as int, at + 32) == w1);
            lemma_splice_twice(m0, at as int, w0, w1);
            assert(m1 == splice(m0, at as int, w1));
        }
        let ghost b1 = self.timeout.store(w1.subrange(8, 16));
        proof {
            self.timeout.lemma_store_len(w1.subrange(8, 16));
            lemma_splice_nested(m1, at as int, 32, 8, b1);
            assert(m1.subrange(at + 8, at + 8 + 8) =~= w1.subrange(8, 16));
        }
        self.timeout.write_at(mem, at + 8);
        let ghost m2 = mem@;
        let ghost w2 = splice(w1, 8, b1);
        proof {
            assert(m2.subrange(at as int, at + 32) == w2);
            lemma_splice_twice(m0, at as int, w1, w2);
            assert(m2 == splice(m0, at as int, w2));
        }
        let ghost b2 = self.precision.store(w2.subrange(16, 24));
        proof {
            self.precision.lemma_store_len(w2.subrange(16, 24));
            lemma_splice_nested(m2, at as int, 32, 16, b2);
            assert(m2.subrange(at + 16, at + 16 + 8) =~= w2.subrange(16, 24));
        }
        self.precision.write_at(mem, at + 16);
        let ghost m3 = mem@;
        let ghost w3 = splice(w2, 16, b2);
        proof {
            assert(m3.subrange(at as int, at + 32) == w3);
            lemma_splice_twice(m0, at as int, w2, w3);
            assert(m3 == splice(m0, at as int, w3));
        }
        let ghost b3 = self.flags.store(w3.subrange(24, 26));
        proof {
            self.flags.lemma_store_len(w3.subrange(24, 26));
            lemma_splice_nested(m3, at as int, 32, 24, b3);
            assert(m3.subrange(at + 24, at + 24 + 2) =~= w3.subrange(24, 26));
        }
        self.flags.write_at(mem, at + 24);
        let ghost m4 = mem@;
        let ghost w4 = splice(w3, 24, b3);
        proof {
            assert(m4.subrange(at as int, at + 32) == w4);
            lemma_splice_twice(m0, at as int, w3, w4);
            assert(m4 == splice(m0, at as int, w4));
        }
        proof {
            assert(w4 == self.store(w0));
        }
    }
}

/// The contents of a subscription to a read or write event.
#[derive(Debug, Clone, Copy, PartialEq, Eq, Structural)]
pub struct subscription_fd_readwrite {
    /// The file descriptor on which to wait.
    pub file_descriptor: fd,
}

impl WasmValue for subscription_fd_readwrite {
    const SIZE: u32 = 4;

    const ARRAY_OFFSET: u32 = 4;

    open spec fn size() -> nat {
        4
    }

    open spec fn stride() -> nat {
        4
    }

    open spec fn decode(bytes: Seq<u8>) -> Self {
        subscription_fd_readwrite {
            file_descriptor: fd::decode(bytes.subrange(0, 4)),
        }
    }

    open spec fn store(self, window: Seq<u8>) -> Seq<u8> {
        splice(window, 0, self.file_descriptor.store(window.subrange(0, 4)))
    }

    open spec fn writable(self) -> bool {
        &&& self.file_descriptor.writable()
    }

    open spec fn blank() -> Self {
        subscription_fd_readwrite {
            file_descriptor: fd::blank(),
        }
    }

    proof fn lemma_layout() {
        assert(Self::SIZE == 4 && Self::size() == 4);
        assert(Self::ARRAY_OFFSET == 4 && Self::stride() == 4);
    }

    fn blank_value() -> (value: Self) {
        subscription_fd_readwrite {
            file_descriptor: fd::blank_value(),
        }
    }

    proof fn lemma_store_len(self, window: Seq<u8>) {
        <fd>::lemma_layout();
        let w0 = window;
        self.file_descriptor.lemma_store_len(w0.subrange(0, 4));
    }

    proof fn lemma_store_then_decode(self, window: Seq<u8>) {
        <fd>::lemma_layout();
        let w0 = window;
        let b0 = self.file_descriptor.store(w0.subrange(0, 4));
        self.file_descriptor.lemma_store_len(w0.subrange(0, 4));
        self.file_descriptor.lemma_store_then_decode(w0.subrange(0, 4));
        let w1 = splice(w0, 0, b0);
        lemma_splice_subrange(w0, 0, b0, 0, 4);
    }

    proof fn lemma_decode_then_store(window: Seq<u8>) {
        <fd>::lemma_layout();
        fd::lemma_decode_then_store(window.subrange(0, 4));
        lemma_splice_same(window, 0, 4);
    }

    fn read(mem: &[u8]) -> (value: Self) {
        proof {
            <fd>::lemma_layout();
        }
        subscription_fd_readwrite {
            file_descriptor: fd::read(&mem[0..4]),
        }
    }

    fn write_at(self, mem: &mut [u8], at: usize) {
        proof {
            <fd>::lemma_layout();
        }
        let ghost m0 = mem@;
        let ghost w0 = m0.subrange(at as int, at + 4);
        proof {
            lemma_splice_same(m0, at as int, 4);
        }
        let ghost b0 = self.file_descriptor.store(w0.subrange(0, 4));
        proof {
            self.file_descriptor.lemma_store_len(w0.subrange(0, 4));
            lemma_splice_nested(m0, at as int, 4, 0, b0);
            assert(m0.subrange(at + 0, at + 0 + 4) =~= w0.subrange(0, 4));
        }
        self.file_descriptor.write_at(mem, at);
        let ghost m1 = mem@;
        let ghost w1 = splice(w0, 0, b0);
        proof {
            assert(m1.subrange(at as int, at + 4) == w1);
            lemma_splice_twice(m0, at as int, w0, w1);
            assert(m1 == splice(m0, at as int, w1));
        }
        proof {
            assert(w1 == self.store(w0));
        }
    }
}

/// The contents of a prestat when it is a pre-opened directory.
#[derive(Debug, Clone, Copy, PartialEq, Eq, Structural)]
pub struct prestat_dir {
    /// The length of the directory name for use with `fd_prestat_dir_name`.
    pub pr_name_len: size,
}

impl WasmValue for prestat_dir {
    const SIZE: u32 = 4;

    const ARRAY_OFFSET: u32 = 4;

    open spec fn size() -> nat {
        4
    }

    open spec fn stride() -> nat {
        4
    }

    open spec fn decode(bytes: Seq<u8>) -> Self {
        prestat_dir {
            pr_name_len: size::decode(bytes.subrange(0, 4)),
        }
    }

    open spec fn store(self, window: Seq<u8>) -> Seq<u8> {
        splice(window, 0, self.pr_name_len.store(window.subrange(0, 4)))
    }

    open spec fn writable(self) -> bool {
        &&& self.pr_name_len.writable()
    }

    open spec fn blank() -> Self {
        prestat_dir {
            pr_name_len: size::blank(),
        }
    }

    proof fn lemma_layout() {
        assert(Self::SIZE == 4 && Self::size() == 4);
        assert(Self::ARRAY_OFFSET == 4 && Self::stride() == 4);
    }

    fn blank_value() -> (value: Self) {
        prestat_dir {
            pr_name_len: size::blank_value(),
        }
    }

    proof fn lemma_store_len(self, window: Seq<u8>) {
        <size>::lemma_layout();
        let w0 = window;
        self.pr_name_len.lemma_store_len(w0.subrange(0, 4));
    }

    proof fn lemma_store_then_decode(self, window: Seq<u8>) {
        <size>::lemma_layout();
        let w0 = window;
        let b0 = self.pr_name_len.store(w0.subrange(0, 4));
        self.pr_name_len.lemma_store_len(w0.subrange(0, 4));
        self.pr_name_len.lemma_store_then_decode(w0.subrange(0, 4));
        let w1 = splice(w0, 0, b0);
        lemma_splice_subrange(w0, 0, b0, 0, 4);
    }

    proof fn lemma_decode_then_store(window: Seq<u8>) {
        <size>::lemma_layout();
        size::lemma_decode_then_store(window.subrange(0, 4));
        lemma_splice_same(window, 0, 4);
    }

    fn read(mem: &[u8]) -> (value: Self) {
        proof {
            <size>::lemma_layout();
        }
        prestat_dir {
            pr_name_len: size::read(&mem[0..4]),
        }
    }

    fn write_at(self, mem: &mut [u8], at: usize) {
        proof {
            <size>::lemma_layout();
        }
        let ghost m0 = mem@;
        let ghost w0 = m0.subrange(at as int, at + 4);
        proof {
            lemma_splice_same(m0, at as int, 4);
        }
        let ghost b0 = self.pr_name_len.store(w0.subrange(0, 4));
        proof {
            self.pr_name_len.lemma_store_len(w0.subrange(0, 4));
            lemma_splice_nested(m0, at as int, 4, 0, b0);
            assert(m0.subrange(at + 0, at + 0 + 4) =~= w0.subrange(0, 4));
        }
        self.pr_name_len.write_at(mem, at);
        let ghost m1 = mem@;
        let ghost w1 = splice(w0, 0, b0);
        proof {
            assert(m1.subrange(at as int, at + 4) == w1);
            lemma_splice_twice(m0, at as int, w0, w1);
            assert(m1 == splice(m0, at as int, w1));
        }
        proof {
            assert(w1 == self.store(w0));
        }
    }
}

/// The contents of a subscription.
#[derive(Debug, Clone, Copy, PartialEq, Eq, Structural)]
pub enum subscription_u {
    /// A subscription to a clock.
    clock(subscription_clock),
    /// A subscription to data being available for reading.
    fd_read(subscription_fd_readwrite),
    /// A subscription to capacity being available for writing.
    fd_write(subscription_fd_readwrite),
    /// What a tag that is not recognized reads as.
    Unknown,
}

impl WasmValue for subscription_u {
    const SIZE: u32 = 40;

    const ARRAY_OFFSET: u32 = 40;

    open spec fn size() -> nat {
        40
    }

    open spec fn stride() -> nat {
        40
    }

    open spec fn decode(bytes: Seq<u8>) -> Self {
        let tag = u8::decode(bytes.subrange(0, 1));
        if tag == 0 {
            subscription_u::clock(subscription_clock::decode(bytes.subrange(8, 40)))
        } else if tag == 1 {
            subscription_u::fd_read(subscription_fd_readwrite::decode(bytes.subrange(8, 12)))
        } else if tag == 2 {
            subscription_u::fd_write(subscription_fd_readwrite::decode(bytes.subrange(8, 12)))
        } else {
            subscription_u::Unknown
        }
    }

    open spec fn store(self, window: Seq<u8>) -> Seq<u8> {
        match self {
            subscription_u::clock(value) => {
                let tag: u8 = 0;
                let window = splice(window, 0, tag.store(window.subrange(0, 1)));
                splice(window, 8, value.store(window.subrange(8, 40)))
            },
            subscription_u::fd_read(value) => {
                let tag: u8 = 1;
                let window = splice(window, 0, tag.store(window.subrange(0, 1)));
                splice(window, 8, value.store(window.subrange(8, 12)))
            },
            subscription_u::fd_write(value) => {
                let tag: u8 = 2;
                let window = splice(window, 0, tag.store(window.subrange(0, 1)));
                splice(window, 8, value.store(window.subrange(8, 12)))
            },
            subscription_u::Unknown => window,
        }
    }

    open spec fn writable(self) -> bool {
        match self {
            subscription_u::clock(value) => value.writable(),
            subscription_u::fd_read(value) => value.writable(),
            subscription_u::fd_write(value) => value.writable(),
            subscription_u::Unknown => false,
        }
    }

    open spec fn blank() -> Self {
        subscription_u::clock(subscription_clock::blank())
    }

    proof fn lemma_layout() {
        assert(Self::SIZE == 40 && Self::size() == 40);
        assert(Self::ARRAY_OFFSET == 40 && Self::stride() == 40);
    }

    fn blank_value() -> (value: Self) {
        subscription_u::clock(subscription_clock::blank_value())
    }

    proof fn lemma_store_len(self, window: Seq<u8>) {
        <u8>::lemma_layout();
        <subscription_clock>::lemma_layout();
        <subscription_fd_readwrite>::lemma_layout();
        match self {
            subscription_u::clock(value) => {
                let tag: u8 = 0;
                tag.lemma_store_len(window.subrange(0, 1));
                let w1 = splice(window, 0, tag.store(window.subrange(0, 1)));
                value.lemma_store_len(w1.subrange(8, 40));
            },
            subscription_u::fd_read(value) => {
                let tag: u8 = 1;
                tag.lemma_store_len(window.subrange(0, 1));
                let w1 = splice(window, 0, tag.store(window.subrange(0, 1)));
                value.lemma_store_len(w1.subrange(8, 12));
            },
            subscription_u::fd_write(value) => {
                let tag: u8 = 2;
                tag.lemma_store_len(window.subrange(0, 1));
                let w1 = splice(window, 0, tag.store(window.subrange(0, 1)));
                value.lemma_store_len(w1.subrange(8, 12));
            },
            subscription_u::Unknown => {
            },
        }
    }

    proof fn lemma_store_then_decode(self, window: Seq<u8>) {
        <u8>::lemma_layout();
        <subscription_clock>::lemma_layout();
        <subscription_fd_readwrite>::lemma_layout();
        match self {
            subscription_u::clock(value) => {
                let tag: u8 = 0;
                let b0 = tag.store(window.subrange(0, 1));
                tag.lemma_store_len(window.subrange(0, 1));
                tag.lemma_store_then_decode(window.subrange(0, 1));
                let w1 = splice(window, 0, b0);
                lemma_splice_subrange(window, 0, b0, 0, 1);
                let b1 = value.store(w1.subrange(8, 40));
                value.lemma_store_len(w1.subrange(8, 40));
                value.lemma_store_then_decode(w1.subrange(8, 40));
                lemma_splice_subrange(w1, 8, b1, 0, 1);
                lemma_splice_subrange(w1, 8, b1, 8, 40);
            },
            subscription_u::fd_read(value) => {
                let tag: u8 = 1;
                let b0 = tag.store(window.subrange(0, 1));
                tag.lemma_store_len(window.subrange(0, 1));
                tag.lemma_store_then_decode(window.subrange(0, 1));
                let w1 = splice(window, 0, b0);
                lemma_splice_subrange(window, 0, b0, 0, 1);
                let b1 = value.store(w1.subrange(8, 12));
                value.lemma_store_len(w1.subrange(8, 12));
                value.lemma_store_then_decode(w1.subrange(8, 12));
                lemma_splice_subrange(w1, 8, b1, 0, 1);
                lemma_splice_subrange(w1, 8, b1, 8, 12);
            },
            subscription_u::fd_write(value) => {
                let tag: u8 = 2;
                let b0 = tag.store(window.subrange(0, 1));
                tag.lemma_store_len(window.subrange(0, 1));
                tag.lemma_store_then_decode(window.subrange(0, 1));
                let w1 = splice(window, 0, b0);
                lemma_splice_subrange(window, 0, b0, 0, 1);
                let b1 = value.store(w1.subrange(8, 12));
                value.lemma_store_len(w1.subrange(8, 12));
                value.lemma_store_then_decode(w1.subrange(8, 12));
                lemma_splice_subrange(w1, 8, b1, 0, 1);
                lemma_splice_subrange(w1, 8, b1, 8, 12);
            },
            subscription_u::Unknown => {
            },
        }
    }

    proof fn lemma_decode_then_store(window: Seq<u8>) {
        <u8>::lemma_layout();
        <subscription_clock>::lemma_layout();
        <subscription_fd_readwrite>::lemma_layout();
        u8::lemma_decode_then_store(window.subrange(0, 1));
        lemma_splice_same(window, 0, 1);
        match Self::decode(window) {
            subscription_u::clock(value) => {
                subscription_clock::lemma_decode_then_store(window.subrange(8, 40));
                lemma_splice_same(window, 8, 32);
            },
            subscription_u::fd_read(value) => {
                subscription_fd_readwrite::lemma_decode_then_store(window.subrange(8, 12));
                lemma_splice_same(window, 8, 4);
            },
            subscription_u::fd_write(value) => {
                subscription_fd_readwrite::lemma_decode_then_store(window.subrange(8, 12));
                lemma_splice_same(window, 8, 4);
            },
            subscription_u::Unknown => {
            },
        }
    }

    fn read(mem: &[u8]) -> (value: Self) {
        proof {
            <u8>::lemma_layout();
            <subscription_clock>::lemma_layout();
            <subscription_fd_readwrite>::lemma_layout();
        }
        let tag: u8 = u8::read(&mem[0..1]);
        if tag == 0 {
            subscription_u::clock(subscription_clock::read(&mem[8..40]))
        } else if tag == 1 {
            subscription_u::fd_read(subscription_fd_readwrite::read(&mem[8..12]))
        } else if tag == 2 {
            subscription_u::fd_write(subscription_fd_readwrite::read(&mem[8..12]))
        } else {
            subscription_u::Unknown
        }
    }

    fn write_at(self, mem: &mut [u8], at: usize) {
        proof {
            <u8>::lemma_layout();
            <subscription_clock>::lemma_layout();
            <subscription_fd_readwrite>::lemma_layout();
        }
        let ghost m0 = mem@;
        let ghost w0 = m0.subrange(at as int, at + 40);
        proof {
            lemma_splice_same(m0, at as int, 40);
        }
        match self {
            subscription_u::clock(value) => {
                let tag: u8 = 0;
                let ghost b0 = tag.store(w0.subrange(0, 1));
                proof {
                    tag.lemma_store_len(w0.subrange(0, 1));
                    lemma_splice_nested(m0, at as int, 40, 0, b0);
                    assert(m0.subrange(at + 0, at + 0 + 1) =~= w0.subrange(0, 1));
                }
                tag.write_at(mem, at);
                let ghost m1 = mem@;
                let ghost w1 = splice(w0, 0, b0);
                let ghost b1 = value.store(w1.subrange(8, 40));
                proof {
                    assert(m1.subrange(at as int, at + 40) == w1);
                    lemma_splice_twice(m0, at as int, w0, w1);
                    value.lemma_store_len(w1.subrange(8, 40));
                    lemma_splice_nested(m1, at as int, 40, 8, b1);
                    assert(m1.subrange(at + 8, at + 8 + 32) =~= w1.subrange(8, 40));
                }
                value.write_at(mem, at + 8);
                proof {
                    let w2 = splice(w1, 8, b1);
                    assert(mem@.subrange(at as int, at + 40) == w2);
                    lemma_splice_twice(m0, at as int, w1, w2);
                    assert(w2 == self.store(w0));
                }
            },
            subscription_u::fd_read(value) => {
                let tag: u8 = 1;
                let ghost b0 = tag.store(w0.subrange(0, 1));
                proof {
                    tag.lemma_store_len(w0.subrange(0, 1));
                    lemma_splice_nested(m0, at as int, 40, 0, b0);
                    assert(m0.subrange(at + 0, at + 0 + 1) =~= w0.subrange(0, 1));
                }
                tag.write_at(mem, at);
                let ghost m1 = mem@;
                let ghost w1 = splice(w0, 0, b0);
                let ghost b1 = value.store(w1.subrange(8, 12));
                proof {
                    assert(m1.subrange(at as int, at + 40) == w1);
                    lemma_splice_twice(m0, at as int, w0, w1);
                    value.lemma_store_len(w1.subrange(8, 12));
                    lemma_splice_nested(m1, at as int, 40, 8, b1);
                    assert(m1.subrange(at + 8, at + 8 + 4) =~= w1.subrange(8, 12));
                }
                value.write_at(mem, at + 8);
                proof {
                    let w2 = splice(w1, 8, b1);
                    assert(mem@.subrange(at as int, at + 40) == w2);
                    lemma_splice_twice(m0, at as int, w1, w2);
                    assert(w2 == self.store(w0));
                }
            },
            subscription_u::fd_write(value) => {
                let tag: u8 = 2;
                let ghost b0 = tag.store(w0.subrange(0, 1));
                proof {
                    tag.lemma_store_len(w0.subrange(0, 1));
                    lemma_splice_nested(m0, at as int, 40, 0, b0);
                    assert(m0.subrange(at + 0, at + 0 + 1) =~= w0.subrange(0, 1));
                }
                tag.write_at(mem, at);
                let ghost m1 = mem@;
                let ghost w1 = splice(w0, 0, b0);
                let ghost b1 = value.store(w1.subrange(8, 12));
                proof {
                    assert(m1.subrange(at as int, at + 40) == w1);
                    lemma_splice_twice(m0, at as int, w0, w1);
                    value.lemma_store_len(w1.subrange(8, 12));
                    lemma_splice_nested(m1, at as int, 40, 8, b1);
                    assert(m1.subrange(at + 8, at + 8 + 4) =~= w1.subrange(8, 12));
                }
                value.write_at(mem, at + 8);
                proof {
                    let w2 = splice(w1, 8, b1);
                    assert(mem@.subrange(at as int, at + 40) == w2);
                    lemma_splice_twice(m0, at as int, w1, w2);
                    assert(w2 == self.store(w0));
                }
            },
            subscription_u::Unknown => {
            },
        }
    }
}

/// Information about a pre-opened capability.
#[derive(Debug, Clone, Copy, PartialEq, Eq, Structural)]
pub enum prestat {
    /// A pre-opened directory.
    dir(prestat_dir),
    /// What a tag that is not recognized reads as.
    Unknown,
}

impl WasmValue for prestat {
    const SIZE: u32 = 8;

    const ARRAY_OFFSET: u32 = 8;

    open spec fn size() -> nat {
        8
    }

    open spec fn stride() -> nat {
        8
    }

    open spec fn decode(bytes: Seq<u8>) -> Self {
        let tag = u8::decode(bytes.subrange(0, 1));
        if tag == 0 {
            prestat::dir(prestat_dir::decode(bytes.subrange(4, 8)))
        } else {
            prestat::Unknown
        }
    }

    open spec fn store(self, window: Seq<u8>) -> Seq<u8> {
        match self {
            prestat::dir(value) => {
                let tag: u8 = 0;
                let window = splice(window, 0, tag.store(window.subrange(0, 1)));
                splice(window, 4, value.store(window.subrange(4, 8)))
            },
            prestat::Unknown => window,
        }
    }

    open spec fn writable(self) -> bool {
        match self {
            prestat::dir(value) => value.writable(),
            prestat::Unknown => false,
        }
    }

    open spec fn blank() -> Self {
        prestat::dir(prestat_dir::blank())
    }

    proof fn lemma_layout() {
        assert(Self::SIZE == 8 && Self::size() == 8);
        assert(Self::ARRAY_OFFSET == 8 && Self::stride() == 8);
    }

    fn blank_value() -> (value: Self) {
        prestat::dir(prestat_dir::blank_value())
    }

    proof fn lemma_store_len(self, window: Seq<u8>) {
        <u8>::lemma_layout();
        <prestat_dir>::lemma_layout();
        match self {
            prestat::dir(value) => {
                let tag: u8 = 0;
                tag.lemma_store_len(window.subrange(0, 1));
                let w1 = splice(window, 0, tag.store(window.subrange(0, 1)));
                value.lemma_store_len(w1.subrange(4, 8));
            },
            prestat::Unknown => {
            },
        }
    }

    proof fn lemma_store_then_decode(self, window: Seq<u8>) {
        <u8>::lemma_layout();
        <prestat_dir>::lemma_layout();
        match self {
            prestat::dir(value) => {
                let tag: u8 = 0;
                let b0 = tag.store(window.subrange(0, 1));
                tag.lemma_store_len(window.subrange(0, 1));
                tag.lemma_store_then_decode(window.subrange(0, 1));
                let w1 = splice(window, 0, b0);
                lemma_splice_subrange(window, 0, b0, 0, 1);
                let b1 = value.store(w1.subrange(4, 8));
                value.lemma_store_len(w1.subrange(4, 8));
                value.lemma_store_then_decode(w1.subrange(4, 8));
                lemma_splice_subrange(w1, 4, b1, 0, 1);
                lemma_splice_subrange(w1, 4, b1, 4, 8);
            },
            prestat::Unknown => {
            },
        }
    }

    proof fn lemma_decode_then_store(window: Seq<u8>) {
        <u8>::lemma_layout();
        <prestat_dir>::lemma_layout();
        u8::lemma_decode_then_store(window.subrange(0, 1));
        lemma_splice_same(window, 0, 1);
        match Self::decode(window) {
            prestat::dir(value) => {
                prestat_dir::lemma_decode_then_store(window.subrange(4, 8));
                lemma_splice_same(window, 4, 4);
            },
            prestat::Unknown => {
            },
        }
    }

    fn read(mem: &[u8]) -> (value: Self) {
        proof {
            <u8>::lemma_layout();
            <prestat_dir>::lemma_layout();
        }
        let tag: u8 = u8::read(&mem[0..1]);
        if tag == 0 {
            prestat::dir(prestat_dir::read(&mem[4..8]))
        } else {
            prestat::Unknown
        }
    }

    fn write_at(self, mem: &mut [u8], at: usize) {
        proof {
            <u8>::lemma_layout();
            <prestat_dir>::lemma_layout();
        }
        let ghost m0 = mem@;
        let ghost w0 = m0.subrange(at as int, at + 8);
        proof {
            lemma_splice_same(m0, at as int, 8);
        }
        match self {
            prestat::dir(value) => {
                let tag: u8 = 0;
                let ghost b0 = tag.store(w0.subrange(0, 1));
                proof {
                    tag.lemma_store_len(w0.subrange(0, 1));
                    lemma_splice_nested(m0, at as int, 8, 0, b0);
                    assert(m0.subrange(at + 0, at + 0 + 1) =~= w0.subrange(0, 1));
                }
                tag.write_at(mem, at);
                let ghost m1 = mem@;
                let ghost w1 = splice(w0, 0, b0);
                let ghost b1 = value.store(w1.subrange(4, 8));
                proof {
                    assert(m1.subrange(at as int, at + 8) == w1);
                    lemma_splice_twice(m0, at as int, w0, w1);
                    value.lemma_store_len(w1.subrange(4, 8));
                    lemma_splice_nested(m1, at as int, 8, 4, b1);
                    assert(m1.subrange(at + 4, at + 4 + 4) =~= w1.subrange(4, 8));
                }
                value.write_at(mem, at + 4);
                proof {
                    let w2 = splice(w1, 4, b1);
                    assert(mem@.subrange(at as int, at + 8) == w2);
                    lemma_splice_twice(m0, at as int, w1, w2);
                    assert(w2 == self.store(w0));
                }
            },
            prestat::Unknown => {
            },
        }
    }
}

/// Subscription to an event.
#[derive(Debug, Clone, Copy, PartialEq, Eq, Structural)]
pub struct subscription {
    /// User-provided value that is attached to the subscription and returned through the
    /// event.
    pub userdata: userdata,
    /// The type of the event to which to subscribe, and its contents.
    pub u: subscription_u,
}

impl WasmValue for subscription {
    const SIZE: u32 = 48;

    const ARRAY_OFFSET: u32 = 48;

    open spec fn size() -> nat {
        48
    }

    open spec fn stride() -> nat {
        48
    }

    open spec fn decode(bytes: Seq<u8>) -> Self {
        subscription {
            userdata: userdata::decode(bytes.subrange(0, 8)),
            u: subscription_u::decode(bytes.subrange(8, 48)),
        }
    }

    open spec fn store(self, window: Seq<u8>) -> Seq<u8> {
        let window = splice(window, 0, self.userdata.store(window.subrange(0, 8)));
        splice(window, 8, self.u.store(window.subrange(8, 48)))
    }

    open spec fn writable(self) -> bool {
        &&& self.userdata.writable()
        &&& self.u.writable()
    }

    open spec fn blank() -> Self {
        subscription {
            userdata: userdata::blank(),
            u: subscription_u::blank(),
        }
    }

    proof fn lemma_layout() {
        assert(Self::SIZE == 48 && Self::size() == 48);
        assert(Self::ARRAY_OFFSET == 48 && Self::stride() == 48);
    }

    fn blank_value() -> (value: Self) {
        subscription {
            userdata: userdata::blank_value(),
            u: subscription_u::blank_value(),
        }
    }

    proof fn lemma_store_len(self, window: Seq<u8>) {
        <userdata>::lemma_layout();
        <subscription_u>::lemma_layout();
        let w0 = window;
        self.userdata.lemma_store_len(w0.subrange(0, 8));
        let w1 = splice(w0, 0, self.userdata.store(w0.subrange(0, 8)));
        self.u.lemma_store_len(w1.subrange(8, 48));
    }

    proof fn lemma_store_then_decode(self, window: Seq<u8>) {
        <userdata>::lemma_layout();
        <subscription_u>::lemma_layout();
        let w0 = window;
        let b0 = self.userdata.store(w0.subrange(0, 8));
        self.userdata.lemma_store_len(w0.subrange(0, 8));
        self.userdata.lemma_store_then_decode(w0.subrange(0, 8));
        let w1 = splice(w0, 0, b0);
        lemma_splice_subrange(w0, 0, b0, 0, 8);
        let b1 = self.u.store(w1.subrange(8, 48));
        self.u.lemma_store_len(w1.subrange(8, 48));
        self.u.lemma_store_then_decode(w1.subrange(8, 48));
        let w2 = splice(w1, 8, b1);
        lemma_splice_subrange(w1, 8, b1, 0, 8);
        lemma_splice_subrange(w1, 8, b1, 8, 48);
    }

    proof fn lemma_decode_then_store(window: Seq<u8>) {
        <userdata>::lemma_layout();
        <subscription_u>::lemma_layout();
        userdata::lemma_decode_then_store(window.subrange(0, 8));
        lemma_splice_same(window, 0, 8);
        subscription_u::lemma_decode_then_store(window.subrange(8, 48));
        lemma_splice_same(window, 8, 40);
    }

    fn read(mem: &[u8]) -> (value: Self) {
        proof {
            <userdata>::lemma_layout();
            <subscription_u>::lemma_layout();
        }
        subscription {
            userdata: userdata::read(&mem[0..8]),
            u: subscription_u::read(&mem[8..48]),
        }
    }

    fn write_at(self, mem: &mut [u8], at: usize) {
        proof {
            <userdata>::lemma_layout();
            <subscription_u>::lemma_layout();
        }
        let ghost m0 = mem@;
        let ghost w0 = m0.subrange(at as int, at + 48);
        proof {
            lemma_splice_same(m0, at as int, 48);
        }
        let ghost b0 = self.userdata.store(w0.subrange(0, 8));
        proof {
            self.userdata.lemma_store_len(w0.subrange(0, 8));
            lemma_splice_nested(m0, at as int, 48, 0, b0);
            assert(m0.subrange(at + 0, at + 0 + 8) =~= w0.subrange(0, 8));
        }
        self.userdata.write_at(mem, at);
        let ghost m1 = mem@;
        let ghost w1 = splice(w0, 0, b0);
        proof {
            assert(m1.subrange(at as int, at + 48) == w1);
            lemma_splice_twice(m0, at as int, w0, w1);
            assert(m1 == splice(m0, at as int, w1));
        }
        let ghost b1 = self.u.store(w1.subrange(8, 48));
        proof {
            self.u.lemma_store_len(w1.subrange(8, 48));
            lemma_splice_nested(m1, at as int, 48, 8, b1);
            assert(m1.subrange(at + 8, at + 8 + 40) =~= w1.subrange(8, 48));
        }
        self.u.write_at(mem, at + 8);
        let ghost m2 = mem@;
        let ghost w2 = splice(w1, 8, b1);
        proof {
            assert(m2.subrange(at as int, at + 48) == w2);
            lemma_splice_twice(m0, at as int, w1, w2);
            assert(m2 == splice(m0, at as int, w2));
        }
        proof {
            assert(w2 == self.store(w0));
        }
    }
}

} // verus!
