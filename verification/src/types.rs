//! The rich leaf types of WASI snapshot preview 1: numbers with a meaning,
//! enumerations that hold only known variants, and flag sets.

use vstd::prelude::*;
use crate::native;
use crate::value::{
    conversion_message, conversion_text, signed_conversion_message, signed_conversion_text,
    WasiLeafValue, WasiValue, WasiValueError,
};

verus! {

/// An array size or a length of a region of memory.
#[derive(Debug, Clone, Copy, PartialEq, Eq, Hash, Structural)]
pub struct Size(pub native::size);

impl WasiValue for Size {
    type NativeType = native::size;

    open spec fn valid(self) -> bool {
        true
    }

    open spec fn lift(native: native::size) -> Option<Self> {
        Some(Size(native))
    }

    open spec fn lower(self) -> native::size {
        self.0
    }

    open spec fn failure(native: native::size) -> Seq<char> {
        conversion_text(native as u64, "Size"@)
    }

    proof fn lemma_lift_valid(native: native::size) {
    }

    proof fn lemma_lower_writable(self) {
    }

    proof fn lemma_lower_then_lift(self) {
    }

    fn from_native(native: native::size) -> (result: Result<Self, WasiValueError<Self>>) {
        Ok(Size(native))
    }

    fn to_native(self) -> (native: native::size) {
        self.0
    }
}

impl WasiLeafValue for Size {
    fn get_error_message(native: Self::NativeType) -> (message: String) {
        let message = conversion_message(native as u64, "Size");
        assert(Self::failure(native) == conversion_text(native as u64, "Size"@));
        message
    }
}

/// Non-negative file size or length of a region within a file.
#[derive(Debug, Clone, Copy, PartialEq, Eq, Hash, Structural)]
pub struct Filesize(pub native::filesize);

impl WasiValue for Filesize {
    type NativeType = native::filesize;

    open spec fn valid(self) -> bool {
        true
    }

    open spec fn lift(native: native::filesize) -> Option<Self> {
        Some(Filesize(native))
    }

    open spec fn lower(self) -> native::filesize {
        self.0
    }

    open spec fn failure(native: native::filesize) -> Seq<char> {
        conversion_text(native, "Filesize"@)
    }

    proof fn lemma_lift_valid(native: native::filesize) {
    }

    proof fn lemma_lower_writable(self) {
    }

    proof fn lemma_lower_then_lift(self) {
    }

    fn from_native(native: native::filesize) -> (result: Result<Self, WasiValueError<Self>>) {
        Ok(Filesize(native))
    }

    fn to_native(self) -> (native: native::filesize) {
        self.0
    }
}

impl WasiLeafValue for Filesize {
    fn get_error_message(native: Self::NativeType) -> (message: String) {
        let message = conversion_message(native, "Filesize");
        assert(Self::failure(native) == conversion_text(native, "Filesize"@));
        message
    }
}

/// Timestamp in nanoseconds.
#[derive(Debug, Clone, Copy, PartialEq, Eq, Hash, Structural)]
pub struct Timestamp(pub native::timestamp);

impl WasiValue for Timestamp {
    type NativeType = native::timestamp;

    open spec fn valid(self) -> bool {
        true
    }

    open spec fn lift(native: native::timestamp) -> Option<Self> {
        Some(Timestamp(native))
    }

    open spec fn lower(self) -> native::timestamp {
        self.0
    }

    open spec fn failure(native: native::timestamp) -> Seq<char> {
        conversion_text(native, "Timestamp"@)
    }

    proof fn lemma_lift_valid(native: native::timestamp) {
    }

    proof fn lemma_lower_writable(self) {
    }

    proof fn lemma_lower_then_lift(self) {
    }

    fn from_native(native: native::timestamp) -> (result: Result<Self, WasiValueError<Self>>) {
        Ok(Timestamp(native))
    }

    fn to_native(self) -> (native: native::timestamp) {
        self.0
    }
}

impl WasiLeafValue for Timestamp {
    fn get_error_message(native: Self::NativeType) -> (message: String) {
        let message = conversion_message(native, "Timestamp");
        assert(Self::failure(native) == conversion_text(native, "Timestamp"@));
        message
    }
}

/// Relative offset within a file.
#[derive(Debug, Clone, Copy, PartialEq, Eq, Hash, Structural)]
pub struct Filedelta(pub native::filedelta);

impl WasiValue for Filedelta {
    type NativeType = native::filedelta;

    open spec fn valid(self) -> bool {
        true
    }

    open spec fn lift(native: native::filedelta) -> Option<Self> {
        Some(Filedelta(native))
    }

    open spec fn lower(self) -> native::filedelta {
        self.0
    }

    open spec fn failure(native: native::filedelta) -> Seq<char> {
        signed_conversion_text(native, "Filedelta"@)
    }

    proof fn lemma_lift_valid(native: native::filedelta) {
    }

    proof fn lemma_lower_writable(self) {
    }

    proof fn lemma_lower_then_lift(self) {
    }

    fn from_native(native: native::filedelta) -> (result: Result<Self, WasiValueError<Self>>) {
        Ok(Filedelta(native))
    }

    fn to_native(self) -> (native: native::filedelta) {
        self.0
    }
}

impl WasiLeafValue for Filedelta {
    fn get_error_message(native: Self::NativeType) -> (message: String) {
        let message = signed_conversion_message(native, "Filedelta");
        assert(Self::failure(native) == signed_conversion_text(native, "Filedelta"@));
        message
    }
}

/// A reference to the offset of a directory entry.
#[derive(Debug, Clone, Copy, PartialEq, Eq, Hash, Structural)]
pub struct Dircookie(pub native::dircookie);

impl WasiValue for Dircookie {
    type NativeType = native::dircookie;

    open spec fn valid(self) -> bool {
        true
    }

    open spec fn lift(native: native::dircookie) -> Option<Self> {
        Some(Dircookie(native))
    }

    open spec fn lower(self) -> native::dircookie {
        self.0
    }

    open spec fn failure(native: native::dircookie) -> Seq<char> {
        conversion_text(native, "Dircookie"@)
    }

    proof fn lemma_lift_valid(native: native::dircookie) {
    }

    proof fn lemma_lower_writable(self) {
    }

    proof fn lemma_lower_then_lift(self) {
    }

    fn from_native(native: native::dircookie) -> (result: Result<Self, WasiValueError<Self>>) {
        Ok(Dircookie(native))
    }

    fn to_native(self) -> (native: native::dircookie) {
        self.0
    }
}

impl WasiLeafValue for Dircookie {
    fn get_error_message(native: Self::NativeType) -> (message: String) {
        let message = conversion_message(native, "Dircookie");
        assert(Self::failure(native) == conversion_text(native, "Dircookie"@));
        message
    }
}

/// The length of a directory entry's name.
#[derive(Debug, Clone, Copy, PartialEq, Eq, Hash, Structural)]
pub struct Dirnamlen(pub native::dirnamlen);

impl WasiValue for Dirnamlen {
    type NativeType = native::dirnamlen;

    open spec fn valid(self) -> bool {
        true
    }

    open spec fn lift(native: native::dirnamlen) -> Option<Self> {
        Some(Dirnamlen(native))
    }

    open spec fn lower(self) -> native::dirnamlen {
        self.0
    }

    open spec fn failure(native: native::dirnamlen) -> Seq<char> {
        conversion_text(native as u64, "Dirnamlen"@)
    }

    proof fn lemma_lift_valid(native: native::dirnamlen) {
    }

    proof fn lemma_lower_writable(self) {
    }

    proof fn lemma_lower_then_lift(self) {
    }

    fn from_native(native: native::dirnamlen) -> (result: Result<Self, WasiValueError<Self>>) {
        Ok(Dirnamlen(native))
    }

    fn to_native(self) -> (native: native::dirnamlen) {
        self.0
    }
}

impl WasiLeafValue for Dirnamlen {
    fn get_error_message(native: Self::NativeType) -> (message: String) {
        let message = conversion_message(native as u64, "Dirnamlen");
        assert(Self::failure(native) == conversion_text(native as u64, "Dirnamlen"@));
        message
    }
}

/// File serial number that is unique within its file system.
#[derive(Debug, Clone, Copy, PartialEq, Eq, Hash, Structural)]
pub struct Inode(pub native::inode);

impl WasiValue for Inode {
    type NativeType = native::inode;

    open spec fn valid(self) -> bool {
        true
    }

    open spec fn lift(native: native::inode) -> Option<Self> {
        Some(Inode(native))
    }

    open spec fn lower(self) -> native::inode {
        self.0
    }

    open spec fn failure(native: native::inode) -> Seq<char> {
        conversion_text(native, "Inode"@)
    }

    proof fn lemma_lift_valid(native: native::inode) {
    }

    proof fn lemma_lower_writable(self) {
    }

    proof fn lemma_lower_then_lift(self) {
    }

    fn from_native(native: native::inode) -> (result: Result<Self, WasiValueError<Self>>) {
        Ok(Inode(native))
    }

    fn to_native(self) -> (native: native::inode) {
        self.0
    }
}

impl WasiLeafValue for Inode {
    fn get_error_message(native: Self::NativeType) -> (message: String) {
        let message = conversion_message(native, "Inode");
        assert(Self::failure(native) == conversion_text(native, "Inode"@));
        message
    }
}

/// Identifier for a device containing a file system.
#[derive(Debug, Clone, Copy, PartialEq, Eq, Hash, Structural)]
pub struct Device(pub native::device);

impl WasiValue for Device {
    type NativeType = native::device;

    open spec fn valid(self) -> bool {
        true
    }

    open spec fn lift(native: native::device) -> Option<Self> {
        Some(Device(native))
    }

    open spec fn lower(self) -> native::device {
        self.0
    }

    open spec fn failure(native: native::device) -> Seq<char> {
        conversion_text(native, "Device"@)
    }

    proof fn lemma_lift_valid(native: native::device) {
    }

    proof fn lemma_lower_writable(self) {
    }

    proof fn lemma_lower_then_lift(self) {
    }

    fn from_native(native: native::device) -> (result: Result<Self, WasiValueError<Self>>) {
        Ok(Device(native))
    }

    fn to_native(self) -> (native: native::device) {
        self.0
    }
}

impl WasiLeafValue for Device {
    fn get_error_message(native: Self::NativeType) -> (message: String) {
        let message = conversion_message(native, "Device");
        assert(Self::failure(native) == conversion_text(native, "Device"@));
        message
    }
}

/// Number of hard links to an inode.
#[derive(Debug, Clone, Copy, PartialEq, Eq, Hash, Structural)]
pub struct Linkcount(pub native::linkcount);

impl WasiValue for Linkcount {
    type NativeType = native::linkcount;

    open spec fn valid(self) -> bool {
        true
    }

    open spec fn lift(native: native::linkcount) -> Option<Self> {
        Some(Linkcount(native))
    }

    open spec fn lower(self) -> native::linkcount {
        self.0
    }

    open spec fn failure(native: native::linkcount) -> Seq<char> {
        conversion_text(native, "Linkcount"@)
    }

    proof fn lemma_lift_valid(native: native::linkcount) {
    }

    proof fn lemma_lower_writable(self) {
    }

    proof fn lemma_lower_then_lift(self) {
    }

    fn from_native(native: native::linkcount) -> (result: Result<Self, WasiValueError<Self>>) {
        Ok(Linkcount(native))
    }

    fn to_native(self) -> (native: native::linkcount) {
        self.0
    }
}

impl WasiLeafValue for Linkcount {
    fn get_error_message(native: Self::NativeType) -> (message: String) {
        let message = conversion_message(native, "Linkcount");
        assert(Self::failure(native) == conversion_text(native, "Linkcount"@));
        message
    }
}

/// User-provided value that may be attached to objects.
#[derive(Debug, Clone, Copy, PartialEq, Eq, Hash, Structural)]
pub struct Userdata(pub native::userdata);

impl WasiValue for Userdata {
    type NativeType = native::userdata;

    open spec fn valid(self) -> bool {
        true
    }

    open spec fn lift(native: native::userdata) -> Option<Self> {
        Some(Userdata(native))
    }

    open spec fn lower(self) -> native::userdata {
        self.0
    }

    open spec fn failure(native: native::userdata) -> Seq<char> {
        conversion_text(native, "Userdata"@)
    }

    proof fn lemma_lift_valid(native: native::userdata) {
    }

    proof fn lemma_lower_writable(self) {
    }

    proof fn lemma_lower_then_lift(self) {
    }

    fn from_native(native: native::userdata) -> (result: Result<Self, WasiValueError<Self>>) {
        Ok(Userdata(native))
    }

    fn to_native(self) -> (native: native::userdata) {
        self.0
    }
}

impl WasiLeafValue for Userdata {
    fn get_error_message(native: Self::NativeType) -> (message: String) {
        let message = conversion_message(native, "Userdata");
        assert(Self::failure(native) == conversion_text(native, "Userdata"@));
        message
    }
}

/// Exit code that a process hands back when it exits.
#[derive(Debug, Clone, Copy, PartialEq, Eq, Hash, Structural)]
pub struct Exitcode(pub native::exitcode);

impl WasiValue for Exitcode {
    type NativeType = native::exitcode;

    open spec fn valid(self) -> bool {
        true
    }

    open spec fn lift(native: native::exitcode) -> Option<Self> {
        Some(Exitcode(native))
    }

    open spec fn lower(self) -> native::exitcode {
        self.0
    }

    open spec fn failure(native: native::exitcode) -> Seq<char> {
        conversion_text(native as u64, "Exitcode"@)
    }

    proof fn lemma_lift_valid(native: native::exitcode) {
    }

    proof fn lemma_lower_writable(self) {
    }

    proof fn lemma_lower_then_lift(self) {
    }

    fn from_native(native: native::exitcode) -> (result: Result<Self, WasiValueError<Self>>) {
        Ok(Exitcode(native))
    }

    fn to_native(self) -> (native: native::exitcode) {
        self.0
    }
}

impl WasiLeafValue for Exitcode {
    fn get_error_message(native: Self::NativeType) -> (message: String) {
        let message = conversion_message(native as u64, "Exitcode");
        assert(Self::failure(native) == conversion_text(native as u64, "Exitcode"@));
        message
    }
}

/// Flags provided to `sock_send`. No flags are defined.
#[derive(Debug, Clone, Copy, PartialEq, Eq, Hash, Structural)]
pub struct Siflags(pub native::siflags);

impl WasiValue for Siflags {
    type NativeType = native::siflags;

    open spec fn valid(self) -> bool {
        true
    }

    open spec fn lift(native: native::siflags) -> Option<Self> {
        Some(Siflags(native))
    }

    open spec fn lower(self) -> native::siflags {
        self.0
    }

    open spec fn failure(native: native::siflags) -> Seq<char> {
        conversion_text(native as u64, "Siflags"@)
    }

    proof fn lemma_lift_valid(native: native::siflags) {
    }

    proof fn lemma_lower_writable(self) {
    }

    proof fn lemma_lower_then_lift(self) {
    }

    fn from_native(native: native::siflags) -> (result: Result<Self, WasiValueError<Self>>) {
        Ok(Siflags(native))
    }

    fn to_native(self) -> (native: native::siflags) {
        self.0
    }
}

impl WasiLeafValue for Siflags {
    fn get_error_message(native: Self::NativeType) -> (message: String) {
        let message = conversion_message(native as u64, "Siflags");
        assert(Self::failure(native) == conversion_text(native as u64, "Siflags"@));
        message
    }
}

/// A file descriptor number.
#[derive(Debug, Clone, Copy, PartialEq, Eq, Hash, Structural)]
pub struct Fd(pub native::fd);

impl WasiValue for Fd {
    type NativeType = native::fd;

    open spec fn valid(self) -> bool {
        true
    }

    open spec fn lift(native: native::fd) -> Option<Self> {
        Some(Fd(native))
    }

    open spec fn lower(self) -> native::fd {
        self.0
    }

    open spec fn failure(native: native::fd) -> Seq<char> {
        conversion_text(native as u64, "Fd"@)
    }

    proof fn lemma_lift_valid(native: native::fd) {
    }

    proof fn lemma_lower_writable(self) {
    }

    proof fn lemma_lower_then_lift(self) {
    }

    fn from_native(native: native::fd) -> (result: Result<Self, WasiValueError<Self>>) {
        Ok(Fd(native))
    }

    fn to_native(self) -> (native: native::fd) {
        self.0
    }
}

impl WasiLeafValue for Fd {
    fn get_error_message(native: Self::NativeType) -> (message: String) {
        let message = conversion_message(native as u64, "Fd");
        assert(Self::failure(native) == conversion_text(native as u64, "Fd"@));
        message
    }
}

/// Identifiers for clocks.
#[derive(Debug, Clone, Copy, PartialEq, Eq, Hash, Structural)]
#[non_exhaustive]
pub enum Clockid {
    /// The clock measuring real time.
    Realtime,
    /// The store-wide monotonic clock.
    Monotonic,
    /// The CPU-time clock associated with the current process.
    ProcessCputimeId,
    /// The CPU-time clock associated with the current thread.
    ThreadCputimeId,
}

impl WasiValue for Clockid {
    type NativeType = native::clockid;

    open spec fn valid(self) -> bool {
        true
    }

    open spec fn lift(native: native::clockid) -> Option<Self> {
        match native {
            0 => Some(Clockid::Realtime),
            1 => Some(Clockid::Monotonic),
            2 => Some(Clockid::ProcessCputimeId),
            3 => Some(Clockid::ThreadCputimeId),
            _ => None,
        }
    }

    open spec fn lower(self) -> native::clockid {
        match self {
            Clockid::Realtime => 0,
            Clockid::Monotonic => 1,
            Clockid::ProcessCputimeId => 2,
            Clockid::ThreadCputimeId => 3,
        }
    }

    open spec fn failure(native: native::clockid) -> Seq<char> {
        conversion_text(native as u64, "Clockid"@)
    }

    proof fn lemma_lift_valid(native: native::clockid) {
    }

    proof fn lemma_lower_writable(self) {
    }

    proof fn lemma_lower_then_lift(self) {
    }

    fn from_native(native: native::clockid) -> (result: Result<Self, WasiValueError<Self>>) {
        match native {
            0 => Ok(Clockid::Realtime),
            1 => Ok(Clockid::Monotonic),
            2 => Ok(Clockid::ProcessCputimeId),
            3 => Ok(Clockid::ThreadCputimeId),
            _ => Err(WasiValueError(native, Self::get_error_message(native))),
        }
    }

    fn to_native(self) -> (native: native::clockid) {
        match self {
            Clockid::Realtime => 0,
            Clockid::Monotonic => 1,
            Clockid::ProcessCputimeId => 2,
            Clockid::ThreadCputimeId => 3,
        }
    }
}

impl WasiLeafValue for Clockid {
    fn get_error_message(native: Self::NativeType) -> (message: String) {
        let message = conversion_message(native as u64, "Clockid");
        assert(Self::failure(native) == conversion_text(native as u64, "Clockid"@));
        message
    }
}

/// Error codes returned by functions.
#[derive(Debug, Clone, Copy, PartialEq, Eq, Hash, Structural)]
#[non_exhaustive]
pub enum Errno {
    /// No error occurred.
    Success,
    /// Argument list too long.
    TooBig,
    /// Permission denied.
    Acces,
    /// Address in use.
    Addrinuse,
    /// Address not available.
    Addrnotavail,
    /// Address family not supported.
    Afnosupport,
    /// Resource unavailable, or operation would block.
    Again,
    /// Connection already in progress.
    Already,
    /// Bad file descriptor.
    Badf,
    /// Bad message.
    Badmsg,
    /// Device or resource busy.
    Busy,
    /// Operation canceled.
    Canceled,
    /// No child processes.
    Child,
    /// Connection aborted.
    Connaborted,
    /// Connection refused.
    Connrefused,
    /// Connection reset.
    Connreset,
    /// Resource deadlock would occur.
    Deadlk,
    /// Destination address required.
    Destaddrreq,
    /// Mathematics argument out of domain of function.
    Dom,
    /// Reserved.
    Dquot,
    /// File exists.
    Exist,
    /// Bad address.
    Fault,
    /// File too large.
    Fbig,
    /// Host is unreachable.
    Hostunreach,
    /// Identifier removed.
    Idrm,
    /// Illegal byte sequence.
    Ilseq,
    /// Operation in progress.
    Inprogress,
    /// Interrupted function.
    Intr,
    /// Invalid argument.
    Inval,
    /// I/O error.
    Io,
    /// Socket is connected.
    Isconn,
    /// Is a directory.
    Isdir,
    /// Too many levels of symbolic links.
    Loop,
    /// File descriptor value too large.
    Mfile,
    /// Too many links.
    Mlink,
    /// Message too large.
    Msgsize,
    /// Reserved.
    Multihop,
    /// Filename too long.
    Nametoolong,
    /// Network is down.
    Netdown,
    /// Connection aborted by network.
    Netreset,
    /// Network unreachable.
    Netunreach,
    /// Too many files open in system.
    Nfile,
    /// No buffer space available.
    Nobufs,
    /// No such device.
    Nodev,
    /// No such file or directory.
    Noent,
    /// Executable file format error.
    Noexec,
    /// No locks available.
    Nolck,
    /// Reserved.
    Nolink,
    /// Not enough space.
    Nomem,
    /// No message of the desired type.
    Nomsg,
    /// Protocol not available.
    Noprotoopt,
    /// No space left on device.
    Nospc,
    /// Function not supported.
    Nosys,
    /// The socket is not connected.
    Notconn,
    /// Not a directory or a symbolic link to a directory.
    Notdir,
    /// Directory not empty.
    Notempty,
    /// State not recoverable.
    Notrecoverable,
    /// Not a socket.
    Notsock,
    /// Not supported, or operation not supported on socket.
    Notsup,
    /// Inappropriate I/O control operation.
    Notty,
    /// No such device or address.
    Nxio,
    /// Value too large to be stored in data type.
    Overflow,
    /// Previous owner died.
    Ownerdead,
    /// Operation not permitted.
    Perm,
    /// Broken pipe.
    Pipe,
    /// Protocol error.
    Proto,
    /// Protocol not supported.
    Protonosupport,
    /// Protocol wrong type for socket.
    Prototype,
    /// Result too large.
    Range,
    /// Read-only file system.
    Rofs,
    /// Invalid seek.
    Spipe,
    /// No such process.
    Srch,
    /// Reserved.
    Stale,
    /// Connection timed out.
    Timedout,
    /// Text file busy.
    Txtbsy,
    /// Cross-device link.
    Xdev,
    /// Extension: capabilities insufficient.
    Notcapable,
}

impl WasiValue for Errno {
    type NativeType = native::errno;

    open spec fn valid(self) -> bool {
        true
    }

    open spec fn lift(native: native::errno) -> Option<Self> {
        match native {
            0 => Some(Errno::Success),
            1 => Some(Errno::TooBig),
            2 => Some(Errno::Acces),
            3 => Some(Errno::Addrinuse),
            4 => Some(Errno::Addrnotavail),
            5 => Some(Errno::Afnosupport),
            6 => Some(Errno::Again),
            7 => Some(Errno::Already),
            8 => Some(Errno::Badf),
            9 => Some(Errno::Badmsg),
            10 => Some(Errno::Busy),
            11 => Some(Errno::Canceled),
            12 => Some(Errno::Child),
            13 => Some(Errno::Connaborted),
            14 => Some(Errno::Connrefused),
            15 => Some(Errno::Connreset),
            16 => Some(Errno::Deadlk),
            17 => Some(Errno::Destaddrreq),
            18 => Some(Errno::Dom),
            19 => Some(Errno::Dquot),
            20 => Some(Errno::Exist),
            21 => Some(Errno::Fault),
            22 => Some(Errno::Fbig),
            23 => Some(Errno::Hostunreach),
            24 => Some(Errno::Idrm),
            25 => Some(Errno::Ilseq),
            26 => Some(Errno::Inprogress),
            27 => Some(Errno::Intr),
            28 => Some(Errno::Inval),
            29 => Some(Errno::Io),
            30 => Some(Errno::Isconn),
            31 => Some(Errno::Isdir),
            32 => Some(Errno::Loop),
            33 => Some(Errno::Mfile),
            34 => Some(Errno::Mlink),
            35 => Some(Errno::Msgsize),
            36 => Some(Errno::Multihop),
            37 => Some(Errno::Nametoolong),
            38 => Some(Errno::Netdown),
            39 => Some(Errno::Netreset),
            40 => Some(Errno::Netunreach),
            41 => Some(Errno::Nfile),
            42 => Some(Errno::Nobufs),
            43 => Some(Errno::Nodev),
            44 => Some(Errno::Noent),
            45 => Some(Errno::Noexec),
            46 => Some(Errno::Nolck),
            47 => Some(Errno::Nolink),
            48 => Some(Errno::Nomem),
            49 => Some(Errno::Nomsg),
            50 => Some(Errno::Noprotoopt),
            51 => Some(Errno::Nospc),
            52 => Some(Errno::Nosys),
            53 => Some(Errno::Notconn),
            54 => Some(Errno::Notdir),
            55 => Some(Errno::Notempty),
            56 => Some(Errno::Notrecoverable),
            57 => Some(Errno::Notsock),
            58 => Some(Errno::Notsup),
            59 => Some(Errno::Notty),
            60 => Some(Errno::Nxio),
            61 => Some(Errno::Overflow),
            62 => Some(Errno::Ownerdead),
            63 => Some(Errno::Perm),
            64 => Some(Errno::Pipe),
            65 => Some(Errno::Proto),
            66 => Some(Errno::Protonosupport),
            67 => Some(Errno::Prototype),
            68 => Some(Errno::Range),
            69 => Some(Errno::Rofs),
            70 => Some(Errno::Spipe),
            71 => Some(Errno::Srch),
            72 => Some(Errno::Stale),
            73 => Some(Errno::Timedout),
            74 => Some(Errno::Txtbsy),
            75 => Some(Errno::Xdev),
            76 => Some(Errno::Notcapable),
            _ => None,
        }
    }

    open spec fn lower(self) -> native::errno {
        match self {
            Errno::Success => 0,
            Errno::TooBig => 1,
            Errno::Acces => 2,
            Errno::Addrinuse => 3,
            Errno::Addrnotavail => 4,
            Errno::Afnosupport => 5,
            Errno::Again => 6,
            Errno::Already => 7,
            Errno::Badf => 8,
            Errno::Badmsg => 9,
            Errno::Busy => 10,
            Errno::Canceled => 11,
            Errno::Child => 12,
            Errno::Connaborted => 13,
            Errno::Connrefused => 14,
            Errno::Connreset => 15,
            Errno::Deadlk => 16,
            Errno::Destaddrreq => 17,
            Errno::Dom => 18,
            Errno::Dquot => 19,
            Errno::Exist => 20,
            Errno::Fault => 21,
            Errno::Fbig => 22,
            Errno::Hostunreach => 23,
            Errno::Idrm => 24,
            Errno::Ilseq => 25,
            Errno::Inprogress => 26,
            Errno::Intr => 27,
            Errno::Inval => 28,
            Errno::Io => 29,
            Errno::Isconn => 30,
            Errno::Isdir => 31,
            Errno::Loop => 32,
            Errno::Mfile => 33,
            Errno::Mlink => 34,
            Errno::Msgsize => 35,
            Errno::Multihop => 36,
            Errno::Nametoolong => 37,
            Errno::Netdown => 38,
            Errno::Netreset => 39,
            Errno::Netunreach => 40,
            Errno::Nfile => 41,
            Errno::Nobufs => 42,
            Errno::Nodev => 43,
            Errno::Noent => 44,
            Errno::Noexec => 45,
            Errno::Nolck => 46,
            Errno::Nolink => 47,
            Errno::Nomem => 48,
            Errno::Nomsg => 49,
            Errno::Noprotoopt => 50,
            Errno::Nospc => 51,
            Errno::Nosys => 52,
            Errno::Notconn => 53,
            Errno::Notdir => 54,
            Errno::Notempty => 55,
            Errno::Notrecoverable => 56,
            Errno::Notsock => 57,
            Errno::Notsup => 58,
            Errno::Notty => 59,
            Errno::Nxio => 60,
            Errno::Overflow => 61,
            Errno::Ownerdead => 62,
            Errno::Perm => 63,
            Errno::Pipe => 64,
            Errno::Proto => 65,
            Errno::Protonosupport => 66,
            Errno::Prototype => 67,
            Errno::Range => 68,
            Errno::Rofs => 69,
            Errno::Spipe => 70,
            Errno::Srch => 71,
            Errno::Stale => 72,
            Errno::Timedout => 73,
            Errno::Txtbsy => 74,
            Errno::Xdev => 75,
            Errno::Notcapable => 76,
        }
    }

    open spec fn failure(native: native::errno) -> Seq<char> {
        conversion_text(native as u64, "Errno"@)
    }

    proof fn lemma_lift_valid(native: native::errno) {
    }

    proof fn lemma_lower_writable(self) {
    }

    proof fn lemma_lower_then_lift(self) {
    }

    fn from_native(native: native::errno) -> (result: Result<Self, WasiValueError<Self>>) {
        match native {
            0 => Ok(Errno::Success),
            1 => Ok(Errno::TooBig),
            2 => Ok(Errno::Acces),
            3 => Ok(Errno::Addrinuse),
            4 => Ok(Errno::Addrnotavail),
            5 => Ok(Errno::Afnosupport),
            6 => Ok(Errno::Again),
            7 => Ok(Errno::Already),
            8 => Ok(Errno::Badf),
            9 => Ok(Errno::Badmsg),
            10 => Ok(Errno::Busy),
            11 => Ok(Errno::Canceled),
            12 => Ok(Errno::Child),
            13 => Ok(Errno::Connaborted),
            14 => Ok(Errno::Connrefused),
            15 => Ok(Errno::Connreset),
            16 => Ok(Errno::Deadlk),
            17 => Ok(Errno::Destaddrreq),
            18 => Ok(Errno::Dom),
            19 => Ok(Errno::Dquot),
            20 => Ok(Errno::Exist),
            21 => Ok(Errno::Fault),
            22 => Ok(Errno::Fbig),
            23 => Ok(Errno::Hostunreach),
            24 => Ok(Errno::Idrm),
            25 => Ok(Errno::Ilseq),
            26 => Ok(Errno::Inprogress),
            27 => Ok(Errno::Intr),
            28 => Ok(Errno::Inval),
            29 => Ok(Errno::Io),
            30 => Ok(Errno::Isconn),
            31 => Ok(Errno::Isdir),
            32 => Ok(Errno::Loop),
            33 => Ok(Errno::Mfile),
            34 => Ok(Errno::Mlink),
            35 => Ok(Errno::Msgsize),
            36 => Ok(Errno::Multihop),
            37 => Ok(Errno::Nametoolong),
            38 => Ok(Errno::Netdown),
            39 => Ok(Errno::Netreset),
            40 => Ok(Errno::Netunreach),
            41 => Ok(Errno::Nfile),
            42 => Ok(Errno::Nobufs),
            43 => Ok(Errno::Nodev),
            44 => Ok(Errno::Noent),
            45 => Ok(Errno::Noexec),
            46 => Ok(Errno::Nolck),
            47 => Ok(Errno::Nolink),
            48 => Ok(Errno::Nomem),
            49 => Ok(Errno::Nomsg),
            50 => Ok(Errno::Noprotoopt),
            51 => Ok(Errno::Nospc),
            52 => Ok(Errno::Nosys),
            53 => Ok(Errno::Notconn),
            54 => Ok(Errno::Notdir),
            55 => Ok(Errno::Notempty),
            56 => Ok(Errno::Notrecoverable),
            57 => Ok(Errno::Notsock),
            58 => Ok(Errno::Notsup),
            59 => Ok(Errno::Notty),
            60 => Ok(Errno::Nxio),
            61 => Ok(Errno::Overflow),
            62 => Ok(Errno::Ownerdead),
            63 => Ok(Errno::Perm),
            64 => Ok(Errno::Pipe),
            65 => Ok(Errno::Proto),
            66 => Ok(Errno::Protonosupport),
            67 => Ok(Errno::Prototype),
            68 => Ok(Errno::Range),
            69 => Ok(Errno::Rofs),
            70 => Ok(Errno::Spipe),
            71 => Ok(Errno::Srch),
            72 => Ok(Errno::Stale),
            73 => Ok(Errno::Timedout),
            74 => Ok(Errno::Txtbsy),
            75 => Ok(Errno::Xdev),
            76 => Ok(Errno::Notcapable),
            _ => Err(WasiValueError(native, Self::get_error_message(native))),
        }
    }

    fn to_native(self) -> (native: native::errno) {
        match self {
            Errno::Success => 0,
            Errno::TooBig => 1,
            Errno::Acces => 2,
            Errno::Addrinuse => 3,
            Errno::Addrnotavail => 4,
            Errno::Afnosupport => 5,
            Errno::Again => 6,
            Errno::Already => 7,
            Errno::Badf => 8,
            Errno::Badmsg => 9,
            Errno::Busy => 10,
            Errno::Canceled => 11,
            Errno::Child => 12,
            Errno::Connaborted => 13,
            Errno::Connrefused => 14,
            Errno::Connreset => 15,
            Errno::Deadlk => 16,
            Errno::Destaddrreq => 17,
            Errno::Dom => 18,
            Errno::Dquot => 19,
            Errno::Exist => 20,
            Errno::Fault => 21,
            Errno::Fbig => 22,
            Errno::Hostunreach => 23,
            Errno::Idrm => 24,
            Errno::Ilseq => 25,
            Errno::Inprogress => 26,
            Errno::Intr => 27,
            Errno::Inval => 28,
            Errno::Io => 29,
            Errno::Isconn => 30,
            Errno::Isdir => 31,
            Errno::Loop => 32,
            Errno::Mfile => 33,
            Errno::Mlink => 34,
            Errno::Msgsize => 35,
            Errno::Multihop => 36,
            Errno::Nametoolong => 37,
            Errno::Netdown => 38,
            Errno::Netreset => 39,
            Errno::Netunreach => 40,
            Errno::Nfile => 41,
            Errno::Nobufs => 42,
            Errno::Nodev => 43,
            Errno::Noent => 44,
            Errno::Noexec => 45,
            Errno::Nolck => 46,
            Errno::Nolink => 47,
            Errno::Nomem => 48,
            Errno::Nomsg => 49,
            Errno::Noprotoopt => 50,
            Errno::Nospc => 51,
            Errno::Nosys => 52,
            Errno::Notconn => 53,
            Errno::Notdir => 54,
            Errno::Notempty => 55,
            Errno::Notrecoverable => 56,
            Errno::Notsock => 57,
            Errno::Notsup => 58,
            Errno::Notty => 59,
            Errno::Nxio => 60,
            Errno::Overflow => 61,
            Errno::Ownerdead => 62,
            Errno::Perm => 63,
            Errno::Pipe => 64,
            Errno::Proto => 65,
            Errno::Protonosupport => 66,
            Errno::Prototype => 67,
            Errno::Range => 68,
            Errno::Rofs => 69,
            Errno::Spipe => 70,
            Errno::Srch => 71,
            Errno::Stale => 72,
            Errno::Timedout => 73,
            Errno::Txtbsy => 74,
            Errno::Xdev => 75,
            Errno::Notcapable => 76,
        }
    }
}

impl WasiLeafValue for Errno {
    fn get_error_message(native: Self::NativeType) -> (message: String) {
        let message = conversion_message(native as u64, "Errno");
        assert(Self::failure(native) == conversion_text(native as u64, "Errno"@));
        message
    }
}

/// The position relative to which to set the offset of a file descriptor.
#[derive(Debug, Clone, Copy, PartialEq, Eq, Hash, Structural)]
#[non_exhaustive]
pub enum Whence {
    /// Seek relative to start-of-file.
    Start,
    /// Seek relative to current position.
    Cur,
    /// Seek relative to end-of-file.
    End,
}

impl WasiValue for Whence {
    type NativeType = native::whence;

    open spec fn valid(self) -> bool {
        true
    }

    open spec fn lift(native: native::whence) -> Option<Self> {
        match native {
            0 => Some(Whence::Start),
            1 => Some(Whence::Cur),
            2 => Some(Whence::End),
            _ => None,
        }
    }

    open spec fn lower(self) -> native::whence {
        match self {
            Whence::Start => 0,
            Whence::Cur => 1,
            Whence::End => 2,
        }
    }

    open spec fn failure(native: native::whence) -> Seq<char> {
        conversion_text(native as u64, "Whence"@)
    }

    proof fn lemma_lift_valid(native: native::whence) {
    }

    proof fn lemma_lower_writable(self) {
    }

    proof fn lemma_lower_then_lift(self) {
    }

    fn from_native(native: native::whence) -> (result: Result<Self, WasiValueError<Self>>) {
        match native {
            0 => Ok(Whence::Start),
            1 => Ok(Whence::Cur),
            2 => Ok(Whence::End),
            _ => Err(WasiValueError(native, Self::get_error_message(native))),
        }
    }

    fn to_native(self) -> (native: native::whence) {
        match self {
            Whence::Start => 0,
            Whence::Cur => 1,
            Whence::End => 2,
        }
    }
}

impl WasiLeafValue for Whence {
    fn get_error_message(native: Self::NativeType) -> (message: String) {
        let message = conversion_message(native as u64, "Whence");
        assert(Self::failure(native) == conversion_text(native as u64, "Whence"@));
        message
    }
}

/// The type of a file descriptor or file.
#[derive(Debug, Clone, Copy, PartialEq, Eq, Hash, Structural)]
#[non_exhaustive]
pub enum Filetype {
    /// The type is unknown or is different from any of the other types specified.
    Unknown,
    /// A block device inode.
    BlockDevice,
    /// A character device inode.
    CharacterDevice,
    /// A directory inode.
    Directory,
    /// A regular file inode.
    RegularFile,
    /// A datagram socket.
    SocketDgram,
    /// A byte-stream socket.
    SocketStream,
    /// A symbolic link inode.
    SymbolicLink,
}

impl WasiValue for Filetype {
    type NativeType = native::filetype;

    open spec fn valid(self) -> bool {
        true
    }

    open spec fn lift(native: native::filetype) -> Option<Self> {
        match native {
            0 => Some(Filetype::Unknown),
            1 => Some(Filetype::BlockDevice),
            2 => Some(Filetype::CharacterDevice),
            3 => Some(Filetype::Directory),
            4 => Some(Filetype::RegularFile),
            5 => Some(Filetype::SocketDgram),
            6 => Some(Filetype::SocketStream),
            7 => Some(Filetype::SymbolicLink),
            _ => None,
        }
    }

    open spec fn lower(self) -> native::filetype {
        match self {
            Filetype::Unknown => 0,
            Filetype::BlockDevice => 1,
            Filetype::CharacterDevice => 2,
            Filetype::Directory => 3,
            Filetype::RegularFile => 4,
            Filetype::SocketDgram => 5,
            Filetype::SocketStream => 6,
            Filetype::SymbolicLink => 7,
        }
    }

    open spec fn failure(native: native::filetype) -> Seq<char> {
        conversion_text(native as u64, "Filetype"@)
    }

    proof fn lemma_lift_valid(native: native::filetype) {
    }

    proof fn lemma_lower_writable(self) {
    }

    proof fn lemma_lower_then_lift(self) {
    }

    fn from_native(native: native::filetype) -> (result: Result<Self, WasiValueError<Self>>) {
        match native {
            0 => Ok(Filetype::Unknown),
            1 => Ok(Filetype::BlockDevice),
            2 => Ok(Filetype::CharacterDevice),
            3 => Ok(Filetype::Directory),
            4 => Ok(Filetype::RegularFile),
            5 => Ok(Filetype::SocketDgram),
            6 => Ok(Filetype::SocketStream),
            7 => Ok(Filetype::SymbolicLink),
            _ => Err(WasiValueError(native, Self::get_error_message(native))),
        }
    }

    fn to_native(self) -> (native: native::filetype) {
        match self {
            Filetype::Unknown => 0,
            Filetype::BlockDevice => 1,
            Filetype::CharacterDevice => 2,
            Filetype::Directory => 3,
            Filetype::RegularFile => 4,
            Filetype::SocketDgram => 5,
            Filetype::SocketStream => 6,
            Filetype::SymbolicLink => 7,
        }
    }
}

impl WasiLeafValue for Filetype {
    fn get_error_message(native: Self::NativeType) -> (message: String) {
        let message = conversion_message(native as u64, "Filetype");
        assert(Self::failure(native) == conversion_text(native as u64, "Filetype"@));
        message
    }
}

/// File or memory access pattern advisory information.
#[derive(Debug, Clone, Copy, PartialEq, Eq, Hash, Structural)]
#[non_exhaustive]
pub enum Advice {
    /// The application has no advice to give.
    Normal,
    /// The data will be accessed sequentially from lower to higher offsets.
    Sequential,
    /// The data will be accessed in random order.
    Random,
    /// The data will be accessed in the near future.
    Willneed,
    /// The data will not be accessed in the near future.
    Dontneed,
    /// The data will be accessed once and not reused.
    Noreuse,
}

impl WasiValue for Advice {
    type NativeType = native::advice;

    open spec fn valid(self) -> bool {
        true
    }

    open spec fn lift(native: native::advice) -> Option<Self> {
        match native {
            0 => Some(Advice::Normal),
            1 => Some(Advice::Sequential),
            2 => Some(Advice::Random),
            3 => Some(Advice::Willneed),
            4 => Some(Advice::Dontneed),
            5 => Some(Advice::Noreuse),
            _ => None,
        }
    }

    open spec fn lower(self) -> native::advice {
        match self {
            Advice::Normal => 0,
            Advice::Sequential => 1,
            Advice::Random => 2,
            Advice::Willneed => 3,
            Advice::Dontneed => 4,
            Advice::Noreuse => 5,
        }
    }

    open spec fn failure(native: native::advice) -> Seq<char> {
        conversion_text(native as u64, "Advice"@)
    }

    proof fn lemma_lift_valid(native: native::advice) {
    }

    proof fn lemma_lower_writable(self) {
    }

    proof fn lemma_lower_then_lift(self) {
    }

    fn from_native(native: native::advice) -> (result: Result<Self, WasiValueError<Self>>) {
        match native {
            0 => Ok(Advice::Normal),
            1 => Ok(Advice::Sequential),
            2 => Ok(Advice::Random),
            3 => Ok(Advice::Willneed),
            4 => Ok(Advice::Dontneed),
            5 => Ok(Advice::Noreuse),
            _ => Err(WasiValueError(native, Self::get_error_message(native))),
        }
    }

    fn to_native(self) -> (native: native::advice) {
        match self {
            Advice::Normal => 0,
            Advice::Sequential => 1,
            Advice::Random => 2,
            Advice::Willneed => 3,
            Advice::Dontneed => 4,
            Advice::Noreuse => 5,
        }
    }
}

impl WasiLeafValue for Advice {
    fn get_error_message(native: Self::NativeType) -> (message: String) {
        let message = conversion_message(native as u64, "Advice");
        assert(Self::failure(native) == conversion_text(native as u64, "Advice"@));
        message
    }
}

/// Type of a subscription to an event or its occurrence.
#[derive(Debug, Clone, Copy, PartialEq, Eq, Hash, Structural)]
#[non_exhaustive]
pub enum Eventtype {
    /// The time value of the subscribed clock has reached the timeout.
    Clock,
    /// The file descriptor has data available for reading.
    FdRead,
    /// The file descriptor has capacity available for writing.
    FdWrite,
}

impl WasiValue for Eventtype {
    type NativeType = native::eventtype;

    open spec fn valid(self) -> bool {
        true
    }

    open spec fn lift(native: native::eventtype) -> Option<Self> {
        match native {
            0 => Some(Eventtype::Clock),
            1 => Some(Eventtype::FdRead),
            2 => Some(Eventtype::FdWrite),
            _ => None,
        }
    }

    open spec fn lower(self) -> native::eventtype {
        match self {
            Eventtype::Clock => 0,
            Eventtype::FdRead => 1,
            Eventtype::FdWrite => 2,
        }
    }

    open spec fn failure(native: native::eventtype) -> Seq<char> {
        conversion_text(native as u64, "Eventtype"@)
    }

    proof fn lemma_lift_valid(native: native::eventtype) {
    }

    proof fn lemma_lower_writable(self) {
    }

    proof fn lemma_lower_then_lift(self) {
    }

    fn from_native(native: native::eventtype) -> (result: Result<Self, WasiValueError<Self>>) {
        match native {
            0 => Ok(Eventtype::Clock),
            1 => Ok(Eventtype::FdRead),
            2 => Ok(Eventtype::FdWrite),
            _ => Err(WasiValueError(native, Self::get_error_message(native))),
        }
    }

    fn to_native(self) -> (native: native::eventtype) {
        match self {
            Eventtype::Clock => 0,
            Eventtype::FdRead => 1,
            Eventtype::FdWrite => 2,
        }
    }
}

impl WasiLeafValue for Eventtype {
    fn get_error_message(native: Self::NativeType) -> (message: String) {
        let message = conversion_message(native as u64, "Eventtype");
        assert(Self::failure(native) == conversion_text(native as u64, "Eventtype"@));
        message
    }
}

/// Signal condition.
#[derive(Debug, Clone, Copy, PartialEq, Eq, Hash, Structural)]
#[non_exhaustive]
pub enum Signal {
    /// No signal.
    NoSignal,
    /// Hangup.
    Hup,
    /// Terminate interrupt signal.
    Int,
    /// Terminal quit signal.
    Quit,
    /// Illegal instruction.
    Ill,
    /// Trace/breakpoint trap.
    Trap,
    /// Process abort signal.
    Abrt,
    /// Access to an undefined portion of a memory object.
    Bus,
    /// Erroneous arithmetic operation.
    Fpe,
    /// Kill.
    Kill,
    /// User-defined signal 1.
    Usr1,
    /// Invalid memory reference.
    Segv,
    /// User-defined signal 2.
    Usr2,
    /// Write on a pipe with no one to read it.
    Pipe,
    /// Alarm clock.
    Alrm,
    /// Termination signal.
    Term,
    /// Child process terminated, stopped, or continued.
    Chld,
    /// Continue executing, if stopped.
    Cont,
    /// Stop executing.
    Stop,
    /// Terminal stop signal.
    Tstp,
    /// Background process attempting read.
    Ttin,
    /// Background process attempting write.
    Ttou,
    /// High bandwidth data is available at a socket.
    Urg,
    /// CPU time limit exceeded.
    Xcpu,
    /// File size limit exceeded.
    Xfsz,
    /// Virtual timer expired.
    Vtalrm,
    /// Profiling timer expired.
    Prof,
    /// Window changed.
    Winch,
    /// I/O possible.
    Poll,
    /// Power failure.
    Pwr,
    /// Bad system call.
    Sys,
}

impl WasiValue for Signal {
    type NativeType = native::signal;

    open spec fn valid(self) -> bool {
        true
    }

    open spec fn lift(native: native::signal) -> Option<Self> {
        match native {
            0 => Some(Signal::NoSignal),
            1 => Some(Signal::Hup),
            2 => Some(Signal::Int),
            3 => Some(Signal::Quit),
            4 => Some(Signal::Ill),
            5 => Some(Signal::Trap),
            6 => Some(Signal::Abrt),
            7 => Some(Signal::Bus),
            8 => Some(Signal::Fpe),
            9 => Some(Signal::Kill),
            10 => Some(Signal::Usr1),
            11 => Some(Signal::Segv),
            12 => Some(Signal::Usr2),
            13 => Some(Signal::Pipe),
            14 => Some(Signal::Alrm),
            15 => Some(Signal::Term),
            16 => Some(Signal::Chld),
            17 => Some(Signal::Cont),
            18 => Some(Signal::Stop),
            19 => Some(Signal::Tstp),
            20 => Some(Signal::Ttin),
            21 => Some(Signal::Ttou),
            22 => Some(Signal::Urg),
            23 => Some(Signal::Xcpu),
            24 => Some(Signal::Xfsz),
            25 => Some(Signal::Vtalrm),
            26 => Some(Signal::Prof),
            27 => Some(Signal::Winch),
            28 => Some(Signal::Poll),
            29 => Some(Signal::Pwr),
            30 => Some(Signal::Sys),
            _ => None,
        }
    }

    open spec fn lower(self) -> native::signal {
        match self {
            Signal::NoSignal => 0,
            Signal::Hup => 1,
            Signal::Int => 2,
            Signal::Quit => 3,
            Signal::Ill => 4,
            Signal::Trap => 5,
            Signal::Abrt => 6,
            Signal::Bus => 7,
            Signal::Fpe => 8,
            Signal::Kill => 9,
            Signal::Usr1 => 10,
            Signal::Segv => 11,
            Signal::Usr2 => 12,
            Signal::Pipe => 13,
            Signal::Alrm => 14,
            Signal::Term => 15,
            Signal::Chld => 16,
            Signal::Cont => 17,
            Signal::Stop => 18,
            Signal::Tstp => 19,
            Signal::Ttin => 20,
            Signal::Ttou => 21,
            Signal::Urg => 22,
            Signal::Xcpu => 23,
            Signal::Xfsz => 24,
            Signal::Vtalrm => 25,
            Signal::Prof => 26,
            Signal::Winch => 27,
            Signal::Poll => 28,
            Signal::Pwr => 29,
            Signal::Sys => 30,
        }
    }

    open spec fn failure(native: native::signal) -> Seq<char> {
        conversion_text(native as u64, "Signal"@)
    }

    proof fn lemma_lift_valid(native: native::signal) {
    }

    proof fn lemma_lower_writable(self) {
    }

    proof fn lemma_lower_then_lift(self) {
    }

    fn from_native(native: native::signal) -> (result: Result<Self, WasiValueError<Self>>) {
        match native {
            0 => Ok(Signal::NoSignal),
            1 => Ok(Signal::Hup),
            2 => Ok(Signal::Int),
            3 => Ok(Signal::Quit),
            4 => Ok(Signal::Ill),
            5 => Ok(Signal::Trap),
            6 => Ok(Signal::Abrt),
            7 => Ok(Signal::Bus),
            8 => Ok(Signal::Fpe),
            9 => Ok(Signal::Kill),
            10 => Ok(Signal::Usr1),
            11 => Ok(Signal::Segv),
            12 => Ok(Signal::Usr2),
            13 => Ok(Signal::Pipe),
            14 => Ok(Signal::Alrm),
            15 => Ok(Signal::Term),
            16 => Ok(Signal::Chld),
            17 => Ok(Signal::Cont),
            18 => Ok(Signal::Stop),
            19 => Ok(Signal::Tstp),
            20 => Ok(Signal::Ttin),
            21 => Ok(Signal::Ttou),
            22 => Ok(Signal::Urg),
            23 => Ok(Signal::Xcpu),
            24 => Ok(Signal::Xfsz),
            25 => Ok(Signal::Vtalrm),
            26 => Ok(Signal::Prof),
            27 => Ok(Signal::Winch),
            28 => Ok(Signal::Poll),
            29 => Ok(Signal::Pwr),
            30 => Ok(Signal::Sys),
            _ => Err(WasiValueError(native, Self::get_error_message(native))),
        }
    }

    fn to_native(self) -> (native: native::signal) {
        match self {
            Signal::NoSignal => 0,
            Signal::Hup => 1,
            Signal::Int => 2,
            Signal::Quit => 3,
            Signal::Ill => 4,
            Signal::Trap => 5,
            Signal::Abrt => 6,
            Signal::Bus => 7,
            Signal::Fpe => 8,
            Signal::Kill => 9,
            Signal::Usr1 => 10,
            Signal::Segv => 11,
            Signal::Usr2 => 12,
            Signal::Pipe => 13,
            Signal::Alrm => 14,
            Signal::Term => 15,
            Signal::Chld => 16,
            Signal::Cont => 17,
            Signal::Stop => 18,
            Signal::Tstp => 19,
            Signal::Ttin => 20,
            Signal::Ttou => 21,
            Signal::Urg => 22,
            Signal::Xcpu => 23,
            Signal::Xfsz => 24,
            Signal::Vtalrm => 25,
            Signal::Prof => 26,
            Signal::Winch => 27,
            Signal::Poll => 28,
            Signal::Pwr => 29,
            Signal::Sys => 30,
        }
    }
}

impl WasiLeafValue for Signal {
    fn get_error_message(native: Self::NativeType) -> (message: String) {
        let message = conversion_message(native as u64, "Signal");
        assert(Self::failure(native) == conversion_text(native as u64, "Signal"@));
        message
    }
}

/// Identifiers for preopened capabilities.
#[derive(Debug, Clone, Copy, PartialEq, Eq, Hash, Structural)]
#[non_exhaustive]
pub enum Preopentype {
    /// A pre-opened directory.
    Dir,
}

impl WasiValue for Preopentype {
    type NativeType = native::preopentype;

    open spec fn valid(self) -> bool {
        true
    }

    open spec fn lift(native: native::preopentype) -> Option<Self> {
        match native {
            0 => Some(Preopentype::Dir),
            _ => None,
        }
    }

    open spec fn lower(self) -> native::preopentype {
        match self {
            Preopentype::Dir => 0,
        }
    }

    open spec fn failure(native: native::preopentype) -> Seq<char> {
        conversion_text(native as u64, "Preopentype"@)
    }

    proof fn lemma_lift_valid(native: native::preopentype) {
    }

    proof fn lemma_lower_writable(self) {
    }

    proof fn lemma_lower_then_lift(self) {
    }

    fn from_native(native: native::preopentype) -> (result: Result<Self, WasiValueError<Self>>) {
        match native {
            0 => Ok(Preopentype::Dir),
            _ => Err(WasiValueError(native, Self::get_error_message(native))),
        }
    }

    fn to_native(self) -> (native: native::preopentype) {
        match self {
            Preopentype::Dir => 0,
        }
    }
}

impl WasiLeafValue for Preopentype {
    fn get_error_message(native: Self::NativeType) -> (message: String) {
        let message = conversion_message(native as u64, "Preopentype");
        assert(Self::failure(native) == conversion_text(native as u64, "Preopentype"@));
        message
    }
}

/// Result type for WASI operations.
pub type WasiResult<T> = Result<T, Errno>;

/// Of 8-bit flag sets inside a mask: the empty set and the mask are inside,
/// and so are a truncated set, a union, an intersection and a difference.
pub proof fn lemma_mask_u8(a: u8, b: u8, mask: u8)
    by (bit_vector)
    ensures
        0u8 & !mask == 0,
        mask & !mask == 0,
        (a & mask) & !mask == 0,
        a & !mask == 0 && b & !mask == 0 ==> (a | b) & !mask == 0,
        a & !mask == 0 ==> (a & b) & !mask == 0 && (a & !b) & !mask == 0,
        a & 0 == 0,
        a & a == a,
{
}

/// Of 16-bit flag sets inside a mask: the empty set and the mask are inside,
/// and so are a truncated set, a union, an intersection and a difference.
pub proof fn lemma_mask_u16(a: u16, b: u16, mask: u16)
    by (bit_vector)
    ensures
        0u16 & !mask == 0,
        mask & !mask == 0,
        (a & mask) & !mask == 0,
        a & !mask == 0 && b & !mask == 0 ==> (a | b) & !mask == 0,
        a & !mask == 0 ==> (a & b) & !mask == 0 && (a & !b) & !mask == 0,
        a & 0 == 0,
        a & a == a,
{
}

/// Of 32-bit flag sets inside a mask: the empty set and the mask are inside,
/// and so are a truncated set, a union, an intersection and a difference.
pub proof fn lemma_mask_u32(a: u32, b: u32, mask: u32)
    by (bit_vector)
    ensures
        0u32 & !mask == 0,
        mask & !mask == 0,
        (a & mask) & !mask == 0,
        a & !mask == 0 && b & !mask == 0 ==> (a | b) & !mask == 0,
        a & !mask == 0 ==> (a & b) & !mask == 0 && (a & !b) & !mask == 0,
        a & 0 == 0,
        a & a == a,
{
}

/// Of 64-bit flag sets inside a mask: the empty set and the mask are inside,
/// and so are a truncated set, a union, an intersection and a difference.
pub proof fn lemma_mask_u64(a: u64, b: u64, mask: u64)
    by (bit_vector)
    ensures
        0u64 & !mask == 0,
        mask & !mask == 0,
        (a & mask) & !mask == 0,
        a & !mask == 0 && b & !mask == 0 ==> (a | b) & !mask == 0,
        a & !mask == 0 ==> (a & b) & !mask == 0 && (a & !b) & !mask == 0,
        a & 0 == 0,
        a & a == a,
{
}

/// Each flag of `Rights` lies inside the mask of all of them.
proof fn lemma_rights_flags()
    by (bit_vector)
    ensures
        (1u64 << 0) & !0x1fffffffu64 == 0,
        (1u64 << 1) & !0x1fffffffu64 == 0,
        (1u64 << 2) & !0x1fffffffu64 == 0,
        (1u64 << 3) & !0x1fffffffu64 == 0,
        (1u64 << 4) & !0x1fffffffu64 == 0,
        (1u64 << 5) & !0x1fffffffu64 == 0,
        (1u64 << 6) & !0x1fffffffu64 == 0,
        (1u64 << 7) & !0x1fffffffu64 == 0,
        (1u64 << 8) & !0x1fffffffu64 == 0,
        (1u64 << 9) & !0x1fffffffu64 == 0,
        (1u64 << 10) & !0x1fffffffu64 == 0,
        (1u64 << 11) & !0x1fffffffu64 == 0,
        (1u64 << 12) & !0x1fffffffu64 == 0,
        (1u64 << 13) & !0x1fffffffu64 == 0,
        (1u64 << 14) & !0x1fffffffu64 == 0,
        (1u64 << 15) & !0x1fffffffu64 == 0,
        (1u64 << 16) & !0x1fffffffu64 == 0,
        (1u64 << 17) & !0x1fffffffu64 == 0,
        (1u64 << 18) & !0x1fffffffu64 == 0,
        (1u64 << 19) & !0x1fffffffu64 == 0,
        (1u64 << 20) & !0x1fffffffu64 == 0,
        (1u64 << 21) & !0x1fffffffu64 == 0,
        (1u64 << 22) & !0x1fffffffu64 == 0,
        (1u64 << 23) & !0x1fffffffu64 == 0,
        (1u64 << 24) & !0x1fffffffu64 == 0,
        (1u64 << 25) & !0x1fffffffu64 == 0,
        (1u64 << 26) & !0x1fffffffu64 == 0,
        (1u64 << 27) & !0x1fffffffu64 == 0,
        (1u64 << 28) & !0x1fffffffu64 == 0,
{
}

/// File descriptor rights, determining which actions may be performed.
#[derive(Debug, Clone, Copy, PartialEq, Eq, Hash, Structural)]
pub struct Rights {
    pub bits: native::rights,
}

impl Rights {
    /// Whether every flag of `other` is set in this set.
    pub open spec fn has(self, other: Self) -> bool {
        self.bits & other.bits == other.bits
    }

    /// The set without any flag.
    pub fn empty() -> (flags: Self)
        ensures
            flags.bits == 0,
            flags.valid(),
    {
        proof {
            lemma_mask_u64(0, 0, native::RIGHTS_ALL);
        }
        Rights { bits: 0 }
    }

    /// The set of every flag that is defined.
    pub fn all() -> (flags: Self)
        ensures
            flags.bits == native::RIGHTS_ALL,
            flags.valid(),
    {
        proof {
            lemma_mask_u64(0, 0, native::RIGHTS_ALL);
        }
        Rights { bits: native::RIGHTS_ALL }
    }

    /// The right to invoke `fd_datasync`.
    pub fn fd_datasync() -> (flags: Self)
        ensures
            flags.bits == native::RIGHTS_FD_DATASYNC,
            flags.valid(),
    {
        proof {
            lemma_rights_flags();
        }
        Rights { bits: native::RIGHTS_FD_DATASYNC }
    }

    /// The right to invoke `fd_read` and `sock_recv`.
    pub fn fd_read() -> (flags: Self)
        ensures
            flags.bits == native::RIGHTS_FD_READ,
            flags.valid(),
    {
        proof {
            lemma_rights_flags();
        }
        Rights { bits: native::RIGHTS_FD_READ }
    }

    /// The right to invoke `fd_seek`.
    pub fn fd_seek() -> (flags: Self)
        ensures
            flags.bits == native::RIGHTS_FD_SEEK,
            flags.valid(),
    {
        proof {
            lemma_rights_flags();
        }
        Rights { bits: native::RIGHTS_FD_SEEK }
    }

    /// The right to invoke `fd_fdstat_set_flags`.
    pub fn fd_fdstat_set_flags() -> (flags: Self)
        ensures
            flags.bits == native::RIGHTS_FD_FDSTAT_SET_FLAGS,
            flags.valid(),
    {
        proof {
            lemma_rights_flags();
        }
        Rights { bits: native::RIGHTS_FD_FDSTAT_SET_FLAGS }
    }

    /// The right to invoke `fd_sync`.
    pub fn fd_sync() -> (flags: Self)
        ensures
            flags.bits == native::RIGHTS_FD_SYNC,
            flags.valid(),
    {
        proof {
            lemma_rights_flags();
        }
        Rights { bits: native::RIGHTS_FD_SYNC }
    }

    /// The right to invoke `fd_seek` in such a way that the offset remains unaltered.
    pub fn fd_tell() -> (flags: Self)
        ensures
            flags.bits == native::RIGHTS_FD_TELL,
            flags.valid(),
    {
        proof {
            lemma_rights_flags();
        }
        Rights { bits: native::RIGHTS_FD_TELL }
    }

    /// The right to invoke `fd_write` and `sock_send`.
    pub fn fd_write() -> (flags: Self)
        ensures
            flags.bits == native::RIGHTS_FD_WRITE,
            flags.valid(),
    {
        proof {
            lemma_rights_flags();
        }
        Rights { bits: native::RIGHTS_FD_WRITE }
    }

    /// The right to invoke `fd_advise`.
    pub fn fd_advise() -> (flags: Self)
        ensures
            flags.bits == native::RIGHTS_FD_ADVISE,
            flags.valid(),
    {
        proof {
            lemma_rights_flags();
        }
        Rights { bits: native::RIGHTS_FD_ADVISE }
    }

    /// The right to invoke `fd_allocate`.
    pub fn fd_allocate() -> (flags: Self)
        ensures
            flags.bits == native::RIGHTS_FD_ALLOCATE,
            flags.valid(),
    {
        proof {
            lemma_rights_flags();
        }
        Rights { bits: native::RIGHTS_FD_ALLOCATE }
    }

    /// The right to invoke `path_create_directory`.
    pub fn path_create_directory() -> (flags: Self)
        ensures
            flags.bits == native::RIGHTS_PATH_CREATE_DIRECTORY,
            flags.valid(),
    {
        proof {
            lemma_rights_flags();
        }
        Rights { bits: native::RIGHTS_PATH_CREATE_DIRECTORY }
    }

    /// The right to invoke `path_open` with the create flag.
    pub fn path_create_file() -> (flags: Self)
        ensures
            flags.bits == native::RIGHTS_PATH_CREATE_FILE,
            flags.valid(),
    {
        proof {
            lemma_rights_flags();
        }
        Rights { bits: native::RIGHTS_PATH_CREATE_FILE }
    }

    /// The right to invoke `path_link` with the descriptor as the source directory.
    pub fn path_link_source() -> (flags: Self)
        ensures
            flags.bits == native::RIGHTS_PATH_LINK_SOURCE,
            flags.valid(),
    {
        proof {
            lemma_rights_flags();
        }
        Rights { bits: native::RIGHTS_PATH_LINK_SOURCE }
    }

    /// The right to invoke `path_link` with the descriptor as the target directory.
    pub fn path_link_target() -> (flags: Self)
        ensures
            flags.bits == native::RIGHTS_PATH_LINK_TARGET,
            flags.valid(),
    {
        proof {
            lemma_rights_flags();
        }
        Rights { bits: native::RIGHTS_PATH_LINK_TARGET }
    }

    /// The right to invoke `path_open`.
    pub fn path_open() -> (flags: Self)
        ensures
            flags.bits == native::RIGHTS_PATH_OPEN,
            flags.valid(),
    {
        proof {
            lemma_rights_flags();
        }
        Rights { bits: native::RIGHTS_PATH_OPEN }
    }

    /// The right to invoke `fd_readdir`.
    pub fn fd_readdir() -> (flags: Self)
        ensures
            flags.bits == native::RIGHTS_FD_READDIR,
            flags.valid(),
    {
        proof {
            lemma_rights_flags();
        }
        Rights { bits: native::RIGHTS_FD_READDIR }
    }

    /// The right to invoke `path_readlink`.
    pub fn path_readlink() -> (flags: Self)
        ensures
            flags.bits == native::RIGHTS_PATH_READLINK,
            flags.valid(),
    {
        proof {
            lemma_rights_flags();
        }
        Rights { bits: native::RIGHTS_PATH_READLINK }
    }

    /// The right to invoke `path_rename` with the descriptor as the source directory.
    pub fn path_rename_source() -> (flags: Self)
        ensures
            flags.bits == native::RIGHTS_PATH_RENAME_SOURCE,
            flags.valid(),
    {
        proof {
            lemma_rights_flags();
        }
        Rights { bits: native::RIGHTS_PATH_RENAME_SOURCE }
    }

    /// The right to invoke `path_rename` with the descriptor as the target directory.
    pub fn path_rename_target() -> (flags: Self)
        ensures
            flags.bits == native::RIGHTS_PATH_RENAME_TARGET,
            flags.valid(),
    {
        proof {
            lemma_rights_flags();
        }
        Rights { bits: native::RIGHTS_PATH_RENAME_TARGET }
    }

    /// The right to invoke `path_filestat_get`.
    pub fn path_filestat_get() -> (flags: Self)
        ensures
            flags.bits == native::RIGHTS_PATH_FILESTAT_GET,
            flags.valid(),
    {
        proof {
            lemma_rights_flags();
        }
        Rights { bits: native::RIGHTS_PATH_FILESTAT_GET }
    }

    /// The right to change a file's size through `path_open` with the truncate flag.
    pub fn path_filestat_set_size() -> (flags: Self)
        ensures
            flags.bits == native::RIGHTS_PATH_FILESTAT_SET_SIZE,
            flags.valid(),
    {
        proof {
            lemma_rights_flags();
        }
        Rights { bits: native::RIGHTS_PATH_FILESTAT_SET_SIZE }
    }

    /// The right to invoke `path_filestat_set_times`.
    pub fn path_filestat_set_times() -> (flags: Self)
        ensures
            flags.bits == native::RIGHTS_PATH_FILESTAT_SET_TIMES,
            flags.valid(),
    {
        proof {
            lemma_rights_flags();
        }
        Rights { bits: native::RIGHTS_PATH_FILESTAT_SET_TIMES }
    }

    /// The right to invoke `fd_filestat_get`.
    pub fn fd_filestat_get() -> (flags: Self)
        ensures
            flags.bits == native::RIGHTS_FD_FILESTAT_GET,
            flags.valid(),
    {
        proof {
            lemma_rights_flags();
        }
        Rights { bits: native::RIGHTS_FD_FILESTAT_GET }
    }

    /// The right to invoke `fd_filestat_set_size`.
    pub fn fd_filestat_set_size() -> (flags: Self)
        ensures
            flags.bits == native::RIGHTS_FD_FILESTAT_SET_SIZE,
            flags.valid(),
    {
        proof {
            lemma_rights_flags();
        }
        Rights { bits: native::RIGHTS_FD_FILESTAT_SET_SIZE }
    }

    /// The right to invoke `fd_filestat_set_times`.
    pub fn fd_filestat_set_times() -> (flags: Self)
        ensures
            flags.bits == native::RIGHTS_FD_FILESTAT_SET_TIMES,
            flags.valid(),
    {
        proof {
            lemma_rights_flags();
        }
        Rights { bits: native::RIGHTS_FD_FILESTAT_SET_TIMES }
    }

    /// The right to invoke `path_symlink`.
    pub fn path_symlink() -> (flags: Self)
        ensures
            flags.bits == native::RIGHTS_PATH_SYMLINK,
            flags.valid(),
    {
        proof {
            lemma_rights_flags();
        }
        Rights { bits: native::RIGHTS_PATH_SYMLINK }
    }

    /// The right to invoke `path_remove_directory`.
    pub fn path_remove_directory() -> (flags: Self)
        ensures
            flags.bits == native::RIGHTS_PATH_REMOVE_DIRECTORY,
            flags.valid(),
    {
        proof {
            lemma_rights_flags();
        }
        Rights { bits: native::RIGHTS_PATH_REMOVE_DIRECTORY }
    }

    /// The right to invoke `path_unlink_file`.
    pub fn path_unlink_file() -> (flags: Self)
        ensures
            flags.bits == native::RIGHTS_PATH_UNLINK_FILE,
            flags.valid(),
    {
        proof {
            lemma_rights_flags();
        }
        Rights { bits: native::RIGHTS_PATH_UNLINK_FILE }
    }

    /// The right to subscribe to read and write events with `poll_oneoff`.
    pub fn poll_fd_readwrite() -> (flags: Self)
        ensures
            flags.bits == native::RIGHTS_POLL_FD_READWRITE,
            flags.valid(),
    {
        proof {
            lemma_rights_flags();
        }
        Rights { bits: native::RIGHTS_POLL_FD_READWRITE }
    }

    /// The right to invoke `sock_shutdown`.
    pub fn sock_shutdown() -> (flags: Self)
        ensures
            flags.bits == native::RIGHTS_SOCK_SHUTDOWN,
            flags.valid(),
    {
        proof {
            lemma_rights_flags();
        }
        Rights { bits: native::RIGHTS_SOCK_SHUTDOWN }
    }

    /// The bit pattern of the set.
    pub fn bits(self) -> (bits: native::rights)
        ensures
            bits == self.bits,
    {
        self.bits
    }

    /// The set with the given bit pattern, unless a bit without a meaning is set.
    pub fn from_bits(bits: native::rights) -> (flags: Option<Self>)
        ensures
            flags == Self::lift(bits),
    {
        if bits & !native::RIGHTS_ALL == 0 {
            Some(Rights { bits })
        } else {
            None
        }
    }

    /// The set of the flags in the given bit pattern that are defined.
    pub fn from_bits_truncate(bits: native::rights) -> (flags: Self)
        ensures
            flags.bits == bits & native::RIGHTS_ALL,
            flags.valid(),
    {
        proof {
            lemma_mask_u64(bits, 0, native::RIGHTS_ALL);
        }
        Rights { bits: bits & native::RIGHTS_ALL }
    }

    /// Whether no flag is set.
    pub fn is_empty(self) -> (empty: bool)
        ensures
            empty == (self.bits == 0),
    {
        self.bits == 0
    }

    /// Whether every flag of `other` is set in this set.
    pub fn contains(self, other: Self) -> (inside: bool)
        ensures
            inside == self.has(other),
    {
        self.bits & other.bits == other.bits
    }

    /// The flags that are set in this set or in `other`.
    pub fn union(self, other: Self) -> (flags: Self)
        ensures
            flags.bits == self.bits | other.bits,
            self.valid() && other.valid() ==> flags.valid(),
    {
        proof {
            lemma_mask_u64(self.bits, other.bits, native::RIGHTS_ALL);
        }
        Rights { bits: self.bits | other.bits }
    }

    /// The flags that are set in this set and in `other`.
    pub fn intersection(self, other: Self) -> (flags: Self)
        ensures
            flags.bits == self.bits & other.bits,
            self.valid() ==> flags.valid(),
    {
        proof {
            lemma_mask_u64(self.bits, other.bits, native::RIGHTS_ALL);
        }
        Rights { bits: self.bits & other.bits }
    }
}

impl WasiValue for Rights {
    type NativeType = native::rights;

    open spec fn valid(self) -> bool {
        self.bits & !native::RIGHTS_ALL == 0
    }

    open spec fn lift(native: native::rights) -> Option<Self> {
        if native & !native::RIGHTS_ALL == 0 {
            Some(Rights { bits: native })
        } else {
            None
        }
    }

    open spec fn lower(self) -> native::rights {
        self.bits
    }

    open spec fn failure(native: native::rights) -> Seq<char> {
        conversion_text(native, "Rights"@)
    }

    proof fn lemma_lift_valid(native: native::rights) {
    }

    proof fn lemma_lower_writable(self) {
    }

    proof fn lemma_lower_then_lift(self) {
    }

    fn from_native(native: native::rights) -> (result: Result<Self, WasiValueError<Self>>) {
        if native & !native::RIGHTS_ALL == 0 {
            Ok(Rights { bits: native })
        } else {
            Err(WasiValueError(native, Self::get_error_message(native)))
        }
    }

    fn to_native(self) -> (native: native::rights) {
        self.bits
    }
}

impl WasiLeafValue for Rights {
    fn get_error_message(native: Self::NativeType) -> (message: String) {
        let message = conversion_message(native, "Rights");
        assert(Self::failure(native) == conversion_text(native, "Rights"@));
        message
    }
}

/// Each flag of `Fdflags` lies inside the mask of all of them.
proof fn lemma_fdflags_flags()
    by (bit_vector)
    ensures
        (1u16 << 0) & !0x1fu16 == 0,
        (1u16 << 1) & !0x1fu16 == 0,
        (1u16 << 2) & !0x1fu16 == 0,
        (1u16 << 3) & !0x1fu16 == 0,
        (1u16 << 4) & !0x1fu16 == 0,
{
}

/// File descriptor flags.
#[derive(Debug, Clone, Copy, PartialEq, Eq, Hash, Structural)]
pub struct Fdflags {
    pub bits: native::fdflags,
}

impl Fdflags {
    /// Whether every flag of `other` is set in this set.
    pub open spec fn has(self, other: Self) -> bool {
        self.bits & other.bits == other.bits
    }

    /// The set without any flag.
    pub fn empty() -> (flags: Self)
        ensures
            flags.bits == 0,
            flags.valid(),
    {
        proof {
            lemma_mask_u16(0, 0, native::FDFLAGS_ALL);
        }
        Fdflags { bits: 0 }
    }

    /// The set of every flag that is defined.
    pub fn all() -> (flags: Self)
        ensures
            flags.bits == native::FDFLAGS_ALL,
            flags.valid(),
    {
        proof {
            lemma_mask_u16(0, 0, native::FDFLAGS_ALL);
        }
        Fdflags { bits: native::FDFLAGS_ALL }
    }

    /// Append mode: data written to the file is always appended to the file's end.
    pub fn append() -> (flags: Self)
        ensures
            flags.bits == native::FDFLAGS_APPEND,
            flags.valid(),
    {
        proof {
            lemma_fdflags_flags();
        }
        Fdflags { bits: native::FDFLAGS_APPEND }
    }

    /// Write according to synchronized I/O data integrity completion.
    pub fn dsync() -> (flags: Self)
        ensures
            flags.bits == native::FDFLAGS_DSYNC,
            flags.valid(),
    {
        proof {
            lemma_fdflags_flags();
        }
        Fdflags { bits: native::FDFLAGS_DSYNC }
    }

    /// Non-blocking mode.
    pub fn nonblock() -> (flags: Self)
        ensures
            flags.bits == native::FDFLAGS_NONBLOCK,
            flags.valid(),
    {
        proof {
            lemma_fdflags_flags();
        }
        Fdflags { bits: native::FDFLAGS_NONBLOCK }
    }

    /// Synchronized read I/O operations.
    pub fn rsync() -> (flags: Self)
        ensures
            flags.bits == native::FDFLAGS_RSYNC,
            flags.valid(),
    {
        proof {
            lemma_fdflags_flags();
        }
        Fdflags { bits: native::FDFLAGS_RSYNC }
    }

    /// Write according to synchronized I/O file integrity completion.
    pub fn sync() -> (flags: Self)
        ensures
            flags.bits == native::FDFLAGS_SYNC,
            flags.valid(),
    {
        proof {
            lemma_fdflags_flags();
        }
        Fdflags { bits: native::FDFLAGS_SYNC }
    }

    /// The bit pattern of the set.
    pub fn bits(self) -> (bits: native::fdflags)
        ensures
            bits == self.bits,
    {
        self.bits
    }

    /// The set with the given bit pattern, unless a bit without a meaning is set.
    pub fn from_bits(bits: native::fdflags) -> (flags: Option<Self>)
        ensures
            flags == Self::lift(bits),
    {
        if bits & !native::FDFLAGS_ALL == 0 {
            Some(Fdflags { bits })
        } else {
            None
        }
    }

    /// The set of the flags in the given bit pattern that are defined.
    pub fn from_bits_truncate(bits: native::fdflags) -> (flags: Self)
        ensures
            flags.bits == bits & native::FDFLAGS_ALL,
            flags.valid(),
    {
        proof {
            lemma_mask_u16(bits, 0, native::FDFLAGS_ALL);
        }
        Fdflags { bits: bits & native::FDFLAGS_ALL }
    }

    /// Whether no flag is set.
    pub fn is_empty(self) -> (empty: bool)
        ensures
            empty == (self.bits == 0),
    {
        self.bits == 0
    }

    /// Whether every flag of `other` is set in this set.
    pub fn contains(self, other: Self) -> (inside: bool)
        ensures
            inside == self.has(other),
    {
        self.bits & other.bits == other.bits
    }

    /// The flags that are set in this set or in `other`.
    pub fn union(self, other: Self) -> (flags: Self)
        ensures
            flags.bits == self.bits | other.bits,
            self.valid() && other.valid() ==> flags.valid(),
    {
        proof {
            lemma_mask_u16(self.bits, other.bits, native::FDFLAGS_ALL);
        }
        Fdflags { bits: self.bits | other.bits }
    }

    /// The flags that are set in this set and in `other`.
    pub fn intersection(self, other: Self) -> (flags: Self)
        ensures
            flags.bits == self.bits & other.bits,
            self.valid() ==> flags.valid(),
    {
        proof {
            lemma_mask_u16(self.bits, other.bits, native::FDFLAGS_ALL);
        }
        Fdflags { bits: self.bits & other.bits }
    }
}

impl WasiValue for Fdflags {
    type NativeType = native::fdflags;

    open spec fn valid(self) -> bool {
        self.bits & !native::FDFLAGS_ALL == 0
    }

    open spec fn lift(native: native::fdflags) -> Option<Self> {
        if native & !native::FDFLAGS_ALL == 0 {
            Some(Fdflags { bits: native })
        } else {
            None
        }
    }

    open spec fn lower(self) -> native::fdflags {
        self.bits
    }

    open spec fn failure(native: native::fdflags) -> Seq<char> {
        conversion_text(native as u64, "Fdflags"@)
    }

    proof fn lemma_lift_valid(native: native::fdflags) {
    }

    proof fn lemma_lower_writable(self) {
    }

    proof fn lemma_lower_then_lift(self) {
    }

    fn from_native(native: native::fdflags) -> (result: Result<Self, WasiValueError<Self>>) {
        if native & !native::FDFLAGS_ALL == 0 {
            Ok(Fdflags { bits: native })
        } else {
            Err(WasiValueError(native, Self::get_error_message(native)))
        }
    }

    fn to_native(self) -> (native: native::fdflags) {
        self.bits
    }
}

impl WasiLeafValue for Fdflags {
    fn get_error_message(native: Self::NativeType) -> (message: String) {
        let message = conversion_message(native as u64, "Fdflags");
        assert(Self::failure(native) == conversion_text(native as u64, "Fdflags"@));
        message
    }
}

/// Each flag of `Fstflags` lies inside the mask of all of them.
proof fn lemma_fstflags_flags()
    by (bit_vector)
    ensures
        (1u16 << 0) & !0xfu16 == 0,
        (1u16 << 1) & !0xfu16 == 0,
        (1u16 << 2) & !0xfu16 == 0,
        (1u16 << 3) & !0xfu16 == 0,
{
}

/// Which file time attributes to adjust.
#[derive(Debug, Clone, Copy, PartialEq, Eq, Hash, Structural)]
pub struct Fstflags {
    pub bits: native::fstflags,
}

impl Fstflags {
    /// Whether every flag of `other` is set in this set.
    pub open spec fn has(self, other: Self) -> bool {
        self.bits & other.bits == other.bits
    }

    /// The set without any flag.
    pub fn empty() -> (flags: Self)
        ensures
            flags.bits == 0,
            flags.valid(),
    {
        proof {
            lemma_mask_u16(0, 0, native::FSTFLAGS_ALL);
        }
        Fstflags { bits: 0 }
    }

    /// The set of every flag that is defined.
    pub fn all() -> (flags: Self)
        ensures
            flags.bits == native::FSTFLAGS_ALL,
            flags.valid(),
    {
        proof {
            lemma_mask_u16(0, 0, native::FSTFLAGS_ALL);
        }
        Fstflags { bits: native::FSTFLAGS_ALL }
    }

    /// Adjust the last data access timestamp to the value given.
    pub fn atim() -> (flags: Self)
        ensures
            flags.bits == native::FSTFLAGS_ATIM,
            flags.valid(),
    {
        proof {
            lemma_fstflags_flags();
        }
        Fstflags { bits: native::FSTFLAGS_ATIM }
    }

    /// Adjust the last data access timestamp to the time of the clock.
    pub fn atim_now() -> (flags: Self)
        ensures
            flags.bits == native::FSTFLAGS_ATIM_NOW,
            flags.valid(),
    {
        proof {
            lemma_fstflags_flags();
        }
        Fstflags { bits: native::FSTFLAGS_ATIM_NOW }
    }

    /// Adjust the last data modification timestamp to the value given.
    pub fn mtim() -> (flags: Self)
        ensures
            flags.bits == native::FSTFLAGS_MTIM,
            flags.valid(),
    {
        proof {
            lemma_fstflags_flags();
        }
        Fstflags { bits: native::FSTFLAGS_MTIM }
    }

    /// Adjust the last data modification timestamp to the time of the clock.
    pub fn mtim_now() -> (flags: Self)
        ensures
            flags.bits == native::FSTFLAGS_MTIM_NOW,
            flags.valid(),
    {
        proof {
            lemma_fstflags_flags();
        }
        Fstflags { bits: native::FSTFLAGS_MTIM_NOW }
    }

    /// The bit pattern of the set.
    pub fn bits(self) -> (bits: native::fstflags)
        ensures
            bits == self.bits,
    {
        self.bits
    }

    /// The set with the given bit pattern, unless a bit without a meaning is set.
    pub fn from_bits(bits: native::fstflags) -> (flags: Option<Self>)
        ensures
            flags == Self::lift(bits),
    {
        if bits & !native::FSTFLAGS_ALL == 0 {
            Some(Fstflags { bits })
        } else {
            None
        }
    }

    /// The set of the flags in the given bit pattern that are defined.
    pub fn from_bits_truncate(bits: native::fstflags) -> (flags: Self)
        ensures
            flags.bits == bits & native::FSTFLAGS_ALL,
            flags.valid(),
    {
        proof {
            lemma_mask_u16(bits, 0, native::FSTFLAGS_ALL);
        }
        Fstflags { bits: bits & native::FSTFLAGS_ALL }
    }

    /// Whether no flag is set.
    pub fn is_empty(self) -> (empty: bool)
        ensures
            empty == (self.bits == 0),
    {
        self.bits == 0
    }

    /// Whether every flag of `other` is set in this set.
    pub fn contains(self, other: Self) -> (inside: bool)
        ensures
            inside == self.has(other),
    {
        self.bits & other.bits == other.bits
    }

    /// The flags that are set in this set or in `other`.
    pub fn union(self, other: Self) -> (flags: Self)
        ensures
            flags.bits == self.bits | other.bits,
            self.valid() && other.valid() ==> flags.valid(),
    {
        proof {
            lemma_mask_u16(self.bits, other.bits, native::FSTFLAGS_ALL);
        }
        Fstflags { bits: self.bits | other.bits }
    }

    /// The flags that are set in this set and in `other`.
    pub fn intersection(self, other: Self) -> (flags: Self)
        ensures
            flags.bits == self.bits & other.bits,
            self.valid() ==> flags.valid(),
    {
        proof {
            lemma_mask_u16(self.bits, other.bits, native::FSTFLAGS_ALL);
        }
        Fstflags { bits: self.bits & other.bits }
    }
}

impl WasiValue for Fstflags {
    type NativeType = native::fstflags;

    open spec fn valid(self) -> bool {
        self.bits & !native::FSTFLAGS_ALL == 0
    }

    open spec fn lift(native: native::fstflags) -> Option<Self> {
        if native & !native::FSTFLAGS_ALL == 0 {
            Some(Fstflags { bits: native })
        } else {
            None
        }
    }

    open spec fn lower(self) -> native::fstflags {
        self.bits
    }

    open spec fn failure(native: native::fstflags) -> Seq<char> {
        conversion_text(native as u64, "Fstflags"@)
    }

    proof fn lemma_lift_valid(native: native::fstflags) {
    }

    proof fn lemma_lower_writable(self) {
    }

    proof fn lemma_lower_then_lift(self) {
    }

    fn from_native(native: native::fstflags) -> (result: Result<Self, WasiValueError<Self>>) {
        if native & !native::FSTFLAGS_ALL == 0 {
            Ok(Fstflags { bits: native })
        } else {
            Err(WasiValueError(native, Self::get_error_message(native)))
        }
    }

    fn to_native(self) -> (native: native::fstflags) {
        self.bits
    }
}

impl WasiLeafValue for Fstflags {
    fn get_error_message(native: Self::NativeType) -> (message: String) {
        let message = conversion_message(native as u64, "Fstflags");
        assert(Self::failure(native) == conversion_text(native as u64, "Fstflags"@));
        message
    }
}

/// Each flag of `Lookupflags` lies inside the mask of all of them.
proof fn lemma_lookupflags_flags()
    by (bit_vector)
    ensures
        (1u32 << 0) & !0x1u32 == 0,
{
}

/// Flags determining the method of how paths are resolved.
#[derive(Debug, Clone, Copy, PartialEq, Eq, Hash, Structural)]
pub struct Lookupflags {
    pub bits: native::lookupflags,
}

impl Lookupflags {
    /// Whether every flag of `other` is set in this set.
    pub open spec fn has(self, other: Self) -> bool {
        self.bits & other.bits == other.bits
    }

    /// The set without any flag.
    pub fn empty() -> (flags: Self)
        ensures
            flags.bits == 0,
            flags.valid(),
    {
        proof {
            lemma_mask_u32(0, 0, native::LOOKUPFLAGS_ALL);
        }
        Lookupflags { bits: 0 }
    }

    /// The set of every flag that is defined.
    pub fn all() -> (flags: Self)
        ensures
            flags.bits == native::LOOKUPFLAGS_ALL,
            flags.valid(),
    {
        proof {
            lemma_mask_u32(0, 0, native::LOOKUPFLAGS_ALL);
        }
        Lookupflags { bits: native::LOOKUPFLAGS_ALL }
    }

    /// As long as the resolved path corresponds to a symbolic link, it is expanded.
    pub fn symlink_follow() -> (flags: Self)
        ensures
            flags.bits == native::LOOKUPFLAGS_SYMLINK_FOLLOW,
            flags.valid(),
    {
        proof {
            lemma_lookupflags_flags();
        }
        Lookupflags { bits: native::LOOKUPFLAGS_SYMLINK_FOLLOW }
    }

    /// The bit pattern of the set.
    pub fn bits(self) -> (bits: native::lookupflags)
        ensures
            bits == self.bits,
    {
        self.bits
    }

    /// The set with the given bit pattern, unless a bit without a meaning is set.
    pub fn from_bits(bits: native::lookupflags) -> (flags: Option<Self>)
        ensures
            flags == Self::lift(bits),
    {
        if bits & !native::LOOKUPFLAGS_ALL == 0 {
            Some(Lookupflags { bits })
        } else {
            None
        }
    }

    /// The set of the flags in the given bit pattern that are defined.
    pub fn from_bits_truncate(bits: native::lookupflags) -> (flags: Self)
        ensures
            flags.bits == bits & native::LOOKUPFLAGS_ALL,
            flags.valid(),
    {
        proof {
            lemma_mask_u32(bits, 0, native::LOOKUPFLAGS_ALL);
        }
        Lookupflags { bits: bits & native::LOOKUPFLAGS_ALL }
    }

    /// Whether no flag is set.
    pub fn is_empty(self) -> (empty: bool)
        ensures
            empty == (self.bits == 0),
    {
        self.bits == 0
    }

    /// Whether every flag of `other` is set in this set.
    pub fn contains(self, other: Self) -> (inside: bool)
        ensures
            inside == self.has(other),
    {
        self.bits & other.bits == other.bits
    }

    /// The flags that are set in this set or in `other`.
    pub fn union(self, other: Self) -> (flags: Self)
        ensures
            flags.bits == self.bits | other.bits,
            self.valid() && other.valid() ==> flags.valid(),
    {
        proof {
            lemma_mask_u32(self.bits, other.bits, native::LOOKUPFLAGS_ALL);
        }
        Lookupflags { bits: self.bits | other.bits }
    }

    /// The flags that are set in this set and in `other`.
    pub fn intersection(self, other: Self) -> (flags: Self)
        ensures
            flags.bits == self.bits & other.bits,
            self.valid() ==> flags.valid(),
    {
        proof {
            lemma_mask_u32(self.bits, other.bits, native::LOOKUPFLAGS_ALL);
        }
        Lookupflags { bits: self.bits & other.bits }
    }
}

impl WasiValue for Lookupflags {
    type NativeType = native::lookupflags;

    open spec fn valid(self) -> bool {
        self.bits & !native::LOOKUPFLAGS_ALL == 0
    }

    open spec fn lift(native: native::lookupflags) -> Option<Self> {
        if native & !native::LOOKUPFLAGS_ALL == 0 {
            Some(Lookupflags { bits: native })
        } else {
            None
        }
    }

    open spec fn lower(self) -> native::lookupflags {
        self.bits
    }

    open spec fn failure(native: native::lookupflags) -> Seq<char> {
        conversion_text(native as u64, "Lookupflags"@)
    }

    proof fn lemma_lift_valid(native: native::lookupflags) {
    }

    proof fn lemma_lower_writable(self) {
    }

    proof fn lemma_lower_then_lift(self) {
    }

    fn from_native(native: native::lookupflags) -> (result: Result<Self, WasiValueError<Self>>) {
        if native & !native::LOOKUPFLAGS_ALL == 0 {
            Ok(Lookupflags { bits: native })
        } else {
            Err(WasiValueError(native, Self::get_error_message(native)))
        }
    }

    fn to_native(self) -> (native: native::lookupflags) {
        self.bits
    }
}

impl WasiLeafValue for Lookupflags {
    fn get_error_message(native: Self::NativeType) -> (message: String) {
        let message = conversion_message(native as u64, "Lookupflags");
        assert(Self::failure(native) == conversion_text(native as u64, "Lookupflags"@));
        message
    }
}

/// Each flag of `Oflags` lies inside the mask of all of them.
proof fn lemma_oflags_flags()
    by (bit_vector)
    ensures
        (1u16 << 0) & !0xfu16 == 0,
        (1u16 << 1) & !0xfu16 == 0,
        (1u16 << 2) & !0xfu16 == 0,
        (1u16 << 3) & !0xfu16 == 0,
{
}

/// Open flags used by `path_open`.
#[derive(Debug, Clone, Copy, PartialEq, Eq, Hash, Structural)]
pub struct Oflags {
    pub bits: native::oflags,
}

impl Oflags {
    /// Whether every flag of `other` is set in this set.
    pub open spec fn has(self, other: Self) -> bool {
        self.bits & other.bits == other.bits
    }

    /// The set without any flag.
    pub fn empty() -> (flags: Self)
        ensures
            flags.bits == 0,
            flags.valid(),
    {
        proof {
            lemma_mask_u16(0, 0, native::OFLAGS_ALL);
        }
        Oflags { bits: 0 }
    }

    /// The set of every flag that is defined.
    pub fn all() -> (flags: Self)
        ensures
            flags.bits == native::OFLAGS_ALL,
            flags.valid(),
    {
        proof {
            lemma_mask_u16(0, 0, native::OFLAGS_ALL);
        }
        Oflags { bits: native::OFLAGS_ALL }
    }

    /// Create file if it does not exist.
    pub fn creat() -> (flags: Self)
        ensures
            flags.bits == native::OFLAGS_CREAT,
            flags.valid(),
    {
        proof {
            lemma_oflags_flags();
        }
        Oflags { bits: native::OFLAGS_CREAT }
    }

    /// Fail if not a directory.
    pub fn directory() -> (flags: Self)
        ensures
            flags.bits == native::OFLAGS_DIRECTORY,
            flags.valid(),
    {
        proof {
            lemma_oflags_flags();
        }
        Oflags { bits: native::OFLAGS_DIRECTORY }
    }

    /// Fail if file already exists.
    pub fn excl() -> (flags: Self)
        ensures
            flags.bits == native::OFLAGS_EXCL,
            flags.valid(),
    {
        proof {
            lemma_oflags_flags();
        }
        Oflags { bits: native::OFLAGS_EXCL }
    }

    /// Truncate file to size 0.
    pub fn trunc() -> (flags: Self)
        ensures
            flags.bits == native::OFLAGS_TRUNC,
            flags.valid(),
    {
        proof {
            lemma_oflags_flags();
        }
        Oflags { bits: native::OFLAGS_TRUNC }
    }

    /// The bit pattern of the set.
    pub fn bits(self) -> (bits: native::oflags)
        ensures
            bits == self.bits,
    {
        self.bits
    }

    /// The set with the given bit pattern, unless a bit without a meaning is set.
    pub fn from_bits(bits: native::oflags) -> (flags: Option<Self>)
        ensures
            flags == Self::lift(bits),
    {
        if bits & !native::OFLAGS_ALL == 0 {
            Some(Oflags { bits })
        } else {
            None
        }
    }

    /// The set of the flags in the given bit pattern that are defined.
    pub fn from_bits_truncate(bits: native::oflags) -> (flags: Self)
        ensures
            flags.bits == bits & native::OFLAGS_ALL,
            flags.valid(),
    {
        proof {
            lemma_mask_u16(bits, 0, native::OFLAGS_ALL);
        }
        Oflags { bits: bits & native::OFLAGS_ALL }
    }

    /// Whether no flag is set.
    pub fn is_empty(self) -> (empty: bool)
        ensures
            empty == (self.bits == 0),
    {
        self.bits == 0
    }

    /// Whether every flag of `other` is set in this set.
    pub fn contains(self, other: Self) -> (inside: bool)
        ensures
            inside == self.has(other),
    {
        self.bits & other.bits == other.bits
    }

    /// The flags that are set in this set or in `other`.
    pub fn union(self, other: Self) -> (flags: Self)
        ensures
            flags.bits == self.bits | other.bits,
            self.valid() && other.valid() ==> flags.valid(),
    {
        proof {
            lemma_mask_u16(self.bits, other.bits, native::OFLAGS_ALL);
        }
        Oflags { bits: self.bits | other.bits }
    }

    /// The flags that are set in this set and in `other`.
    pub fn intersection(self, other: Self) -> (flags: Self)
        ensures
            flags.bits == self.bits & other.bits,
            self.valid() ==> flags.valid(),
    {
        proof {
            lemma_mask_u16(self.bits, other.bits, native::OFLAGS_ALL);
        }
        Oflags { bits: self.bits & other.bits }
    }
}

impl WasiValue for Oflags {
    type NativeType = native::oflags;

    open spec fn valid(self) -> bool {
        self.bits & !native::OFLAGS_ALL == 0
    }

    open spec fn lift(native: native::oflags) -> Option<Self> {
        if native & !native::OFLAGS_ALL == 0 {
            Some(Oflags { bits: native })
        } else {
            None
        }
    }

    open spec fn lower(self) -> native::oflags {
        self.bits
    }

    open spec fn failure(native: native::oflags) -> Seq<char> {
        conversion_text(native as u64, "Oflags"@)
    }

    proof fn lemma_lift_valid(native: native::oflags) {
    }

    proof fn lemma_lower_writable(self) {
    }

    proof fn lemma_lower_then_lift(self) {
    }

    fn from_native(native: native::oflags) -> (result: Result<Self, WasiValueError<Self>>) {
        if native & !native::OFLAGS_ALL == 0 {
            Ok(Oflags { bits: native })
        } else {
            Err(WasiValueError(native, Self::get_error_message(native)))
        }
    }

    fn to_native(self) -> (native: native::oflags) {
        self.bits
    }
}

impl WasiLeafValue for Oflags {
    fn get_error_message(native: Self::NativeType) -> (message: String) {
        let message = conversion_message(native as u64, "Oflags");
        assert(Self::failure(native) == conversion_text(native as u64, "Oflags"@));
        message
    }
}

/// Each flag of `Eventrwflags` lies inside the mask of all of them.
proof fn lemma_eventrwflags_flags()
    by (bit_vector)
    ensures
        (1u16 << 0) & !0x1u16 == 0,
{
}

/// The state of the file descriptor subscribed to with a read or write event.
#[derive(Debug, Clone, Copy, PartialEq, Eq, Hash, Structural)]
pub struct Eventrwflags {
    pub bits: native::eventrwflags,
}

impl Eventrwflags {
    /// Whether every flag of `other` is set in this set.
    pub open spec fn has(self, other: Self) -> bool {
        self.bits & other.bits == other.bits
    }

    /// The set without any flag.
    pub fn empty() -> (flags: Self)
        ensures
            flags.bits == 0,
            flags.valid(),
    {
        proof {
            lemma_mask_u16(0, 0, native::EVENTRWFLAGS_ALL);
        }
        Eventrwflags { bits: 0 }
    }

    /// The set of every flag that is defined.
    pub fn all() -> (flags: Self)
        ensures
            flags.bits == native::EVENTRWFLAGS_ALL,
            flags.valid(),
    {
        proof {
            lemma_mask_u16(0, 0, native::EVENTRWFLAGS_ALL);
        }
        Eventrwflags { bits: native::EVENTRWFLAGS_ALL }
    }

    /// The peer of this socket has closed or disconnected.
    pub fn fd_readwrite_hangup() -> (flags: Self)
        ensures
            flags.bits == native::EVENTRWFLAGS_FD_READWRITE_HANGUP,
            flags.valid(),
    {
        proof {
            lemma_eventrwflags_flags();
        }
        Eventrwflags { bits: native::EVENTRWFLAGS_FD_READWRITE_HANGUP }
    }

    /// The bit pattern of the set.
    pub fn bits(self) -> (bits: native::eventrwflags)
        ensures
            bits == self.bits,
    {
        self.bits
    }

    /// The set with the given bit pattern, unless a bit without a meaning is set.
    pub fn from_bits(bits: native::eventrwflags) -> (flags: Option<Self>)
        ensures
            flags == Self::lift(bits),
    {
        if bits & !native::EVENTRWFLAGS_ALL == 0 {
            Some(Eventrwflags { bits })
        } else {
            None
        }
    }

    /// The set of the flags in the given bit pattern that are defined.
    pub fn from_bits_truncate(bits: native::eventrwflags) -> (flags: Self)
        ensures
            flags.bits == bits & native::EVENTRWFLAGS_ALL,
            flags.valid(),
    {
        proof {
            lemma_mask_u16(bits, 0, native::EVENTRWFLAGS_ALL);
        }
        Eventrwflags { bits: bits & native::EVENTRWFLAGS_ALL }
    }

    /// Whether no flag is set.
    pub fn is_empty(self) -> (empty: bool)
        ensures
            empty == (self.bits == 0),
    {
        self.bits == 0
    }

    /// Whether every flag of `other` is set in this set.
    pub fn contains(self, other: Self) -> (inside: bool)
        ensures
            inside == self.has(other),
    {
        self.bits & other.bits == other.bits
    }

    /// The flags that are set in this set or in `other`.
    pub fn union(self, other: Self) -> (flags: Self)
        ensures
            flags.bits == self.bits | other.bits,
            self.valid() && other.valid() ==> flags.valid(),
    {
        proof {
            lemma_mask_u16(self.bits, other.bits, native::EVENTRWFLAGS_ALL);
        }
        Eventrwflags { bits: self.bits | other.bits }
    }

    /// The flags that are set in this set and in `other`.
    pub fn intersection(self, other: Self) -> (flags: Self)
        ensures
            flags.bits == self.bits & other.bits,
            self.valid() ==> flags.valid(),
    {
        proof {
            lemma_mask_u16(self.bits, other.bits, native::EVENTRWFLAGS_ALL);
        }
        Eventrwflags { bits: self.bits & other.bits }
    }
}

impl WasiValue for Eventrwflags {
    type NativeType = native::eventrwflags;

    open spec fn valid(self) -> bool {
        self.bits & !native::EVENTRWFLAGS_ALL == 0
    }

    open spec fn lift(native: native::eventrwflags) -> Option<Self> {
        if native & !native::EVENTRWFLAGS_ALL == 0 {
            Some(Eventrwflags { bits: native })
        } else {
            None
        }
    }

    open spec fn lower(self) -> native::eventrwflags {
        self.bits
    }

    open spec fn failure(native: native::eventrwflags) -> Seq<char> {
        conversion_text(native as u64, "Eventrwflags"@)
    }

    proof fn lemma_lift_valid(native: native::eventrwflags) {
    }

    proof fn lemma_lower_writable(self) {
    }

    proof fn lemma_lower_then_lift(self) {
    }

    fn from_native(native: native::eventrwflags) -> (result: Result<Self, WasiValueError<Self>>) {
        if native & !native::EVENTRWFLAGS_ALL == 0 {
            Ok(Eventrwflags { bits: native })
        } else {
            Err(WasiValueError(native, Self::get_error_message(native)))
        }
    }

    fn to_native(self) -> (native: native::eventrwflags) {
        self.bits
    }
}

impl WasiLeafValue for Eventrwflags {
    fn get_error_message(native: Self::NativeType) -> (message: String) {
        let message = conversion_message(native as u64, "Eventrwflags");
        assert(Self::failure(native) == conversion_text(native as u64, "Eventrwflags"@));
        message
    }
}

/// Each flag of `Subclockflags` lies inside the mask of all of them.
proof fn lemma_subclockflags_flags()
    by (bit_vector)
    ensures
        (1u16 << 0) & !0x1u16 == 0,
{
}

/// Flags determining how to interpret the timestamp of a clock subscription.
#[derive(Debug, Clone, Copy, PartialEq, Eq, Hash, Structural)]
pub struct Subclockflags {
    pub bits: native::subclockflags,
}

impl Subclockflags {
    /// Whether every flag of `other` is set in this set.
    pub open spec fn has(self, other: Self) -> bool {
        self.bits & other.bits == other.bits
    }

    /// The set without any flag.
    pub fn empty() -> (flags: Self)
        ensures
            flags.bits == 0,
            flags.valid(),
    {
        proof {
            lemma_mask_u16(0, 0, native::SUBCLOCKFLAGS_ALL);
        }
        Subclockflags { bits: 0 }
    }

    /// The set of every flag that is defined.
    pub fn all() -> (flags: Self)
        ensures
            flags.bits == native::SUBCLOCKFLAGS_ALL,
            flags.valid(),
    {
        proof {
            lemma_mask_u16(0, 0, native::SUBCLOCKFLAGS_ALL);
        }
        Subclockflags { bits: native::SUBCLOCKFLAGS_ALL }
    }

    /// If set, the timeout is an absolute timestamp of the clock.
    pub fn subscription_clock_abstime() -> (flags: Self)
        ensures
            flags.bits == native::SUBCLOCKFLAGS_SUBSCRIPTION_CLOCK_ABSTIME,
            flags.valid(),
    {
        proof {
            lemma_subclockflags_flags();
        }
        Subclockflags { bits: native::SUBCLOCKFLAGS_SUBSCRIPTION_CLOCK_ABSTIME }
    }

    /// The bit pattern of the set.
    pub fn bits(self) -> (bits: native::subclockflags)
        ensures
            bits == self.bits,
    {
        self.bits
    }

    /// The set with the given bit pattern, unless a bit without a meaning is set.
    pub fn from_bits(bits: native::subclockflags) -> (flags: Option<Self>)
        ensures
            flags == Self::lift(bits),
    {
        if bits & !native::SUBCLOCKFLAGS_ALL == 0 {
            Some(Subclockflags { bits })
        } else {
            None
        }
    }

    /// The set of the flags in the given bit pattern that are defined.
    pub fn from_bits_truncate(bits: native::subclockflags) -> (flags: Self)
        ensures
            flags.bits == bits & native::SUBCLOCKFLAGS_ALL,
            flags.valid(),
    {
        proof {
            lemma_mask_u16(bits, 0, native::SUBCLOCKFLAGS_ALL);
        }
        Subclockflags { bits: bits & native::SUBCLOCKFLAGS_ALL }
    }

    /// Whether no flag is set.
    pub fn is_empty(self) -> (empty: bool)
        ensures
            empty == (self.bits == 0),
    {
        self.bits == 0
    }

    /// Whether every flag of `other` is set in this set.
    pub fn contains(self, other: Self) -> (inside: bool)
        ensures
            inside == self.has(other),
    {
        self.bits & other.bits == other.bits
    }

    /// The flags that are set in this set or in `other`.
    pub fn union(self, other: Self) -> (flags: Self)
        ensures
            flags.bits == self.bits | other.bits,
            self.valid() && other.valid() ==> flags.valid(),
    {
        proof {
            lemma_mask_u16(self.bits, other.bits, native::SUBCLOCKFLAGS_ALL);
        }
        Subclockflags { bits: self.bits | other.bits }
    }

    /// The flags that are set in this set and in `other`.
    pub fn intersection(self, other: Self) -> (flags: Self)
        ensures
            flags.bits == self.bits & other.bits,
            self.valid() ==> flags.valid(),
    {
        proof {
            lemma_mask_u16(self.bits, other.bits, native::SUBCLOCKFLAGS_ALL);
        }
        Subclockflags { bits: self.bits & other.bits }
    }
}

impl WasiValue for Subclockflags {
    type NativeType = native::subclockflags;

    open spec fn valid(self) -> bool {
        self.bits & !native::SUBCLOCKFLAGS_ALL == 0
    }

    open spec fn lift(native: native::subclockflags) -> Option<Self> {
        if native & !native::SUBCLOCKFLAGS_ALL == 0 {
            Some(Subclockflags { bits: native })
        } else {
            None
        }
    }

    open spec fn lower(self) -> native::subclockflags {
        self.bits
    }

    open spec fn failure(native: native::subclockflags) -> Seq<char> {
        conversion_text(native as u64, "Subclockflags"@)
    }

    proof fn lemma_lift_valid(native: native::subclockflags) {
    }

    proof fn lemma_lower_writable(self) {
    }

    proof fn lemma_lower_then_lift(self) {
    }

    fn from_native(native: native::subclockflags) -> (result: Result<Self, WasiValueError<Self>>) {
        if native & !native::SUBCLOCKFLAGS_ALL == 0 {
            Ok(Subclockflags { bits: native })
        } else {
            Err(WasiValueError(native, Self::get_error_message(native)))
        }
    }

    fn to_native(self) -> (native: native::subclockflags) {
        self.bits
    }
}

impl WasiLeafValue for Subclockflags {
    fn get_error_message(native: Self::NativeType) -> (message: String) {
        let message = conversion_message(native as u64, "Subclockflags");
        assert(Self::failure(native) == conversion_text(native as u64, "Subclockflags"@));
        message
    }
}

/// Each flag of `Riflags` lies inside the mask of all of them.
proof fn lemma_riflags_flags()
    by (bit_vector)
    ensures
        (1u16 << 0) & !0x3u16 == 0,
        (1u16 << 1) & !0x3u16 == 0,
{
}

/// Flags provided to `sock_recv`.
#[derive(Debug, Clone, Copy, PartialEq, Eq, Hash, Structural)]
pub struct Riflags {
    pub bits: native::riflags,
}

impl Riflags {
    /// Whether every flag of `other` is set in this set.
    pub open spec fn has(self, other: Self) -> bool {
        self.bits & other.bits == other.bits
    }

    /// The set without any flag.
    pub fn empty() -> (flags: Self)
        ensures
            flags.bits == 0,
            flags.valid(),
    {
        proof {
            lemma_mask_u16(0, 0, native::RIFLAGS_ALL);
        }
        Riflags { bits: 0 }
    }

    /// The set of every flag that is defined.
    pub fn all() -> (flags: Self)
        ensures
            flags.bits == native::RIFLAGS_ALL,
            flags.valid(),
    {
        proof {
            lemma_mask_u16(0, 0, native::RIFLAGS_ALL);
        }
        Riflags { bits: native::RIFLAGS_ALL }
    }

    /// Returns the message without removing it from the socket's receive queue.
    pub fn recv_peek() -> (flags: Self)
        ensures
            flags.bits == native::RIFLAGS_RECV_PEEK,
            flags.valid(),
    {
        proof {
            lemma_riflags_flags();
        }
        Riflags { bits: native::RIFLAGS_RECV_PEEK }
    }

    /// On byte-stream sockets, block until the full amount of data can be returned.
    pub fn recv_waitall() -> (flags: Self)
        ensures
            flags.bits == native::RIFLAGS_RECV_WAITALL,
            flags.valid(),
    {
        proof {
            lemma_riflags_flags();
        }
        Riflags { bits: native::RIFLAGS_RECV_WAITALL }
    }

    /// The bit pattern of the set.
    pub fn bits(self) -> (bits: native::riflags)
        ensures
            bits == self.bits,
    {
        self.bits
    }

    /// The set with the given bit pattern, unless a bit without a meaning is set.
    pub fn from_bits(bits: native::riflags) -> (flags: Option<Self>)
        ensures
            flags == Self::lift(bits),
    {
        if bits & !native::RIFLAGS_ALL == 0 {
            Some(Riflags { bits })
        } else {
            None
        }
    }

    /// The set of the flags in the given bit pattern that are defined.
    pub fn from_bits_truncate(bits: native::riflags) -> (flags: Self)
        ensures
            flags.bits == bits & native::RIFLAGS_ALL,
            flags.valid(),
    {
        proof {
            lemma_mask_u16(bits, 0, native::RIFLAGS_ALL);
        }
        Riflags { bits: bits & native::RIFLAGS_ALL }
    }

    /// Whether no flag is set.
    pub fn is_empty(self) -> (empty: bool)
        ensures
            empty == (self.bits == 0),
    {
        self.bits == 0
    }

    /// Whether every flag of `other` is set in this set.
    pub fn contains(self, other: Self) -> (inside: bool)
        ensures
            inside == self.has(other),
    {
        self.bits & other.bits == other.bits
    }

    /// The flags that are set in this set or in `other`.
    pub fn union(self, other: Self) -> (flags: Self)
        ensures
            flags.bits == self.bits | other.bits,
            self.valid() && other.valid() ==> flags.valid(),
    {
        proof {
            lemma_mask_u16(self.bits, other.bits, native::RIFLAGS_ALL);
        }
        Riflags { bits: self.bits | other.bits }
    }

    /// The flags that are set in this set and in `other`.
    pub fn intersection(self, other: Self) -> (flags: Self)
        ensures
            flags.bits == self.bits & other.bits,
            self.valid() ==> flags.valid(),
    {
        proof {
            lemma_mask_u16(self.bits, other.bits, native::RIFLAGS_ALL);
        }
        Riflags { bits: self.bits & other.bits }
    }
}

impl WasiValue for Riflags {
    type NativeType = native::riflags;

    open spec fn valid(self) -> bool {
        self.bits & !native::RIFLAGS_ALL == 0
    }

    open spec fn lift(native: native::riflags) -> Option<Self> {
        if native & !native::RIFLAGS_ALL == 0 {
            Some(Riflags { bits: native })
        } else {
            None
        }
    }

    open spec fn lower(self) -> native::riflags {
        self.bits
    }

    open spec fn failure(native: native::riflags) -> Seq<char> {
        conversion_text(native as u64, "Riflags"@)
    }

    proof fn lemma_lift_valid(native: native::riflags) {
    }

    proof fn lemma_lower_writable(self) {
    }

    proof fn lemma_lower_then_lift(self) {
    }

    fn from_native(native: native::riflags) -> (result: Result<Self, WasiValueError<Self>>) {
        if native & !native::RIFLAGS_ALL == 0 {
            Ok(Riflags { bits: native })
        } else {
            Err(WasiValueError(native, Self::get_error_message(native)))
        }
    }

    fn to_native(self) -> (native: native::riflags) {
        self.bits
    }
}

impl WasiLeafValue for Riflags {
    fn get_error_message(native: Self::NativeType) -> (message: String) {
        let message = conversion_message(native as u64, "Riflags");
        assert(Self::failure(native) == conversion_text(native as u64, "Riflags"@));
        message
    }
}

/// Each flag of `Roflags` lies inside the mask of all of them.
proof fn lemma_roflags_flags()
    by (bit_vector)
    ensures
        (1u16 << 0) & !0x1u16 == 0,
{
}

/// Flags returned by `sock_recv`.
#[derive(Debug, Clone, Copy, PartialEq, Eq, Hash, Structural)]
pub struct Roflags {
    pub bits: native::roflags,
}

impl Roflags {
    /// Whether every flag of `other` is set in this set.
    pub open spec fn has(self, other: Self) -> bool {
        self.bits & other.bits == other.bits
    }

    /// The set without any flag.
    pub fn empty() -> (flags: Self)
        ensures
            flags.bits == 0,
            flags.valid(),
    {
        proof {
            lemma_mask_u16(0, 0, native::ROFLAGS_ALL);
        }
        Roflags { bits: 0 }
    }

    /// The set of every flag that is defined.
    pub fn all() -> (flags: Self)
        ensures
            flags.bits == native::ROFLAGS_ALL,
            flags.valid(),
    {
        proof {
            lemma_mask_u16(0, 0, native::ROFLAGS_ALL);
        }
        Roflags { bits: native::ROFLAGS_ALL }
    }

    /// Message data has been truncated.
    pub fn recv_data_truncated() -> (flags: Self)
        ensures
            flags.bits == native::ROFLAGS_RECV_DATA_TRUNCATED,
            flags.valid(),
    {
        proof {
            lemma_roflags_flags();
        }
        Roflags { bits: native::ROFLAGS_RECV_DATA_TRUNCATED }
    }

    /// The bit pattern of the set.
    pub fn bits(self) -> (bits: native::roflags)
        ensures
            bits == self.bits,
    {
        self.bits
    }

    /// The set with the given bit pattern, unless a bit without a meaning is set.
    pub fn from_bits(bits: native::roflags) -> (flags: Option<Self>)
        ensures
            flags == Self::lift(bits),
    {
        if bits & !native::ROFLAGS_ALL == 0 {
            Some(Roflags { bits })
        } else {
            None
        }
    }

    /// The set of the flags in the given bit pattern that are defined.
    pub fn from_bits_truncate(bits: native::roflags) -> (flags: Self)
        ensures
            flags.bits == bits & native::ROFLAGS_ALL,
            flags.valid(),
    {
        proof {
            lemma_mask_u16(bits, 0, native::ROFLAGS_ALL);
        }
        Roflags { bits: bits & native::ROFLAGS_ALL }
    }

    /// Whether no flag is set.
    pub fn is_empty(self) -> (empty: bool)
        ensures
            empty == (self.bits == 0),
    {
        self.bits == 0
    }

    /// Whether every flag of `other` is set in this set.
    pub fn contains(self, other: Self) -> (inside: bool)
        ensures
            inside == self.has(other),
    {
        self.bits & other.bits == other.bits
    }

    /// The flags that are set in this set or in `other`.
    pub fn union(self, other: Self) -> (flags: Self)
        ensures
            flags.bits == self.bits | other.bits,
            self.valid() && other.valid() ==> flags.valid(),
    {
        proof {
            lemma_mask_u16(self.bits, other.bits, native::ROFLAGS_ALL);
        }
        Roflags { bits: self.bits | other.bits }
    }

    /// The flags that are set in this set and in `other`.
    pub fn intersection(self, other: Self) -> (flags: Self)
        ensures
            flags.bits == self.bits & other.bits,
            self.valid() ==> flags.valid(),
    {
        proof {
            lemma_mask_u16(self.bits, other.bits, native::ROFLAGS_ALL);
        }
        Roflags { bits: self.bits & other.bits }
    }
}

impl WasiValue for Roflags {
    type NativeType = native::roflags;

    open spec fn valid(self) -> bool {
        self.bits & !native::ROFLAGS_ALL == 0
    }

    open spec fn lift(native: native::roflags) -> Option<Self> {
        if native & !native::ROFLAGS_ALL == 0 {
            Some(Roflags { bits: native })
        } else {
            None
        }
    }

    open spec fn lower(self) -> native::roflags {
        self.bits
    }

    open spec fn failure(native: native::roflags) -> Seq<char> {
        conversion_text(native as u64, "Roflags"@)
    }

    proof fn lemma_lift_valid(native: native::roflags) {
    }

    proof fn lemma_lower_writable(self) {
    }

    proof fn lemma_lower_then_lift(self) {
    }

    fn from_native(native: native::roflags) -> (result: Result<Self, WasiValueError<Self>>) {
        if native & !native::ROFLAGS_ALL == 0 {
            Ok(Roflags { bits: native })
        } else {
            Err(WasiValueError(native, Self::get_error_message(native)))
        }
    }

    fn to_native(self) -> (native: native::roflags) {
        self.bits
    }
}

impl WasiLeafValue for Roflags {
    fn get_error_message(native: Self::NativeType) -> (message: String) {
        let message = conversion_message(native as u64, "Roflags");
        assert(Self::failure(native) == conversion_text(native as u64, "Roflags"@));
        message
    }
}

/// Each flag of `Sdflags` lies inside the mask of all of them.
proof fn lemma_sdflags_flags()
    by (bit_vector)
    ensures
        (1u8 << 0) & !0x3u8 == 0,
        (1u8 << 1) & !0x3u8 == 0,
{
}

/// Which channels on a socket to shut down.
#[derive(Debug, Clone, Copy, PartialEq, Eq, Hash, Structural)]
pub struct Sdflags {
    pub bits: native::sdflags,
}

impl Sdflags {
    /// Whether every flag of `other` is set in this set.
    pub open spec fn has(self, other: Self) -> bool {
        self.bits & other.bits == other.bits
    }

    /// The set without any flag.
    pub fn empty() -> (flags: Self)
        ensures
            flags.bits == 0,
            flags.valid(),
    {
        proof {
            lemma_mask_u8(0, 0, native::SDFLAGS_ALL);
        }
        Sdflags { bits: 0 }
    }

    /// The set of every flag that is defined.
    pub fn all() -> (flags: Self)
        ensures
            flags.bits == native::SDFLAGS_ALL,
            flags.valid(),
    {
        proof {
            lemma_mask_u8(0, 0, native::SDFLAGS_ALL);
        }
        Sdflags { bits: native::SDFLAGS_ALL }
    }

    /// Disables further receive operations.
    pub fn rd() -> (flags: Self)
        ensures
            flags.bits == native::SDFLAGS_RD,
            flags.valid(),
    {
        proof {
            lemma_sdflags_flags();
        }
        Sdflags { bits: native::SDFLAGS_RD }
    }

    /// Disables further send operations.
    pub fn wr() -> (flags: Self)
        ensures
            flags.bits == native::SDFLAGS_WR,
            flags.valid(),
    {
        proof {
            lemma_sdflags_flags();
        }
        Sdflags { bits: native::SDFLAGS_WR }
    }

    /// The bit pattern of the set.
    pub fn bits(self) -> (bits: native::sdflags)
        ensures
            bits == self.bits,
    {
        self.bits
    }

    /// The set with the given bit pattern, unless a bit without a meaning is set.
    pub fn from_bits(bits: native::sdflags) -> (flags: Option<Self>)
        ensures
            flags == Self::lift(bits),
    {
        if bits & !native::SDFLAGS_ALL == 0 {
            Some(Sdflags { bits })
        } else {
            None
        }
    }

    /// The set of the flags in the given bit pattern that are defined.
    pub fn from_bits_truncate(bits: native::sdflags) -> (flags: Self)
        ensures
            flags.bits == bits & native::SDFLAGS_ALL,
            flags.valid(),
    {
        proof {
            lemma_mask_u8(bits, 0, native::SDFLAGS_ALL);
        }
        Sdflags { bits: bits & native::SDFLAGS_ALL }
    }

    /// Whether no flag is set.
    pub fn is_empty(self) -> (empty: bool)
        ensures
            empty == (self.bits == 0),
    {
        self.bits == 0
    }

    /// Whether every flag of `other` is set in this set.
    pub fn contains(self, other: Self) -> (inside: bool)
        ensures
            inside == self.has(other),
    {
        self.bits & other.bits == other.bits
    }

    /// The flags that are set in this set or in `other`.
    pub fn union(self, other: Self) -> (flags: Self)
        ensures
            flags.bits == self.bits | other.bits,
            self.valid() && other.valid() ==> flags.valid(),
    {
        proof {
            lemma_mask_u8(self.bits, other.bits, native::SDFLAGS_ALL);
        }
        Sdflags { bits: self.bits | other.bits }
    }

    /// The flags that are set in this set and in `other`.
    pub fn intersection(self, other: Self) -> (flags: Self)
        ensures
            flags.bits == self.bits & other.bits,
            self.valid() ==> flags.valid(),
    {
        proof {
            lemma_mask_u8(self.bits, other.bits, native::SDFLAGS_ALL);
        }
        Sdflags { bits: self.bits & other.bits }
    }
}

impl WasiValue for Sdflags {
    type NativeType = native::sdflags;

    open spec fn valid(self) -> bool {
        self.bits & !native::SDFLAGS_ALL == 0
    }

    open spec fn lift(native: native::sdflags) -> Option<Self> {
        if native & !native::SDFLAGS_ALL == 0 {
            Some(Sdflags { bits: native })
        } else {
            None
        }
    }

    open spec fn lower(self) -> native::sdflags {
        self.bits
    }

    open spec fn failure(native: native::sdflags) -> Seq<char> {
        conversion_text(native as u64, "Sdflags"@)
    }

    proof fn lemma_lift_valid(native: native::sdflags) {
    }

    proof fn lemma_lower_writable(self) {
    }

    proof fn lemma_lower_then_lift(self) {
    }

    fn from_native(native: native::sdflags) -> (result: Result<Self, WasiValueError<Self>>) {
        if native & !native::SDFLAGS_ALL == 0 {
            Ok(Sdflags { bits: native })
        } else {
            Err(WasiValueError(native, Self::get_error_message(native)))
        }
    }

    fn to_native(self) -> (native: native::sdflags) {
        self.bits
    }
}

impl WasiLeafValue for Sdflags {
    fn get_error_message(native: Self::NativeType) -> (message: String) {
        let message = conversion_message(native as u64, "Sdflags");
        assert(Self::failure(native) == conversion_text(native as u64, "Sdflags"@));
        message
    }
}

} // verus!
