//! The rich records and unions of WASI snapshot preview 1.
//!
//! A record converts member by member, and fails where its first member
//! fails. A union converts its payload, and fails on an unrecognized tag.

use vstd::prelude::*;
use crate::native;
use crate::types::{
    Clockid, Dircookie, Dirnamlen, Device, Errno, Eventrwflags, Eventtype, Fd, Fdflags, Filesize,
    Filetype, Inode, Linkcount, Rights, Size, Subclockflags, Timestamp, Userdata,
};
use crate::value::{WasiValue, WasiValueError, UNKNOWN_UNION};

verus! {

/// A directory entry.
#[derive(Debug, Clone, Copy, PartialEq, Eq, Structural)]
pub struct Dirent {
    /// The offset of the next directory entry stored in this directory.
    pub d_next: Dircookie,
    /// The serial number of the file referred to by this directory entry.
    pub d_ino: Inode,
    /// The length of the name of the directory entry.
    pub d_namlen: Dirnamlen,
    /// The type of the file referred to by this directory entry.
    pub d_type: Filetype,
}

impl WasiValue for Dirent {
    type NativeType = native::dirent;

    open spec fn valid(self) -> bool {
        &&& self.d_next.valid()
        &&& self.d_ino.valid()
        &&& self.d_namlen.valid()
        &&& self.d_type.valid()
    }

    open spec fn lift(native: native::dirent) -> Option<Self> {
        if {
            &&& Dircookie::lift(native.d_next).is_some()
            &&& Inode::lift(native.d_ino).is_some()
            &&& Dirnamlen::lift(native.d_namlen).is_some()
            &&& Filetype::lift(native.d_type).is_some()
        } {
            Some(
                Dirent {
                    d_next: Dircookie::lift(native.d_next).unwrap(),
                    d_ino: Inode::lift(native.d_ino).unwrap(),
                    d_namlen: Dirnamlen::lift(native.d_namlen).unwrap(),
                    d_type: Filetype::lift(native.d_type).unwrap(),
                },
            )
        } else {
            None
        }
    }

    open spec fn lower(self) -> native::dirent {
        native::dirent {
            d_next: self.d_next.lower(),
            d_ino: self.d_ino.lower(),
            d_namlen: self.d_namlen.lower(),
            d_type: self.d_type.lower(),
        }
    }

    open spec fn failure(native: native::dirent) -> Seq<char> {
        if Dircookie::lift(native.d_next) is None {
            Dircookie::failure(native.d_next)
        } else if Inode::lift(native.d_ino) is None {
            Inode::failure(native.d_ino)
        } else if Dirnamlen::lift(native.d_namlen) is None {
            Dirnamlen::failure(native.d_namlen)
        } else if Filetype::lift(native.d_type) is None {
            Filetype::failure(native.d_type)
        } else {
            Seq::empty()
        }
    }

    proof fn lemma_lift_valid(native: native::dirent) {
        Dircookie::lemma_lift_valid(native.d_next);
        Inode::lemma_lift_valid(native.d_ino);
        Dirnamlen::lemma_lift_valid(native.d_namlen);
        Filetype::lemma_lift_valid(native.d_type);
    }

    proof fn lemma_lower_writable(self) {
        self.d_next.lemma_lower_writable();
        self.d_ino.lemma_lower_writable();
        self.d_namlen.lemma_lower_writable();
        self.d_type.lemma_lower_writable();
    }

    proof fn lemma_lower_then_lift(self) {
        self.d_next.lemma_lower_then_lift();
        self.d_ino.lemma_lower_then_lift();
        self.d_namlen.lemma_lower_then_lift();
        self.d_type.lemma_lower_then_lift();
    }

    fn from_native(native: native::dirent) -> (result: Result<Self, WasiValueError<Self>>) {
        let d_next = match Dircookie::from_native(native.d_next) {
            Ok(value) => value,
            Err(error) => return Err(WasiValueError(native, error.1)),
        };
        let d_ino = match Inode::from_native(native.d_ino) {
            Ok(value) => value,
            Err(error) => return Err(WasiValueError(native, error.1)),
        };
        let d_namlen = match Dirnamlen::from_native(native.d_namlen) {
            Ok(value) => value,
            Err(error) => return Err(WasiValueError(native, error.1)),
        };
        let d_type = match Filetype::from_native(native.d_type) {
            Ok(value) => value,
            Err(error) => return Err(WasiValueError(native, error.1)),
        };
        Ok(Dirent { d_next, d_ino, d_namlen, d_type })
    }

    fn to_native(self) -> (native: native::dirent) {
        native::dirent {
            d_next: self.d_next.to_native(),
            d_ino: self.d_ino.to_native(),
            d_namlen: self.d_namlen.to_native(),
            d_type: self.d_type.to_native(),
        }
    }
}

/// File descriptor attributes.
#[derive(Debug, Clone, Copy, PartialEq, Eq, Structural)]
pub struct Fdstat {
    /// File type.
    pub fs_filetype: Filetype,
    /// File descriptor flags.
    pub fs_flags: Fdflags,
    /// Rights that apply to this file descriptor.
    pub fs_rights_base: Rights,
    /// Maximum set of rights that may be installed on new file descriptors that are
    /// created through this file descriptor.
    pub fs_rights_inheriting: Rights,
}

impl WasiValue for Fdstat {
    type NativeType = native::fdstat;

    open spec fn valid(self) -> bool {
        &&& self.fs_filetype.valid()
        &&& self.fs_flags.valid()
        &&& self.fs_rights_base.valid()
        &&& self.fs_rights_inheriting.valid()
    }

    open spec fn lift(native: native::fdstat) -> Option<Self> {
        if {
            &&& Filetype::lift(native.fs_filetype).is_some()
            &&& Fdflags::lift(native.fs_flags).is_some()
            &&& Rights::lift(native.fs_rights_base).is_some()
            &&& Rights::lift(native.fs_rights_inheriting).is_some()
        } {
            Some(
                Fdstat {
                    fs_filetype: Filetype::lift(native.fs_filetype).unwrap(),
                    fs_flags: Fdflags::lift(native.fs_flags).unwrap(),
                    fs_rights_base: Rights::lift(native.fs_rights_base).unwrap(),
                    fs_rights_inheriting: Rights::lift(native.fs_rights_inheriting).unwrap(),
                },
            )
        } else {
            None
        }
    }

    open spec fn lower(self) -> native::fdstat {
        native::fdstat {
            fs_filetype: self.fs_filetype.lower(),
            fs_flags: self.fs_flags.lower(),
            fs_rights_base: self.fs_rights_base.lower(),
            fs_rights_inheriting: self.fs_rights_inheriting.lower(),
        }
    }

    open spec fn failure(native: native::fdstat) -> Seq<char> {
        if Filetype::lift(native.fs_filetype) is None {
            Filetype::failure(native.fs_filetype)
        } else if Fdflags::lift(native.fs_flags) is None {
            Fdflags::failure(native.fs_flags)
        } else if Rights::lift(native.fs_rights_base) is None {
            Rights::failure(native.fs_rights_base)
        } else if Rights::lift(native.fs_rights_inheriting) is None {
            Rights::failure(native.fs_rights_inheriting)
        } else {
            Seq::empty()
        }
    }

    proof fn lemma_lift_valid(native: native::fdstat) {
        Filetype::lemma_lift_valid(native.fs_filetype);
        Fdflags::lemma_lift_valid(native.fs_flags);
        Rights::lemma_lift_valid(native.fs_rights_base);
        Rights::lemma_lift_valid(native.fs_rights_inheriting);
    }

    proof fn lemma_lower_writable(self) {
        self.fs_filetype.lemma_lower_writable();
        self.fs_flags.lemma_lower_writable();
        self.fs_rights_base.lemma_lower_writable();
        self.fs_rights_inheriting.lemma_lower_writable();
    }

    proof fn lemma_lower_then_lift(self) {
        self.fs_filetype.lemma_lower_then_lift();
        self.fs_flags.lemma_lower_then_lift();
        self.fs_rights_base.lemma_lower_then_lift();
        self.fs_rights_inheriting.lemma_lower_then_lift();
    }

    fn from_native(native: native::fdstat) -> (result: Result<Self, WasiValueError<Self>>) {
        let fs_filetype = match Filetype::from_native(native.fs_filetype) {
            Ok(value) => value,
            Err(error) => return Err(WasiValueError(native, error.1)),
        };
        let fs_flags = match Fdflags::from_native(native.fs_flags) {
            Ok(value) => value,
            Err(error) => return Err(WasiValueError(native, error.1)),
        };
        let fs_rights_base = match Rights::from_native(native.fs_rights_base) {
            Ok(value) => value,
            Err(error) => return Err(WasiValueError(native, error.1)),
        };
        let fs_rights_inheriting = match Rights::from_native(native.fs_rights_inheriting) {
            Ok(value) => value,
            Err(error) => return Err(WasiValueError(native, error.1)),
        };
        Ok(Fdstat { fs_filetype, fs_flags, fs_rights_base, fs_rights_inheriting })
    }

    fn to_native(self) -> (native: native::fdstat) {
        native::fdstat {
            fs_filetype: self.fs_filetype.to_native(),
            fs_flags: self.fs_flags.to_native(),
            fs_rights_base: self.fs_rights_base.to_native(),
            fs_rights_inheriting: self.fs_rights_inheriting.to_native(),
        }
    }
}

/// File attributes.
#[derive(Debug, Clone, Copy, PartialEq, Eq, Structural)]
pub struct Filestat {
    /// Device ID of device containing the file.
    pub dev: Device,
    /// File serial number.
    pub ino: Inode,
    /// File type.
    pub filetype: Filetype,
    /// Number of hard links to the file.
    pub nlink: Linkcount,
    /// For regular files, the file size in bytes.
    pub size: Filesize,
    /// Last data access timestamp.
    pub atim: Timestamp,
    /// Last data modification timestamp.
    pub mtim: Timestamp,
    /// Last file status change timestamp.
    pub ctim: Timestamp,
}

impl WasiValue for Filestat {
    type NativeType = native::filestat;

    open spec fn valid(self) -> bool {
        &&& self.dev.valid()
        &&& self.ino.valid()
        &&& self.filetype.valid()
        &&& self.nlink.valid()
        &&& self.size.valid()
        &&& self.atim.valid()
        &&& self.mtim.valid()
        &&& self.ctim.valid()
    }

    open spec fn lift(native: native::filestat) -> Option<Self> {
        if {
            &&& Device::lift(native.dev).is_some()
            &&& Inode::lift(native.ino).is_some()
            &&& Filetype::lift(native.filetype).is_some()
            &&& Linkcount::lift(native.nlink).is_some()
            &&& Filesize::lift(native.size).is_some()
            &&& Timestamp::lift(native.atim).is_some()
            &&& Timestamp::lift(native.mtim).is_some()
            &&& Timestamp::lift(native.ctim).is_some()
        } {
            Some(
                Filestat {
                    dev: Device::lift(native.dev).unwrap(),
                    ino: Inode::lift(native.ino).unwrap(),
                    filetype: Filetype::lift(native.filetype).unwrap(),
                    nlink: Linkcount::lift(native.nlink).unwrap(),
                    size: Filesize::lift(native.size).unwrap(),
                    atim: Timestamp::lift(native.atim).unwrap(),
                    mtim: Timestamp::lift(native.mtim).unwrap(),
                    ctim: Timestamp::lift(native.ctim).unwrap(),
                },
            )
        } else {
            None
        }
    }

    open spec fn lower(self) -> native::filestat {
        native::filestat {
            dev: self.dev.lower(),
            ino: self.ino.lower(),
            filetype: self.filetype.lower(),
            nlink: self.nlink.lower(),
            size: self.size.lower(),
            atim: self.atim.lower(),
            mtim: self.mtim.lower(),
            ctim: self.ctim.lower(),
        }
    }

    open spec fn failure(native: native::filestat) -> Seq<char> {
        if Device::lift(native.dev) is None {
            Device::failure(native.dev)
        } else if Inode::lift(native.ino) is None {
            Inode::failure(native.ino)
        } else if Filetype::lift(native.filetype) is None {
            Filetype::failure(native.filetype)
        } else if Linkcount::lift(native.nlink) is None {
            Linkcount::failure(native.nlink)
        } else if Filesize::lift(native.size) is None {
            Filesize::failure(native.size)
        } else if Timestamp::lift(native.atim) is None {
            Timestamp::failure(native.atim)
        } else if Timestamp::lift(native.mtim) is None {
            Timestamp::failure(native.mtim)
        } else if Timestamp::lift(native.ctim) is None {
            Timestamp::failure(native.ctim)
        } else {
            Seq::empty()
        }
    }

    proof fn lemma_lift_valid(native: native::filestat) {
        Device::lemma_lift_valid(native.dev);
        Inode::lemma_lift_valid(native.ino);
        Filetype::lemma_lift_valid(native.filetype);
        Linkcount::lemma_lift_valid(native.nlink);
        Filesize::lemma_lift_valid(native.size);
        Timestamp::lemma_lift_valid(native.atim);
        Timestamp::lemma_lift_valid(native.mtim);
        Timestamp::lemma_lift_valid(native.ctim);
    }

    proof fn lemma_lower_writable(self) {
        self.dev.lemma_lower_writable();
        self.ino.lemma_lower_writable();
        self.filetype.lemma_lower_writable();
        self.nlink.lemma_lower_writable();
        self.size.lemma_lower_writable();
        self.atim.lemma_lower_writable();
        self.mtim.lemma_lower_writable();
        self.ctim.lemma_lower_writable();
    }

    proof fn lemma_lower_then_lift(self) {
        self.dev.lemma_lower_then_lift();
        self.ino.lemma_lower_then_lift();
        self.filetype.lemma_lower_then_lift();
        self.nlink.lemma_lower_then_lift();
        self.size.lemma_lower_then_lift();
        self.atim.lemma_lower_then_lift();
        self.mtim.lemma_lower_then_lift();
        self.ctim.lemma_lower_then_lift();
    }

    fn from_native(native: native::filestat) -> (result: Result<Self, WasiValueError<Self>>) {
        let dev = match Device::from_native(native.dev) {
            Ok(value) => value,
            Err(error) => return Err(WasiValueError(native, error.1)),
        };
        let ino = match Inode::from_native(native.ino) {
            Ok(value) => value,
            Err(error) => return Err(WasiValueError(native, error.1)),
        };
        let filetype = match Filetype::from_native(native.filetype) {
            Ok(value) => value,
            Err(error) => return Err(WasiValueError(native, error.1)),
        };
        let nlink = match Linkcount::from_native(native.nlink) {
            Ok(value) => value,
            Err(error) => return Err(WasiValueError(native, error.1)),
        };
        let size = match Filesize::from_native(native.size) {
            Ok(value) => value,
            Err(error) => return Err(WasiValueError(native, error.1)),
        };
        let atim = match Timestamp::from_native(native.atim) {
            Ok(value) => value,
            Err(error) => return Err(WasiValueError(native, error.1)),
        };
        let mtim = match Timestamp::from_native(native.mtim) {
            Ok(value) => value,
            Err(error) => return Err(WasiValueError(native, error.1)),
        };
        let ctim = match Timestamp::from_native(native.ctim) {
            Ok(value) => value,
            Err(error) => return Err(WasiValueError(native, error.1)),
        };
        Ok(Filestat { dev, ino, filetype, nlink, size, atim, mtim, ctim })
    }

    fn to_native(self) -> (native: native::filestat) {
        native::filestat {
            dev: self.dev.to_native(),
            ino: self.ino.to_native(),
            filetype: self.filetype.to_native(),
            nlink: self.nlink.to_native(),
            size: self.size.to_native(),
            atim: self.atim.to_native(),
            mtim: self.mtim.to_native(),
            ctim: self.ctim.to_native(),
        }
    }
}

/// The contents of an event for a read or write subscription.
#[derive(Debug, Clone, Copy, PartialEq, Eq, Structural)]
pub struct EventFdReadwrite {
    /// The number of bytes available for reading or writing.
    pub nbytes: Filesize,
    /// The state of the file descriptor.
    pub flags: Eventrwflags,
}

impl WasiValue for EventFdReadwrite {
    type NativeType = native::event_fd_readwrite;

    open spec fn valid(self) -> bool {
        &&& self.nbytes.valid()
        &&& self.flags.valid()
    }

    open spec fn lift(native: native::event_fd_readwrite) -> Option<Self> {
        if {
            &&& Filesize::lift(native.nbytes).is_some()
            &&& Eventrwflags::lift(native.flags).is_some()
        } {
            Some(
                EventFdReadwrite {
                    nbytes: Filesize::lift(native.nbytes).unwrap(),
                    flags: Eventrwflags::lift(native.flags).unwrap(),
                },
            )
        } else {
            None
        }
    }

    open spec fn lower(self) -> native::event_fd_readwrite {
        native::event_fd_readwrite {
            nbytes: self.nbytes.lower(),
            flags: self.flags.lower(),
        }
    }

    open spec fn failure(native: native::event_fd_readwrite) -> Seq<char> {
        if Filesize::lift(native.nbytes) is None {
            Filesize::failure(native.nbytes)
        } else if Eventrwflags::lift(native.flags) is None {
            Eventrwflags::failure(native.flags)
        } else {
            Seq::empty()
        }
    }

    proof fn lemma_lift_valid(native: native::event_fd_readwrite) {
        Filesize::lemma_lift_valid(native.nbytes);
        Eventrwflags::lemma_lift_valid(native.flags);
    }

    proof fn lemma_lower_writable(self) {
        self.nbytes.lemma_lower_writable();
        self.flags.lemma_lower_writable();
    }

    proof fn lemma_lower_then_lift(self) {
        self.nbytes.lemma_lower_then_lift();
        self.flags.lemma_lower_then_lift();
    }

    fn from_native(
        native: native::event_fd_readwrite,
    ) -> (result: Result<Self, WasiValueError<Self>>) {
        let nbytes = match Filesize::from_native(native.nbytes) {
            Ok(value) => value,
            Err(error) => return Err(WasiValueError(native, error.1)),
        };
        let flags = match Eventrwflags::from_native(native.flags) {
            Ok(value) => value,
            Err(error) => return Err(WasiValueError(native, error.1)),
        };
        Ok(EventFdReadwrite { nbytes, flags })
    }

    fn to_native(self) -> (native: native::event_fd_readwrite) {
        native::event_fd_readwrite {
            nbytes: self.nbytes.to_native(),
            flags: self.flags.to_native(),
        }
    }
}

/// An event that occurred.
#[derive(Debug, Clone, Copy, PartialEq, Eq, Structural)]
pub struct Event {
    /// User-provided value that got attached to the subscription.
    pub userdata: Userdata,
    /// If non-zero, an error that occurred while processing the subscription request.
    pub error: Errno,
    /// The type of event that occurred.
    pub type_: Eventtype,
    /// The contents of the event, if it is a read or write event.
    pub fd_readwrite: EventFdReadwrite,
}

impl WasiValue for Event {
    type NativeType = native::event;

    open spec fn valid(self) -> bool {
        &&& self.userdata.valid()
        &&& self.error.valid()
        &&& self.type_.valid()
        &&& self.fd_readwrite.valid()
    }

    open spec fn lift(native: native::event) -> Option<Self> {
        if {
            &&& Userdata::lift(native.userdata).is_some()
            &&& Errno::lift(native.error).is_some()
            &&& Eventtype::lift(native.type_).is_some()
            &&& EventFdReadwrite::lift(native.fd_readwrite).is_some()
        } {
            Some(
                Event {
                    userdata: Userdata::lift(native.userdata).unwrap(),
                    error: Errno::lift(native.error).unwrap(),
                    type_: Eventtype::lift(native.type_).unwrap(),
                    fd_readwrite: EventFdReadwrite::lift(native.fd_readwrite).unwrap(),
                },
            )
        } else {
            None
        }
    }

    open spec fn lower(self) -> native::event {
        native::event {
            userdata: self.userdata.lower(),
            error: self.error.lower(),
            type_: self.type_.lower(),
            fd_readwrite: self.fd_readwrite.lower(),
        }
    }

    open spec fn failure(native: native::event) -> Seq<char> {
        if Userdata::lift(native.userdata) is None {
            Userdata::failure(native.userdata)
        } else if Errno::lift(native.error) is None {
            Errno::failure(native.error)
        } else if Eventtype::lift(native.type_) is None {
            Eventtype::failure(native.type_)
        } else if EventFdReadwrite::lift(native.fd_readwrite) is None {
            EventFdReadwrite::failure(native.fd_readwrite)
        } else {
            Seq::empty()
        }
    }

    proof fn lemma_lift_valid(native: native::event) {
        Userdata::lemma_lift_valid(native.userdata);
        Errno::lemma_lift_valid(native.error);
        Eventtype::lemma_lift_valid(native.type_);
        EventFdReadwrite::lemma_lift_valid(native.fd_readwrite);
    }

    proof fn lemma_lower_writable(self) {
        self.userdata.lemma_lower_writable();
        self.error.lemma_lower_writable();
        self.type_.lemma_lower_writable();
        self.fd_readwrite.lemma_lower_writable();
    }

    proof fn lemma_lower_then_lift(self) {
        self.userdata.lemma_lower_then_lift();
        self.error.lemma_lower_then_lift();
        self.type_.lemma_lower_then_lift();
        self.fd_readwrite.lemma_lower_then_lift();
    }

    fn from_native(native: native::event) -> (result: Result<Self, WasiValueError<Self>>) {
        let userdata = match Userdata::from_native(native.userdata) {
            Ok(value) => value,
            Err(error) => return Err(WasiValueError(native, error.1)),
        };
        let error = match Errno::from_native(native.error) {
            Ok(value) => value,
            Err(error) => return Err(WasiValueError(native, error.1)),
        };
        let type_ = match Eventtype::from_native(native.type_) {
            Ok(value) => value,
            Err(error) => return Err(WasiValueError(native, error.1)),
        };
        let fd_readwrite = match EventFdReadwrite::from_native(native.fd_readwrite) {
            Ok(value) => value,
            Err(error) => return Err(WasiValueError(native, error.1)),
        };
        Ok(Event { userdata, error, type_, fd_readwrite })
    }

    fn to_native(self) -> (native: native::event) {
        native::event {
            userdata: self.userdata.to_native(),
            error: self.error.to_native(),
            type_: self.type_.to_native(),
            fd_readwrite: self.fd_readwrite.to_native(),
        }
    }
}

/// The contents of a subscription to a clock.
#[derive(Debug, Clone, Copy, PartialEq, Eq, Structural)]
pub struct SubscriptionClock {
    /// The clock against which to compare the timestamp.
    pub id: Clockid,
    /// The absolute or relative timestamp.
    pub timeout: Timestamp,
    /// The amount of time that may be waited in addition to the timestamp.
    pub precision: Timestamp,
    /// Flags specifying whether the timeout is absolute or relative.
    pub flags: Subclockflags,
}

impl WasiValue for SubscriptionClock {
    type NativeType = native::subscription_clock;

    open spec fn valid(self) -> bool {
        &&& self.id.valid()
        &&& self.timeout.valid()
        &&& self.precision.valid()
        &&& self.flags.valid()
    }

    open spec fn lift(native: native::subscription_clock) -> Option<Self> {
        if {
            &&& Clockid::lift(native.id).is_some()
            &&& Timestamp::lift(native.timeout).is_some()
            &&& Timestamp::lift(native.precision).is_some()
            &&& Subclockflags::lift(native.flags).is_some()
        } {
            Some(
                SubscriptionClock {
                    id: Clockid::lift(native.id).unwrap(),
                    timeout: Timestamp::lift(native.timeout).unwrap(),
                    precision: Timestamp::lift(native.precision).unwrap(),
                    flags: Subclockflags::lift(native.flags).unwrap(),
                },
            )
        } else {
            None
        }
    }

    open spec fn lower(self) -> native::subscription_clock {
        native::subscription_clock {
            id: self.id.lower(),
            timeout: self.timeout.lower(),
            precision: self.precision.lower(),
            flags: self.flags.lower(),
        }
    }

    open spec fn failure(native: native::subscription_clock) -> Seq<char> {
        if Clockid::lift(native.id) is None {
            Clockid::failure(native.id)
        } else if Timestamp::lift(native.timeout) is None {
            Timestamp::failure(native.timeout)
        } else if Timestamp::lift(native.precision) is None {
            Timestamp::failure(native.precision)
        } else if Subclockflags::lift(native.flags) is None {
            Subclockflags::failure(native.flags)
        } else {
            Seq::empty()
        }
    }

    proof fn lemma_lift_valid(native: native::subscription_clock) {
        Clockid::lemma_lift_valid(native.id);
        Timestamp::lemma_lift_valid(native.timeout);
        Timestamp::lemma_lift_valid(native.precision);
        Subclockflags::lemma_lift_valid(native.flags);
    }

    proof fn lemma_lower_writable(self) {
        self.id.lemma_lower_writable();
        self.timeout.lemma_lower_writable();
        self.precision.lemma_lower_writable();
        self.flags.lemma_lower_writable();
    }

    proof fn lemma_lower_then_lift(self) {
        self.id.lemma_lower_then_lift();
        self.timeout.lemma_lower_then_lift();
        self.precision.lemma_lower_then_lift();
        self.flags.lemma_lower_then_lift();
    }

    fn from_native(
        native: native::subscription_clock,
    ) -> (result: Result<Self, WasiValueError<Self>>) {
        let id = match Clockid::from_native(native.id) {
            Ok(value) => value,
            Err(error) => return Err(WasiValueError(native, error.1)),
        };
        let timeout = match Timestamp::from_native(native.timeout) {
            Ok(value) => value,
            Err(error) => return Err(WasiValueError(native, error.1)),
        };
        let precision = match Timestamp::from_native(native.precision) {
            Ok(value) => value,
            Err(error) => return Err(WasiValueError(native, error.1)),
        };
        let flags = match Subclockflags::from_native(native.flags) {
            Ok(value) => value,
            Err(error) => return Err(WasiValueError(native, error.1)),
        };
        Ok(SubscriptionClock { id, timeout, precision, flags })
    }

    fn to_native(self) -> (native: native::subscription_clock) {
        native::subscription_clock {
            id: self.id.to_native(),
            timeout: self.timeout.to_native(),
            precision: self.precision.to_native(),
            flags: self.flags.to_native(),
        }
    }
}

/// The contents of a subscription to a read or write event.
#[derive(Debug, Clone, Copy, PartialEq, Eq, Structural)]
pub struct SubscriptionFdReadwrite {
    /// The file descriptor on which to wait.
    pub file_descriptor: Fd,
}

impl WasiValue for SubscriptionFdReadwrite {
    type NativeType = native::subscription_fd_readwrite;

    open spec fn valid(self) -> bool {
        &&& self.file_descriptor.valid()
    }

    open spec fn lift(native: native::subscription_fd_readwrite) -> Option<Self> {
        if {
            &&& Fd::lift(native.file_descriptor).is_some()
        } {
            Some(
                SubscriptionFdReadwrite {
                    file_descriptor: Fd::lift(native.file_descriptor).unwrap(),
                },
            )
        } else {
            None
        }
    }

    open spec fn lower(self) -> native::subscription_fd_readwrite {
        native::subscription_fd_readwrite {
            file_descriptor: self.file_descriptor.lower(),
        }
    }

    open spec fn failure(native: native::subscription_fd_readwrite) -> Seq<char> {
        if Fd::lift(native.file_descriptor) is None {
            Fd::failure(native.file_descriptor)
        } else {
            Seq::empty()
        }
    }

    proof fn lemma_lift_valid(native: native::subscription_fd_readwrite) {
        Fd::lemma_lift_valid(native.file_descriptor);
    }

    proof fn lemma_lower_writable(self) {
        self.file_descriptor.lemma_lower_writable();
    }

    proof fn lemma_lower_then_lift(self) {
        self.file_descriptor.lemma_lower_then_lift();
    }

    fn from_native(
        native: native::subscription_fd_readwrite,
    ) -> (result: Result<Self, WasiValueError<Self>>) {
        let file_descriptor = match Fd::from_native(native.file_descriptor) {
            Ok(value) => value,
            Err(error) => return Err(WasiValueError(native, error.1)),
        };
        Ok(SubscriptionFdReadwrite { file_descriptor })
    }

    fn to_native(self) -> (native: native::subscription_fd_readwrite) {
        native::subscription_fd_readwrite {
            file_descriptor: self.file_descriptor.to_native(),
        }
    }
}

/// The contents of a prestat when it is a pre-opened directory.
#[derive(Debug, Clone, Copy, PartialEq, Eq, Structural)]
pub struct PrestatDir {
    /// The length of the directory name for use with `fd_prestat_dir_name`.
    pub pr_name_len: Size,
}

impl WasiValue for PrestatDir {
    type NativeType = native::prestat_dir;

    open spec fn valid(self) -> bool {
        &&& self.pr_name_len.valid()
    }

    open spec fn lift(native: native::prestat_dir) -> Option<Self> {
        if {
            &&& Size::lift(native.pr_name_len).is_some()
        } {
            Some(
                PrestatDir {
                    pr_name_len: Size::lift(native.pr_name_len).unwrap(),
                },
            )
        } else {
            None
        }
    }

    open spec fn lower(self) -> native::prestat_dir {
        native::prestat_dir {
            pr_name_len: self.pr_name_len.lower(),
        }
    }

    open spec fn failure(native: native::prestat_dir) -> Seq<char> {
        if Size::lift(native.pr_name_len) is None {
            Size::failure(native.pr_name_len)
        } else {
            Seq::empty()
        }
    }

    proof fn lemma_lift_valid(native: native::prestat_dir) {
        Size::lemma_lift_valid(native.pr_name_len);
    }

    proof fn lemma_lower_writable(self) {
        self.pr_name_len.lemma_lower_writable();
    }

    proof fn lemma_lower_then_lift(self) {
        self.pr_name_len.lemma_lower_then_lift();
    }

    fn from_native(native: native::prestat_dir) -> (result: Result<Self, WasiValueError<Self>>) {
        let pr_name_len = match Size::from_native(native.pr_name_len) {
            Ok(value) => value,
            Err(error) => return Err(WasiValueError(native, error.1)),
        };
        Ok(PrestatDir { pr_name_len })
    }

    fn to_native(self) -> (native: native::prestat_dir) {
        native::prestat_dir {
            pr_name_len: self.pr_name_len.to_native(),
        }
    }
}

/// The contents of a subscription.
#[derive(Debug, Clone, Copy, PartialEq, Eq, Structural)]
pub enum SubscriptionU {
    /// A subscription to a clock.
    Clock(SubscriptionClock),
    /// A subscription to data being available for reading.
    FdRead(SubscriptionFdReadwrite),
    /// A subscription to capacity being available for writing.
    FdWrite(SubscriptionFdReadwrite),
}

impl WasiValue for SubscriptionU {
    type NativeType = native::subscription_u;

    open spec fn valid(self) -> bool {
        match self {
            SubscriptionU::Clock(value) => value.valid(),
            SubscriptionU::FdRead(value) => value.valid(),
            SubscriptionU::FdWrite(value) => value.valid(),
        }
    }

    open spec fn lift(native: native::subscription_u) -> Option<Self> {
        match native {
            native::subscription_u::clock(value) => match SubscriptionClock::lift(value) {
                Some(value) => Some(SubscriptionU::Clock(value)),
                None => None,
            },
            native::subscription_u::fd_read(value) => match SubscriptionFdReadwrite::lift(value) {
                Some(value) => Some(SubscriptionU::FdRead(value)),
                None => None,
            },
            native::subscription_u::fd_write(value) => match SubscriptionFdReadwrite::lift(value) {
                Some(value) => Some(SubscriptionU::FdWrite(value)),
                None => None,
            },
            native::subscription_u::Unknown => None,
        }
    }

    open spec fn lower(self) -> native::subscription_u {
        match self {
            SubscriptionU::Clock(value) => native::subscription_u::clock(value.lower()),
            SubscriptionU::FdRead(value) => native::subscription_u::fd_read(value.lower()),
            SubscriptionU::FdWrite(value) => native::subscription_u::fd_write(value.lower()),
        }
    }

    open spec fn failure(native: native::subscription_u) -> Seq<char> {
        match native {
            native::subscription_u::clock(value) => SubscriptionClock::failure(value),
            native::subscription_u::fd_read(value) => SubscriptionFdReadwrite::failure(value),
            native::subscription_u::fd_write(value) => SubscriptionFdReadwrite::failure(value),
            native::subscription_u::Unknown => UNKNOWN_UNION@,
        }
    }

    proof fn lemma_lift_valid(native: native::subscription_u) {
        match native {
            native::subscription_u::clock(value) => {
                SubscriptionClock::lemma_lift_valid(value);
            },
            native::subscription_u::fd_read(value) => {
                SubscriptionFdReadwrite::lemma_lift_valid(value);
            },
            native::subscription_u::fd_write(value) => {
                SubscriptionFdReadwrite::lemma_lift_valid(value);
            },
            native::subscription_u::Unknown => {
            },
        }
    }

    proof fn lemma_lower_writable(self) {
        match self {
            SubscriptionU::Clock(value) => {
                value.lemma_lower_writable();
            },
            SubscriptionU::FdRead(value) => {
                value.lemma_lower_writable();
            },
            SubscriptionU::FdWrite(value) => {
                value.lemma_lower_writable();
            },
        }
    }

    proof fn lemma_lower_then_lift(self) {
        match self {
            SubscriptionU::Clock(value) => {
                value.lemma_lower_then_lift();
            },
            SubscriptionU::FdRead(value) => {
                value.lemma_lower_then_lift();
            },
            SubscriptionU::FdWrite(value) => {
                value.lemma_lower_then_lift();
            },
        }
    }

    fn from_native(native: native::subscription_u) -> (result: Result<Self, WasiValueError<Self>>) {
        match native {
            native::subscription_u::clock(value) => match SubscriptionClock::from_native(value) {
                Ok(value) => Ok(SubscriptionU::Clock(value)),
                Err(error) => Err(WasiValueError(native, error.1)),
            },
            native::subscription_u::fd_read(value) => {
                match SubscriptionFdReadwrite::from_native(value) {
                    Ok(value) => Ok(SubscriptionU::FdRead(value)),
                    Err(error) => Err(WasiValueError(native, error.1)),
                }
            },
            native::subscription_u::fd_write(value) => {
                match SubscriptionFdReadwrite::from_native(value) {
                    Ok(value) => Ok(SubscriptionU::FdWrite(value)),
                    Err(error) => Err(WasiValueError(native, error.1)),
                }
            },
            native::subscription_u::Unknown => {
                Err(WasiValueError(native, UNKNOWN_UNION.to_string()))
            },
        }
    }

    fn to_native(self) -> (native: native::subscription_u) {
        match self {
            SubscriptionU::Clock(value) => native::subscription_u::clock(value.to_native()),
            SubscriptionU::FdRead(value) => native::subscription_u::fd_read(value.to_native()),
            SubscriptionU::FdWrite(value) => native::subscription_u::fd_write(value.to_native()),
        }
    }
}

/// Information about a pre-opened capability.
#[derive(Debug, Clone, Copy, PartialEq, Eq, Structural)]
pub enum Prestat {
    /// A pre-opened directory.
    Dir(PrestatDir),
}

impl WasiValue for Prestat {
    type NativeType = native::prestat;

    open spec fn valid(self) -> bool {
        match self {
            Prestat::Dir(value) => value.valid(),
        }
    }

    open spec fn lift(native: native::prestat) -> Option<Self> {
        match native {
            native::prestat::dir(value) => match PrestatDir::lift(value) {
                Some(value) => Some(Prestat::Dir(value)),
                None => None,
            },
            native::prestat::Unknown => None,
        }
    }

    open spec fn lower(self) -> native::prestat {
        match self {
            Prestat::Dir(value) => native::prestat::dir(value.lower()),
        }
    }

    open spec fn failure(native: native::prestat) -> Seq<char> {
        match native {
            native::prestat::dir(value) => PrestatDir::failure(value),
            native::prestat::Unknown => UNKNOWN_UNION@,
        }
    }

    proof fn lemma_lift_valid(native: native::prestat) {
        match native {
            native::prestat::dir(value) => {
                PrestatDir::lemma_lift_valid(value);
            },
            native::prestat::Unknown => {
            },
        }
    }

    proof fn lemma_lower_writable(self) {
        match self {
            Prestat::Dir(value) => {
                value.lemma_lower_writable();
            },
        }
    }

    proof fn lemma_lower_then_lift(self) {
        match self {
            Prestat::Dir(value) => {
                value.lemma_lower_then_lift();
            },
        }
    }

    fn from_native(native: native::prestat) -> (result: Result<Self, WasiValueError<Self>>) {
        match native {
            native::prestat::dir(value) => match PrestatDir::from_native(value) {
                Ok(value) => Ok(Prestat::Dir(value)),
                Err(error) => Err(WasiValueError(native, error.1)),
            },
            native::prestat::Unknown => Err(WasiValueError(native, UNKNOWN_UNION.to_string())),
        }
    }

    fn to_native(self) -> (native: native::prestat) {
        match self {
            Prestat::Dir(value) => native::prestat::dir(value.to_native()),
        }
    }
}

/// Subscription to an event.
#[derive(Debug, Clone, Copy, PartialEq, Eq, Structural)]
pub struct Subscription {
    /// User-provided value that is attached to the subscription and returned through the
    /// event.
    pub userdata: Userdata,
    /// The type of the event to which to subscribe, and its contents.
    pub u: SubscriptionU,
}

impl WasiValue for Subscription {
    type NativeType = native::subscription;

    open spec fn valid(self) -> bool {
        &&& self.userdata.valid()
        &&& self.u.valid()
    }

    open spec fn lift(native: native::subscription) -> Option<Self> {
        if {
            &&& Userdata::lift(native.userdata).is_some()
            &&& SubscriptionU::lift(native.u).is_some()
        } {
            Some(
                Subscription {
                    userdata: Userdata::lift(native.userdata).unwrap(),
                    u: SubscriptionU::lift(native.u).unwrap(),
                },
            )
        } else {
            None
        }
    }

    open spec fn lower(self) -> native::subscription {
        native::subscription {
            userdata: self.userdata.lower(),
            u: self.u.lower(),
        }
    }

    open spec fn failure(native: native::subscription) -> Seq<char> {
        if Userdata::lift(native.userdata) is None {
            Userdata::failure(native.userdata)
        } else if SubscriptionU::lift(native.u) is None {
            SubscriptionU::failure(native.u)
        } else {
            Seq::empty()
        }
    }

    proof fn lemma_lift_valid(native: native::subscription) {
        Userdata::lemma_lift_valid(native.userdata);
        SubscriptionU::lemma_lift_valid(native.u);
    }

    proof fn lemma_lower_writable(self) {
        self.userdata.lemma_lower_writable();
        self.u.lemma_lower_writable();
    }

    proof fn lemma_lower_then_lift(self) {
        self.userdata.lemma_lower_then_lift();
        self.u.lemma_lower_then_lift();
    }

    fn from_native(native: native::subscription) -> (result: Result<Self, WasiValueError<Self>>) {
        let userdata = match Userdata::from_native(native.userdata) {
            Ok(value) => value,
            Err(error) => return Err(WasiValueError(native, error.1)),
        };
        let u = match SubscriptionU::from_native(native.u) {
            Ok(value) => value,
            Err(error) => return Err(WasiValueError(native, error.1)),
        };
        Ok(Subscription { userdata, u })
    }

    fn to_native(self) -> (native: native::subscription) {
        native::subscription {
            userdata: self.userdata.to_native(),
            u: self.u.to_native(),
        }
    }
}

} // verus!
