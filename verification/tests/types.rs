use wasihost::native;
use wasihost::records::{
    Dirent, Event, EventFdReadwrite, Fdstat, Prestat, PrestatDir, Subscription, SubscriptionClock,
    SubscriptionFdReadwrite, SubscriptionU,
};
use wasihost::types::{
    Advice, Clockid, Dircookie, Dirnamlen, Errno, Eventrwflags, Eventtype, Fd, Fdflags, Filedelta,
    Filesize, Filetype, Fstflags, Inode, Lookupflags, Oflags, Preopentype, Riflags, Rights, Roflags,
    Sdflags, Signal, Size, Subclockflags, Timestamp, Userdata, Whence,
};
use wasihost::value::{decimal_text, WasiLeafValue, WasiValue, WasiValueError};

#[test]
fn errno_codes() {
    assert_eq!(Errno::Success.to_native(), 0);
    assert_eq!(Errno::TooBig.to_native(), 1);
    assert_eq!(Errno::Badf.to_native(), 8);
    assert_eq!(Errno::Inval.to_native(), 28);
    assert_eq!(Errno::Io.to_native(), 29);
    assert_eq!(Errno::Isdir.to_native(), 31);
    assert_eq!(Errno::Nosys.to_native(), 52);
    assert_eq!(Errno::Notempty.to_native(), 55);
    assert_eq!(Errno::Notsup.to_native(), 58);
    assert_eq!(Errno::Overflow.to_native(), 61);
    assert_eq!(Errno::Perm.to_native(), 63);
    assert_eq!(Errno::Notcapable.to_native(), 76);
    assert_eq!(native::ERRNO_INVAL, 28);
    assert_eq!(native::ERRNO_NOTCAPABLE, 76);
    assert_eq!(native::ERRNO_SUCCESS, 0);
}

#[test]
fn every_errno_converts_back() {
    for code in 0u16..=76 {
        let errno = match Errno::from_native(code) {
            Ok(errno) => errno,
            Err(_) => panic!("code {} does not convert", code),
        };
        assert_eq!(errno.to_native(), code);
    }
    for code in [77u16, 78, 255, 256, u16::MAX] {
        match Errno::from_native(code) {
            Ok(_) => panic!("code {} converts", code),
            Err(error) => assert_eq!(error.as_native(), code),
        }
    }
}

#[test]
fn enumerations_reject_unknown_discriminants() {
    assert!(matches!(Whence::from_native(0), Ok(Whence::Start)));
    assert!(matches!(Whence::from_native(1), Ok(Whence::Cur)));
    assert!(matches!(Whence::from_native(2), Ok(Whence::End)));
    assert!(Whence::from_native(3).is_err());
    assert!(matches!(Clockid::from_native(3), Ok(Clockid::ThreadCputimeId)));
    assert!(Clockid::from_native(4).is_err());
    assert!(matches!(Filetype::from_native(2), Ok(Filetype::CharacterDevice)));
    assert!(matches!(Filetype::from_native(7), Ok(Filetype::SymbolicLink)));
    assert!(Filetype::from_native(8).is_err());
    assert!(matches!(Advice::from_native(5), Ok(Advice::Noreuse)));
    assert!(Advice::from_native(6).is_err());
    assert!(matches!(Eventtype::from_native(2), Ok(Eventtype::FdWrite)));
    assert!(Eventtype::from_native(3).is_err());
    assert!(matches!(Signal::from_native(0), Ok(Signal::NoSignal)));
    assert!(matches!(Signal::from_native(30), Ok(Signal::Sys)));
    assert!(Signal::from_native(31).is_err());
    assert!(matches!(Preopentype::from_native(0), Ok(Preopentype::Dir)));
    assert!(Preopentype::from_native(1).is_err());
    assert_eq!(Filetype::CharacterDevice.to_native(), 2);
    assert_eq!(Whence::End.to_native(), 2);
    assert_eq!(Signal::Kill.to_native(), 9);
}

#[test]
fn numbers_always_convert() {
    assert!(matches!(Fd::from_native(u32::MAX), Ok(Fd(u32::MAX))));
    assert!(matches!(Size::from_native(7), Ok(Size(7))));
    assert!(matches!(Filesize::from_native(u64::MAX), Ok(Filesize(u64::MAX))));
    assert!(matches!(Filedelta::from_native(-5), Ok(Filedelta(-5))));
    assert!(matches!(Timestamp::from_native(1), Ok(Timestamp(1))));
    assert_eq!(Fd(3).to_native(), 3);
    assert_eq!(Filedelta(i64::MIN).to_native(), i64::MIN);
    assert_eq!(Dircookie(9).to_native(), 9);
}

#[test]
fn flag_values() {
    assert_eq!(Rights::fd_datasync().bits(), 1);
    assert_eq!(Rights::fd_read().bits(), 1 << 1);
    assert_eq!(Rights::fd_seek().bits(), 1 << 2);
    assert_eq!(Rights::fd_tell().bits(), 1 << 5);
    assert_eq!(Rights::fd_write().bits(), 1 << 6);
    assert_eq!(Rights::path_open().bits(), 1 << 13);
    assert_eq!(Rights::sock_shutdown().bits(), 1 << 28);
    assert_eq!(Rights::all().bits(), 0x1fff_ffff);
    assert_eq!(Rights::empty().bits(), 0);
    assert_eq!(Fdflags::append().bits(), 1);
    assert_eq!(Fdflags::dsync().bits(), 2);
    assert_eq!(Fdflags::rsync().bits(), 8);
    assert_eq!(Fdflags::all().bits(), 0x1f);
    assert_eq!(Oflags::creat().bits(), 1);
    assert_eq!(Oflags::trunc().bits(), 8);
    assert_eq!(Fstflags::mtim_now().bits(), 8);
    assert_eq!(Lookupflags::symlink_follow().bits(), 1);
    assert_eq!(Sdflags::all().bits(), 3);
    assert_eq!(Riflags::recv_waitall().bits(), 2);
    assert_eq!(Roflags::recv_data_truncated().bits(), 1);
    assert_eq!(Eventrwflags::fd_readwrite_hangup().bits(), 1);
    assert_eq!(Subclockflags::subscription_clock_abstime().bits(), 1);
    assert_eq!(native::RIGHTS_FD_WRITE, 64);
    assert_eq!(native::RIGHTS_ALL, 0x1fff_ffff);
}

#[test]
fn flags_with_recognized_bits_convert() {
    for bits in [0u64, 1, 0x1fff_ffff, 0x1000_0000, 0x0aaa_aaaa] {
        match Rights::from_native(bits) {
            Ok(rights) => assert_eq!(rights.to_native(), bits),
            Err(_) => panic!("{:#x} does not convert", bits),
        }
    }
    for bits in [0u16, 1, 0x1f, 0x15] {
        assert!(Fdflags::from_native(bits).is_ok());
    }
    assert!(Sdflags::from_native(3).is_ok());
    assert!(Lookupflags::from_native(1).is_ok());
}

#[test]
fn flags_with_unrecognized_bits_fail() {
    for bits in [0x2000_0000u64, 0x2000_0001, u64::MAX, 1 << 63, 0x1_0000_0000] {
        match Rights::from_native(bits) {
            Ok(_) => panic!("{:#x} converts", bits),
            Err(error) => assert_eq!(error.as_native(), bits),
        }
        assert!(Rights::from_bits(bits).is_none());
    }
    assert!(Fdflags::from_native(0x20).is_err());
    assert!(Fdflags::from_native(0xffff).is_err());
    assert!(Sdflags::from_native(4).is_err());
    assert!(Lookupflags::from_native(2).is_err());
    assert!(Oflags::from_native(0x10).is_err());
    assert!(Fstflags::from_native(0x10).is_err());
    assert!(Riflags::from_native(4).is_err());
    assert!(Roflags::from_native(2).is_err());
    assert!(Eventrwflags::from_native(2).is_err());
    assert!(Subclockflags::from_native(2).is_err());
}

#[test]
fn flag_set_operations() {
    let read_seek = Rights::fd_read().union(Rights::fd_seek());
    assert_eq!(read_seek.bits(), 6);
    assert!(read_seek.contains(Rights::fd_read()));
    assert!(read_seek.contains(Rights::fd_seek()));
    assert!(read_seek.contains(read_seek));
    assert!(read_seek.contains(Rights::empty()));
    assert!(!read_seek.contains(Rights::fd_write()));
    assert!(!Rights::fd_read().contains(read_seek));
    assert!(Rights::all().contains(read_seek));
    assert_eq!(read_seek.intersection(Rights::fd_read()), Rights::fd_read());
    assert!(read_seek.intersection(Rights::fd_write()).is_empty());
    assert!(Rights::empty().is_empty());
    assert!(!read_seek.is_empty());
    assert_eq!(Rights::from_bits_truncate(u64::MAX), Rights::all());
    assert_eq!(Rights::from_bits_truncate(0x2000_0006), read_seek);
    assert_eq!(Rights::from_bits(6), Some(read_seek));
}

#[test]
fn lowering_then_lifting_gives_the_value_back() {
    let stat = Fdstat {
        fs_filetype: Filetype::CharacterDevice,
        fs_flags: Fdflags::append().union(Fdflags::sync()),
        fs_rights_base: Rights::fd_read().union(Rights::fd_write()),
        fs_rights_inheriting: Rights::empty(),
    };
    match Fdstat::from_native(stat.to_native()) {
        Ok(back) => assert_eq!(back, stat),
        Err(_) => panic!("fdstat does not convert back"),
    }
    let entry = Dirent {
        d_next: Dircookie(3),
        d_ino: Inode(77),
        d_namlen: Dirnamlen(4),
        d_type: Filetype::RegularFile,
    };
    match Dirent::from_native(entry.to_native()) {
        Ok(back) => assert_eq!(back, entry),
        Err(_) => panic!("dirent does not convert back"),
    }
    let subscription = Subscription {
        userdata: Userdata(5),
        u: SubscriptionU::Clock(SubscriptionClock {
            id: Clockid::Monotonic,
            timeout: Timestamp(10),
            precision: Timestamp(1),
            flags: Subclockflags::subscription_clock_abstime(),
        }),
    };
    match Subscription::from_native(subscription.to_native()) {
        Ok(back) => assert_eq!(back, subscription),
        Err(_) => panic!("subscription does not convert back"),
    }
    let prestat = Prestat::Dir(PrestatDir { pr_name_len: Size(12) });
    match Prestat::from_native(prestat.to_native()) {
        Ok(back) => assert_eq!(back, prestat),
        Err(_) => panic!("prestat does not convert back"),
    }
}

#[test]
fn records_fail_where_a_member_fails() {
    let native = native::fdstat {
        fs_filetype: 200,
        fs_flags: 0,
        fs_rights_base: 0,
        fs_rights_inheriting: 0,
    };
    match Fdstat::from_native(native) {
        Ok(_) => panic!("an unknown filetype converts"),
        Err(error) => assert_eq!(error.as_native(), native),
    }
    let native = native::fdstat {
        fs_filetype: 2,
        fs_flags: 0,
        fs_rights_base: 1 << 40,
        fs_rights_inheriting: 0,
    };
    assert!(Fdstat::from_native(native).is_err());
    let native = native::event {
        userdata: 0,
        error: 500,
        type_: 0,
        fd_readwrite: native::event_fd_readwrite { nbytes: 0, flags: 0 },
    };
    assert!(Event::from_native(native).is_err());
    let native = native::event {
        userdata: 0,
        error: 0,
        type_: 0,
        fd_readwrite: native::event_fd_readwrite { nbytes: 0, flags: 2 },
    };
    assert!(Event::from_native(native).is_err());
}

#[test]
fn unknown_unions_do_not_convert() {
    match Prestat::from_native(native::prestat::Unknown) {
        Ok(_) => panic!("an unknown union converts"),
        Err(error) => {
            assert_eq!(error.message(), "Cannot convert unknown union value.");
            assert_eq!(error.as_native(), native::prestat::Unknown);
        }
    }
    assert!(SubscriptionU::from_native(native::subscription_u::Unknown).is_err());
    let native = native::subscription { userdata: 1, u: native::subscription_u::Unknown };
    assert!(Subscription::from_native(native).is_err());
    let bad_payload = native::subscription_u::clock(native::subscription_clock {
        id: 9,
        timeout: 0,
        precision: 0,
        flags: 0,
    });
    assert!(SubscriptionU::from_native(bad_payload).is_err());
    let read = native::subscription_u::fd_read(native::subscription_fd_readwrite {
        file_descriptor: 4,
    });
    assert!(matches!(
        SubscriptionU::from_native(read),
        Ok(SubscriptionU::FdRead(SubscriptionFdReadwrite { file_descriptor: Fd(4) }))
    ));
}

#[test]
fn conversion_errors() {
    let error: WasiValueError<Whence> = WasiValueError::from_native(9);
    assert_eq!(error.message(), "Could not convert the native value 9 to Whence.");
    assert_eq!(error.as_native(), 9);
    assert_eq!(
        Whence::get_error_message(200),
        "Could not convert the native value 200 to Whence."
    );
    assert_eq!(
        Rights::get_error_message(1 << 40),
        "Could not convert the native value 1099511627776 to Rights."
    );
    let inner: WasiValueError<Filetype> = WasiValueError::from_native(77);
    let native = native::fdstat {
        fs_filetype: 77,
        fs_flags: 0,
        fs_rights_base: 0,
        fs_rights_inheriting: 0,
    };
    let outer: WasiValueError<Fdstat> = WasiValueError::from_inner(native, inner);
    assert_eq!(outer.message(), "Could not convert the native value 77 to Filetype.");
    assert_eq!(outer.as_native(), native);
    let unknown: WasiValueError<Prestat> = WasiValueError::from_unknown(native::prestat::Unknown);
    assert_eq!(unknown.message(), "Cannot convert unknown union value.");
    match Fdstat::from_native(native) {
        Ok(_) => panic!("converts"),
        Err(error) => {
            assert_eq!(error.message(), "Could not convert the native value 77 to Filetype.")
        }
    }
    let event = EventFdReadwrite { nbytes: Filesize(3), flags: Eventrwflags::empty() };
    assert_eq!(event.to_native(), native::event_fd_readwrite { nbytes: 3, flags: 0 });
}

#[test]
fn numbers_are_written_in_decimal() {
    assert_eq!(decimal_text(0), "0");
    assert_eq!(decimal_text(9), "9");
    assert_eq!(decimal_text(10), "10");
    assert_eq!(decimal_text(1_002_003), "1002003");
    assert_eq!(decimal_text(u64::MAX), "18446744073709551615");
    assert_eq!(decimal_text(u64::MAX), u64::MAX.to_string());
    assert_eq!(
        Filedelta::get_error_message(-5),
        "Could not convert the native value -5 to Filedelta."
    );
    assert_eq!(
        Filedelta::get_error_message(i64::MIN),
        "Could not convert the native value -9223372036854775808 to Filedelta."
    );
    assert_eq!(
        Filedelta::get_error_message(0),
        "Could not convert the native value 0 to Filedelta."
    );
    assert_eq!(
        Filesize::get_error_message(u64::MAX),
        "Could not convert the native value 18446744073709551615 to Filesize."
    );
}
