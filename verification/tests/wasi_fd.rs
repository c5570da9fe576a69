use std::sync::atomic::{AtomicUsize, Ordering};
use std::sync::Arc;
use wasihost::character_device::CharacterDevice;
use wasihost::records::Fdstat;
use wasihost::types::{
    Advice, Dircookie, Errno, Fdflags, Filedelta, Filesize, Filetype, Fstflags, Lookupflags, Oflags,
    Riflags, Rights, Sdflags, Siflags, Size, Timestamp, WasiResult, Whence,
};
use wasihost::wasi_fd::WasiFd;

struct Recorder {
    reads: Arc<AtomicUsize>,
    writes: Arc<AtomicUsize>,
}

impl CharacterDevice for Recorder {
    fn read(&self, iovs: &mut Vec<Vec<u8>>) -> WasiResult<Size> {
        self.reads.fetch_add(1, Ordering::SeqCst);
        let mut count = 0;
        for buf in iovs.iter_mut() {
            for byte in buf.iter_mut() {
                *byte = b'r';
                count += 1;
            }
        }
        Ok(Size(count))
    }

    fn write(&self, bufs: &Vec<Vec<u8>>) -> WasiResult<Size> {
        self.writes.fetch_add(1, Ordering::SeqCst);
        Ok(Size(bufs.iter().map(|buf| buf.len() as u32).sum()))
    }
}

fn recorder(rights: Rights) -> (WasiFd<Vec<u8>>, Arc<AtomicUsize>, Arc<AtomicUsize>) {
    let reads = Arc::new(AtomicUsize::new(0));
    let writes = Arc::new(AtomicUsize::new(0));
    let device = Recorder { reads: reads.clone(), writes: writes.clone() };
    (WasiFd::from_character_device(device, Fdflags::empty(), rights), reads, writes)
}

fn descriptor(rights: Rights) -> WasiFd<Vec<u8>> {
    recorder(rights).0
}

#[test]
fn a_new_descriptor_inherits_nothing() {
    let fd = descriptor(Rights::fd_read());
    assert_eq!(
        fd.fdstat_get(),
        Ok(Fdstat {
            fs_filetype: Filetype::CharacterDevice,
            fs_flags: Fdflags::empty(),
            fs_rights_base: Rights::fd_read(),
            fs_rights_inheriting: Rights::empty(),
        })
    );
    assert_eq!(fd.get_filetype(), Filetype::CharacterDevice);
}

#[test]
fn rights_are_checked_as_sets() {
    let fd = descriptor(Rights::fd_read().union(Rights::fd_seek()));
    assert_eq!(fd.check_rights(Rights::fd_read()), Ok(()));
    assert_eq!(fd.check_rights(Rights::fd_read().union(Rights::fd_seek())), Ok(()));
    assert_eq!(fd.check_rights(Rights::empty()), Ok(()));
    assert_eq!(fd.check_rights(Rights::fd_write()), Err(Errno::Notcapable));
    assert_eq!(
        fd.check_rights(Rights::fd_read().union(Rights::fd_write())),
        Err(Errno::Notcapable)
    );
    assert_eq!(
        WasiFd::<Vec<u8>>::check_rights_with(Rights::all(), Rights::path_open()),
        Ok(())
    );
    assert_eq!(
        WasiFd::<Vec<u8>>::check_rights_with(Rights::empty(), Rights::path_open()),
        Err(Errno::Notcapable)
    );
}

#[test]
fn write_without_the_right_never_reaches_the_device() {
    let (fd, reads, writes) = recorder(Rights::fd_read());
    assert_eq!(fd.write(&vec![b"hello".to_vec()]), Err(Errno::Notcapable));
    assert_eq!(writes.load(Ordering::SeqCst), 0);
    assert_eq!(reads.load(Ordering::SeqCst), 0);
    let mut iovs = vec![vec![0u8; 3]];
    assert_eq!(fd.read(&mut iovs), Ok(Size(3)));
    assert_eq!(iovs, vec![b"rrr".to_vec()]);
    assert_eq!(reads.load(Ordering::SeqCst), 1);
    assert_eq!(writes.load(Ordering::SeqCst), 0);
}

#[test]
fn read_without_the_right_never_reaches_the_device() {
    let (fd, reads, writes) = recorder(Rights::fd_write());
    let mut iovs = vec![vec![7u8; 3], vec![8u8; 2]];
    assert_eq!(fd.read(&mut iovs), Err(Errno::Notcapable));
    assert_eq!(iovs, vec![vec![7u8; 3], vec![8u8; 2]]);
    assert_eq!(reads.load(Ordering::SeqCst), 0);
    assert_eq!(fd.write(&vec![b"ab".to_vec(), b"cde".to_vec()]), Ok(Size(5)));
    assert_eq!(writes.load(Ordering::SeqCst), 1);
}

#[test]
fn operations_without_a_backend_are_not_supported() {
    let fd = descriptor(Rights::all());
    assert_eq!(fd.advise(Filesize(0), Filesize(1), Advice::Normal), Err(Errno::Notsup));
    assert_eq!(fd.allocate(Filesize(0), Filesize(1)), Err(Errno::Notsup));
    assert_eq!(fd.datasync(), Err(Errno::Notsup));
    assert_eq!(fd.sync(), Err(Errno::Notsup));
    assert_eq!(fd.filestat_get(), Err(Errno::Notsup));
    assert_eq!(fd.filestat_set_size(Filesize(1)), Err(Errno::Notsup));
    assert_eq!(
        fd.filestat_set_times(Timestamp(0), Timestamp(0), Fstflags::atim()),
        Err(Errno::Notsup)
    );
    assert_eq!(fd.prestat_get(), Err(Errno::Notsup));
    assert!(matches!(fd.prestat_dir_name(), Err(Errno::Notsup)));
    assert!(matches!(fd.readdir(Dircookie(0)), Err(Errno::Notsup)));
    assert_eq!(fd.pwrite(&vec![vec![1]], Filesize(0)), Err(Errno::Notsup));
    let mut iovs = vec![vec![0u8; 2]];
    assert_eq!(fd.pread(&mut iovs, Filesize(0)), Err(Errno::Notsup));
    assert_eq!(fd.sock_recv(&mut iovs, Riflags::empty()), Err(Errno::Notsup));
    assert_eq!(fd.sock_send(&vec![vec![1]], Siflags(0)), Err(Errno::Notsup));
    assert_eq!(fd.sock_shutdown(Sdflags::rd()), Err(Errno::Notsup));
    let path = b"dir".to_vec();
    assert_eq!(fd.path_create_directory(&path), Err(Errno::Notsup));
    assert_eq!(fd.path_filestat_get(Lookupflags::empty(), &path), Err(Errno::Notsup));
    assert_eq!(fd.path_remove_directory(&path), Err(Errno::Notsup));
    assert_eq!(fd.path_unlink_file(&path), Err(Errno::Notsup));
    assert_eq!(fd.path_symlink(&path, &path), Err(Errno::Notsup));
    assert!(matches!(fd.path_readlink(&path), Err(Errno::Notsup)));
    assert_eq!(
        fd.path_filestat_set_times(
            Lookupflags::empty(),
            &path,
            Timestamp(0),
            Timestamp(0),
            Fstflags::empty()
        ),
        Err(Errno::Notsup)
    );
}

#[test]
fn operations_without_the_right_are_not_capable() {
    let fd = descriptor(Rights::empty());
    assert_eq!(fd.advise(Filesize(0), Filesize(1), Advice::Normal), Err(Errno::Notcapable));
    assert_eq!(fd.allocate(Filesize(0), Filesize(1)), Err(Errno::Notcapable));
    assert_eq!(fd.datasync(), Err(Errno::Notcapable));
    assert_eq!(fd.sync(), Err(Errno::Notcapable));
    assert_eq!(fd.filestat_get(), Err(Errno::Notcapable));
    assert_eq!(fd.filestat_set_size(Filesize(1)), Err(Errno::Notcapable));
    assert!(matches!(fd.readdir(Dircookie(0)), Err(Errno::Notcapable)));
    assert_eq!(fd.sock_shutdown(Sdflags::rd()), Err(Errno::Notcapable));
    assert_eq!(fd.sock_send(&vec![vec![1]], Siflags(0)), Err(Errno::Notcapable));
    let path = b"dir".to_vec();
    assert_eq!(fd.path_create_directory(&path), Err(Errno::Notcapable));
    assert_eq!(fd.path_unlink_file(&path), Err(Errno::Notcapable));
    assert!(matches!(fd.path_readlink(&path), Err(Errno::Notcapable)));
    assert_eq!(fd.prestat_get(), Err(Errno::Notsup));
    assert!(fd.fdstat_get().is_ok());
}

#[test]
fn positioned_io_needs_two_rights() {
    let mut iovs = vec![vec![0u8; 2]];
    let fd = descriptor(Rights::fd_read());
    assert_eq!(fd.pread(&mut iovs, Filesize(0)), Err(Errno::Notcapable));
    let fd = descriptor(Rights::fd_seek());
    assert_eq!(fd.pread(&mut iovs, Filesize(0)), Err(Errno::Notcapable));
    let fd = descriptor(Rights::fd_read().union(Rights::fd_seek()));
    assert_eq!(fd.pread(&mut iovs, Filesize(0)), Err(Errno::Notsup));
    let fd = descriptor(Rights::fd_write());
    assert_eq!(fd.pwrite(&vec![vec![1]], Filesize(0)), Err(Errno::Notcapable));
    let fd = descriptor(Rights::fd_write().union(Rights::fd_seek()));
    assert_eq!(fd.pwrite(&vec![vec![1]], Filesize(0)), Err(Errno::Notsup));
}

#[test]
fn a_seek_that_moves_nothing_needs_only_tell() {
    let fd = descriptor(Rights::fd_tell());
    assert_eq!(fd.seek(Filedelta(0), Whence::Cur), Err(Errno::Notsup));
    assert_eq!(fd.seek(Filedelta(1), Whence::Cur), Err(Errno::Notcapable));
    assert_eq!(fd.seek(Filedelta(-1), Whence::Cur), Err(Errno::Notcapable));
    assert_eq!(fd.seek(Filedelta(0), Whence::Start), Err(Errno::Notcapable));
    assert_eq!(fd.seek(Filedelta(0), Whence::End), Err(Errno::Notcapable));
    let fd = descriptor(Rights::fd_seek());
    assert_eq!(fd.seek(Filedelta(5), Whence::Start), Err(Errno::Notsup));
    assert_eq!(fd.seek(Filedelta(0), Whence::Cur), Err(Errno::Notsup));
    let fd = descriptor(Rights::fd_read());
    assert_eq!(fd.seek(Filedelta(0), Whence::Cur), Err(Errno::Notcapable));
}

#[test]
fn tell_is_allowed_with_seek() {
    assert_eq!(descriptor(Rights::fd_tell()).tell(), Err(Errno::Notsup));
    assert_eq!(descriptor(Rights::fd_seek()).tell(), Err(Errno::Notsup));
    assert_eq!(descriptor(Rights::fd_read()).tell(), Err(Errno::Notcapable));
    assert_eq!(descriptor(Rights::empty()).tell(), Err(Errno::Notcapable));
}

#[test]
fn link_and_rename_check_each_side() {
    let path = b"file".to_vec();
    let source = descriptor(Rights::path_link_source().union(Rights::path_rename_source()));
    let target = descriptor(Rights::path_link_target().union(Rights::path_rename_target()));
    assert_eq!(source.path_link(Lookupflags::empty(), &path, &target, &path), Err(Errno::Notsup));
    assert_eq!(
        target.path_link(Lookupflags::empty(), &path, &source, &path),
        Err(Errno::Notcapable)
    );
    assert_eq!(
        source.path_link(Lookupflags::empty(), &path, &source, &path),
        Err(Errno::Notcapable)
    );
    assert_eq!(source.path_rename(&path, &target, &path), Err(Errno::Notsup));
    assert_eq!(target.path_rename(&path, &source, &path), Err(Errno::Notcapable));
    assert_eq!(source.path_rename(&path, &source, &path), Err(Errno::Notcapable));
}

fn open(
    fd: &WasiFd<Vec<u8>>,
    oflags: Oflags,
    base: Rights,
    inheriting: Rights,
    fdflags: Fdflags,
) -> Errno {
    match fd.path_open(Lookupflags::empty(), &b"x".to_vec(), oflags, base, inheriting, fdflags) {
        Ok(_) => panic!("a character device opened a path"),
        Err(error) => error,
    }
}

fn directory(rights: Rights, inheriting: Rights) -> WasiFd<Vec<u8>> {
    let mut fd = descriptor(rights);
    let _ = inheriting;
    assert_eq!(fd.fdstat_set_rights(rights, Rights::empty()), Ok(()));
    fd
}

#[test]
fn open_needs_the_rights_that_its_flags_ask_for() {
    let none = Rights::empty();
    let fd = directory(Rights::fd_read(), none);
    assert_eq!(open(&fd, Oflags::empty(), none, none, Fdflags::empty()), Errno::Notcapable);
    let fd = directory(Rights::path_open(), none);
    assert_eq!(open(&fd, Oflags::empty(), none, none, Fdflags::empty()), Errno::Notsup);
    assert_eq!(open(&fd, Oflags::creat(), none, none, Fdflags::empty()), Errno::Notcapable);
    assert_eq!(open(&fd, Oflags::trunc(), none, none, Fdflags::empty()), Errno::Notcapable);
    assert_eq!(open(&fd, Oflags::excl(), none, none, Fdflags::empty()), Errno::Notsup);
    assert_eq!(open(&fd, Oflags::empty(), none, none, Fdflags::dsync()), Errno::Notcapable);
    assert_eq!(open(&fd, Oflags::empty(), none, none, Fdflags::rsync()), Errno::Notcapable);
    assert_eq!(open(&fd, Oflags::empty(), none, none, Fdflags::append()), Errno::Notsup);
    let fd = directory(Rights::path_open().union(Rights::path_create_file()), none);
    assert_eq!(open(&fd, Oflags::creat(), none, none, Fdflags::empty()), Errno::Notsup);
    let fd = directory(Rights::path_open().union(Rights::path_filestat_set_size()), none);
    assert_eq!(open(&fd, Oflags::trunc(), none, none, Fdflags::empty()), Errno::Notsup);
    let fd = directory(Rights::path_open().union(Rights::fd_datasync()), none);
    assert_eq!(open(&fd, Oflags::empty(), none, none, Fdflags::dsync()), Errno::Notsup);
    assert_eq!(open(&fd, Oflags::empty(), none, none, Fdflags::rsync()), Errno::Notcapable);
    let fd = directory(Rights::path_open().union(Rights::fd_sync()), none);
    assert_eq!(open(&fd, Oflags::empty(), none, none, Fdflags::dsync()), Errno::Notsup);
    assert_eq!(open(&fd, Oflags::empty(), none, none, Fdflags::rsync()), Errno::Notsup);
}

#[test]
fn open_may_not_ask_for_more_than_the_ceiling() {
    let fd = descriptor(Rights::path_open());
    let none = Rights::empty();
    assert_eq!(
        open(&fd, Oflags::empty(), Rights::fd_read(), none, Fdflags::empty()),
        Errno::Notcapable,
    );
    assert_eq!(
        open(&fd, Oflags::empty(), none, Rights::fd_read(), Fdflags::empty()),
        Errno::Notcapable,
    );
    assert_eq!(open(&fd, Oflags::empty(), none, none, Fdflags::empty()), Errno::Notsup);
}

#[test]
fn flags_are_set_with_the_right() {
    let mut fd = descriptor(Rights::fd_fdstat_set_flags());
    assert_eq!(fd.fdstat_set_flags(Fdflags::append()), Ok(()));
    assert_eq!(fd.fdstat_get().unwrap().fs_flags, Fdflags::append());
    let mut fd = descriptor(Rights::fd_read());
    assert_eq!(fd.fdstat_set_flags(Fdflags::append()), Err(Errno::Notcapable));
    assert_eq!(fd.fdstat_get().unwrap().fs_flags, Fdflags::empty());
}

#[test]
fn rights_only_narrow() {
    let read = Rights::fd_read();
    let write = Rights::fd_write();
    let seek = Rights::fd_seek();
    let mut fd = descriptor(read.union(write).union(seek));
    assert_eq!(fd.fdstat_set_rights(read.union(write), Rights::empty()), Ok(()));
    assert_eq!(fd.fdstat_get().unwrap().fs_rights_base, read.union(write));
    assert_eq!(fd.fdstat_set_rights(seek, Rights::empty()), Err(Errno::Notcapable));
    assert_eq!(fd.fdstat_set_rights(read.union(seek), Rights::empty()), Err(Errno::Notcapable));
    assert_eq!(fd.fdstat_get().unwrap().fs_rights_base, read.union(write));
    assert_eq!(fd.fdstat_set_rights(read.union(write), Rights::empty()), Ok(()));
    assert_eq!(fd.fdstat_set_rights(read, read), Err(Errno::Notcapable));
    assert_eq!(fd.fdstat_get().unwrap().fs_rights_base, read.union(write));
    assert_eq!(fd.fdstat_set_rights(read, Rights::empty()), Ok(()));
    assert_eq!(fd.fdstat_set_rights(read.union(write), Rights::empty()), Err(Errno::Notcapable));
    assert_eq!(fd.fdstat_set_rights(Rights::empty(), Rights::empty()), Ok(()));
    assert_eq!(fd.fdstat_set_rights(read, Rights::empty()), Err(Errno::Notcapable));
    assert_eq!(fd.fdstat_get().unwrap().fs_rights_base, Rights::empty());
    assert_eq!(fd.fdstat_get().unwrap().fs_rights_inheriting, Rights::empty());
}

#[test]
fn narrowing_in_either_order_never_widens() {
    let read = Rights::fd_read();
    let write = Rights::fd_write();
    let all = read.union(write);
    let mut fd = descriptor(all);
    assert_eq!(fd.fdstat_set_rights(read, Rights::empty()), Ok(()));
    assert_eq!(fd.fdstat_set_rights(write, Rights::empty()), Err(Errno::Notcapable));
    assert_eq!(fd.fdstat_get().unwrap().fs_rights_base, read);
    let mut fd = descriptor(all);
    assert_eq!(fd.fdstat_set_rights(write, Rights::empty()), Ok(()));
    assert_eq!(fd.fdstat_set_rights(read, Rights::empty()), Err(Errno::Notcapable));
    assert_eq!(fd.fdstat_get().unwrap().fs_rights_base, write);
}
