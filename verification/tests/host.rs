use std::sync::atomic::{AtomicUsize, Ordering};
use std::sync::Arc;
use wasihost::character_device::CharacterDevice;
use wasihost::entry::{exit_code, Termination};
use wasihost::fd_table::FdTable;
use wasihost::host::{random_outcome, standard_streams, WasiFdInitializer, WasiHost, FD_LIMIT};
use wasihost::records::Fdstat;
use wasihost::types::{
    Errno, Exitcode, Fd, Fdflags, Filetype, Lookupflags, Oflags, Rights, Signal, Size, WasiResult,
};
use wasihost::wasi_fd::WasiFd;

struct Counter {
    writes: Arc<AtomicUsize>,
}

impl CharacterDevice for Counter {
    fn read(&self, _iovs: &mut Vec<Vec<u8>>) -> WasiResult<Size> {
        Ok(Size(0))
    }

    fn write(&self, bufs: &Vec<Vec<u8>>) -> WasiResult<Size> {
        self.writes.fetch_add(1, Ordering::SeqCst);
        Ok(Size(bufs.iter().map(|buf| buf.len() as u32).sum()))
    }
}

struct Silent;

impl CharacterDevice for Silent {
    fn read(&self, _iovs: &mut Vec<Vec<u8>>) -> WasiResult<Size> {
        Ok(Size(0))
    }

    fn write(&self, _bufs: &Vec<Vec<u8>>) -> WasiResult<Size> {
        Ok(Size(0))
    }
}

fn silent(rights: Rights) -> WasiFd<Vec<u8>> {
    WasiFd::from_character_device(Silent, Fdflags::empty(), rights)
}

struct Streams;

impl WasiFdInitializer<Vec<u8>> for Streams {
    fn initialize(self) -> Vec<(Fd, WasiFd<Vec<u8>>)> {
        vec![
            (Fd(0), silent(Rights::fd_read())),
            (Fd(1), silent(Rights::fd_write())),
            (Fd(2), silent(Rights::fd_write())),
        ]
    }
}

fn host() -> WasiHost<Vec<u8>> {
    WasiHost::new(vec![b"prog".to_vec()], vec![b"X=1".to_vec()], Streams)
}

fn rights_of(host: &WasiHost<Vec<u8>>, fd: u32) -> WasiResult<Rights> {
    host.fd_fdstat_get(Fd(fd)).map(|stat| stat.fs_rights_base)
}

#[test]
fn a_new_host_has_the_listed_descriptors() {
    let host = host();
    assert_eq!(rights_of(&host, 0), Ok(Rights::fd_read()));
    assert_eq!(rights_of(&host, 1), Ok(Rights::fd_write()));
    assert_eq!(rights_of(&host, 2), Ok(Rights::fd_write()));
    assert_eq!(rights_of(&host, 3), Err(Errno::Badf));
    assert_eq!(host.args_get(), Ok(&[b"prog".to_vec()][..]));
    assert_eq!(host.environ_get(), Ok(&[b"X=1".to_vec()][..]));
    assert_eq!(
        host.fd_fdstat_get(Fd(0)),
        Ok(Fdstat {
            fs_filetype: Filetype::CharacterDevice,
            fs_flags: Fdflags::empty(),
            fs_rights_base: Rights::fd_read(),
            fs_rights_inheriting: Rights::empty(),
        })
    );
}

#[test]
fn the_standard_streams_hold_every_right() {
    let entries: Vec<(Fd, WasiFd<Vec<u8>>)> = standard_streams(Silent, Silent, Silent);
    assert_eq!(entries.len(), 3);
    for (i, (fd, resource)) in entries.iter().enumerate() {
        assert_eq!(fd.0, i as u32);
        assert_eq!(
            resource.fdstat_get(),
            Ok(Fdstat {
                fs_filetype: Filetype::CharacterDevice,
                fs_flags: Fdflags::empty(),
                fs_rights_base: Rights::all(),
                fs_rights_inheriting: Rights::empty(),
            })
        );
    }
    let host = WasiHost::with_fds(Vec::new(), Vec::new(), entries);
    assert_eq!(rights_of(&host, 2), Ok(Rights::all()));
    assert_eq!(rights_of(&host, 3), Err(Errno::Badf));
}

#[test]
fn the_later_entry_of_a_number_counts() {
    let entries = vec![
        (Fd(5), silent(Rights::fd_read())),
        (Fd(6), silent(Rights::fd_seek())),
        (Fd(5), silent(Rights::fd_write())),
    ];
    let host = WasiHost::with_fds(Vec::new(), Vec::new(), entries);
    assert_eq!(rights_of(&host, 5), Ok(Rights::fd_write()));
    assert_eq!(rights_of(&host, 6), Ok(Rights::fd_seek()));
    assert_eq!(rights_of(&host, 0), Err(Errno::Badf));
}

#[test]
fn close_removes_one_descriptor() {
    let mut host = host();
    assert_eq!(host.fd_close(Fd(1)), Ok(()));
    assert_eq!(rights_of(&host, 1), Err(Errno::Badf));
    assert_eq!(rights_of(&host, 0), Ok(Rights::fd_read()));
    assert_eq!(rights_of(&host, 2), Ok(Rights::fd_write()));
    assert_eq!(host.fd_close(Fd(1)), Err(Errno::Badf));
    assert_eq!(host.fd_close(Fd(77)), Err(Errno::Badf));
    assert_eq!(host.fd_write(Fd(1), &vec![vec![1]]), Err(Errno::Badf));
    assert_eq!(host.fd_datasync(Fd(1)), Err(Errno::Badf));
}

#[test]
fn renumber_makes_the_target_behave_as_the_source() {
    let mut host = host();
    assert_eq!(host.fd_renumber(Fd(0), Fd(1)), Ok(()));
    assert_eq!(rights_of(&host, 1), Ok(Rights::fd_read()));
    assert_eq!(rights_of(&host, 0), Ok(Rights::fd_read()));
    assert_eq!(rights_of(&host, 2), Ok(Rights::fd_write()));
    assert_eq!(host.fd_write(Fd(1), &vec![vec![1]]), Err(Errno::Notcapable));
    assert_eq!(host.fd_fdstat_get(Fd(1)), host.fd_fdstat_get(Fd(0)));
}

#[test]
fn renumbered_descriptors_share_their_resource() {
    let mut host = WasiHost::with_fds(
        Vec::new(),
        Vec::new(),
        vec![
            (Fd(3), silent(Rights::fd_read().union(Rights::fd_seek()))),
            (Fd(4), silent(Rights::fd_write())),
        ],
    );
    assert_eq!(host.fd_renumber(Fd(3), Fd(4)), Ok(()));
    assert_eq!(host.fd_fdstat_set_rights(Fd(3), Rights::fd_read(), Rights::empty()), Ok(()));
    assert_eq!(rights_of(&host, 4), Ok(Rights::fd_read()));
    assert_eq!(host.fd_fdstat_set_rights(Fd(4), Rights::empty(), Rights::empty()), Ok(()));
    assert_eq!(rights_of(&host, 3), Ok(Rights::empty()));
    assert_eq!(host.fd_close(Fd(3)), Ok(()));
    assert_eq!(rights_of(&host, 3), Err(Errno::Badf));
    assert_eq!(rights_of(&host, 4), Ok(Rights::empty()));
    assert_eq!(host.fd_renumber(Fd(4), Fd(4)), Ok(()));
    assert_eq!(host.fd_close(Fd(4)), Ok(()));
    assert_eq!(rights_of(&host, 4), Err(Errno::Badf));
}

#[test]
fn renumber_needs_both_descriptors() {
    let mut host = host();
    assert_eq!(host.fd_renumber(Fd(0), Fd(9)), Err(Errno::Badf));
    assert_eq!(host.fd_renumber(Fd(9), Fd(0)), Err(Errno::Badf));
    assert_eq!(host.fd_renumber(Fd(8), Fd(9)), Err(Errno::Badf));
    assert_eq!(host.fd_renumber(Fd(9), Fd(9)), Ok(()));
    assert_eq!(host.fd_renumber(Fd(0), Fd(0)), Ok(()));
    assert_eq!(rights_of(&host, 0), Ok(Rights::fd_read()));
    assert_eq!(rights_of(&host, 9), Err(Errno::Badf));
}

#[test]
fn a_displaced_resource_leaves_with_its_last_number() {
    let mut table: FdTable<Vec<u8>> = FdTable::new();
    assert!(table.insert(Fd(1), silent(Rights::fd_read())).is_none());
    assert!(table.insert(Fd(2), silent(Rights::fd_write())).is_none());
    assert!(table.contains(Fd(1)));
    assert!(!table.contains(Fd(3)));
    let displaced = table.renumber(Fd(1), Fd(2)).unwrap();
    assert_eq!(displaced.unwrap().fdstat_get().unwrap().fs_rights_base, Rights::fd_write());
    assert!(table.remove(Fd(1)).unwrap().is_none());
    let last = table.remove(Fd(2)).unwrap();
    assert_eq!(last.unwrap().fdstat_get().unwrap().fs_rights_base, Rights::fd_read());
    assert!(matches!(table.remove(Fd(2)), Err(Errno::Badf)));
    assert!(table.get(Fd(1)).is_none());
    let replaced = table.insert(Fd(7), silent(Rights::fd_seek()));
    assert!(replaced.is_none());
    let replaced = table.insert(Fd(7), silent(Rights::fd_tell()));
    assert_eq!(replaced.unwrap().fdstat_get().unwrap().fs_rights_base, Rights::fd_seek());
    assert_eq!(table.get(Fd(7)).unwrap().fdstat_get().unwrap().fs_rights_base, Rights::fd_tell());
    assert!(table.get_pair(Fd(7), Fd(7)).is_some());
    assert!(table.get_pair(Fd(7), Fd(8)).is_none());
    assert!(table.get_pair(Fd(8), Fd(7)).is_none());
}

#[test]
fn rights_narrow_through_the_host() {
    let read = Rights::fd_read();
    let write = Rights::fd_write();
    let mut host =
        WasiHost::with_fds(Vec::new(), Vec::new(), vec![(Fd(3), silent(read.union(write)))]);
    assert_eq!(host.fd_fdstat_set_rights(Fd(4), read, Rights::empty()), Err(Errno::Badf));
    assert_eq!(
        host.fd_fdstat_set_rights(Fd(3), Rights::fd_seek(), Rights::empty()),
        Err(Errno::Notcapable)
    );
    assert_eq!(host.fd_fdstat_set_rights(Fd(3), read, read), Err(Errno::Notcapable));
    assert_eq!(rights_of(&host, 3), Ok(read.union(write)));
    assert_eq!(host.fd_fdstat_set_rights(Fd(3), read, Rights::empty()), Ok(()));
    assert_eq!(rights_of(&host, 3), Ok(read));
    assert_eq!(host.fd_fdstat_set_rights(Fd(3), write, Rights::empty()), Err(Errno::Notcapable));
    assert_eq!(
        host.fd_fdstat_set_rights(Fd(3), read.union(write), Rights::empty()),
        Err(Errno::Notcapable)
    );
    assert_eq!(rights_of(&host, 3), Ok(read));
}

#[test]
fn flags_are_set_through_the_host() {
    let mut host = WasiHost::with_fds(
        Vec::new(),
        Vec::new(),
        vec![(Fd(3), silent(Rights::fd_fdstat_set_flags())), (Fd(4), silent(Rights::fd_read()))],
    );
    assert_eq!(host.fd_fdstat_set_flags(Fd(3), Fdflags::nonblock()), Ok(()));
    assert_eq!(host.fd_fdstat_get(Fd(3)).unwrap().fs_flags, Fdflags::nonblock());
    assert_eq!(host.fd_fdstat_set_flags(Fd(4), Fdflags::nonblock()), Err(Errno::Notcapable));
    assert_eq!(host.fd_fdstat_get(Fd(4)).unwrap().fs_flags, Fdflags::empty());
    assert_eq!(host.fd_fdstat_set_flags(Fd(5), Fdflags::nonblock()), Err(Errno::Badf));
}

#[test]
fn a_write_without_the_right_never_reaches_the_backend() {
    let writes = Arc::new(AtomicUsize::new(0));
    let device = Counter { writes: writes.clone() };
    let read_only = WasiFd::from_character_device(device, Fdflags::empty(), Rights::fd_read());
    let device = Counter { writes: writes.clone() };
    let writable = WasiFd::from_character_device(device, Fdflags::empty(), Rights::fd_write());
    let host: WasiHost<Vec<u8>> =
        WasiHost::with_fds(Vec::new(), Vec::new(), vec![(Fd(3), read_only), (Fd(4), writable)]);
    assert_eq!(host.fd_write(Fd(3), &vec![b"data".to_vec()]), Err(Errno::Notcapable));
    assert_eq!(writes.load(Ordering::SeqCst), 0);
    assert_eq!(host.fd_write(Fd(4), &vec![b"data".to_vec()]), Ok(Size(4)));
    assert_eq!(writes.load(Ordering::SeqCst), 1);
    assert_eq!(host.fd_write(Fd(5), &vec![b"data".to_vec()]), Err(Errno::Badf));
    assert_eq!(writes.load(Ordering::SeqCst), 1);
}

#[test]
fn operations_look_the_descriptor_up_first() {
    let host = host();
    let path = b"p".to_vec();
    assert_eq!(host.fd_sync(Fd(9)), Err(Errno::Badf));
    assert_eq!(host.fd_tell(Fd(9)), Err(Errno::Badf));
    assert_eq!(host.fd_prestat_get(Fd(9)), Err(Errno::Badf));
    assert_eq!(host.fd_prestat_get(Fd(0)), Err(Errno::Notsup));
    assert!(matches!(host.fd_prestat_dir_name(Fd(9)), Err(Errno::Badf)));
    assert!(matches!(host.fd_prestat_dir_name(Fd(0)), Err(Errno::Notsup)));
    assert_eq!(host.path_create_directory(Fd(9), &path), Err(Errno::Badf));
    assert_eq!(host.path_create_directory(Fd(0), &path), Err(Errno::Notcapable));
    assert_eq!(host.path_symlink(&path, Fd(9), &path), Err(Errno::Badf));
    assert_eq!(host.path_link(Fd(0), Lookupflags::empty(), &path, Fd(9), &path), Err(Errno::Badf));
    assert_eq!(host.path_link(Fd(9), Lookupflags::empty(), &path, Fd(0), &path), Err(Errno::Badf));
    assert_eq!(
        host.path_link(Fd(0), Lookupflags::empty(), &path, Fd(1), &path),
        Err(Errno::Notcapable)
    );
    assert_eq!(host.path_rename(Fd(0), &path, Fd(9), &path), Err(Errno::Badf));
    assert_eq!(host.path_rename(Fd(0), &path, Fd(1), &path), Err(Errno::Notcapable));
    let none = Rights::empty();
    let opened = host.path_open(
        Fd(9),
        Lookupflags::empty(),
        &path,
        Oflags::empty(),
        none,
        none,
        Fdflags::empty(),
    );
    assert!(matches!(opened, Err(Errno::Badf)));
    let opened = host.path_open(
        Fd(0),
        Lookupflags::empty(),
        &path,
        Oflags::empty(),
        none,
        none,
        Fdflags::empty(),
    );
    assert!(matches!(opened, Err(Errno::Notcapable)));
}

#[test]
fn operations_without_a_system_call() {
    let host = host();
    assert!(matches!(host.poll_oneoff(&Vec::new()), Err(Errno::Nosys)));
    assert_eq!(host.proc_raise(Signal::Term), Err(Errno::Nosys));
    assert!(matches!(host.proc_exit(Exitcode(3)), Err(Exitcode(3))));
    assert!(matches!(host.proc_exit(Exitcode(0)), Err(Exitcode(0))));
}

#[test]
fn descriptors_are_allocated_below_the_limit() {
    let mut host = host();
    let mut seen = Vec::new();
    for _ in 0..64 {
        let mut resource = silent(Rights::fd_seek());
        let fd = loop {
            match host.allocate_fd(resource) {
                Ok(fd) => break fd,
                Err(back) => resource = back,
            }
        };
        assert!(fd.0 < FD_LIMIT);
        assert!(fd.0 < (1 << 31));
        assert!(!seen.contains(&fd.0));
        assert_eq!(rights_of(&host, fd.0), Ok(Rights::fd_seek()));
        seen.push(fd.0);
    }
    assert!(seen.iter().any(|fd| *fd != seen[0]));
    assert!(seen.iter().any(|fd| *fd > 2));
    assert_eq!(rights_of(&host, 0), Ok(Rights::fd_read()));
}

#[test]
fn an_open_number_is_not_allocated_again() {
    let mut host = host();
    match host.allocate_fd_at(Fd(1), silent(Rights::fd_seek())) {
        Ok(_) => panic!("an open number was allocated"),
        Err(back) => assert_eq!(back.fdstat_get().unwrap().fs_rights_base, Rights::fd_seek()),
    }
    assert_eq!(rights_of(&host, 1), Ok(Rights::fd_write()));
    assert!(matches!(host.allocate_fd_at(Fd(40), silent(Rights::fd_seek())), Ok(Fd(40))));
    assert_eq!(rights_of(&host, 40), Ok(Rights::fd_seek()));
    assert!(host.allocate_fd_at(Fd(40), silent(Rights::fd_tell())).is_err());
    assert_eq!(rights_of(&host, 40), Ok(Rights::fd_seek()));
}

#[test]
fn random_data_fills_the_buffer() {
    let host = host();
    let mut buf = vec![0u8; 64];
    assert_eq!(host.random_get(&mut buf), Ok(()));
    assert_eq!(buf.len(), 64);
    assert!(buf.iter().any(|byte| *byte != 0));
    let mut other = vec![0u8; 64];
    assert_eq!(host.random_get(&mut other), Ok(()));
    assert_ne!(buf, other);
    let mut empty: Vec<u8> = Vec::new();
    assert_eq!(host.random_get(&mut empty), Ok(()));
    assert!(empty.is_empty());
    assert_eq!(random_outcome(Ok(())), Ok(()));
}

#[test]
fn a_failure_of_the_random_source_is_an_io_error() {
    assert_eq!(random_outcome(Err(getrandom::Error::UNSUPPORTED)), Err(Errno::Io));
    assert_eq!(random_outcome(Err(getrandom::Error::UNEXPECTED)), Err(Errno::Io));
}

#[test]
fn the_exit_code_of_a_run() {
    assert_eq!(exit_code(Termination::Returned), Some(0));
    assert_eq!(exit_code(Termination::Exited(0)), Some(0));
    assert_eq!(exit_code(Termination::Exited(42)), Some(42));
    assert_eq!(exit_code(Termination::Exited(u32::MAX)), Some(u32::MAX));
    assert_eq!(exit_code(Termination::Failed), None);
}
