use std::cell::{Cell, RefCell};
use std::convert::Infallible;
use wasihost::adapter::{
    invalid0, invalid1, invalid2, return1, return2, to_result0, to_result1, to_result2,
    NativeWasiAdapter,
};
use wasihost::imports::WasiImports;
use wasihost::native;
use wasihost::ptr::{GuestMemory, WasmSlicePtr, WasmValuePtr};
use wasihost::records::{
    Dirent, Event, EventFdReadwrite, Fdstat, Filestat, Prestat, PrestatDir, Subscription,
};
use wasihost::string_representation::StringRepresentation;
use wasihost::value::WasiValue;
use wasihost::types::{
    Advice, Clockid, Dircookie, Dirnamlen, Errno, Eventrwflags, Eventtype, Exitcode, Fd, Fdflags,
    Filedelta, Filesize, Filetype, Fstflags, Inode, Lookupflags, Oflags, Riflags, Rights, Roflags,
    Sdflags, Siflags, Signal, Size, Timestamp, Userdata, WasiResult, Whence,
};
use wasihost::wire::WasmValue;

/// A host that answers from what it was given and keeps what it was asked.
struct Script<S> {
    arguments: WasiResult<Vec<S>>,
    environment: WasiResult<Vec<S>>,
    directory: Vec<(u8, Vec<u8>)>,
    directory_error: Option<(u64, Errno)>,
    input: Vec<u8>,
    input_error: Option<Errno>,
    link: Vec<u8>,
    dirname: WasiResult<Vec<u8>>,
    events: usize,
    calls: Cell<usize>,
    written: RefCell<Vec<Vec<u8>>>,
    paths: RefCell<Vec<Vec<u8>>>,
    advice: Cell<Option<Advice>>,
    rights: Cell<Option<(Rights, Rights)>>,
    subscriptions: Cell<usize>,
}

impl<S: StringRepresentation> Script<S> {
    fn new() -> Self {
        Script {
            arguments: Ok(Vec::new()),
            environment: Ok(Vec::new()),
            directory: Vec::new(),
            directory_error: None,
            input: Vec::new(),
            input_error: None,
            link: Vec::new(),
            dirname: Err(Errno::Badf),
            events: 0,
            calls: Cell::new(0),
            written: RefCell::new(Vec::new()),
            paths: RefCell::new(Vec::new()),
            advice: Cell::new(None),
            rights: Cell::new(None),
            subscriptions: Cell::new(0),
        }
    }

    fn called(&self) {
        self.calls.set(self.calls.get() + 1);
    }

    fn path(&self, path: &S) {
        self.called();
        self.paths.borrow_mut().push(path.as_bytes().to_vec());
    }

    fn fill(&self, mut iovs: Vec<Vec<u8>>) -> (WasiResult<Size>, Vec<Vec<u8>>) {
        self.called();
        if let Some(error) = self.input_error {
            return (Err(error), iovs);
        }
        let mut next = 0;
        for buf in iovs.iter_mut() {
            for byte in buf.iter_mut() {
                if next < self.input.len() {
                    *byte = self.input[next];
                    next += 1;
                } else {
                    *byte = 0xee;
                }
            }
        }
        (Ok(Size(next as u32)), iovs)
    }

    fn take(&self, bufs: &Vec<Vec<u8>>) -> WasiResult<Size> {
        self.called();
        let mut written = self.written.borrow_mut();
        for buf in bufs {
            written.push(buf.clone());
        }
        Ok(Size(bufs.iter().map(|buf| buf.len() as u32).sum()))
    }
}

fn strings<S: StringRepresentation>(list: &[&[u8]]) -> Vec<S> {
    list.iter()
        .map(|bytes| match S::from_bytes(bytes.to_vec()) {
            Ok(string) => string,
            Err(_) => panic!("not a string"),
        })
        .collect()
}

fn filestat(size: u64) -> Filestat {
    Filestat {
        dev: wasihost::types::Device(1),
        ino: Inode(2),
        filetype: Filetype::RegularFile,
        nlink: wasihost::types::Linkcount(1),
        size: Filesize(size),
        atim: Timestamp(3),
        mtim: Timestamp(4),
        ctim: Timestamp(5),
    }
}

impl<S: StringRepresentation> WasiImports for Script<S> {
    type StringRepresentation = S;

    fn args_get(&self) -> WasiResult<&[S]> {
        match &self.arguments {
            Ok(list) => Ok(&list[..]),
            Err(error) => Err(*error),
        }
    }

    fn environ_get(&self) -> WasiResult<&[S]> {
        match &self.environment {
            Ok(list) => Ok(&list[..]),
            Err(error) => Err(*error),
        }
    }

    fn clock_res_get(&self, id: Clockid) -> WasiResult<Timestamp> {
        self.called();
        match id {
            Clockid::Realtime => Ok(Timestamp(1000)),
            _ => Err(Errno::Inval),
        }
    }

    fn clock_time_get(&self, _id: Clockid, precision: Timestamp) -> WasiResult<Timestamp> {
        self.called();
        Ok(Timestamp(precision.0 + 1))
    }

    fn fd_advise(
        &self,
        _fd: Fd,
        _offset: Filesize,
        _len: Filesize,
        advice: Advice,
    ) -> WasiResult<()> {
        self.called();
        self.advice.set(Some(advice));
        Ok(())
    }

    fn fd_allocate(&self, _fd: Fd, _offset: Filesize, _len: Filesize) -> WasiResult<()> {
        self.called();
        Err(Errno::Nospc)
    }

    fn fd_close(&self, fd: Fd) -> WasiResult<()> {
        self.called();
        if fd.0 < 3 {
            Ok(())
        } else {
            Err(Errno::Badf)
        }
    }

    fn fd_datasync(&self, _fd: Fd) -> WasiResult<()> {
        self.called();
        Ok(())
    }

    fn fd_fdstat_get(&self, fd: Fd) -> WasiResult<Fdstat> {
        self.called();
        if fd.0 == 0 {
            Ok(Fdstat {
                fs_filetype: Filetype::CharacterDevice,
                fs_flags: Fdflags::append(),
                fs_rights_base: Rights::fd_read(),
                fs_rights_inheriting: Rights::empty(),
            })
        } else {
            Err(Errno::Badf)
        }
    }

    fn fd_fdstat_set_flags(&self, _fd: Fd, _flags: Fdflags) -> WasiResult<()> {
        self.called();
        Ok(())
    }

    fn fd_fdstat_set_rights(&self, _fd: Fd, base: Rights, inheriting: Rights) -> WasiResult<()> {
        self.called();
        self.rights.set(Some((base, inheriting)));
        Err(Errno::Notcapable)
    }

    fn fd_filestat_get(&self, _fd: Fd) -> WasiResult<Filestat> {
        self.called();
        Ok(filestat(77))
    }

    fn fd_filestat_set_size(&self, _fd: Fd, _size: Filesize) -> WasiResult<()> {
        self.called();
        Ok(())
    }

    fn fd_filestat_set_times(
        &self,
        _fd: Fd,
        _a: Timestamp,
        _m: Timestamp,
        _f: Fstflags,
    ) -> WasiResult<()> {
        self.called();
        Ok(())
    }

    fn fd_pread(
        &self,
        _fd: Fd,
        iovs: Vec<Vec<u8>>,
        _offset: Filesize,
    ) -> (WasiResult<Size>, Vec<Vec<u8>>) {
        self.fill(iovs)
    }

    fn fd_prestat_get(&self, _fd: Fd) -> WasiResult<Prestat> {
        self.called();
        Ok(Prestat::Dir(PrestatDir { pr_name_len: Size(4) }))
    }

    fn fd_prestat_dir_name(&self, _fd: Fd) -> WasiResult<S> {
        self.called();
        match &self.dirname {
            Ok(name) => Ok(strings::<S>(&[&name[..]]).remove(0)),
            Err(error) => Err(*error),
        }
    }

    fn fd_pwrite(&self, _fd: Fd, bufs: &Vec<Vec<u8>>, _offset: Filesize) -> WasiResult<Size> {
        self.take(bufs)
    }

    fn fd_read(&self, _fd: Fd, iovs: Vec<Vec<u8>>) -> (WasiResult<Size>, Vec<Vec<u8>>) {
        self.fill(iovs)
    }

    fn fd_readdir(&self, _fd: Fd, cookie: Dircookie) -> WasiResult<Option<(Dirent, S)>> {
        self.called();
        if let Some((at, error)) = self.directory_error {
            if at == cookie.0 {
                return Err(error);
            }
        }
        match self.directory.get(cookie.0 as usize) {
            Some((kind, name)) => Ok(Some((
                Dirent {
                    d_next: Dircookie(cookie.0 + 1),
                    d_ino: Inode(100 + cookie.0),
                    d_namlen: Dirnamlen(name.len() as u32),
                    d_type: Filetype::from_native(*kind).ok().unwrap(),
                },
                strings::<S>(&[&name[..]]).remove(0),
            ))),
            None => Ok(None),
        }
    }

    fn fd_renumber(&self, _fd: Fd, _to: Fd) -> WasiResult<()> {
        self.called();
        Ok(())
    }

    fn fd_seek(&self, _fd: Fd, offset: Filedelta, whence: Whence) -> WasiResult<Filesize> {
        self.called();
        match whence {
            Whence::Start => Ok(Filesize(offset.0 as u64)),
            _ => Err(Errno::Spipe),
        }
    }

    fn fd_sync(&self, _fd: Fd) -> WasiResult<()> {
        self.called();
        Ok(())
    }

    fn fd_tell(&self, _fd: Fd) -> WasiResult<Filesize> {
        self.called();
        Ok(Filesize(0x0102_0304_0506_0708))
    }

    fn fd_write(&self, _fd: Fd, bufs: &Vec<Vec<u8>>) -> WasiResult<Size> {
        self.take(bufs)
    }

    fn path_create_directory(&self, _fd: Fd, path: &S) -> WasiResult<()> {
        self.path(path);
        Ok(())
    }

    fn path_filestat_get(&self, _fd: Fd, _flags: Lookupflags, path: &S) -> WasiResult<Filestat> {
        self.path(path);
        Ok(filestat(path.as_bytes().len() as u64))
    }

    fn path_filestat_set_times(
        &self,
        _fd: Fd,
        _flags: Lookupflags,
        path: &S,
        _atim: Timestamp,
        _mtim: Timestamp,
        _fst_flags: Fstflags,
    ) -> WasiResult<()> {
        self.path(path);
        Ok(())
    }

    fn path_link(
        &self,
        _o: Fd,
        _f: Lookupflags,
        old_path: &S,
        _n: Fd,
        new_path: &S,
    ) -> WasiResult<()> {
        self.path(old_path);
        self.path(new_path);
        Err(Errno::Exist)
    }

    fn path_open(
        &self,
        _fd: Fd,
        _dirflags: Lookupflags,
        path: &S,
        _oflags: Oflags,
        _fs_rights_base: Rights,
        _fs_rights_inheriting: Rights,
        _fdflags: Fdflags,
    ) -> WasiResult<Fd> {
        self.path(path);
        Ok(Fd(0x7fff_0001))
    }

    fn path_readlink(&self, _fd: Fd, path: &S) -> WasiResult<S> {
        self.path(path);
        Ok(strings::<S>(&[&self.link[..]]).remove(0))
    }

    fn path_remove_directory(&self, _fd: Fd, path: &S) -> WasiResult<()> {
        self.path(path);
        Err(Errno::Notempty)
    }

    fn path_rename(&self, _fd: Fd, old_path: &S, _new_fd: Fd, new_path: &S) -> WasiResult<()> {
        self.path(old_path);
        self.path(new_path);
        Ok(())
    }

    fn path_symlink(&self, old_path: &S, _fd: Fd, new_path: &S) -> WasiResult<()> {
        self.path(old_path);
        self.path(new_path);
        Ok(())
    }

    fn path_unlink_file(&self, _fd: Fd, path: &S) -> WasiResult<()> {
        self.path(path);
        Err(Errno::Isdir)
    }

    fn poll_oneoff(&self, subscriptions: &Vec<Subscription>) -> WasiResult<Vec<Event>> {
        self.called();
        self.subscriptions.set(subscriptions.len());
        let mut events = Vec::new();
        for i in 0..self.events {
            events.push(Event {
                userdata: Userdata(i as u64 + 10),
                error: Errno::Success,
                type_: Eventtype::FdRead,
                fd_readwrite: EventFdReadwrite {
                    nbytes: Filesize(i as u64),
                    flags: Eventrwflags::empty(),
                },
            });
        }
        Ok(events)
    }

    fn proc_exit(&self, rval: Exitcode) -> Result<Infallible, Exitcode> {
        Err(rval)
    }

    fn proc_raise(&self, _sig: Signal) -> WasiResult<()> {
        self.called();
        Err(Errno::Nosys)
    }

    fn random_get(&self, mut buf: Vec<u8>) -> (WasiResult<()>, Vec<u8>) {
        self.called();
        for (i, byte) in buf.iter_mut().enumerate() {
            *byte = (i as u8) ^ 0x5a;
        }
        match self.input_error {
            Some(error) => (Err(error), buf),
            None => (Ok(()), buf),
        }
    }

    fn sched_yield(&self) -> WasiResult<()> {
        self.called();
        Ok(())
    }

    fn sock_recv(
        &self,
        _fd: Fd,
        ri_data: Vec<Vec<u8>>,
        _flags: Riflags,
    ) -> (WasiResult<(Size, Roflags)>, Vec<Vec<u8>>) {
        let (result, filled) = self.fill(ri_data);
        (result.map(|size| (size, Roflags::recv_data_truncated())), filled)
    }

    fn sock_send(&self, _fd: Fd, si_data: &Vec<Vec<u8>>, _si_flags: Siflags) -> WasiResult<Size> {
        self.take(si_data)
    }

    fn sock_shutdown(&self, _fd: Fd, _how: Sdflags) -> WasiResult<()> {
        self.called();
        Ok(())
    }
}

type Bytes = Vec<u8>;

fn adapter() -> NativeWasiAdapter<Script<Bytes>> {
    NativeWasiAdapter(Script::new())
}

fn memory(len: usize) -> GuestMemory {
    GuestMemory::new(vec![0xaa; len])
}

fn put_region(memory: &mut GuestMemory, at: usize, buf: u32, len: u32) {
    memory.bytes[at..at + 4].copy_from_slice(&buf.to_le_bytes());
    memory.bytes[at + 4..at + 8].copy_from_slice(&len.to_le_bytes());
}

fn u32_at(memory: &GuestMemory, at: usize) -> u32 {
    u32::read(&memory.bytes[at..at + 4])
}

#[test]
fn results_become_status_codes() {
    assert_eq!(to_result0(Ok(())), 0);
    assert_eq!(to_result0(Err(Errno::Badf)), 8);
    assert_eq!(to_result0(Err(Errno::Notcapable)), 76);
    assert_eq!(to_result1(Ok(Size(5))), (0, 5));
    assert_eq!(to_result1::<Size>(Err(Errno::Io)), (29, 0));
    assert_eq!(to_result1(Ok(Filesize(9))), (0, 9));
    assert_eq!(
        to_result1::<Fdstat>(Err(Errno::Badf)),
        (
            8,
            native::fdstat {
                fs_filetype: 0,
                fs_flags: 0,
                fs_rights_base: 0,
                fs_rights_inheriting: 0
            }
        )
    );
    assert_eq!(
        to_result1::<Prestat>(Err(Errno::Badf)),
        (8, native::prestat::dir(native::prestat_dir { pr_name_len: 0 }))
    );
    assert_eq!(to_result2(Ok((Size(5), Roflags::recv_data_truncated()))), (0, 5, 1));
    assert_eq!(to_result2::<Size, Roflags>(Err(Errno::Notsup)), (58, 0, 0));
    assert_eq!(invalid0(), 28);
    assert_eq!(invalid1::<Size>(), (28, 0));
    assert_eq!(invalid2::<Size, Roflags>(), (28, 0, 0));
}

#[test]
fn secondary_results_go_to_guest_memory() {
    let mut memory = memory(32);
    let errno = return1(&mut memory, (0u16, 0x0403_0201u32), WasmValuePtr::new(4));
    assert_eq!(errno, 0);
    assert_eq!(&memory.bytes[0..12], &[0xaa, 0xaa, 0xaa, 0xaa, 1, 2, 3, 4, 0xaa, 0xaa, 0xaa, 0xaa]);
    let errno = return2(
        &mut memory,
        (8u16, 7u32, 0x0102u16),
        WasmValuePtr::new(16),
        WasmValuePtr::new(20),
    );
    assert_eq!(errno, 8);
    assert_eq!(&memory.bytes[16..24], &[7, 0, 0, 0, 2, 1, 0xaa, 0xaa]);
    let mut memory = GuestMemory::new(vec![0; 8]);
    let errno = return2(
        &mut memory,
        (0u16, 0x1111_1111u32, 0x2222_2222u32),
        WasmValuePtr::new(0),
        WasmValuePtr::new(2),
    );
    assert_eq!(errno, 0);
    assert_eq!(memory.bytes, vec![0x11, 0x11, 0x22, 0x22, 0x22, 0x22, 0, 0]);
}

#[test]
fn arguments_and_environment_of_a_program() {
    let mut adapter = adapter();
    adapter.0.arguments = Ok(strings(&[b"prog", b"--flag"]));
    adapter.0.environment = Ok(strings(&[b"X=1"]));
    assert_eq!(adapter.args_sizes_get(), Some((0, 2, 12)));
    assert_eq!(adapter.environ_sizes_get(), Some((0, 1, 4)));
    let mut memory = memory(64);
    let argv: WasmSlicePtr<WasmSlicePtr<u8>> = WasmSlicePtr::new(8);
    let argv_buf: WasmSlicePtr<u8> = WasmSlicePtr::new(20);
    let list = strings::<Bytes>(&[b"prog", b"--flag"]);
    assert!(NativeWasiAdapter::<Script<Bytes>>::strings_fit_memory(&list, &memory, argv, argv_buf));
    assert_eq!(adapter.args_get(&mut memory, argv, argv_buf), Some(0));
    assert_eq!(u32_at(&memory, 8), 20);
    assert_eq!(u32_at(&memory, 12), 25);
    assert_eq!(&memory.bytes[20..32], b"prog\0--flag\0");
    assert!(memory.bytes[0..8].iter().all(|byte| *byte == 0xaa));
    assert!(memory.bytes[16..20].iter().all(|byte| *byte == 0xaa));
    assert!(memory.bytes[32..].iter().all(|byte| *byte == 0xaa));
    let environ: WasmSlicePtr<WasmSlicePtr<u8>> = WasmSlicePtr::new(40);
    let environ_buf: WasmSlicePtr<u8> = WasmSlicePtr::new(60);
    assert_eq!(adapter.environ_get(&mut memory, environ, environ_buf), Some(0));
    assert_eq!(u32_at(&memory, 40), 60);
    assert_eq!(&memory.bytes[60..64], b"X=1\0");
    assert!(memory.bytes[44..60].iter().all(|byte| *byte == 0xaa));
}

#[test]
fn buffers_of_the_reported_sizes_are_never_overrun() {
    let lists: Vec<Vec<&[u8]>> = vec![
        vec![],
        vec![b""],
        vec![b"", b""],
        vec![b"a", b"", b"bcd"],
        vec![b"one", b"two", b"three", b"four"],
    ];
    for list in lists {
        let mut adapter = adapter();
        adapter.0.arguments = Ok(strings(&list));
        let (errno, count, size) = adapter.args_sizes_get().unwrap();
        assert_eq!(errno, 0);
        assert_eq!(count as usize, list.len());
        assert_eq!(size as usize, list.iter().map(|s| s.len() + 1).sum::<usize>());
        let table = 16;
        let buffer = table + 4 * count as usize + 8;
        let end = buffer + size as usize;
        let mut memory = memory(end + 16);
        assert_eq!(
            adapter.args_get(
                &mut memory,
                WasmSlicePtr::new(table as u32),
                WasmSlicePtr::new(buffer as u32),
            ),
            Some(0)
        );
        assert!(memory.bytes[..table].iter().all(|byte| *byte == 0xaa));
        assert!(memory.bytes[table + 4 * count as usize..buffer].iter().all(|byte| *byte == 0xaa));
        assert!(memory.bytes[end..].iter().all(|byte| *byte == 0xaa));
        let mut at = buffer;
        for (i, string) in list.iter().enumerate() {
            assert_eq!(u32_at(&memory, table + 4 * i) as usize, at);
            assert_eq!(&memory.bytes[at..at + string.len()], &string[..]);
            assert_eq!(memory.bytes[at + string.len()], 0);
            at += string.len() + 1;
        }
        assert_eq!(at, end);
    }
}

#[test]
fn strings_that_do_not_fit_are_not_written() {
    let mut adapter = adapter();
    adapter.0.arguments = Ok(strings(&[b"prog", b"--flag"]));
    adapter.0.environment = Ok(strings(&[b"X=1"]));
    let mut memory = memory(32);
    assert_eq!(adapter.args_get(&mut memory, WasmSlicePtr::new(0), WasmSlicePtr::new(21)), None);
    assert_eq!(adapter.args_get(&mut memory, WasmSlicePtr::new(25), WasmSlicePtr::new(0)), None);
    assert_eq!(adapter.environ_get(&mut memory, WasmSlicePtr::new(29), WasmSlicePtr::new(0)), None);
    assert_eq!(adapter.environ_get(&mut memory, WasmSlicePtr::new(0), WasmSlicePtr::new(29)), None);
    assert!(memory.bytes.iter().all(|byte| *byte == 0xaa));
    assert_eq!(
        adapter.environ_get(&mut memory, WasmSlicePtr::new(0), WasmSlicePtr::new(28)),
        Some(0),
    );
    assert_eq!(&memory.bytes[28..32], b"X=1\0");
    assert_eq!(u32_at(&memory, 0), 28);
}

#[test]
fn strings_that_do_not_fit_are_found_out() {
    let list = strings::<Bytes>(&[b"prog", b"--flag"]);
    let memory = memory(32);
    let fit = |ptrs: u32, buf: u32| {
        NativeWasiAdapter::<Script<Bytes>>::strings_fit_memory(
            &list,
            &memory,
            WasmSlicePtr::new(ptrs),
            WasmSlicePtr::new(buf),
        )
    };
    assert!(fit(0, 20));
    assert!(fit(24, 0));
    assert!(!fit(25, 0));
    assert!(!fit(0, 21));
    assert!(!fit(u32::MAX, 0));
    assert!(!fit(0, u32::MAX));
    assert_eq!(NativeWasiAdapter::<Script<Bytes>>::checked_sizes(&list), Some((2, 12)));
    assert_eq!(NativeWasiAdapter::<Script<Bytes>>::checked_sizes(&[]), Some((0, 0)));
}

#[test]
fn an_error_of_the_host_is_handed_on() {
    let mut adapter = adapter();
    adapter.0.arguments = Err(Errno::Nosys);
    adapter.0.environment = Err(Errno::Acces);
    assert_eq!(adapter.args_sizes_get(), Some((52, 0, 0)));
    assert_eq!(adapter.environ_sizes_get(), Some((2, 0, 0)));
    let mut memory = memory(16);
    assert_eq!(adapter.args_get(&mut memory, WasmSlicePtr::new(0), WasmSlicePtr::new(8)), Some(52));
    assert_eq!(
        adapter.args_get(&mut memory, WasmSlicePtr::new(99), WasmSlicePtr::new(99)),
        Some(52),
    );
    assert_eq!(
        adapter.environ_get(&mut memory, WasmSlicePtr::new(0), WasmSlicePtr::new(8)),
        Some(2),
    );
    assert!(memory.bytes.iter().all(|byte| *byte == 0xaa));
    assert_eq!(adapter.fd_allocate(3, 0, 10), 51);
    assert_eq!(adapter.fd_fdstat_get(5).0, 8);
    assert_eq!(adapter.proc_raise(15), 52);
    assert_eq!(adapter.fd_seek(3, 4, 1), (70, 0));
    assert_eq!(adapter.fd_seek(3, 4, 0), (0, 4));
}

#[test]
fn arguments_that_do_not_convert_are_invalid() {
    let mut adapter = adapter();
    assert_eq!(adapter.fd_advise(3, 0, 0, 6), 28);
    assert_eq!(adapter.fd_advise(3, 0, 0, 255), 28);
    assert_eq!(adapter.clock_res_get(4), (28, 0));
    assert_eq!(adapter.clock_time_get(9, 5), (28, 0));
    assert_eq!(adapter.fd_seek(3, 0, 3), (28, 0));
    assert_eq!(adapter.fd_fdstat_set_flags(3, 0x20), 28);
    assert_eq!(adapter.fd_fdstat_set_rights(3, 1 << 29, 0), 28);
    assert_eq!(adapter.fd_fdstat_set_rights(3, 0, u64::MAX), 28);
    assert_eq!(adapter.fd_filestat_set_times(3, 0, 0, 0x10), 28);
    assert_eq!(adapter.proc_raise(31), 28);
    assert_eq!(adapter.sock_shutdown(3, 4), 28);
    assert_eq!(adapter.0.calls.get(), 0);
    assert_eq!(adapter.fd_advise(3, 0, 0, 5), 0);
    assert_eq!(adapter.0.advice.get(), Some(Advice::Noreuse));
    assert_eq!(adapter.fd_fdstat_set_rights(3, 6, 2), 76);
    assert_eq!(
        adapter.0.rights.get(),
        Some((Rights::fd_read().union(Rights::fd_seek()), Rights::fd_read()))
    );
    assert_eq!(adapter.clock_res_get(0), (0, 1000));
    assert_eq!(adapter.clock_res_get(1), (28, 0));
    assert_eq!(adapter.clock_time_get(2, 41), (0, 42));
    assert_eq!(adapter.sock_shutdown(3, 3), 0);
    assert_eq!(adapter.fd_close(2), 0);
    assert_eq!(adapter.fd_close(3), 8);
    assert_eq!(adapter.fd_renumber(1, 2), 0);
    assert_eq!(adapter.fd_datasync(1), 0);
    assert_eq!(adapter.fd_sync(1), 0);
    assert_eq!(adapter.fd_filestat_set_size(1, 5), 0);
    assert_eq!(adapter.sched_yield(), 0);
    assert_eq!(adapter.fd_tell(1), (0, 0x0102_0304_0506_0708));
}

#[test]
fn records_are_answered_in_native_form() {
    let adapter = adapter();
    assert_eq!(
        adapter.fd_fdstat_get(0),
        (
            0,
            native::fdstat {
                fs_filetype: 2,
                fs_flags: 1,
                fs_rights_base: 2,
                fs_rights_inheriting: 0,
            },
        )
    );
    let (errno, stat) = adapter.fd_filestat_get(0);
    assert_eq!(errno, 0);
    assert_eq!(stat.size, 77);
    assert_eq!(stat.filetype, 4);
    assert_eq!(
        adapter.fd_prestat_get(3),
        (0, native::prestat::dir(native::prestat_dir { pr_name_len: 4 }))
    );
    let mut memory = memory(64);
    let errno = return1(&mut memory, adapter.fd_fdstat_get(0), WasmValuePtr::new(8));
    assert_eq!(errno, 0);
    assert_eq!(native::fdstat::read(&memory.bytes[8..32]).fs_rights_base, 2);
    assert_eq!(memory.bytes[8], 2);
    assert_eq!(memory.bytes[9], 0xaa);
}

#[test]
fn paths_are_read_from_guest_memory() {
    let mut adapter = adapter();
    let mut memory = memory(64);
    memory.bytes[10..17].copy_from_slice(b"dir/sub");
    memory.bytes[30..34].copy_from_slice(b"file");
    assert_eq!(adapter.path_create_directory(&memory, 3, WasmSlicePtr::new(10), 7), 0);
    assert_eq!(adapter.path_remove_directory(&memory, 3, WasmSlicePtr::new(10), 3), 55);
    assert_eq!(adapter.path_unlink_file(&memory, 3, WasmSlicePtr::new(30), 4), 31);
    assert_eq!(adapter.path_filestat_get(&memory, 3, 1, WasmSlicePtr::new(30), 4).1.size, 4);
    assert_eq!(adapter.path_filestat_get(&memory, 3, 2, WasmSlicePtr::new(30), 4).0, 28);
    assert_eq!(
        adapter.path_filestat_set_times(&memory, 3, 0, WasmSlicePtr::new(30), 4, 1, 2, 0x10),
        28
    );
    assert_eq!(
        adapter.path_link(&memory, 3, 0, WasmSlicePtr::new(10), 3, 4, WasmSlicePtr::new(30), 4),
        20
    );
    assert_eq!(
        adapter.path_rename(&memory, 3, WasmSlicePtr::new(30), 4, 4, WasmSlicePtr::new(10), 7),
        0
    );
    assert_eq!(
        adapter.path_symlink(&memory, WasmSlicePtr::new(10), 0, 3, WasmSlicePtr::new(64), 0),
        0
    );
    assert_eq!(
        adapter.path_open(&memory, 3, 0, WasmSlicePtr::new(30), 4, 0, 0, 0, 0),
        (0, 0x7fff_0001)
    );
    assert_eq!(adapter.path_open(&memory, 3, 0, WasmSlicePtr::new(30), 4, 0x10, 0, 0, 0).0, 28);
    assert_eq!(adapter.path_open(&memory, 3, 0, WasmSlicePtr::new(30), 4, 0, 0, 0, 0x20).0, 28);
    let paths = adapter.0.paths.borrow();
    let expected: Vec<&[u8]> = vec![
        b"dir/sub", b"dir", b"file", b"file", b"dir", b"file", b"file", b"dir/sub", b"", b"",
        b"file",
    ];
    assert_eq!(paths.len(), expected.len());
    for (path, expected) in paths.iter().zip(expected) {
        assert_eq!(&path[..], expected);
    }
}

#[test]
fn text_paths_must_be_valid_utf8() {
    let adapter: NativeWasiAdapter<Script<String>> = NativeWasiAdapter(Script::new());
    let mut memory = memory(32);
    memory.bytes[0..4].copy_from_slice(b"file");
    memory.bytes[8..10].copy_from_slice(&[0xff, 0xfe]);
    assert_eq!(adapter.path_create_directory(&memory, 3, WasmSlicePtr::new(0), 4), 0);
    assert_eq!(adapter.path_create_directory(&memory, 3, WasmSlicePtr::new(8), 2), 28);
    assert_eq!(adapter.path_unlink_file(&memory, 3, WasmSlicePtr::new(4), 4), 28);
    assert_eq!(adapter.path_filestat_get(&memory, 3, 0, WasmSlicePtr::new(8), 2).0, 28);
    assert_eq!(
        adapter.path_rename(&memory, 3, WasmSlicePtr::new(0), 4, 3, WasmSlicePtr::new(8), 2),
        28
    );
    assert_eq!(adapter.0.calls.get(), 1);
    let read = NativeWasiAdapter::<Script<String>>::read_string_from_buf(
        &memory,
        WasmSlicePtr::new(0),
        4,
    );
    assert_eq!(read, Ok("file".to_string()));
    let read = NativeWasiAdapter::<Script<String>>::read_string_from_buf(
        &memory,
        WasmSlicePtr::new(8),
        2,
    );
    assert_eq!(read, Err(Errno::Inval));
    let read = NativeWasiAdapter::<Script<Bytes>>::read_from_buf(&memory, WasmSlicePtr::new(8), 2);
    assert_eq!(read, vec![0xff, 0xfe]);
}

#[test]
fn vectored_writes_gather_the_regions() {
    let adapter = adapter();
    let mut memory = memory(64);
    memory.bytes[32..37].copy_from_slice(b"hello");
    memory.bytes[40..46].copy_from_slice(b"world!");
    put_region(&mut memory, 0, 32, 5);
    put_region(&mut memory, 8, 64, 0);
    put_region(&mut memory, 16, 40, 6);
    assert!(NativeWasiAdapter::<Script<Bytes>>::sources_fit_memory(
        &memory,
        WasmSlicePtr::new(0),
        3,
    ));
    assert_eq!(adapter.fd_write(&memory, 1, WasmSlicePtr::new(0), 3), (0, 11));
    assert_eq!(
        *adapter.0.written.borrow(),
        vec![b"hello".to_vec(), Vec::new(), b"world!".to_vec()]
    );
    assert_eq!(adapter.fd_pwrite(&memory, 1, WasmSlicePtr::new(16), 1, 9), (0, 6));
    assert_eq!(adapter.sock_send(&memory, 1, WasmSlicePtr::new(0), 1, 0), (0, 5));
    assert_eq!(adapter.fd_write(&memory, 1, WasmSlicePtr::new(0), 0), (0, 0));
    put_region(&mut memory, 24, 60, 5);
    assert!(!NativeWasiAdapter::<Script<Bytes>>::sources_fit_memory(
        &memory,
        WasmSlicePtr::new(0),
        4,
    ));
    assert!(!NativeWasiAdapter::<Script<Bytes>>::sources_fit_memory(
        &memory,
        WasmSlicePtr::new(60),
        1,
    ));
    let bufs = NativeWasiAdapter::<Script<Bytes>>::read_from_bufs(&memory, WasmSlicePtr::new(0), 3);
    assert_eq!(bufs, vec![b"hello".to_vec(), Vec::new(), b"world!".to_vec()]);
}

#[test]
fn vectored_reads_scatter_what_was_read() {
    let mut adapter = adapter();
    adapter.0.input = b"abcdefg".to_vec();
    let mut memory = memory(64);
    put_region(&mut memory, 0, 32, 4);
    put_region(&mut memory, 8, 40, 0);
    put_region(&mut memory, 16, 48, 8);
    assert!(NativeWasiAdapter::<Script<Bytes>>::regions_fit_memory(
        &memory,
        WasmSlicePtr::new(0),
        3,
    ));
    assert_eq!(adapter.fd_read(&mut memory, 0, WasmSlicePtr::new(0), 3), (0, 7));
    assert_eq!(&memory.bytes[32..36], b"abcd");
    assert_eq!(&memory.bytes[48..51], b"efg");
    assert!(memory.bytes[51..].iter().all(|byte| *byte == 0xaa));
    assert!(memory.bytes[36..48].iter().all(|byte| *byte == 0xaa));
    assert!(memory.bytes[24..32].iter().all(|byte| *byte == 0xaa));
    adapter.0.input = b"xy".to_vec();
    assert_eq!(adapter.fd_pread(&mut memory, 0, WasmSlicePtr::new(0), 3, 100), (0, 2));
    assert_eq!(&memory.bytes[32..36], b"xycd");
    assert_eq!(&memory.bytes[48..51], b"efg");
    assert_eq!(adapter.sock_recv(&mut memory, 0, WasmSlicePtr::new(16), 1, 0), (0, 2, 1));
    assert_eq!(&memory.bytes[48..51], b"xyg");
    assert_eq!(adapter.sock_recv(&mut memory, 0, WasmSlicePtr::new(16), 1, 4), (28, 0, 0));
    assert_eq!(&memory.bytes[48..51], b"xyg");
}

#[test]
fn a_failed_read_writes_nothing() {
    let mut adapter = adapter();
    adapter.0.input = b"abcdefg".to_vec();
    adapter.0.input_error = Some(Errno::Io);
    let mut memory = memory(64);
    put_region(&mut memory, 0, 32, 4);
    let before = memory.bytes.clone();
    assert_eq!(adapter.fd_read(&mut memory, 0, WasmSlicePtr::new(0), 1), (29, 0));
    assert_eq!(memory.bytes, before);
    adapter.0.input_error = None;
    adapter.0.input = Vec::new();
    assert_eq!(adapter.fd_read(&mut memory, 0, WasmSlicePtr::new(0), 1), (0, 0));
    assert_eq!(memory.bytes, before);
    put_region(&mut memory, 8, 1000, 4);
    adapter.0.input = b"abc".to_vec();
    assert!(!NativeWasiAdapter::<Script<Bytes>>::regions_fit_memory(
        &memory,
        WasmSlicePtr::new(0),
        2,
    ));
    assert!(!NativeWasiAdapter::<Script<Bytes>>::regions_fit_memory(
        &memory,
        WasmSlicePtr::new(60),
        1,
    ));
}

#[test]
fn the_buffers_of_a_read_are_as_long_as_the_regions() {
    let iovecs = vec![
        native::iovec { buf: WasmSlicePtr::new(8), buf_len: 3 },
        native::iovec { buf: WasmSlicePtr::new(0), buf_len: 0 },
        native::iovec { buf: WasmSlicePtr::new(16), buf_len: 5 },
    ];
    let bufs = NativeWasiAdapter::<Script<Bytes>>::new_bufs(&iovecs);
    assert_eq!(bufs, vec![vec![0u8; 3], Vec::new(), vec![0u8; 5]]);
    let mut memory = memory(32);
    let data = vec![b"abc".to_vec(), Vec::new(), b"defgh".to_vec()];
    NativeWasiAdapter::<Script<Bytes>>::write_to_bufs(&mut memory, &iovecs, &data, 5);
    assert_eq!(&memory.bytes[8..11], b"abc");
    assert_eq!(&memory.bytes[16..21], &[b'd', b'e', 0xaa, 0xaa, 0xaa]);
    let mut memory = GuestMemory::new(vec![0xaa; 32]);
    NativeWasiAdapter::<Script<Bytes>>::write_to_bufs(&mut memory, &iovecs, &data, 0);
    assert!(memory.bytes.iter().all(|byte| *byte == 0xaa));
    NativeWasiAdapter::<Script<Bytes>>::write_to_bufs(&mut memory, &iovecs, &data, u32::MAX);
    assert_eq!(&memory.bytes[8..11], b"abc");
    assert_eq!(&memory.bytes[16..21], b"defgh");
    let mut memory = GuestMemory::new(vec![0xaa; 8]);
    NativeWasiAdapter::<Script<Bytes>>::write_to_buf(
        &mut memory,
        WasmSlicePtr::new(2),
        4,
        &b"wxyz".to_vec(),
        3,
    );
    assert_eq!(memory.bytes, vec![0xaa, 0xaa, b'w', b'x', b'y', 0xaa, 0xaa, 0xaa]);
    NativeWasiAdapter::<Script<Bytes>>::write_to_buf(
        &mut memory,
        WasmSlicePtr::new(2),
        4,
        &b"wxyz".to_vec(),
        9,
    );
    assert_eq!(memory.bytes, vec![0xaa, 0xaa, b'w', b'x', b'y', b'z', 0xaa, 0xaa]);
}

fn entries() -> Vec<(u8, Vec<u8>)> {
    vec![
        (3, b".".to_vec()),
        (3, b"..".to_vec()),
        (4, b"readme.txt".to_vec()),
        (4, b"".to_vec()),
        (7, b"link".to_vec()),
    ]
}

fn parse(bytes: &[u8]) -> Vec<(u64, u64, u8, Vec<u8>)> {
    let mut found = Vec::new();
    let mut at = 0;
    while at < bytes.len() {
        let header = native::dirent::read(&bytes[at..at + 24]);
        assert_eq!(&bytes[at + 21..at + 24], &[0, 0, 0]);
        let end = at + 24 + header.d_namlen as usize;
        found.push((header.d_next, header.d_ino, header.d_type, bytes[at + 24..end].to_vec()));
        at = end;
    }
    assert_eq!(at, bytes.len());
    found
}

#[test]
fn a_directory_is_read_in_whole_entries() {
    let mut adapter = adapter();
    adapter.0.directory = entries();
    let mut memory = memory(256);
    let (errno, size) = adapter.fd_readdir(&mut memory, 3, WasmSlicePtr::new(8), 200, 0);
    assert_eq!(errno, 0);
    assert_eq!(size, 5 * 24 + 1 + 2 + 10 + 0 + 4);
    let found = parse(&memory.bytes[8..8 + size as usize]);
    assert_eq!(
        found,
        vec![
            (1, 100, 3, b".".to_vec()),
            (2, 101, 3, b"..".to_vec()),
            (3, 102, 4, b"readme.txt".to_vec()),
            (4, 103, 4, b"".to_vec()),
            (5, 104, 7, b"link".to_vec()),
        ]
    );
    assert!(memory.bytes[..8].iter().all(|byte| *byte == 0xaa));
    assert!(memory.bytes[8 + size as usize..].iter().all(|byte| *byte == 0xaa));
    let (errno, size) = adapter.fd_readdir(&mut memory, 3, WasmSlicePtr::new(8), 200, 5);
    assert_eq!((errno, size), (0, 0));
}

#[test]
fn an_entry_that_does_not_fit_is_not_written() {
    let mut adapter = adapter();
    adapter.0.directory = entries();
    for room in [0u32, 1, 23, 24] {
        let mut memory = memory(64);
        assert_eq!(adapter.fd_readdir(&mut memory, 3, WasmSlicePtr::new(0), room, 0), (0, 0));
        assert!(memory.bytes.iter().all(|byte| *byte == 0xaa));
    }
    let mut memory = memory(64);
    assert_eq!(adapter.fd_readdir(&mut memory, 3, WasmSlicePtr::new(0), 25, 0), (0, 25));
    assert_eq!(parse(&memory.bytes[..25]), vec![(1, 100, 3, b".".to_vec())]);
    assert!(memory.bytes[25..].iter().all(|byte| *byte == 0xaa));
    let mut memory = GuestMemory::new(vec![0xaa; 64]);
    assert_eq!(adapter.fd_readdir(&mut memory, 3, WasmSlicePtr::new(0), 50, 0), (0, 25));
    assert!(memory.bytes[25..].iter().all(|byte| *byte == 0xaa));
    let mut memory = GuestMemory::new(vec![0xaa; 64]);
    assert_eq!(adapter.fd_readdir(&mut memory, 3, WasmSlicePtr::new(0), 51, 0), (0, 51));
    assert_eq!(parse(&memory.bytes[..51]).len(), 2);
    let mut memory = GuestMemory::new(vec![0xaa; 64]);
    assert_eq!(adapter.fd_readdir(&mut memory, 3, WasmSlicePtr::new(0), 33, 2), (0, 0));
    assert_eq!(adapter.fd_readdir(&mut memory, 3, WasmSlicePtr::new(0), 24, 3), (0, 24));
    assert_eq!(parse(&memory.bytes[..24]), vec![(4, 103, 4, Vec::new())]);
}

#[test]
fn paging_lists_every_entry_once() {
    let mut adapter = adapter();
    adapter.0.directory = entries();
    for room in [34u32, 35, 40, 58, 59, 61, 100, 143, 1000] {
        let mut cookie = 0;
        let mut all = Vec::new();
        loop {
            let mut memory = GuestMemory::new(vec![0xaa; 1024]);
            let (errno, size) = adapter.fd_readdir(
                &mut memory,
                3,
                WasmSlicePtr::new(16),
                room,
                cookie,
            );
            assert_eq!(errno, 0);
            assert!(size <= room);
            assert!(memory.bytes[..16].iter().all(|byte| *byte == 0xaa));
            assert!(memory.bytes[16 + size as usize..].iter().all(|byte| *byte == 0xaa));
            if size == 0 {
                break;
            }
            let page = parse(&memory.bytes[16..16 + size as usize]);
            cookie = page.last().unwrap().0;
            all.extend(page);
        }
        let names: Vec<Vec<u8>> = all.iter().map(|entry| entry.3.clone()).collect();
        let expected: Vec<Vec<u8>> = entries().into_iter().map(|entry| entry.1).collect();
        assert_eq!(names, expected, "with room for {} bytes", room);
        let inodes: Vec<u64> = all.iter().map(|entry| entry.1).collect();
        assert_eq!(inodes, vec![100, 101, 102, 103, 104]);
    }
}

#[test]
fn an_error_of_the_directory_ends_the_call() {
    let mut adapter = adapter();
    adapter.0.directory = entries();
    adapter.0.directory_error = Some((2, Errno::Io));
    let mut memory = memory(256);
    assert_eq!(adapter.fd_readdir(&mut memory, 3, WasmSlicePtr::new(0), 200, 0), (29, 0));
    assert_eq!(parse(&memory.bytes[..51]).len(), 2);
    assert!(memory.bytes[51..].iter().all(|byte| *byte == 0xaa));
    assert_eq!(adapter.fd_readdir(&mut memory, 3, WasmSlicePtr::new(0), 51, 0), (0, 51));
    adapter.0.directory_error = Some((0, Errno::Notcapable));
    assert_eq!(adapter.fd_readdir(&mut memory, 3, WasmSlicePtr::new(0), 200, 0), (76, 0));
    assert_eq!(adapter.fd_readdir(&mut memory, 3, WasmSlicePtr::new(0), 0, 0), (0, 0));
    adapter.0.directory_error = Some((0, Errno::Badf));
    assert_eq!(adapter.fd_readdir(&mut memory, 3, WasmSlicePtr::new(0), 200, 0), (8, 0));
}

#[test]
fn one_entry_is_packed_at_an_offset() {
    let mut memory = memory(64);
    let entry = Dirent {
        d_next: Dircookie(9),
        d_ino: Inode(8),
        d_namlen: Dirnamlen(3),
        d_type: Filetype::Directory,
    };
    let packed = NativeWasiAdapter::<Script<Bytes>>::pack_dirent(
        &mut memory,
        WasmSlicePtr::new(4),
        40,
        10,
        entry,
        b"abc",
    );
    assert_eq!(packed, Some(37));
    assert_eq!(parse(&memory.bytes[14..41]), vec![(9, 8, 3, b"abc".to_vec())]);
    assert!(memory.bytes[..14].iter().all(|byte| *byte == 0xaa));
    assert!(memory.bytes[41..].iter().all(|byte| *byte == 0xaa));
    let packed = NativeWasiAdapter::<Script<Bytes>>::pack_dirent(
        &mut memory,
        WasmSlicePtr::new(4),
        40,
        14,
        entry,
        b"abc",
    );
    assert_eq!(packed, None);
    let packed = NativeWasiAdapter::<Script<Bytes>>::pack_dirent(
        &mut memory,
        WasmSlicePtr::new(4),
        40,
        13,
        entry,
        b"abc",
    );
    assert_eq!(packed, Some(40));
}

#[test]
fn the_name_of_a_preopened_directory() {
    let mut adapter = adapter();
    let mut memory = memory(32);
    assert_eq!(adapter.fd_prestat_dir_name(&mut memory, 3, WasmSlicePtr::new(4), 8), 8);
    adapter.0.dirname = Ok(b"/sandbox".to_vec());
    assert_eq!(adapter.fd_prestat_dir_name(&mut memory, 3, WasmSlicePtr::new(4), 7), 61);
    assert!(memory.bytes.iter().all(|byte| *byte == 0xaa));
    assert_eq!(adapter.fd_prestat_dir_name(&mut memory, 3, WasmSlicePtr::new(4), 8), 0);
    assert_eq!(&memory.bytes[4..12], b"/sandbox");
    assert!(memory.bytes[12..].iter().all(|byte| *byte == 0xaa));
    let mut memory = GuestMemory::new(vec![0xaa; 32]);
    assert_eq!(adapter.fd_prestat_dir_name(&mut memory, 3, WasmSlicePtr::new(4), 20), 0);
    assert_eq!(&memory.bytes[4..12], b"/sandbox");
    assert!(memory.bytes[12..].iter().all(|byte| *byte == 0xaa));
    adapter.0.dirname = Ok(Vec::new());
    assert_eq!(adapter.fd_prestat_dir_name(&mut memory, 3, WasmSlicePtr::new(32), 0), 0);
}

#[test]
fn a_link_is_cut_to_the_buffer() {
    let mut adapter = adapter();
    adapter.0.link = b"target/of/link".to_vec();
    let mut memory = memory(64);
    memory.bytes[0..4].copy_from_slice(b"path");
    let answer = adapter.path_readlink(
        &mut memory,
        3,
        WasmSlicePtr::new(0),
        4,
        WasmSlicePtr::new(16),
        6,
    );
    assert_eq!(answer, (0, 6));
    assert_eq!(&memory.bytes[16..22], b"target");
    assert!(memory.bytes[22..].iter().all(|byte| *byte == 0xaa));
    let answer = adapter.path_readlink(
        &mut memory,
        3,
        WasmSlicePtr::new(0),
        4,
        WasmSlicePtr::new(16),
        40,
    );
    assert_eq!(answer, (0, 14));
    assert_eq!(&memory.bytes[16..30], b"target/of/link");
    assert!(memory.bytes[30..].iter().all(|byte| *byte == 0xaa));
    let answer = adapter.path_readlink(
        &mut memory,
        3,
        WasmSlicePtr::new(0),
        4,
        WasmSlicePtr::new(60),
        0,
    );
    assert_eq!(answer, (0, 0));
    assert_eq!(
        NativeWasiAdapter::<Script<Bytes>>::write_link(
            &mut memory,
            WasmSlicePtr::new(40),
            2,
            b"xyz",
        ),
        (0, 2)
    );
    assert_eq!(&memory.bytes[40..43], &[b'x', b'y', 0xaa]);
    assert_eq!(
        NativeWasiAdapter::<Script<Bytes>>::write_dirname(
            &mut memory,
            WasmSlicePtr::new(50),
            2,
            b"xyz",
        ),
        61
    );
    assert_eq!(
        NativeWasiAdapter::<Script<Bytes>>::write_dirname(
            &mut memory,
            WasmSlicePtr::new(50),
            3,
            b"xyz",
        ),
        0
    );
    assert_eq!(&memory.bytes[50..53], b"xyz");
}

fn put_subscription(memory: &mut GuestMemory, at: usize, userdata: u64, tag: u8, fd: u32) {
    for byte in memory.bytes[at..at + 48].iter_mut() {
        *byte = 0;
    }
    memory.bytes[at..at + 8].copy_from_slice(&userdata.to_le_bytes());
    memory.bytes[at + 8] = tag;
    memory.bytes[at + 16..at + 20].copy_from_slice(&fd.to_le_bytes());
}

#[test]
fn events_are_cut_to_the_subscriptions() {
    let mut adapter = adapter();
    adapter.0.events = 5;
    let mut memory = memory(512);
    put_subscription(&mut memory, 0, 1, 1, 4);
    put_subscription(&mut memory, 48, 2, 2, 5);
    let answer = adapter.poll_oneoff(&mut memory, WasmSlicePtr::new(0), WasmSlicePtr::new(128), 2);
    assert_eq!(answer, (0, 2));
    assert_eq!(adapter.0.subscriptions.get(), 2);
    let first = native::event::read(&memory.bytes[128..160]);
    assert_eq!(first.userdata, 10);
    assert_eq!(first.type_, 1);
    let second = native::event::read(&memory.bytes[160..192]);
    assert_eq!(second.userdata, 11);
    assert_eq!(second.fd_readwrite.nbytes, 1);
    assert!(memory.bytes[192..].iter().all(|byte| *byte == 0xaa));
    adapter.0.events = 1;
    let mut memory = GuestMemory::new(memory.bytes[..128].to_vec());
    memory.bytes.extend(vec![0xaa; 128]);
    let answer = adapter.poll_oneoff(&mut memory, WasmSlicePtr::new(0), WasmSlicePtr::new(128), 2);
    assert_eq!(answer, (0, 1));
    assert!(memory.bytes[160..].iter().all(|byte| *byte == 0xaa));
    let answer = adapter.poll_oneoff(&mut memory, WasmSlicePtr::new(0), WasmSlicePtr::new(128), 0);
    assert_eq!(answer, (0, 0));
}

#[test]
fn a_subscription_that_does_not_convert_is_invalid() {
    let mut adapter = adapter();
    adapter.0.events = 5;
    let mut memory = memory(256);
    put_subscription(&mut memory, 0, 1, 1, 4);
    put_subscription(&mut memory, 48, 2, 3, 5);
    let before = memory.bytes.clone();
    let answer = adapter.poll_oneoff(&mut memory, WasmSlicePtr::new(0), WasmSlicePtr::new(128), 2);
    assert_eq!(answer, (28, 0));
    assert_eq!(memory.bytes, before);
    assert_eq!(adapter.0.calls.get(), 0);
    let read = NativeWasiAdapter::<Script<Bytes>>::read_subscriptions(
        &memory,
        WasmSlicePtr::new(0),
        2,
    );
    assert!(read.is_err());
    let read = NativeWasiAdapter::<Script<Bytes>>::read_subscriptions(
        &memory,
        WasmSlicePtr::new(0),
        1,
    );
    assert_eq!(read.unwrap().len(), 1);
    memory.bytes[8] = 0;
    memory.bytes[16] = 9;
    let read = NativeWasiAdapter::<Script<Bytes>>::read_subscriptions(
        &memory,
        WasmSlicePtr::new(0),
        1,
    );
    assert!(read.is_err());
}

#[test]
fn random_data_fills_the_whole_region() {
    let mut adapter = adapter();
    let mut memory = memory(32);
    assert_eq!(adapter.random_get(&mut memory, WasmSlicePtr::new(8), 16), 0);
    for i in 0..16u8 {
        assert_eq!(memory.bytes[8 + i as usize], i ^ 0x5a);
    }
    assert!(memory.bytes[..8].iter().all(|byte| *byte == 0xaa));
    assert!(memory.bytes[24..].iter().all(|byte| *byte == 0xaa));
    adapter.0.input_error = Some(Errno::Io);
    let mut memory = GuestMemory::new(vec![0xaa; 32]);
    assert_eq!(adapter.random_get(&mut memory, WasmSlicePtr::new(8), 4), 29);
    assert_eq!(&memory.bytes[8..12], &[0x5a, 0x5b, 0x58, 0x59]);
    assert_eq!(adapter.random_get(&mut memory, WasmSlicePtr::new(32), 0), 29);
}

#[test]
fn the_exit_code_is_the_one_way_out() {
    let adapter = adapter();
    assert_eq!(adapter.proc_exit(0), Err(0));
    assert_eq!(adapter.proc_exit(42), Err(42));
    assert_eq!(adapter.proc_exit(u32::MAX), Err(u32::MAX));
}
