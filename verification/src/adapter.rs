//! The syscall dispatch adapter: one entry point per WASI function, on native
//! values and guest memory.
//!
//! An entry point converts its arguments to rich values, asks the host, and
//! converts the answer back. An argument that does not convert ends the call
//! with `inval` before the host is asked.

use vstd::prelude::*;
use crate::buffers::{
    buffer_bytes, ciovec_array, filled, fresh, gathered, in_regions, iovec_array,
    lemma_filled_frame, lemma_handed_back, lemma_reached, regions_fit, scattered, sources_fit,
    strings_fit, strings_size, subscribed, subscription_array,
};
use crate::dirents::zeros;
use crate::imports::WasiImports;
use crate::native;
use crate::ptr::{stored, GuestMemory, WasmSlicePtr, WasmValuePtr};
use crate::records::{Event, Fdstat, Filestat, Prestat, Subscription};
use crate::string_representation::{wire_strings, StringRepresentation};
use crate::types::{
    Advice, Clockid, Errno, Exitcode, Fd, Fdflags, Filedelta, Filesize, Fstflags, Lookupflags,
    Oflags, Riflags, Rights, Roflags, Sdflags, Siflags, Signal, Size, Timestamp, WasiResult, Whence,
};
use crate::value::WasiValue;
use crate::wire::{splice, WasmValue};

verus! {

/// The host's operations as the guest calls them.
pub struct NativeWasiAdapter<T: WasiImports>(pub T);

/// The status code of a result without a value.
pub open spec fn status0(result: WasiResult<()>) -> native::errno {
    match result {
        Ok(_) => native::ERRNO_SUCCESS,
        Err(error) => error.lower(),
    }
}

/// The status code and the native value of a result. An error comes with
/// the blank value.
pub open spec fn status1<V: WasiValue>(result: WasiResult<V>) -> (native::errno, V::NativeType) {
    match result {
        Ok(value) => (native::ERRNO_SUCCESS, value.lower()),
        Err(error) => (error.lower(), V::NativeType::blank()),
    }
}

/// The status code and the native values of a result of two values. An
/// error comes with blank values.
pub open spec fn status2<V: WasiValue, W: WasiValue>(result: WasiResult<(V, W)>) -> (
    native::errno,
    V::NativeType,
    W::NativeType,
) {
    match result {
        Ok((first, second)) => (native::ERRNO_SUCCESS, first.lower(), second.lower()),
        Err(error) => (error.lower(), V::NativeType::blank(), W::NativeType::blank()),
    }
}

/// Turns a result without a value into its status code.
pub fn to_result0(result: WasiResult<()>) -> (errno: native::errno)
    ensures
        errno == status0(result),
{
    match result {
        Ok(_) => native::ERRNO_SUCCESS,
        Err(error) => error.to_native(),
    }
}

/// Turns a result into its status code and its native value.
pub fn to_result1<V: WasiValue>(result: WasiResult<V>) -> (answer: (native::errno, V::NativeType))
    ensures
        answer == status1(result),
        answer.1.writable(),
{
    match result {
        Ok(value) => (native::ERRNO_SUCCESS, value.to_native()),
        Err(error) => (error.to_native(), V::NativeType::blank_value()),
    }
}

/// Turns a result of two values into its status code and its native values.
pub fn to_result2<V: WasiValue, W: WasiValue>(result: WasiResult<(V, W)>) -> (answer: (
    native::errno,
    V::NativeType,
    W::NativeType,
))
    ensures
        answer == status2(result),
        answer.1.writable(),
        answer.2.writable(),
{
    match result {
        Ok((first, second)) => (native::ERRNO_SUCCESS, first.to_native(), second.to_native()),
        Err(error) => (
            error.to_native(),
            V::NativeType::blank_value(),
            W::NativeType::blank_value(),
        ),
    }
}

/// What a call without a value returns for an argument that does not
/// convert.
pub fn invalid0() -> (errno: native::errno)
    ensures
        errno == native::ERRNO_INVAL,
        errno == status0(Err(Errno::Inval)),
{
    native::ERRNO_INVAL
}

/// What a call with a value returns for an argument that does not convert.
pub fn invalid1<V: WasiValue>() -> (answer: (native::errno, V::NativeType))
    ensures
        answer == (native::ERRNO_INVAL, V::NativeType::blank()),
        answer == status1::<V>(Err(Errno::Inval)),
        answer.1.writable(),
{
    (native::ERRNO_INVAL, V::NativeType::blank_value())
}

/// What a call with two values returns for an argument that does not
/// convert.
pub fn invalid2<V: WasiValue, W: WasiValue>() -> (answer: (
    native::errno,
    V::NativeType,
    W::NativeType,
))
    ensures
        answer == (native::ERRNO_INVAL, V::NativeType::blank(), W::NativeType::blank()),
        answer == status2::<V, W>(Err(Errno::Inval)),
        answer.1.writable(),
        answer.2.writable(),
{
    (native::ERRNO_INVAL, V::NativeType::blank_value(), W::NativeType::blank_value())
}

/// Hands an answer of a status code and a value to the guest: the value
/// goes to guest memory at `ret`, the status code is returned.
pub fn return1<V: WasmValue>(
    memory: &mut GuestMemory,
    answer: (native::errno, V),
    ret: WasmValuePtr<V>,
) -> (errno: native::errno)
    requires
        ret.in_bounds(old(memory)@.len()),
        answer.1.writable(),
    ensures
        errno == answer.0,
        final(memory)@ == splice(
            old(memory)@,
            ret.offset as int,
            answer.1.store(old(memory)@.subrange(ret.offset as int, ret.offset + V::SIZE)),
        ),
{
    ret.write(memory, answer.1);
    answer.0
}

/// Hands an answer of a status code and two values to the guest: the
/// values go to guest memory, the first at `ret_1` and then the second at
/// `ret_2`, and the status code is returned.
pub fn return2<V: WasmValue, W: WasmValue>(
    memory: &mut GuestMemory,
    answer: (native::errno, V, W),
    ret_1: WasmValuePtr<V>,
    ret_2: WasmValuePtr<W>,
) -> (errno: native::errno)
    requires
        ret_1.in_bounds(old(memory)@.len()),
        ret_2.in_bounds(old(memory)@.len()),
        answer.1.writable(),
        answer.2.writable(),
    ensures
        errno == answer.0,
        final(memory)@ == ({
            let first = splice(
                old(memory)@,
                ret_1.offset as int,
                answer.1.store(old(memory)@.subrange(ret_1.offset as int, ret_1.offset + V::SIZE)),
            );
            splice(
                first,
                ret_2.offset as int,
                answer.2.store(first.subrange(ret_2.offset as int, ret_2.offset + W::SIZE)),
            )
        }),
{
    ret_1.write(memory, answer.1);
    ret_2.write(memory, answer.2);
    answer.0
}

/// How many bytes a read hands to the guest: as many as it says, and none
/// where it failed.
pub open spec fn read_size(errno: native::errno, size: native::size) -> nat {
    if errno == native::ERRNO_SUCCESS {
        size as nat
    } else {
        0
    }
}

/// A guest that asks for the sizes of the strings, and then hands in a
/// table of that many addresses and a buffer of that size, both inside its
/// memory, has handed in what the strings fit into: they are written, and
/// no byte outside the table and the buffer changes.
pub proof fn lemma_sizes_then_fill(memory: Seq<u8>, strings: Seq<Seq<u8>>, ptrs: int, buf: int)
    requires
        strings_size(strings, strings.len()) <= u32::MAX,
        0 <= ptrs,
        0 <= buf,
        ptrs + 4 * strings.len() <= memory.len(),
        buf + strings_size(strings, strings.len()) <= memory.len(),
        memory.len() <= 0x1_0000_0000,
    ensures
        strings_fit(memory.len(), strings, ptrs, buf),
        filled(memory, strings, ptrs, buf, strings.len()).len() == memory.len(),
        forall|i: int|
            0 <= i < memory.len() && !(ptrs <= i < ptrs + 4 * strings.len()) && !(buf <= i < buf
                + strings_size(strings, strings.len())) ==> #[trigger] filled(
                memory,
                strings,
                ptrs,
                buf,
                strings.len(),
            )[i] == memory[i],
{
    lemma_filled_frame(memory, strings, ptrs, buf, strings.len());
}

impl<T: WasiImports> NativeWasiAdapter<T> {
    /// Writes the command-line arguments to guest memory: the strings into the buffer at
    /// `argv_buf`, each followed by a NUL byte, and the address of each into
    /// the table at `argv`. An error of the host is handed on. Where the
    /// strings do not fit the memory nothing is written, and nothing is
    /// returned.
    pub fn args_get(
        &self,
        memory: &mut GuestMemory,
        argv: WasmSlicePtr<WasmSlicePtr<u8>>,
        argv_buf: WasmSlicePtr<u8>,
    ) -> (outcome: Option<native::errno>)
        ensures
            (exists|strings: WasiResult<&[T::StringRepresentation]>|
                {
                    &&& #[trigger] call_ensures(T::args_get, (&self.0,), strings)
                    &&& match strings {
                        Ok(list) => if strings_fit(
                            old(memory)@.len(),
                            wire_strings(list@),
                            argv.offset as int,
                            argv_buf.offset as int,
                        ) {
                            &&& outcome == Some(native::ERRNO_SUCCESS)
                            &&& final(memory)@ == filled(
                                old(memory)@,
                                wire_strings(list@),
                                argv.offset as int,
                                argv_buf.offset as int,
                                list@.len(),
                            )
                        } else {
                            &&& outcome is None
                            &&& final(memory)@ == old(memory)@
                        },
                        Err(error) => {
                            &&& outcome == Some(error.lower())
                            &&& final(memory)@ == old(memory)@
                        },
                    }
                }),
    {
        let strings = self.0.args_get();
        if let Ok(list) = strings {
            if !Self::strings_fit_memory(list, memory, argv, argv_buf) {
                return None;
            }
        }
        Some(Self::fill_bufs(strings, memory, argv, argv_buf))
    }

    /// Returns the number of the command-line arguments and the size of the buffer that holds
    /// them, each followed by a NUL byte. An error of the host is handed on.
    /// Where a number does not fit into 32 bits nothing is returned.
    pub fn args_sizes_get(&self) -> (outcome: Option<(native::errno, native::size, native::size)>)
        ensures
            (exists|strings: WasiResult<&[T::StringRepresentation]>|
                {
                    &&& #[trigger] call_ensures(T::args_get, (&self.0,), strings)
                    &&& match strings {
                        Ok(list) => if strings_size(wire_strings(list@), list@.len()) <= u32::MAX {
                            outcome == Some(
                                (
                                    native::ERRNO_SUCCESS,
                                    list@.len() as u32,
                                    strings_size(wire_strings(list@), list@.len()) as u32,
                                ),
                            )
                        } else {
                            outcome is None
                        },
                        Err(error) => outcome == Some((error.lower(), 0u32, 0u32)),
                    }
                }),
    {
        let strings = self.0.args_get();
        if let Ok(list) = strings {
            if Self::checked_sizes(list).is_none() {
                return None;
            }
        }
        Some(Self::to_sizes(strings))
    }

    /// Writes the environment to guest memory: the strings into the buffer at
    /// `environ_buf`, each followed by a NUL byte, and the address of each into
    /// the table at `environ`. An error of the host is handed on. Where the
    /// strings do not fit the memory nothing is written, and nothing is
    /// returned.
    pub fn environ_get(
        &self,
        memory: &mut GuestMemory,
        environ: WasmSlicePtr<WasmSlicePtr<u8>>,
        environ_buf: WasmSlicePtr<u8>,
    ) -> (outcome: Option<native::errno>)
        ensures
            (exists|strings: WasiResult<&[T::StringRepresentation]>|
                {
                    &&& #[trigger] call_ensures(T::environ_get, (&self.0,), strings)
                    &&& match strings {
                        Ok(list) => if strings_fit(
                            old(memory)@.len(),
                            wire_strings(list@),
                            environ.offset as int,
                            environ_buf.offset as int,
                        ) {
                            &&& outcome == Some(native::ERRNO_SUCCESS)
                            &&& final(memory)@ == filled(
                                old(memory)@,
                                wire_strings(list@),
                                environ.offset as int,
                                environ_buf.offset as int,
                                list@.len(),
                            )
                        } else {
                            &&& outcome is None
                            &&& final(memory)@ == old(memory)@
                        },
                        Err(error) => {
                            &&& outcome == Some(error.lower())
                            &&& final(memory)@ == old(memory)@
                        },
                    }
                }),
    {
        let strings = self.0.environ_get();
        if let Ok(list) = strings {
            if !Self::strings_fit_memory(list, memory, environ, environ_buf) {
                return None;
            }
        }
        Some(Self::fill_bufs(strings, memory, environ, environ_buf))
    }

    /// Returns the number of the environment entries and the size of the buffer that holds
    /// them, each followed by a NUL byte. An error of the host is handed on.
    /// Where a number does not fit into 32 bits nothing is returned.
    pub fn environ_sizes_get(
        &self,
    ) -> (outcome: Option<(native::errno, native::size, native::size)>)
        ensures
            (exists|strings: WasiResult<&[T::StringRepresentation]>|
                {
                    &&& #[trigger] call_ensures(T::environ_get, (&self.0,), strings)
                    &&& match strings {
                        Ok(list) => if strings_size(wire_strings(list@), list@.len()) <= u32::MAX {
                            outcome == Some(
                                (
                                    native::ERRNO_SUCCESS,
                                    list@.len() as u32,
                                    strings_size(wire_strings(list@), list@.len()) as u32,
                                ),
                            )
                        } else {
                            outcome is None
                        },
                        Err(error) => outcome == Some((error.lower(), 0u32, 0u32)),
                    }
                }),
    {
        let strings = self.0.environ_get();
        if let Ok(list) = strings {
            if Self::checked_sizes(list).is_none() {
                return None;
            }
        }
        Some(Self::to_sizes(strings))
    }


    /// Returns the resolution of a clock.
    pub fn clock_res_get(
        &self,
        id: native::clockid,
    ) -> (answer: (native::errno, native::timestamp))
        ensures
            !(Clockid::lift(id) is Some) ==> answer == status1::<Timestamp>(Err(Errno::Inval)),
            (Clockid::lift(id) is Some) ==> (exists|
                id_value: Clockid,
                result: WasiResult<Timestamp>,
            |
                {
                    &&& Clockid::lift(id) == Some(id_value)
                    &&& #[trigger] call_ensures(T::clock_res_get, (&self.0, id_value), result)
                    &&& answer == status1(result)
                }),
            answer.1.writable(),
    {
        let id = match Clockid::from_native(id) {
            Ok(value) => value,
            Err(_) => return invalid1::<Timestamp>(),
        };
        to_result1(self.0.clock_res_get(id))
    }

    /// Returns the time value of a clock.
    pub fn clock_time_get(
        &self,
        id: native::clockid,
        precision: native::timestamp,
    ) -> (answer: (native::errno, native::timestamp))
        ensures
            !(Clockid::lift(id) is Some) ==> answer == status1::<Timestamp>(Err(Errno::Inval)),
            (Clockid::lift(id) is Some) ==> (exists|
                id_value: Clockid,
                result: WasiResult<Timestamp>,
            |
                {
                    &&& Clockid::lift(id) == Some(id_value)
                    &&& #[trigger] call_ensures(
                        T::clock_time_get,
                        (&self.0, id_value, Timestamp(precision)),
                        result,
                    )
                    &&& answer == status1(result)
                }),
            answer.1.writable(),
    {
        let id = match Clockid::from_native(id) {
            Ok(value) => value,
            Err(_) => return invalid1::<Timestamp>(),
        };
        let precision = match Timestamp::from_native(precision) {
            Ok(value) => value,
            Err(_) => return invalid1::<Timestamp>(),
        };
        to_result1(self.0.clock_time_get(id, precision))
    }

    /// Provides file advisory information on a file descriptor.
    pub fn fd_advise(
        &self,
        fd: native::fd,
        offset: native::filesize,
        len: native::filesize,
        advice: native::advice,
    ) -> (errno: native::errno)
        ensures
            !(Advice::lift(advice) is Some) ==> errno == native::ERRNO_INVAL,
            (Advice::lift(advice) is Some) ==> (exists|advice_value: Advice, result: WasiResult<()>|
                {
                    &&& Advice::lift(advice) == Some(advice_value)
                    &&& #[trigger] call_ensures(
                        T::fd_advise,
                        (&self.0, Fd(fd), Filesize(offset), Filesize(len), advice_value),
                        result,
                    )
                    &&& errno == status0(result)
                }),
    {
        let fd = match Fd::from_native(fd) {
            Ok(value) => value,
            Err(_) => return invalid0(),
        };
        let offset = match Filesize::from_native(offset) {
            Ok(value) => value,
            Err(_) => return invalid0(),
        };
        let len = match Filesize::from_native(len) {
            Ok(value) => value,
            Err(_) => return invalid0(),
        };
        let advice = match Advice::from_native(advice) {
            Ok(value) => value,
            Err(_) => return invalid0(),
        };
        to_result0(self.0.fd_advise(fd, offset, len, advice))
    }

    /// Forces the allocation of space in a file.
    pub fn fd_allocate(
        &self,
        fd: native::fd,
        offset: native::filesize,
        len: native::filesize,
    ) -> (errno: native::errno)
        ensures
            (exists|result: WasiResult<()>|
                {
                    &&& #[trigger] call_ensures(
                        T::fd_allocate,
                        (&self.0, Fd(fd), Filesize(offset), Filesize(len)),
                        result,
                    )
                    &&& errno == status0(result)
                }),
    {
        let fd = match Fd::from_native(fd) {
            Ok(value) => value,
            Err(_) => return invalid0(),
        };
        let offset = match Filesize::from_native(offset) {
            Ok(value) => value,
            Err(_) => return invalid0(),
        };
        let len = match Filesize::from_native(len) {
            Ok(value) => value,
            Err(_) => return invalid0(),
        };
        to_result0(self.0.fd_allocate(fd, offset, len))
    }

    /// Closes a file descriptor.
    pub fn fd_close(
        &self,
        fd: native::fd,
    ) -> (errno: native::errno)
        ensures
            (exists|result: WasiResult<()>|
                {
                    &&& #[trigger] call_ensures(T::fd_close, (&self.0, Fd(fd)), result)
                    &&& errno == status0(result)
                }),
    {
        let fd = match Fd::from_native(fd) {
            Ok(value) => value,
            Err(_) => return invalid0(),
        };
        to_result0(self.0.fd_close(fd))
    }

    /// Synchronizes the data of a file to disk.
    pub fn fd_datasync(
        &self,
        fd: native::fd,
    ) -> (errno: native::errno)
        ensures
            (exists|result: WasiResult<()>|
                {
                    &&& #[trigger] call_ensures(T::fd_datasync, (&self.0, Fd(fd)), result)
                    &&& errno == status0(result)
                }),
    {
        let fd = match Fd::from_native(fd) {
            Ok(value) => value,
            Err(_) => return invalid0(),
        };
        to_result0(self.0.fd_datasync(fd))
    }

    /// Gets the attributes of a file descriptor.
    pub fn fd_fdstat_get(
        &self,
        fd: native::fd,
    ) -> (answer: (native::errno, native::fdstat))
        ensures
            (exists|result: WasiResult<Fdstat>|
                {
                    &&& #[trigger] call_ensures(T::fd_fdstat_get, (&self.0, Fd(fd)), result)
                    &&& answer == status1(result)
                }),
            answer.1.writable(),
    {
        let fd = match Fd::from_native(fd) {
            Ok(value) => value,
            Err(_) => return invalid1::<Fdstat>(),
        };
        to_result1(self.0.fd_fdstat_get(fd))
    }

    /// Adjusts the flags associated with a file descriptor.
    pub fn fd_fdstat_set_flags(
        &self,
        fd: native::fd,
        flags: native::fdflags,
    ) -> (errno: native::errno)
        ensures
            !(Fdflags::lift(flags) is Some) ==> errno == native::ERRNO_INVAL,
            (Fdflags::lift(flags) is Some) ==> (exists|flags_value: Fdflags, result: WasiResult<()>|
                {
                    &&& Fdflags::lift(flags) == Some(flags_value)
                    &&& #[trigger] call_ensures(
                        T::fd_fdstat_set_flags,
                        (&self.0, Fd(fd), flags_value),
                        result,
                    )
                    &&& errno == status0(result)
                }),
    {
        let fd = match Fd::from_native(fd) {
            Ok(value) => value,
            Err(_) => return invalid0(),
        };
        let flags = match Fdflags::from_native(flags) {
            Ok(value) => value,
            Err(_) => return invalid0(),
        };
        to_result0(self.0.fd_fdstat_set_flags(fd, flags))
    }

    /// Adjusts the rights associated with a file descriptor.
    pub fn fd_fdstat_set_rights(
        &self,
        fd: native::fd,
        fs_rights_base: native::rights,
        fs_rights_inheriting: native::rights,
    ) -> (errno: native::errno)
        ensures
            !({
                &&& Rights::lift(fs_rights_base) is Some
                &&& Rights::lift(fs_rights_inheriting) is Some
            }) ==> errno == native::ERRNO_INVAL,
            ({
                &&& Rights::lift(fs_rights_base) is Some
                &&& Rights::lift(fs_rights_inheriting) is Some
            }) ==> exists|
                fs_rights_base_value: Rights,
                fs_rights_inheriting_value: Rights,
                result: WasiResult<()>,
            |
                {
                    &&& Rights::lift(fs_rights_base) == Some(fs_rights_base_value)
                    &&& Rights::lift(fs_rights_inheriting) == Some(fs_rights_inheriting_value)
                    &&& #[trigger] call_ensures(
                        T::fd_fdstat_set_rights,
                        (&self.0, Fd(fd), fs_rights_base_value, fs_rights_inheriting_value),
                        result,
                    )
                    &&& errno == status0(result)
                },
    {
        let fd = match Fd::from_native(fd) {
            Ok(value) => value,
            Err(_) => return invalid0(),
        };
        let fs_rights_base = match Rights::from_native(fs_rights_base) {
            Ok(value) => value,
            Err(_) => return invalid0(),
        };
        let fs_rights_inheriting = match Rights::from_native(fs_rights_inheriting) {
            Ok(value) => value,
            Err(_) => return invalid0(),
        };
        to_result0(self.0.fd_fdstat_set_rights(fd, fs_rights_base, fs_rights_inheriting))
    }

    /// Returns the attributes of an open file.
    pub fn fd_filestat_get(
        &self,
        fd: native::fd,
    ) -> (answer: (native::errno, native::filestat))
        ensures
            (exists|result: WasiResult<Filestat>|
                {
                    &&& #[trigger] call_ensures(T::fd_filestat_get, (&self.0, Fd(fd)), result)
                    &&& answer == status1(result)
                }),
            answer.1.writable(),
    {
        let fd = match Fd::from_native(fd) {
            Ok(value) => value,
            Err(_) => return invalid1::<Filestat>(),
        };
        to_result1(self.0.fd_filestat_get(fd))
    }

    /// Adjusts the size of an open file.
    pub fn fd_filestat_set_size(
        &self,
        fd: native::fd,
        size: native::filesize,
    ) -> (errno: native::errno)
        ensures
            (exists|result: WasiResult<()>|
                {
                    &&& #[trigger] call_ensures(
                        T::fd_filestat_set_size,
                        (&self.0, Fd(fd), Filesize(size)),
                        result,
                    )
                    &&& errno == status0(result)
                }),
    {
        let fd = match Fd::from_native(fd) {
            Ok(value) => value,
            Err(_) => return invalid0(),
        };
        let size = match Filesize::from_native(size) {
            Ok(value) => value,
            Err(_) => return invalid0(),
        };
        to_result0(self.0.fd_filestat_set_size(fd, size))
    }

    /// Adjusts the timestamps of an open file or directory.
    pub fn fd_filestat_set_times(
        &self,
        fd: native::fd,
        atim: native::timestamp,
        mtim: native::timestamp,
        fst_flags: native::fstflags,
    ) -> (errno: native::errno)
        ensures
            !(Fstflags::lift(fst_flags) is Some) ==> errno == native::ERRNO_INVAL,
            (Fstflags::lift(fst_flags) is Some) ==> exists|
                fst_flags_value: Fstflags,
                result: WasiResult<()>,
            |
                {
                    &&& Fstflags::lift(fst_flags) == Some(fst_flags_value)
                    &&& #[trigger] call_ensures(
                        T::fd_filestat_set_times,
                        (&self.0, Fd(fd), Timestamp(atim), Timestamp(mtim), fst_flags_value),
                        result,
                    )
                    &&& errno == status0(result)
                },
    {
        let fd = match Fd::from_native(fd) {
            Ok(value) => value,
            Err(_) => return invalid0(),
        };
        let atim = match Timestamp::from_native(atim) {
            Ok(value) => value,
            Err(_) => return invalid0(),
        };
        let mtim = match Timestamp::from_native(mtim) {
            Ok(value) => value,
            Err(_) => return invalid0(),
        };
        let fst_flags = match Fstflags::from_native(fst_flags) {
            Ok(value) => value,
            Err(_) => return invalid0(),
        };
        to_result0(self.0.fd_filestat_set_times(fd, atim, mtim, fst_flags))
    }

    /// Reads from a file descriptor at `offset` into the regions that `iovs`
    /// lists, without using and updating the descriptor's own offset. Regions
    /// that the read cannot reach stay as they are.
    pub fn fd_pread(
        &self,
        memory: &mut GuestMemory,
        fd: native::fd,
        iovs: WasmSlicePtr<native::iovec>,
        iovs_len: native::size,
        offset: native::filesize,
    ) -> (answer: (native::errno, native::size))
        requires
            iovs.in_bounds(old(memory)@.len(), iovs_len),
            regions_fit(
                iovec_array(iovs, iovs_len).elements(old(memory)@),
                old(memory)@.len(),
            ),
        ensures
            (exists|new: Vec<Vec<u8>>, filled: Vec<Vec<u8>>, result: WasiResult<Size>|
                {
                    &&& fresh(iovec_array(iovs, iovs_len).elements(old(memory)@), new@)
                    &&& #[trigger] call_ensures(
                        T::fd_pread,
                        (&self.0, Fd(fd), new, Filesize(offset)),
                        (result, filled),
                    )
                    &&& answer == status1(result)
                    &&& final(memory)@ == scattered(
                        old(memory)@,
                        iovec_array(iovs, iovs_len).elements(old(memory)@),
                        buffer_bytes(filled@),
                        read_size(answer.0, answer.1),
                        iovs_len as nat,
                    )
                }),
            answer.1.writable(),
            final(memory)@.len() == old(memory)@.len(),
            forall|at: int|
                0 <= at < old(memory)@.len() && !in_regions(
                    iovec_array(iovs, iovs_len).elements(old(memory)@),
                    at,
                ) ==> #[trigger] final(memory)@[at] == old(memory)@[at],
    {
        let fd = match Fd::from_native(fd) {
            Ok(value) => value,
            Err(_) => return invalid1::<Size>(),
        };
        let offset = match Filesize::from_native(offset) {
            Ok(value) => value,
            Err(_) => return invalid1::<Size>(),
        };
        let iovecs = iovs.with(memory, iovs_len).read_all(memory);
        let new = Self::new_bufs(&iovecs);
        let ghost given = new@;
        let (result, bufs) = self.0.fd_pread(fd, new, offset);
        let answer = to_result1(result);
        let size: u32 = if answer.0 == native::ERRNO_SUCCESS {
            answer.1
        } else {
            0
        };
        proof {
            lemma_handed_back(iovecs@, given, bufs@);
            lemma_reached(iovecs@, memory@.len(), size);
        }
        Self::write_to_bufs(memory, &iovecs, &bufs, size);
        answer
    }

    /// Returns a description of the given preopened file descriptor.
    pub fn fd_prestat_get(
        &self,
        fd: native::fd,
    ) -> (answer: (native::errno, native::prestat))
        ensures
            (exists|result: WasiResult<Prestat>|
                {
                    &&& #[trigger] call_ensures(T::fd_prestat_get, (&self.0, Fd(fd)), result)
                    &&& answer == status1(result)
                }),
            answer.1.writable(),
    {
        let fd = match Fd::from_native(fd) {
            Ok(value) => value,
            Err(_) => return invalid1::<Prestat>(),
        };
        to_result1(self.0.fd_prestat_get(fd))
    }

    /// Writes the directory name of the given preopened file descriptor to
    /// the region of guest memory at `path`. A name that is longer than the
    /// region is an overflow, and nothing is written. An error of the host
    /// is handed on.
    pub fn fd_prestat_dir_name(
        &self,
        memory: &mut GuestMemory,
        fd: native::fd,
        path: WasmSlicePtr<u8>,
        path_len: native::size,
    ) -> (errno: native::errno)
        requires
            path.offset + path_len <= old(memory)@.len(),
        ensures
            (exists|result: WasiResult<T::StringRepresentation>|
                {
                    &&& #[trigger] call_ensures(T::fd_prestat_dir_name, (&self.0, Fd(fd)), result)
                    &&& match result {
                        Ok(name) => if name.bytes().len() > path_len {
                            &&& errno == native::ERRNO_OVERFLOW
                            &&& final(memory)@ == old(memory)@
                        } else {
                            &&& errno == native::ERRNO_SUCCESS
                            &&& final(memory)@ == splice(
                                old(memory)@,
                                path.offset as int,
                                name.bytes(),
                            )
                        },
                        Err(error) => {
                            &&& errno == error.lower()
                            &&& final(memory)@ == old(memory)@
                        },
                    }
                }),
    {
        let fd = match Fd::from_native(fd) {
            Ok(value) => value,
            Err(_) => return invalid0(),
        };
        let dirname = match self.0.fd_prestat_dir_name(fd) {
            Ok(name) => name,
            Err(error) => {
                return error.to_native();
            },
        };
        Self::write_dirname(memory, path, path_len, dirname.as_bytes())
    }

    /// Writes the regions that `iovs` lists to a file descriptor at `offset`,
    /// without using and updating the descriptor's own offset.
    pub fn fd_pwrite(
        &self,
        memory: &GuestMemory,
        fd: native::fd,
        iovs: WasmSlicePtr<native::ciovec>,
        iovs_len: native::size,
        offset: native::filesize,
    ) -> (answer: (native::errno, native::size))
        requires
            iovs.in_bounds(memory@.len(), iovs_len),
            sources_fit(ciovec_array(iovs, iovs_len).elements(memory@), memory@.len()),
        ensures
            (exists|data: Vec<Vec<u8>>, result: WasiResult<Size>|
                {
                    &&& gathered(ciovec_array(iovs, iovs_len).elements(memory@), memory@, data@)
                    &&& #[trigger] call_ensures(
                        T::fd_pwrite,
                        (&self.0, Fd(fd), &data, Filesize(offset)),
                        result,
                    )
                    &&& answer == status1(result)
                }),
            answer.1.writable(),
    {
        let fd = match Fd::from_native(fd) {
            Ok(value) => value,
            Err(_) => return invalid1::<Size>(),
        };
        let offset = match Filesize::from_native(offset) {
            Ok(value) => value,
            Err(_) => return invalid1::<Size>(),
        };
        let data = Self::read_from_bufs(memory, iovs, iovs_len);
        to_result1(self.0.fd_pwrite(fd, &data, offset))
    }

    /// Reads from a file descriptor into the regions that `iovs` lists. Regions
    /// that the read cannot reach stay as they are.
    pub fn fd_read(
        &self,
        memory: &mut GuestMemory,
        fd: native::fd,
        iovs: WasmSlicePtr<native::iovec>,
        iovs_len: native::size,
    ) -> (answer: (native::errno, native::size))
        requires
            iovs.in_bounds(old(memory)@.len(), iovs_len),
            regions_fit(
                iovec_array(iovs, iovs_len).elements(old(memory)@),
                old(memory)@.len(),
            ),
        ensures
            (exists|new: Vec<Vec<u8>>, filled: Vec<Vec<u8>>, result: WasiResult<Size>|
                {
                    &&& fresh(iovec_array(iovs, iovs_len).elements(old(memory)@), new@)
                    &&& #[trigger] call_ensures(
                        T::fd_read,
                        (&self.0, Fd(fd), new),
                        (result, filled),
                    )
                    &&& answer == status1(result)
                    &&& final(memory)@ == scattered(
                        old(memory)@,
                        iovec_array(iovs, iovs_len).elements(old(memory)@),
                        buffer_bytes(filled@),
                        read_size(answer.0, answer.1),
                        iovs_len as nat,
                    )
                }),
            answer.1.writable(),
            final(memory)@.len() == old(memory)@.len(),
            forall|at: int|
                0 <= at < old(memory)@.len() && !in_regions(
                    iovec_array(iovs, iovs_len).elements(old(memory)@),
                    at,
                ) ==> #[trigger] final(memory)@[at] == old(memory)@[at],
    {
        let fd = match Fd::from_native(fd) {
            Ok(value) => value,
            Err(_) => return invalid1::<Size>(),
        };
        let iovecs = iovs.with(memory, iovs_len).read_all(memory);
        let new = Self::new_bufs(&iovecs);
        let ghost given = new@;
        let (result, bufs) = self.0.fd_read(fd, new);
        let answer = to_result1(result);
        let size: u32 = if answer.0 == native::ERRNO_SUCCESS {
            answer.1
        } else {
            0
        };
        proof {
            lemma_handed_back(iovecs@, given, bufs@);
            lemma_reached(iovecs@, memory@.len(), size);
        }
        Self::write_to_bufs(memory, &iovecs, &bufs, size);
        answer
    }

    /// Atomically replaces a file descriptor by renumbering another file
    /// descriptor.
    pub fn fd_renumber(
        &self,
        fd: native::fd,
        to: native::fd,
    ) -> (errno: native::errno)
        ensures
            (exists|result: WasiResult<()>|
                {
                    &&& #[trigger] call_ensures(T::fd_renumber, (&self.0, Fd(fd), Fd(to)), result)
                    &&& errno == status0(result)
                }),
    {
        let fd = match Fd::from_native(fd) {
            Ok(value) => value,
            Err(_) => return invalid0(),
        };
        let to = match Fd::from_native(to) {
            Ok(value) => value,
            Err(_) => return invalid0(),
        };
        to_result0(self.0.fd_renumber(fd, to))
    }

    /// Moves the offset of a file descriptor.
    pub fn fd_seek(
        &self,
        fd: native::fd,
        offset: native::filedelta,
        whence: native::whence,
    ) -> (answer: (native::errno, native::filesize))
        ensures
            !(Whence::lift(whence) is Some) ==> answer == status1::<Filesize>(Err(Errno::Inval)),
            (Whence::lift(whence) is Some) ==> exists|
                whence_value: Whence,
                result: WasiResult<Filesize>,
            |
                {
                    &&& Whence::lift(whence) == Some(whence_value)
                    &&& #[trigger] call_ensures(
                        T::fd_seek,
                        (&self.0, Fd(fd), Filedelta(offset), whence_value),
                        result,
                    )
                    &&& answer == status1(result)
                },
            answer.1.writable(),
    {
        let fd = match Fd::from_native(fd) {
            Ok(value) => value,
            Err(_) => return invalid1::<Filesize>(),
        };
        let offset = match Filedelta::from_native(offset) {
            Ok(value) => value,
            Err(_) => return invalid1::<Filesize>(),
        };
        let whence = match Whence::from_native(whence) {
            Ok(value) => value,
            Err(_) => return invalid1::<Filesize>(),
        };
        to_result1(self.0.fd_seek(fd, offset, whence))
    }

    /// Synchronizes the data and metadata of a file to disk.
    pub fn fd_sync(
        &self,
        fd: native::fd,
    ) -> (errno: native::errno)
        ensures
            (exists|result: WasiResult<()>|
                {
                    &&& #[trigger] call_ensures(T::fd_sync, (&self.0, Fd(fd)), result)
                    &&& errno == status0(result)
                }),
    {
        let fd = match Fd::from_native(fd) {
            Ok(value) => value,
            Err(_) => return invalid0(),
        };
        to_result0(self.0.fd_sync(fd))
    }

    /// Returns the current offset of a file descriptor.
    pub fn fd_tell(
        &self,
        fd: native::fd,
    ) -> (answer: (native::errno, native::filesize))
        ensures
            (exists|result: WasiResult<Filesize>|
                {
                    &&& #[trigger] call_ensures(T::fd_tell, (&self.0, Fd(fd)), result)
                    &&& answer == status1(result)
                }),
            answer.1.writable(),
    {
        let fd = match Fd::from_native(fd) {
            Ok(value) => value,
            Err(_) => return invalid1::<Filesize>(),
        };
        to_result1(self.0.fd_tell(fd))
    }

    /// Writes the regions that `iovs` lists to a file descriptor.
    pub fn fd_write(
        &self,
        memory: &GuestMemory,
        fd: native::fd,
        iovs: WasmSlicePtr<native::ciovec>,
        iovs_len: native::size,
    ) -> (answer: (native::errno, native::size))
        requires
            iovs.in_bounds(memory@.len(), iovs_len),
            sources_fit(ciovec_array(iovs, iovs_len).elements(memory@), memory@.len()),
        ensures
            (exists|data: Vec<Vec<u8>>, result: WasiResult<Size>|
                {
                    &&& gathered(ciovec_array(iovs, iovs_len).elements(memory@), memory@, data@)
                    &&& #[trigger] call_ensures(T::fd_write, (&self.0, Fd(fd), &data), result)
                    &&& answer == status1(result)
                }),
            answer.1.writable(),
    {
        let fd = match Fd::from_native(fd) {
            Ok(value) => value,
            Err(_) => return invalid1::<Size>(),
        };
        let data = Self::read_from_bufs(memory, iovs, iovs_len);
        to_result1(self.0.fd_write(fd, &data))
    }

    /// Creates a directory.
    pub fn path_create_directory(
        &self,
        memory: &GuestMemory,
        fd: native::fd,
        path: WasmSlicePtr<u8>,
        path_len: native::size,
    ) -> (errno: native::errno)
        requires
            path.offset + path_len <= memory@.len(),
        ensures
            !(T::StringRepresentation::representable(
                memory@.subrange(path.offset as int, path.offset + path_len),
            )) ==> errno == native::ERRNO_INVAL,
            (T::StringRepresentation::representable(
                memory@.subrange(path.offset as int, path.offset + path_len),
            )) ==> (exists|path_string: T::StringRepresentation, result: WasiResult<()>|
                {
                    &&& path_string.bytes() == memory@.subrange(
                        path.offset as int,
                        path.offset + path_len,
                    )
                    &&& #[trigger] call_ensures(
                        T::path_create_directory,
                        (&self.0, Fd(fd), &path_string),
                        result,
                    )
                    &&& errno == status0(result)
                }),
    {
        let fd = match Fd::from_native(fd) {
            Ok(value) => value,
            Err(_) => return invalid0(),
        };
        let path = match Self::read_string_from_buf(memory, path, path_len) {
            Ok(value) => value,
            Err(_) => return invalid0(),
        };
        to_result0(self.0.path_create_directory(fd, &path))
    }

    /// Returns the attributes of a file or directory.
    pub fn path_filestat_get(
        &self,
        memory: &GuestMemory,
        fd: native::fd,
        flags: native::lookupflags,
        path: WasmSlicePtr<u8>,
        path_len: native::size,
    ) -> (answer: (native::errno, native::filestat))
        requires
            (Lookupflags::lift(flags) is Some) ==> path.offset + path_len <= memory@.len(),
        ensures
            !({
                &&& Lookupflags::lift(flags) is Some
                &&& T::StringRepresentation::representable(
                    memory@.subrange(path.offset as int, path.offset + path_len),
                )
            }) ==> answer == status1::<Filestat>(Err(Errno::Inval)),
            ({
                &&& Lookupflags::lift(flags) is Some
                &&& T::StringRepresentation::representable(
                    memory@.subrange(path.offset as int, path.offset + path_len),
                )
            }) ==> exists|
                flags_value: Lookupflags,
                path_string: T::StringRepresentation,
                result: WasiResult<Filestat>,
            |
                {
                    &&& Lookupflags::lift(flags) == Some(flags_value)
                    &&& path_string.bytes() == memory@.subrange(
                        path.offset as int,
                        path.offset + path_len,
                    )
                    &&& #[trigger] call_ensures(
                        T::path_filestat_get,
                        (&self.0, Fd(fd), flags_value, &path_string),
                        result,
                    )
                    &&& answer == status1(result)
                },
            answer.1.writable(),
    {
        let fd = match Fd::from_native(fd) {
            Ok(value) => value,
            Err(_) => return invalid1::<Filestat>(),
        };
        let flags = match Lookupflags::from_native(flags) {
            Ok(value) => value,
            Err(_) => return invalid1::<Filestat>(),
        };
        let path = match Self::read_string_from_buf(memory, path, path_len) {
            Ok(value) => value,
            Err(_) => return invalid1::<Filestat>(),
        };
        to_result1(self.0.path_filestat_get(fd, flags, &path))
    }

    /// Adjusts the timestamps of a file or directory.
    pub fn path_filestat_set_times(
        &self,
        memory: &GuestMemory,
        fd: native::fd,
        flags: native::lookupflags,
        path: WasmSlicePtr<u8>,
        path_len: native::size,
        atim: native::timestamp,
        mtim: native::timestamp,
        fst_flags: native::fstflags,
    ) -> (errno: native::errno)
        requires
            (Lookupflags::lift(flags) is Some) ==> path.offset + path_len <= memory@.len(),
        ensures
            !({
                &&& Lookupflags::lift(flags) is Some
                &&& T::StringRepresentation::representable(
                    memory@.subrange(path.offset as int, path.offset + path_len),
                )
                &&& Fstflags::lift(fst_flags) is Some
            }) ==> errno == native::ERRNO_INVAL,
            ({
                &&& Lookupflags::lift(flags) is Some
                &&& T::StringRepresentation::representable(
                    memory@.subrange(path.offset as int, path.offset + path_len),
                )
                &&& Fstflags::lift(fst_flags) is Some
            }) ==> exists|
                flags_value: Lookupflags,
                fst_flags_value: Fstflags,
                path_string: T::StringRepresentation,
                result: WasiResult<()>,
            |
                {
                    &&& Lookupflags::lift(flags) == Some(flags_value)
                    &&& Fstflags::lift(fst_flags) == Some(fst_flags_value)
                    &&& path_string.bytes() == memory@.subrange(
                        path.offset as int,
                        path.offset + path_len,
                    )
                    &&& #[trigger] call_ensures(
                        T::path_filestat_set_times,
                        (
                            &self.0,
                            Fd(fd),
                            flags_value,
                            &path_string,
                            Timestamp(atim),
                            Timestamp(mtim),
                            fst_flags_value,
                        ),
                        result,
                    )
                    &&& errno == status0(result)
                },
    {
        let fd = match Fd::from_native(fd) {
            Ok(value) => value,
            Err(_) => return invalid0(),
        };
        let flags = match Lookupflags::from_native(flags) {
            Ok(value) => value,
            Err(_) => return invalid0(),
        };
        let path = match Self::read_string_from_buf(memory, path, path_len) {
            Ok(value) => value,
            Err(_) => return invalid0(),
        };
        let atim = match Timestamp::from_native(atim) {
            Ok(value) => value,
            Err(_) => return invalid0(),
        };
        let mtim = match Timestamp::from_native(mtim) {
            Ok(value) => value,
            Err(_) => return invalid0(),
        };
        let fst_flags = match Fstflags::from_native(fst_flags) {
            Ok(value) => value,
            Err(_) => return invalid0(),
        };
        to_result0(self.0.path_filestat_set_times(fd, flags, &path, atim, mtim, fst_flags))
    }

    /// Creates a hard link.
    pub fn path_link(
        &self,
        memory: &GuestMemory,
        old_fd: native::fd,
        old_flags: native::lookupflags,
        old_path: WasmSlicePtr<u8>,
        old_path_len: native::size,
        new_fd: native::fd,
        new_path: WasmSlicePtr<u8>,
        new_path_len: native::size,
    ) -> (errno: native::errno)
        requires
            (Lookupflags::lift(old_flags) is Some) ==>
                old_path.offset + old_path_len <= memory@.len(),
            ({
                &&& Lookupflags::lift(old_flags) is Some
                &&& T::StringRepresentation::representable(
                    memory@.subrange(old_path.offset as int, old_path.offset + old_path_len),
                )
            }) ==> new_path.offset + new_path_len <= memory@.len(),
        ensures
            !({
                &&& Lookupflags::lift(old_flags) is Some
                &&& T::StringRepresentation::representable(
                    memory@.subrange(old_path.offset as int, old_path.offset + old_path_len),
                )
                &&& T::StringRepresentation::representable(
                    memory@.subrange(new_path.offset as int, new_path.offset + new_path_len),
                )
            }) ==> errno == native::ERRNO_INVAL,
            ({
                &&& Lookupflags::lift(old_flags) is Some
                &&& T::StringRepresentation::representable(
                    memory@.subrange(old_path.offset as int, old_path.offset + old_path_len),
                )
                &&& T::StringRepresentation::representable(
                    memory@.subrange(new_path.offset as int, new_path.offset + new_path_len),
                )
            }) ==> exists|
                old_flags_value: Lookupflags,
                old_path_string: T::StringRepresentation,
                new_path_string: T::StringRepresentation,
                result: WasiResult<()>,
            |
                {
                    &&& Lookupflags::lift(old_flags) == Some(old_flags_value)
                    &&& old_path_string.bytes() == memory@.subrange(
                        old_path.offset as int,
                        old_path.offset + old_path_len,
                    )
                    &&& new_path_string.bytes() == memory@.subrange(
                        new_path.offset as int,
                        new_path.offset + new_path_len,
                    )
                    &&& #[trigger] call_ensures(
                        T::path_link,
                        (
                            &self.0,
                            Fd(old_fd),
                            old_flags_value,
                            &old_path_string,
                            Fd(new_fd),
                            &new_path_string,
                        ),
                        result,
                    )
                    &&& errno == status0(result)
                },
    {
        let old_fd = match Fd::from_native(old_fd) {
            Ok(value) => value,
            Err(_) => return invalid0(),
        };
        let old_flags = match Lookupflags::from_native(old_flags) {
            Ok(value) => value,
            Err(_) => return invalid0(),
        };
        let old_path = match Self::read_string_from_buf(memory, old_path, old_path_len) {
            Ok(value) => value,
            Err(_) => return invalid0(),
        };
        let new_fd = match Fd::from_native(new_fd) {
            Ok(value) => value,
            Err(_) => return invalid0(),
        };
        let new_path = match Self::read_string_from_buf(memory, new_path, new_path_len) {
            Ok(value) => value,
            Err(_) => return invalid0(),
        };
        to_result0(self.0.path_link(old_fd, old_flags, &old_path, new_fd, &new_path))
    }

    /// Opens a file or directory.
    pub fn path_open(
        &self,
        memory: &GuestMemory,
        fd: native::fd,
        dirflags: native::lookupflags,
        path: WasmSlicePtr<u8>,
        path_len: native::size,
        oflags: native::oflags,
        fs_rights_base: native::rights,
        fs_rights_inheriting: native::rights,
        fdflags: native::fdflags,
    ) -> (answer: (native::errno, native::fd))
        requires
            (Lookupflags::lift(dirflags) is Some) ==> path.offset + path_len <= memory@.len(),
        ensures
            !({
                &&& Lookupflags::lift(dirflags) is Some
                &&& T::StringRepresentation::representable(
                    memory@.subrange(path.offset as int, path.offset + path_len),
                )
                &&& Oflags::lift(oflags) is Some
                &&& Rights::lift(fs_rights_base) is Some
                &&& Rights::lift(fs_rights_inheriting) is Some
                &&& Fdflags::lift(fdflags) is Some
            }) ==> answer == status1::<Fd>(Err(Errno::Inval)),
            ({
                &&& Lookupflags::lift(dirflags) is Some
                &&& T::StringRepresentation::representable(
                    memory@.subrange(path.offset as int, path.offset + path_len),
                )
                &&& Oflags::lift(oflags) is Some
                &&& Rights::lift(fs_rights_base) is Some
                &&& Rights::lift(fs_rights_inheriting) is Some
                &&& Fdflags::lift(fdflags) is Some
            }) ==> exists|
                dirflags_value: Lookupflags,
                oflags_value: Oflags,
                fs_rights_base_value: Rights,
                fs_rights_inheriting_value: Rights,
                fdflags_value: Fdflags,
                path_string: T::StringRepresentation,
                result: WasiResult<Fd>,
            |
                {
                    &&& Lookupflags::lift(dirflags) == Some(dirflags_value)
                    &&& Oflags::lift(oflags) == Some(oflags_value)
                    &&& Rights::lift(fs_rights_base) == Some(fs_rights_base_value)
                    &&& Rights::lift(fs_rights_inheriting) == Some(fs_rights_inheriting_value)
                    &&& Fdflags::lift(fdflags) == Some(fdflags_value)
                    &&& path_string.bytes() == memory@.subrange(
                        path.offset as int,
                        path.offset + path_len,
                    )
                    &&& #[trigger] call_ensures(
                        T::path_open,
                        (
                            &self.0,
                            Fd(fd),
                            dirflags_value,
                            &path_string,
                            oflags_value,
                            fs_rights_base_value,
                            fs_rights_inheriting_value,
                            fdflags_value,
                        ),
                        result,
                    )
                    &&& answer == status1(result)
                },
            answer.1.writable(),
    {
        let fd = match Fd::from_native(fd) {
            Ok(value) => value,
            Err(_) => return invalid1::<Fd>(),
        };
        let dirflags = match Lookupflags::from_native(dirflags) {
            Ok(value) => value,
            Err(_) => return invalid1::<Fd>(),
        };
        let path = match Self::read_string_from_buf(memory, path, path_len) {
            Ok(value) => value,
            Err(_) => return invalid1::<Fd>(),
        };
        let oflags = match Oflags::from_native(oflags) {
            Ok(value) => value,
            Err(_) => return invalid1::<Fd>(),
        };
        let fs_rights_base = match Rights::from_native(fs_rights_base) {
            Ok(value) => value,
            Err(_) => return invalid1::<Fd>(),
        };
        let fs_rights_inheriting = match Rights::from_native(fs_rights_inheriting) {
            Ok(value) => value,
            Err(_) => return invalid1::<Fd>(),
        };
        let fdflags = match Fdflags::from_native(fdflags) {
            Ok(value) => value,
            Err(_) => return invalid1::<Fd>(),
        };
        to_result1(
            self.0.path_open(
                fd,
                dirflags,
                &path,
                oflags,
                fs_rights_base,
                fs_rights_inheriting,
                fdflags,
            ),
        )
    }

    /// Reads the contents of a symbolic link into the region of guest
    /// memory at `buf`, as far as it has room, and returns how many bytes
    /// were written. An error of the host is handed on.
    pub fn path_readlink(
        &self,
        memory: &mut GuestMemory,
        fd: native::fd,
        path: WasmSlicePtr<u8>,
        path_len: native::size,
        buf: WasmSlicePtr<u8>,
        buf_len: native::size,
    ) -> (answer: (native::errno, native::size))
        requires
            path.offset + path_len <= old(memory)@.len(),
            T::StringRepresentation::representable(
                old(memory)@.subrange(path.offset as int, path.offset + path_len),
            ) ==> buf.offset + buf_len <= old(memory)@.len(),
        ensures
            !T::StringRepresentation::representable(
                old(memory)@.subrange(path.offset as int, path.offset + path_len),
            ) ==> answer == status1::<Size>(Err(Errno::Inval)) && final(memory)@ == old(memory)@,
            T::StringRepresentation::representable(
                old(memory)@.subrange(path.offset as int, path.offset + path_len),
            ) ==> exists|path_string: T::StringRepresentation,
                result: WasiResult<T::StringRepresentation>|
                {
                    &&& path_string.bytes() == old(memory)@.subrange(
                        path.offset as int,
                        path.offset + path_len,
                    )
                    &&& #[trigger] call_ensures(
                        T::path_readlink,
                        (&self.0, Fd(fd), &path_string),
                        result,
                    )
                    &&& match result {
                        Ok(link) => {
                            let len = if link.bytes().len() < buf_len {
                                link.bytes().len() as int
                            } else {
                                buf_len as int
                            };
                            &&& answer == (native::ERRNO_SUCCESS, len as u32)
                            &&& final(memory)@ == splice(
                                old(memory)@,
                                buf.offset as int,
                                link.bytes().subrange(0, len),
                            )
                        },
                        Err(error) => {
                            &&& answer == (error.lower(), 0u32)
                            &&& final(memory)@ == old(memory)@
                        },
                    }
                },
    {
        let fd = match Fd::from_native(fd) {
            Ok(value) => value,
            Err(_) => return invalid1::<Size>(),
        };
        let path = match Self::read_string_from_buf(memory, path, path_len) {
            Ok(value) => value,
            Err(_) => return invalid1::<Size>(),
        };
        let link = match self.0.path_readlink(fd, &path) {
            Ok(link) => link,
            Err(error) => {
                return (error.to_native(), 0);
            },
        };
        Self::write_link(memory, buf, buf_len, link.as_bytes())
    }

    /// Removes a directory.
    pub fn path_remove_directory(
        &self,
        memory: &GuestMemory,
        fd: native::fd,
        path: WasmSlicePtr<u8>,
        path_len: native::size,
    ) -> (errno: native::errno)
        requires
            path.offset + path_len <= memory@.len(),
        ensures
            !(T::StringRepresentation::representable(
                memory@.subrange(path.offset as int, path.offset + path_len),
            )) ==> errno == native::ERRNO_INVAL,
            (T::StringRepresentation::representable(
                memory@.subrange(path.offset as int, path.offset + path_len),
            )) ==> (exists|path_string: T::StringRepresentation, result: WasiResult<()>|
                {
                    &&& path_string.bytes() == memory@.subrange(
                        path.offset as int,
                        path.offset + path_len,
                    )
                    &&& #[trigger] call_ensures(
                        T::path_remove_directory,
                        (&self.0, Fd(fd), &path_string),
                        result,
                    )
                    &&& errno == status0(result)
                }),
    {
        let fd = match Fd::from_native(fd) {
            Ok(value) => value,
            Err(_) => return invalid0(),
        };
        let path = match Self::read_string_from_buf(memory, path, path_len) {
            Ok(value) => value,
            Err(_) => return invalid0(),
        };
        to_result0(self.0.path_remove_directory(fd, &path))
    }

    /// Renames a file or directory.
    pub fn path_rename(
        &self,
        memory: &GuestMemory,
        fd: native::fd,
        old_path: WasmSlicePtr<u8>,
        old_path_len: native::size,
        new_fd: native::fd,
        new_path: WasmSlicePtr<u8>,
        new_path_len: native::size,
    ) -> (errno: native::errno)
        requires
            old_path.offset + old_path_len <= memory@.len(),
            (T::StringRepresentation::representable(
                memory@.subrange(old_path.offset as int, old_path.offset + old_path_len),
            )) ==> new_path.offset + new_path_len <= memory@.len(),
        ensures
            !({
                &&& T::StringRepresentation::representable(
                    memory@.subrange(old_path.offset as int, old_path.offset + old_path_len),
                )
                &&& T::StringRepresentation::representable(
                    memory@.subrange(new_path.offset as int, new_path.offset + new_path_len),
                )
            }) ==> errno == native::ERRNO_INVAL,
            ({
                &&& T::StringRepresentation::representable(
                    memory@.subrange(old_path.offset as int, old_path.offset + old_path_len),
                )
                &&& T::StringRepresentation::representable(
                    memory@.subrange(new_path.offset as int, new_path.offset + new_path_len),
                )
            }) ==> exists|
                old_path_string: T::StringRepresentation,
                new_path_string: T::StringRepresentation,
                result: WasiResult<()>,
            |
                {
                    &&& old_path_string.bytes() == memory@.subrange(
                        old_path.offset as int,
                        old_path.offset + old_path_len,
                    )
                    &&& new_path_string.bytes() == memory@.subrange(
                        new_path.offset as int,
                        new_path.offset + new_path_len,
                    )
                    &&& #[trigger] call_ensures(
                        T::path_rename,
                        (&self.0, Fd(fd), &old_path_string, Fd(new_fd), &new_path_string),
                        result,
                    )
                    &&& errno == status0(result)
                },
    {
        let fd = match Fd::from_native(fd) {
            Ok(value) => value,
            Err(_) => return invalid0(),
        };
        let old_path = match Self::read_string_from_buf(memory, old_path, old_path_len) {
            Ok(value) => value,
            Err(_) => return invalid0(),
        };
        let new_fd = match Fd::from_native(new_fd) {
            Ok(value) => value,
            Err(_) => return invalid0(),
        };
        let new_path = match Self::read_string_from_buf(memory, new_path, new_path_len) {
            Ok(value) => value,
            Err(_) => return invalid0(),
        };
        to_result0(self.0.path_rename(fd, &old_path, new_fd, &new_path))
    }

    /// Creates a symbolic link.
    pub fn path_symlink(
        &self,
        memory: &GuestMemory,
        old_path: WasmSlicePtr<u8>,
        old_path_len: native::size,
        fd: native::fd,
        new_path: WasmSlicePtr<u8>,
        new_path_len: native::size,
    ) -> (errno: native::errno)
        requires
            old_path.offset + old_path_len <= memory@.len(),
            (T::StringRepresentation::representable(
                memory@.subrange(old_path.offset as int, old_path.offset + old_path_len),
            )) ==> new_path.offset + new_path_len <= memory@.len(),
        ensures
            !({
                &&& T::StringRepresentation::representable(
                    memory@.subrange(old_path.offset as int, old_path.offset + old_path_len),
                )
                &&& T::StringRepresentation::representable(
                    memory@.subrange(new_path.offset as int, new_path.offset + new_path_len),
                )
            }) ==> errno == native::ERRNO_INVAL,
            ({
                &&& T::StringRepresentation::representable(
                    memory@.subrange(old_path.offset as int, old_path.offset + old_path_len),
                )
                &&& T::StringRepresentation::representable(
                    memory@.subrange(new_path.offset as int, new_path.offset + new_path_len),
                )
            }) ==> exists|
                old_path_string: T::StringRepresentation,
                new_path_string: T::StringRepresentation,
                result: WasiResult<()>,
            |
                {
                    &&& old_path_string.bytes() == memory@.subrange(
                        old_path.offset as int,
                        old_path.offset + old_path_len,
                    )
                    &&& new_path_string.bytes() == memory@.subrange(
                        new_path.offset as int,
                        new_path.offset + new_path_len,
                    )
                    &&& #[trigger] call_ensures(
                        T::path_symlink,
                        (&self.0, &old_path_string, Fd(fd), &new_path_string),
                        result,
                    )
                    &&& errno == status0(result)
                },
    {
        let old_path = match Self::read_string_from_buf(memory, old_path, old_path_len) {
            Ok(value) => value,
            Err(_) => return invalid0(),
        };
        let fd = match Fd::from_native(fd) {
            Ok(value) => value,
            Err(_) => return invalid0(),
        };
        let new_path = match Self::read_string_from_buf(memory, new_path, new_path_len) {
            Ok(value) => value,
            Err(_) => return invalid0(),
        };
        to_result0(self.0.path_symlink(&old_path, fd, &new_path))
    }

    /// Unlinks a file.
    pub fn path_unlink_file(
        &self,
        memory: &GuestMemory,
        fd: native::fd,
        path: WasmSlicePtr<u8>,
        path_len: native::size,
    ) -> (errno: native::errno)
        requires
            path.offset + path_len <= memory@.len(),
        ensures
            !(T::StringRepresentation::representable(
                memory@.subrange(path.offset as int, path.offset + path_len),
            )) ==> errno == native::ERRNO_INVAL,
            (T::StringRepresentation::representable(
                memory@.subrange(path.offset as int, path.offset + path_len),
            )) ==> (exists|path_string: T::StringRepresentation, result: WasiResult<()>|
                {
                    &&& path_string.bytes() == memory@.subrange(
                        path.offset as int,
                        path.offset + path_len,
                    )
                    &&& #[trigger] call_ensures(
                        T::path_unlink_file,
                        (&self.0, Fd(fd), &path_string),
                        result,
                    )
                    &&& errno == status0(result)
                }),
    {
        let fd = match Fd::from_native(fd) {
            Ok(value) => value,
            Err(_) => return invalid0(),
        };
        let path = match Self::read_string_from_buf(memory, path, path_len) {
            Ok(value) => value,
            Err(_) => return invalid0(),
        };
        to_result0(self.0.path_unlink_file(fd, &path))
    }

    /// Concurrently polls for the occurrence of a set of events. Reads the
    /// subscriptions from the array at `subscriptions`, and writes the
    /// events into the array at `out`: no more of them than there were
    /// subscriptions, whatever the host returns. An error of the host is
    /// handed on.
    pub fn poll_oneoff(
        &self,
        memory: &mut GuestMemory,
        subscriptions: WasmSlicePtr<native::subscription>,
        out: WasmSlicePtr<native::event>,
        nsubscriptions: native::size,
    ) -> (answer: (native::errno, native::size))
        requires
            subscriptions.in_bounds(old(memory)@.len(), nsubscriptions),
            subscribed(
                subscription_array(subscriptions, nsubscriptions).elements(old(memory)@),
            ) is Some ==> out.in_bounds(old(memory)@.len(), nsubscriptions),
        ensures
            subscribed(
                subscription_array(subscriptions, nsubscriptions).elements(old(memory)@),
            ) is None ==> answer == status1::<Size>(Err(
                Errno::Inval,
            )) && final(memory)@ == old(memory)@,
            subscribed(
                subscription_array(subscriptions, nsubscriptions).elements(old(memory)@),
            ) is Some ==> (exists|list: Vec<Subscription>, result: WasiResult<Vec<Event>>|
                {
                    &&& Some(list@) == subscribed(
                        subscription_array(subscriptions, nsubscriptions).elements(old(memory)@),
                    )
                    &&& #[trigger] call_ensures(T::poll_oneoff, (&self.0, &list), result)
                    &&& match result {
                        Ok(events) => {
                            let count = if events@.len() < nsubscriptions {
                                events@.len()
                            } else {
                                nsubscriptions as nat
                            };
                            &&& answer == (native::ERRNO_SUCCESS, count as u32)
                            &&& final(memory)@ == stored(
                                old(memory)@,
                                out.offset as int,
                                events@.map_values(|event: Event| event.lower()),
                                count,
                            )
                        },
                        Err(error) => {
                            &&& answer == (error.lower(), 0u32)
                            &&& final(memory)@ == old(memory)@
                        },
                    }
                }),
    {
        let list = match Self::read_subscriptions(memory, subscriptions, nsubscriptions) {
            Ok(list) => list,
            Err(_) => return invalid1::<Size>(),
        };
        let events = match self.0.poll_oneoff(&list) {
            Ok(events) => events,
            Err(error) => {
                return (error.to_native(), 0);
            },
        };
        Self::write_events(memory, out, nsubscriptions, &events)
    }

    /// Terminates the process: hands the exit code of the host up as the
    /// one way out.
    pub fn proc_exit(
        &self,
        rval: native::exitcode,
    ) -> (result: Result<std::convert::Infallible, native::exitcode>)
        ensures
            result == Err::<std::convert::Infallible, native::exitcode>(rval),
    {
        match self.0.proc_exit(Exitcode(rval)) {
            Ok(never) => Ok(never),
            Err(code) => Err(code.0),
        }
    }

    /// Sends a signal to the process of the calling thread.
    pub fn proc_raise(
        &self,
        sig: native::signal,
    ) -> (errno: native::errno)
        ensures
            !(Signal::lift(sig) is Some) ==> errno == native::ERRNO_INVAL,
            (Signal::lift(sig) is Some) ==> (exists|sig_value: Signal, result: WasiResult<()>|
                {
                    &&& Signal::lift(sig) == Some(sig_value)
                    &&& #[trigger] call_ensures(T::proc_raise, (&self.0, sig_value), result)
                    &&& errno == status0(result)
                }),
    {
        let sig = match Signal::from_native(sig) {
            Ok(value) => value,
            Err(_) => return invalid0(),
        };
        to_result0(self.0.proc_raise(sig))
    }

    /// Fills the region of guest memory at `buf` with random data. The
    /// whole region is written, whatever the host reports.
    pub fn random_get(
        &self,
        memory: &mut GuestMemory,
        buf: WasmSlicePtr<u8>,
        buf_len: native::size,
    ) -> (errno: native::errno)
        requires
            buf.offset + buf_len <= old(memory)@.len(),
        ensures
            (exists|new: Vec<u8>, filled: Vec<u8>, result: WasiResult<()>|
                {
                    &&& new@ == zeros(buf_len as nat)
                    &&& #[trigger] call_ensures(T::random_get, (&self.0, new), (result, filled))
                    &&& errno == status0(result)
                    &&& final(memory)@ == splice(old(memory)@, buf.offset as int, filled@)
                }),
    {
        let bytes: Vec<u8> = vec![0u8; buf_len as usize];
        assert(bytes@ =~= zeros(buf_len as nat));
        let (result, bytes) = self.0.random_get(bytes);
        assert(bytes@.subrange(0, buf_len as int) =~= bytes@);
        Self::write_to_buf(memory, buf, buf_len, &bytes, buf_len);
        to_result0(result)
    }

    /// Temporarily yields execution of the calling thread.
    pub fn sched_yield(&self) -> (errno: native::errno)
        ensures
            exists|result: WasiResult<()>|
                #[trigger] call_ensures(T::sched_yield, (&self.0,), result) && errno == status0(
                    result,
                ),
    {
        to_result0(self.0.sched_yield())
    }

    /// Receives a message from a socket into the regions that `ri_data` lists.
    /// Regions that the message does not reach stay as they are.
    pub fn sock_recv(
        &self,
        memory: &mut GuestMemory,
        fd: native::fd,
        ri_data: WasmSlicePtr<native::iovec>,
        ri_data_len: native::size,
        ri_flags: native::riflags,
    ) -> (answer: (native::errno, native::size, native::roflags))
        requires
            (Riflags::lift(ri_flags) is Some) ==> ri_data.in_bounds(
                old(memory)@.len(),
                ri_data_len,
            ),
            (Riflags::lift(ri_flags) is Some) ==> regions_fit(
                iovec_array(ri_data, ri_data_len).elements(old(memory)@),
                old(memory)@.len(),
            ),
        ensures
            !(Riflags::lift(ri_flags) is Some) ==> answer == status2::<Size, Roflags>(
                Err(Errno::Inval),
            ) && final(memory)@ == old(memory)@,
            (Riflags::lift(ri_flags) is Some) ==>
                exists|
                    ri_flags_value: Riflags,
                    new: Vec<Vec<u8>>,
                    filled: Vec<Vec<u8>>,
                    result: WasiResult<(Size, Roflags)>,
                |
                {
                    &&& Riflags::lift(ri_flags) == Some(ri_flags_value)
                    &&& fresh(iovec_array(ri_data, ri_data_len).elements(old(memory)@), new@)
                    &&& #[trigger] call_ensures(
                        T::sock_recv,
                        (&self.0, Fd(fd), new, ri_flags_value),
                        (result, filled),
                    )
                    &&& answer == status2(result)
                    &&& final(memory)@ == scattered(
                        old(memory)@,
                        iovec_array(ri_data, ri_data_len).elements(old(memory)@),
                        buffer_bytes(filled@),
                        read_size(answer.0, answer.1),
                        ri_data_len as nat,
                    )
                },
            answer.1.writable(),
            answer.2.writable(),
            final(memory)@.len() == old(memory)@.len(),
            forall|at: int|
                0 <= at < old(memory)@.len() && !in_regions(
                    iovec_array(ri_data, ri_data_len).elements(old(memory)@),
                    at,
                ) ==> #[trigger] final(memory)@[at] == old(memory)@[at],
    {
        let fd = match Fd::from_native(fd) {
            Ok(value) => value,
            Err(_) => return invalid2::<Size, Roflags>(),
        };
        let ri_flags = match Riflags::from_native(ri_flags) {
            Ok(value) => value,
            Err(_) => return invalid2::<Size, Roflags>(),
        };
        let iovecs = ri_data.with(memory, ri_data_len).read_all(memory);
        let new = Self::new_bufs(&iovecs);
        let ghost given = new@;
        let (result, bufs) = self.0.sock_recv(fd, new, ri_flags);
        let answer = to_result2(result);
        let size: u32 = if answer.0 == native::ERRNO_SUCCESS {
            answer.1
        } else {
            0
        };
        proof {
            lemma_handed_back(iovecs@, given, bufs@);
            lemma_reached(iovecs@, memory@.len(), size);
        }
        Self::write_to_bufs(memory, &iovecs, &bufs, size);
        answer
    }

    /// Sends the regions that `si_data` lists as a message on a socket.
    pub fn sock_send(
        &self,
        memory: &GuestMemory,
        fd: native::fd,
        si_data: WasmSlicePtr<native::ciovec>,
        si_data_len: native::size,
        si_flags: native::siflags,
    ) -> (answer: (native::errno, native::size))
        requires
            si_data.in_bounds(memory@.len(), si_data_len),
            sources_fit(ciovec_array(si_data, si_data_len).elements(memory@), memory@.len()),
        ensures
            (exists|data: Vec<Vec<u8>>, result: WasiResult<Size>|
                {
                    &&& gathered(
                        ciovec_array(si_data, si_data_len).elements(memory@),
                        memory@,
                        data@,
                    )
                    &&& #[trigger] call_ensures(
                        T::sock_send,
                        (&self.0, Fd(fd), &data, Siflags(si_flags)),
                        result,
                    )
                    &&& answer == status1(result)
                }),
            answer.1.writable(),
    {
        let fd = match Fd::from_native(fd) {
            Ok(value) => value,
            Err(_) => return invalid1::<Size>(),
        };
        let si_flags = match Siflags::from_native(si_flags) {
            Ok(value) => value,
            Err(_) => return invalid1::<Size>(),
        };
        let data = Self::read_from_bufs(memory, si_data, si_data_len);
        to_result1(self.0.sock_send(fd, &data, si_flags))
    }

    /// Shuts down socket send and receive channels.
    pub fn sock_shutdown(
        &self,
        fd: native::fd,
        how: native::sdflags,
    ) -> (errno: native::errno)
        ensures
            !(Sdflags::lift(how) is Some) ==> errno == native::ERRNO_INVAL,
            (Sdflags::lift(how) is Some) ==> (exists|how_value: Sdflags, result: WasiResult<()>|
                {
                    &&& Sdflags::lift(how) == Some(how_value)
                    &&& #[trigger] call_ensures(
                        T::sock_shutdown,
                        (&self.0, Fd(fd), how_value),
                        result,
                    )
                    &&& errno == status0(result)
                }),
    {
        let fd = match Fd::from_native(fd) {
            Ok(value) => value,
            Err(_) => return invalid0(),
        };
        let how = match Sdflags::from_native(how) {
            Ok(value) => value,
            Err(_) => return invalid0(),
        };
        to_result0(self.0.sock_shutdown(fd, how))
    }

}

} // verus!
