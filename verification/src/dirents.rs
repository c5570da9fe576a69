//! Directory enumeration: packing whole directory entries into a buffer of
//! the guest.
//!
//! One call writes entries from a cookie on, each as its header followed by
//! its name, for as long as the next entry fits whole. The guest goes on
//! with the `d_next` of the last entry that it got.

use vstd::prelude::*;
use crate::adapter::NativeWasiAdapter;
use crate::imports::WasiImports;
use crate::native;
use crate::ptr::{GuestMemory, WasmSlicePtr};
use crate::records::Dirent;
use crate::string_representation::StringRepresentation;
use crate::types::{Dircookie, Errno, Fd, WasiResult};
use crate::value::WasiValue;
use crate::wire::{lemma_splice_concat, splice, WasmValue};

verus! {

/// The width of a directory entry's header.
pub const DIRENT_SIZE: u32 = 24;

/// `len` zero bytes.
pub open spec fn zeros(len: nat) -> Seq<u8> {
    Seq::new(len, |i: int| 0u8)
}

/// A directory entry as the guest reads it: the header, with zero bytes for
/// padding, and the name behind it, without a NUL byte.
pub open spec fn dirent_bytes(entry: Dirent, name: Seq<u8>) -> Seq<u8> {
    entry.lower().store(zeros(DIRENT_SIZE as nat)) + name
}

/// The entries one behind the other, as the guest reads them.
pub open spec fn page_bytes<S: StringRepresentation>(entries: Seq<(Dirent, S)>) -> Seq<u8>
    decreases entries.len(),
{
    if entries.len() == 0 {
        Seq::empty()
    } else {
        page_bytes(entries.drop_last()) + dirent_bytes(entries.last().0, entries.last().1.bytes())
    }
}

/// The cookie at which the entry at `index` is asked for, where the first
/// is asked for at `cookie`: the `d_next` of the entry before it.
pub open spec fn cookie_at<S>(
    cookie: Dircookie,
    entries: Seq<(Dirent, S)>,
    index: int,
) -> Dircookie {
    if index <= 0 {
        cookie
    } else {
        entries[index - 1].0.d_next
    }
}

/// Whether `answer` is what the host may give for the entry at `cookie`.
pub open spec fn answers<T: WasiImports>(
    host: &T,
    fd: Fd,
    cookie: Dircookie,
    answer: WasiResult<Option<(Dirent, T::StringRepresentation)>>,
) -> bool {
    call_ensures(T::fd_readdir, (host, fd, cookie), answer)
}

/// Whether the entries are what the host gives from `cookie` on, one after
/// the other: the first for `cookie`, each other for the `d_next` of the one
/// before it. Such entries follow one another in the directory: none is
/// left out and none comes twice.
pub open spec fn listed<T: WasiImports>(
    host: &T,
    fd: Fd,
    cookie: Dircookie,
    entries: Seq<(Dirent, T::StringRepresentation)>,
) -> bool {
    forall|i: int|
        0 <= i < entries.len() ==> answers(
            host,
            fd,
            cookie_at(cookie, entries, i),
            Ok(Some(#[trigger] entries[i])),
        )
}

/// Whether an answer of the host ends a call that has `room` bytes left:
/// it is an error, the end of the directory, or an entry that does not fit
/// whole.
pub open spec fn stops<S: StringRepresentation>(
    answer: WasiResult<Option<(Dirent, S)>>,
    room: nat,
) -> bool {
    match answer {
        Ok(Some((entry, name))) => DIRENT_SIZE + name.bytes().len() > room,
        _ => true,
    }
}

/// What a call returns that wrote `size` bytes and was ended by `stop`, or
/// by the end of the buffer: an error of the host without a count, or the
/// count.
pub open spec fn page_answer<S: StringRepresentation>(
    size: nat,
    stop: Option<WasiResult<Option<(Dirent, S)>>>,
) -> (native::errno, native::size) {
    match stop {
        Some(Err(error)) => (error.lower(), 0u32),
        _ => (native::ERRNO_SUCCESS, size as u32),
    }
}

/// The header of a directory entry is as wide as `DIRENT_SIZE` says.
pub proof fn lemma_dirent_bytes(entry: Dirent, name: Seq<u8>)
    ensures
        dirent_bytes(entry, name).len() == DIRENT_SIZE + name.len(),
{
    native::dirent::lemma_layout();
    entry.lower().lemma_store_len(zeros(DIRENT_SIZE as nat));
}

/// The bytes of entries and one more are the bytes of the entries followed
/// by the bytes of that one.
pub proof fn lemma_page_bytes_push<S: StringRepresentation>(
    entries: Seq<(Dirent, S)>,
    entry: Dirent,
    name: S,
)
    ensures
        page_bytes(entries.push((entry, name))) == page_bytes(entries) + dirent_bytes(
            entry,
            name.bytes(),
        ),
{
    assert(entries.push((entry, name)).drop_last() =~= entries);
}

/// The bytes of entries one behind the other are the bytes of the first
/// ones followed by the bytes of the others.
pub proof fn lemma_page_bytes_concat<S: StringRepresentation>(
    first: Seq<(Dirent, S)>,
    second: Seq<(Dirent, S)>,
)
    ensures
        page_bytes(first + second) == page_bytes(first) + page_bytes(second),
    decreases second.len(),
{
    if second.len() == 0 {
        assert(first + second =~= first);
        assert(page_bytes(first) + page_bytes(second) =~= page_bytes(first));
    } else {
        lemma_page_bytes_concat(first, second.drop_last());
        assert((first + second).drop_last() =~= first + second.drop_last());
        assert((first + second).last() == second.last());
        assert(page_bytes(first + second) =~= page_bytes(first) + page_bytes(second));
    }
}

/// Going on with the `d_next` of the last entry lists what follows: the
/// entries of one call and those of the next call are listed together, from
/// the cookie of the first call on.
pub proof fn lemma_listed_resumes<T: WasiImports>(
    host: &T,
    fd: Fd,
    cookie: Dircookie,
    first: Seq<(Dirent, T::StringRepresentation)>,
    second: Seq<(Dirent, T::StringRepresentation)>,
)
    requires
        listed(host, fd, cookie, first),
        listed(host, fd, cookie_at(cookie, first, first.len() as int), second),
    ensures
        listed(host, fd, cookie, first + second),
        cookie_at(cookie, first + second, (first + second).len() as int) == cookie_at(
            cookie_at(cookie, first, first.len() as int),
            second,
            second.len() as int,
        ),
{
    let all = first + second;
    let resume = cookie_at(cookie, first, first.len() as int);
    assert forall|i: int| 0 <= i < all.len() implies answers(
        host,
        fd,
        cookie_at(cookie, all, i),
        Ok(Some(#[trigger] all[i])),
    ) by {
        if i < first.len() {
            assert(all[i] == first[i]);
            assert(cookie_at(cookie, all, i) == cookie_at(cookie, first, i));
        } else {
            let j = i - first.len();
            assert(all[i] == second[j]);
            assert(cookie_at(cookie, all, i) == cookie_at(resume, second, j));
        }
    }
}

/// Whether one call that has `room` bytes may write the entries and then
/// end with `stop`: the entries are what the host lists from `cookie` on,
/// they fit into the room, and `stop` is the next answer of the host, one
/// that stops the call. Without a `stop` the room is used up.
pub open spec fn is_page<T: WasiImports>(
    host: &T,
    fd: Fd,
    cookie: Dircookie,
    room: nat,
    entries: Seq<(Dirent, T::StringRepresentation)>,
    stop: Option<WasiResult<Option<(Dirent, T::StringRepresentation)>>>,
) -> bool {
    &&& listed(host, fd, cookie, entries)
    &&& page_bytes(entries).len() <= room
    &&& match stop {
        Some(last) => {
            &&& answers(host, fd, cookie_at(cookie, entries, entries.len() as int), last)
            &&& stops(last, (room - page_bytes(entries).len()) as nat)
        },
        None => page_bytes(entries).len() == room,
    }
}

/// Whether the host has but one answer for the entry at `cookie`.
pub open spec fn settled<T: WasiImports>(host: &T, fd: Fd, cookie: Dircookie) -> bool {
    forall|
        one: WasiResult<Option<(Dirent, T::StringRepresentation)>>,
        other: WasiResult<Option<(Dirent, T::StringRepresentation)>>,
    |
        answers(host, fd, cookie, one) && answers(host, fd, cookie, other) ==> one == other
}

/// Where the host has one answer for each entry, what it lists from a
/// cookie on is settled too: two listings from the same cookie agree in
/// every entry that both have.
pub proof fn lemma_listed_once<T: WasiImports>(
    host: &T,
    fd: Fd,
    cookie: Dircookie,
    one: Seq<(Dirent, T::StringRepresentation)>,
    other: Seq<(Dirent, T::StringRepresentation)>,
    index: int,
)
    requires
        forall|at: Dircookie| settled(host, fd, at),
        listed(host, fd, cookie, one),
        listed(host, fd, cookie, other),
        0 <= index < one.len(),
        index < other.len(),
    ensures
        one[index] == other[index],
    decreases index,
{
    if index > 0 {
        lemma_listed_once(host, fd, cookie, one, other, index - 1);
    }
    let at = cookie_at(cookie, one, index);
    assert(at == cookie_at(cookie, other, index));
    assert(settled(host, fd, at));
    assert(answers(host, fd, at, Ok(Some(one[index]))));
    assert(answers(host, fd, at, Ok(Some(other[index]))));
    assert(Ok::<Option<(Dirent, T::StringRepresentation)>, Errno>(Some(one[index])) == Ok::<
        Option<(Dirent, T::StringRepresentation)>,
        Errno,
    >(Some(other[index])));
}

/// Where the host has one answer for the entry at the cookie of a call: a
/// call with room for that entry writes it first, and a call without room
/// for it writes nothing at all.
pub proof fn lemma_first_entry<T: WasiImports>(
    host: &T,
    fd: Fd,
    cookie: Dircookie,
    room: nat,
    entries: Seq<(Dirent, T::StringRepresentation)>,
    stop: Option<WasiResult<Option<(Dirent, T::StringRepresentation)>>>,
    entry: Dirent,
    name: T::StringRepresentation,
)
    requires
        settled(host, fd, cookie),
        answers(host, fd, cookie, Ok(Some((entry, name)))),
        is_page(host, fd, cookie, room, entries, stop),
    ensures
        DIRENT_SIZE + name.bytes().len() <= room ==> entries.len() > 0 && entries[0] == (
            entry,
            name,
        ),
        DIRENT_SIZE + name.bytes().len() > room ==> entries.len() == 0 && page_bytes(
            entries,
        ).len() == 0,
{
    if entries.len() > 0 {
        assert(answers(host, fd, cookie_at(cookie, entries, 0), Ok(Some(entries[0]))));
        let rest = entries.subrange(1, entries.len() as int);
        assert(entries =~= seq![entries[0]] + rest);
        lemma_page_bytes_concat(seq![entries[0]], rest);
        lemma_page_bytes_push(Seq::empty(), entries[0].0, entries[0].1);
        assert(Seq::<(Dirent, T::StringRepresentation)>::empty().push(entries[0]) =~= seq![
            entries[0],
        ]);
        lemma_dirent_bytes(entries[0].0, entries[0].1.bytes());
    } else {
        lemma_dirent_bytes(entry, name.bytes());
        match stop {
            Some(last) => {
                assert(last == Ok::<Option<(Dirent, T::StringRepresentation)>, Errno>(
                    Some((entry, name)),
                ));
            },
            None => {
            },
        }
    }
}

impl<T: WasiImports> NativeWasiAdapter<T> {
    /// Writes a directory entry, with its name behind it, into the buffer
    /// at `buf`, from `offset` on. An entry that does not fit whole into the
    /// rest of the buffer is not written at all.
    pub fn pack_dirent(
        memory: &mut GuestMemory,
        buf: WasmSlicePtr<u8>,
        buf_len: native::size,
        offset: native::size,
        entry: Dirent,
        name: &[u8],
    ) -> (next: Option<native::size>)
        requires
            buf.offset + buf_len <= old(memory)@.len(),
            offset <= buf_len,
        ensures
            final(memory)@.len() == old(memory)@.len(),
            match next {
                Some(end) => {
                    &&& end == offset + DIRENT_SIZE + name@.len()
                    &&& end <= buf_len
                    &&& final(memory)@ == splice(
                        old(memory)@,
                        buf.offset + offset,
                        dirent_bytes(entry, name@),
                    )
                },
                None => {
                    &&& offset + DIRENT_SIZE + name@.len() > buf_len
                    &&& final(memory)@ == old(memory)@
                },
            },
    {
        let room: u32 = buf_len - offset;
        if room < DIRENT_SIZE || name.len() > (room - DIRENT_SIZE) as usize {
            return None;
        }
        let mut bytes: Vec<u8> = vec![0u8; DIRENT_SIZE as usize];
        assert(bytes@ =~= zeros(DIRENT_SIZE as nat));
        proof {
            native::dirent::lemma_layout();
            entry.lower().lemma_store_len(bytes@);
        }
        entry.to_native().write(bytes.as_mut_slice());
        bytes.extend_from_slice(name);
        proof {
            memory.lemma_len();
        }
        memory.write_bytes(buf.offset as usize + offset as usize, bytes.as_slice());
        Some(offset + DIRENT_SIZE + name.len() as u32)
    }

    /// Reads directory entries into the buffer at `buf`, from `cookie` on at
    /// most `buf_len` bytes, in whole entries. Returns how many bytes were
    /// written. An error of the host ends the call with that error and
    /// without a count.
    ///
    /// What is written are entries that the host listed from `cookie` on.
    /// The call ends at the end of the buffer, or with an answer of the host
    /// that stops it: an error, the end of the directory, or an entry that
    /// does not fit whole into what is left of the buffer.
    pub fn fd_readdir(
        &self,
        memory: &mut GuestMemory,
        fd: native::fd,
        buf: WasmSlicePtr<u8>,
        buf_len: native::size,
        cookie: native::dircookie,
    ) -> (answer: (native::errno, native::size))
        requires
            buf.offset + buf_len <= old(memory)@.len(),
        ensures
            (exists|
                entries: Seq<(Dirent, T::StringRepresentation)>,
                stop: Option<WasiResult<Option<(Dirent, T::StringRepresentation)>>>,
            |
                {
                    &&& #[trigger] is_page(
                        &self.0,
                        Fd(fd),
                        Dircookie(cookie),
                        buf_len as nat,
                        entries,
                        stop,
                    )
                    &&& final(memory)@ == splice(
                        old(memory)@,
                        buf.offset as int,
                        page_bytes(entries),
                    )
                    &&& answer == page_answer(page_bytes(entries).len(), stop)
                }),
    {
        let descriptor = Fd(fd);
        let first = Dircookie(cookie);
        let mut at = first;
        let mut offset: u32 = 0;
        let mut failure: Option<Errno> = None;
        let ghost start = memory@;
        let ghost entries = Seq::<(Dirent, T::StringRepresentation)>::empty();
        let ghost stop: Option<WasiResult<Option<(Dirent, T::StringRepresentation)>>> = None;
        proof {
            assert(splice(start, buf.offset as int, page_bytes(entries)) =~= start);
        }
        loop
            invariant_except_break
                failure is None,
                stop is None,
            invariant
                offset <= buf_len,
                buf.offset + buf_len <= start.len(),
                memory@.len() == start.len(),
                offset == page_bytes(entries).len(),
                memory@ == splice(start, buf.offset as int, page_bytes(entries)),
                listed(&self.0, descriptor, first, entries),
                at == cookie_at(first, entries, entries.len() as int),
            ensures
                match stop {
                    Some(last) => {
                        &&& answers(&self.0, descriptor, at, last)
                        &&& stops(last, (buf_len - offset) as nat)
                        &&& failure == match last {
                            Err(error) => Some(error),
                            _ => None::<Errno>,
                        }
                    },
                    None => offset == buf_len && failure is None,
                },
            decreases buf_len - offset,
        {
            if offset >= buf_len {
                break ;
            }
            let read = self.0.fd_readdir(descriptor, at);
            let ghost asked = read;
            let (entry, name) = match read {
                Ok(Some(found)) => found,
                Ok(None) => {
                    proof {
                        stop = Some(asked);
                    }
                    break ;
                },
                Err(error) => {
                    proof {
                        stop = Some(asked);
                    }
                    failure = Some(error);
                    break ;
                },
            };
            match Self::pack_dirent(memory, buf, buf_len, offset, entry, name.as_bytes()) {
                Some(next) => {
                    proof {
                        lemma_page_bytes_push(entries, entry, name);
                        lemma_dirent_bytes(entry, name.bytes());
                        lemma_splice_concat(
                            start,
                            buf.offset as int,
                            page_bytes(entries),
                            dirent_bytes(entry, name.bytes()),
                        );
                        let longer = entries.push((entry, name));
                        assert forall|i: int| 0 <= i < longer.len() implies answers(
                            &self.0,
                            descriptor,
                            cookie_at(first, longer, i),
                            Ok(Some(#[trigger] longer[i])),
                        ) by {
                            if i < entries.len() {
                                assert(longer[i] == entries[i]);
                                assert(cookie_at(first, longer, i) == cookie_at(first, entries, i));
                            }
                        }
                        entries = longer;
                    }
                    offset = next;
                    at = entry.d_next;
                },
                None => {
                    proof {
                        stop = Some(asked);
                    }
                    break ;
                },
            }
        }
        let answer = match failure {
            Some(error) => (error.to_native(), 0),
            None => (native::ERRNO_SUCCESS, offset),
        };
        proof {
            assert(is_page(&self.0, Fd(fd), Dircookie(cookie), buf_len as nat, entries, stop));
            assert(answer == page_answer(page_bytes(entries).len(), stop));
        }
        answer
    }
}

} // verus!
