//! Copying NUL-terminated path strings out of a caller's memory.
//!
//! A string argument is an address in the caller's memory. Here it is the memory that starts
//! at that address, or `None` for the null address.

use vstd::prelude::*;

use crate::error::IpcError;

verus! {

/// The size, terminator included, of the buffer that holds a port's path.
pub const IPC_PORT_PATH_MAX: usize = 256;

/// The memory holds a terminator, so that a string starts at its first byte.
pub open spec fn has_terminator(memory: Seq<i8>) -> bool {
    memory.contains(0i8)
}

/// A string argument that may be read: the null address, or memory with a terminator in it.
pub open spec fn readable(s: Option<&[i8]>) -> bool {
    s is Some ==> has_terminator(s->0@)
}

/// The string that starts at the first byte of `memory`: what precedes the first terminator.
pub open spec fn string_in(memory: Seq<i8>) -> Seq<i8> {
    memory.take(memory.index_of_first(0i8)->0)
}

/// The bytes of a string argument, without the terminator; none at the null address.
pub open spec fn text(s: Option<&[i8]>) -> Seq<i8> {
    match s {
        Some(memory) => string_in(memory@),
        None => Seq::empty(),
    }
}

/// A buffer after `bytes` were laid over its start, cut off at its end.
pub open spec fn overlaid(buffer: Seq<i8>, bytes: Seq<i8>) -> Seq<i8> {
    if bytes.len() <= buffer.len() {
        bytes + buffer.skip(bytes.len() as int)
    } else {
        bytes.take(buffer.len() as int)
    }
}

/// The first terminator in a piece of memory is the one that only other bytes precede.
proof fn lemma_first_terminator(memory: Seq<i8>, end: int)
    requires
        0 <= end < memory.len(),
        memory[end] == 0,
        forall|i: int| 0 <= i < end ==> memory[i] != 0,
    ensures
        memory.index_of_first(0i8) == Some(end),
{
    memory.index_of_first_ensures(0i8);
    let first = memory.index_of_first(0i8)->0;
    assert(memory.contains(0i8));
    assert(first <= end);
    assert(memory[first] == 0);
}

/// A string that was copied with its terminator reads back as the same string, and the bytes of
/// the buffer behind the terminator keep their values.
pub proof fn law_copy_reads_back(buffer: Seq<i8>, path: Option<&[i8]>)
    requires
        readable(path),
        text(path).len() < buffer.len(),
    ensures
        has_terminator(overlaid(buffer, text(path).push(0i8))),
        string_in(overlaid(buffer, text(path).push(0i8))) == text(path),
        overlaid(buffer, text(path).push(0i8)).len() == buffer.len(),
        overlaid(buffer, text(path).push(0i8)).skip(text(path).len() as int + 1) == buffer.skip(
            text(path).len() as int + 1,
        ),
{
    let end = text(path).len() as int;
    let copy = overlaid(buffer, text(path).push(0i8));
    if let Some(memory) = path {
        memory@.index_of_first_ensures(0i8);
    }
    assert(copy[end] == 0);
    lemma_first_terminator(copy, end);
    assert(string_in(copy) =~= text(path));
}

/// Whatever precedes the first terminator belongs to the string, and nothing else does: a string
/// without a terminator in it is read whole, whatever follows its own terminator.
pub proof fn law_string_is_read_whole(string: Seq<i8>, rest: Seq<i8>)
    requires
        forall|i: int| 0 <= i < string.len() ==> string[i] != 0,
    ensures
        has_terminator(string.push(0i8) + rest),
        string_in(string.push(0i8) + rest) == string,
{
    let memory = string.push(0i8) + rest;
    assert(memory[string.len() as int] == 0);
    lemma_first_terminator(memory, string.len() as int);
    assert(string_in(memory) =~= string);
}

/// A string argument can be read exactly where it is null or a zero byte is in its memory. Its
/// bytes are those of the memory up to the first zero byte.
pub proof fn law_argument_ends_at_first_zero(s: Option<&[i8]>)
    ensures
        readable(s) <==> (s is None || exists|i: int| 0 <= i < s->0@.len() && s->0@[i] == 0),
        s is None ==> text(s).len() == 0,
        s is Some && readable(s) ==> text(s).len() < s->0@.len() && s->0@[text(s).len() as int]
            == 0,
        s is Some && readable(s) ==> forall|i: int|
            0 <= i < text(s).len() ==> s->0@[i] != 0 && #[trigger] text(s)[i] == s->0@[i],
{
    if let Some(memory) = s {
        if has_terminator(memory@) {
            memory@.index_of_first_ensures(0i8);
        }
        assert(has_terminator(memory@) <==> exists|i: int|
            0 <= i < memory@.len() && memory@[i] == 0);
    }
}

/// Bytes that are laid over a buffer change its start and nothing else, and never its length.
pub proof fn law_overlay_changes_the_start(buffer: Seq<i8>, bytes: Seq<i8>)
    ensures
        overlaid(buffer, bytes).len() == buffer.len(),
        forall|i: int|
            0 <= i < buffer.len() && i < bytes.len() ==> #[trigger] overlaid(buffer, bytes)[i]
                == bytes[i],
        forall|i: int|
            bytes.len() <= i < buffer.len() ==> #[trigger] overlaid(buffer, bytes)[i] == buffer[i],
{
}

/// The length of a string, not counting its terminator; zero at the null address.
pub fn str_len(s: Option<&[i8]>) -> (len: usize)
    requires
        readable(s),
    ensures
        s is None ==> len == 0,
        s is Some ==> len < s->0@.len() && s->0@[len as int] == 0,
        s is Some ==> forall|i: int| 0 <= i < len ==> s->0@[i] != 0,
        len == text(s).len(),
        s is Some ==> len < s->0@.len() && text(s) == s->0@.take(len as int),
{
    match s {
        None => 0,
        Some(memory) => {
            let mut len: usize = 0;
            let ghost nul = choose|i: int| 0 <= i < memory@.len() && memory@[i] == 0i8;
            while memory[len] != 0
                invariant
                    0 <= len <= nul < memory@.len(),
                    memory@[nul] == 0,
                    forall|i: int| 0 <= i < len ==> memory@[i] != 0,
                decreases nul - len,
            {
                len += 1;
            }
            proof {
                lemma_first_terminator(memory@, len as int);
            }
            len
        },
    }
}

/// Copies the string at `path` over the start of `tmp_path`.
///
/// A string shorter than `max_len` is copied with its terminator, and its length is returned.
/// A string that is too long fills the buffer as far as it goes, without a terminator, and
/// `-1` is returned.
pub fn strlcpy_from_user(tmp_path: &mut [i8], path: Option<&[i8]>, max_len: usize) -> (ret: i32)
    requires
        readable(path),
        text(path).len() < max_len ==> text(path).len() < old(tmp_path)@.len(),
        text(path).len() < max_len ==> text(path).len() <= i32::MAX,
    ensures
        ret == (if text(path).len() < max_len { text(path).len() as int } else { -1 }),
        final(tmp_path)@ == overlaid(
            old(tmp_path)@,
            if text(path).len() < max_len { text(path).push(0i8) } else { text(path) },
        ),
        final(tmp_path)@.len() == old(tmp_path)@.len(),
        ret >= 0 || ret == -1,
        path is None && max_len > 0 ==> ret == 0,
        ret >= 0 ==> ret < max_len && final(tmp_path)@[ret as int] == 0,
        ret >= 0 ==> forall|i: int|
            ret < i < old(tmp_path)@.len() ==> final(tmp_path)@[i] == old(tmp_path)@[i],
        ret >= 0 && path is Some ==> path->0@[ret as int] == 0,
        ret >= 0 && path is Some ==> forall|i: int|
            0 <= i < ret ==> path->0@[i] != 0 && final(tmp_path)@[i] == path->0@[i],
        ret < 0 && path is None ==> max_len == 0 && final(tmp_path)@ == old(tmp_path)@,
        ret < 0 && path is Some ==> forall|i: int|
            0 <= i < max_len ==> i < path->0@.len() && path->0@[i] != 0,
        ret < 0 ==> forall|i: int|
            0 <= i < old(tmp_path)@.len() ==> final(tmp_path)@[i] == (if i < text(path).len() {
                path->0@[i]
            } else {
                old(tmp_path)@[i]
            }),
{
    let len = str_len(path);
    let ghost before = tmp_path@;
    let room = tmp_path.len();
    let mut i: usize = 0;
    if let Some(memory) = path {
        while i < len && i < room
            invariant
                i <= len < memory@.len(),
                i <= room,
                room == before.len(),
                tmp_path@.len() == before.len(),
                text(path) == memory@.take(len as int),
                forall|j: int| 0 <= j < i ==> tmp_path@[j] == memory@[j],
                forall|j: int| i <= j < before.len() ==> tmp_path@[j] == before[j],
            decreases len - i,
        {
            tmp_path[i] = memory[i];
            i += 1;
        }
    }
    if len < max_len {
        tmp_path[len] = 0;
        assert(tmp_path@ =~= overlaid(before, text(path).push(0i8)));
        len as i32
    } else {
        assert(tmp_path@ =~= overlaid(before, text(path)));
        -1
    }
}

/// A path in its buffer: the text, then zeros to the end.
pub open spec fn padded(text: Seq<i8>) -> Seq<i8> {
    Seq::new(
        IPC_PORT_PATH_MAX as nat,
        |i: int|
            if i < text.len() {
                text[i]
            } else {
                0i8
            },
    )
}

/// A path that has room for its terminator reads back from its buffer as it is. The buffer has
/// 256 bytes, and behind the path there are only zeros.
pub proof fn law_padded_path_reads_back(text: Seq<i8>)
    requires
        text.len() < 256,
        forall|i: int| 0 <= i < text.len() ==> text[i] != 0,
    ensures
        padded(text).len() == 256,
        string_in(padded(text)) == text,
        forall|i: int| text.len() <= i < 256 ==> padded(text)[i] == 0,
{
    let buffer = padded(text);
    assert(buffer[text.len() as int] == 0);
    lemma_first_terminator(buffer, text.len() as int);
    assert(string_in(buffer) =~= text);
}

/// Judges what a copy into the path buffer returned: a negative number when the text was too
/// long for the copy, else the length of the text, which the terminator has to follow.
pub fn check_copied(ret: i32, no_terminator: IpcError) -> (result: Result<(), IpcError>)
    ensures
        result == (if ret < 0 {
            Err(IpcError::BufferOverflow)
        } else if ret >= IPC_PORT_PATH_MAX {
            Err(no_terminator)
        } else {
            Ok(())
        }),
        0 <= ret < 256 <==> result is Ok,
{
    if ret < 0 {
        return Err(IpcError::BufferOverflow);
    }
    if ret as usize >= IPC_PORT_PATH_MAX {
        return Err(no_terminator);
    }
    Ok(())
}

/// Brings the path of a request into a buffer of its own.
pub fn copy_path(path: Option<&[i8]>, no_terminator: IpcError) -> (result: Result<
    [i8; IPC_PORT_PATH_MAX],
    IpcError,
>)
    requires
        readable(path),
    ensures
        text(path).len() >= IPC_PORT_PATH_MAX ==> result == Err::<[i8; IPC_PORT_PATH_MAX], IpcError>(
            IpcError::BufferOverflow,
        ),
        text(path).len() < IPC_PORT_PATH_MAX ==> result is Ok && result->Ok_0@ == padded(
            text(path),
        ) && string_in(result->Ok_0@) == text(path),
        result is Ok <==> path is None || exists|i: int|
            0 <= i < 256 && i < path->0@.len() && path->0@[i] == 0,
        result is Ok ==> result->Ok_0@.len() == 256 && text(path).len() < 256,
        result is Ok ==> forall|i: int|
            0 <= i < 256 ==> #[trigger] result->Ok_0@[i] == (if i < text(path).len() {
                path->0@[i]
            } else {
                0i8
            }),
{
    proof {
        law_argument_ends_at_first_zero(path);
    }
    let mut tmp_path: [i8; IPC_PORT_PATH_MAX] = [0i8; IPC_PORT_PATH_MAX];
    let ghost blank = tmp_path@;
    let ret = strlcpy_from_user(&mut tmp_path, path, IPC_PORT_PATH_MAX);
    match check_copied(ret, no_terminator) {
        Err(error) => Err(error),
        Ok(()) => {
            proof {
                law_copy_reads_back(blank, path);
                assert(tmp_path@ =~= padded(text(path)));
            }
            Ok(tmp_path)
        },
    }
}

} // verus!
