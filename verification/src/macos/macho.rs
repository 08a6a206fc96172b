//! Reading Mach-O binaries: the magic number, the load commands one by one
//! through the goblin crate, the library names they point at, and where the
//! first architecture of a multi-architecture container lies.

use vstd::prelude::*;
use vstd::string::StringExecFns;
use vstd::utf8::decode_utf8;
use vstd::utf8::valid_utf8;
use goblin::mach::load_command::CommandVariant;

verus! {

/// The error of the goblin crate.
#[verifier::external_type_specification]
#[verifier::external_body]
pub struct ExGoblinError(goblin::error::Error);

/// The magic number of a multi-architecture container.
pub const FAT_MAGIC: u32 = 0xcafe_babe;

/// How a Mach-O binary is laid out.
#[derive(Debug, Clone, Copy, PartialEq, Eq, Structural)]
pub struct MachLayout {
    /// Whether the binary is a 64-bit one.
    pub is_64: bool,
    /// Whether its numbers have the least significant byte first.
    pub little_endian: bool,
}

/// What the first four bytes of an object say.
#[derive(Debug, Clone, Copy)]
pub struct MachMagic {
    /// The magic number, read with the most significant byte first.
    pub magic: u32,
    /// The layout, where the magic number is that of a Mach-O binary.
    pub layout: Option<MachLayout>,
}

/// What the logic reads of one load command.
#[derive(Debug, Clone, Copy)]
pub struct CommandInfo {
    /// Where the next load command begins.
    pub next: usize,
    /// For a command that loads a library: where its name begins, counted
    /// from the beginning of the command.
    pub name_at: Option<u32>,
}

/// The number that four bytes write, most significant byte first.
pub open spec fn be_u32(bytes: Seq<u8>, at: int) -> int {
    bytes[at] as int * 16777216 + bytes[at + 1] as int * 65536 + bytes[at + 2] as int * 256
        + bytes[at + 3] as int
}

/// The number that four bytes write, least significant byte first.
pub open spec fn le_u32(bytes: Seq<u8>, at: int) -> int {
    bytes[at + 3] as int * 16777216 + bytes[at + 2] as int * 65536 + bytes[at + 1] as int * 256
        + bytes[at] as int
}

/// A number of the header in the byte order of the binary.
pub open spec fn header_u32(bytes: Seq<u8>, at: int, little_endian: bool) -> int {
    if little_endian {
        le_u32(bytes, at)
    } else {
        be_u32(bytes, at)
    }
}

/// The layout that a magic number stands for, read with the most
/// significant byte first: the two magic numbers of 32-bit and of 64-bit
/// binaries, each as written on a machine of either byte order.
pub open spec fn layout_of_magic(magic: u32) -> Option<MachLayout> {
    if magic == 0xfeed_face {
        Some(MachLayout { is_64: false, little_endian: false })
    } else if magic == 0xcefa_edfe {
        Some(MachLayout { is_64: false, little_endian: true })
    } else if magic == 0xfeed_facf {
        Some(MachLayout { is_64: true, little_endian: false })
    } else if magic == 0xcffa_edfe {
        Some(MachLayout { is_64: true, little_endian: true })
    } else {
        None
    }
}

/// The length of the header of a binary.
pub open spec fn header_len(layout: MachLayout) -> int {
    if layout.is_64 {
        32
    } else {
        28
    }
}

/// What `LoadCommand::parse` of the goblin crate makes of the bytes at an
/// offset: nothing where it fails, and otherwise where the next command
/// begins, and for a command that loads a library the offset of its name
/// within the command.
pub uninterp spec fn goblin_load_command(bytes: Seq<u8>, offset: int, little_endian: bool) -> Option<
    (int, Option<int>),
>;

/// `parse_magic_and_ctx` of goblin's `mach` module at offset 0. It reads the
/// first four bytes as one number, most significant byte first, and fails
/// only where there are fewer than four bytes; the layout goes by the magic
/// number alone.
#[verifier::external_body]
pub(crate) fn read_magic(bytes: &[u8]) -> (r: Result<MachMagic, goblin::error::Error>)
    ensures
        match r {
            Ok(m) => bytes@.len() >= 4 && m.magic as int == be_u32(bytes@, 0) && m.layout
                == layout_of_magic(m.magic),
            Err(_) => bytes@.len() < 4,
        },
{
    let (magic, ctx) = goblin::mach::parse_magic_and_ctx(bytes, 0)?;
    let layout = match ctx {
        Some(c) => Some(MachLayout { is_64: c.container.is_big(), little_endian: c.le.is_little() }),
        None => None,
    };
    Ok(MachMagic { magic, layout })
}

/// `LoadCommand::parse` of the goblin crate. Of what it returns, the offset
/// of the next command is kept, and for each of the five commands that load
/// a library the offset of the library's name. A command never reaches past
/// the end of the bytes, and the next command never lies before this one.
#[verifier::external_body]
pub(crate) fn load_command_at(bytes: &[u8], offset: usize, little_endian: bool) -> (r: Result<
    CommandInfo,
    goblin::error::Error,
>)
    ensures
        match r {
            Ok(c) => goblin_load_command(bytes@, offset as int, little_endian) == Some(
                (
                    c.next as int,
                    match c.name_at {
                        Some(n) => Some(n as int),
                        None => None,
                    },
                ),
            ) && offset <= c.next <= bytes@.len(),
            Err(_) => goblin_load_command(bytes@, offset as int, little_endian) is None,
        },
{
    let mut next = offset;
    let endian = goblin::container::Endian::from(little_endian);
    let name_at = match goblin::mach::load_command::LoadCommand::parse(bytes, &mut next, endian)?.command {
        CommandVariant::LoadDylib(c) => Some(c.dylib.name),
        CommandVariant::LoadUpwardDylib(c) => Some(c.dylib.name),
        CommandVariant::ReexportDylib(c) => Some(c.dylib.name),
        CommandVariant::LoadWeakDylib(c) => Some(c.dylib.name),
        CommandVariant::LazyLoadDylib(c) => Some(c.dylib.name),
        _ => None,
    };
    Ok(CommandInfo { next, name_at })
}

/// The text of a goblin error, as its `Display` writes it.
#[verifier::external_body]
pub(crate) fn goblin_error_text(e: &goblin::error::Error) -> (r: String) {
    e.to_string()
}

/// `String::from_utf8` of std: the text that the bytes encode, where they
/// are valid UTF-8.
#[verifier::external_body]
pub(crate) fn text_from_utf8(bytes: Vec<u8>) -> (r: Option<String>)
    ensures
        match r {
            Some(text) => valid_utf8(bytes@) && text@ == decode_utf8(bytes@),
            None => !valid_utf8(bytes@),
        },
{
    match String::from_utf8(bytes) {
        Ok(text) => Some(text),
        Err(_) => None,
    }
}

/// The index of the first zero byte at or behind `from`, or the length of
/// the bytes where none follows.
pub open spec fn nul_or_end(bytes: Seq<u8>, from: int) -> int
    decreases bytes.len() - from,
{
    if from < 0 || from >= bytes.len() {
        bytes.len() as int
    } else if bytes[from] == 0 {
        from
    } else {
        nul_or_end(bytes, from + 1)
    }
}

/// The name that begins at `at` and ends before the next zero byte or at
/// the end of the bytes. There is none where `at` lies behind the end or the
/// bytes of the name are no UTF-8.
pub open spec fn name_at(bytes: Seq<u8>, at: int) -> Option<Seq<char>> {
    if at < 0 || at > bytes.len() {
        None
    } else {
        let raw = bytes.subrange(at, nul_or_end(bytes, at));
        if valid_utf8(raw) {
            Some(decode_utf8(raw))
        } else {
            None
        }
    }
}

/// The libraries that the next `count` load commands from `offset` on name,
/// in order. There are none where a command cannot be parsed or a name
/// cannot be read.
pub open spec fn command_libs(bytes: Seq<u8>, offset: int, little_endian: bool, count: nat) -> Option<
    Seq<Seq<char>>,
>
    decreases count,
{
    if count == 0 {
        Some(Seq::empty())
    } else {
        match goblin_load_command(bytes, offset, little_endian) {
            None => None,
            Some((next, name)) => {
                let rest = command_libs(bytes, next, little_endian, (count - 1) as nat);
                match name {
                    None => rest,
                    Some(n) => match (name_at(bytes, offset + n), rest) {
                        (Some(lib), Some(others)) => Some(seq![lib] + others),
                        _ => None,
                    },
                }
            },
        }
    }
}

/// The libraries of a binary of one architecture: the binary itself under
/// the name `self`, and then what its load commands name. The header holds
/// the number of commands at byte 16 and their size at byte 20; a binary of
/// fewer than 32 bytes, or one whose header counts more commands than their
/// size or the bytes allow, has none.
pub open spec fn macho_libs(bytes: Seq<u8>, layout: MachLayout) -> Option<Seq<Seq<char>>> {
    let count = header_u32(bytes, 16, layout.little_endian);
    let size = header_u32(bytes, 20, layout.little_endian);
    if bytes.len() < 32 || count > size / 8 || size > bytes.len() {
        None
    } else {
        match command_libs(bytes, header_len(layout), layout.little_endian, count as nat) {
            Some(libs) => Some(seq!["self"@] + libs),
            None => None,
        }
    }
}

/// Where the first architecture of a multi-architecture container lies: the
/// container's header is eight bytes, of which the last four count the
/// architectures; the first architecture's entry follows at once, with its
/// offset at byte 16 and its size at byte 20. There is no such slice where
/// the container names no architecture or the slice runs past the end.
pub open spec fn first_slice(bytes: Seq<u8>) -> Option<(int, int)> {
    if bytes.len() < 28 || be_u32(bytes, 4) == 0 {
        None
    } else {
        let start = be_u32(bytes, 16);
        let end = start + be_u32(bytes, 20);
        if end <= bytes.len() {
            Some((start, end))
        } else {
            None
        }
    }
}

fn read_be_u32(bytes: &[u8], at: usize) -> (r: u64)
    requires
        at + 4 <= bytes.len(),
    ensures
        r as int == be_u32(bytes@, at as int),
        r <= 0xffff_ffff,
{
    (bytes[at] as u64) * 16777216 + (bytes[at + 1] as u64) * 65536 + (bytes[at + 2] as u64) * 256
        + (bytes[at + 3] as u64)
}

fn read_header_u32(bytes: &[u8], at: usize, little_endian: bool) -> (r: u64)
    requires
        at + 4 <= bytes.len(),
    ensures
        r as int == header_u32(bytes@, at as int, little_endian),
        r <= 0xffff_ffff,
{
    if little_endian {
        (bytes[at + 3] as u64) * 16777216 + (bytes[at + 2] as u64) * 65536 + (bytes[at + 1] as u64)
            * 256 + (bytes[at] as u64)
    } else {
        read_be_u32(bytes, at)
    }
}

/// Where the first architecture of a multi-architecture container lies.
pub fn first_fat_slice(bytes: &[u8]) -> (r: Option<(usize, usize)>)
    ensures
        match r {
            Some((start, end)) => first_slice(bytes@) == Some((start as int, end as int)) && start
                <= end <= bytes.len(),
            None => first_slice(bytes@) is None,
        },
{
    if bytes.len() < 28 {
        return None;
    }
    if read_be_u32(bytes, 4) == 0 {
        return None;
    }
    let start = read_be_u32(bytes, 16);
    let end = start + read_be_u32(bytes, 20);
    if end <= bytes.len() as u64 {
        Some((start as usize, end as usize))
    } else {
        None
    }
}

/// The name that begins at `at`.
pub fn read_name(bytes: &[u8], at: usize) -> (r: Option<String>)
    ensures
        match r {
            Some(text) => name_at(bytes@, at as int) == Some(text@),
            None => name_at(bytes@, at as int) is None,
        },
{
    if at > bytes.len() {
        return None;
    }
    let mut raw: Vec<u8> = Vec::new();
    let mut i: usize = at;
    while i < bytes.len() && bytes[i] != 0
        invariant
            at <= i <= bytes.len(),
            raw@ == bytes@.subrange(at as int, i as int),
            nul_or_end(bytes@, at as int) == nul_or_end(bytes@, i as int),
        decreases bytes.len() - i,
    {
        raw.push(bytes[i]);
        proof {
            assert(raw@ =~= bytes@.subrange(at as int, i + 1));
        }
        i += 1;
    }
    text_from_utf8(raw)
}

/// The libraries that the next `count` load commands from `offset` on name.
fn read_command_libs(bytes: &[u8], offset: usize, little_endian: bool, count: u64) -> (r: Result<
    Vec<String>,
    String,
>)
    requires
        offset <= bytes.len(),
    ensures
        match r {
            Ok(libs) => command_libs(bytes@, offset as int, little_endian, count as nat) == Some(
                libs.deep_view(),
            ),
            Err(_) => command_libs(bytes@, offset as int, little_endian, count as nat) is None,
        },
{
    let mut libs: Vec<String> = Vec::new();
    let mut at: usize = offset;
    let mut done: u64 = 0;
    let ghost whole = command_libs(bytes@, offset as int, little_endian, count as nat);
    proof {
        assert(libs.deep_view() =~= Seq::<Seq<char>>::empty());
        assert(Seq::<Seq<char>>::empty() + command_libs(
            bytes@,
            offset as int,
            little_endian,
            count as nat,
        ).unwrap() =~= command_libs(bytes@, offset as int, little_endian, count as nat).unwrap());
    }
    while done < count
        invariant
            done <= count,
            at <= bytes.len(),
            whole == command_libs(bytes@, offset as int, little_endian, count as nat),
            whole == match command_libs(bytes@, at as int, little_endian, (count - done) as nat) {
                Some(rest) => Some(libs.deep_view() + rest),
                None => None,
            },
        decreases count - done,
    {
        let command = match load_command_at(bytes, at, little_endian) {
            Ok(c) => c,
            Err(e) => {
                return Err(goblin_error_text(&e));
            },
        };
        let ghost rest = command_libs(bytes@, command.next as int, little_endian, (count - done - 1) as nat);
        match command.name_at {
            None => {},
            Some(n) => {
                if n as u64 > (bytes.len() - at) as u64 {
                    return Err(String::from_str("a library name lies behind the end of the binary"));
                }
                let place: usize = at + n as usize;
                match read_name(bytes, place) {
                    None => {
                        return Err(String::from_str("a library name cannot be read"));
                    },
                    Some(lib) => {
                        let ghost before = libs.deep_view();
                        proof {
                            if rest is Some {
                                assert((before.push(lib@)) + rest.unwrap() =~= before + (seq![lib@]
                                    + rest.unwrap()));
                            }
                        }
                        libs.push(lib);
                        proof {
                            assert(libs.deep_view() =~= before.push(lib@));
                        }
                    },
                }
            },
        }
        at = command.next;
        done += 1;
    }
    proof {
        assert(libs.deep_view() + Seq::<Seq<char>>::empty() =~= libs.deep_view());
    }
    Ok(libs)
}

/// The libraries of a binary of one architecture.
pub fn read_macho_libs(bytes: &[u8], layout: MachLayout) -> (r: Result<Vec<String>, String>)
    ensures
        match r {
            Ok(libs) => macho_libs(bytes@, layout) == Some(libs.deep_view()),
            Err(_) => macho_libs(bytes@, layout) is None,
        },
{
    if bytes.len() < 32 {
        return Err(String::from_str("bytes size is smaller than a Mach-o header"));
    }
    let count = read_header_u32(bytes, 16, layout.little_endian);
    let size = read_header_u32(bytes, 20, layout.little_endian);
    if count > size / 8 || size > bytes.len() as u64 {
        return Err(String::from_str("Buffer is too short for the load commands"));
    }
    let start: usize = if layout.is_64 {
        32
    } else {
        28
    };
    match read_command_libs(bytes, start, layout.little_endian, count) {
        Err(e) => Err(e),
        Ok(named) => {
            let mut libs: Vec<String> = Vec::new();
            libs.push(String::from_str("self"));
            let mut i: usize = 0;
            while i < named.len()
                invariant
                    i <= named.len(),
                    libs.deep_view() == seq!["self"@] + named.deep_view().subrange(0, i as int),
                decreases named.len() - i,
            {
                let ghost before = libs.deep_view();
                libs.push(String::from_str(named[i].as_str()));
                proof {
                    assert(libs.deep_view() =~= before.push(named[i as int]@));
                    assert(before.push(named[i as int]@) =~= seq!["self"@]
                        + named.deep_view().subrange(0, i + 1));
                }
                i += 1;
            }
            proof {
                assert(named.deep_view().subrange(0, named.len() as int) =~= named.deep_view());
            }
            Ok(libs)
        },
    }
}

} // verus!
