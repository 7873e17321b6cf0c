use vstd::prelude::*;
use vstd::string::StringSliceAdditionalSpecFns;
use crate::signature::{Signature, first_match, pattern_of, is_signature_text};

verus! {

/// The code that stores the room id in the 64-bit build; the store's
/// displacement follows the two opcode bytes.
pub const ROOM_ID_SIG64: &'static str = "89 05 ?? ?? ?? ?? 48 8B 03 4C 8D 43 38 BA 06 00 00 00 48 8B CB FF 50 ?? 33 D2 48 8D 4B 38 E8 ?? ?? ?? ?? 89 05 ?? ?? ?? ?? 48 8B 03 4C 8D 43 38 BA 06 00 00 00 48 8B CB FF 50 ?? 33 D2 48 8D 4B 38 E8 ?? ?? ?? ?? 89 05 ?? ?? ?? ?? 48 8B 03 4C 8D 43 38 BA 06 00 00 00 48 8B CB FF 50 ?? 33 D2 48 8D 4B 38 E8 ?? ?? ?? ?? 89 05 ?? ?? ?? ?? 48 8B 03 4C 8D 43 38 BA 06 00 00 00 48 8B CB FF 50 ?? 33 D2 48 8D 4B 38 E8 ?? ?? ?? ?? 88 05";

/// The code that stores the room-name array in the 64-bit build; the
/// displacement follows the three opcode bytes.
pub const ROOM_ARRAY_SIG64: &'static str = "48 89 3D ?? ?? ?? ?? 48 8B 5C 24 30";

/// The code that stores the room id in the 32-bit build; the absolute
/// address follows the one opcode byte.
pub const ROOM_ID_SIG32: &'static str = "A3 ?? ?? ?? ?? 8B 06 8B CE 57 6A 06 FF 50 ?? 6A 00 57 E8 ?? ?? ?? ?? 83 C4 08 A3 ?? ?? ?? ?? 8B 06 8B CE 57 6A 06 FF 50 ?? 6A 00 57 E8 ?? ?? ?? ?? 83 C4 08 A3 ?? ?? ?? ?? 8B 06 8B CE 57 6A 06 FF 50 ?? 6A 00 57 E8 ?? ?? ?? ?? 83 C4 08 A3 ?? ?? ?? ?? 8B 06 8B CE 57 6A 06 FF 50 ?? 6A 00 57 E8 ?? ?? ?? ?? 83 C4 08 A2";

/// The code that loads the room-name array in the 32-bit build; the
/// absolute address follows the one opcode byte.
pub const ROOM_ARRAY_SIG32: &'static str = "A1 ?? ?? ?? ?? 89 1C 90 42 89 55 08";

/// Where the displacement sits in a match of `ROOM_ID_SIG64`.
pub const ROOM_ID_DISP64: usize = 2;

/// Where the displacement sits in a match of `ROOM_ARRAY_SIG64`.
pub const ROOM_ARRAY_DISP64: usize = 3;

/// Where the absolute address sits in a match of either 32-bit signature.
pub const ABSOLUTE_AT32: usize = 1;

/// The pointer width of the game's build.
#[derive(Clone, Copy, Debug, PartialEq, Eq, Structural)]
pub enum PointerWidth {
    Bits32,
    Bits64,
}

impl PointerWidth {
    /// The size of a pointer in bytes.
    pub open spec fn size(self) -> int {
        match self {
            PointerWidth::Bits32 => 4,
            PointerWidth::Bits64 => 8,
        }
    }

    /// The size of a pointer in bytes.
    pub fn pointer_size(&self) -> (r: u64)
        ensures
            r == self.size(),
    {
        match self {
            PointerWidth::Bits32 => 4,
            PointerWidth::Bits64 => 8,
        }
    }
}

/// The cells that the room sampler reads.
#[derive(Clone, Copy, Debug, PartialEq, Eq, Structural)]
pub struct ResolvedAddresses {
    /// The cell that holds the current room id.
    pub room_id: u64,
    /// The cell that points to the array of room names, indexed by room id.
    pub room_id_array: u64,
    pub width: PointerWidth,
}

/// The signatures of one build of the game, for both pointer widths.
#[derive(Debug)]
pub struct SignatureSet {
    pub room_id_64: Signature,
    pub room_array_64: Signature,
    pub room_id_32: Signature,
    pub room_array_32: Signature,
}

impl SignatureSet {
    /// The signatures of "Sonic Triple Trouble 16-Bit"; `None` only if one of
    /// the texts above were malformed.
    pub fn triple_trouble() -> (r: Option<SignatureSet>)
        ensures
            r is Some <==> {
                &&& is_signature_text(ROOM_ID_SIG64.spec_bytes())
                &&& is_signature_text(ROOM_ARRAY_SIG64.spec_bytes())
                &&& is_signature_text(ROOM_ID_SIG32.spec_bytes())
                &&& is_signature_text(ROOM_ARRAY_SIG32.spec_bytes())
            },
            r matches Some(s) ==> {
                &&& s.room_id_64.pattern@ == pattern_of(ROOM_ID_SIG64.spec_bytes())
                &&& s.room_array_64.pattern@ == pattern_of(ROOM_ARRAY_SIG64.spec_bytes())
                &&& s.room_id_32.pattern@ == pattern_of(ROOM_ID_SIG32.spec_bytes())
                &&& s.room_array_32.pattern@ == pattern_of(ROOM_ARRAY_SIG32.spec_bytes())
            },
    {
        let room_id_64 = Signature::parse(ROOM_ID_SIG64.as_bytes());
        let room_array_64 = Signature::parse(ROOM_ARRAY_SIG64.as_bytes());
        let room_id_32 = Signature::parse(ROOM_ID_SIG32.as_bytes());
        let room_array_32 = Signature::parse(ROOM_ARRAY_SIG32.as_bytes());
        match (room_id_64, room_array_64, room_id_32, room_array_32) {
            (Some(a), Some(b), Some(c), Some(d)) => Some(
                SignatureSet { room_id_64: a, room_array_64: b, room_id_32: c, room_array_32: d },
            ),
            _ => None,
        }
    }
}

/// The little-endian unsigned 32-bit integer at offset `i` of `mem`, if its
/// four bytes are there and readable.
pub open spec fn le_u32_at(mem: Seq<Option<u8>>, i: int) -> Option<int> {
    if 0 <= i && i + 4 <= mem.len() && mem[i] is Some && mem[i + 1] is Some && mem[i + 2] is Some
        && mem[i + 3] is Some {
        Some(
            mem[i]->0 + 256 * mem[i + 1]->0 + 65536 * mem[i + 2]->0 + 16777216 * mem[i + 3]->0,
        )
    } else {
        None
    }
}

/// The little-endian signed 32-bit integer at offset `i` of `mem`.
pub open spec fn le_i32_at(mem: Seq<Option<u8>>, i: int) -> Option<int> {
    match le_u32_at(mem, i) {
        Some(u) => Some(
            if u >= 0x8000_0000 {
                u - 0x1_0000_0000
            } else {
                u
            },
        ),
        None => None,
    }
}

/// The target of a program-counter-relative operand: the displacement at
/// `disp_at` within the first match of `pat`, added to the address where
/// the instruction ends, right after the displacement.
pub open spec fn relative_target(
    pat: Seq<Option<u8>>,
    mem: Seq<Option<u8>>,
    base: int,
    disp_at: int,
) -> Option<int> {
    match first_match(pat, mem) {
        Some(i) => match le_i32_at(mem, i + disp_at) {
            Some(d) => Some(base + i + disp_at + 4 + d),
            None => None,
        },
        None => None,
    }
}

/// The absolute 32-bit address embedded at `at` within the first match of
/// `pat`.
pub open spec fn absolute_target(pat: Seq<Option<u8>>, mem: Seq<Option<u8>>, at: int) -> Option<
    int,
> {
    match first_match(pat, mem) {
        Some(i) => le_u32_at(mem, i + at),
        None => None,
    }
}

/// Whether `x` is an address of the 64-bit address space.
pub open spec fn is_address(x: int) -> bool {
    0 <= x <= u64::MAX
}

/// What resolution yields on the image `mem` of the main module loaded at
/// `base`: the build is 64-bit exactly when the 64-bit room-id signature is
/// present; both cells must then be found, or nothing is.
pub open spec fn resolve_spec(sigs: SignatureSet, mem: Seq<Option<u8>>, base: int) -> Option<
    ResolvedAddresses,
> {
    if first_match(sigs.room_id_64.pattern@, mem) is Some {
        let room = relative_target(sigs.room_id_64.pattern@, mem, base, ROOM_ID_DISP64 as int);
        let array = relative_target(
            sigs.room_array_64.pattern@,
            mem,
            base,
            ROOM_ARRAY_DISP64 as int,
        );
        match (room, array) {
            (Some(r), Some(a)) => if is_address(r) && is_address(a) {
                Some(
                    ResolvedAddresses {
                        room_id: r as u64,
                        room_id_array: a as u64,
                        width: PointerWidth::Bits64,
                    },
                )
            } else {
                None
            },
            _ => None,
        }
    } else {
        let room = absolute_target(sigs.room_id_32.pattern@, mem, ABSOLUTE_AT32 as int);
        let array = absolute_target(sigs.room_array_32.pattern@, mem, ABSOLUTE_AT32 as int);
        match (room, array) {
            (Some(r), Some(a)) => Some(
                ResolvedAddresses {
                    room_id: r as u64,
                    room_id_array: a as u64,
                    width: PointerWidth::Bits32,
                },
            ),
            _ => None,
        }
    }
}

/// Reads the little-endian unsigned 32-bit integer at offset `i` of `mem`.
pub fn read_u32_le(mem: &[Option<u8>], i: usize) -> (r: Option<u32>)
    ensures
        r is Some <==> le_u32_at(mem@, i as int) is Some,
        r matches Some(v) ==> le_u32_at(mem@, i as int) == Some(v as int),
{
    if i > mem.len() || mem.len() - i < 4 {
        return None;
    }
    match (mem[i], mem[i + 1], mem[i + 2], mem[i + 3]) {
        (Some(b0), Some(b1), Some(b2), Some(b3)) => Some(
            b0 as u32 + 256 * (b1 as u32) + 65536 * (b2 as u32) + 16777216 * (b3 as u32),
        ),
        _ => None,
    }
}

/// Reads the little-endian signed 32-bit integer at offset `i` of `mem`.
pub fn read_i32_le(mem: &[Option<u8>], i: usize) -> (r: Option<i64>)
    ensures
        r is Some <==> le_i32_at(mem@, i as int) is Some,
        r matches Some(v) ==> le_i32_at(mem@, i as int) == Some(v as int),
{
    match read_u32_le(mem, i) {
        Some(u) => {
            if u >= 0x8000_0000 {
                Some(u as i64 - 0x1_0000_0000)
            } else {
                Some(u as i64)
            }
        },
        None => None,
    }
}

/// Finds the target of the program-counter-relative operand of `sig`.
fn find_relative(sig: &Signature, mem: &[Option<u8>], base: u64, disp_at: usize) -> (r: Option<
    u64,
>)
    requires
        disp_at <= 8,
    ensures
        r is Some <==> (relative_target(sig.pattern@, mem@, base as int, disp_at as int) matches Some(
            t,
        ) && is_address(t)),
        r matches Some(v) ==> relative_target(sig.pattern@, mem@, base as int, disp_at as int)
            == Some(v as int),
{
    match sig.scan(mem) {
        Some(i) => {
            if disp_at > mem.len() - i {
                assert(le_i32_at(mem@, i + disp_at) is None);
                return None;
            }
            match read_i32_le(mem, i + disp_at) {
                Some(d) => {
                    let t: i128 = base as i128 + i as i128 + disp_at as i128 + 4 + d as i128;
                    if 0 <= t && t <= u64::MAX as i128 {
                        Some(t as u64)
                    } else {
                        None
                    }
                },
                None => None,
            }
        },
        None => None,
    }
}

/// Finds the absolute address embedded in the first match of `sig`.
fn find_absolute(sig: &Signature, mem: &[Option<u8>], at: usize) -> (r: Option<u64>)
    requires
        at <= 8,
    ensures
        r is Some <==> absolute_target(sig.pattern@, mem@, at as int) is Some,
        r matches Some(v) ==> absolute_target(sig.pattern@, mem@, at as int) == Some(v as int),
{
    match sig.scan(mem) {
        Some(i) => {
            if at > mem.len() - i {
                assert(le_u32_at(mem@, i + at) is None);
                return None;
            }
            match read_u32_le(mem, i + at) {
                Some(v) => Some(v as u64),
                None => None,
            }
        },
        None => None,
    }
}

/// Computes the room cells from the image `mem` of the main module, loaded
/// at `base`. Bytes that could not be read are `None`.
pub fn resolve(sigs: &SignatureSet, mem: &[Option<u8>], base: u64) -> (r: Option<
    ResolvedAddresses,
>)
    ensures
        r == resolve_spec(*sigs, mem@, base as int),
{
    if sigs.room_id_64.scan(mem).is_some() {
        let room = find_relative(&sigs.room_id_64, mem, base, ROOM_ID_DISP64);
        let array = find_relative(&sigs.room_array_64, mem, base, ROOM_ARRAY_DISP64);
        match (room, array) {
            (Some(r), Some(a)) => Some(
                ResolvedAddresses { room_id: r, room_id_array: a, width: PointerWidth::Bits64 },
            ),
            _ => None,
        }
    } else {
        let room = find_absolute(&sigs.room_id_32, mem, ABSOLUTE_AT32);
        let array = find_absolute(&sigs.room_array_32, mem, ABSOLUTE_AT32);
        match (room, array) {
            (Some(r), Some(a)) => Some(
                ResolvedAddresses { room_id: r, room_id_array: a, width: PointerWidth::Bits32 },
            ),
            _ => None,
        }
    }
}

/// The cells after one attempt: cells once found are kept; otherwise the
/// attempt's own result stands, so a failed attempt leaves nothing behind.
pub open spec fn after_attempt(
    kept: Option<ResolvedAddresses>,
    fresh: Option<ResolvedAddresses>,
) -> Option<ResolvedAddresses> {
    if kept is Some {
        kept
    } else {
        fresh
    }
}

/// The resolution state of one attachment to the game: unresolved until an
/// attempt succeeds, then fixed until the process closes.
#[derive(Debug)]
pub struct AddressResolver {
    pub resolved: Option<ResolvedAddresses>,
}

impl AddressResolver {
    /// A resolver that has found nothing yet.
    pub fn new() -> (r: AddressResolver)
        ensures
            r.resolved is None,
    {
        AddressResolver { resolved: None }
    }

    /// Resolves from scratch on the image `mem` of the main module loaded at
    /// `base`, unless the cells were already found; returns the cells known
    /// afterwards.
    pub fn attempt(&mut self, sigs: &SignatureSet, mem: &[Option<u8>], base: u64) -> (r: Option<
        ResolvedAddresses,
    >)
        ensures
            final(self).resolved == after_attempt(
                old(self).resolved,
                resolve_spec(*sigs, mem@, base as int),
            ),
            r == final(self).resolved,
    {
        if self.resolved.is_none() {
            self.resolved = resolve(sigs, mem, base);
        }
        self.resolved
    }

    /// Forgets the cells, as when the game process closes.
    pub fn forget(&mut self)
        ensures
            final(self).resolved is None,
    {
        self.resolved = None;
    }
}

/// Nothing resolves on an image none of whose bytes could be read.
pub proof fn lemma_unreadable_unresolved(sigs: SignatureSet, mem: Seq<Option<u8>>, base: int)
    requires
        forall|i: int| 0 <= i < mem.len() ==> mem[i] is None,
    ensures
        resolve_spec(sigs, mem, base) is None,
{
    if let Some(i) = first_match(sigs.room_id_64.pattern@, mem) {
        assert(le_u32_at(mem, i + ROOM_ID_DISP64) is None);
    } else {
        if let Some(i) = first_match(sigs.room_id_32.pattern@, mem) {
            assert(le_u32_at(mem, i + ABSOLUTE_AT32) is None);
        }
    }
}

/// Resolution is retried from nothing: when an attempt on a module that
/// could not be read fails, a later attempt on a readable module in which
/// resolution succeeds yields exactly what the first signature matches in
/// that module give.
pub proof fn lemma_retry_after_failure(
    sigs: SignatureSet,
    unreadable: Seq<Option<u8>>,
    base1: int,
    readable: Seq<Option<u8>>,
    base2: int,
)
    requires
        forall|i: int| 0 <= i < unreadable.len() ==> unreadable[i] is None,
        resolve_spec(sigs, readable, base2) is Some,
    ensures
        after_attempt(None, resolve_spec(sigs, unreadable, base1)) is None,
        after_attempt(
            after_attempt(None, resolve_spec(sigs, unreadable, base1)),
            resolve_spec(sigs, readable, base2),
        ) == resolve_spec(sigs, readable, base2),
{
    lemma_unreadable_unresolved(sigs, unreadable, base1);
}

} // verus!
