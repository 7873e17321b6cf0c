use vstd::prelude::*;
use crate::resolver::PointerWidth;

verus! {

/// The most bytes of a room name that are read.
pub const ROOM_NAME_CAPACITY: usize = 25;

/// How many bytes of `buf` may hold the room name.
pub open spec fn name_limit(buf: Seq<u8>) -> int {
    if buf.len() < ROOM_NAME_CAPACITY {
        buf.len() as int
    } else {
        ROOM_NAME_CAPACITY as int
    }
}

/// Whether `t` is the room name that `buf` holds: the bytes before the first
/// nul byte, and no more than the capacity.
pub open spec fn is_room_name(buf: Seq<u8>, t: Seq<u8>) -> bool {
    &&& t.len() <= name_limit(buf)
    &&& t == buf.take(t.len() as int)
    &&& forall|k: int| 0 <= k < t.len() ==> #[trigger] buf[k] != 0
    &&& t.len() == name_limit(buf) || buf[t.len() as int] == 0
}

/// The room name held in the nul-terminated bytes `buf`. A name that could
/// not be read is passed as an empty `buf`, and gives an empty name.
pub fn room_name(buf: &[u8]) -> (r: Vec<u8>)
    ensures
        is_room_name(buf@, r@),
{
    let limit = if buf.len() < ROOM_NAME_CAPACITY {
        buf.len()
    } else {
        ROOM_NAME_CAPACITY
    };
    let mut r: Vec<u8> = Vec::new();
    let mut i: usize = 0;
    while i < limit && buf[i] != 0
        invariant
            limit == name_limit(buf@),
            limit <= buf@.len(),
            0 <= i <= limit,
            r@ == buf@.take(i as int),
            forall|k: int| 0 <= k < i ==> #[trigger] buf@[k] != 0,
        decreases limit - i,
    {
        r.push(buf[i]);
        i = i + 1;
        assert(r@ =~= buf@.take(i as int));
    }
    r
}

/// The size of the address space of a build of the given width.
pub open spec fn address_space(w: PointerWidth) -> int {
    match w {
        PointerWidth::Bits32 => 0x1_0000_0000,
        PointerWidth::Bits64 => 0x1_0000_0000_0000_0000,
    }
}

/// The slot of the room-name array that points to the name of room
/// `room_id`, where the array starts at `array`; `None` where that slot lies
/// beyond the address space of the build.
pub fn slot_address(array: u64, room_id: u32, width: PointerWidth) -> (r: Option<u64>)
    ensures
        r is Some <==> array + room_id * width.size() < address_space(width),
        r matches Some(v) ==> v == array + room_id * width.size(),
{
    let offset: u64 = room_id as u64 * width.pointer_size();
    match width {
        PointerWidth::Bits32 => {
            if array < 0x1_0000_0000 && offset < 0x1_0000_0000 - array {
                Some(array + offset)
            } else {
                None
            }
        },
        PointerWidth::Bits64 => {
            if offset <= u64::MAX - array {
                Some(array + offset)
            } else {
                None
            }
        },
    }
}

} // verus!
