//! The USBD480 display: 480 by 272 pixels, written through the commands of
//! its stream decoder.

use vstd::prelude::*;

verus! {

/// The number horizontal pixels the screen contains.
pub const WIDTH: u32 = 480;

/// The number vertical pixels the screen contains.
pub const HEIGHT: u32 = 272;

/// The command identifier of the WRITE command for the stream decoder.
pub const WRITE_COMMAND: u16 = 0x5B41;

/// The command identifier for the WRAPLENGTH stream decoder command.
pub const WRAPLENGTH_COMMAND: u16 = 0x5B43;

/// The largest number of bytes of pixels that one WRITE command carries.
pub const MAX_PACKET_SIZE: usize = 4096;

/// The number of bytes that the display answers a request for its details
/// with.
pub const DEVICE_DETAILS_SIZE: usize = 64;

/// What the display tells of itself.
#[derive(Debug, Clone, PartialEq, Eq)]
pub struct DeviceDetails {
    /// The bytes of the name.
    pub name: Vec<u8>,
    pub display_width: u16,
    pub display_height: u16,
    pub version: u16,
    /// The bytes of the serial number.
    pub serial_number: Vec<u8>,
}

/// The two bytes of `x`, the low one first.
pub open spec fn le_bytes_u16(x: u16) -> Seq<u8> {
    seq![(x % 256) as u8, (x / 256) as u8]
}

/// The four bytes of `x`, the lowest one first.
pub open spec fn le_bytes_u32(x: u32) -> Seq<u8> {
    seq![
        (x % 256) as u8,
        ((x / 256) % 256) as u8,
        ((x / 65536) % 256) as u8,
        (x / 16777216) as u8,
    ]
}

/// The number whose two bytes are `low` and `high`.
pub open spec fn from_le_bytes_u16(low: u8, high: u8) -> u16 {
    (low + 256 * high) as u16
}

/// Where the first byte of zero lies among the first `n` of `bytes`, or
/// `None` where there is none.
pub open spec fn first_nul(bytes: Seq<u8>, n: nat) -> Option<nat>
    decreases n,
{
    if n == 0 || n > bytes.len() {
        None
    } else {
        match first_nul(bytes, (n - 1) as nat) {
            Some(at) => Some(at),
            None => if bytes[n - 1] == 0 {
                Some((n - 1) as nat)
            } else {
                None
            },
        }
    }
}

/// The WRAPLENGTH command: its identifier, and the length less one.
pub open spec fn spec_wrap_length_command(length: u16) -> Seq<u8> {
    le_bytes_u16(WRAPLENGTH_COMMAND) + le_bytes_u16((length - 1) as u16)
}

/// The head of a WRITE command: its identifier, the address of the first
/// pixel, and the number of pixels less one.
pub open spec fn spec_write_header(address: u32, pixel_count: u32) -> Seq<u8> {
    le_bytes_u16(WRITE_COMMAND) + le_bytes_u32(address) + le_bytes_u32(pixel_count)
}

/// The WRITE command that writes the pixels `chunk`, two bytes each, from
/// `address` on.
pub open spec fn spec_write_command(address: u32, chunk: Seq<u8>) -> Seq<u8> {
    spec_write_header(address, (chunk.len() / 2 - 1) as u32) + chunk
}

/// The address of the pixel in the column `x` of the row `y`.
pub open spec fn spec_pixel_address(x: u32, y: u32) -> int {
    y * 480 + x
}

/// The address behind `pixel_count + 1` pixels written from
/// `current_address` on, when the display wraps to the next row after
/// `width` pixels. The column of the address is what is left of it when it
/// is divided by `width`; the pixels fill rows of `width` pixels from that
/// column on, and each full row moves the address on by the 480 pixels of a
/// row of the display.
pub open spec fn spec_next_address(current_address: u32, pixel_count: u32, width: u32) -> int {
    let column = current_address % width;
    let written = column + pixel_count + 1;
    current_address - column + (written / width as int) * 480 + written % width as int
}

fn push_u16(bytes: &mut Vec<u8>, x: u16)
    ensures
        final(bytes)@ == old(bytes)@ + le_bytes_u16(x),
{
    bytes.push((x % 256) as u8);
    bytes.push((x / 256) as u8);
    assert(bytes@ =~= old(bytes)@ + le_bytes_u16(x));
}

fn push_u32(bytes: &mut Vec<u8>, x: u32)
    ensures
        final(bytes)@ == old(bytes)@ + le_bytes_u32(x),
{
    bytes.push((x % 256) as u8);
    bytes.push(((x / 256) % 256) as u8);
    bytes.push(((x / 65536) % 256) as u8);
    bytes.push((x / 16777216) as u8);
    assert(bytes@ =~= old(bytes)@ + le_bytes_u32(x));
}

fn read_u16(low: u8, high: u8) -> (x: u16)
    ensures
        x == from_le_bytes_u16(low, high),
{
    low as u16 + 256 * (high as u16)
}

fn copy_range(bytes: &[u8], from: usize, to: usize) -> (copy: Vec<u8>)
    requires
        from <= to <= bytes@.len(),
    ensures
        copy@ == bytes@.subrange(from as int, to as int),
{
    let mut copy: Vec<u8> = Vec::new();
    let mut i = from;
    while i < to
        invariant
            from <= i <= to <= bytes@.len(),
            copy@ == bytes@.subrange(from as int, i as int),
        decreases to - i,
    {
        copy.push(bytes[i]);
        assert(copy@ =~= bytes@.subrange(from as int, i + 1));
        i += 1;
    }
    copy
}

impl DeviceDetails {
    /// Reads the details from the 64 bytes that the display answers with.
    ///
    /// The name is the bytes before the first byte of zero among the first
    /// 20; without such a byte the answer is refused. Three numbers of two
    /// bytes each follow, the low byte first: width, height and version.
    /// The serial number is the ten bytes after them.
    pub fn from_bytes(bytes: &[u8; 64]) -> (details: Option<DeviceDetails>)
        ensures
            match first_nul(bytes@, 20) {
                None => details is None,
                Some(end) => details matches Some(read) && {
                    &&& read.name@ == bytes@.subrange(0, end as int)
                    &&& read.display_width == from_le_bytes_u16(bytes@[20], bytes@[21])
                    &&& read.display_height == from_le_bytes_u16(bytes@[22], bytes@[23])
                    &&& read.version == from_le_bytes_u16(bytes@[24], bytes@[25])
                    &&& read.serial_number@ == bytes@.subrange(26, 36)
                },
            },
    {
        let all = bytes.as_slice();
        let mut end: usize = 0;
        while end < 20 && all[end] != 0
            invariant
                end <= 20,
                all@ == bytes@,
                all@.len() == 64,
                first_nul(bytes@, end as nat) is None,
            decreases 20 - end,
        {
            end += 1;
        }
        if end == 20 {
            return None;
        }
        proof {
            lemma_first_nul_stays(bytes@, end as nat, 20);
        }
        Some(
            DeviceDetails {
                name: copy_range(all, 0, end),
                display_width: read_u16(all[20], all[21]),
                display_height: read_u16(all[22], all[23]),
                version: read_u16(all[24], all[25]),
                serial_number: copy_range(all, 26, 36),
            },
        )
    }
}

/// The first byte of zero among the first bytes is the first one among more
/// bytes too.
pub proof fn lemma_first_nul_stays(bytes: Seq<u8>, at: nat, n: nat)
    requires
        at < n <= bytes.len(),
        first_nul(bytes, at) is None,
        bytes[at as int] == 0,
    ensures
        first_nul(bytes, n) == Some(at),
    decreases n,
{
    if n > at + 1 {
        lemma_first_nul_stays(bytes, at, (n - 1) as nat);
    }
}

/// The command that sets the wrap length of the stream decoder: from then
/// on a WRITE command moves to the next row after `length` pixels.
pub fn wrap_length_command(length: u16) -> (command: Vec<u8>)
    requires
        length >= 1,
    ensures
        command@ == spec_wrap_length_command(length),
{
    let mut command: Vec<u8> = Vec::new();
    push_u16(&mut command, WRAPLENGTH_COMMAND);
    push_u16(&mut command, length - 1);
    assert(command@ =~= spec_wrap_length_command(length));
    command
}

/// The address of the pixel in the column `x` of the row `y`.
pub fn pixel_address(x: u32, y: u32) -> (address: u32)
    requires
        spec_pixel_address(x, y) <= u32::MAX,
    ensures
        address == spec_pixel_address(x, y),
{
    y * 480 + x
}

/// The command that writes one pixel of the colour `color`, in RGB565, at
/// `address`.
pub fn write_pixel_command(address: u32, color: u16) -> (command: Vec<u8>)
    ensures
        command@ == spec_write_header(address, 0) + le_bytes_u16(color),
{
    let mut command: Vec<u8> = Vec::new();
    push_u16(&mut command, WRITE_COMMAND);
    push_u32(&mut command, address);
    push_u32(&mut command, 0);
    push_u16(&mut command, color);
    assert(command@ =~= spec_write_header(address, 0) + le_bytes_u16(color));
    command
}

/// The command that writes the pixels `chunk`, two bytes each, from
/// `address` on.
pub fn write_command(address: u32, chunk: &[u8]) -> (command: Vec<u8>)
    requires
        2 <= chunk@.len(),
        chunk@.len() / 2 - 1 <= u32::MAX,
    ensures
        command@ == spec_write_command(address, chunk@),
{
    let pixel_count = (chunk.len() / 2 - 1) as u32;
    let mut command: Vec<u8> = Vec::new();
    push_u16(&mut command, WRITE_COMMAND);
    push_u32(&mut command, address);
    push_u32(&mut command, pixel_count);
    let ghost header = command@;
    let mut i: usize = 0;
    while i < chunk.len()
        invariant
            i <= chunk@.len(),
            command@ == header + chunk@.subrange(0, i as int),
        decreases chunk@.len() - i,
    {
        command.push(chunk[i]);
        assert(command@ =~= header + chunk@.subrange(0, i + 1));
        i += 1;
    }
    assert(chunk@.subrange(0, chunk@.len() as int) =~= chunk@);
    assert(header =~= spec_write_header(address, pixel_count));
    command
}

/// The number of WRITE commands that `len` bytes of pixels take.
pub open spec fn spec_chunk_count(len: nat) -> nat {
    (len + 4095) / 4096
}

/// The bytes of pixels that the WRITE command with the number `k` carries,
/// counted from zero: 4096 bytes, or what is left for the last one.
pub open spec fn spec_chunk(pixels: Seq<u8>, k: int) -> Seq<u8> {
    pixels.subrange(
        4096 * k,
        if 4096 * (k + 1) <= pixels.len() {
            4096 * (k + 1)
        } else {
            pixels.len() as int
        },
    )
}

/// The commands that write `pixels`, two bytes each, from `start_address`
/// on: one WRITE command for every 4096 bytes, each going on at the address
/// behind the pixels of the one before it.
pub fn write_commands(start_address: u32, pixels: &[u8]) -> (commands: Vec<Vec<u8>>)
    requires
        pixels@.len() % 4096 != 1,
        start_address + pixels@.len() / 2 <= u32::MAX,
    ensures
        commands@.len() == spec_chunk_count(pixels@.len()),
        forall|k: int|
            0 <= k < commands@.len() ==> (#[trigger] commands@[k])@ == spec_write_command(
                (start_address + 2048 * k) as u32,
                spec_chunk(pixels@, k),
            ),
{
    let mut commands: Vec<Vec<u8>> = Vec::new();
    let mut address: u32 = start_address;
    let mut from: usize = 0;
    while from < pixels.len()
        invariant
            from <= pixels@.len(),
            from % 4096 == 0 || from == pixels@.len(),
            pixels@.len() % 4096 != 1,
            start_address + pixels@.len() / 2 <= u32::MAX,
            address == start_address + from / 2,
            commands@.len() == (from + 4095) / 4096,
            forall|k: int|
                0 <= k < commands@.len() ==> (#[trigger] commands@[k])@ == spec_write_command(
                    (start_address + 2048 * k) as u32,
                    spec_chunk(pixels@, k),
                ),
        decreases pixels@.len() - from,
    {
        let to = if pixels.len() - from >= MAX_PACKET_SIZE {
            from + MAX_PACKET_SIZE
        } else {
            pixels.len()
        };
        let chunk = vstd::slice::slice_subrange(pixels, from, to);
        let ghost k = commands@.len() as int;
        assert(chunk@ == spec_chunk(pixels@, k));
        let pixel_count = (chunk.len() / 2 - 1) as u32;
        let command = write_command(address, chunk);
        commands.push(command);
        address = address + pixel_count + 1;
        from = to;
    }
    commands
}

/// The address at which the next WRITE command goes on, after one that
/// wrote `pixel_count + 1` pixels from `current_address` on into an area
/// `width` pixels wide.
pub fn next_address(current_address: u32, pixel_count: u32, width: u32) -> (address: u32)
    requires
        width > 0,
        spec_next_address(current_address, pixel_count, width) <= u32::MAX,
        pixel_count < u32::MAX,
    ensures
        address == spec_next_address(current_address, pixel_count, width),
{
    let column = current_address % width;
    assert(column <= current_address) by (nonlinear_arith)
        requires
            column == current_address % width,
            width > 0,
    ;
    let address_without_column = current_address - column;
    let written: u64 = column as u64 + pixel_count as u64 + 1;
    let rows: u64 = written / (width as u64);
    let rest: u64 = written % (width as u64);
    assert(rows * 480 + rest + address_without_column <= u32::MAX);
    (address_without_column as u64 + rows * 480 + rest) as u32
}

} // verus!
