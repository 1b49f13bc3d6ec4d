//! The device protocol: command framing, the two drawing paths, the
//! firmware-version reply decoder, and the filter that picks the LED
//! matrix modules out of a list of serial ports. Everything here computes
//! bytes; writing them to the port and reading replies back happens
//! outside the library.

use crate::matrix::{Matrix, bit_of, grid_bit, transpose, transpose_of};
use vstd::prelude::*;

verus! {

/// Opcode: set the global brightness multiplier.
pub const BRIGHTNESS_CMD: u8 = 0x00;

/// Opcode: display a built-in pattern.
pub const PATTERN_CMD: u8 = 0x01;

/// Opcode: reboot into firmware update mode.
pub const BOOTLOADER_CMD: u8 = 0x02;

/// Opcode: enter (1) or leave (0) the low-power display state.
pub const SLEEP_CMD: u8 = 0x03;

/// Opcode: play a built-in animation.
pub const ANIMATE_CMD: u8 = 0x04;

/// Opcode: display a distress pattern.
pub const PANIC_CMD: u8 = 0x05;

/// Opcode: bulk boolean draw, one bit per cell.
pub const DRAW_CMD: u8 = 0x06;

/// Opcode: stage one column of brightness values.
pub const SET_COL: u8 = 0x07;

/// Opcode: flush all staged columns to the display.
pub const COMMIT_COL: u8 = 0x08;

/// Opcode: request the firmware version.
pub const CHECKFW_CMD: u8 = 0x20;

/// First byte of the sync marker that opens every command frame.
pub const CMD_START_0: u8 = 0x32;

/// Second byte of the sync marker.
pub const CMD_START_1: u8 = 0xAC;

/// A full command frame: the two sync bytes, the opcode, the parameters.
pub open spec fn frame_spec(cmd: u8, params: Seq<u8>) -> Seq<u8> {
    seq![CMD_START_0, CMD_START_1, cmd] + params
}

/// Build the byte frame for a command: sync marker, opcode, parameters.
pub fn frame_command(cmd: u8, params: &[u8]) -> (buf: Vec<u8>)
    ensures
        buf@ == frame_spec(cmd, params@),
{
    let mut buf: Vec<u8> = Vec::new();
    buf.push(CMD_START_0);
    buf.push(CMD_START_1);
    buf.push(cmd);
    let mut k: usize = 0;
    while k < params.len()
        invariant
            k <= params@.len(),
            buf@ == seq![CMD_START_0, CMD_START_1, cmd] + params@.take(k as int),
        decreases params@.len() - k,
    {
        buf.push(params[k]);
        k = k + 1;
        assert(params@.take(k as int) == params@.take(k - 1).push(params@[k - 1]));
    }
    assert(params@.take(params@.len() as int) == params@);
    buf
}

/// The frame that wakes the module from the low-power state.
pub fn wake_frame() -> (buf: Vec<u8>)
    ensures
        buf@ == frame_spec(SLEEP_CMD, seq![0u8]),
{
    let params: [u8; 1] = [0];
    frame_command(SLEEP_CMD, params.as_slice())
}

/// The frame that puts the module into the low-power state.
pub fn sleep_frame() -> (buf: Vec<u8>)
    ensures
        buf@ == frame_spec(SLEEP_CMD, seq![1u8]),
{
    let params: [u8; 1] = [1];
    frame_command(SLEEP_CMD, params.as_slice())
}

/// The frame that sets every cell's brightness multiplier (0 = off,
/// 255 = full).
pub fn set_full_brightness_frame(val: u8) -> (buf: Vec<u8>)
    ensures
        buf@ == frame_spec(BRIGHTNESS_CMD, seq![val]),
{
    let params: [u8; 1] = [val];
    frame_command(BRIGHTNESS_CMD, params.as_slice())
}

/// The frame that stages one column (indexed left to right, 0-8) of 34
/// brightness values. Columns show only after a commit frame.
pub fn set_col_frame(col: u8, arr: &[u8; 34]) -> (buf: Vec<u8>)
    ensures
        buf@ == frame_spec(SET_COL, seq![col] + arr@),
{
    let mut params: Vec<u8> = Vec::new();
    params.push(col);
    let mut k: usize = 0;
    while k < 34
        invariant
            k <= 34,
            params@ == seq![col] + arr@.take(k as int),
        decreases 34 - k,
    {
        params.push(arr[k]);
        k = k + 1;
        assert(arr@.take(k as int) == arr@.take(k - 1).push(arr@[k - 1]));
    }
    assert(arr@.take(34) == arr@);
    frame_command(SET_COL, params.as_slice())
}

/// The frame that flushes all staged columns to the display at once.
pub fn commit_col_frame() -> (buf: Vec<u8>)
    ensures
        buf@ == frame_spec(COMMIT_COL, Seq::<u8>::empty()),
{
    let params: [u8; 0] = [];
    let buf = frame_command(COMMIT_COL, params.as_slice());
    assert(frame_spec(COMMIT_COL, params@) =~= frame_spec(COMMIT_COL, Seq::<u8>::empty()));
    buf
}

/// The frame of the boolean fast path: the packed 39-byte bitmap behind
/// the sync marker and the draw opcode. Each cell is one bit, so there is
/// no brightness control, but the whole display updates in one write.
pub fn draw_bool_frame(mat: [[bool; 9]; 34]) -> (buf: Vec<u8>)
    ensures
        buf@.len() == 42,
        buf@[0] == CMD_START_0,
        buf@[1] == CMD_START_1,
        buf@[2] == DRAW_CMD,
        forall|k: int| 0 <= k < 306 ==> bit_of(buf@.skip(3), k) == grid_bit(mat.deep_view(), k),
        forall|k: int| 306 <= k < 312 ==> !bit_of(buf@.skip(3), k),
{
    let encoded = crate::matrix::encode(mat);
    let buf = frame_command(DRAW_CMD, encoded.as_slice());
    assert(buf@.skip(3) =~= encoded@);
    buf
}

/// The frames of the per-cell brightness path: one staged-column frame for
/// each of the 9 columns of the transposed matrix, in column order, then
/// the commit frame. 34 times the data of the boolean path, and ten writes
/// instead of one, but every cell carries its own brightness.
pub fn draw_matrix_frames(mat: Matrix) -> (frames: Vec<Vec<u8>>)
    ensures
        frames@.len() == 10,
        forall|c: int|
            0 <= c < 9 ==> (#[trigger] frames@[c])@ == frame_spec(
                SET_COL,
                seq![c as u8] + transpose_of(mat.deep_view(), 34, 9)[c],
            ),
        frames@[9]@ == frame_spec(COMMIT_COL, Seq::<u8>::empty()),
{
    let tpose = transpose(mat);
    let mut frames: Vec<Vec<u8>> = Vec::new();
    let mut c: usize = 0;
    while c < 9
        invariant
            c <= 9,
            frames@.len() == c,
            tpose.deep_view() == transpose_of(mat.deep_view(), 34, 9),
            forall|c0: int|
                0 <= c0 < c ==> (#[trigger] frames@[c0])@ == frame_spec(
                    SET_COL,
                    seq![c0 as u8] + transpose_of(mat.deep_view(), 34, 9)[c0],
                ),
        decreases 9 - c,
    {
        let f = set_col_frame(c as u8, &tpose[c]);
        proof {
            assert(tpose@[c as int]@ == tpose.deep_view()[c as int]);
            assert(f@ == frame_spec(
                SET_COL,
                seq![c as u8] + transpose_of(mat.deep_view(), 34, 9)[c as int],
            ));
        }
        frames.push(f);
        c = c + 1;
    }
    frames.push(commit_col_frame());
    frames
}

/// A decoded firmware-version reply.
#[derive(Clone, Copy, PartialEq, Eq, Structural, Debug)]
pub struct FwVersion {
    pub major: u8,
    pub minor: u8,
    pub patch: u8,
    pub pre_release: bool,
}

/// Decode a firmware-version reply: byte 0 is the major version, the high
/// nibble of byte 1 the minor, its low nibble the patch, and byte 2 equal
/// to 1 marks a pre-release build. A reply of fewer than 3 bytes carries
/// no version.
pub fn decode_fw_version(bytes: &[u8]) -> (r: Option<FwVersion>)
    ensures
        bytes@.len() < 3 ==> r is None,
        bytes@.len() >= 3 ==> r == Some(
            FwVersion {
                major: bytes@[0],
                minor: (bytes@[1] & 0xF0) >> 4u8,
                patch: bytes@[1] & 0x0F,
                pre_release: bytes@[2] == 1,
            },
        ),
{
    if bytes.len() < 3 {
        return None;
    }
    let major = bytes[0];
    let minor = (bytes[1] & 0xF0) >> 4;
    let patch = bytes[1] & 0x0F;
    let pre_release = bytes[2] == 1;
    Some(FwVersion { major, minor, patch, pre_release })
}

/// The USB vendor identifier of the LED matrix module.
pub const LEDMATRIX_VID: u16 = 12972;

/// The USB product identifier of the LED matrix module.
pub const LEDMATRIX_PID: u16 = 32;

/// Identity of one serial port: its system name and the USB vendor and
/// product identifiers of the device behind it.
pub struct PortId {
    pub name: String,
    pub vid: u16,
    pub pid: u16,
}

/// Whether a port's USB identifiers name the LED matrix module.
pub open spec fn is_led_module(p: PortId) -> bool {
    p.vid == LEDMATRIX_VID && p.pid == LEDMATRIX_PID
}

/// The sub-sequence of ports that are LED matrix modules, in their
/// original order.
pub open spec fn led_modules_of(s: Seq<PortId>) -> Seq<PortId>
    decreases s.len(),
{
    if s.len() == 0 {
        Seq::empty()
    } else {
        let rest = led_modules_of(s.drop_first());
        if is_led_module(s.first()) {
            seq![s.first()] + rest
        } else {
            rest
        }
    }
}

/// Keep the ports whose USB identifiers match the LED matrix module,
/// preserving their order.
pub fn detect(ports: Vec<PortId>) -> (found: Vec<PortId>)
    ensures
        found@ == led_modules_of(ports@),
{
    let ghost all = ports@;
    let mut rest = ports;
    let mut found: Vec<PortId> = Vec::new();
    while rest.len() > 0
        invariant
            led_modules_of(all) == found@ + led_modules_of(rest@),
        decreases rest@.len(),
    {
        let ghost before = rest@;
        let p = rest.remove(0);
        let keep = p.vid == LEDMATRIX_VID && p.pid == LEDMATRIX_PID;
        proof {
            assert(before.drop_first() == rest@);
            if is_led_module(before.first()) {
                assert(found@ + led_modules_of(before) == (found@ + seq![before.first()])
                    + led_modules_of(rest@));
            }
        }
        if keep {
            found.push(p);
        }
    }
    assert(led_modules_of(rest@) =~= Seq::<PortId>::empty());
    assert(found@ =~= found@ + led_modules_of(rest@));
    found
}

} // verus!
